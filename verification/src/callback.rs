//! The local endpoint that receives the authorization redirect: what it
//! answers to each request, and when it has what it waits for.

use vstd::prelude::*;
use crate::credential::opt_str_view;
use crate::text::concat3;

verus! {

/// The query pairs of an absolute URL, in the order they appear, names and
/// values percent-decoded; `None` where the text is no absolute URL.
pub uninterp spec fn url_query_pairs(url: Seq<char>) -> Option<Seq<(Seq<char>, Seq<char>)>>;

/// View of a list of name and value pairs.
pub open spec fn pairs_view(pairs: Seq<(String, String)>) -> Seq<(Seq<char>, Seq<char>)> {
    Seq::new(pairs.len(), |i: int| (pairs[i].0@, pairs[i].1@))
}

/// View of the outcome of parsing a URL for its query pairs.
pub open spec fn parsed_view(parsed: Option<Vec<(String, String)>>) -> Option<
    Seq<(Seq<char>, Seq<char>)>,
> {
    match parsed {
        Some(pairs) => Some(pairs_view(pairs@)),
        None => None,
    }
}

/// Calls `url::Url::parse` and, on the parsed URL, `Url::query_pairs`.
/// Trusted: the result is [`url_query_pairs`] of the text, that is, `None`
/// exactly when `Url::parse` returns an error, and otherwise every pair the
/// iterator of `query_pairs` yields, in its order.
#[verifier::external_body]
fn parse_query_pairs(url: &str) -> (parsed: Option<Vec<(String, String)>>)
    ensures
        parsed_view(parsed) == url_query_pairs(url@),
{
    match url::Url::parse(url) {
        Ok(parsed) => Some(parsed.query_pairs().into_owned().collect()),
        Err(_) => None,
    }
}

/// The value of the last pair named `name`, if there is one.
pub open spec fn last_value(pairs: Seq<(Seq<char>, Seq<char>)>, name: Seq<char>) -> Option<
    Seq<char>,
>
    decreases pairs.len(),
{
    if pairs.len() == 0 {
        None
    } else if pairs.last().0 == name {
        Some(pairs.last().1)
    } else {
        last_value(pairs.drop_last(), name)
    }
}

/// What the endpoint answers to one request.
#[derive(Debug, PartialEq, Eq)]
pub enum CallbackReply {
    /// The request target did not parse as a URL.
    Malformed,
    /// The query holds no `code` parameter.
    MissingCode,
    /// The query holds a `code` but no `state` parameter.
    MissingState,
    /// Both parameters are there: the endpoint has its redirect.
    Complete { code: String, state: String },
}

pub enum CallbackReplyView {
    Malformed,
    MissingCode,
    MissingState,
    Complete { code: Seq<char>, state: Seq<char> },
}

impl View for CallbackReply {
    type V = CallbackReplyView;

    open spec fn view(&self) -> CallbackReplyView {
        match self {
            CallbackReply::Malformed => CallbackReplyView::Malformed,
            CallbackReply::MissingCode => CallbackReplyView::MissingCode,
            CallbackReply::MissingState => CallbackReplyView::MissingState,
            CallbackReply::Complete { code, state } => CallbackReplyView::Complete {
                code: code@,
                state: state@,
            },
        }
    }
}

impl CallbackReplyView {
    /// The response status: success for a complete redirect, a client error
    /// for a missing parameter, a server error for an unreadable target.
    pub open spec fn status(self) -> u16 {
        match self {
            CallbackReplyView::Malformed => 500,
            CallbackReplyView::MissingCode => 400,
            CallbackReplyView::MissingState => 400,
            CallbackReplyView::Complete { .. } => 200,
        }
    }

    /// The human-readable response body.
    pub open spec fn body(self) -> Seq<char> {
        match self {
            CallbackReplyView::Malformed => "Couldn't parse uri"@,
            CallbackReplyView::MissingCode => "Couldn't find query parameter 'code'"@,
            CallbackReplyView::MissingState => "Couldn't find query parameter 'state'"@,
            CallbackReplyView::Complete { .. } => "Got the token, good to go"@,
        }
    }
}

/// The answer to a request whose target parsed to `parsed`.
pub open spec fn callback_reply(parsed: Option<Seq<(Seq<char>, Seq<char>)>>) -> CallbackReplyView {
    match parsed {
        None => CallbackReplyView::Malformed,
        Some(pairs) => match last_value(pairs, "code"@) {
            None => CallbackReplyView::MissingCode,
            Some(code) => match last_value(pairs, "state"@) {
                None => CallbackReplyView::MissingState,
                Some(state) => CallbackReplyView::Complete { code, state },
            },
        },
    }
}

/// The absolute URL of a request: its target, relative to the bound address.
pub open spec fn request_url(bind_address: Seq<char>, target: Seq<char>) -> Seq<char> {
    "http://"@ + bind_address + target
}

impl CallbackReply {
    pub fn status(&self) -> (status: u16)
        ensures
            status == self@.status(),
    {
        match self {
            CallbackReply::Malformed => 500,
            CallbackReply::MissingCode => 400,
            CallbackReply::MissingState => 400,
            CallbackReply::Complete { .. } => 200,
        }
    }

    pub fn body(&self) -> (body: &'static str)
        ensures
            body@ == self@.body(),
    {
        match self {
            CallbackReply::Malformed => "Couldn't parse uri",
            CallbackReply::MissingCode => "Couldn't find query parameter 'code'",
            CallbackReply::MissingState => "Couldn't find query parameter 'state'",
            CallbackReply::Complete { .. } => "Got the token, good to go",
        }
    }

    /// Whether the endpoint goes on waiting after this reply: it does unless
    /// the request carried both parameters.
    pub fn keeps_waiting(&self) -> (waiting: bool)
        ensures
            waiting == !(self@ is Complete),
    {
        match self {
            CallbackReply::Complete { .. } => false,
            _ => true,
        }
    }
}

/// Finds the value of the last pair named `name`.
pub fn find_last(pairs: &Vec<(String, String)>, name: &str) -> (found: Option<String>)
    ensures
        opt_str_view(found) == last_value(pairs_view(pairs@), name@),
{
    let wanted = String::from_str(name);
    let mut found: Option<String> = None;
    let mut i: usize = 0;
    while i < pairs.len()
        invariant
            i <= pairs.len(),
            wanted@ == name@,
            opt_str_view(found) == last_value(
                pairs_view(pairs@).take(i as int),
                name@,
            ),
        decreases pairs.len() - i,
    {
        proof {
            let all = pairs_view(pairs@);
            assert(all.take(i + 1).drop_last() =~= all.take(i as int));
        }
        if pairs[i].0 == wanted {
            found = Some(pairs[i].1.clone());
        }
        i += 1;
    }
    proof {
        assert(pairs_view(pairs@).take(i as int) =~= pairs_view(pairs@));
    }
    found
}

/// Decides the answer to a request from what its target parsed to.
pub fn reply_for(parsed: Option<Vec<(String, String)>>) -> (reply: CallbackReply)
    ensures
        reply@ == callback_reply(parsed_view(parsed)),
{
    match parsed {
        None => CallbackReply::Malformed,
        Some(pairs) => {
            match find_last(&pairs, "code") {
                None => CallbackReply::MissingCode,
                Some(code) => match find_last(&pairs, "state") {
                    None => CallbackReply::MissingState,
                    Some(state) => CallbackReply::Complete { code, state },
                },
            }
        },
    }
}

/// The endpoint bound to one address, waiting for one redirect.
#[derive(Debug)]
pub struct CallbackListener {
    pub bind_address: String,
}

impl CallbackListener {
    pub fn new(bind_address: String) -> (listener: CallbackListener)
        ensures
            listener.bind_address == bind_address,
    {
        CallbackListener { bind_address }
    }

    /// Answers one request, given its target. The target is read as a URL
    /// relative to the bound address, and the answer follows from its query
    /// parameters alone.
    pub fn respond(&self, target: &str) -> (reply: CallbackReply)
        ensures
            reply@ == callback_reply(url_query_pairs(request_url(self.bind_address@, target@))),
    {
        let url = concat3("http://", self.bind_address.as_str(), target);
        reply_for(parse_query_pairs(url.as_str()))
    }
}

} // verus!
