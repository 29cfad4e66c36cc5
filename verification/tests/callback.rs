use develbot::callback::{find_last, reply_for, CallbackListener, CallbackReply};

fn listener() -> CallbackListener {
    CallbackListener::new("localhost:8080".to_string())
}

fn pair(name: &str, value: &str) -> (String, String) {
    (name.to_string(), value.to_string())
}

#[test]
fn a_request_with_both_parameters_completes() {
    let reply = listener().respond("/oauth-receive/?code=abc&state=xyz");
    assert_eq!(reply, CallbackReply::Complete { code: "abc".to_string(), state: "xyz".to_string() });
    assert_eq!(reply.status(), 200);
    assert_eq!(reply.body(), "Got the token, good to go");
    assert!(!reply.keeps_waiting());
}

#[test]
fn a_request_without_state_is_a_client_error() {
    let reply = listener().respond("/cb?code=abc");
    assert_eq!(reply, CallbackReply::MissingState);
    assert_eq!(reply.status(), 400);
    assert_eq!(reply.body(), "Couldn't find query parameter 'state'");
    assert!(reply.keeps_waiting());
}

#[test]
fn a_request_without_code_is_a_client_error() {
    let reply = listener().respond("/cb?state=xyz");
    assert_eq!(reply, CallbackReply::MissingCode);
    assert_eq!(reply.status(), 400);
    assert_eq!(reply.body(), "Couldn't find query parameter 'code'");
    assert!(reply.keeps_waiting());

    let neither = listener().respond("/cb");
    assert_eq!(neither, CallbackReply::MissingCode);
    let other = listener().respond("/cb?error=access_denied&error_description=no");
    assert_eq!(other, CallbackReply::MissingCode);
}

#[test]
fn an_unreadable_target_is_a_server_error() {
    let unbound = CallbackListener::new("localhost:99999".to_string());
    let reply = unbound.respond("/cb?code=abc&state=xyz");
    assert_eq!(reply, CallbackReply::Malformed);
    assert_eq!(reply.status(), 500);
    assert_eq!(reply.body(), "Couldn't parse uri");
    assert!(reply.keeps_waiting());

    let spaced = CallbackListener::new("local host:8080".to_string());
    assert_eq!(spaced.respond("/cb?code=abc&state=xyz"), CallbackReply::Malformed);
    let lettered = CallbackListener::new("localhost:http".to_string());
    assert_eq!(lettered.respond("/cb?code=abc&state=xyz"), CallbackReply::Malformed);
}

#[test]
fn parameters_are_decoded() {
    let reply = listener().respond("/cb?code=a%20b%26c&state=x+y%3D");
    assert_eq!(
        reply,
        CallbackReply::Complete { code: "a b&c".to_string(), state: "x y=".to_string() }
    );
}

#[test]
fn the_last_of_repeated_parameters_counts() {
    let reply = listener().respond("/cb?code=first&state=one&code=second&state=two");
    assert_eq!(
        reply,
        CallbackReply::Complete { code: "second".to_string(), state: "two".to_string() }
    );
}

#[test]
fn empty_parameters_are_present() {
    let reply = listener().respond("/cb?code=&state");
    assert_eq!(reply, CallbackReply::Complete { code: "".to_string(), state: "".to_string() });
}

#[test]
fn the_fragment_is_no_part_of_the_query() {
    let reply = listener().respond("/cb?code=abc#state=xyz");
    assert_eq!(reply, CallbackReply::MissingState);
}

#[test]
fn reply_follows_from_the_pairs() {
    assert_eq!(reply_for(None), CallbackReply::Malformed);
    assert_eq!(reply_for(Some(vec![])), CallbackReply::MissingCode);
    assert_eq!(reply_for(Some(vec![pair("state", "s")])), CallbackReply::MissingCode);
    assert_eq!(reply_for(Some(vec![pair("code", "c")])), CallbackReply::MissingState);
    assert_eq!(
        reply_for(Some(vec![pair("state", "s"), pair("other", "o"), pair("code", "c")])),
        CallbackReply::Complete { code: "c".to_string(), state: "s".to_string() }
    );
    assert_eq!(
        reply_for(Some(vec![pair("Code", "c"), pair("STATE", "s")])),
        CallbackReply::MissingCode
    );
}

#[test]
fn find_last_takes_the_last_of_a_name() {
    let pairs = vec![pair("a", "1"), pair("b", "2"), pair("a", "3")];
    assert_eq!(find_last(&pairs, "a"), Some("3".to_string()));
    assert_eq!(find_last(&pairs, "b"), Some("2".to_string()));
    assert_eq!(find_last(&pairs, "c"), None);
    assert_eq!(find_last(&vec![], "a"), None);
}
