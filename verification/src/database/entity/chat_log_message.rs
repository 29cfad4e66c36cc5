//! One line of the chat log.

use vstd::prelude::*;

verus! {

#[derive(Debug, PartialEq, Eq)]
pub struct ChatLogMessage {
    pub id: Option<i32>,
    pub chatter_login: String,
    pub message: String,
    /// When the message was posted, in milliseconds since the Unix epoch.
    pub posted_at: i64,
    pub version: i16,
}

pub struct ChatLogMessageView {
    pub id: Option<i32>,
    pub chatter_login: Seq<char>,
    pub message: Seq<char>,
    pub posted_at: i64,
    pub version: i16,
}

impl View for ChatLogMessage {
    type V = ChatLogMessageView;

    open spec fn view(&self) -> ChatLogMessageView {
        ChatLogMessageView {
            id: self.id,
            chatter_login: self.chatter_login@,
            message: self.message@,
            posted_at: self.posted_at,
            version: self.version,
        }
    }
}

impl ChatLogMessage {
    /// The version of the row layout that new rows are written in.
    pub const CURRENT_VERSION: i16 = 1;

    /// A row not yet inserted: it has no id, and the current version.
    pub fn new(chatter_login: String, message: String, posted_at: i64) -> (row: Self)
        ensures
            row@ == (ChatLogMessageView {
                id: None,
                chatter_login: chatter_login@,
                message: message@,
                posted_at,
                version: 1,
            }),
    {
        Self {
            id: None,
            chatter_login,
            message,
            posted_at,
            version: ChatLogMessage::CURRENT_VERSION,
        }
    }
}

} // verus!
