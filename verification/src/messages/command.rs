//! What a command is: its description, and the contract of running it.

use vstd::prelude::*;

verus! {

/// The text that opens every command in a chat message.
pub open spec fn command_prefix() -> Seq<char> {
    "~"@
}

/// A message posted to a channel, as far as commands read it.
#[derive(Debug, PartialEq, Eq)]
pub struct ChatMessage {
    pub channel_login: String,
    pub sender_login: String,
    pub sender_name: String,
    pub message_text: String,
    /// When the server received the message, in milliseconds since the
    /// Unix epoch.
    pub server_timestamp: i64,
}

pub struct ChatMessageView {
    pub channel_login: Seq<char>,
    pub sender_login: Seq<char>,
    pub sender_name: Seq<char>,
    pub message_text: Seq<char>,
    pub server_timestamp: i64,
}

impl View for ChatMessage {
    type V = ChatMessageView;

    open spec fn view(&self) -> ChatMessageView {
        ChatMessageView {
            channel_login: self.channel_login@,
            sender_login: self.sender_login@,
            sender_name: self.sender_name@,
            message_text: self.message_text@,
            server_timestamp: self.server_timestamp,
        }
    }
}

/// A message to post to a channel.
#[derive(Debug, PartialEq, Eq)]
pub struct Privmsg {
    pub channel: String,
    pub message: String,
}

pub struct PrivmsgView {
    pub channel: Seq<char>,
    pub message: Seq<char>,
}

impl View for Privmsg {
    type V = PrivmsgView;

    open spec fn view(&self) -> PrivmsgView {
        PrivmsgView { channel: self.channel@, message: self.message@ }
    }
}

pub open spec fn opt_privmsg_view(reply: Option<Privmsg>) -> Option<PrivmsgView> {
    match reply {
        Some(privmsg) => Some(privmsg@),
        None => None,
    }
}

/// How a command presents itself.
#[derive(Debug)]
pub struct CommandInfo {
    /// Description of the command
    description: &'static str,
    /// Readable name of the command
    name: &'static str,
    /// Slug that is used for command parsing
    slug: &'static str,
}

pub struct CommandInfoView {
    pub description: Seq<char>,
    pub name: Seq<char>,
    pub slug: Seq<char>,
}

impl View for CommandInfo {
    type V = CommandInfoView;

    closed spec fn view(&self) -> CommandInfoView {
        CommandInfoView { description: self.description@, name: self.name@, slug: self.slug@ }
    }
}

impl CommandInfoView {
    /// Whether a message calls the command: its text begins with the
    /// prefix and the slug.
    pub open spec fn is_called_by(self, text: Seq<char>) -> bool {
        (command_prefix() + self.slug).is_prefix_of(text)
    }
}

impl CommandInfo {
    pub fn new(name: &'static str, description: &'static str, slug: &'static str) -> (info: Self)
        ensures
            info@ == (CommandInfoView { description: description@, name: name@, slug: slug@ }),
    {
        Self { description, name, slug }
    }

    pub fn get_description(&self) -> (description: &str)
        ensures
            description@ == self@.description,
    {
        self.description
    }

    pub fn get_name(&self) -> (name: &str)
        ensures
            name@ == self@.name,
    {
        self.name
    }

    pub fn get_slug(&self) -> (slug: &str)
        ensures
            slug@ == self@.slug,
    {
        self.slug
    }
}

/// What every command offers.
pub trait Command {
    /// How the command presents itself.
    fn get_command_info(&self) -> &CommandInfo;

    /// Runs the command on the message that called it, and gives the
    /// message to post in answer, if one can be composed.
    fn execute(&self, message: &ChatMessage) -> Option<Privmsg>;
}

} // verus!
