//! What the bot does with each message of the chat server.

use vstd::prelude::*;
use crate::clock::now_millis;
use crate::database::entity::chat_log_message::{ChatLogMessage, ChatLogMessageView};
use crate::messages::command::{
    command_prefix, opt_privmsg_view, ChatMessage, ChatMessageView, Command, Privmsg, PrivmsgView,
};
use crate::messages::commands::current_command::CurrentCommand;
use crate::messages::commands::hello_command::HelloCommand;
use crate::messages::commands::CommandItem;
use crate::text::starts_with;

verus! {

/// A message of the chat server, as far as the bot acts on it.
#[derive(Debug, PartialEq, Eq)]
pub enum ServerEvent {
    /// The bot has joined a channel.
    Join { channel_login: String },
    /// Someone posted to a channel.
    Privmsg(ChatMessage),
    /// Anything else.
    Other,
}

pub enum ServerEventView {
    Join { channel_login: Seq<char> },
    Privmsg(ChatMessageView),
    Other,
}

impl View for ServerEvent {
    type V = ServerEventView;

    open spec fn view(&self) -> ServerEventView {
        match self {
            ServerEvent::Join { channel_login } => ServerEventView::Join {
                channel_login: channel_login@,
            },
            ServerEvent::Privmsg(message) => ServerEventView::Privmsg(message@),
            ServerEvent::Other => ServerEventView::Other,
        }
    }
}

/// What to do about a message of the chat server.
#[derive(Debug, PartialEq, Eq)]
pub enum Reaction {
    Nothing,
    /// Post a message.
    Send(Privmsg),
    /// Write the line to the chat log. Once it is written, post the
    /// answer, if there is one.
    Record { entry: ChatLogMessage, reply: Option<Privmsg> },
}

pub enum ReactionView {
    Nothing,
    Send(PrivmsgView),
    Record { entry: ChatLogMessageView, reply: Option<PrivmsgView> },
}

impl View for Reaction {
    type V = ReactionView;

    open spec fn view(&self) -> ReactionView {
        match self {
            Reaction::Nothing => ReactionView::Nothing,
            Reaction::Send(privmsg) => ReactionView::Send(privmsg@),
            Reaction::Record { entry, reply } => ReactionView::Record {
                entry: entry@,
                reply: opt_privmsg_view(*reply),
            },
        }
    }
}

/// The first command from `from` on that `text` calls, by its place among
/// `commands`.
pub open spec fn first_called(commands: Seq<CommandItem>, text: Seq<char>, from: int) -> Option<int>
    decreases commands.len() - from,
{
    if from < 0 || from >= commands.len() {
        None
    } else if commands[from].info().is_called_by(text) {
        Some(from)
    } else {
        first_called(commands, text, from + 1)
    }
}

/// The answer to a posted message at `timestamp`: that of the first
/// command the message calls, if it calls one.
pub open spec fn reply_to(commands: Seq<CommandItem>, message: ChatMessageView, timestamp: i64)
    -> Option<PrivmsgView> {
    match first_called(commands, message.message_text, 0) {
        Some(i) => commands[i].reply_at(message, timestamp),
        None => None,
    }
}

/// The reaction to a message of the chat server at `timestamp`. A channel
/// joined is greeted. A posted message goes to the chat log, with the
/// answer of the command it calls. Nothing else is acted on.
pub open spec fn reaction(commands: Seq<CommandItem>, event: ServerEventView, timestamp: i64)
    -> ReactionView {
    match event {
        ServerEventView::Join { channel_login } => ReactionView::Send(
            PrivmsgView { channel: channel_login, message: "Hej"@ },
        ),
        ServerEventView::Privmsg(message) => ReactionView::Record {
            entry: ChatLogMessageView {
                id: None,
                chatter_login: message.sender_login,
                message: message.message_text,
                posted_at: message.server_timestamp,
                version: 1,
            },
            reply: reply_to(commands, message, timestamp),
        },
        ServerEventView::Other => ReactionView::Nothing,
    }
}

#[derive(Debug)]
pub struct MessageProcessor {
    commands: Vec<CommandItem>,
}

impl MessageProcessor {
    /// The commands the processor knows, in the order they are tried.
    pub closed spec fn commands(&self) -> Seq<CommandItem> {
        self.commands@
    }

    /// What holds of every processor: it knows the greeting command and
    /// the date and time command, in this order.
    pub open spec fn wf(&self) -> bool {
        &&& self.commands().len() == 2
        &&& self.commands()[0] matches CommandItem::HelloCommand(hello) && hello.wf()
        &&& self.commands()[1] matches CommandItem::CurrentCommand(current) && current.wf()
    }

    pub fn new() -> (processor: Self)
        ensures
            processor.wf(),
    {
        let commands = MessageProcessor::get_commands();
        Self { commands }
    }

    pub fn get_commands() -> (commands: Vec<CommandItem>)
        ensures
            commands@.len() == 2,
            commands@[0] matches CommandItem::HelloCommand(hello) && hello.wf(),
            commands@[1] matches CommandItem::CurrentCommand(current) && current.wf(),
    {
        let mut commands: Vec<CommandItem> = Vec::new();
        commands.push(HelloCommand::default());
        commands.push(CurrentCommand::default());
        commands
    }

    /// Finds the first command that the message calls: the first whose
    /// slug, behind the prefix, begins the message's text.
    pub fn find_matching_command(&self, message: &ChatMessage) -> (found: Option<&CommandItem>)
        ensures
            match first_called(self.commands(), message@.message_text, 0) {
                Some(i) => found == Some(&self.commands()[i]),
                None => found is None,
            },
    {
        let mut i: usize = 0;
        while i < self.commands.len()
            invariant
                i <= self.commands.len(),
                first_called(self.commands@, message@.message_text, 0) == first_called(
                    self.commands@,
                    message@.message_text,
                    i as int,
                ),
            decreases self.commands.len() - i,
        {
            let command = &self.commands[i];
            let mut slug_with_prefix = String::from_str("~");
            slug_with_prefix.append(command.get_command_info().get_slug());
            if starts_with(message.message_text.as_str(), slug_with_prefix.as_str()) {
                return Some(command);
            }
            i += 1;
        }
        None
    }

    /// Decides the reaction to a message of the chat server, as if at
    /// `timestamp` milliseconds since the Unix epoch.
    pub fn process_message_at(&self, event: &ServerEvent, timestamp: i64) -> (reaction: Reaction)
        ensures
            reaction@ == self::reaction(self.commands(), event@, timestamp),
    {
        match event {
            ServerEvent::Join { channel_login } => Reaction::Send(
                Privmsg { channel: channel_login.clone(), message: String::from_str("Hej") },
            ),
            ServerEvent::Privmsg(message) => {
                let entry = ChatLogMessage::new(
                    message.sender_login.clone(),
                    message.message_text.clone(),
                    message.server_timestamp,
                );
                let reply = match self.find_matching_command(message) {
                    Some(command) => command.execute_at(message, timestamp),
                    None => None,
                };
                Reaction::Record { entry, reply }
            },
            ServerEvent::Other => Reaction::Nothing,
        }
    }

    /// Decides the reaction to a message of the chat server, as of now.
    pub fn process_message(&self, event: &ServerEvent) -> (reaction: Reaction)
        ensures
            exists|timestamp: i64|
                reaction@ == #[trigger] self::reaction(self.commands(), event@, timestamp),
    {
        let now: i64 = now_millis();
        self.process_message_at(event, now)
    }
}

} // verus!
