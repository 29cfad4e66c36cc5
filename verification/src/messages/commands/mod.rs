//! The commands the bot knows.

use vstd::prelude::*;
use crate::messages::commands::current_command::CurrentCommand;
use crate::messages::commands::hello_command::HelloCommand;
use crate::messages::command::{
    opt_privmsg_view, ChatMessage, Command, CommandInfo, CommandInfoView, Privmsg, PrivmsgView,
};

pub mod current_command;
pub mod hello_command;

verus! {

#[derive(Debug)]
pub enum CommandItem {
    CurrentCommand(CurrentCommand),
    HelloCommand(HelloCommand),
}

impl CommandItem {
    /// How the command presents itself.
    pub open spec fn info(self) -> CommandInfoView {
        match self {
            CommandItem::CurrentCommand(command) => command.info(),
            CommandItem::HelloCommand(command) => command.info(),
        }
    }

    /// The answer of the command to `message`, composed at `timestamp`
    /// milliseconds since the Unix epoch.
    pub open spec fn reply_at(self, message: crate::messages::command::ChatMessageView, timestamp: i64)
        -> Option<PrivmsgView> {
        match self {
            CommandItem::CurrentCommand(command) => current_command::current_reply(
                message,
                timestamp,
            ),
            CommandItem::HelloCommand(command) => Some(hello_command::hello_reply(message)),
        }
    }

    /// Runs the command as if at `timestamp` milliseconds since the Unix
    /// epoch.
    pub fn execute_at(&self, message: &ChatMessage, timestamp: i64) -> (reply: Option<Privmsg>)
        ensures
            opt_privmsg_view(reply) == self.reply_at(message@, timestamp),
    {
        match self {
            CommandItem::CurrentCommand(command) => command.reply_at(message, timestamp),
            CommandItem::HelloCommand(command) => Some(command.reply(message)),
        }
    }
}

impl Command for CommandItem {
    fn get_command_info(&self) -> (info: &CommandInfo)
        ensures
            info@ == self.info(),
    {
        match self {
            CommandItem::CurrentCommand(command) => command.get_command_info(),
            CommandItem::HelloCommand(command) => command.get_command_info(),
        }
    }

    fn execute(&self, message: &ChatMessage) -> (reply: Option<Privmsg>)
        ensures
            exists|timestamp: i64|
                opt_privmsg_view(reply) == #[trigger] self.reply_at(message@, timestamp),
    {
        match self {
            CommandItem::CurrentCommand(command) => {
                let reply = command.execute(message);
                proof {
                    let timestamp = choose|timestamp: i64|
                        opt_privmsg_view(reply) == #[trigger] current_command::current_reply(
                            message@,
                            timestamp,
                        );
                    assert(opt_privmsg_view(reply) == self.reply_at(message@, timestamp));
                }
                reply
            },
            CommandItem::HelloCommand(command) => {
                let reply = command.execute(message);
                assert(opt_privmsg_view(reply) == self.reply_at(message@, 0));
                reply
            },
        }
    }
}

} // verus!
