//! The command that greets whoever calls it.

use vstd::prelude::*;
use crate::messages::commands::CommandItem;
use crate::messages::command::{
    ChatMessage, ChatMessageView, Command, CommandInfo, CommandInfoView, Privmsg, PrivmsgView,
};
use crate::text::concat3;

verus! {

#[derive(Debug)]
pub struct HelloCommand {
    command_info: CommandInfo,
}

/// The greeting for the sender of `message`, posted to its channel.
pub open spec fn hello_reply(message: ChatMessageView) -> PrivmsgView {
    PrivmsgView {
        channel: message.channel_login,
        message: "Hello, "@ + message.sender_name + "!"@,
    }
}

impl HelloCommand {
    pub closed spec fn info(self) -> CommandInfoView {
        self.command_info@
    }

    /// What holds of every greeting command.
    pub open spec fn wf(self) -> bool {
        self.info() == (CommandInfoView {
            description: "Says 'Hello, <username>' in the chat"@,
            name: "Say Hello"@,
            slug: "hello"@,
        })
    }

    pub fn default() -> (item: CommandItem)
        ensures
            item matches CommandItem::HelloCommand(command) && command.wf(),
    {
        let command_info = CommandInfo::new(
            "Say Hello",
            "Says 'Hello, <username>' in the chat",
            "hello",
        );
        let command = Self { command_info };
        CommandItem::HelloCommand(command)
    }

    /// Composes the greeting.
    pub fn reply(&self, message: &ChatMessage) -> (reply: Privmsg)
        ensures
            reply@ == hello_reply(message@),
    {
        Privmsg {
            channel: message.channel_login.clone(),
            message: concat3("Hello, ", message.sender_name.as_str(), "!"),
        }
    }
}

impl Command for HelloCommand {
    fn get_command_info(&self) -> (info: &CommandInfo)
        ensures
            info@ == self.info(),
    {
        &self.command_info
    }

    fn execute(&self, message: &ChatMessage) -> (reply: Option<Privmsg>)
        ensures
            reply matches Some(privmsg) && privmsg@ == hello_reply(message@),
    {
        Some(self.reply(message))
    }
}

} // verus!
