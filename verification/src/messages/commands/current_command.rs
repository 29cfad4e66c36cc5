//! The command that tells the current date and time in UTC.

use std::fmt::Write;
use vstd::prelude::*;
use crate::clock::now_millis;
use crate::credential::opt_str_view;
use crate::messages::commands::CommandItem;
use crate::messages::command::{
    opt_privmsg_view, ChatMessage, ChatMessageView, Command, CommandInfo, CommandInfoView, Privmsg,
    PrivmsgView,
};
use crate::text::concat3;

verus! {

/// The day of the month of the moment `timestamp` milliseconds after the
/// Unix epoch, in UTC; `None` where the calendar does not reach that
/// moment.
pub uninterp spec fn utc_day_of_month(timestamp: i64) -> Option<u32>;

/// The moment `timestamp` milliseconds after the Unix epoch, in UTC,
/// written out after a `strftime` pattern; `None` where the calendar does
/// not reach that moment or the pattern is not a valid one.
pub uninterp spec fn utc_formatted(timestamp: i64, pattern: Seq<char>) -> Option<Seq<char>>;

/// Calls `chrono::Datelike::day` on the moment that
/// `chrono::DateTime::from_timestamp_millis` makes of `timestamp`.
/// Trusted: the result is [`utc_day_of_month`] of the timestamp.
#[verifier::external_body]
fn day_of_month(timestamp: i64) -> (day: Option<u32>)
    ensures
        day == utc_day_of_month(timestamp),
{
    match chrono::DateTime::<chrono::Utc>::from_timestamp_millis(timestamp) {
        Some(moment) => Some(chrono::Datelike::day(&moment)),
        None => None,
    }
}

/// Calls `chrono::DateTime::format` on the moment that
/// `chrono::DateTime::from_timestamp_millis` makes of `timestamp`, and
/// writes the result out. Trusted: the text is [`utc_formatted`] of the
/// timestamp and the pattern.
#[verifier::external_body]
fn format_utc(timestamp: i64, pattern: &str) -> (text: Option<String>)
    ensures
        opt_str_view(text) == utc_formatted(timestamp, pattern@),
{
    let moment = chrono::DateTime::<chrono::Utc>::from_timestamp_millis(timestamp)?;
    let mut text = String::new();
    write!(text, "{}", moment.format(pattern)).ok()?;
    Some(text)
}

/// The ordinal suffix of a day of the month.
pub open spec fn day_suffix(day: u32) -> Seq<char> {
    if day == 1 || day == 21 || day == 31 {
        "st"@
    } else if day == 2 || day == 22 {
        "nd"@
    } else if day == 3 || day == 23 {
        "rd"@
    } else {
        "th"@
    }
}

/// The pattern the moment is written out after, for a day of the month.
pub open spec fn date_pattern(day: u32) -> Seq<char> {
    "%I:%M:%S %p on %d"@ + day_suffix(day) + " of %B, %G"@
}

/// The answer to `message` at `timestamp`: the moment, written out after
/// the pattern for its day, posted to the message's channel.
pub open spec fn current_reply(message: ChatMessageView, timestamp: i64) -> Option<PrivmsgView> {
    match utc_day_of_month(timestamp) {
        None => None,
        Some(day) => match utc_formatted(timestamp, date_pattern(day)) {
            None => None,
            Some(text) => Some(
                PrivmsgView {
                    channel: message.channel_login,
                    message: "Current datetime: "@ + text,
                },
            ),
        },
    }
}

pub fn get_day_suffix(day: u32) -> (suffix: &'static str)
    ensures
        suffix@ == day_suffix(day),
{
    match day {
        1 | 21 | 31 => "st",
        2 | 22 => "nd",
        3 | 23 => "rd",
        _ => "th",
    }
}

/// Builds the pattern for a day of the month.
pub fn get_date_pattern(day: u32) -> (pattern: String)
    ensures
        pattern@ == date_pattern(day),
{
    concat3("%I:%M:%S %p on %d", get_day_suffix(day), " of %B, %G")
}

#[derive(Debug)]
pub struct CurrentCommand {
    command_info: CommandInfo,
}

impl CurrentCommand {
    pub closed spec fn info(self) -> CommandInfoView {
        self.command_info@
    }

    /// What holds of every date and time command.
    pub open spec fn wf(self) -> bool {
        self.info() == (CommandInfoView {
            description: "Returns current datetime in UTC timezone"@,
            name: "Current Time (UTC)"@,
            slug: "current"@,
        })
    }

    pub fn default() -> (item: CommandItem)
        ensures
            item matches CommandItem::CurrentCommand(command) && command.wf(),
    {
        let command_info = CommandInfo::new(
            "Current Time (UTC)",
            "Returns current datetime in UTC timezone",
            "current",
        );
        let command = Self { command_info };
        CommandItem::CurrentCommand(command)
    }

    /// Composes the answer as of `timestamp` milliseconds since the Unix
    /// epoch.
    pub fn reply_at(&self, message: &ChatMessage, timestamp: i64) -> (reply: Option<Privmsg>)
        ensures
            opt_privmsg_view(reply) == current_reply(message@, timestamp),
    {
        match day_of_month(timestamp) {
            None => None,
            Some(day) => {
                let pattern = get_date_pattern(day);
                match format_utc(timestamp, pattern.as_str()) {
                    None => None,
                    Some(text) => {
                        let mut line = String::from_str("Current datetime: ");
                        line.append(text.as_str());
                        Some(Privmsg { channel: message.channel_login.clone(), message: line })
                    },
                }
            },
        }
    }
}

impl Command for CurrentCommand {
    fn get_command_info(&self) -> (info: &CommandInfo)
        ensures
            info@ == self.info(),
    {
        &self.command_info
    }

    /// Reads the clock and composes the answer as of then.
    fn execute(&self, message: &ChatMessage) -> (reply: Option<Privmsg>)
        ensures
            exists|timestamp: i64|
                opt_privmsg_view(reply) == #[trigger] current_reply(message@, timestamp),
    {
        let now: i64 = now_millis();
        self.reply_at(message, now)
    }
}

} // verus!
