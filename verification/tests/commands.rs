use develbot::database::entity::chat_log_message::ChatLogMessage;
use develbot::messages::command::{ChatMessage, Command, CommandInfo, Privmsg};
use develbot::messages::commands::current_command::{
    get_date_pattern, get_day_suffix, CurrentCommand,
};
use develbot::messages::commands::hello_command::HelloCommand;
use develbot::messages::commands::CommandItem;
use develbot::messages::processor::{MessageProcessor, Reaction, ServerEvent};
use develbot::text::starts_with;

fn message(text: &str) -> ChatMessage {
    ChatMessage {
        channel_login: "somechannel".to_string(),
        sender_login: "viewer".to_string(),
        sender_name: "Viewer".to_string(),
        message_text: text.to_string(),
        server_timestamp: 947638923004,
    }
}

#[test]
fn get_day_suffix_works() {
    assert_eq!(get_day_suffix(1), "st");
    assert_eq!(get_day_suffix(2), "nd");
    assert_eq!(get_day_suffix(3), "rd");
    assert_eq!(get_day_suffix(4), "th");
    assert_eq!(get_day_suffix(5), "th");
    assert_eq!(get_day_suffix(6), "th");
    assert_eq!(get_day_suffix(7), "th");
    assert_eq!(get_day_suffix(8), "th");
    assert_eq!(get_day_suffix(9), "th");
    assert_eq!(get_day_suffix(10), "th");
    assert_eq!(get_day_suffix(11), "th");
    assert_eq!(get_day_suffix(12), "th");
    assert_eq!(get_day_suffix(13), "th");
    assert_eq!(get_day_suffix(14), "th");
    assert_eq!(get_day_suffix(15), "th");
    assert_eq!(get_day_suffix(16), "th");
    assert_eq!(get_day_suffix(17), "th");
    assert_eq!(get_day_suffix(18), "th");
    assert_eq!(get_day_suffix(19), "th");
    assert_eq!(get_day_suffix(20), "th");
    assert_eq!(get_day_suffix(21), "st");
    assert_eq!(get_day_suffix(22), "nd");
    assert_eq!(get_day_suffix(23), "rd");
    assert_eq!(get_day_suffix(24), "th");
    assert_eq!(get_day_suffix(25), "th");
    assert_eq!(get_day_suffix(26), "th");
    assert_eq!(get_day_suffix(27), "th");
    assert_eq!(get_day_suffix(28), "th");
    assert_eq!(get_day_suffix(29), "th");
    assert_eq!(get_day_suffix(30), "th");
    assert_eq!(get_day_suffix(31), "st");
}

#[test]
fn day_suffix_outside_a_month_is_th() {
    assert_eq!(get_day_suffix(0), "th");
    assert_eq!(get_day_suffix(32), "th");
    assert_eq!(get_day_suffix(u32::MAX), "th");
}

#[test]
fn date_pattern_carries_the_suffix() {
    assert_eq!(get_date_pattern(1), "%I:%M:%S %p on %dst of %B, %G");
    assert_eq!(get_date_pattern(22), "%I:%M:%S %p on %dnd of %B, %G");
    assert_eq!(get_date_pattern(3), "%I:%M:%S %p on %drd of %B, %G");
    assert_eq!(get_date_pattern(12), "%I:%M:%S %p on %dth of %B, %G");
}

#[test]
fn command_info_keeps_its_texts() {
    let info = CommandInfo::new("Name", "Description", "slug");
    assert_eq!(info.get_name(), "Name");
    assert_eq!(info.get_description(), "Description");
    assert_eq!(info.get_slug(), "slug");
}

#[test]
fn hello_command_describes_itself() {
    let item = HelloCommand::default();
    assert!(matches!(item, CommandItem::HelloCommand(_)));
    let info = item.get_command_info();
    assert_eq!(info.get_name(), "Say Hello");
    assert_eq!(info.get_description(), "Says 'Hello, <username>' in the chat");
    assert_eq!(info.get_slug(), "hello");
}

#[test]
fn current_command_describes_itself() {
    let item = CurrentCommand::default();
    assert!(matches!(item, CommandItem::CurrentCommand(_)));
    let info = item.get_command_info();
    assert_eq!(info.get_name(), "Current Time (UTC)");
    assert_eq!(info.get_description(), "Returns current datetime in UTC timezone");
    assert_eq!(info.get_slug(), "current");
}

#[test]
fn hello_command_greets_the_sender() {
    let item = HelloCommand::default();
    let reply = item.execute(&message("~hello"));
    assert_eq!(
        reply,
        Some(Privmsg { channel: "somechannel".to_string(), message: "Hello, Viewer!".to_string() })
    );
}

#[test]
fn current_command_writes_out_the_epoch() {
    let item = CurrentCommand::default();
    let reply = item.execute_at(&message("~current"), 0);
    assert_eq!(
        reply,
        Some(Privmsg {
            channel: "somechannel".to_string(),
            message: "Current datetime: 12:00:00 AM on 01st of January, 1970".to_string(),
        })
    );
}

#[test]
fn current_command_writes_out_a_given_moment() {
    let item = CurrentCommand::default();
    let reply = item.execute_at(&message("~current"), 947638923004);
    assert_eq!(
        reply,
        Some(Privmsg {
            channel: "somechannel".to_string(),
            message: "Current datetime: 01:02:03 AM on 12th of January, 2000".to_string(),
        })
    );
    let afternoon = item.execute_at(&message("~current"), 1_000_000_000_555 + 12 * 3600 * 1000);
    assert_eq!(
        afternoon.map(|privmsg| privmsg.message),
        Some("Current datetime: 01:46:40 PM on 09th of September, 2001".to_string())
    );
    let second = item.execute_at(&message("~current"), 86_400_000);
    assert_eq!(
        second.map(|privmsg| privmsg.message),
        Some("Current datetime: 12:00:00 AM on 02nd of January, 1970".to_string())
    );
}

#[test]
fn current_command_has_no_answer_beyond_the_calendar() {
    let item = CurrentCommand::default();
    assert_eq!(item.execute_at(&message("~current"), i64::MAX), None);
    assert_eq!(item.execute_at(&message("~current"), i64::MIN), None);
}

#[test]
fn current_command_answers_now() {
    let item = CurrentCommand::default();
    let reply = item.execute(&message("~current")).expect("the clock is within the calendar");
    assert_eq!(reply.channel, "somechannel");
    assert!(reply.message.starts_with("Current datetime: "));
    assert!(reply.message.len() > "Current datetime: ".len());
}

#[test]
fn starts_with_compares_characters() {
    assert!(starts_with("~hello there", "~hello"));
    assert!(starts_with("~hello", "~hello"));
    assert!(starts_with("anything", ""));
    assert!(!starts_with("~hell", "~hello"));
    assert!(!starts_with("hello", "~hello"));
    assert!(!starts_with("", "~"));
    assert!(starts_with("héllo wörld", "héllo"));
    assert!(!starts_with("hello", "héllo"));
}

#[test]
fn processor_knows_both_commands_in_order() {
    let commands = MessageProcessor::get_commands();
    assert_eq!(commands.len(), 2);
    assert!(matches!(commands[0], CommandItem::HelloCommand(_)));
    assert!(matches!(commands[1], CommandItem::CurrentCommand(_)));
}

#[test]
fn find_matching_command_goes_by_prefix_and_slug() {
    let processor = MessageProcessor::new();
    assert!(matches!(
        processor.find_matching_command(&message("~hello there")),
        Some(CommandItem::HelloCommand(_))
    ));
    assert!(matches!(
        processor.find_matching_command(&message("~current")),
        Some(CommandItem::CurrentCommand(_))
    ));
    assert!(matches!(
        processor.find_matching_command(&message("~currently")),
        Some(CommandItem::CurrentCommand(_))
    ));
    assert!(processor.find_matching_command(&message("hello")).is_none());
    assert!(processor.find_matching_command(&message(" ~hello")).is_none());
    assert!(processor.find_matching_command(&message("~hell")).is_none());
    assert!(processor.find_matching_command(&message("")).is_none());
}

#[test]
fn joining_a_channel_is_greeted() {
    let processor = MessageProcessor::new();
    let reaction = processor.process_message_at(
        &ServerEvent::Join { channel_login: "somechannel".to_string() },
        0,
    );
    assert_eq!(
        reaction,
        Reaction::Send(Privmsg { channel: "somechannel".to_string(), message: "Hej".to_string() })
    );
}

#[test]
fn a_posted_message_is_logged_and_answered() {
    let processor = MessageProcessor::new();
    let reaction = processor.process_message_at(&ServerEvent::Privmsg(message("~hello")), 0);
    assert_eq!(
        reaction,
        Reaction::Record {
            entry: ChatLogMessage {
                id: None,
                chatter_login: "viewer".to_string(),
                message: "~hello".to_string(),
                posted_at: 947638923004,
                version: 1,
            },
            reply: Some(Privmsg {
                channel: "somechannel".to_string(),
                message: "Hello, Viewer!".to_string(),
            }),
        }
    );
}

#[test]
fn a_posted_message_without_command_is_only_logged() {
    let processor = MessageProcessor::new();
    let reaction = processor.process_message(&ServerEvent::Privmsg(message("just chatting")));
    assert_eq!(
        reaction,
        Reaction::Record {
            entry: ChatLogMessage::new("viewer".to_string(), "just chatting".to_string(), 947638923004),
            reply: None,
        }
    );
}

#[test]
fn a_posted_current_command_is_answered_as_of_the_given_time() {
    let processor = MessageProcessor::new();
    let reaction = processor.process_message_at(&ServerEvent::Privmsg(message("~current")), 0);
    match reaction {
        Reaction::Record { reply, .. } => assert_eq!(
            reply.map(|privmsg| privmsg.message),
            Some("Current datetime: 12:00:00 AM on 01st of January, 1970".to_string())
        ),
        other => panic!("unexpected reaction {:?}", other),
    }
}

#[test]
fn other_server_messages_are_not_acted_on() {
    let processor = MessageProcessor::new();
    assert_eq!(processor.process_message(&ServerEvent::Other), Reaction::Nothing);
}
