use telebot::bot::{Bot, Dispatch};
use telebot::updates::{Message, Update};

fn text_update(id: u64, text: Option<&str>) -> Update {
    Update {
        update_id: id,
        message: Some(Message {
            message_id: 70 + id as i64,
            chat_id: -42,
            sender_id: Some(9),
            text: text.map(|t| t.to_string()),
        }),
    }
}

#[test]
fn echo_command_gets_remaining_words() {
    let mut b = Bot::builder("KEY");
    let slot = b.new_cmd("/echo");
    let (bot, _) = b.build();
    match bot.dispatch(text_update(1, Some("/echo hello world"))) {
        Dispatch::Deliver { slot: s, message } => {
            assert_eq!(s, slot);
            assert_eq!(message.text.as_deref(), Some("hello world"));
            assert_eq!(message.chat_id, -42);
            assert_eq!(message.message_id, 71);
            assert_eq!(message.sender_id, Some(9));
        }
        other => panic!("not delivered: {:?}", other),
    }
}

#[test]
fn mention_suffix_is_stripped_when_name_known() {
    let mut b = Bot::builder("KEY");
    b.name("BotName");
    let slot = b.new_cmd("/echo");
    let (bot, _) = b.build();
    match bot.dispatch(text_update(2, Some("/echo@BotName hello"))) {
        Dispatch::Deliver { slot: s, message } => {
            assert_eq!(s, slot);
            assert_eq!(message.text.as_deref(), Some("hello"));
        }
        other => panic!("not delivered: {:?}", other),
    }
}

#[test]
fn mention_of_another_bot_is_not_stripped() {
    let mut b = Bot::builder("KEY");
    b.name("BotName");
    b.new_cmd("/echo");
    let (bot, _) = b.build();
    assert!(matches!(bot.dispatch(text_update(2, Some("/echo@Other hi"))), Dispatch::Unrouted { .. }));
}

#[test]
fn name_resolved_after_build_strips_mention() {
    let mut b = Bot::builder("KEY");
    let slot = b.new_cmd("echo");
    let (mut bot, _) = b.build();
    bot.set_name("BotName");
    match bot.dispatch(text_update(2, Some("/echo@BotName  a\tb\n c "))) {
        Dispatch::Deliver { slot: s, message } => {
            assert_eq!(s, slot);
            assert_eq!(message.text.as_deref(), Some("a b c"));
        }
        other => panic!("not delivered: {:?}", other),
    }
}

#[test]
fn unknown_command_without_fallback_is_unrouted() {
    let mut b = Bot::builder("KEY");
    let (bot, _) = b.build();
    match bot.dispatch(text_update(3, Some("/foo"))) {
        Dispatch::Unrouted { update } => {
            assert_eq!(update.update_id, 3);
            assert_eq!(update.message.unwrap().text.as_deref(), Some("/foo"));
        }
        other => panic!("routed: {:?}", other),
    }
}

#[test]
fn unknown_command_goes_unchanged_to_fallback() {
    let mut b = Bot::builder("KEY");
    b.new_cmd("/echo");
    let fallback = b.unknown_cmd();
    let (bot, _) = b.build();
    match bot.dispatch(text_update(4, Some("/foo bar  baz"))) {
        Dispatch::Deliver { slot, message } => {
            assert_eq!(slot, fallback);
            assert_eq!(message.text.as_deref(), Some("/foo bar  baz"));
            assert_eq!(message.message_id, 74);
        }
        other => panic!("not delivered: {:?}", other),
    }
}

#[test]
fn message_without_text_is_unrouted() {
    let mut b = Bot::builder("KEY");
    b.new_cmd("/echo");
    b.unknown_cmd();
    let (bot, _) = b.build();
    assert!(matches!(bot.dispatch(text_update(5, None)), Dispatch::Unrouted { .. }));
    let bare = Update { update_id: 6, message: None };
    assert!(matches!(bot.dispatch(bare), Dispatch::Unrouted { .. }));
}

#[test]
fn plain_text_is_unrouted_even_with_fallback() {
    let mut b = Bot::builder("KEY");
    b.new_cmd("/echo");
    b.unknown_cmd();
    let (bot, _) = b.build();
    assert!(matches!(bot.dispatch(text_update(7, Some("echo hello"))), Dispatch::Unrouted { .. }));
    assert!(matches!(bot.dispatch(text_update(8, Some("   "))), Dispatch::Unrouted { .. }));
    assert!(matches!(bot.dispatch(text_update(9, Some(""))), Dispatch::Unrouted { .. }));
}

#[test]
fn command_alone_leaves_empty_text() {
    let mut b = Bot::builder("KEY");
    let slot = b.new_cmd("/start");
    let (bot, _) = b.build();
    match bot.dispatch(text_update(10, Some("  /start  "))) {
        Dispatch::Deliver { slot: s, message } => {
            assert_eq!(s, slot);
            assert_eq!(message.text.as_deref(), Some(""));
        }
        other => panic!("not delivered: {:?}", other),
    }
}

#[test]
fn registering_again_replaces_the_slot() {
    let mut b = Bot::builder("KEY");
    let first = b.new_cmd("/echo");
    let second = b.new_cmd("echo");
    assert_ne!(first, second);
    let (bot, _) = b.build();
    match bot.dispatch(text_update(11, Some("/echo x"))) {
        Dispatch::Deliver { slot, .. } => assert_eq!(slot, second),
        other => panic!("not delivered: {:?}", other),
    }
}
