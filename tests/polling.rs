use telebot::bot::{Bot, Dispatch};
use telebot::envelope::ApiError;
use telebot::offset::OffsetTracker;
use telebot::updates::{parse_updates, Message, Update};

fn upd(id: u64, text: &str) -> Update {
    Update {
        update_id: id,
        message: Some(Message { message_id: 1, chat_id: 2, sender_id: None, text: Some(text.to_string()) }),
    }
}

#[test]
fn offset_is_one_past_largest_id_across_batches() {
    let mut b = Bot::builder("KEY");
    b.new_cmd("/echo");
    let (bot, mut offset) = b.build();
    assert_eq!(offset.read(), 0);
    let out = bot.process_batch(&mut offset, vec![upd(10, "/echo a"), upd(11, "hi")]);
    assert_eq!(out.len(), 2);
    assert!(matches!(out[0], Dispatch::Deliver { slot: 0, .. }));
    assert!(matches!(out[1], Dispatch::Unrouted { .. }));
    assert_eq!(offset.read(), 12);
    bot.process_batch(&mut offset, vec![upd(15, "x")]);
    assert_eq!(offset.read(), 16);
    bot.process_batch(&mut offset, vec![upd(13, "late")]);
    assert_eq!(offset.read(), 16);
    bot.process_batch(&mut offset, vec![]);
    assert_eq!(offset.read(), 16);
}

#[test]
fn offset_never_moves_back() {
    let mut t = OffsetTracker::new(100);
    t.advance(50);
    assert_eq!(t.read(), 100);
    t.advance(101);
    assert_eq!(t.read(), 101);
    t.advance_past(u64::MAX);
    assert_eq!(t.read(), u64::MAX);
}

#[test]
fn builder_last_id_starts_the_offset() {
    let mut b = Bot::builder("KEY");
    b.last_id(41);
    let (_, offset) = b.build();
    assert_eq!(offset.read(), 41);
}

#[test]
fn failed_tick_then_success_resumes() {
    let mut b = Bot::builder("KEY");
    b.new_cmd("/echo");
    let (bot, mut offset) = b.build();
    let first = bot.on_poll_result(&mut offset, Ok("[{\"update_id\":5}]".to_string()));
    assert_eq!(first.len(), 1);
    assert_eq!(offset.read(), 6);
    let failed = bot.on_poll_result(&mut offset, Err(ApiError::Transport));
    assert!(failed.is_empty());
    assert_eq!(offset.read(), 6);
    let bad = bot.on_poll_result(&mut offset, Ok("{\"not\":\"a batch\"}".to_string()));
    assert!(bad.is_empty());
    assert_eq!(offset.read(), 6);
    let text = "[{\"update_id\":6,\"message\":{\"message_id\":3,\"chat\":{\"id\":-7},\"from\":{\"id\":8},\"text\":\"/echo hi there\"}},{\"update_id\":7}]";
    let out = bot.on_poll_result(&mut offset, Ok(text.to_string()));
    assert_eq!(out.len(), 2);
    match &out[0] {
        Dispatch::Deliver { slot, message } => {
            assert_eq!(*slot, 0);
            assert_eq!(message.text.as_deref(), Some("hi there"));
            assert_eq!(message.chat_id, -7);
            assert_eq!(message.sender_id, Some(8));
            assert_eq!(message.message_id, 3);
        }
        other => panic!("not delivered: {:?}", other),
    }
    assert_eq!(offset.read(), 8);
}

#[test]
fn updates_are_read_from_the_result() {
    let us = parse_updates("[{\"update_id\":1,\"message\":{\"message_id\":2,\"chat\":{\"id\":3}}}]").unwrap();
    assert_eq!(us.len(), 1);
    assert_eq!(us[0].update_id, 1);
    let m = us[0].message.as_ref().unwrap();
    assert_eq!((m.message_id, m.chat_id, m.sender_id), (2, 3, None));
    assert!(m.text.is_none());
    assert!(matches!(parse_updates("[{\"update_id\":-1}]"), Err(ApiError::InvalidEnvelope)));
    assert!(matches!(parse_updates("[{\"update_id\":1,\"message\":{\"message_id\":2}}]"), Err(ApiError::InvalidEnvelope)));
    assert!(matches!(parse_updates("not json"), Err(ApiError::InvalidEnvelope)));
    assert_eq!(parse_updates("[]").unwrap().len(), 0);
}

#[test]
fn updates_request_carries_offset_and_timeout() {
    let mut b = Bot::builder("123:abc");
    b.timeout(25);
    let (bot, mut offset) = b.build();
    offset.advance(5);
    let r = bot.updates_request(&offset);
    assert_eq!(r.url, "https://api.telegram.org/bot123:abc/getUpdates");
    assert_eq!(r.body, "{\"offset\":5,\"timeout\":25}");
}

#[test]
fn builder_defaults() {
    let b = Bot::builder("KEY");
    assert_eq!(b.update_interval, 1000);
    assert_eq!(b.timeout, 30);
    assert_eq!(b.last_id, 0);
    assert!(b.name.is_none());
    let mut b = b;
    b.update_interval(200);
    let (bot, _) = b.build();
    assert_eq!(bot.get_update_interval(), 200);
    assert_eq!(bot.get_timeout(), 30);
    assert_eq!(bot.get_key(), "KEY");
}
