use summarizator::telegram::bot::plan_digest_command_at;
use summarizator::telegram::clock::MIN_TIMESTAMP;
use summarizator::telegram::bot::{
    answer_digest_command, get_bot_command, is_permitted_user, make_digests_response,
    plan_digest_command, reply_lookup_id, requested_days, telegram_message_to_message_input,
    BotCommands, DigestCommandPlan, IncomingMessage, MessageEntity, MessageEntityKind, MessageKind,
    ReplyToMessage,
};
use summarizator::telegram::db::db::DbError;
use summarizator::telegram::db::digest::Digest;
use summarizator::telegram::db::message::Message;

fn text_message(text: &str, entities: Vec<MessageEntity>) -> IncomingMessage {
    IncomingMessage {
        id: 10,
        from_id: 3147171,
        date: 1_600_000_000,
        chat_id: -463169522,
        reply_to_message: None,
        kind: MessageKind::Text { data: text.to_string(), entities },
    }
}

fn command_entity(offset: i64, length: i64) -> MessageEntity {
    MessageEntity { offset, length, kind: MessageEntityKind::BotCommand }
}

fn digest_arg(m: &IncomingMessage) -> Option<String> {
    match get_bot_command(m) {
        Some(BotCommands::Digest(s)) => Some(s),
        None => None,
    }
}

#[test]
fn digest_command_is_recognised() {
    let m = text_message("/digest@summarizatorBot 5", vec![command_entity(0, 23)]);
    assert_eq!(digest_arg(&m).as_deref(), Some("/digest@summarizatorBot "));
    let m = text_message("/digest@summarizatorBot", vec![command_entity(0, 23)]);
    assert_eq!(digest_arg(&m).as_deref(), Some("/digest@summarizatorBot"));
}

#[test]
fn other_messages_are_no_command() {
    assert!(digest_arg(&text_message("/digest@summarizatorBot", vec![])).is_none());
    assert!(digest_arg(&text_message("x/digest@summarizatorBot", vec![command_entity(1, 23)])).is_none());
    assert!(digest_arg(&text_message("/digest@summarizatorBo", vec![command_entity(0, 22)])).is_none());
    assert!(digest_arg(&text_message("/digest@summarizatorBot", vec![command_entity(0, 7)])).is_none());
    assert!(digest_arg(&text_message("/start", vec![command_entity(0, 6)])).is_none());
    let mention = MessageEntity { offset: 0, length: 23, kind: MessageEntityKind::Other };
    assert!(digest_arg(&text_message("/digest@summarizatorBot", vec![mention])).is_none());
    let mut m = text_message("/digest@summarizatorBot", vec![command_entity(0, 23)]);
    m.kind = MessageKind::Other;
    assert!(digest_arg(&m).is_none());
}

#[test]
fn a_negative_length_takes_the_whole_text() {
    let m = text_message("/digest@summarizatorBot", vec![command_entity(0, -5)]);
    assert_eq!(digest_arg(&m).as_deref(), Some("/digest@summarizatorBot"));
}

#[test]
fn digests_response_without_digests() {
    assert_eq!(make_digests_response(None), "No digests found for requested period");
    assert_eq!(make_digests_response(Some(vec![])), "No digests found for requested period");
    assert_eq!(answer_digest_command(Err(DbError::Custom("x".to_string()))), "No digests found for requested period");
}

#[test]
fn digests_response_lists_each_digest() {
    let a = Digest::new("0x1".to_string(), "0x10".to_string(), -463169522, "first".to_string(), 1);
    let b = Digest::new("0x2".to_string(), "0x20".to_string(), 5, "second".to_string(), 2);
    assert_eq!(
        make_digests_response(Some(vec![a, b])),
        "We discussed the following topics:\n\nfirst\nhttp://t.me/c/-463169522/0x10second\nhttp://t.me/c/5/0x20"
    );
    let c = Digest::new("0x3".to_string(), "u".to_string(), 7, "t".to_string(), 3);
    assert_eq!(answer_digest_command(Ok(vec![c])), "We discussed the following topics:\n\nt\nhttp://t.me/c/7/u");
}

#[test]
fn reply_lookup_only_for_chat_messages() {
    let mut m = text_message("hi", vec![]);
    assert!(reply_lookup_id(&m).is_none());
    m.reply_to_message = Some(ReplyToMessage::ChannelPost);
    assert!(reply_lookup_id(&m).is_none());
    m.reply_to_message = Some(ReplyToMessage::Message { message_id: -77 });
    assert_eq!(reply_lookup_id(&m).as_deref(), Some("-77"));
}

fn found(uid: &str) -> Message {
    Message { uid: uid.to_string(), message_id: "77".to_string(), text: String::new(), date: 0, reply_to: None }
}

#[test]
fn message_input_from_a_text_message() {
    let input = telegram_message_to_message_input(Some(text_message("hi all", vec![])), None).unwrap();
    assert_eq!(input.message_id, "10");
    assert_eq!(input.text, "hi all");
    assert_eq!(input.date, 1_600_000_000);
    assert!(input.reply_to.is_none());
    assert_eq!(input.chat_id, -463169522);
    assert!(telegram_message_to_message_input(None, None).is_none());
}

#[test]
fn message_input_links_the_answered_message() {
    let mut m = text_message("re", vec![]);
    m.reply_to_message = Some(ReplyToMessage::Message { message_id: 77 });
    let input = telegram_message_to_message_input(Some(m), Some(Ok(found("0x4d")))).unwrap();
    assert_eq!(input.reply_to.unwrap().uid, "0x4d");

    let mut m = text_message("re", vec![]);
    m.reply_to_message = Some(ReplyToMessage::Message { message_id: 77 });
    let input = telegram_message_to_message_input(Some(m), Some(Err(DbError::Custom("No messages found".to_string())))).unwrap();
    assert!(input.reply_to.is_none());
}

#[test]
fn answers_to_channel_posts_are_not_stored() {
    let mut m = text_message("re", vec![]);
    m.reply_to_message = Some(ReplyToMessage::ChannelPost);
    assert!(telegram_message_to_message_input(Some(m), None).is_none());
}

#[test]
fn non_text_messages_are_stored_without_text() {
    let mut m = text_message("ignored", vec![]);
    m.kind = MessageKind::Other;
    let input = telegram_message_to_message_input(Some(m), None).unwrap();
    assert_eq!(input.text, "");
}

#[test]
fn only_the_permitted_user_may_ask() {
    assert!(is_permitted_user(3147171));
    assert!(!is_permitted_user(3147172));
    assert!(!is_permitted_user(0));
}

#[test]
fn requested_days_default_to_three() {
    assert_eq!(requested_days("/digest@summarizatorBot "), 3);
    assert_eq!(requested_days(""), 3);
    assert_eq!(requested_days("7"), 7);
    assert_eq!(requested_days("+14"), 14);
}

#[test]
fn digest_command_plans() {
    assert!(matches!(plan_digest_command(1, "5").unwrap(), DigestCommandPlan::NotPermitted));
    let now = chrono::Utc::now().timestamp();
    match plan_digest_command(3147171, "/digest@summarizatorBot ").unwrap() {
        DigestCommandPlan::FetchSince(t) => assert!((now - 3 * 86_400 - t).abs() <= 2),
        _ => panic!("expected a fetch"),
    }
    match plan_digest_command(3147171, "1").unwrap() {
        DigestCommandPlan::FetchSince(t) => assert!((now - 86_400 - t).abs() <= 2),
        _ => panic!("expected a fetch"),
    }
    assert!(matches!(plan_digest_command(3147171, "4294967295").unwrap(), DigestCommandPlan::PeriodOutOfRange));
}

#[test]
fn digest_command_plans_at_a_given_instant() {
    assert!(matches!(plan_digest_command_at(3147171, "2", 1_000_000), DigestCommandPlan::FetchSince(827_200)));
    assert!(matches!(plan_digest_command_at(3147171, "x", 1_000_000), DigestCommandPlan::FetchSince(740_800)));
    assert!(matches!(plan_digest_command_at(7, "2", 1_000_000), DigestCommandPlan::NotPermitted));
    assert!(matches!(plan_digest_command_at(3147171, "1", MIN_TIMESTAMP + 86_399), DigestCommandPlan::PeriodOutOfRange));
    assert!(matches!(plan_digest_command_at(3147171, "1", MIN_TIMESTAMP + 86_400), DigestCommandPlan::FetchSince(t) if t == MIN_TIMESTAMP));
}
