use summarizator::telegram::db::db::DbError;
use summarizator::telegram::db::digest::Digest;
use summarizator::telegram::db::message::{GroupedMessage, Message};
use summarizator::telegram::digest::{
    digest_input_for, pick_start_timestamp, summary_message_group, ten_days_ago_timestamp,
    DigestError,
};

fn node(text: &str, replies: Option<Vec<GroupedMessage>>) -> GroupedMessage {
    GroupedMessage {
        uid: format!("uid-{}", text),
        message_id: String::new(),
        text: text.to_string(),
        date: 0,
        reply_to: replies.map(|v| v.into_iter().map(Box::new).collect()),
    }
}

fn digest_at(date: i64) -> Digest {
    Digest::new("0x1".to_string(), "0x2".to_string(), 1, "t".to_string(), date)
}

#[test]
fn summary_of_a_lone_message_is_its_text() {
    assert_eq!(summary_message_group(&node("hello", None)), "hello");
    assert_eq!(summary_message_group(&node("hello", Some(vec![]))), "hello");
}

#[test]
fn summary_walks_the_thread_in_order() {
    let thread = node(
        "a",
        Some(vec![node("b", Some(vec![node("c", None), node("d", None)])), node("e", None)]),
    );
    assert_eq!(summary_message_group(&thread), "abcde");
}

#[test]
fn digest_input_carries_the_primary_message() {
    let primary = Message {
        uid: "0x5".to_string(),
        message_id: "5".to_string(),
        text: "topic".to_string(),
        date: 1700,
        reply_to: None,
    };
    let d = digest_input_for(&primary, &node("x", Some(vec![node("y", None)])), 42);
    assert_eq!(d.message_uid, "0x5");
    assert_eq!(d.date, 1700);
    assert_eq!(d.text, "xy");
    assert_eq!(d.chat_id, 42);
}

#[test]
fn start_is_the_earlier_of_the_two() {
    assert_eq!(pick_start_timestamp(1000, &Ok(digest_at(500))), 500);
    assert_eq!(pick_start_timestamp(1000, &Ok(digest_at(1500))), 1000);
    assert_eq!(pick_start_timestamp(1000, &Ok(digest_at(1000))), 1000);
    assert_eq!(pick_start_timestamp(1000, &Err(DbError::Custom("No digests found".to_string()))), 1000);
}

#[test]
fn ten_days_ago_is_ten_days_before_now() {
    let now = chrono::Utc::now().timestamp();
    let t = ten_days_ago_timestamp().unwrap().unwrap();
    assert!((now - 864_000 - t).abs() <= 2);
}

#[test]
fn digest_error_messages() {
    assert_eq!(DigestError::Custom("c".to_string()).message(), "[Digest]: c");
    let e: DigestError = DbError::Custom("No messages found".to_string()).into();
    assert_eq!(e.message(), "[DB]: [DB]: No messages found");
    assert!(matches!(DigestError::from(DbError::DgraphError("x".to_string())), DigestError::DbError(DbError::DgraphError(_))));
}
