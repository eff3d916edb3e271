use summarizator::telegram::db::db::{all_found, first_found, one_var_query, DbError};
use summarizator::telegram::db::digest::{
    digests_past_timestamp_query, most_recent_digest_query, no_digests_found, Digest,
    DIGESTS_PAST_TIMESTAMP_QUERY, MOST_RECENT_DIGEST_QUERY,
};
use summarizator::telegram::db::message::{
    message_by_message_id_query, message_group_by_id_query, message_schema, no_messages_found,
    primary_messages_past_date_query, MessageInput, ReplyTo, MESSAGE_BY_MESSAGE_ID_QUERY,
    MESSAGE_GROUP_QUERY, PRIMARY_MESSAGES_QUERY,
};
use summarizator::telegram::db::user::User;

fn custom_text(e: &DbError) -> String {
    match e {
        DbError::Custom(s) => s.clone(),
        _ => panic!("not a custom error"),
    }
}

#[test]
fn schema_declares_both_indexes() {
    assert_eq!(message_schema(), "message_id: string @index(exact) .date: int @index(int) .");
}

#[test]
fn primary_messages_query_sets_the_date() {
    let q = primary_messages_past_date_query(-1_600_000_000);
    assert_eq!(q.query, PRIMARY_MESSAGES_QUERY);
    assert_eq!(q.vars, vec![("$date".to_string(), "-1600000000".to_string())]);
    assert!(q.query.contains("@filter(NOT has(reply_to))"));
}

#[test]
fn group_and_id_queries_set_their_variable() {
    let q = message_group_by_id_query("0x2f".to_string());
    assert_eq!(q.query, MESSAGE_GROUP_QUERY);
    assert_eq!(q.vars, vec![("$uid".to_string(), "0x2f".to_string())]);
    let q = message_by_message_id_query("17".to_string());
    assert_eq!(q.query, MESSAGE_BY_MESSAGE_ID_QUERY);
    assert_eq!(q.vars, vec![("$a".to_string(), "17".to_string())]);
}

#[test]
fn digest_queries() {
    assert_eq!(most_recent_digest_query(), MOST_RECENT_DIGEST_QUERY);
    assert!(MOST_RECENT_DIGEST_QUERY.contains("orderdesc: date, first: 1"));
    let q = digests_past_timestamp_query(1234);
    assert_eq!(q.query, DIGESTS_PAST_TIMESTAMP_QUERY);
    assert_eq!(q.vars, vec![("$date".to_string(), "1234".to_string())]);
}

#[test]
fn one_var_query_keeps_its_parts() {
    let q = one_var_query("q", "$x", "v".to_string());
    assert_eq!(q.query, "q");
    assert_eq!(q.vars, vec![("$x".to_string(), "v".to_string())]);
}

#[test]
fn first_found_takes_the_first_record() {
    assert_eq!(first_found(vec![3, 1, 2], no_messages_found()).ok(), Some(3));
    let e = first_found(Vec::<i32>::new(), no_messages_found()).err().unwrap();
    assert_eq!(custom_text(&e), "No messages found");
    let e = first_found(Vec::<i32>::new(), no_digests_found()).err().unwrap();
    assert_eq!(custom_text(&e), "No digests found");
}

#[test]
fn all_found_refuses_an_empty_answer() {
    assert_eq!(all_found(vec![1, 2], no_digests_found()).ok(), Some(vec![1, 2]));
    let e = all_found(Vec::<u8>::new(), no_digests_found()).err().unwrap();
    assert_eq!(e.message(), "[DB]: No digests found");
}

#[test]
fn db_error_messages() {
    assert_eq!(DbError::Custom("x".to_string()).message(), "[DB]: x");
    assert_eq!(DbError::DgraphError("down".to_string()).message(), "[DB]: down");
    assert_eq!(DbError::SerdeJSONError("eof".to_string()).message(), "[DB]: eof");
}

#[test]
fn records_keep_their_fields() {
    let d = Digest::new("0x1".to_string(), "0x2".to_string(), -5, "t".to_string(), 99);
    assert_eq!((d.uid.as_str(), d.message_uid.as_str(), d.chat_id, d.text.as_str(), d.date), ("0x1", "0x2", -5, "t", 99));
    let m = MessageInput::new("7".to_string(), "hi".to_string(), 3, Some(ReplyTo { uid: "0x9".to_string() }), -1);
    assert_eq!(m.message_id, "7");
    assert_eq!(m.text, "hi");
    assert_eq!(m.date, 3);
    assert_eq!(m.reply_to.unwrap().uid, "0x9");
    assert_eq!(m.chat_id, -1);
    let u = User::default();
    assert!(u.uid.is_empty() && u.first_name.is_empty() && u.last_name.is_none() && u.username.is_none() && !u.is_bot);
}
