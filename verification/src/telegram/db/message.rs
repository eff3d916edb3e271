//! Chat messages as the database stores them, and the queries that read them.

use vstd::prelude::*;
use vstd::string::*;
use crate::telegram::db::db::{DbError, DbQuery, one_var_query, query_with_one_var};
use crate::telegram::text::{i64_to_decimal, int_decimal};

verus! {

/// The message that a stored message answers, by its database id.
pub struct ReplyTo {
    pub uid: String,
}

/// A chat message as the database returns it.
pub struct Message {
    pub uid: String,
    pub message_id: String,
    pub text: String,
    pub date: i64,
    pub reply_to: Option<ReplyTo>,
}

/// A message together with the tree of messages that answer it.
pub struct GroupedMessage {
    pub uid: String,
    pub message_id: String,
    pub text: String,
    pub date: i64,
    pub reply_to: Option<Vec<Box<GroupedMessage>>>,
}

/// A chat message as the bot hands it to the database.
pub struct MessageInput {
    pub message_id: String,
    pub text: String,
    pub date: i64,
    pub reply_to: Option<ReplyTo>,
    pub chat_id: i64,
}

impl MessageInput {
    /// A message record from its fields.
    pub fn new(message_id: String, text: String, date: i64, reply_to: Option<ReplyTo>, chat_id: i64) -> (m: MessageInput)
        ensures
            m.message_id == message_id,
            m.text == text,
            m.date == date,
            m.reply_to == reply_to,
            m.chat_id == chat_id,
    {
        MessageInput { message_id, text, date, reply_to, chat_id }
    }
}

/// The schema of message records: an exact index on `message_id` and an
/// integer index on `date`.
pub const MESSAGE_SCHEMA: &'static str = "message_id: string @index(exact) .date: int @index(int) .";

/// Messages from a date on that answer no other message.
pub const PRIMARY_MESSAGES_QUERY: &'static str = r#"query all($date: number) {
            messages(func: ge(date, $date)) @filter(NOT has(reply_to)) {
              uid
              text
              date
            }
          }"#;

/// A message and, recursively, the messages that answer it.
pub const MESSAGE_GROUP_QUERY: &'static str = r#"query all($uid: uid) {
            messages(func: uid($uid)) @recurse(depth: 100)  {
              uid
              text
              date
              reply_to: ~reply_to
            }
        }"#;

/// The message with a given chat message id.
pub const MESSAGE_BY_MESSAGE_ID_QUERY: &'static str = r#"query all($a: string) {
            messages(func: eq(message_id, $a)) {
              uid
              message_id
              text
              date
              from
              reply_to
            }
          }"#;

/// The schema text that the message records are declared with.
pub fn message_schema() -> (s: String)
    ensures
        s@ == MESSAGE_SCHEMA@,
{
    String::from_str(MESSAGE_SCHEMA)
}

/// The query for the messages sent at or after `date` that answer no other
/// message, with `$date` set to `date` in decimal.
pub fn primary_messages_past_date_query(date: i64) -> (q: DbQuery)
    ensures
        query_with_one_var(q, PRIMARY_MESSAGES_QUERY@, "$date"@, int_decimal(date as int)),
{
    one_var_query(PRIMARY_MESSAGES_QUERY, "$date", i64_to_decimal(date))
}

/// The query for the message `uid` and the tree of its answers.
pub fn message_group_by_id_query(uid: String) -> (q: DbQuery)
    ensures
        query_with_one_var(q, MESSAGE_GROUP_QUERY@, "$uid"@, uid@),
{
    one_var_query(MESSAGE_GROUP_QUERY, "$uid", uid)
}

/// The query for the message whose chat message id is `message_id`.
pub fn message_by_message_id_query(message_id: String) -> (q: DbQuery)
    ensures
        query_with_one_var(q, MESSAGE_BY_MESSAGE_ID_QUERY@, "$a"@, message_id@),
{
    one_var_query(MESSAGE_BY_MESSAGE_ID_QUERY, "$a", message_id)
}

/// The error of a message query that found nothing.
pub fn no_messages_found() -> (e: DbError)
    ensures
        e matches DbError::Custom(s) && s@ == "No messages found"@,
{
    DbError::Custom(String::from_str("No messages found"))
}

} // verus!
