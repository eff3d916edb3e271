//! Digests as the database stores them, and the queries that read them.

use vstd::prelude::*;
use vstd::string::*;
use crate::telegram::db::db::{DbError, DbQuery, one_var_query, query_with_one_var};
use crate::telegram::text::{i64_to_decimal, int_decimal};

verus! {

/// A stored digest: the summary of one thread of a chat.
pub struct Digest {
    pub uid: String,
    pub message_uid: String,
    pub chat_id: i64,
    pub text: String,
    pub date: i64,
}

impl Digest {
    /// A digest record from its fields, as the database returns them.
    pub fn new(uid: String, message_uid: String, chat_id: i64, text: String, date: i64) -> (d: Digest)
        ensures
            d.uid == uid,
            d.message_uid == message_uid,
            d.chat_id == chat_id,
            d.text == text,
            d.date == date,
    {
        Digest { uid, message_uid, chat_id, text, date }
    }
}

/// A digest as the bot hands it to the database.
pub struct DigestInput {
    pub message_uid: String,
    pub text: String,
    pub date: i64,
    pub chat_id: i64,
}

/// The digest with the latest date.
pub const MOST_RECENT_DIGEST_QUERY: &'static str = r#"query digests() {
            digests(func: has(message_uid), orderdesc: date, first: 1) {
              uid
              message_uid
              text
              date
              chat_id
            }
          }"#;

/// The digests dated at or after a timestamp.
pub const DIGESTS_PAST_TIMESTAMP_QUERY: &'static str = r#"query digests($date: int) {
            digests(func: ge(date, $date)) @filter(has(message_uid)) {
              uid
              message_uid
              text
              date
              chat_id
            }
          }"#;

/// The query for the most recent digest.
pub fn most_recent_digest_query() -> (q: String)
    ensures
        q@ == MOST_RECENT_DIGEST_QUERY@,
{
    String::from_str(MOST_RECENT_DIGEST_QUERY)
}

/// The query for the digests dated at or after `timestamp`, with `$date` set
/// to `timestamp` in decimal.
pub fn digests_past_timestamp_query(timestamp: i64) -> (q: DbQuery)
    ensures
        query_with_one_var(q, DIGESTS_PAST_TIMESTAMP_QUERY@, "$date"@, int_decimal(timestamp as int)),
{
    one_var_query(DIGESTS_PAST_TIMESTAMP_QUERY, "$date", i64_to_decimal(timestamp))
}

/// The error of a digest query that found nothing.
pub fn no_digests_found() -> (e: DbError)
    ensures
        e matches DbError::Custom(s) && s@ == "No digests found"@,
{
    DbError::Custom(String::from_str("No digests found"))
}

} // verus!
