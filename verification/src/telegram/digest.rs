//! Building digests: the summary of a thread of messages, and the moment from
//! which threads are summarised.

use vstd::prelude::*;
use vstd::string::*;
use crate::telegram::clock::{days_before_result, now_minus_days, ClockError, in_datetime_range, SECONDS_PER_DAY};
use crate::telegram::db::db::{DbError, db_error_text};
use crate::telegram::db::digest::{Digest, DigestInput};
use crate::telegram::db::message::{GroupedMessage, Message};

verus! {

/// What can go wrong while building digests.
pub enum DigestError {
    Custom(String),
    DbError(DbError),
}

/// The text that shows a digest error.
pub open spec fn digest_error_text(e: DigestError) -> Seq<char> {
    match e {
        DigestError::Custom(s) => "[Digest]: "@ + s@,
        DigestError::DbError(inner) => "[DB]: "@ + db_error_text(inner),
    }
}

impl DigestError {
    /// The message that shows this error to a person.
    pub fn message(&self) -> (s: String)
        ensures
            s@ == digest_error_text(*self),
    {
        match self {
            DigestError::Custom(inner) => {
                let mut out = String::from_str("[Digest]: ");
                out.append(inner.as_str());
                out
            },
            DigestError::DbError(inner) => {
                let mut out = String::from_str("[DB]: ");
                let text = inner.message();
                out.append(text.as_str());
                out
            },
        }
    }
}

impl From<DbError> for DigestError {
    fn from(error: DbError) -> (r: DigestError) {
        DigestError::DbError(error)
    }
}

impl vstd::std_specs::convert::FromSpecImpl<DbError> for DigestError {
    open spec fn obeys_from_spec() -> bool {
        true
    }

    open spec fn from_spec(error: DbError) -> DigestError {
        DigestError::DbError(error)
    }
}

/// The summary of a thread: the message's text, then the summaries of its
/// answers in order (a pre-order walk of the thread).
pub open spec fn group_summary(g: GroupedMessage) -> Seq<char>
    decreases g,
{
    g.text@ + match g.reply_to {
        Some(replies) => replies_summary(replies@),
        None => Seq::empty(),
    }
}

/// The summaries of a list of answers, one after another.
pub open spec fn replies_summary(replies: Seq<Box<GroupedMessage>>) -> Seq<char>
    decreases replies,
{
    if replies.len() == 0 {
        Seq::empty()
    } else {
        replies_summary(replies.drop_last()) + group_summary(*replies.last())
    }
}

/// The text of a thread: the message's text followed by the texts of all the
/// messages that answer it, recursively, in order.
pub fn summary_message_group(grouped_message: &GroupedMessage) -> (s: String)
    ensures
        s@ == group_summary(*grouped_message),
    decreases grouped_message,
{
    let mut sum_string = String::new();
    sum_string.append(grouped_message.text.as_str());
    match &grouped_message.reply_to {
        Some(replies) => {
            let mut i: usize = 0;
            while i < replies.len()
                invariant
                    i <= replies@.len(),
                    grouped_message.reply_to == Some(*replies),
                    sum_string@ == grouped_message.text@ + replies_summary(replies@.take(i as int)),
                decreases replies@.len() - i,
            {
                proof {
                    let r = grouped_message.reply_to;
                    assert(decreases_to!(*grouped_message => r));
                    assert(decreases_to!(r => r->0));
                    assert(r->0 == *replies);
                    assert(decreases_to!(*replies => replies@));
                    assert(decreases_to!(replies@ => replies@[i as int]));
                }
                let nested = summary_message_group(&replies[i]);
                proof {
                    assert(replies@.take(i + 1).drop_last() =~= replies@.take(i as int));
                }
                sum_string.append(nested.as_str());
                i = i + 1;
            }
            assert(replies@.take(i as int) =~= replies@);
        },
        None => {},
    }
    sum_string
}

/// The digest of a primary message: its id and date, the summary of its thread,
/// and the chat it belongs to.
pub fn digest_input_for(primary_message: &Message, grouped_message: &GroupedMessage, chat_id: i64) -> (d: DigestInput)
    ensures
        d.message_uid == primary_message.uid,
        d.date == primary_message.date,
        d.text@ == group_summary(*grouped_message),
        d.chat_id == chat_id,
{
    DigestInput {
        message_uid: primary_message.uid.clone(),
        text: summary_message_group(grouped_message),
        date: primary_message.date,
        chat_id,
    }
}

/// Where digests start: the date of the most recent digest where that is
/// earlier than ten days ago, else ten days ago; ten days ago where no digest
/// could be read.
pub open spec fn start_timestamp_spec(ten_days_ago: i64, recent_digest: Result<Digest, DbError>) -> i64 {
    match recent_digest {
        Ok(digest) => if digest.date < ten_days_ago { digest.date } else { ten_days_ago },
        Err(_) => ten_days_ago,
    }
}

/// Picks where the next digests start, given the timestamp of ten days ago
/// and the result of reading the most recent digest.
pub fn pick_start_timestamp(ten_days_ago: i64, recent_digest: &Result<Digest, DbError>) -> (t: i64)
    ensures
        t == start_timestamp_spec(ten_days_ago, *recent_digest),
{
    match recent_digest {
        Ok(digest) => if digest.date < ten_days_ago { digest.date } else { ten_days_ago },
        Err(_) => ten_days_ago,
    }
}

/// The timestamp of ten days before now, or `None` where it falls outside
/// chrono's date range: what `days_before` gives for ten days and the instant
/// the clock reads, which chrono represents. A returned value lies in that
/// range, ten days before an instant that does too. An error where the clock
/// cannot be read.
pub fn ten_days_ago_timestamp() -> (r: Result<Option<i64>, ClockError>)
    ensures
        r matches Ok(found) ==> exists|now: i64|
            in_datetime_range(now as int) && found == #[trigger] days_before_result(now as int, 10),
        r matches Ok(Some(t)) ==> in_datetime_range(t as int) && in_datetime_range(t + 10 * SECONDS_PER_DAY),
{
    now_minus_days(10)
}

/// The chat id that digests built from primary messages carry: the query for
/// primary messages reads no chat.
pub const DIGEST_CHAT_ID: i64 = 0;

/// Where a run that builds digests stands.
pub enum BuildDigestState {
    /// Waiting for the most recent digest, to decide where to start.
    AwaitingRecentDigest { ten_days_ago: i64 },
    /// Waiting for the primary messages since the start.
    AwaitingPrimaryMessages,
    /// Waiting for the thread of `primary_messages[index]`.
    AwaitingMessageGroup { primary_messages: Vec<Message>, index: usize },
    /// Waiting for the digest of `primary_messages[index]` to be stored.
    AwaitingStoredDigest { primary_messages: Vec<Message>, index: usize },
    /// The run is over.
    Finished,
}

/// What the outside world reports back to a run that builds digests.
pub enum BuildDigestEvent {
    MostRecentDigest(Result<Digest, DbError>),
    PrimaryMessages(Result<Vec<Message>, DbError>),
    MessageGroup(Result<GroupedMessage, DbError>),
    DigestStored(Result<(), DbError>),
}

/// What a run that builds digests asks the outside world to do next.
pub enum BuildDigestAction {
    /// Read the most recent digest.
    ReadMostRecentDigest,
    /// Read the primary messages sent at or after this timestamp.
    ReadPrimaryMessages(i64),
    /// Read the thread of the message with this database id.
    ReadMessageGroup(String),
    /// Store this digest.
    StoreDigest(DigestInput),
    /// Stop, with this outcome.
    Finish(Result<(), DigestError>),
}

impl BuildDigestState {
    /// The indexes that a waiting state holds point into its messages.
    pub open spec fn wf(&self) -> bool {
        match self {
            BuildDigestState::AwaitingMessageGroup { primary_messages, index } => index < primary_messages@.len(),
            BuildDigestState::AwaitingStoredDigest { primary_messages, index } => index < primary_messages@.len(),
            _ => true,
        }
    }

    /// The steps left once the primary messages are known: a read and a store
    /// for each message from the current one on.
    pub open spec fn steps_left(&self) -> int {
        match self {
            BuildDigestState::AwaitingMessageGroup { primary_messages, index } => 2 * (primary_messages@.len() - *index),
            BuildDigestState::AwaitingStoredDigest { primary_messages, index } => 2 * (primary_messages@.len() - *index) - 1,
            _ => 0,
        }
    }

    /// Whether `event` reports on what this state waits for.
    pub open spec fn expects(&self, event: BuildDigestEvent) -> bool {
        match self {
            BuildDigestState::AwaitingRecentDigest { .. } => event is MostRecentDigest,
            BuildDigestState::AwaitingPrimaryMessages => event is PrimaryMessages,
            BuildDigestState::AwaitingMessageGroup { .. } => event is MessageGroup,
            BuildDigestState::AwaitingStoredDigest { .. } => event is DigestStored,
            BuildDigestState::Finished => false,
        }
    }
}

/// Whether `action` asks for the thread of `message`.
pub open spec fn reads_group_of(action: BuildDigestAction, message: Message) -> bool {
    action matches BuildDigestAction::ReadMessageGroup(uid) && uid == message.uid
}

/// Whether the run stopped with the database error `e`.
pub open spec fn failed_with(state: BuildDigestState, action: BuildDigestAction, e: DbError) -> bool {
    state is Finished && action == BuildDigestAction::Finish(Err(DigestError::DbError(e)))
}

/// Starts a run that builds digests: first read the most recent digest.
pub fn start_build_digest(ten_days_ago: i64) -> (r: (BuildDigestState, BuildDigestAction))
    ensures
        r.0 == (BuildDigestState::AwaitingRecentDigest { ten_days_ago }),
        r.1 is ReadMostRecentDigest,
{
    (BuildDigestState::AwaitingRecentDigest { ten_days_ago }, BuildDigestAction::ReadMostRecentDigest)
}

/// One step of building digests. From where digests start (the earlier of ten
/// days ago and the most recent digest), read the primary messages; for each
/// in turn read its thread and store its digest; stop at the first error, or
/// when every primary message has its digest.
pub fn build_digest_step(state: BuildDigestState, event: BuildDigestEvent) -> (r: (BuildDigestState, BuildDigestAction))
    requires
        state.wf(),
        state.expects(event),
    ensures
        r.0.wf(),
        r.0 is Finished <==> r.1 is Finish,
        (state is AwaitingMessageGroup || state is AwaitingStoredDigest) ==> 0 <= r.0.steps_left() < state.steps_left(),
        match (state, event) {
            (BuildDigestState::AwaitingRecentDigest { ten_days_ago }, BuildDigestEvent::MostRecentDigest(recent)) => {
                &&& r.0 is AwaitingPrimaryMessages
                &&& r.1 == BuildDigestAction::ReadPrimaryMessages(start_timestamp_spec(ten_days_ago, recent))
            },
            (BuildDigestState::AwaitingPrimaryMessages, BuildDigestEvent::PrimaryMessages(found)) => match found {
                Err(e) => failed_with(r.0, r.1, e),
                Ok(ms) => if ms@.len() == 0 {
                    r.1 == BuildDigestAction::Finish(Ok(()))
                } else {
                    &&& r.0 == (BuildDigestState::AwaitingMessageGroup { primary_messages: ms, index: 0 })
                    &&& reads_group_of(r.1, ms@[0])
                },
            },
            (BuildDigestState::AwaitingMessageGroup { primary_messages, index }, BuildDigestEvent::MessageGroup(found)) => match found {
                Err(e) => failed_with(r.0, r.1, e),
                Ok(group) => {
                    &&& r.0 == (BuildDigestState::AwaitingStoredDigest { primary_messages, index })
                    &&& r.1 matches BuildDigestAction::StoreDigest(d) && {
                        &&& d.message_uid == primary_messages@[index as int].uid
                        &&& d.date == primary_messages@[index as int].date
                        &&& d.text@ == group_summary(group)
                        &&& d.chat_id == DIGEST_CHAT_ID
                    }
                },
            },
            (BuildDigestState::AwaitingStoredDigest { primary_messages, index }, BuildDigestEvent::DigestStored(stored)) => match stored {
                Err(e) => failed_with(r.0, r.1, e),
                Ok(_) => if index + 1 < primary_messages@.len() {
                    &&& r.0 == (BuildDigestState::AwaitingMessageGroup { primary_messages, index: (index + 1) as usize })
                    &&& reads_group_of(r.1, primary_messages@[index + 1])
                } else {
                    r.1 == BuildDigestAction::Finish(Ok(()))
                },
            },
            _ => false,
        },
{
    let ghost old_state = state;
    match (state, event) {
        (BuildDigestState::AwaitingRecentDigest { ten_days_ago }, BuildDigestEvent::MostRecentDigest(recent)) => {
            let start_timestamp = pick_start_timestamp(ten_days_ago, &recent);
            (BuildDigestState::AwaitingPrimaryMessages, BuildDigestAction::ReadPrimaryMessages(start_timestamp))
        },
        (BuildDigestState::AwaitingPrimaryMessages, BuildDigestEvent::PrimaryMessages(found)) => match found {
            Err(e) => (BuildDigestState::Finished, BuildDigestAction::Finish(Err(DigestError::DbError(e)))),
            Ok(primary_messages) => {
                if primary_messages.len() == 0 {
                    (BuildDigestState::Finished, BuildDigestAction::Finish(Ok(())))
                } else {
                    let uid = primary_messages[0].uid.clone();
                    (BuildDigestState::AwaitingMessageGroup { primary_messages, index: 0 }, BuildDigestAction::ReadMessageGroup(uid))
                }
            },
        },
        (BuildDigestState::AwaitingMessageGroup { primary_messages, index }, BuildDigestEvent::MessageGroup(found)) => match found {
            Err(e) => (BuildDigestState::Finished, BuildDigestAction::Finish(Err(DigestError::DbError(e)))),
            Ok(group) => {
                let digest = digest_input_for(&primary_messages[index], &group, DIGEST_CHAT_ID);
                (BuildDigestState::AwaitingStoredDigest { primary_messages, index }, BuildDigestAction::StoreDigest(digest))
            },
        },
        (BuildDigestState::AwaitingStoredDigest { primary_messages, index }, BuildDigestEvent::DigestStored(stored)) => match stored {
            Err(e) => (BuildDigestState::Finished, BuildDigestAction::Finish(Err(DigestError::DbError(e)))),
            Ok(_) => {
                assert(old_state.wf());
                assert(index < primary_messages.len());
                if index + 1 < primary_messages.len() {
                    let uid = primary_messages[index + 1].uid.clone();
                    (BuildDigestState::AwaitingMessageGroup { primary_messages, index: index + 1 }, BuildDigestAction::ReadMessageGroup(uid))
                } else {
                    (BuildDigestState::Finished, BuildDigestAction::Finish(Ok(())))
                }
            },
        },
        (_, _) => {
            assert(false);
            (BuildDigestState::Finished, BuildDigestAction::Finish(Ok(())))
        },
    }
}

/// Law: a thread's summary begins with the text of its first message, and is
/// exactly that text where nobody answered.
pub proof fn lemma_summary_starts_with_text(g: GroupedMessage)
    ensures
        group_summary(g).take(g.text@.len() as int) == g.text@,
        g.reply_to is None ==> group_summary(g) == g.text@,
{
    let rest = match g.reply_to {
        Some(replies) => replies_summary(replies@),
        None => Seq::empty(),
    };
    assert((g.text@ + rest).take(g.text@.len() as int) =~= g.text@);
    if g.reply_to is None {
        assert(g.text@ + Seq::<char>::empty() =~= g.text@);
    }
}

/// Law: the summaries of two lists of answers, one after the other, are the
/// summary of the joined list.
pub proof fn lemma_replies_summary_concat(a: Seq<Box<GroupedMessage>>, b: Seq<Box<GroupedMessage>>)
    ensures
        replies_summary(a + b) == replies_summary(a) + replies_summary(b),
    decreases b.len(),
{
    if b.len() == 0 {
        assert(a + b =~= a);
        assert(replies_summary(a) + Seq::<char>::empty() =~= replies_summary(a));
    } else {
        lemma_replies_summary_concat(a, b.drop_last());
        assert((a + b).drop_last() =~= a + b.drop_last());
        assert((a + b).last() == b.last());
        assert(replies_summary(a + b) =~= replies_summary(a) + replies_summary(b));
    }
}

/// Law: a list holding one answer summarises to that answer's whole thread,
/// its own answers at every depth included.
pub proof fn lemma_single_reply_summary(x: Box<GroupedMessage>)
    ensures
        replies_summary(seq![x]) == group_summary(*x),
{
    let s = seq![x];
    assert(s.drop_last() =~= Seq::<Box<GroupedMessage>>::empty());
    assert(replies_summary(s.drop_last()) == Seq::<char>::empty());
    assert(s.last() == x);
    assert(Seq::<char>::empty() + group_summary(*x) =~= group_summary(*x));
}

/// Law: the summary of a message answered by exactly one message `x` is the
/// message's text followed by the whole summary of `x`; so a chain of
/// answers, however long, summarises to all of its texts in order.
pub proof fn lemma_chain_summary(g: GroupedMessage, x: Box<GroupedMessage>)
    requires
        g.reply_to matches Some(replies) && replies@ == seq![x],
    ensures
        group_summary(g) == g.text@ + group_summary(*x),
{
    lemma_single_reply_summary(x);
}

/// Law: every answer's full summary appears, in its place, in the summary of
/// the message it answers: after the message's text and the summaries of the
/// answers before it, and before those of the answers after it.
pub proof fn lemma_each_reply_summarised(g: GroupedMessage, i: int)
    requires
        g.reply_to is Some,
        0 <= i < g.reply_to->0@.len(),
    ensures
        ({
            let replies = g.reply_to->0@;
            group_summary(g) == g.text@ + replies_summary(replies.take(i)) + group_summary(*replies[i])
                + replies_summary(replies.skip(i + 1))
        }),
{
    let replies = g.reply_to->0@;
    assert(replies =~= replies.take(i) + (seq![replies[i]] + replies.skip(i + 1)));
    lemma_replies_summary_concat(replies.take(i), seq![replies[i]] + replies.skip(i + 1));
    lemma_replies_summary_concat(seq![replies[i]], replies.skip(i + 1));
    lemma_single_reply_summary(replies[i]);
    let a = g.text@;
    let b = replies_summary(replies.take(i));
    let c = group_summary(*replies[i]);
    let d = replies_summary(replies.skip(i + 1));
    assert(a + (b + (c + d)) =~= a + b + c + d);
}

/// Law: digests never start later than ten days ago, nor later than the most
/// recent digest; the start is one of the two.
pub proof fn lemma_start_timestamp_bounds(ten_days_ago: i64, recent_digest: Result<Digest, DbError>)
    ensures
        start_timestamp_spec(ten_days_ago, recent_digest) <= ten_days_ago,
        recent_digest matches Ok(d) ==> start_timestamp_spec(ten_days_ago, recent_digest) <= d.date
            && (start_timestamp_spec(ten_days_ago, recent_digest) == d.date
            || start_timestamp_spec(ten_days_ago, recent_digest) == ten_days_ago),
        recent_digest is Err ==> start_timestamp_spec(ten_days_ago, recent_digest) == ten_days_ago,
{
}

/// Law: a database error turned into a digest error reads `[DB]: ` before the
/// database error's own message.
pub proof fn lemma_digest_error_from_db(e: DbError)
    ensures
        digest_error_text(
            <DigestError as vstd::std_specs::convert::FromSpec<DbError>>::from_spec(e),
        ) == "[DB]: "@ + db_error_text(e),
{
}

} // verus!
