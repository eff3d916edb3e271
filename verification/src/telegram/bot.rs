//! The bot's decisions on incoming Telegram messages: recognising the digest
//! command, turning a chat message into a database record, and writing the
//! answer to a digest request.

use vstd::prelude::*;
use vstd::string::*;
use crate::telegram::clock::{days_before, days_before_spec, in_datetime_range, now_timestamp, ClockError};
use crate::telegram::db::db::DbError;
use crate::telegram::db::digest::Digest;
use crate::telegram::db::message::{Message, MessageInput, ReplyTo};
use crate::telegram::text::{i64_to_decimal, int_decimal, parse_u32, parse_u32_spec};

verus! {

/// The command that asks the bot for a digest.
pub const DIGEST_COMMAND: &'static str = "/digest@summarizatorBot";

/// The start of a link to a message of a private group.
pub const T_ME_LINK: &'static str = "http://t.me/c/";

/// The answer when there is nothing to report.
pub const NO_DIGESTS_RESPONSE: &'static str = "No digests found for requested period";

/// The first line of a digest answer.
pub const DIGESTS_HEADER: &'static str = "We discussed the following topics:\n\n";

/// The one user who may ask for digests.
pub const PERMITTED_USER_ID: i64 = 3147171;

/// The number of days a digest covers when the request names none.
pub const DEFAULT_DIGEST_DAYS: u32 = 3;

/// What kind of text a message entity marks.
pub enum MessageEntityKind {
    BotCommand,
    Other,
}

/// A marked span of a message's text, in UTF-16 code units.
pub struct MessageEntity {
    pub offset: i64,
    pub length: i64,
    pub kind: MessageEntityKind,
}

/// The content of an incoming message: text with its entities, or anything else.
pub enum MessageKind {
    Text { data: String, entities: Vec<MessageEntity> },
    Other,
}

/// What an incoming message answers: a chat message (by its id) or a channel post.
pub enum ReplyToMessage {
    Message { message_id: i64 },
    ChannelPost,
}

/// An incoming Telegram chat message, as far as the bot reads it.
pub struct IncomingMessage {
    pub id: i64,
    pub from_id: i64,
    pub date: i64,
    pub chat_id: i64,
    pub reply_to_message: Option<ReplyToMessage>,
    pub kind: MessageKind,
}

/// A command that the bot carries out.
pub enum BotCommands {
    Digest(String),
}

/// The first `n` characters of `text` (all of it where it is shorter).
pub open spec fn take_chars(text: Seq<char>, n: int) -> Seq<char> {
    if n < text.len() {
        text.take(n)
    } else {
        text
    }
}

/// Whether `m` is a text message whose first entity is a bot command at the
/// start of the text that spells the digest command.
pub open spec fn is_digest_command(m: IncomingMessage) -> bool {
    match m.kind {
        MessageKind::Text { data, entities } => {
            &&& entities@.len() >= 1
            &&& entities@[0].offset == 0
            &&& entities@[0].kind is BotCommand
            &&& take_chars(data@, entities@[0].length as usize as int) == DIGEST_COMMAND@
        },
        MessageKind::Other => false,
    }
}

/// The argument text handed on with a digest command: the command's characters and one more.
pub open spec fn digest_command_argument(m: IncomingMessage) -> Seq<char> {
    match m.kind {
        MessageKind::Text { data, entities } => take_chars(
            data@,
            entities@[0].length as usize as int + 1,
        ),
        MessageKind::Other => Seq::empty(),
    }
}

/// Where counting one character past the command would overflow a `usize`.
pub open spec fn digest_command_overflows(m: IncomingMessage) -> bool {
    is_digest_command(m) && match m.kind {
        MessageKind::Text { data, entities } => entities@[0].length as usize == usize::MAX,
        MessageKind::Other => false,
    }
}

/// The first `n` characters of `text`.
fn take_chars_of(text: &String, n: usize) -> (s: String)
    ensures
        s@ == take_chars(text@, n as int),
{
    let total = text.as_str().unicode_len();
    let k = if n < total { n } else { total };
    let prefix = text.as_str().substring_char(0, k);
    assert(text@.take(total as int) =~= text@);
    String::from_str(prefix)
}

/// Recognises the digest command: a text message whose first entity is a bot
/// command starting the text and reading `/digest@summarizatorBot`. The command
/// carries the text's first characters, one more than the command's length.
pub fn get_bot_command(message: &IncomingMessage) -> (r: Option<BotCommands>)
    requires
        !digest_command_overflows(*message),
    ensures
        r is Some <==> is_digest_command(*message),
        r matches Some(BotCommands::Digest(days)) ==> days@ == digest_command_argument(*message),
{
    let (entities, text) = match &message.kind {
        MessageKind::Text { data, entities } => (entities, data),
        MessageKind::Other => {
            return None;
        },
    };
    if entities.len() < 1 {
        return None;
    }
    let first_entity = &entities[0];
    if first_entity.offset != 0 {
        return None;
    }
    let bot_command: Option<String> = match first_entity.kind {
        MessageEntityKind::BotCommand => Some(take_chars_of(text, first_entity.length as usize)),
        MessageEntityKind::Other => None,
    };
    let command = String::from_str(DIGEST_COMMAND);
    match bot_command {
        Some(found) => {
            if !(found == command) {
                return None;
            }
        },
        None => {
            return None;
        },
    }
    let length = first_entity.length as usize;
    Some(BotCommands::Digest(take_chars_of(text, length + 1)))
}

/// Whether counting one character past the digest command in `message`
/// overflows a `usize` (the command's length is `usize::MAX` once cast).
pub fn command_argument_overflows(message: &IncomingMessage) -> (r: bool)
    ensures
        r == digest_command_overflows(*message),
{
    match &message.kind {
        MessageKind::Text { data, entities } => {
            if entities.len() < 1 {
                return false;
            }
            let first_entity = &entities[0];
            let is_command = match first_entity.kind {
                MessageEntityKind::BotCommand => true,
                MessageEntityKind::Other => false,
            };
            if first_entity.offset != 0 || !is_command || first_entity.length as usize != usize::MAX {
                return false;
            }
            let found = take_chars_of(data, first_entity.length as usize);
            found == String::from_str(DIGEST_COMMAND)
        },
        MessageKind::Other => false,
    }
}

/// One line of a digest answer: the digest's text, a line break, and the link
/// to the thread's first message.
pub open spec fn digest_line(d: Digest) -> Seq<char> {
    d.text@ + "\n"@ + T_ME_LINK@ + int_decimal(d.chat_id as int) + "/"@ + d.message_uid@
}

/// The lines of a list of digests, one after another.
pub open spec fn digest_lines(ds: Seq<Digest>) -> Seq<char>
    decreases ds.len(),
{
    if ds.len() == 0 {
        Seq::empty()
    } else {
        digest_lines(ds.drop_last()) + digest_line(ds.last())
    }
}

/// The answer to a digest request, given the digests found (`None` where they
/// could not be read).
pub open spec fn digests_response(digests: Option<Seq<Digest>>) -> Seq<char> {
    match digests {
        Some(ds) => if ds.len() < 1 {
            NO_DIGESTS_RESPONSE@
        } else {
            DIGESTS_HEADER@ + digest_lines(ds)
        },
        None => NO_DIGESTS_RESPONSE@,
    }
}

/// Writes the answer to a digest request: a fixed reply where there is no
/// digest, else a header and, for each digest, its text and a link to its thread.
pub fn make_digests_response(digests: Option<Vec<Digest>>) -> (s: String)
    ensures
        s@ == digests_response(
            match digests {
                Some(ds) => Some(ds@),
                None => None,
            },
        ),
{
    let digests_to_use = match digests {
        Some(ds) => ds,
        None => {
            return String::from_str(NO_DIGESTS_RESPONSE);
        },
    };
    if digests_to_use.len() < 1 {
        return String::from_str(NO_DIGESTS_RESPONSE);
    }
    let mut res = String::from_str(DIGESTS_HEADER);
    let mut i: usize = 0;
    while i < digests_to_use.len()
        invariant
            i <= digests_to_use@.len(),
            res@ == DIGESTS_HEADER@ + digest_lines(digests_to_use@.take(i as int)),
        decreases digests_to_use@.len() - i,
    {
        let digest = &digests_to_use[i];
        res.append(digest.text.as_str());
        res.append("\n");
        res.append(T_ME_LINK);
        let chat = i64_to_decimal(digest.chat_id);
        res.append(chat.as_str());
        res.append("/");
        res.append(digest.message_uid.as_str());
        proof {
            assert(digests_to_use@.take(i + 1).drop_last() =~= digests_to_use@.take(i as int));
            assert(res@ =~= DIGESTS_HEADER@ + digest_lines(digests_to_use@.take(i + 1)));
        }
        i = i + 1;
    }
    assert(digests_to_use@.take(i as int) =~= digests_to_use@);
    res
}

/// The chat message id, in decimal, of the message that `message` answers,
/// where it answers a chat message.
pub fn reply_lookup_id(message: &IncomingMessage) -> (id: Option<String>)
    ensures
        match message.reply_to_message {
            Some(ReplyToMessage::Message { message_id }) => id matches Some(s) && s@ == int_decimal(message_id as int),
            _ => id is None,
        },
{
    match &message.reply_to_message {
        Some(ReplyToMessage::Message { message_id }) => Some(i64_to_decimal(*message_id)),
        _ => None,
    }
}

/// The text a stored message keeps: the text of a text message, else nothing.
pub open spec fn stored_text(kind: MessageKind) -> Seq<char> {
    match kind {
        MessageKind::Text { data, .. } => data@,
        MessageKind::Other => Seq::empty(),
    }
}

/// The reply link a stored message keeps: the database id of the answered
/// chat message where the lookup found it, else none.
pub open spec fn stored_reply(
    reply: Option<ReplyToMessage>,
    lookup: Option<Result<Message, DbError>>,
) -> Option<ReplyTo> {
    match (reply, lookup) {
        (Some(ReplyToMessage::Message { .. }), Some(Ok(found))) => Some(ReplyTo { uid: found.uid }),
        _ => None,
    }
}

/// Turns an incoming message into the record to store, given what the lookup
/// of the message it answers returned (`None` where no lookup was made). A
/// message that answers a channel post is not stored.
pub fn telegram_message_to_message_input(
    tb_message: Option<IncomingMessage>,
    reply_lookup: Option<Result<Message, DbError>>,
) -> (r: Option<MessageInput>)
    ensures
        match tb_message {
            None => r is None,
            Some(m) => if m.reply_to_message matches Some(ReplyToMessage::ChannelPost) {
                r is None
            } else {
                r matches Some(input) && {
                    &&& input.message_id@ == int_decimal(m.id as int)
                    &&& input.text@ == stored_text(m.kind)
                    &&& input.date == m.date
                    &&& input.reply_to == stored_reply(m.reply_to_message, reply_lookup)
                    &&& input.chat_id == m.chat_id
                }
            },
        },
{
    let message = match tb_message {
        Some(message) => message,
        None => {
            return None;
        },
    };
    let reply_to = match message.reply_to_message {
        Some(ReplyToMessage::Message { .. }) => match reply_lookup {
            Some(Ok(found)) => Some(ReplyTo { uid: found.uid }),
            _ => None,
        },
        Some(ReplyToMessage::ChannelPost) => {
            return None;
        },
        None => None,
    };
    let text = match message.kind {
        MessageKind::Text { data, .. } => data,
        MessageKind::Other => String::new(),
    };
    Some(MessageInput::new(i64_to_decimal(message.id), text, message.date, reply_to, message.chat_id))
}

/// The ids of the users who may ask for digests.
pub open spec fn permitted_user_ids() -> Seq<i64> {
    seq![PERMITTED_USER_ID]
}

/// Whether `user_id` may ask for digests.
pub fn is_permitted_user(user_id: i64) -> (r: bool)
    ensures
        r == permitted_user_ids().contains(user_id),
{
    let permitted: Vec<i64> = vec![PERMITTED_USER_ID];
    assert(permitted@ =~= permitted_user_ids());
    let mut i: usize = 0;
    while i < permitted.len()
        invariant
            i <= permitted@.len(),
            permitted@ == permitted_user_ids(),
            forall|j: int| 0 <= j < i ==> permitted@[j] != user_id,
        decreases permitted@.len() - i,
    {
        if permitted[i] == user_id {
            return true;
        }
        i = i + 1;
    }
    false
}

/// The number of days a digest request asks for: its argument read as a
/// `u32`, or three days where it does not read as one.
pub open spec fn requested_days_spec(days: Seq<char>) -> u32 {
    match parse_u32_spec(days) {
        Some(d) => d,
        None => DEFAULT_DIGEST_DAYS,
    }
}

/// Reads the number of days a digest request asks for.
pub fn requested_days(days: &str) -> (r: u32)
    ensures
        r == requested_days_spec(days@),
{
    match parse_u32(days) {
        Some(d) => d,
        None => DEFAULT_DIGEST_DAYS,
    }
}

/// What to do with a digest request.
pub enum DigestCommandPlan {
    /// The sender may not ask for digests: do nothing.
    NotPermitted,
    /// The period reaches before the earliest instant chrono represents.
    PeriodOutOfRange,
    /// Read the digests dated from this timestamp on, and answer with them.
    FetchSince(i64),
}

/// How a digest request from `user_id` with argument `days` is answered at
/// the instant `now`: not at all where the sender may not ask; else by the
/// digests from the requested number of days before `now`, where chrono
/// represents that instant.
pub open spec fn digest_plan(user_id: i64, days: Seq<char>, now: i64) -> DigestCommandPlan {
    if !permitted_user_ids().contains(user_id) {
        DigestCommandPlan::NotPermitted
    } else {
        let start = days_before_spec(now as int, requested_days_spec(days) as int);
        if in_datetime_range(now as int) && in_datetime_range(start) {
            DigestCommandPlan::FetchSince(start as i64)
        } else {
            DigestCommandPlan::PeriodOutOfRange
        }
    }
}

/// Decides how to answer a digest request from `user_id` with argument
/// `days`, at the instant `now`.
pub fn plan_digest_command_at(user_id: i64, days: &str, now: i64) -> (p: DigestCommandPlan)
    ensures
        p == digest_plan(user_id, days@, now),
{
    if !is_permitted_user(user_id) {
        return DigestCommandPlan::NotPermitted;
    }
    let days_to_use = requested_days(days);
    match days_before(now, days_to_use as i64) {
        Some(start_timestamp) => DigestCommandPlan::FetchSince(start_timestamp),
        None => DigestCommandPlan::PeriodOutOfRange,
    }
}

/// Decides how to answer a digest request from `user_id` with argument
/// `days`, now: the plan at some instant that chrono represents. The clock is
/// read only for a sender who may ask; an error where it cannot be read.
pub fn plan_digest_command(user_id: i64, days: &str) -> (p: Result<DigestCommandPlan, ClockError>)
    ensures
        !permitted_user_ids().contains(user_id) ==> p == Ok::<DigestCommandPlan, ClockError>(DigestCommandPlan::NotPermitted),
        p matches Ok(plan) ==> exists|now: i64| in_datetime_range(now as int) && plan == #[trigger] digest_plan(user_id, days@, now),
{
    if !is_permitted_user(user_id) {
        let plan = plan_digest_command_at(user_id, days, 0);
        assert(in_datetime_range(0) && plan == digest_plan(user_id, days@, 0));
        return Ok(plan);
    }
    match now_timestamp() {
        Ok(now) => {
            let plan = plan_digest_command_at(user_id, days, now);
            assert(plan == digest_plan(user_id, days@, now));
            Ok(plan)
        },
        Err(e) => Err(e),
    }
}

/// The answer to a digest request, given what reading the digests returned.
pub fn answer_digest_command(digests: Result<Vec<Digest>, DbError>) -> (s: String)
    ensures
        s@ == digests_response(
            match digests {
                Ok(ds) => Some(ds@),
                Err(_) => None,
            },
        ),
{
    match digests {
        Ok(ds) => make_digests_response(Some(ds)),
        Err(_) => make_digests_response(None),
    }
}

/// Where the handling of one incoming message stands.
pub enum HandleMessageState {
    /// Waiting for the digests asked for by `user_id`.
    AwaitingDigests { user_id: i64 },
    /// Waiting for the lookup of the message that `message` answers.
    AwaitingReplyLookup { message: IncomingMessage },
    /// Waiting for the message record to be stored.
    AwaitingStoredMessage,
    /// Waiting for the answer to be sent.
    AwaitingSentAnswer,
    /// Handling is over.
    Finished,
}

/// What the outside world reports back while a message is handled.
pub enum HandleMessageEvent {
    DigestsRead(Result<Vec<Digest>, DbError>),
    ReplyLookedUp(Result<Message, DbError>),
    MessageStored(Result<(), DbError>),
    AnswerSent,
}

/// What handling a message asks the outside world to do next.
pub enum HandleMessageAction {
    /// Read the digests dated at or after this timestamp.
    ReadDigests(i64),
    /// Look up the stored message with this chat message id.
    LookUpReply(String),
    /// Store this message record.
    StoreMessage(MessageInput),
    /// Send `text` to the user `user_id`.
    SendAnswer { user_id: i64, text: String },
    /// The requested period reaches before the earliest instant chrono represents.
    PeriodOutOfRange,
    /// The digest command's length plus one overflows a `usize`.
    CommandLengthOverflow,
    /// Nothing more to do.
    Finish,
}

impl HandleMessageState {
    /// Whether `event` reports on what this state waits for.
    pub open spec fn expects(&self, event: HandleMessageEvent) -> bool {
        match self {
            HandleMessageState::AwaitingDigests { .. } => event is DigestsRead,
            HandleMessageState::AwaitingReplyLookup { .. } => event is ReplyLookedUp,
            HandleMessageState::AwaitingStoredMessage => event is MessageStored,
            HandleMessageState::AwaitingSentAnswer => event is AnswerSent,
            HandleMessageState::Finished => false,
        }
    }

    /// The steps left before handling is over.
    pub open spec fn steps_left(&self) -> nat {
        match self {
            HandleMessageState::AwaitingDigests { .. } => 2,
            HandleMessageState::AwaitingReplyLookup { .. } => 2,
            HandleMessageState::AwaitingStoredMessage => 1,
            HandleMessageState::AwaitingSentAnswer => 1,
            HandleMessageState::Finished => 0,
        }
    }

    /// A message waiting for its reply lookup answers a chat message.
    pub open spec fn wf(&self) -> bool {
        self matches HandleMessageState::AwaitingReplyLookup { message } ==> message.reply_to_message matches Some(
            ReplyToMessage::Message { .. },
        )
    }
}

/// Whether `input` is the record of `m`, given the reply lookup's outcome.
pub open spec fn is_record_of(input: MessageInput, m: IncomingMessage, lookup: Option<Result<Message, DbError>>) -> bool {
    &&& input.message_id@ == int_decimal(m.id as int)
    &&& input.text@ == stored_text(m.kind)
    &&& input.date == m.date
    &&& input.reply_to == stored_reply(m.reply_to_message, lookup)
    &&& input.chat_id == m.chat_id
}

/// How handling `message` starts at the instant `now`. A digest command from
/// the permitted user reads the digests of the requested period; from anyone
/// else it is ignored. Any other message is stored, after looking up the chat
/// message it answers; one that answers a channel post is dropped.
pub open spec fn handling_starts(
    message: IncomingMessage,
    now: i64,
    state: HandleMessageState,
    action: HandleMessageAction,
) -> bool {
    &&& state.wf()
    &&& state is Finished <==> (action is Finish || action is PeriodOutOfRange || action is CommandLengthOverflow)
    &&& digest_command_overflows(message) ==> action is CommandLengthOverflow
    &&& !digest_command_overflows(message) && is_digest_command(message) ==> match digest_plan(
        message.from_id,
        digest_command_argument(message),
        now,
    ) {
        DigestCommandPlan::NotPermitted => action is Finish,
        DigestCommandPlan::PeriodOutOfRange => action is PeriodOutOfRange,
        DigestCommandPlan::FetchSince(t) => {
            &&& state == (HandleMessageState::AwaitingDigests { user_id: message.from_id })
            &&& action == HandleMessageAction::ReadDigests(t)
        },
    }
    &&& !is_digest_command(message) ==> match message.reply_to_message {
        Some(ReplyToMessage::Message { message_id }) => {
            &&& state == (HandleMessageState::AwaitingReplyLookup { message })
            &&& action matches HandleMessageAction::LookUpReply(id) && id@ == int_decimal(message_id as int)
        },
        Some(ReplyToMessage::ChannelPost) => action is Finish,
        None => {
            &&& state is AwaitingStoredMessage
            &&& action matches HandleMessageAction::StoreMessage(input) && is_record_of(input, message, None)
        },
    }
}

/// Starts handling an incoming message at the instant `now`.
pub fn start_handle_message_at(message: IncomingMessage, now: i64) -> (r: (HandleMessageState, HandleMessageAction))
    ensures
        handling_starts(message, now, r.0, r.1),
{
    if command_argument_overflows(&message) {
        return (HandleMessageState::Finished, HandleMessageAction::CommandLengthOverflow);
    }
    match get_bot_command(&message) {
        Some(BotCommands::Digest(days)) => {
            match plan_digest_command_at(message.from_id, days.as_str(), now) {
                DigestCommandPlan::NotPermitted => (HandleMessageState::Finished, HandleMessageAction::Finish),
                DigestCommandPlan::PeriodOutOfRange => (HandleMessageState::Finished, HandleMessageAction::PeriodOutOfRange),
                DigestCommandPlan::FetchSince(start_timestamp) => {
                    (HandleMessageState::AwaitingDigests { user_id: message.from_id }, HandleMessageAction::ReadDigests(start_timestamp))
                },
            }
        },
        None => {
            match reply_lookup_id(&message) {
                Some(id) => (HandleMessageState::AwaitingReplyLookup { message }, HandleMessageAction::LookUpReply(id)),
                None => {
                    match telegram_message_to_message_input(Some(message), None) {
                        Some(input) => (HandleMessageState::AwaitingStoredMessage, HandleMessageAction::StoreMessage(input)),
                        None => (HandleMessageState::Finished, HandleMessageAction::Finish),
                    }
                },
            }
        },
    }
}

/// Whether handling `message` depends on the clock: it is a digest command
/// from the user who may ask for digests.
pub open spec fn handling_reads_clock(message: IncomingMessage) -> bool {
    &&& !digest_command_overflows(message)
    &&& is_digest_command(message)
    &&& permitted_user_ids().contains(message.from_id)
}

/// Starts handling an incoming message now: as it starts at some instant that
/// chrono represents. The clock is read only for a digest command from the
/// user who may ask; an error where it cannot be read.
pub fn start_handle_message(message: IncomingMessage) -> (r: Result<(HandleMessageState, HandleMessageAction), ClockError>)
    ensures
        !handling_reads_clock(message) ==> r is Ok,
        r matches Ok(started) ==> exists|now: i64|
            in_datetime_range(now as int) && #[trigger] handling_starts(message, now, started.0, started.1),
{
    assert(in_datetime_range(0));
    let reads_clock = !command_argument_overflows(&message) && match get_bot_command(&message) {
        Some(BotCommands::Digest(_)) => is_permitted_user(message.from_id),
        None => false,
    };
    let ghost m = message;
    if !reads_clock {
        let started = start_handle_message_at(message, 0);
        let result: Result<(HandleMessageState, HandleMessageAction), ClockError> = Ok(started);
        assert(result matches Ok(st) ==> handling_starts(m, 0, st.0, st.1));
        return result;
    }
    match now_timestamp() {
        Ok(now) => {
            let started = start_handle_message_at(message, now);
            let result: Result<(HandleMessageState, HandleMessageAction), ClockError> = Ok(started);
            assert(handling_starts(m, now, started.0, started.1));
            assert(result matches Ok(st) ==> handling_starts(m, now, st.0, st.1));
            result
        },
        Err(e) => Err(e),
    }
}

/// One further step of handling a message: answer a digest request with what
/// was read, store a message record once its reply lookup is back, and finish
/// once the record is stored or the answer sent.
pub fn handle_message_step(state: HandleMessageState, event: HandleMessageEvent) -> (r: (HandleMessageState, HandleMessageAction))
    requires
        state.wf(),
        state.expects(event),
    ensures
        r.0.wf(),
        r.0 is Finished <==> r.1 is Finish,
        r.0.steps_left() < state.steps_left(),
        match (state, event) {
            (HandleMessageState::AwaitingDigests { user_id }, HandleMessageEvent::DigestsRead(read)) => {
                &&& r.0 is AwaitingSentAnswer
                &&& r.1 matches HandleMessageAction::SendAnswer { user_id: to, text } && to == user_id
                    && text@ == digests_response(
                    match read {
                        Ok(ds) => Some(ds@),
                        Err(_) => None,
                    },
                )
            },
            (HandleMessageState::AwaitingReplyLookup { message }, HandleMessageEvent::ReplyLookedUp(found)) => {
                &&& r.0 is AwaitingStoredMessage
                &&& r.1 matches HandleMessageAction::StoreMessage(input) && is_record_of(input, message, Some(found))
            },
            (HandleMessageState::AwaitingStoredMessage, HandleMessageEvent::MessageStored(_)) => r.1 is Finish,
            (HandleMessageState::AwaitingSentAnswer, HandleMessageEvent::AnswerSent) => r.1 is Finish,
            _ => false,
        },
{
    let ghost old_state = state;
    match (state, event) {
        (HandleMessageState::AwaitingDigests { user_id }, HandleMessageEvent::DigestsRead(read)) => {
            let text = answer_digest_command(read);
            (HandleMessageState::AwaitingSentAnswer, HandleMessageAction::SendAnswer { user_id, text })
        },
        (HandleMessageState::AwaitingReplyLookup { message }, HandleMessageEvent::ReplyLookedUp(found)) => {
            assert(old_state.wf());
            match telegram_message_to_message_input(Some(message), Some(found)) {
                Some(input) => (HandleMessageState::AwaitingStoredMessage, HandleMessageAction::StoreMessage(input)),
                None => {
                    assert(false);
                    (HandleMessageState::Finished, HandleMessageAction::Finish)
                },
            }
        },
        (HandleMessageState::AwaitingStoredMessage, HandleMessageEvent::MessageStored(_)) => (HandleMessageState::Finished, HandleMessageAction::Finish),
        (HandleMessageState::AwaitingSentAnswer, HandleMessageEvent::AnswerSent) => (HandleMessageState::Finished, HandleMessageAction::Finish),
        (_, _) => {
            assert(false);
            (HandleMessageState::Finished, HandleMessageAction::Finish)
        },
    }
}

/// Law: the lines of two lists of digests, one after the other, are the lines
/// of the joined list.
pub proof fn lemma_digest_lines_concat(a: Seq<Digest>, b: Seq<Digest>)
    ensures
        digest_lines(a + b) == digest_lines(a) + digest_lines(b),
    decreases b.len(),
{
    if b.len() == 0 {
        assert(a + b =~= a);
        assert(digest_lines(a) + Seq::<char>::empty() =~= digest_lines(a));
    } else {
        lemma_digest_lines_concat(a, b.drop_last());
        assert((a + b).drop_last() =~= a + b.drop_last());
        assert((a + b).last() == b.last());
        assert(digest_lines(a + b) =~= digest_lines(a) + digest_lines(b));
    }
}

/// Law: each digest added to a non-empty list adds its own line, text and
/// link, at the end of the answer: every digest of the list is listed, in order.
pub proof fn lemma_response_lists_every_digest(ds: Seq<Digest>, d: Digest)
    requires
        ds.len() > 0,
    ensures
        digests_response(Some(ds.push(d))) == digests_response(Some(ds)) + digest_line(d),
        digests_response(Some(seq![d])) == DIGESTS_HEADER@ + digest_line(d),
{
    assert(ds.push(d).drop_last() =~= ds);
    assert(seq![d].drop_last() =~= Seq::<Digest>::empty());
    assert(digest_lines(seq![d].drop_last()) == Seq::<char>::empty());
    assert(seq![d].last() == d);
    assert(Seq::<char>::empty() + digest_line(d) =~= digest_line(d));
    assert(digest_lines(seq![d]) == digest_line(d));
    assert(ds.push(d).len() > 0);
    assert(DIGESTS_HEADER@ + (digest_lines(ds) + digest_line(d)) =~= DIGESTS_HEADER@ + digest_lines(ds) + digest_line(d));
}

/// Law: the answer for a non-empty list followed by more digests is the
/// answer for the list followed by the lines of the rest.
pub proof fn lemma_response_concat(a: Seq<Digest>, b: Seq<Digest>)
    requires
        a.len() > 0,
    ensures
        digests_response(Some(a + b)) == digests_response(Some(a)) + digest_lines(b),
{
    lemma_digest_lines_concat(a, b);
    assert(DIGESTS_HEADER@ + (digest_lines(a) + digest_lines(b)) =~= DIGESTS_HEADER@ + digest_lines(a) + digest_lines(b));
}

/// Law: a stored text message keeps its whole text, whatever entities
/// (mentions, links, commands) it carries.
pub proof fn lemma_record_keeps_text(input: MessageInput, m: IncomingMessage, lookup: Option<Result<Message, DbError>>)
    requires
        is_record_of(input, m, lookup),
    ensures
        m.kind matches MessageKind::Text { data, .. } ==> input.text@ == data@,
        m.kind is Other ==> input.text@ == Seq::<char>::empty(),
{
}

/// Law: a stored answer links to the very message it answers, as the lookup
/// found it, whatever that message answers in turn; without a found message
/// it links to nothing.
pub proof fn lemma_record_links_answered_message(input: MessageInput, m: IncomingMessage, lookup: Option<Result<Message, DbError>>)
    requires
        is_record_of(input, m, lookup),
    ensures
        m.reply_to_message matches Some(ReplyToMessage::Message { .. }) ==> (lookup matches Some(Ok(found))
            ==> input.reply_to == Some(ReplyTo { uid: found.uid })),
        !(lookup matches Some(Ok(_))) ==> input.reply_to is None,
        m.reply_to_message is None ==> input.reply_to is None,
{
}

/// Law: the argument of a recognised digest command is the text's first
/// (entity length + 1) characters (all of it where shorter), so it is a prefix
/// of the text at most one character longer than the command.
pub proof fn lemma_digest_argument_is_command_prefix(m: IncomingMessage)
    requires
        is_digest_command(m),
    ensures
        m.kind matches MessageKind::Text { data, entities } && {
            let n = entities@[0].length as usize as int;
            let arg = digest_command_argument(m);
            &&& arg == data@.take(if n + 1 < data@.len() { n + 1 } else { data@.len() as int })
            &&& arg.len() <= DIGEST_COMMAND@.len() + 1
        },
{
    match m.kind {
        MessageKind::Text { data, entities } => {
            let n = entities@[0].length as usize as int;
            if n + 1 >= data@.len() {
                assert(data@.take(data@.len() as int) =~= data@);
            }
            if n < data@.len() {
                assert(take_chars(data@, n).len() == n);
            }
        },
        MessageKind::Other => {},
    }
}

/// Law: a request whose digests could not be read is answered as one that found none.
pub proof fn lemma_unreadable_digests_answer(ds: Seq<Digest>)
    ensures
        ds.len() == 0 ==> digests_response(None) == digests_response(Some(ds)),
        digests_response(None) == NO_DIGESTS_RESPONSE@,
{
}

/// Law: the argument of a recognised digest command begins with the command itself.
pub proof fn lemma_digest_argument_starts_with_command(m: IncomingMessage)
    requires
        is_digest_command(m),
    ensures
        digest_command_argument(m).take(DIGEST_COMMAND@.len() as int) == DIGEST_COMMAND@,
{
    match m.kind {
        MessageKind::Text { data, entities } => {
            let n = entities@[0].length as usize as int;
            let arg = take_chars(data@, n + 1);
            assert(arg.take(take_chars(data@, n).len() as int) =~= take_chars(data@, n));
        },
        MessageKind::Other => {},
    }
}

} // verus!
