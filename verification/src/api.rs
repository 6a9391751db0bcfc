//! The update poller and the request/response logic of the remote API: the
//! poll request body, the acknowledgment cursor, the pending-update buffer,
//! and the checking of response envelopes.

use vstd::prelude::*;
use vstd::string::StringExecFns;
use crate::types::Value;
use crate::types::TypeError;
use crate::types::ParseErr;
use crate::types::Message;
use crate::types::Update;
use crate::types::bool_field;
use crate::types::field;
use crate::types::lookup;
use crate::types::spec_parse_message;
use crate::types::spec_parse_batch;
use crate::types::parse_updates;

verus! {

/// Why a remote call failed: the transport, the conversion of the returned
/// payload, the decoding of the response body, a response without the
/// `ok` marker, or a remote-rejected request.
#[derive(Debug)]
pub enum ApiError {
    Http { source: String },
    ConversionError { source: TypeError },
    JsonError { source: String },
    MissingField,
    TelegramApi,
}

/// The mathematical reading of an `ApiError`.
pub enum ApiErrKind {
    Http(Seq<char>),
    Conversion(ParseErr),
    Json(Seq<char>),
    MissingField,
    TelegramApi,
}

impl View for ApiError {
    type V = ApiErrKind;

    open spec fn view(&self) -> ApiErrKind {
        match self {
            ApiError::Http { source } => ApiErrKind::Http(source@),
            ApiError::ConversionError { source } => ApiErrKind::Conversion(source@),
            ApiError::JsonError { source } => ApiErrKind::Json(source@),
            ApiError::MissingField => ApiErrKind::MissingField,
            ApiError::TelegramApi => ApiErrKind::TelegramApi,
        }
    }
}

/// What checking a response envelope and parsing its update batch yields:
/// a response without a boolean `ok` lacks a required field, `ok: false` is
/// a remote rejection, and under `ok: true` the `result` must be an array
/// whose elements all parse — all or nothing.
pub open spec fn spec_getupdates_outcome(v: Value) -> Result<Seq<Update>, ApiErrKind> {
    match bool_field(v, "ok"@) {
        Option::None => Result::Err(ApiErrKind::MissingField),
        Option::Some(false) => Result::Err(ApiErrKind::TelegramApi),
        Option::Some(true) => match field(v, "result"@) {
            Option::Some(Value::Arr(items)) => match spec_parse_batch(items@) {
                Result::Ok(us) => Result::Ok(us),
                Result::Err(e) => Result::Err(ApiErrKind::Conversion(e)),
            },
            _ => Result::Err(ApiErrKind::TelegramApi),
        },
    }
}

/// Check a decoded `getUpdates` response and parse its batch.
pub fn getupdates_outcome(value: &Value) -> (r: Result<Vec<Update>, ApiError>)
    ensures
        r matches Ok(us) ==> spec_getupdates_outcome(*value) == Result::<
            Seq<Update>,
            ApiErrKind,
        >::Ok(us@),
        r matches Err(e) ==> spec_getupdates_outcome(*value) == Result::<
            Seq<Update>,
            ApiErrKind,
        >::Err(e@),
{
    match value {
        Value::Obj(entries) => {
            let ok: bool = match lookup(entries, "ok") {
                Option::Some(Value::Bool(b)) => *b,
                _ => {
                    return Result::Err(ApiError::MissingField);
                },
            };
            if !ok {
                return Result::Err(ApiError::TelegramApi);
            }
            match lookup(entries, "result") {
                Option::Some(rv) => match rv {
                    Value::Arr(items) => match parse_updates(items) {
                        Result::Ok(us) => Result::Ok(us),
                        Result::Err(e) => Result::Err(ApiError::ConversionError { source: e }),
                    },
                    _ => Result::Err(ApiError::TelegramApi),
                },
                Option::None => Result::Err(ApiError::TelegramApi),
            }
        },
        _ => Result::Err(ApiError::MissingField),
    }
}

/// What checking a `sendMessage` response yields: under `ok: true` the
/// `result` must parse as a message; a missing `result` reads like a null
/// value and is rejected by the message parser.
pub open spec fn spec_sendmessage_outcome(v: Value) -> Result<Message, ApiErrKind> {
    match bool_field(v, "ok"@) {
        Option::None => Result::Err(ApiErrKind::MissingField),
        Option::Some(false) => Result::Err(ApiErrKind::TelegramApi),
        Option::Some(true) => match field(v, "result"@) {
            Option::Some(rv) => match spec_parse_message(rv) {
                Result::Ok(m) => Result::Ok(m),
                Result::Err(e) => Result::Err(ApiErrKind::Conversion(e)),
            },
            Option::None => Result::Err(
                ApiErrKind::Conversion(ParseErr::BadShape("message"@)),
            ),
        },
    }
}

/// Check a decoded `sendMessage` response and parse the returned message.
pub fn sendmessage_outcome(value: &Value) -> (r: Result<Message, ApiError>)
    ensures
        r matches Ok(m) ==> spec_sendmessage_outcome(*value) == Result::<
            Message,
            ApiErrKind,
        >::Ok(m),
        r matches Err(e) ==> spec_sendmessage_outcome(*value) == Result::<
            Message,
            ApiErrKind,
        >::Err(e@),
{
    match value {
        Value::Obj(entries) => {
            let ok: bool = match lookup(entries, "ok") {
                Option::Some(Value::Bool(b)) => *b,
                _ => {
                    return Result::Err(ApiError::MissingField);
                },
            };
            if !ok {
                return Result::Err(ApiError::TelegramApi);
            }
            match lookup(entries, "result") {
                Option::Some(rv) => match Message::new(rv) {
                    Result::Ok(m) => Result::Ok(m),
                    Result::Err(e) => Result::Err(ApiError::ConversionError { source: e }),
                },
                Option::None => Result::Err(
                    ApiError::ConversionError {
                        source: TypeError::InvalidJSONType(String::from_str("message")),
                    },
                ),
            }
        },
        _ => Result::Err(ApiError::MissingField),
    }
}

/// What checking a `deleteMessage` response yields: only the `ok` marker
/// counts.
pub open spec fn spec_deletemessage_outcome(v: Value) -> Result<(), ApiErrKind> {
    match bool_field(v, "ok"@) {
        Option::None => Result::Err(ApiErrKind::MissingField),
        Option::Some(false) => Result::Err(ApiErrKind::TelegramApi),
        Option::Some(true) => Result::Ok(()),
    }
}

/// Check a decoded `deleteMessage` response.
pub fn deletemessage_outcome(value: &Value) -> (r: Result<(), ApiError>)
    ensures
        r matches Ok(u) ==> spec_deletemessage_outcome(*value) == Result::<(), ApiErrKind>::Ok(()),
        r matches Err(e) ==> spec_deletemessage_outcome(*value) == Result::<(), ApiErrKind>::Err(
            e@,
        ),
{
    match value {
        Value::Obj(entries) => {
            match lookup(entries, "ok") {
                Option::Some(Value::Bool(b)) => {
                    if *b {
                        Result::Ok(())
                    } else {
                        Result::Err(ApiError::TelegramApi)
                    }
                },
                _ => Result::Err(ApiError::MissingField),
            }
        },
        _ => Result::Err(ApiError::MissingField),
    }
}

/// Build the request body for a `sendMessage` call.
pub fn send_message_body(chat_id: i64, text: String, reply_to_message_id: Option<i64>) -> (v:
    Value)
    ensures
        v matches Value::Obj(es) && es@.len() >= 2 && es@[0].0@ == "chat_id"@ && es@[0].1
            == Value::Int(chat_id) && es@[1].0@ == "text"@ && es@[1].1 == Value::Str(text) && match
            reply_to_message_id {
            Option::Some(id) => es@.len() == 3 && es@[2].0@ == "reply_to_message_id"@ && es@[2].1
                == Value::Int(id),
            Option::None => es@.len() == 2,
        },
{
    let mut entries: Vec<(String, Value)> = Vec::new();
    entries.push((String::from_str("chat_id"), Value::Int(chat_id)));
    entries.push((String::from_str("text"), Value::Str(text)));
    match reply_to_message_id {
        Option::Some(id) => {
            entries.push((String::from_str("reply_to_message_id"), Value::Int(id)));
        },
        Option::None => {},
    }
    Value::Obj(entries)
}

/// Build the request body for a `deleteMessage` call.
pub fn delete_message_body(chat_id: i64, message_id: i64) -> (v: Value)
    ensures
        v matches Value::Obj(es) && es@.len() == 2 && es@[0].0@ == "chat_id"@ && es@[0].1
            == Value::Int(chat_id) && es@[1].0@ == "message_id"@ && es@[1].1 == Value::Int(
            message_id,
        ),
{
    let mut entries: Vec<(String, Value)> = Vec::new();
    entries.push((String::from_str("chat_id"), Value::Int(chat_id)));
    entries.push((String::from_str("message_id"), Value::Int(message_id)));
    Value::Obj(entries)
}

/// The update identifiers of a batch, in delivery order.
pub open spec fn ids_of(batch: Seq<Update>) -> Seq<i64> {
    batch.map_values(|u: Update| u.update_id)
}

/// Where one batch moves the cursor: a non-empty batch moves it to the last
/// identifier of the batch, an empty one leaves it.
pub open spec fn apply_batch(cursor: Option<i64>, ids: Seq<i64>) -> Option<i64> {
    if ids.len() == 0 {
        cursor
    } else {
        Option::Some(ids.last())
    }
}

/// Where a run of batches moves the cursor.
pub open spec fn apply_batches(cursor: Option<i64>, batches: Seq<Seq<i64>>) -> Option<i64>
    decreases batches.len(),
{
    if batches.len() == 0 {
        cursor
    } else {
        apply_batches(apply_batch(cursor, batches[0]), batches.drop_first())
    }
}

/// Identifiers that arrive in strictly increasing delivery order.
pub open spec fn strictly_increasing(ids: Seq<i64>) -> bool {
    forall|i: int, j: int|
        0 <= i < j < ids.len() ==> #[trigger] ids[i] < #[trigger] ids[j]
}

proof fn lemma_apply_batches_last(cursor: Option<i64>, batches: Seq<Seq<i64>>)
    ensures
        batches.flatten().len() == 0 ==> apply_batches(cursor, batches) == cursor,
        batches.flatten().len() > 0 ==> apply_batches(cursor, batches) == Option::Some(
            batches.flatten().last(),
        ),
    decreases batches.len(),
{
    if batches.len() > 0 {
        let b0 = batches[0];
        let rest = batches.drop_first();
        lemma_apply_batches_last(apply_batch(cursor, b0), rest);
        assert(batches.flatten() =~= b0 + rest.flatten());
        if rest.flatten().len() > 0 {
            assert((b0 + rest.flatten()).last() == rest.flatten().last());
        } else if b0.len() > 0 {
            assert((b0 + rest.flatten()).last() == b0.last());
        }
    }
}

/// Law: after a run of successful batches whose update identifiers arrive in
/// strictly increasing order, a cursor that started absent equals the
/// greatest identifier observed across all batches.
pub proof fn lemma_cursor_tracks_max(batches: Seq<Seq<i64>>)
    requires
        strictly_increasing(batches.flatten()),
        batches.flatten().len() > 0,
    ensures
        apply_batches(Option::None, batches) == Option::Some(batches.flatten().last()),
        forall|i: int|
            0 <= i < batches.flatten().len() ==> #[trigger] batches.flatten()[i]
                <= batches.flatten().last(),
{
    lemma_apply_batches_last(Option::None, batches);
    let flat = batches.flatten();
    assert forall|i: int| 0 <= i < flat.len() implies #[trigger] flat[i] <= flat.last() by {
        if i < flat.len() - 1 {
            assert(flat[i] < flat[flat.len() - 1]);
        }
    }
}

/// Law: the cursor never decreases — a batch whose identifiers all lie above
/// the current cursor moves it up or leaves it, never down.
pub proof fn lemma_cursor_monotone(cursor: Option<i64>, ids: Seq<i64>)
    requires
        cursor matches Some(c) ==> forall|i: int| 0 <= i < ids.len() ==> #[trigger] ids[i] > c,
    ensures
        cursor matches Some(c) ==> apply_batch(cursor, ids) matches Some(c2) && c2 >= c,
{
    if ids.len() > 0 {
        assert(ids.last() == ids[ids.len() - 1]);
    }
}

/// A handle on the remote API: it owns the bot token that request URLs are
/// built from.
pub struct Api {
    token: String,
}

impl Api {
    /// Wrap a bot token.
    pub fn new(token: String) -> (api: Api)
        ensures
            api.token_view() == token@,
    {
        Api { token }
    }

    /// The token's characters.
    pub closed spec fn token_view(&self) -> Seq<char> {
        self.token@
    }

    /// Read the token back, for the layer that performs requests.
    pub fn token(&self) -> (t: &String)
        ensures
            t@ == self.token_view(),
    {
        &self.token
    }

    /// Start an update stream: no cursor yet, nothing buffered, and the
    /// long-poll timeout fixed at 60 seconds.
    pub fn stream(&self) -> (it: UpdateStreamIter)
        ensures
            it.pending().len() == 0,
            it.cursor() is None,
            it.poll_timeout() == 60,
    {
        UpdateStreamIter { messages: Vec::new(), offset: Option::None, timeout: 60 }
    }
}

/// The state of the long-poll update stream: the pending-update buffer and
/// the acknowledgment cursor. The layer that performs requests drives it:
/// ask for the request body, hand back the outcome, take buffered updates
/// one at a time in delivery order.
pub struct UpdateStreamIter {
    messages: Vec<Update>,
    offset: Option<i64>,
    timeout: u64,
}

impl UpdateStreamIter {
    /// The buffered updates, first to be delivered first.
    pub closed spec fn pending(&self) -> Seq<Update> {
        self.messages@
    }

    /// The highest acknowledged update identifier, if any batch arrived yet.
    pub closed spec fn cursor(&self) -> Option<i64> {
        self.offset
    }

    /// The long-poll timeout, in seconds.
    pub closed spec fn poll_timeout(&self) -> u64 {
        self.timeout
    }

    /// Read the cursor back, for the layer that performs requests.
    pub fn cursor_value(&self) -> (c: Option<i64>)
        ensures
            c == self.cursor(),
    {
        self.offset
    }

    /// Read the long-poll timeout back, for the layer that performs requests.
    pub fn poll_timeout_value(&self) -> (t: u64)
        ensures
            t == self.poll_timeout(),
    {
        self.timeout
    }

    /// Build the body of the next long-poll request: the timeout, and — once
    /// a cursor exists — an offset of cursor plus one, which acknowledges
    /// everything delivered so far and asks for what follows.
    pub fn poll_body(&self) -> (v: Value)
        requires
            self.poll_timeout() <= i64::MAX as u64,
            self.cursor() matches Some(c) ==> c < i64::MAX,
        ensures
            v matches Value::Obj(es) && es@.len() >= 1 && es@[0].0@ == "timeout"@ && es@[0].1
                == Value::Int(self.poll_timeout() as i64) && match self.cursor() {
                Option::Some(c) => es@.len() == 2 && es@[1].0@ == "offset"@ && es@[1].1
                    == Value::Int((c + 1) as i64),
                Option::None => es@.len() == 1,
            },
    {
        let mut entries: Vec<(String, Value)> = Vec::new();
        entries.push((String::from_str("timeout"), Value::Int(self.timeout as i64)));
        match self.offset {
            Option::Some(c) => {
                entries.push((String::from_str("offset"), Value::Int(c + 1)));
            },
            Option::None => {},
        }
        Value::Obj(entries)
    }

    /// Absorb the outcome of one poll. A successful batch is appended to the
    /// buffer in delivery order and moves the cursor to the batch's last
    /// identifier; a failure of any kind changes nothing — the stream never
    /// surfaces an error, it simply polls again.
    pub fn absorb(&mut self, outcome: Result<Vec<Update>, ApiError>)
        ensures
            final(self).poll_timeout() == old(self).poll_timeout(),
            outcome matches Err(_) ==> final(self).pending() == old(self).pending()
                && final(self).cursor() == old(self).cursor(),
            outcome matches Ok(batch) ==> final(self).pending() == old(self).pending() + batch@
                && final(self).cursor() == apply_batch(old(self).cursor(), ids_of(batch@)),
    {
        match outcome {
            Result::Ok(mut batch) => {
                if batch.len() > 0 {
                    let last_id = batch[batch.len() - 1].update_id;
                    self.offset = Option::Some(last_id);
                    proof {
                        assert(ids_of(batch@).last() == batch@.last().update_id);
                    }
                }
                let ghost pre = self.messages@;
                let ghost incoming = batch@;
                self.messages.append(&mut batch);
                proof {
                    assert(self.messages@ == pre + incoming);
                }
            },
            Result::Err(_) => {},
        }
    }

    /// Remove and return the first buffered update, if any: emission is
    /// first in, first out, preserving platform delivery order.
    pub fn next_buffered(&mut self) -> (r: Option<Update>)
        ensures
            final(self).cursor() == old(self).cursor(),
            final(self).poll_timeout() == old(self).poll_timeout(),
            old(self).pending().len() == 0 ==> r is None
                && final(self).pending() == old(self).pending(),
            old(self).pending().len() > 0 ==> r == Option::Some(old(self).pending()[0])
                && final(self).pending() == old(self).pending().drop_first(),
    {
        if self.messages.len() == 0 {
            Option::None
        } else {
            let u = self.messages.remove(0);
            proof {
                assert(self.messages@ =~= old(self).pending().drop_first());
            }
            Option::Some(u)
        }
    }
}

} // verus!
