//! The typed entity model: untyped payload values are checked and converted
//! into the domain entities User, Chat, Message and Update.

use vstd::prelude::*;
use vstd::string::StringExecFns;
use crate::text::str_eq;

verus! {

/// An untyped payload value, as a transport layer hands it over. It keeps
/// exactly what the entity constructors read: booleans, numbers that fit a
/// signed 64-bit integer, strings, arrays and objects with string keys. A
/// number outside that range carries nothing the model reads and enters as
/// `Null`.
#[derive(Debug, PartialEq)]
pub enum Value {
    Null,
    Bool(bool),
    Int(i64),
    Str(String),
    Arr(Vec<Value>),
    Obj(Vec<(String, Value)>),
}

/// The first entry of `entries` whose key reads `key`, if any.
pub open spec fn spec_lookup(entries: Seq<(String, Value)>, key: Seq<char>) -> Option<Value>
    decreases entries.len(),
{
    if entries.len() == 0 {
        Option::None
    } else if entries[0].0@ == key {
        Option::Some(entries[0].1)
    } else {
        spec_lookup(entries.drop_first(), key)
    }
}

proof fn lemma_lookup_advance(entries: Seq<(String, Value)>, key: Seq<char>, i: int)
    requires
        0 <= i <= entries.len(),
        forall|j: int| 0 <= j < i ==> (#[trigger] entries[j]).0@ != key,
    ensures
        spec_lookup(entries, key) == spec_lookup(entries.skip(i), key),
    decreases i,
{
    if i > 0 {
        lemma_lookup_advance(entries, key, i - 1);
        assert(entries.skip(i - 1)[0] == entries[i - 1]);
        assert(entries[i - 1].0@ != key);
        assert(spec_lookup(entries.skip(i - 1), key) == spec_lookup(
            entries.skip(i - 1).drop_first(),
            key,
        ));
        assert(entries.skip(i - 1).drop_first() =~= entries.skip(i));
    } else {
        assert(entries.skip(0) =~= entries);
    }
}

/// Find the entry of an object's entry list named `key`.
pub(crate) fn lookup<'a>(entries: &'a Vec<(String, Value)>, key: &str) -> (r: Option<&'a Value>)
    ensures
        match r {
            Option::Some(v) => spec_lookup(entries@, key@) == Option::Some(*v),
            Option::None => spec_lookup(entries@, key@) is None,
        },
{
    let n = entries.len();
    let mut i: usize = 0;
    while i < n
        invariant
            0 <= i <= n,
            n == entries@.len(),
            forall|j: int| 0 <= j < i ==> (#[trigger] entries@[j]).0@ != key@,
        decreases n - i,
    {
        if str_eq(entries[i].0.as_str(), key) {
            proof {
                lemma_lookup_advance(entries@, key@, i as int);
                assert(entries@.skip(i as int)[0] == entries@[i as int]);
            }
            return Option::Some(&entries[i].1);
        }
        i += 1;
    }
    proof {
        lemma_lookup_advance(entries@, key@, i as int);
        assert(entries@.skip(i as int) =~= Seq::<(String, Value)>::empty());
    }
    Option::None
}

/// The field named `key` of `v`, when `v` is an object that has it.
pub open spec fn field(v: Value, key: Seq<char>) -> Option<Value> {
    match v {
        Value::Obj(entries) => spec_lookup(entries@, key),
        _ => Option::None,
    }
}

/// The field named `key`, when it holds an integer.
pub open spec fn int_field(v: Value, key: Seq<char>) -> Option<i64> {
    match field(v, key) {
        Option::Some(Value::Int(i)) => Option::Some(i),
        _ => Option::None,
    }
}

/// The field named `key`, when it holds a string.
pub open spec fn str_field(v: Value, key: Seq<char>) -> Option<String> {
    match field(v, key) {
        Option::Some(Value::Str(s)) => Option::Some(s),
        _ => Option::None,
    }
}

/// The field named `key`, when it holds a boolean.
pub open spec fn bool_field(v: Value, key: Seq<char>) -> Option<bool> {
    match field(v, key) {
        Option::Some(Value::Bool(b)) => Option::Some(b),
        _ => Option::None,
    }
}

/// Whether `v` is an object.
pub open spec fn is_obj(v: Value) -> bool {
    match v {
        Value::Obj(_) => true,
        _ => false,
    }
}

/// Why a payload value was rejected: a required field was missing or held
/// the wrong primitive type, or the value as a whole had the wrong shape for
/// the entity named by the payload.
#[derive(Debug)]
pub enum TypeError {
    FieldMissing(String),
    InvalidJSONType(String),
}

/// The mathematical reading of a `TypeError`.
pub enum ParseErr {
    Missing(Seq<char>),
    BadShape(Seq<char>),
}

impl View for TypeError {
    type V = ParseErr;

    open spec fn view(&self) -> ParseErr {
        match self {
            TypeError::FieldMissing(s) => ParseErr::Missing(s@),
            TypeError::InvalidJSONType(s) => ParseErr::BadShape(s@),
        }
    }
}

impl PartialEq for TypeError {
    fn eq(&self, other: &TypeError) -> (r: bool) {
        match (self, other) {
            (TypeError::FieldMissing(a), TypeError::FieldMissing(b)) => *a == *b,
            (TypeError::InvalidJSONType(a), TypeError::InvalidJSONType(b)) => *a == *b,
            _ => false,
        }
    }
}

impl vstd::std_specs::cmp::PartialEqSpecImpl for TypeError {
    open spec fn obeys_eq_spec() -> bool {
        true
    }

    open spec fn eq_spec(&self, other: &TypeError) -> bool {
        match (self, other) {
            (TypeError::FieldMissing(a), TypeError::FieldMissing(b)) => a@ == b@,
            (TypeError::InvalidJSONType(a), TypeError::InvalidJSONType(b)) => a@ == b@,
            _ => false,
        }
    }
}

/// A sender of messages.
#[derive(Debug)]
pub struct User {
    pub id: i64,
    pub first_name: String,
}

impl PartialEq for User {
    fn eq(&self, other: &User) -> (r: bool) {
        self.id == other.id && self.first_name == other.first_name
    }
}

impl vstd::std_specs::cmp::PartialEqSpecImpl for User {
    open spec fn obeys_eq_spec() -> bool {
        true
    }

    open spec fn eq_spec(&self, other: &User) -> bool {
        self.id == other.id && self.first_name@ == other.first_name@
    }
}

/// What parsing a user payload yields.
pub open spec fn spec_parse_user(v: Value) -> Result<User, ParseErr> {
    match v {
        Value::Obj(entries) => {
            if int_field(v, "id"@) is None {
                Result::Err(ParseErr::Missing("id"@))
            } else if str_field(v, "first_name"@) is None {
                Result::Err(ParseErr::Missing("first_name"@))
            } else {
                Result::Ok(
                    User {
                        id: int_field(v, "id"@)->0,
                        first_name: str_field(v, "first_name"@)->0,
                    },
                )
            }
        },
        _ => Result::Err(ParseErr::BadShape("user"@)),
    }
}

impl User {
    /// Build a `User` from an untyped payload value: a required integer `id`
    /// and a required string `first_name`.
    pub fn new(value: &Value) -> (r: Result<User, TypeError>)
        ensures
            r matches Ok(u) ==> spec_parse_user(*value) == Result::<User, ParseErr>::Ok(u),
            r matches Err(e) ==> spec_parse_user(*value) == Result::<User, ParseErr>::Err(e@),
    {
        match value {
            Value::Obj(entries) => {
                let id: i64 = match lookup(entries, "id") {
                    Option::Some(Value::Int(i)) => *i,
                    _ => {
                        return Result::Err(TypeError::FieldMissing(String::from_str("id")));
                    },
                };
                match lookup(entries, "first_name") {
                    Option::Some(Value::Str(s)) => Result::Ok(
                        User { id, first_name: s.clone() },
                    ),
                    _ => Result::Err(TypeError::FieldMissing(String::from_str("first_name"))),
                }
            },
            _ => Result::Err(TypeError::InvalidJSONType(String::from_str("user"))),
        }
    }
}

/// A conversation messages arrive in.
#[derive(Debug, Clone, Copy, PartialEq, Eq, Structural)]
pub struct Chat {
    pub id: i64,
}

/// What parsing a chat payload yields.
pub open spec fn spec_parse_chat(v: Value) -> Result<Chat, ParseErr> {
    match v {
        Value::Obj(entries) => {
            if int_field(v, "id"@) is None {
                Result::Err(ParseErr::Missing("id"@))
            } else {
                Result::Ok(Chat { id: int_field(v, "id"@)->0 })
            }
        },
        _ => Result::Err(ParseErr::BadShape("chat"@)),
    }
}

impl Chat {
    /// Build a `Chat` from an untyped payload value: a required integer `id`.
    pub fn new(value: &Value) -> (r: Result<Chat, TypeError>)
        ensures
            r matches Ok(c) ==> spec_parse_chat(*value) == Result::<Chat, ParseErr>::Ok(c),
            r matches Err(e) ==> spec_parse_chat(*value) == Result::<Chat, ParseErr>::Err(e@),
    {
        match value {
            Value::Obj(entries) => {
                match lookup(entries, "id") {
                    Option::Some(Value::Int(i)) => Result::Ok(Chat { id: *i }),
                    _ => Result::Err(TypeError::FieldMissing(String::from_str("id"))),
                }
            },
            _ => Result::Err(TypeError::InvalidJSONType(String::from_str("chat"))),
        }
    }

    /// The chat's identifier.
    pub fn id(&self) -> (r: &i64)
        ensures
            *r == self.id,
    {
        &self.id
    }
}

/// One inbound chat message.
#[derive(Debug)]
pub struct Message {
    pub message_id: i64,
    pub from: Option<User>,
    pub date: i64,
    pub chat: Chat,
    pub text: Option<String>,
}

impl PartialEq for Message {
    fn eq(&self, other: &Message) -> (r: bool) {
        let from_eq = match (&self.from, &other.from) {
            (Option::Some(a), Option::Some(b)) => *a == *b,
            (Option::None, Option::None) => true,
            _ => false,
        };
        let text_eq = match (&self.text, &other.text) {
            (Option::Some(a), Option::Some(b)) => *a == *b,
            (Option::None, Option::None) => true,
            _ => false,
        };
        self.message_id == other.message_id && from_eq && self.date == other.date
            && self.chat == other.chat && text_eq
    }
}

impl vstd::std_specs::cmp::PartialEqSpecImpl for Message {
    open spec fn obeys_eq_spec() -> bool {
        true
    }

    open spec fn eq_spec(&self, other: &Message) -> bool {
        &&& self.message_id == other.message_id
        &&& match (self.from, other.from) {
            (Option::Some(a), Option::Some(b)) => a.id == b.id && a.first_name@
                == b.first_name@,
            (Option::None, Option::None) => true,
            _ => false,
        }
        &&& self.date == other.date
        &&& self.chat == other.chat
        &&& match (self.text, other.text) {
            (Option::Some(a), Option::Some(b)) => a@ == b@,
            (Option::None, Option::None) => true,
            _ => false,
        }
    }
}

/// The sender of a message payload: absent, or absent for a non-object
/// `from` field, or the parsed user, whose failure fails the message.
pub open spec fn spec_parse_from(v: Value) -> Result<Option<User>, ParseErr> {
    match field(v, "from"@) {
        Option::Some(f) => if is_obj(f) {
            match spec_parse_user(f) {
                Result::Ok(u) => Result::Ok(Option::Some(u)),
                Result::Err(e) => Result::Err(e),
            }
        } else {
            Result::Ok(Option::None)
        },
        Option::None => Result::Ok(Option::None),
    }
}

/// The chat of a message payload: a missing field reads like a null value
/// and is rejected by the chat parser.
pub open spec fn spec_parse_chat_field(v: Value) -> Result<Chat, ParseErr> {
    match field(v, "chat"@) {
        Option::Some(c) => spec_parse_chat(c),
        Option::None => Result::Err(ParseErr::BadShape("chat"@)),
    }
}

/// What parsing a message payload yields, checking `message_id`, `from`,
/// `date`, `chat` and `text` in that order.
pub open spec fn spec_parse_message(v: Value) -> Result<Message, ParseErr> {
    match v {
        Value::Obj(entries) => {
            if int_field(v, "message_id"@) is None {
                Result::Err(ParseErr::Missing("message_id"@))
            } else {
                match spec_parse_from(v) {
                    Result::Err(e) => Result::Err(e),
                    Result::Ok(from) => {
                        if int_field(v, "date"@) is None {
                            Result::Err(ParseErr::Missing("date"@))
                        } else {
                            match spec_parse_chat_field(v) {
                                Result::Err(e) => Result::Err(e),
                                Result::Ok(chat) => Result::Ok(
                                    Message {
                                        message_id: int_field(v, "message_id"@)->0,
                                        from,
                                        date: int_field(v, "date"@)->0,
                                        chat,
                                        text: str_field(v, "text"@),
                                    },
                                ),
                            }
                        }
                    },
                }
            }
        },
        _ => Result::Err(ParseErr::BadShape("message"@)),
    }
}

impl Message {
    /// Build a `Message` from an untyped payload value: required integer
    /// `message_id` and `date`, a required `chat` object, an optional
    /// `from` object and an optional string `text`.
    pub fn new(value: &Value) -> (r: Result<Message, TypeError>)
        ensures
            r matches Ok(m) ==> spec_parse_message(*value) == Result::<Message, ParseErr>::Ok(m),
            r matches Err(e) ==> spec_parse_message(*value) == Result::<Message, ParseErr>::Err(
                e@,
            ),
    {
        match value {
            Value::Obj(entries) => {
                let message_id: i64 = match lookup(entries, "message_id") {
                    Option::Some(Value::Int(i)) => *i,
                    _ => {
                        return Result::Err(
                            TypeError::FieldMissing(String::from_str("message_id")),
                        );
                    },
                };
                let from: Option<User> = match lookup(entries, "from") {
                    Option::Some(f) => match f {
                        Value::Obj(_) => match User::new(f) {
                            Result::Ok(u) => Option::Some(u),
                            Result::Err(e) => {
                                return Result::Err(e);
                            },
                        },
                        _ => Option::None,
                    },
                    Option::None => Option::None,
                };
                let date: i64 = match lookup(entries, "date") {
                    Option::Some(Value::Int(i)) => *i,
                    _ => {
                        return Result::Err(TypeError::FieldMissing(String::from_str("date")));
                    },
                };
                let chat: Chat = match lookup(entries, "chat") {
                    Option::Some(c) => match Chat::new(c) {
                        Result::Ok(c) => c,
                        Result::Err(e) => {
                            return Result::Err(e);
                        },
                    },
                    Option::None => {
                        return Result::Err(TypeError::InvalidJSONType(String::from_str("chat")));
                    },
                };
                let text: Option<String> = match lookup(entries, "text") {
                    Option::Some(Value::Str(s)) => Option::Some(s.clone()),
                    _ => Option::None,
                };
                Result::Ok(Message { message_id, from, date, chat, text })
            },
            _ => Result::Err(TypeError::InvalidJSONType(String::from_str("message"))),
        }
    }
}

/// One event from the platform's update stream.
#[derive(Debug)]
pub struct Update {
    pub update_id: i64,
    pub message: Option<Message>,
}

impl PartialEq for Update {
    fn eq(&self, other: &Update) -> (r: bool) {
        let message_eq = match (&self.message, &other.message) {
            (Option::Some(a), Option::Some(b)) => *a == *b,
            (Option::None, Option::None) => true,
            _ => false,
        };
        self.update_id == other.update_id && message_eq
    }
}

impl vstd::std_specs::cmp::PartialEqSpecImpl for Update {
    open spec fn obeys_eq_spec() -> bool {
        true
    }

    open spec fn eq_spec(&self, other: &Update) -> bool {
        &&& self.update_id == other.update_id
        &&& match (self.message, other.message) {
            (Option::Some(a), Option::Some(b)) =>
                vstd::std_specs::cmp::PartialEqSpec::eq_spec(&a, &b),
            (Option::None, Option::None) => true,
            _ => false,
        }
    }
}

/// The message of an update payload: absent, or absent for a non-object
/// `message` field, or the parsed message, whose failure fails the update.
pub open spec fn spec_parse_msg_field(v: Value) -> Result<Option<Message>, ParseErr> {
    match field(v, "message"@) {
        Option::Some(m) => if is_obj(m) {
            match spec_parse_message(m) {
                Result::Ok(msg) => Result::Ok(Option::Some(msg)),
                Result::Err(e) => Result::Err(e),
            }
        } else {
            Result::Ok(Option::None)
        },
        Option::None => Result::Ok(Option::None),
    }
}

/// What parsing an update payload yields.
pub open spec fn spec_parse_update(v: Value) -> Result<Update, ParseErr> {
    match v {
        Value::Obj(entries) => {
            if int_field(v, "update_id"@) is None {
                Result::Err(ParseErr::Missing("update_id"@))
            } else {
                match spec_parse_msg_field(v) {
                    Result::Err(e) => Result::Err(e),
                    Result::Ok(message) => Result::Ok(
                        Update { update_id: int_field(v, "update_id"@)->0, message },
                    ),
                }
            }
        },
        _ => Result::Err(ParseErr::BadShape("update"@)),
    }
}

impl Update {
    /// Build an `Update` from an untyped payload value: a required integer
    /// `update_id` and an optional `message` object.
    pub fn new(value: &Value) -> (r: Result<Update, TypeError>)
        ensures
            r matches Ok(u) ==> spec_parse_update(*value) == Result::<Update, ParseErr>::Ok(u),
            r matches Err(e) ==> spec_parse_update(*value) == Result::<Update, ParseErr>::Err(e@),
    {
        match value {
            Value::Obj(entries) => {
                let update_id: i64 = match lookup(entries, "update_id") {
                    Option::Some(Value::Int(i)) => *i,
                    _ => {
                        return Result::Err(TypeError::FieldMissing(String::from_str("update_id")));
                    },
                };
                let message: Option<Message> = match lookup(entries, "message") {
                    Option::Some(m) => match m {
                        Value::Obj(_) => match Message::new(m) {
                            Result::Ok(msg) => Option::Some(msg),
                            Result::Err(e) => {
                                return Result::Err(e);
                            },
                        },
                        _ => Option::None,
                    },
                    Option::None => Option::None,
                };
                Result::Ok(Update { update_id, message })
            },
            _ => Result::Err(TypeError::InvalidJSONType(String::from_str("update"))),
        }
    }
}

/// What parsing a whole batch yields: every element in order, or the first
/// element's failure — a batch is taken or rejected as a whole.
pub open spec fn spec_parse_batch(vs: Seq<Value>) -> Result<Seq<Update>, ParseErr>
    decreases vs.len(),
{
    if vs.len() == 0 {
        Result::Ok(Seq::empty())
    } else {
        match spec_parse_update(vs[0]) {
            Result::Err(e) => Result::Err(e),
            Result::Ok(u) => match spec_parse_batch(vs.drop_first()) {
                Result::Err(e) => Result::Err(e),
                Result::Ok(rest) => Result::Ok(seq![u] + rest),
            },
        }
    }
}

spec fn batch_from(vs: Seq<Value>, i: int, pre: Seq<Update>) -> Result<Seq<Update>, ParseErr> {
    match spec_parse_batch(vs.skip(i)) {
        Result::Ok(rest) => Result::Ok(pre + rest),
        Result::Err(e) => Result::Err(e),
    }
}

proof fn lemma_batch_step(vs: Seq<Value>, i: int, u: Update, pre: Seq<Update>)
    requires
        0 <= i < vs.len(),
        spec_parse_update(vs[i]) == Result::<Update, ParseErr>::Ok(u),
    ensures
        batch_from(vs, i, pre) == batch_from(vs, i + 1, pre + seq![u]),
{
    let s = vs.skip(i);
    assert(s[0] == vs[i]);
    assert(s.drop_first() =~= vs.skip(i + 1));
    match spec_parse_batch(vs.skip(i + 1)) {
        Result::Ok(rest) => {
            assert(pre + (seq![u] + rest) =~= (pre + seq![u]) + rest);
        },
        Result::Err(_) => {},
    }
}

/// Parse a whole batch of update payloads, all or nothing.
pub fn parse_updates(values: &Vec<Value>) -> (r: Result<Vec<Update>, TypeError>)
    ensures
        r matches Ok(us) ==> spec_parse_batch(values@) == Result::<Seq<Update>, ParseErr>::Ok(
            us@,
        ),
        r matches Err(e) ==> spec_parse_batch(values@) == Result::<Seq<Update>, ParseErr>::Err(
            e@,
        ),
{
    let mut out: Vec<Update> = Vec::new();
    let n = values.len();
    proof {
        assert(values@.skip(0) =~= values@);
    }
    let mut i: usize = 0;
    while i < n
        invariant
            0 <= i <= n,
            n == values@.len(),
            spec_parse_batch(values@) == batch_from(values@, i as int, out@),
        decreases n - i,
    {
        match Update::new(&values[i]) {
            Result::Ok(u) => {
                let ghost pre = out@;
                out.push(u);
                proof {
                    assert(out@ =~= pre + seq![u]);
                    lemma_batch_step(values@, i as int, u, pre);
                }
            },
            Result::Err(e) => {
                proof {
                    assert(values@.skip(i as int)[0] == values@[i as int]);
                }
                return Result::Err(e);
            },
        }
        i += 1;
    }
    proof {
        assert(values@.skip(n as int) =~= Seq::<Value>::empty());
        assert(out@ + Seq::<Update>::empty() =~= out@);
    }
    Result::Ok(out)
}

/// Law: parsing is deterministic — re-parsing an equal payload yields a
/// structurally equal entity or the same rejection.
pub proof fn lemma_parse_update_deterministic(a: Value, b: Value)
    requires
        a == b,
    ensures
        spec_parse_update(a) == spec_parse_update(b),
{
}

} // verus!
