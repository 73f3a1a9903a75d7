//! JSON texts: objects, requests, replies and typed values.
use crate::action::Action;
use crate::context::{self, CtxModel};
use crate::future::{DurableFuture, FutureModel};
use crate::ids::{self, SYSCALL_ACTIVITY_GET_KV_VALUE};
use crate::orchestration::{self, OrchestrationContext};
use crate::text::{self, join2, join3};
use vstd::prelude::*;

verus! {

/// How a character stands in a JSON string.
pub open spec fn escaped_char(c: char) -> Seq<char> {
    if c == '"' {
        seq!['\\', '"']
    } else if c == '\\' {
        seq!['\\', '\\']
    } else if c == '\u{8}' {
        seq!['\\', 'b']
    } else if c == '\t' {
        seq!['\\', 't']
    } else if c == '\n' {
        seq!['\\', 'n']
    } else if c == '\u{c}' {
        seq!['\\', 'f']
    } else if c == '\r' {
        seq!['\\', 'r']
    } else if (c as nat) < 32 {
        seq!['\\', 'u', '0', '0'] + ids::hex_fixed(c as nat, 2)
    } else {
        seq![c]
    }
}

/// How a text stands in a JSON string, between the quotes.
pub open spec fn escaped(s: Seq<char>) -> Seq<char>
    decreases s.len(),
{
    if s.len() == 0 {
        Seq::empty()
    } else {
        escaped(s.drop_last()) + escaped_char(s.last())
    }
}

/// The JSON string for a text, quotes and escapes included.
pub open spec fn json_quoted(s: Seq<char>) -> Seq<char> {
    seq!['"'] + escaped(s) + seq!['"']
}

/// What `serde_json::from_str` makes of a text that is to hold a string or
/// null: the value, or the text of the error.
pub uninterp spec fn json_optional_text(s: Seq<char>) -> Result<Option<Seq<char>>, Seq<char>>;

/// The view of an optional text.
pub open spec fn text_view(t: Option<String>) -> Option<Seq<char>> {
    match t {
        Some(s) => Some(s@),
        None => None,
    }
}

/// The view of a result whose error is a text.
pub open spec fn optional_text_view(r: Result<Option<String>, String>) -> Result<
    Option<Seq<char>>,
    Seq<char>,
> {
    match r {
        Ok(t) => Ok(text_view(t)),
        Err(e) => Err(e@),
    }
}

/// Calls `serde_json::from_str` for a string or null, and takes the text of
/// the error where it fails. The claim is that the result depends on the text
/// alone.
#[verifier::external_body]
fn parse_optional_text(s: &str) -> (r: Result<Option<String>, String>)
    ensures
        optional_text_view(r) == json_optional_text(s@),
{
    serde_json::from_str::<Option<String>>(s).map_err(|e| e.to_string())
}

/// What `serde_json::from_str` makes of a text that is to hold a string.
pub uninterp spec fn json_text(s: Seq<char>) -> Option<Seq<char>>;

/// Calls `serde_json::from_str` for a string. The claim is that the result
/// depends on the text alone.
#[verifier::external_body]
fn parse_text(s: &str) -> (r: Option<String>)
    ensures
        text_view(r) == json_text(s@),
{
    serde_json::from_str::<String>(s).ok()
}

/// A field of a JSON object, as its text: the key, a colon and the value.
pub open spec fn field(key: Seq<char>, value: Seq<char>) -> Seq<char> {
    json_quoted(key) + ":"@ + value
}

/// The text of a truth value.
pub open spec fn flag(value: bool) -> Seq<char> {
    if value {
        "true"@
    } else {
        "false"@
    }
}

/// The fields of an object, separated by commas.
pub open spec fn comma_separated(fields: Seq<Seq<char>>) -> Seq<char>
    decreases fields.len(),
{
    if fields.len() == 0 {
        Seq::empty()
    } else if fields.len() == 1 {
        fields[0]
    } else {
        comma_separated(fields.drop_last()) + ","@ + fields.last()
    }
}

/// The text of an object with these fields.
pub open spec fn object(fields: Seq<Seq<char>>) -> Seq<char> {
    "{"@ + comma_separated(fields) + "}"@
}

/// The value of a field.
#[derive(Debug)]
pub enum Scalar {
    Text(String),
    Number(u64),
    Flag(bool),
}

/// A field of an object.
#[derive(Debug)]
pub struct Field {
    pub key: &'static str,
    pub value: Scalar,
}

/// The JSON of a value.
pub open spec fn scalar_text(value: Scalar) -> Seq<char> {
    match value {
        Scalar::Text(s) => json_quoted(s@),
        Scalar::Number(n) => text::decimal(n as nat),
        Scalar::Flag(b) => flag(b),
    }
}

/// The texts of fields.
pub open spec fn field_texts(fields: Seq<Field>) -> Seq<Seq<char>> {
    fields.map_values(|f: Field| field(f.key@, scalar_text(f.value)))
}

/// `a` and `b` agree before position `i`, where `a` has ended or has the smaller
/// character.
pub open spec fn precedes_at(a: Seq<char>, b: Seq<char>, i: int) -> bool {
    &&& 0 <= i <= a.len()
    &&& i < b.len()
    &&& forall|j: int| 0 <= j < i ==> a[j] == b[j]
    &&& i == a.len() || (a[i] as nat) < (b[i] as nat)
}

/// `a` comes before `b` in the order of texts.
pub open spec fn precedes(a: Seq<char>, b: Seq<char>) -> bool {
    exists|i: int| #[trigger] precedes_at(a, b, i)
}

/// The fields are in the order of their keys, and no key is there twice.
pub open spec fn keys_ascend(fields: Seq<Field>) -> bool {
    forall|i: int, j: int|
        0 <= i < j < fields.len() ==> precedes(
            (#[trigger] fields[i]).key@,
            (#[trigger] fields[j]).key@,
        )
}

/// A JSON object, as `serde_json` holds it.
#[verifier::external_type_specification]
#[verifier::external_body]
#[verifier::reject_recursive_types(K)]
#[verifier::reject_recursive_types(V)]
pub struct ExJsonMap<K, V>(serde_json::Map<K, V>);

/// A JSON value, as `serde_json` holds it.
#[verifier::external_type_specification]
#[verifier::external_body]
pub struct ExJsonValue(serde_json::Value);

/// What an object holds: each key with the compact JSON of its value, in the
/// order in which they are printed.
pub uninterp spec fn members(map: serde_json::Map<String, serde_json::Value>) -> Seq<
    (Seq<char>, Seq<char>),
>;

/// The texts of an object's members.
pub open spec fn member_texts(members: Seq<(Seq<char>, Seq<char>)>) -> Seq<Seq<char>> {
    members.map_values(|m: (Seq<char>, Seq<char>)| field(m.0, m.1))
}

/// Calls `serde_json::Map::new`. The claim is that the object is empty.
#[verifier::external_body]
fn new_object() -> (r: serde_json::Map<String, serde_json::Value>)
    ensures
        members(r) == Seq::<(Seq<char>, Seq<char>)>::empty(),
{
    serde_json::Map::new()
}

/// Calls `serde_json::Map::insert` with the value as a `serde_json::Value`. The
/// claim is that a key that comes after all others becomes the last member, and
/// the others stay as they are; that a number is printed in decimal, and that in
/// a string quotes, backslashes and control characters are escaped.
#[verifier::external_body]
fn insert_member(
    map: &mut serde_json::Map<String, serde_json::Value>,
    key: &str,
    value: &Scalar,
)
    requires
        forall|i: int|
            0 <= i < members(*old(map)).len() ==> precedes(
                (#[trigger] members(*old(map))[i]).0,
                key@,
            ),
    ensures
        members(*final(map)) == members(*old(map)).push((key@, scalar_text(*value))),
{
    let json = match value {
        Scalar::Text(s) => serde_json::Value::from(s.as_str()),
        Scalar::Number(n) => serde_json::Value::from(*n),
        Scalar::Flag(b) => serde_json::Value::from(*b),
    };
    map.insert(key.to_string(), json);
}

/// Calls `serde_json::Value::to_string` on an object. The claim is that the text
/// is compact JSON with the members in their order.
#[verifier::external_body]
fn print_object(map: serde_json::Map<String, serde_json::Value>) -> (r: String)
    ensures
        r@ == object(member_texts(members(map))),
{
    serde_json::Value::Object(map).to_string()
}

/// The unsigned numbers that a value holds directly, under their keys: none
/// where it is no object.
pub uninterp spec fn numbers_in(value: serde_json::Value) -> Map<Seq<char>, u64>;

/// What `serde_json::from_str` makes of a text that is to hold any value: the
/// unsigned numbers in it, or the text of the error.
pub uninterp spec fn json_value(s: Seq<char>) -> Result<Map<Seq<char>, u64>, Seq<char>>;

/// Calls `serde_json::from_str` for any value, and takes the text of the error
/// where it fails. The claim is that whether it fails, the text of the error and
/// the numbers in the value depend on the text alone.
#[verifier::external_body]
pub(crate) fn parse_value(s: &str) -> (r: Result<serde_json::Value, String>)
    ensures
        match (r, json_value(s@)) {
            (Ok(v), Ok(numbers)) => numbers_in(v) == numbers,
            (Err(a), Err(b)) => a@ == b,
            _ => false,
        },
{
    serde_json::from_str::<serde_json::Value>(s).map_err(|e| e.to_string())
}

/// Indexes a `serde_json::Value` with a key and calls `Value::as_u64` on what is
/// there. The claim is that this gives the unsigned number that the value holds
/// under the key, if there is one.
#[verifier::external_body]
pub(crate) fn number_at(value: &serde_json::Value, key: &str) -> (r: Option<u64>)
    ensures
        r == number_under(numbers_in(*value), key@),
{
    value[key].as_u64()
}

/// The number under a key, if there is one.
pub open spec fn number_under(numbers: Map<Seq<char>, u64>, key: Seq<char>) -> Option<u64> {
    if numbers.contains_key(key) {
        Some(numbers[key])
    } else {
        None
    }
}

/// A field that holds a text.
pub fn text_field(key: &'static str, value: &str) -> (r: Field)
    ensures
        r.key == key,
        scalar_text(r.value) == json_quoted(value@),
{
    Field { key, value: Scalar::Text(value.to_string()) }
}

/// A field that holds a number.
pub fn number_field(key: &'static str, value: u64) -> (r: Field)
    ensures
        r.key == key,
        scalar_text(r.value) == text::decimal(value as nat),
{
    Field { key, value: Scalar::Number(value) }
}

/// A field that holds a truth value.
pub fn flag_field(key: &'static str, value: bool) -> (r: Field)
    ensures
        r.key == key,
        scalar_text(r.value) == flag(value),
{
    Field { key, value: Scalar::Flag(value) }
}

/// The views of texts.
pub open spec fn views(texts: Seq<String>) -> Seq<Seq<char>> {
    texts.map_values(|s: String| s@)
}

/// The text of an object with these fields.
pub fn object_text(fields: &Vec<Field>) -> (r: String)
    requires
        keys_ascend(fields@),
    ensures
        r@ == object(field_texts(fields@)),
{
    let mut map = new_object();
    let mut i: usize = 0;
    while i < fields.len()
        invariant
            i <= fields@.len(),
            keys_ascend(fields@),
            members(map).len() == i,
            forall|k: int|
                0 <= k < i ==> (#[trigger] members(map)[k]) == (
                    fields@[k].key@,
                    scalar_text(fields@[k].value),
                ),
        decreases fields@.len() - i,
    {
        assert forall|k: int| 0 <= k < members(map).len() implies precedes(
            (#[trigger] members(map)[k]).0,
            fields@[i as int].key@,
        ) by {
            assert(precedes(fields@[k].key@, fields@[i as int].key@));
        }
        insert_member(&mut map, fields[i].key, &fields[i].value);
        i += 1;
    }
    assert(member_texts(members(map)) =~= field_texts(fields@));
    print_object(map)
}

/// The request for a key of another instance.
pub open spec fn kv_request(instance_id: Seq<char>, key: Seq<char>) -> Seq<char> {
    object(
        seq![
            field("instance_id"@, json_quoted(instance_id)),
            field("key"@, json_quoted(key)),
        ],
    )
}

/// The request for a key of another instance.
pub fn kv_request_text(instance_id: &str, key: &str) -> (r: String)
    ensures
        r@ == kv_request(instance_id@, key@),
{
    let fields = vec![text_field("instance_id", instance_id), text_field("key", key)];
    proof {
        reveal_strlit("instance_id");
        reveal_strlit("key");
        assert(precedes_at("instance_id"@, "key"@, 0));
        assert(field_texts(fields@) =~= seq![
            field("instance_id"@, json_quoted(instance_id@)),
            field("key"@, json_quoted(key@)),
        ]);
    }
    object_text(&fields)
}

/// What a parsed reply for a key stands for.
pub open spec fn kv_reply(parsed: Result<Option<Seq<char>>, Seq<char>>) -> Result<
    Option<Seq<char>>,
    Seq<char>,
> {
    match parsed {
        Ok(v) => Ok(v),
        Err(e) => Err("get_kv_value_from_instance deserialization error: "@ + e),
    }
}

/// Explains a reply that could not be parsed.
pub fn explain_kv_reply(parsed: Result<Option<String>, String>) -> (r: Result<
    Option<String>,
    String,
>)
    ensures
        optional_text_view(r) == kv_reply(optional_text_view(parsed)),
{
    match parsed {
        Ok(v) => Ok(v),
        Err(e) => Err(
            join2("get_kv_value_from_instance deserialization error: ", e.as_str()),
        ),
    }
}

/// Reads what the activity that reads a key of another instance completed
/// with: the value, or nothing where the key is not set.
pub fn read_kv_reply(result: Result<String, String>) -> (r: Result<Option<String>, String>)
    ensures
        match result {
            Ok(s) => optional_text_view(r) == kv_reply(json_optional_text(s@)),
            Err(e) => r == Err::<Option<String>, String>(e),
        },
{
    match result {
        Ok(s) => explain_kv_reply(parse_optional_text(s.as_str())),
        Err(e) => Err(e),
    }
}

impl OrchestrationContext {
    /// Schedules the built-in activity that reads a key of another instance.
    /// What it completes with is read by [`read_kv_reply`].
    pub fn get_kv_value_from_instance(&mut self, instance_id: String, key: String) -> (r:
        DurableFuture)
        requires
            old(self).wf(),
            old(self)@.next_token < u64::MAX,
        ensures
            final(self).wf(),
            orchestration::syscall_scheduled(
                old(self)@,
                final(self)@,
                r@,
                SYSCALL_ACTIVITY_GET_KV_VALUE@,
                kv_request(instance_id@, key@),
            ),
    {
        let input = kv_request_text(instance_id.as_str(), key.as_str());
        self.schedule_activity(SYSCALL_ACTIVITY_GET_KV_VALUE.to_string(), input)
    }
}

/// A typed reading of what the activity that reads a key of another instance
/// completed with: the value of an entry was parsed.
pub fn read_typed_kv_reply<T>(read: Result<Option<Result<T, String>>, String>) -> (r: Result<
    Option<T>,
    String,
>)
    ensures
        match read {
            Err(e) => r == Err::<Option<T>, String>(e),
            Ok(None) => r == Ok::<Option<T>, String>(None),
            Ok(Some(Ok(v))) => r == Ok::<Option<T>, String>(Some(v)),
            Ok(Some(Err(e))) => r matches Err(text) && text@
                == "get_kv_value_from_instance_typed deserialization error: "@ + e@,
        },
{
    match read {
        Err(e) => Err(e),
        Ok(None) => Ok(None),
        Ok(Some(Ok(v))) => Ok(Some(v)),
        Ok(Some(Err(e))) => Err(
            join2("get_kv_value_from_instance_typed deserialization error: ", e.as_str()),
        ),
    }
}

/// A typed reading of a key's value: what parsing it gave, with the key in the
/// error.
pub fn typed_kv_value<T>(key: &str, parsed: Option<Result<T, String>>) -> (r: Result<
    Option<T>,
    String,
>)
    ensures
        match parsed {
            None => r == Ok::<Option<T>, String>(None),
            Some(Ok(v)) => r == Ok::<Option<T>, String>(Some(v)),
            Some(Err(e)) => r matches Err(text) && text@ == "KV deserialization error for key '"@
                + key@ + "': "@ + e@,
        },
{
    match parsed {
        None => Ok(None),
        Some(Ok(v)) => Ok(Some(v)),
        Some(Err(e)) => {
            let mut s = join3("KV deserialization error for key '", key, "': ");
            s.append(e.as_str());
            Err(s)
        },
    }
}

/// A value on its way into JSON.
#[derive(Debug, PartialEq, Eq)]
pub enum JsonValue {
    /// A string, with its content.
    Text(String),
    /// Any other value, as compact JSON.
    Document(String),
}

/// The codec for typed inputs and outputs: JSON, except that a string stands
/// for itself.
pub struct Json;

impl Json {
    /// The encoding of a value: a string as it is, anything else as JSON.
    pub fn encode(value: Result<JsonValue, String>) -> (r: Result<String, String>)
        ensures
            r == (match value {
                Ok(JsonValue::Text(s)) => Ok::<String, String>(s),
                Ok(JsonValue::Document(s)) => Ok(s),
                Err(e) => Err(e),
            }),
    {
        match value {
            Ok(JsonValue::Text(s)) => Ok(s),
            Ok(JsonValue::Document(s)) => Ok(s),
            Err(e) => Err(e),
        }
    }

    /// The decoding of a value: what parsing it as JSON gave, or else what
    /// taking it as the content of a string gives.
    pub fn decode<T>(parsed: Option<T>, as_text: Result<T, String>) -> (r: Result<T, String>)
        ensures
            r == (match parsed {
                Some(v) => Ok::<T, String>(v),
                None => as_text,
            }),
    {
        match parsed {
            Some(v) => Ok(v),
            None => as_text,
        }
    }

    /// The encoding of a text.
    pub fn encode_text(s: &str) -> (r: String)
        ensures
            r@ == s@,
    {
        s.to_string()
    }

    /// The decoding of a text: the content of a JSON string, and any other
    /// text as it is.
    pub fn decode_text(s: &str) -> (r: String)
        ensures
            r@ == decoded_text(json_text(s@), s@),
    {
        Json::decode_text_with(parse_text(s), s)
    }

    /// The decoding of a text, given what parsing it as a JSON string gave.
    pub fn decode_text_with(parsed: Option<String>, s: &str) -> (r: String)
        ensures
            r@ == decoded_text(text_view(parsed), s@),
    {
        match parsed {
            Some(v) => v,
            None => s.to_string(),
        }
    }
}

/// The decoding of the text `s`, of which parsing as a JSON string gave
/// `parsed`.
pub open spec fn decoded_text(parsed: Option<Seq<char>>, s: Seq<char>) -> Seq<char> {
    match parsed {
        Some(v) => v,
        None => s,
    }
}

/// A text that is not itself a JSON string comes back from encoding and
/// decoding as it was.
pub proof fn law_plain_text_survives_the_codec(s: Seq<char>)
    requires
        json_text(s) is None,
    ensures
        decoded_text(json_text(s), s) == s,
{
}

proof fn lemma_plain(s: Seq<char>)
    requires
        forall|i: int|
            0 <= i < s.len() ==> s[i] != '"' && (#[trigger] s[i]) != '\\' && s[i] as nat >= 32,
    ensures
        escaped(s) == s,
    decreases s.len(),
{
    if s.len() > 0 {
        let init = s.drop_last();
        assert forall|i: int| 0 <= i < init.len() implies init[i] != '"' && (#[trigger] init[i])
            != '\\' && init[i] as nat >= 32 by {
            assert(s[i] != '\\');
        }
        lemma_plain(init);
        assert(s[s.len() - 1] != '\\');
        assert(s =~= init.push(s.last()));
        assert(escaped(s) =~= s);
    }
}

/// A text without quotes, backslashes and control characters stands in JSON as it
/// is, between quotes; and a text grows by what its next character stands for.
pub proof fn law_plain_text_is_quoted_as_it_is(s: Seq<char>, c: char)
    ensures
        (forall|i: int|
            0 <= i < s.len() ==> s[i] != '"' && (#[trigger] s[i]) != '\\' && s[i] as nat >= 32)
            ==> json_quoted(s) == seq!['"'] + s + seq!['"'],
        c == '"' ==> escaped(s.push(c)) == escaped(s) + seq!['\\', '"'],
        c == '\\' ==> escaped(s.push(c)) == escaped(s) + seq!['\\', '\\'],
        c == '\n' ==> escaped(s.push(c)) == escaped(s) + seq!['\\', 'n'],
        c == '\t' ==> escaped(s.push(c)) == escaped(s) + seq!['\\', 't'],
        c == '\r' ==> escaped(s.push(c)) == escaped(s) + seq!['\\', 'r'],
{
    if forall|i: int|
        0 <= i < s.len() ==> s[i] != '"' && (#[trigger] s[i]) != '\\' && s[i] as nat >= 32 {
        lemma_plain(s);
    }
    assert(s.push(c).drop_last() =~= s);
    assert(s.push(c).last() == c);
}

/// The request for a key of another instance is an object that names both, in this
/// order.
pub proof fn law_a_key_request_names_instance_and_key(instance_id: &str, key: &str, r: String)
    requires
        call_ensures(kv_request_text, (instance_id, key), r),
    ensures
        r@ == "{\"instance_id\":"@ + json_quoted(instance_id@) + ",\"key\":"@ + json_quoted(key@)
            + "}"@,
{
    reveal_strlit("{\"instance_id\":");
    reveal_strlit(",\"key\":");
    reveal_strlit("{");
    reveal_strlit("}");
    reveal_strlit(",");
    reveal_strlit(":");
    reveal_strlit("instance_id");
    reveal_strlit("key");
    lemma_plain("instance_id"@);
    lemma_plain("key"@);
    let fields = seq![
        field("instance_id"@, json_quoted(instance_id@)),
        field("key"@, json_quoted(key@)),
    ];
    assert(fields.drop_last() =~= seq![field("instance_id"@, json_quoted(instance_id@))]);
    assert(comma_separated(fields) == fields[0] + ","@ + fields[1]) by {
        reveal_with_fuel(comma_separated, 3);
    }
    assert(r@ =~= "{\"instance_id\":"@ + json_quoted(instance_id@) + ",\"key\":"@ + json_quoted(
        key@,
    ) + "}"@);
}

/// Reading a key of another instance is a built-in activity whose input is the
/// request for that key.
pub proof fn law_reading_another_instance_is_an_activity(
    o: &mut OrchestrationContext,
    instance_id: String,
    key: String,
    f: DurableFuture,
    instance: &str,
    name: &str,
    request: String,
)
    requires
        call_ensures(OrchestrationContext::get_kv_value_from_instance, (o, instance_id, key), f),
        old(o)@.next_token < u64::MAX,
        instance@ == instance_id@,
        name@ == key@,
        call_ensures(kv_request_text, (instance, name), request),
    ensures
        final(o)@.emitted.drop_last() == old(o)@.emitted,
        final(o)@.emitted.last().1 matches Action::CallActivity {
            name: n,
            input: i,
            session_id: None,
            tag: None,
            ..
        } && n@ == "__duroxide_syscall:get_kv_value"@ && i@ == request@,
        f@.token == final(o)@.emitted.last().0,
        f@.source is Activity && f@.kind is Activity && !f@.completed,
{
    assert(final(o)@.emitted.drop_last() =~= old(o)@.emitted);
}

/// The reply for a key is what was parsed; what could not be parsed, and what the
/// activity failed with, is an error.
pub proof fn law_key_replies_are_read(
    parsed: Result<Option<String>, String>,
    explained: Result<Option<String>, String>,
    failure: String,
    failed: Result<Option<String>, String>,
)
    requires
        call_ensures(explain_kv_reply, (parsed,), explained),
        call_ensures(read_kv_reply, (Err(failure),), failed),
    ensures
        match parsed {
            Ok(None) => explained matches Ok(t) && t is None,
            Ok(Some(v)) => explained matches Ok(Some(t)) && t@ == v@,
            Err(e) => explained matches Err(t) && t@
                == "get_kv_value_from_instance deserialization error: "@ + e@,
        },
        failed == Err::<Option<String>, String>(failure),
{
}

/// Typed readings hand on the value where there is one and it could be read, say
/// nothing where there is none, and explain what could not be read.
pub proof fn law_typed_readings<T>(
    v: T,
    e: String,
    key: &str,
    ra: Result<Option<T>, String>,
    rb: Result<Option<T>, String>,
    rc: Result<Option<T>, String>,
    rd: Result<Option<T>, String>,
    ka: Result<Option<T>, String>,
    kb: Result<Option<T>, String>,
    kc: Result<Option<T>, String>,
)
    requires
        call_ensures(read_typed_kv_reply::<T>, (Ok(Some(Ok(v))),), ra),
        call_ensures(read_typed_kv_reply::<T>, (Ok(None),), rb),
        call_ensures(read_typed_kv_reply::<T>, (Ok(Some(Err(e))),), rc),
        call_ensures(read_typed_kv_reply::<T>, (Err(e),), rd),
        call_ensures(typed_kv_value::<T>, (key, Some(Ok(v))), ka),
        call_ensures(typed_kv_value::<T>, (key, None), kb),
        call_ensures(typed_kv_value::<T>, (key, Some(Err(e))), kc),
    ensures
        ra == Ok::<Option<T>, String>(Some(v)),
        rb == Ok::<Option<T>, String>(None),
        rc matches Err(t) && t@ == "get_kv_value_from_instance_typed deserialization error: "@ + e@,
        rd == Err::<Option<T>, String>(e),
        ka == Ok::<Option<T>, String>(Some(v)),
        kb == Ok::<Option<T>, String>(None),
        kc matches Err(t) && t@ == "KV deserialization error for key '"@ + key@ + "': "@ + e@,
{
}

/// The codec: a string stands for itself and a document for its JSON; what parses
/// is what it parses to, and what does not is taken as a text.
pub proof fn law_the_codec<T>(
    s: String,
    e: String,
    v: T,
    as_text: Result<T, String>,
    text: Result<String, String>,
    document: Result<String, String>,
    failed: Result<String, String>,
    parsed: Result<T, String>,
    unparsed: Result<T, String>,
    plain: &str,
    encoded: String,
    decoded: String,
    kept: String,
)
    requires
        call_ensures(Json::encode, (Ok(JsonValue::Text(s)),), text),
        call_ensures(Json::encode, (Ok(JsonValue::Document(s)),), document),
        call_ensures(Json::encode, (Err(e),), failed),
        call_ensures(Json::decode::<T>, (Some(v), as_text), parsed),
        call_ensures(Json::decode::<T>, (None, as_text), unparsed),
        call_ensures(Json::encode_text, (plain,), encoded),
        call_ensures(Json::decode_text_with, (Some(s), plain), decoded),
        call_ensures(Json::decode_text_with, (None, plain), kept),
    ensures
        text == Ok::<String, String>(s),
        document == Ok::<String, String>(s),
        failed == Err::<String, String>(e),
        parsed == Ok::<T, String>(v),
        unparsed == as_text,
        encoded@ == plain@,
        decoded@ == s@,
        kept@ == plain@,
{
}

/// A field keeps its key and its value.
pub proof fn law_fields_keep_their_values(
    key: &'static str,
    value: &str,
    n: u64,
    b: bool,
    text: Field,
    number: Field,
    truth: Field,
)
    requires
        call_ensures(text_field, (key, value), text),
        call_ensures(number_field, (key, n), number),
        call_ensures(flag_field, (key, b), truth),
    ensures
        text.key == key && number.key == key && truth.key == key,
        scalar_text(text.value) == json_quoted(value@),
        scalar_text(number.value) == text::decimal(n as nat),
        scalar_text(truth.value) == if b {
            "true"@
        } else {
            "false"@
        },
{
}

} // verus!
