//! A JSON document as plain values, and the coercions that read its fields.

use vstd::prelude::*;
use vstd::string::StringExecFns;
use vstd::string::StrSliceExecFns;

verus! {

/// A JSON number: its value as an unsigned integer, where it is one, and
/// its text.
#[derive(Clone, Debug, PartialEq, Eq)]
pub struct JsonNumber {
    pub unsigned: Option<u64>,
    pub text: String,
}

/// A JSON value. An object holds its members with distinct keys.
#[derive(Debug, PartialEq, Eq)]
pub enum Json {
    Null,
    Bool(bool),
    Number(JsonNumber),
    Text(String),
    Array(Vec<Json>),
    Object(Vec<(String, Json)>),
}

/// `serde_json::Value`, the tree that the parser builds; nothing inside it
/// is visible here.
#[verifier::external_type_specification]
#[verifier::external_body]
pub struct ExJsonValue(serde_json::Value);

/// The document that a text parses to, or the parser's message.
pub uninterp spec fn json_document(text: Seq<char>) -> Result<Json, Seq<char>>;

/// The value that a parsed tree holds.
pub uninterp spec fn json_of(value: serde_json::Value) -> Json;

/// Calls `serde_json::from_str` for a `serde_json::Value`. The outcome is a
/// function of the text: a tree, or the text of the parser's error.
#[verifier::external_body]
fn parse_tree(text: &str) -> (r: Result<serde_json::Value, String>)
    ensures
        match r {
            Ok(value) => json_document(text@) == Ok::<Json, Seq<char>>(json_of(value)),
            Err(message) => json_document(text@) == Err::<Json, Seq<char>>(message@),
        },
{
    match serde_json::from_str::<serde_json::Value>(text) {
        Ok(value) => Ok(value),
        Err(error) => Err(error.to_string()),
    }
}

/// Reads a `serde_json::Value` into a `Json`, variant by variant; a number
/// gives what `Number::as_u64` and its `Display` give, an object its members
/// in the order of `Map::iter`.
#[verifier::external_body]
fn read_tree(value: &serde_json::Value) -> (r: Json)
    ensures
        r == json_of(*value),
{
    match value {
        serde_json::Value::Null => Json::Null,
        serde_json::Value::Bool(b) => Json::Bool(*b),
        serde_json::Value::Number(n) => Json::Number(
            JsonNumber { unsigned: n.as_u64(), text: n.to_string() },
        ),
        serde_json::Value::String(s) => Json::Text(s.clone()),
        serde_json::Value::Array(items) => Json::Array(items.iter().map(read_tree).collect()),
        serde_json::Value::Object(members) => Json::Object(
            members.iter().map(|(key, member)| (key.clone(), read_tree(member))).collect(),
        ),
    }
}

/// A parse outcome with its message as a sequence of characters.
pub open spec fn document_view(r: Result<Json, String>) -> Result<Json, Seq<char>> {
    match r {
        Ok(json) => Ok(json),
        Err(message) => Err(message@),
    }
}

/// Parses a text as JSON.
pub fn parse_json(text: &str) -> (r: Result<Json, String>)
    ensures
        document_view(r) == json_document(text@),
{
    match parse_tree(text) {
        Ok(value) => Ok(read_tree(&value)),
        Err(message) => Err(message),
    }
}

/// The first member of `members` from `from` on whose key is `key`.
pub open spec fn member_from(members: Seq<(String, Json)>, key: Seq<char>, from: int) -> Option<
    Json,
>
    decreases members.len() - from,
{
    if from < 0 || from >= members.len() {
        None
    } else if members[from].0@ == key {
        Some(members[from].1)
    } else {
        member_from(members, key, from + 1)
    }
}

impl Json {
    /// The member of an object under `key`; `None` for anything else.
    pub open spec fn member(self, key: Seq<char>) -> Option<Json> {
        match self {
            Json::Object(members) => member_from(members@, key, 0),
            _ => None,
        }
    }

    /// Looks a key up in an object.
    pub fn get(&self, key: &str) -> (r: Option<&Json>)
        ensures
            deref_opt(r) == self.member(key@),
    {
        match self {
            Json::Object(members) => {
                let wanted = String::from_str(key);
                let mut i: usize = 0;
                while i < members.len()
                    invariant
                        i <= members.len(),
                        wanted@ == key@,
                        self.member(key@) == member_from(members@, key@, 0),
                        member_from(members@, key@, 0) == member_from(members@, key@, i as int),
                    decreases members.len() - i,
                {
                    if members[i].0 == wanted {
                        assert(members@[i as int].0@ == key@);
                        assert(member_from(members@, key@, i as int) == Some(
                            members@[i as int].1,
                        ));
                        return Some(&members[i].1);
                    }
                    assert(member_from(members@, key@, i as int) == member_from(
                        members@,
                        key@,
                        i + 1,
                    ));
                    i = i + 1;
                }
                None
            },
            _ => None,
        }
    }
}

/// The value of one decimal digit, if `c` is one.
pub open spec fn digit_value(c: char) -> Option<nat> {
    if '0' <= c && c <= '9' {
        Some((c as u32 - '0' as u32) as nat)
    } else {
        None
    }
}

/// The number that a run of decimal digits writes; `None` where `s` is empty
/// or holds anything else.
pub open spec fn digits_value(s: Seq<char>) -> Option<nat>
    decreases s.len(),
{
    if s.len() == 0 {
        None
    } else {
        match digit_value(s.last()) {
            None => None,
            Some(d) => if s.len() == 1 {
                Some(d)
            } else {
                match digits_value(s.drop_last()) {
                    None => None,
                    Some(high) => Some(high * 10 + d),
                }
            },
        }
    }
}

/// The number that `s` writes in decimal, with an optional `+` in front.
pub open spec fn decimal_value(s: Seq<char>) -> Option<nat> {
    if s.len() > 0 && s[0] == '+' {
        digits_value(s.skip(1))
    } else {
        digits_value(s)
    }
}

/// The number that `s` writes, where it fits in 32 bits.
pub open spec fn decimal_u32(s: Seq<char>) -> Option<u32> {
    match decimal_value(s) {
        Some(n) if n <= u32::MAX => Some(n as u32),
        _ => None,
    }
}

/// The number that `s` writes, where it fits in 64 bits.
pub open spec fn decimal_u64(s: Seq<char>) -> Option<u64> {
    match decimal_value(s) {
        Some(n) if n <= u64::MAX => Some(n as u64),
        _ => None,
    }
}

/// Calls `str::parse::<u32>`: an optional `+`, then one or more decimal
/// digits, whose value fits the type.
#[verifier::external_body]
pub(crate) fn parse_decimal_u32(s: &str) -> (r: Option<u32>)
    ensures
        r == decimal_u32(s@),
{
    s.parse::<u32>().ok()
}

/// Calls `str::parse::<u64>`: an optional `+`, then one or more decimal
/// digits, whose value fits the type.
#[verifier::external_body]
pub(crate) fn parse_decimal_u64(s: &str) -> (r: Option<u64>)
    ensures
        r == decimal_u64(s@),
{
    s.parse::<u64>().ok()
}

/// The character that writes a digit.
pub open spec fn digit_char(d: nat) -> char {
    if d == 0 {
        '0'
    } else if d == 1 {
        '1'
    } else if d == 2 {
        '2'
    } else if d == 3 {
        '3'
    } else if d == 4 {
        '4'
    } else if d == 5 {
        '5'
    } else if d == 6 {
        '6'
    } else if d == 7 {
        '7'
    } else if d == 8 {
        '8'
    } else {
        '9'
    }
}

/// `n` written in decimal, without leading zeros.
pub open spec fn decimal_digits(n: nat) -> Seq<char>
    decreases n,
{
    if n < 10 {
        seq![digit_char(n)]
    } else {
        decimal_digits(n / 10).push(digit_char(n % 10))
    }
}

/// Calls `u32::to_string`, which writes the number in decimal.
#[verifier::external_body]
pub(crate) fn decimal_text(n: u32) -> (r: String)
    ensures
        r@ == decimal_digits(n as nat),
{
    n.to_string()
}

/// The text of a field: a string as it is, a number as it is written,
/// anything else and an absent field as the empty text.
pub open spec fn text_of(v: Option<Json>) -> Seq<char> {
    match v {
        Some(Json::Text(s)) => s@,
        Some(Json::Number(n)) => n.text@,
        _ => Seq::empty(),
    }
}

/// The text of a field that is a string; the empty text otherwise.
pub open spec fn str_of(v: Option<Json>) -> Seq<char> {
    match v {
        Some(Json::Text(s)) => s@,
        _ => Seq::empty(),
    }
}

/// The low 32 bits of `n`.
pub open spec fn low_u32(n: u64) -> u32 {
    (n % 0x1_0000_0000) as u32
}

/// The number of an optional field: a number by its low 32 bits where it is
/// unsigned, a string by the decimal number that it writes.
pub open spec fn opt_u32_of(v: Option<Json>) -> Option<u32> {
    match v {
        Some(Json::Number(n)) => match n.unsigned {
            Some(value) => Some(low_u32(value)),
            None => None,
        },
        Some(Json::Text(s)) => decimal_u32(s@),
        _ => None,
    }
}

/// The number of a field, 0 where `opt_u32_of` has none.
pub open spec fn u32_of(v: Option<Json>) -> u32 {
    match opt_u32_of(v) {
        Some(n) => n,
        None => 0,
    }
}

/// The value behind an optional reference.
pub open spec fn deref_opt(v: Option<&Json>) -> Option<Json> {
    match v {
        Some(j) => Some(*j),
        None => None,
    }
}

/// Reads a field as text.
pub fn value_to_string(v: Option<&Json>) -> (r: String)
    ensures
        r@ == text_of(deref_opt(v)),
{
    match v {
        Some(Json::Text(s)) => s.clone(),
        Some(Json::Number(n)) => n.text.clone(),
        _ => String::new(),
    }
}

/// Reads a field that must be a string as text.
pub fn value_as_str(v: Option<&Json>) -> (r: String)
    ensures
        r@ == str_of(deref_opt(v)),
{
    match v {
        Some(Json::Text(s)) => s.clone(),
        _ => String::new(),
    }
}

/// Reads an optional numeric field.
pub fn parse_opt_u32(v: Option<&Json>) -> (r: Option<u32>)
    ensures
        r == opt_u32_of(deref_opt(v)),
{
    match v {
        Some(Json::Number(n)) => match n.unsigned {
            Some(value) => {
                let low: u64 = value % 0x1_0000_0000;
                Some(low as u32)
            },
            None => None,
        },
        Some(Json::Text(s)) => parse_decimal_u32(s.as_str()),
        _ => None,
    }
}

/// Reads a numeric field, with 0 for one that is absent or unreadable.
pub fn parse_u32(v: Option<&Json>) -> (r: u32)
    ensures
        r == u32_of(deref_opt(v)),
{
    match parse_opt_u32(v) {
        Some(n) => n,
        None => 0,
    }
}

/// Whether `s` begins with `prefix`.
pub open spec fn has_prefix(s: Seq<char>, prefix: Seq<char>) -> bool {
    prefix.len() <= s.len() && s.take(prefix.len() as int) == prefix
}

/// Tests whether `s` begins with `prefix`.
pub fn starts_with(s: &str, prefix: &str) -> (r: bool)
    ensures
        r == has_prefix(s@, prefix@),
{
    let n = prefix.unicode_len();
    if s.unicode_len() < n {
        return false;
    }
    let mut i: usize = 0;
    while i < n
        invariant
            i <= n,
            n == prefix@.len(),
            n <= s@.len(),
            s@.take(i as int) == prefix@.take(i as int),
        decreases n - i,
    {
        if s.get_char(i) != prefix.get_char(i) {
            assert(s@.take(n as int)[i as int] != prefix@[i as int]);
            return false;
        }
        assert(s@.take(i + 1) =~= s@.take(i as int).push(s@[i as int]));
        assert(prefix@.take(i + 1) =~= prefix@.take(i as int).push(prefix@[i as int]));
        i = i + 1;
    }
    assert(prefix@.take(n as int) =~= prefix@);
    true
}

} // verus!
