//! JSON documents, as the `json` crate holds them.
//!
//! A document is kept as a `json::JsonValue`, which the verifier cannot look
//! into. Its contents are described by the ghost tree [`Json`]; every
//! function of this module that touches a `JsonValue` states over that tree
//! what the `json` crate does. Those statements are taken from the crate's
//! source. They are believed, not proved.

use json::number::Number;
use json::JsonValue;
use vstd::prelude::*;
use vstd::string::*;

verus! {

/// Makes `json::JsonValue` known to the verifier, as a type it cannot look
/// into.
#[verifier::external_type_specification]
#[verifier::external_body]
pub struct ExJsonValue(json::JsonValue);

/// Makes `json::Error` known to the verifier, as a type it cannot look into.
#[verifier::external_type_specification]
#[verifier::external_body]
pub struct ExJsonError(json::Error);

/// A number of a document: `mantissa` times ten to the power `exponent`,
/// with a sign class. The class is 0 for negative, 1 for positive, and
/// anything above 1 for not-a-number.
pub ghost struct JsonNumber {
    pub category: u8,
    pub mantissa: u64,
    pub exponent: i16,
}

/// The contents of a document.
///
/// The entries of an object stand in the order in which they were inserted,
/// and no two of them have the same key. A text is a string of either of the
/// crate's two string forms.
pub ghost enum Json {
    Null,
    Boolean(bool),
    Number(JsonNumber),
    Text(Seq<char>),
    Array(Seq<Json>),
    Object(Seq<(Seq<char>, Json)>),
}

/// What `value` holds.
pub uninterp spec fn json_content(value: JsonValue) -> Json;

/// The message that `error` displays.
pub uninterp spec fn json_error_text(error: json::Error) -> Seq<char>;

/// What `json::parse` makes of `text`: the document, or the message of the
/// error that it reports.
pub uninterp spec fn parsed_json(text: Seq<char>) -> Result<Json, Seq<char>>;

/// The text that `JsonValue::dump` writes for a value that holds `doc`.
pub uninterp spec fn dumped_json(doc: Json) -> Seq<char>;

/// Whether the crate's `==` holds between a number of the given parts and
/// the unsigned integer `other`.
pub uninterp spec fn number_equals(category: u8, mantissa: u64, exponent: i16, other: u64) -> bool;

/// Whether some entry of `entries` has the key `key`.
pub open spec fn has_key(entries: Seq<(Seq<char>, Json)>, key: Seq<char>) -> bool {
    exists|i: int| 0 <= i < entries.len() && (#[trigger] entries[i]).0 == key
}

/// The value under `key` among `entries`, or null where no entry has that
/// key.
pub open spec fn lookup(entries: Seq<(Seq<char>, Json)>, key: Seq<char>) -> Json
    decreases entries.len(),
{
    if entries.len() == 0 {
        Json::Null
    } else if entries.last().0 == key {
        entries.last().1
    } else {
        lookup(entries.drop_last(), key)
    }
}

/// Looking up `key` after one more entry was added finds the new entry's
/// value if the entry has that key, and what was found before if not.
pub proof fn lemma_lookup_push(
    entries: Seq<(Seq<char>, Json)>,
    added: Seq<char>,
    value: Json,
    key: Seq<char>,
)
    ensures
        lookup(entries.push((added, value)), key) == if added == key {
            value
        } else {
            lookup(entries, key)
        },
{
    let longer = entries.push((added, value));
    assert(longer.drop_last() =~= entries);
}

/// The member `key` of `doc`: null unless `doc` is an object with that key.
pub open spec fn field(doc: Json, key: Seq<char>) -> Json {
    match doc {
        Json::Object(entries) => lookup(entries, key),
        _ => Json::Null,
    }
}

/// The items of `doc`: none unless `doc` is an array.
pub open spec fn items(doc: Json) -> Seq<Json> {
    match doc {
        Json::Array(list) => list,
        _ => Seq::empty(),
    }
}

/// Whether `doc` can be compared with an unsigned integer: everything can,
/// except a number whose exponent is the smallest there is.
pub open spec fn comparable(doc: Json) -> bool {
    doc matches Json::Number(n) ==> n.exponent > i16::MIN
}

/// Whether the crate's `==` holds between `doc` and the unsigned integer
/// `other`. Only a number can equal one. A positive number without exponent
/// equals `other` just when its mantissa does.
pub open spec fn equals_u64(doc: Json, other: u64) -> bool {
    match doc {
        Json::Number(n) => if n.category == 1 && n.exponent == 0 {
            n.mantissa == other
        } else {
            number_equals(n.category, n.mantissa, n.exponent, other)
        },
        _ => false,
    }
}

/// The parts of a number made from `mantissa` and `exponent` once the zeros
/// at the end of a fraction are taken off.
pub open spec fn trimmed(mantissa: u64, exponent: i16) -> (u64, i16)
    decreases 0 - exponent,
{
    if exponent < 0 && mantissa % 10 == 0 {
        trimmed(mantissa / 10, (exponent + 1) as i16)
    } else {
        (mantissa, exponent)
    }
}

/// The document that a number of the given sign and parts becomes, or null
/// where there is none.
pub open spec fn number_doc(parts: Option<(bool, u64, i16)>) -> Json {
    match parts {
        Some((positive, mantissa, exponent)) => Json::Number(
            JsonNumber {
                category: if positive {
                    1u8
                } else {
                    0u8
                },
                mantissa: trimmed(mantissa, exponent).0,
                exponent: trimmed(mantissa, exponent).1,
            },
        ),
        None => Json::Null,
    }
}

/// Whether the byte `b` is an ASCII digit.
pub open spec fn is_digit(b: u8) -> bool {
    0x30 <= b <= 0x39
}

/// Where a reader of JSON text stands: outside every string, inside a
/// string, or inside a string just behind a backslash.
#[derive(Debug, PartialEq, Eq, Clone, Copy, Structural)]
pub enum Place {
    Outside,
    Inside,
    Escaped,
}

/// Where a reader that stood at `place` stands once it has read the byte
/// `b`: a quote opens and closes a string, and inside a string a backslash
/// takes the byte behind it along, whatever it is.
pub open spec fn place_behind(place: Place, b: u8) -> Place {
    match place {
        Place::Outside => if b == 0x22 {
            Place::Inside
        } else {
            Place::Outside
        },
        Place::Inside => if b == 0x22 {
            Place::Outside
        } else if b == 0x5c {
            Place::Escaped
        } else {
            Place::Inside
        },
        Place::Escaped => Place::Inside,
    }
}

/// Where a reader stands that has read the first `at` bytes of `bytes`.
pub open spec fn place_at(bytes: Seq<u8>, at: int) -> Place
    decreases at,
{
    if 0 < at <= bytes.len() {
        place_behind(place_at(bytes, at - 1), bytes[at - 1])
    } else {
        Place::Outside
    }
}

/// Whether the byte at `dot` is the point of a number whose whole part is
/// zero: a `.` outside every string, behind a `0` that no digit precedes.
pub open spec fn zero_point_at(bytes: Seq<u8>, dot: int) -> bool {
    &&& 1 <= dot < bytes.len()
    &&& bytes[dot] == 0x2e
    &&& bytes[dot - 1] == 0x30
    &&& dot >= 2 ==> !is_digit(bytes[dot - 2])
    &&& place_at(bytes, dot) == Place::Outside
}

/// How many of the digits that stand in a row from `at` on the parser takes
/// into a mantissa that stands at `mantissa`: it takes a digit as long as
/// the mantissa with that digit behind it fits in 64 bits, and passes
/// over it otherwise.
pub open spec fn digits_taken(bytes: Seq<u8>, at: int, mantissa: int) -> nat
    decreases bytes.len() - at,
{
    if 0 <= at < bytes.len() && is_digit(bytes[at]) {
        let longer = mantissa * 10 + (bytes[at] - 0x30);
        if longer <= u64::MAX {
            1 + digits_taken(bytes, at + 1, longer)
        } else {
            digits_taken(bytes, at + 1, mantissa)
        }
    } else {
        0
    }
}

/// How many digits of a fraction the parser can take: it counts them
/// downwards from zero in a 16-bit exponent.
pub const MAX_FRACTION_DIGITS: usize = 32768;

/// Whether the parser can count the fractions of `bytes`: behind the point
/// of a number whose whole part is zero it takes no more digits than it can
/// count.
pub open spec fn fractions_countable(bytes: Seq<u8>) -> bool {
    forall|dot: int| #[trigger]
        zero_point_at(bytes, dot) ==> digits_taken(bytes, dot + 1, 0) <= MAX_FRACTION_DIGITS
}

/// `json::parse`.
///
/// The parser lowers a 16-bit exponent by one for each digit of a fraction
/// that it takes into the mantissa, and overflows where it takes more than
/// 32768. A mantissa that is not zero grows tenfold with each digit taken
/// and so takes fewer than twenty; only a fraction behind a whole part of
/// zero can be longer. Texts with such a fraction that the parser cannot
/// count are left out. On every other text it returns the document or an
/// error; which of the two, what the document holds and what the error
/// displays is `parsed_json` of the text.
#[verifier::external_body]
pub(crate) fn json_parse(text: &str) -> (res: Result<JsonValue, json::Error>)
    requires
        fractions_countable(text.spec_bytes()),
    ensures
        match res {
            Ok(doc) => parsed_json(text@) == Ok::<Json, Seq<char>>(json_content(doc)),
            Err(error) => parsed_json(text@) == Err::<Json, Seq<char>>(json_error_text(error)),
        },
{
    json::parse(text)
}

/// `to_string` of a `json::Error`: the message that the error displays.
#[verifier::external_body]
pub(crate) fn json_error_message(error: &json::Error) -> (message: String)
    ensures
        message@ == json_error_text(*error),
{
    error.to_string()
}

/// `JsonValue`'s indexing by a string: the member under `key`, or a null
/// where `value` is no object or has no such key.
#[verifier::external_body]
pub(crate) fn json_field<'a>(value: &'a JsonValue, key: &str) -> (member: &'a JsonValue)
    ensures
        json_content(*member) == field(json_content(*value), key@),
{
    &value[key]
}

/// `JsonValue::members`, collected: the items of an array in their order,
/// and nothing for any other value.
#[verifier::external_body]
pub(crate) fn json_members<'a>(value: &'a JsonValue) -> (members: Vec<&'a JsonValue>)
    ensures
        members@.len() == items(json_content(*value)).len(),
        forall|i: int|
            0 <= i < members@.len() ==> json_content(*#[trigger] members@[i]) == items(
                json_content(*value),
            )[i],
{
    value.members().collect()
}

/// `JsonValue::as_bool`: the boolean that `value` is, if it is one.
#[verifier::external_body]
pub(crate) fn json_as_bool(value: &JsonValue) -> (flag: Option<bool>)
    ensures
        flag == match json_content(*value) {
            Json::Boolean(b) => Some(b),
            _ => None::<bool>,
        },
{
    value.as_bool()
}

/// `JsonValue::as_str`: the text that `value` is, if it is one.
#[verifier::external_body]
pub(crate) fn json_as_str<'a>(value: &'a JsonValue) -> (text: Option<&'a str>)
    ensures
        match json_content(*value) {
            Json::Text(t) => text matches Some(s) && s@ == t,
            _ => text is None,
        },
{
    value.as_str()
}

/// `JsonValue::as_u64`: the mantissa of a positive number without exponent,
/// and nothing for any other value.
#[verifier::external_body]
pub(crate) fn json_as_u64(value: &JsonValue) -> (number: Option<u64>)
    ensures
        number == match json_content(*value) {
            Json::Number(n) => if n.category == 1 && n.exponent == 0 {
                Some(n.mantissa)
            } else {
                None::<u64>
            },
            _ => None::<u64>,
        },
{
    value.as_u64()
}

/// `JsonValue::as_i64`: the mantissa of a number without exponent, negated
/// unless the number is positive, and nothing for any other value.
///
/// The crate casts the mantissa to `i64` before it negates it. Above
/// `i64::MAX` the cast wraps, and negating what 2^63 wraps to overflows;
/// such mantissas are left out.
#[verifier::external_body]
pub(crate) fn json_as_i64(value: &JsonValue) -> (number: Option<i64>)
    requires
        json_content(*value) matches Json::Number(n) ==> n.mantissa <= i64::MAX,
    ensures
        match json_content(*value) {
            Json::Number(n) => if n.exponent == 0 {
                number matches Some(x) && x == if n.category == 1 {
                    n.mantissa as int
                } else {
                    -(n.mantissa as int)
                }
            } else {
                number is None
            },
            _ => number is None,
        },
{
    value.as_i64()
}

/// `JsonValue::as_number`, taken apart by `Number::is_nan`,
/// `Number::is_sign_positive` and `Number::as_parts`: whether the number is
/// not-a-number, whether it is positive, its mantissa and its exponent; and
/// nothing for a value that is no number.
#[verifier::external_body]
pub(crate) fn json_number_parts(value: &JsonValue) -> (parts: Option<(bool, bool, u64, i16)>)
    ensures
        parts == match json_content(*value) {
            Json::Number(n) => Some((n.category > 1, n.category == 1, n.mantissa, n.exponent)),
            _ => None::<(bool, bool, u64, i16)>,
        },
{
    value.as_number().map(|n| (n.is_nan(), n.is_sign_positive(), n.as_parts().1, n.as_parts().2))
}

/// `JsonValue`'s `==` with a `u64`.
///
/// The crate negates the difference of the exponents, which overflows on
/// the smallest exponent; such numbers are left out.
#[verifier::external_body]
pub(crate) fn json_equals_u64(value: &JsonValue, other: u64) -> (same: bool)
    requires
        comparable(json_content(*value)),
    ensures
        same == match json_content(*value) {
            Json::Number(n) => if n.category == 1 && n.exponent == 0 {
                n.mantissa == other
            } else {
                number_equals(n.category, n.mantissa, n.exponent, other)
            },
            _ => false,
        },
{
    *value == other
}

/// `JsonValue`'s `==` with a string slice: whether `value` is that text.
#[verifier::external_body]
pub(crate) fn json_equals_str(value: &JsonValue, other: &str) -> (same: bool)
    ensures
        same == (json_content(*value) == Json::Text(other@)),
{
    *value == other
}

/// `JsonValue::new_object`: an object without entries.
#[verifier::external_body]
pub(crate) fn json_object() -> (object: JsonValue)
    ensures
        json_content(object) == Json::Object(Seq::empty()),
{
    JsonValue::new_object()
}

/// `JsonValue::insert` with a key that the object does not have yet: the
/// new entry comes after the others.
#[verifier::external_body]
pub(crate) fn json_insert(object: &mut JsonValue, key: &str, value: JsonValue)
    requires
        json_content(*old(object)) matches Json::Object(entries) && !has_key(entries, key@),
    ensures
        json_content(*old(object)) matches Json::Object(entries) && json_content(*final(object))
            == Json::Object(entries.push((key@, json_content(value)))),
{
    let _ = object.insert(key, value);
}

/// `JsonValue::from` a string slice: the text.
#[verifier::external_body]
pub(crate) fn json_text(text: &str) -> (value: JsonValue)
    ensures
        json_content(value) == Json::Text(text@),
{
    JsonValue::from(text)
}

/// `JsonValue::from` a `bool`: the boolean.
#[verifier::external_body]
pub(crate) fn json_boolean(flag: bool) -> (value: JsonValue)
    ensures
        json_content(value) == Json::Boolean(flag),
{
    JsonValue::from(flag)
}

/// `JsonValue::from` an optional `Number` that `Number::from_parts` made:
/// the number of that sign, with the zeros at the end of a fraction taken
/// off its mantissa; or null where there is none.
#[verifier::external_body]
pub(crate) fn json_number(parts: Option<(bool, u64, i16)>) -> (value: JsonValue)
    ensures
        json_content(value) == number_doc(parts),
{
    JsonValue::from(parts.map(|p| Number::from_parts(p.0, p.1, p.2)))
}

/// `JsonValue::dump`: the value as compact JSON text.
#[verifier::external_body]
pub(crate) fn json_dump(value: &JsonValue) -> (text: String)
    ensures
        text@ == dumped_json(json_content(*value)),
{
    value.dump()
}

} // verus!
