//! The status snapshot: parsing it, finding the record of a source in it,
//! and reading the fields of a record.
//!
//! The snapshot belongs to the service, which may rewrite it at any moment.
//! Nothing here keeps one: every query starts from what the caller has just
//! read from the file, and parses it anew.

use crate::digits::{append_decimal, decimal_digits};
use crate::document::{
    comparable, digits_taken, equals_u64, field, fractions_countable, is_digit, items,
    json_as_bool, json_as_i64, json_as_str, json_as_u64, json_content, json_equals_str,
    json_equals_u64, json_error_message, json_field, json_members, json_number_parts, json_parse,
    parsed_json, place_at, trimmed, zero_point_at, Json, JsonNumber, Place,
    MAX_FRACTION_DIGITS,
};
use crate::error::{
    failure, message_with_detail, with_detail, AudioError, AudioErrorView, AudioResult, ErrorKind,
    AUDIO_STATUS_PATH,
};
use crate::source::Decimal;
use crate::timestamp::{
    parse_timestamp, parsed_timestamp, time_error_message, Timestamp, TIME_FORMAT,
};
use json::JsonValue;
use vstd::prelude::*;
use vstd::string::*;

verus! {

/// The message for a snapshot that could not be read, where `detail` says
/// why.
pub open spec fn read_failure_message(detail: Seq<char>) -> Seq<char> {
    with_detail("Error in reading "@ + AUDIO_STATUS_PATH@ + "."@, detail)
}

/// The message for a snapshot that is not JSON, where `detail` says why.
pub open spec fn parse_failure_message(detail: Seq<char>) -> Seq<char> {
    with_detail("Error in parsing JSON."@, detail)
}

/// What is reported of a snapshot with a fraction of more digits than the
/// parser can count.
pub open spec fn long_fraction_detail() -> Seq<char> {
    "Fraction with too many digits"@
}

/// The message for a snapshot without a record of the identity `id`.
pub open spec fn no_id_message(id: u64) -> Seq<char> {
    "No audio source found with id "@ + decimal_digits(id as nat) + "."@
}

/// The message for a snapshot without a record of the name `name`.
pub open spec fn no_name_message(name: Seq<char>) -> Seq<char> {
    "No audio source found with name "@ + name + "."@
}

/// The message for a member `key` that is missing or is not of the kind
/// that is asked for.
pub open spec fn bad_field_message(key: Seq<char>) -> Seq<char> {
    "Error in reading "@ + key + " from the audio status."@
}

/// The message for a timestamp that does not follow the format, where
/// `which` is `start` or `end` and `detail` says why.
pub open spec fn bad_time_message(which: Seq<char>, detail: Seq<char>) -> Seq<char> {
    with_detail("Error in parsing "@ + which + " time."@, detail)
}

/// Whether the parser can be handed `text`: whether it can count the
/// fractions in it.
pub open spec fn parseable(text: Seq<char>) -> bool {
    fractions_countable(vstd::utf8::encode_utf8(text))
}

/// The document of a snapshot, or why there is none. `read` is what came of
/// reading the file: its text, or the reason why it could not be read.
///
/// A file that could not be read is an I/O failure. A text that is not JSON
/// is a parse failure, and so is one with a fraction of more digits than the
/// parser can count.
pub open spec fn snapshot_doc(read: Result<String, String>) -> Result<Json, AudioErrorView> {
    match read {
        Err(detail) => Err(failure(ErrorKind::Io, read_failure_message(detail@))),
        Ok(text) => if !parseable(text@) {
            Err(failure(ErrorKind::Parse, parse_failure_message(long_fraction_detail())))
        } else {
            match parsed_json(text@) {
                Ok(doc) => Ok(doc),
                Err(detail) => Err(failure(ErrorKind::Parse, parse_failure_message(detail))),
            }
        },
    }
}

/// Whether `res` is the outcome `expected`, value for value.
pub open spec fn agrees<T>(res: AudioResult<T>, expected: Result<T, AudioErrorView>) -> bool {
    match expected {
        Ok(value) => res matches Ok(v) && v == value,
        Err(fault) => res matches Err(e) && e@ == fault,
    }
}

/// Whether `res` is the outcome `expected`, where a value is a text.
pub open spec fn agrees_text(
    res: AudioResult<String>,
    expected: Result<Seq<char>, AudioErrorView>,
) -> bool {
    match expected {
        Ok(text) => res matches Ok(s) && s@ == text,
        Err(fault) => res matches Err(e) && e@ == fault,
    }
}

/// Whether `res` is the outcome `expected`, where a value is a document.
pub open spec fn agrees_doc(
    res: AudioResult<JsonValue>,
    expected: Result<Json, AudioErrorView>,
) -> bool {
    match expected {
        Ok(doc) => res matches Ok(value) && json_content(value) == doc,
        Err(fault) => res matches Err(e) && e@ == fault,
    }
}

/// Whether `res` is the outcome `expected`, where a value is a borrowed
/// document.
pub open spec fn agrees_member(
    res: AudioResult<&JsonValue>,
    expected: Result<Json, AudioErrorView>,
) -> bool {
    match expected {
        Ok(doc) => res matches Ok(value) && json_content(*value) == doc,
        Err(fault) => res matches Err(e) && e@ == fault,
    }
}

/// Tells whether the parser can count the fraction whose digits begin at
/// `start`, behind a whole part of zero.
fn fraction_fits(bytes: &[u8], start: usize) -> (fits: bool)
    requires
        start <= bytes@.len(),
    ensures
        fits == (digits_taken(bytes@, start as int, 0) <= MAX_FRACTION_DIGITS),
{
    let mut at: usize = start;
    let mut mantissa: u64 = 0;
    let mut taken: usize = 0;
    let mut more: bool = true;
    while more && at < bytes.len()
        invariant
            start <= at <= bytes@.len(),
            taken <= MAX_FRACTION_DIGITS,
            !more ==> at < bytes@.len() && !is_digit(bytes@[at as int]),
            digits_taken(bytes@, start as int, 0) == taken + digits_taken(
                bytes@,
                at as int,
                mantissa as int,
            ),
        decreases bytes@.len() - at + if more { 1nat } else { 0nat },
    {
        let b: u8 = bytes[at];
        if 0x30 <= b && b <= 0x39 {
            let digit: u64 = (b - 0x30) as u64;
            if mantissa <= (u64::MAX - digit) / 10 {
                mantissa = mantissa * 10 + digit;
                taken = taken + 1;
                if taken > MAX_FRACTION_DIGITS {
                    return false;
                }
            }
            at = at + 1;
        } else {
            more = false;
        }
    }
    true
}

/// Tells whether the parser can be handed `text`.
pub fn fractions_bounded(text: &str) -> (bounded: bool)
    ensures
        bounded == parseable(text@),
{
    let bytes = text.as_bytes();
    let mut place = Place::Outside;
    let mut i: usize = 0;
    while i < bytes.len()
        invariant
            i <= bytes@.len(),
            bytes@ == text.spec_bytes(),
            place == place_at(bytes@, i as int),
            forall|dot: int|
                dot < i && #[trigger] zero_point_at(bytes@, dot) ==> digits_taken(
                    bytes@,
                    dot + 1,
                    0,
                ) <= MAX_FRACTION_DIGITS,
        decreases bytes@.len() - i,
    {
        let b: u8 = bytes[i];
        let lone_zero: bool = i >= 1 && bytes[i - 1] == 0x30 && (i < 2 || !(0x30 <= bytes[i - 2]
            && bytes[i - 2] <= 0x39));
        let outside: bool = match place {
            Place::Outside => true,
            _ => false,
        };
        if outside && b == 0x2e && lone_zero {
            assert(zero_point_at(bytes@, i as int));
            if !fraction_fits(bytes, i + 1) {
                return false;
            }
        }
        place = match place {
            Place::Outside => if b == 0x22 {
                Place::Inside
            } else {
                Place::Outside
            },
            Place::Inside => if b == 0x22 {
                Place::Outside
            } else if b == 0x5c {
                Place::Escaped
            } else {
                Place::Inside
            },
            Place::Escaped => Place::Inside,
        };
        i = i + 1;
    }
    true
}

/// Makes a failure of kind `kind` whose message is `head`, then `detail` in
/// round brackets.
fn detailed(kind: ErrorKind, head: &str, detail: &str) -> (error: AudioError)
    ensures
        error@ == failure(kind, with_detail(head@, detail@)),
{
    AudioError::new(kind, message_with_detail(head, detail))
}

/// Parses the status snapshot. `read` is what came of reading the file: its
/// text, or the reason why it could not be read.
pub fn parse_status(read: &Result<String, String>) -> (res: AudioResult<JsonValue>)
    ensures
        agrees_doc(res, snapshot_doc(*read)),
{
    match read {
        Err(detail) => {
            let mut head = String::from_str("Error in reading ");
            head.append(AUDIO_STATUS_PATH);
            head.append(".");
            Err(detailed(ErrorKind::Io, head.as_str(), detail.as_str()))
        },
        Ok(text) => {
            if !fractions_bounded(text.as_str()) {
                Err(
                    detailed(
                        ErrorKind::Parse,
                        "Error in parsing JSON.",
                        "Fraction with too many digits",
                    ),
                )
            } else {
                match json_parse(text.as_str()) {
                    Ok(doc) => Ok(doc),
                    Err(error) => {
                        let detail = json_error_message(&error);
                        Err(detailed(ErrorKind::Parse, "Error in parsing JSON.", detail.as_str()))
                    },
                }
            }
        },
    }
}

/// The records of the sources in the snapshot `doc`, in its order: the items
/// of its member `Sources`, and none where that is no array.
pub open spec fn sources(doc: Json) -> Seq<Json> {
    items(field(doc, "Sources"@))
}

/// Whether the record `source` carries the identity `id`: whether its
/// member `ID` equals `id` as the `json` crate compares a value with an
/// unsigned integer. A number that cannot be compared carries no identity.
pub open spec fn id_matches(source: Json, id: u64) -> bool {
    comparable(field(source, "ID"@)) && equals_u64(field(source, "ID"@), id)
}

/// Whether the record `source` carries the provisional name `name`.
pub open spec fn name_matches(source: Json, name: Seq<char>) -> bool {
    field(source, "Name"@) == Json::Text(name)
}

/// The first record of `list` with the identity `id`.
pub open spec fn first_by_id(list: Seq<Json>, id: u64) -> Option<Json>
    decreases list.len(),
{
    if list.len() == 0 {
        None
    } else if id_matches(list.first(), id) {
        Some(list.first())
    } else {
        first_by_id(list.drop_first(), id)
    }
}

/// The first record of `list` with the provisional name `name`.
pub open spec fn first_by_name(list: Seq<Json>, name: Seq<char>) -> Option<Json>
    decreases list.len(),
{
    if list.len() == 0 {
        None
    } else if name_matches(list.first(), name) {
        Some(list.first())
    } else {
        first_by_name(list.drop_first(), name)
    }
}

/// The record of the identity `id` in the snapshot `doc`, or the failure to
/// find one.
pub open spec fn record_by_id(doc: Json, id: u64) -> Result<Json, AudioErrorView> {
    match first_by_id(sources(doc), id) {
        Some(source) => Ok(source),
        None => Err(failure(ErrorKind::NotFound, no_id_message(id))),
    }
}

/// The record of the provisional name `name` in the snapshot `doc`, or the
/// failure to find one.
pub open spec fn record_by_name(doc: Json, name: Seq<char>) -> Result<Json, AudioErrorView> {
    match first_by_name(sources(doc), name) {
        Some(source) => Ok(source),
        None => Err(failure(ErrorKind::NotFound, no_name_message(name))),
    }
}

/// Whether `text` is malformed as a snapshot: the parser rejects it, or
/// cannot be handed it.
pub open spec fn malformed(text: Seq<char>) -> bool {
    !parseable(text) || parsed_json(text) is Err
}

/// A snapshot that cannot be read is an I/O failure. A snapshot that is
/// read and is malformed is a parse failure, which is a different kind.
/// Any other snapshot has a document.
pub proof fn lemma_snapshot_failures(read: Result<String, String>)
    ensures
        match read {
            Err(_) => snapshot_doc(read) matches Err(fault) && fault.kind == ErrorKind::Io,
            Ok(text) => if malformed(text@) {
                snapshot_doc(read) matches Err(fault) && fault.kind == ErrorKind::Parse
            } else {
                snapshot_doc(read) is Ok
            },
        },
        ErrorKind::Parse != ErrorKind::Io,
{
}

/// The first record with an identity, if there is one, is a record of the
/// list that carries that identity, and no record before it does. If there
/// is none, no record of the list carries it.
pub proof fn lemma_first_by_id(list: Seq<Json>, id: u64)
    ensures
        match first_by_id(list, id) {
            Some(source) => exists|i: int|
                0 <= i < list.len() && #[trigger] list[i] == source && id_matches(source, id)
                    && forall|j: int| 0 <= j < i ==> !id_matches(#[trigger] list[j], id),
            None => forall|i: int| 0 <= i < list.len() ==> !id_matches(#[trigger] list[i], id),
        },
    decreases list.len(),
{
    if list.len() > 0 && !id_matches(list.first(), id) {
        let rest = list.drop_first();
        lemma_first_by_id(rest, id);
        assert forall|k: int| 0 <= k < rest.len() implies rest[k] == list[k + 1] by {}
        match first_by_id(rest, id) {
            Some(source) => {
                let i = choose|i: int|
                    0 <= i < rest.len() && #[trigger] rest[i] == source && id_matches(source, id)
                        && forall|j: int| 0 <= j < i ==> !id_matches(#[trigger] rest[j], id);
                assert forall|j: int| 0 <= j < i + 1 implies !id_matches(
                    #[trigger] list[j],
                    id,
                ) by {
                    if j > 0 {
                        assert(rest[j - 1] == list[j]);
                    }
                }
            },
            None => {
                assert forall|i: int| 0 <= i < list.len() implies !id_matches(
                    #[trigger] list[i],
                    id,
                ) by {
                    if i > 0 {
                        assert(rest[i - 1] == list[i]);
                    }
                }
            },
        }
    }
}

/// The first record with a provisional name, if there is one, is a record
/// of the list that carries that name, and no record before it does. If
/// there is none, no record of the list carries it.
pub proof fn lemma_first_by_name(list: Seq<Json>, name: Seq<char>)
    ensures
        match first_by_name(list, name) {
            Some(source) => exists|i: int|
                0 <= i < list.len() && #[trigger] list[i] == source && name_matches(source, name)
                    && forall|j: int| 0 <= j < i ==> !name_matches(#[trigger] list[j], name),
            None => forall|i: int| 0 <= i < list.len() ==> !name_matches(#[trigger] list[i], name),
        },
    decreases list.len(),
{
    if list.len() > 0 && !name_matches(list.first(), name) {
        let rest = list.drop_first();
        lemma_first_by_name(rest, name);
        assert forall|k: int| 0 <= k < rest.len() implies rest[k] == list[k + 1] by {}
        match first_by_name(rest, name) {
            Some(source) => {
                let i = choose|i: int|
                    0 <= i < rest.len() && #[trigger] rest[i] == source && name_matches(
                        source,
                        name,
                    ) && forall|j: int| 0 <= j < i ==> !name_matches(#[trigger] rest[j], name);
                assert forall|j: int| 0 <= j < i + 1 implies !name_matches(
                    #[trigger] list[j],
                    name,
                ) by {
                    if j > 0 {
                        assert(rest[j - 1] == list[j]);
                    }
                }
            },
            None => {
                assert forall|i: int| 0 <= i < list.len() implies !name_matches(
                    #[trigger] list[i],
                    name,
                ) by {
                    if i > 0 {
                        assert(rest[i - 1] == list[i]);
                    }
                }
            },
        }
    }
}

/// Tells whether the record `source` carries the identity `id`.
fn has_id(source: &JsonValue, id: u64) -> (same: bool)
    ensures
        same == id_matches(json_content(*source), id),
{
    let member = json_field(source, "ID");
    let usable: bool = match json_number_parts(member) {
        Some(parts) => parts.3 > i16::MIN,
        None => true,
    };
    usable && json_equals_u64(member, id)
}

/// Finds the record of the identity `id` in the snapshot `status`: the first
/// one in its order that carries it.
pub fn get_status_by_id<'a>(status: &'a JsonValue, id: u64) -> (res: AudioResult<&'a JsonValue>)
    ensures
        agrees_member(res, record_by_id(json_content(*status), id)),
{
    let list = json_members(json_field(status, "Sources"));
    let ghost all = sources(json_content(*status));
    let mut i: usize = 0;
    assert(all.skip(0) =~= all);
    while i < list.len()
        invariant
            i <= list.len(),
            all == sources(json_content(*status)),
            list@.len() == all.len(),
            forall|k: int| 0 <= k < list@.len() ==> json_content(*#[trigger] list@[k]) == all[k],
            first_by_id(all, id) == first_by_id(all.skip(i as int), id),
        decreases list.len() - i,
    {
        let source: &JsonValue = list[i];
        assert(all.skip(i as int).drop_first() =~= all.skip(i + 1));
        if has_id(source, id) {
            return Ok(source);
        }
        i = i + 1;
    }
    let mut message = String::from_str("No audio source found with id ");
    append_decimal(&mut message, id);
    message.append(".");
    Err(AudioError::new(ErrorKind::NotFound, message))
}

/// Finds the record of the provisional name `name` in the snapshot
/// `status`: the first one in its order that carries it.
pub fn get_status_by_name<'a>(status: &'a JsonValue, name: &str) -> (res: AudioResult<
    &'a JsonValue,
>)
    ensures
        agrees_member(res, record_by_name(json_content(*status), name@)),
{
    let list = json_members(json_field(status, "Sources"));
    let ghost all = sources(json_content(*status));
    let mut i: usize = 0;
    assert(all.skip(0) =~= all);
    while i < list.len()
        invariant
            i <= list.len(),
            all == sources(json_content(*status)),
            list@.len() == all.len(),
            forall|k: int| 0 <= k < list@.len() ==> json_content(*#[trigger] list@[k]) == all[k],
            first_by_name(all, name@) == first_by_name(all.skip(i as int), name@),
        decreases list.len() - i,
    {
        let source: &JsonValue = list[i];
        assert(all.skip(i as int).drop_first() =~= all.skip(i + 1));
        if json_equals_str(json_field(source, "Name"), name) {
            return Ok(source);
        }
        i = i + 1;
    }
    let mut message = String::from_str("No audio source found with name ");
    message.append(name);
    message.append(".");
    Err(AudioError::new(ErrorKind::NotFound, message))
}

/// The failure to read the member `key` of a record.
pub open spec fn bad_field(key: Seq<char>) -> AudioErrorView {
    failure(ErrorKind::Parse, bad_field_message(key))
}

/// The text under `key` in `source`; a failure where that member is no
/// text.
pub open spec fn text_field(source: Json, key: Seq<char>) -> Result<Seq<char>, AudioErrorView> {
    match field(source, key) {
        Json::Text(text) => Ok(text),
        _ => Err(bad_field(key)),
    }
}

/// The boolean under `key` in `source`; a failure where that member is no
/// boolean.
pub open spec fn flag_field(source: Json, key: Seq<char>) -> Result<bool, AudioErrorView> {
    match field(source, key) {
        Json::Boolean(flag) => Ok(flag),
        _ => Err(bad_field(key)),
    }
}

/// The unsigned integer under `key` in `source`; a failure where that
/// member is no positive number without exponent.
pub open spec fn unsigned_field(source: Json, key: Seq<char>) -> Result<u64, AudioErrorView> {
    match field(source, key) {
        Json::Number(n) => if n.category == 1 && n.exponent == 0 {
            Ok(n.mantissa)
        } else {
            Err(bad_field(key))
        },
        _ => Err(bad_field(key)),
    }
}

/// The whole number that `n` stands for where it has no exponent: its
/// mantissa, negated unless `n` is positive.
pub open spec fn whole_value(n: JsonNumber) -> int {
    if n.category == 1 {
        n.mantissa as int
    } else {
        -(n.mantissa as int)
    }
}

/// The integer under `key` in `source`; a failure where that member is no
/// number without exponent, or the number does not fit.
pub open spec fn integer_field(source: Json, key: Seq<char>) -> Result<i64, AudioErrorView> {
    match field(source, key) {
        Json::Number(n) => if n.exponent == 0 && i64::MIN <= whole_value(n) <= i64::MAX {
            Ok(whole_value(n) as i64)
        } else {
            Err(bad_field(key))
        },
        _ => Err(bad_field(key)),
    }
}

/// The number that `value` is once the zeros at the end of its fraction are
/// taken off: the form in which a command carries it.
pub open spec fn canonical(value: Decimal) -> Decimal {
    match value {
        Decimal::NotANumber => Decimal::NotANumber,
        Decimal::Finite { positive, mantissa, exponent } => Decimal::Finite {
            positive,
            mantissa: trimmed(mantissa, exponent).0,
            exponent: trimmed(mantissa, exponent).1,
        },
    }
}

/// The number under `key` in `source`; a failure where that member is no
/// number.
pub open spec fn decimal_field(source: Json, key: Seq<char>) -> Result<Decimal, AudioErrorView> {
    match field(source, key) {
        Json::Number(n) => Ok(
            if n.category > 1 {
                Decimal::NotANumber
            } else {
                Decimal::Finite {
                    positive: n.category == 1,
                    mantissa: n.mantissa,
                    exponent: n.exponent,
                }
            },
        ),
        _ => Err(bad_field(key)),
    }
}

/// The timestamp under `key` in `source`, read under the format of the
/// snapshot; a failure where that member is no text or does not follow the
/// format. `which` names the timestamp in the message.
pub open spec fn time_field(source: Json, key: Seq<char>, which: Seq<char>) -> Result<
    Timestamp,
    AudioErrorView,
> {
    match field(source, key) {
        Json::Text(text) => match parsed_timestamp(text, TIME_FORMAT@) {
            Ok(stamp) => Ok(stamp),
            Err(detail) => Err(failure(ErrorKind::Parse, bad_time_message(which, detail))),
        },
        _ => Err(bad_field(key)),
    }
}

/// Makes the failure to read the member `key` of a record.
fn field_failure(key: &str) -> (error: AudioError)
    ensures
        error@ == bad_field(key@),
{
    let mut message = String::from_str("Error in reading ");
    message.append(key);
    message.append(" from the audio status.");
    AudioError::new(ErrorKind::Parse, message)
}

/// Reads the text under `key` in the record `source`.
pub fn read_text(source: &JsonValue, key: &str) -> (res: AudioResult<String>)
    ensures
        agrees_text(res, text_field(json_content(*source), key@)),
{
    match json_as_str(json_field(source, key)) {
        Some(text) => Ok(String::from_str(text)),
        None => Err(field_failure(key)),
    }
}

/// Reads the boolean under `key` in the record `source`.
pub fn read_flag(source: &JsonValue, key: &str) -> (res: AudioResult<bool>)
    ensures
        agrees(res, flag_field(json_content(*source), key@)),
{
    match json_as_bool(json_field(source, key)) {
        Some(flag) => Ok(flag),
        None => Err(field_failure(key)),
    }
}

/// Reads the unsigned integer under `key` in the record `source`.
pub fn read_unsigned(source: &JsonValue, key: &str) -> (res: AudioResult<u64>)
    ensures
        agrees(res, unsigned_field(json_content(*source), key@)),
{
    match json_as_u64(json_field(source, key)) {
        Some(number) => Ok(number),
        None => Err(field_failure(key)),
    }
}

/// Reads the integer under `key` in the record `source`.
pub fn read_integer(source: &JsonValue, key: &str) -> (res: AudioResult<i64>)
    ensures
        agrees(res, integer_field(json_content(*source), key@)),
{
    let member = json_field(source, key);
    match json_number_parts(member) {
        None => Err(field_failure(key)),
        Some(parts) => {
            let positive: bool = parts.1;
            let mantissa: u64 = parts.2;
            if parts.3 != 0 {
                Err(field_failure(key))
            } else if mantissa <= 0x7fff_ffff_ffff_ffff {
                match json_as_i64(member) {
                    Some(number) => Ok(number),
                    None => Err(field_failure(key)),
                }
            } else if !positive && mantissa == 0x8000_0000_0000_0000 {
                Ok(i64::MIN)
            } else {
                Err(field_failure(key))
            }
        },
    }
}

/// Reads the number under `key` in the record `source`.
pub fn read_decimal(source: &JsonValue, key: &str) -> (res: AudioResult<Decimal>)
    ensures
        agrees(res, decimal_field(json_content(*source), key@)),
{
    match json_number_parts(json_field(source, key)) {
        Some(parts) => if parts.0 {
            Ok(Decimal::NotANumber)
        } else {
            Ok(Decimal::Finite { positive: parts.1, mantissa: parts.2, exponent: parts.3 })
        },
        None => Err(field_failure(key)),
    }
}

/// Reads the timestamp under `key` in the record `source`. `which` names
/// the timestamp in the message of a failure.
pub fn read_time(source: &JsonValue, key: &str, which: &str) -> (res: AudioResult<Timestamp>)
    ensures
        agrees(res, time_field(json_content(*source), key@, which@)),
{
    match json_as_str(json_field(source, key)) {
        Some(text) => match parse_timestamp(text, TIME_FORMAT) {
            Ok(stamp) => Ok(stamp),
            Err(error) => {
                let detail = time_error_message(&error);
                let mut head = String::from_str("Error in parsing ");
                head.append(which);
                head.append(" time.");
                Err(detailed(ErrorKind::Parse, head.as_str(), detail.as_str()))
            },
        },
        None => Err(field_failure(key)),
    }
}

} // verus!
