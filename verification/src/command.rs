//! The commands that travel to the service: one record to create a source,
//! one to update it, each written as compact JSON text.

use crate::document::{
    dumped_json, field, has_key, json_boolean, json_content, json_dump, json_insert, json_number,
    json_object, json_text, lemma_lookup_push, number_doc, Json,
};
use crate::source::{AudioType, Decimal};
use vstd::prelude::*;

verus! {

/// New settings for a source that is playing.
#[derive(Debug, Clone, Copy)]
pub struct AudioUpdate {
    pub volume: Decimal,
    pub paused: bool,
    pub does_loop: bool,
    /// Use a negative loop count to indicate an infinite loop.
    pub loop_count: i64,
}

/// The sign, mantissa and exponent that write `value`, if it is a number.
pub open spec fn decimal_parts(value: Decimal) -> Option<(bool, u64, i16)> {
    match value {
        Decimal::NotANumber => None,
        Decimal::Finite { positive, mantissa, exponent } => Some((positive, mantissa, exponent)),
    }
}

/// The sign, mantissa and exponent that write the integer `n`.
pub open spec fn integer_parts(n: i64) -> Option<(bool, u64, i16)> {
    Some((n >= 0, (if n >= 0 { n as int } else { -(n as int) }) as u64, 0i16))
}

/// The sign, mantissa and exponent that write the unsigned integer `n`.
pub open spec fn unsigned_parts(n: u64) -> Option<(bool, u64, i16)> {
    Some((true, n, 0i16))
}

/// The part of a create record that depends on the kind of source: the
/// path of a file; or the waveform, pitch and length of a tone.
pub open spec fn args_record(audio_type: AudioType) -> Json {
    match audio_type {
        AudioType::File { path, .. } => Json::Object(seq![("Path"@, Json::Text(path@))]),
        AudioType::Tone { tone, pitch, duration } => Json::Object(
            seq![
                ("WaveType"@, number_doc(unsigned_parts(tone.spec_code() as u64))),
                ("Pitch"@, number_doc(decimal_parts(pitch))),
                ("Seconds"@, number_doc(decimal_parts(duration))),
            ],
        ),
    }
}

/// The record that asks the service to play a new source.
pub open spec fn create_record(
    name: Seq<char>,
    audio_type: AudioType,
    volume: Decimal,
    does_loop: bool,
    loop_count: i64,
) -> Json {
    Json::Object(
        seq![
            ("Name"@, Json::Text(name)),
            ("Type"@, Json::Text(audio_type.word())),
            ("Volume"@, number_doc(decimal_parts(volume))),
            ("DoesLoop"@, Json::Boolean(does_loop)),
            ("LoopCount"@, number_doc(integer_parts(loop_count))),
            ("Args"@, args_record(audio_type)),
        ],
    )
}

/// The record that asks the service to change the source `id`.
pub open spec fn update_record(id: u64, update: AudioUpdate) -> Json {
    Json::Object(
        seq![
            ("ID"@, number_doc(unsigned_parts(id))),
            ("Volume"@, number_doc(decimal_parts(update.volume))),
            ("Paused"@, Json::Boolean(update.paused)),
            ("DoesLoop"@, Json::Boolean(update.does_loop)),
            ("LoopCount"@, number_doc(integer_parts(update.loop_count))),
        ],
    )
}

/// The create command: the create record as compact JSON text.
pub open spec fn create_command(
    name: Seq<char>,
    audio_type: AudioType,
    volume: Decimal,
    does_loop: bool,
    loop_count: i64,
) -> Seq<char> {
    dumped_json(create_record(name, audio_type, volume, does_loop, loop_count))
}

/// The update command: the update record as compact JSON text.
pub open spec fn update_command(id: u64, update: AudioUpdate) -> Seq<char> {
    dumped_json(update_record(id, update))
}

/// The member `key` of an update record: the value of the entry with that
/// key, and null where no entry has it.
proof fn lemma_update_record_member(id: u64, update: AudioUpdate, key: Seq<char>)
    ensures
        field(update_record(id, update), key) == if key == "LoopCount"@ {
            number_doc(integer_parts(update.loop_count))
        } else if key == "DoesLoop"@ {
            Json::Boolean(update.does_loop)
        } else if key == "Paused"@ {
            Json::Boolean(update.paused)
        } else if key == "Volume"@ {
            number_doc(decimal_parts(update.volume))
        } else if key == "ID"@ {
            number_doc(unsigned_parts(id))
        } else {
            Json::Null
        },
{
    let v1 = number_doc(unsigned_parts(id));
    let v2 = number_doc(decimal_parts(update.volume));
    let v3 = Json::Boolean(update.paused);
    let v4 = Json::Boolean(update.does_loop);
    let v5 = number_doc(integer_parts(update.loop_count));
    let e0 = Seq::<(Seq<char>, Json)>::empty();
    let e1 = e0.push(("ID"@, v1));
    let e2 = e1.push(("Volume"@, v2));
    let e3 = e2.push(("Paused"@, v3));
    let e4 = e3.push(("DoesLoop"@, v4));
    let e5 = e4.push(("LoopCount"@, v5));
    assert(e5 =~= seq![
        ("ID"@, v1),
        ("Volume"@, v2),
        ("Paused"@, v3),
        ("DoesLoop"@, v4),
        ("LoopCount"@, v5),
    ]);
    lemma_lookup_push(e0, "ID"@, v1, key);
    lemma_lookup_push(e1, "Volume"@, v2, key);
    lemma_lookup_push(e2, "Paused"@, v3, key);
    lemma_lookup_push(e3, "DoesLoop"@, v4, key);
    lemma_lookup_push(e4, "LoopCount"@, v5, key);
}

/// An update record addresses its source by identity and carries each
/// setting of the update under the key by which the service knows it.
pub proof fn lemma_update_record_fields(id: u64, update: AudioUpdate)
    ensures
        field(update_record(id, update), "ID"@) == number_doc(unsigned_parts(id)),
        field(update_record(id, update), "Volume"@) == number_doc(decimal_parts(update.volume)),
        field(update_record(id, update), "Paused"@) == Json::Boolean(update.paused),
        field(update_record(id, update), "DoesLoop"@) == Json::Boolean(update.does_loop),
        field(update_record(id, update), "LoopCount"@) == number_doc(
            integer_parts(update.loop_count),
        ),
{
    lemma_keys_differ();
    lemma_update_record_member(id, update, "ID"@);
    lemma_update_record_member(id, update, "Volume"@);
    lemma_update_record_member(id, update, "Paused"@);
    lemma_update_record_member(id, update, "DoesLoop"@);
    lemma_update_record_member(id, update, "LoopCount"@);
}

/// The member `key` of a create record: the value of the entry with that
/// key, and null where no entry has it.
proof fn lemma_create_record_member(
    name: Seq<char>,
    audio_type: AudioType,
    volume: Decimal,
    does_loop: bool,
    loop_count: i64,
    key: Seq<char>,
)
    ensures
        field(create_record(name, audio_type, volume, does_loop, loop_count), key) == if key
            == "Args"@ {
            args_record(audio_type)
        } else if key == "LoopCount"@ {
            number_doc(integer_parts(loop_count))
        } else if key == "DoesLoop"@ {
            Json::Boolean(does_loop)
        } else if key == "Volume"@ {
            number_doc(decimal_parts(volume))
        } else if key == "Type"@ {
            Json::Text(audio_type.word())
        } else if key == "Name"@ {
            Json::Text(name)
        } else {
            Json::Null
        },
{
    let v1 = Json::Text(name);
    let v2 = Json::Text(audio_type.word());
    let v3 = number_doc(decimal_parts(volume));
    let v4 = Json::Boolean(does_loop);
    let v5 = number_doc(integer_parts(loop_count));
    let v6 = args_record(audio_type);
    let e0 = Seq::<(Seq<char>, Json)>::empty();
    let e1 = e0.push(("Name"@, v1));
    let e2 = e1.push(("Type"@, v2));
    let e3 = e2.push(("Volume"@, v3));
    let e4 = e3.push(("DoesLoop"@, v4));
    let e5 = e4.push(("LoopCount"@, v5));
    let e6 = e5.push(("Args"@, v6));
    assert(e6 =~= seq![
        ("Name"@, v1),
        ("Type"@, v2),
        ("Volume"@, v3),
        ("DoesLoop"@, v4),
        ("LoopCount"@, v5),
        ("Args"@, v6),
    ]);
    lemma_lookup_push(e0, "Name"@, v1, key);
    lemma_lookup_push(e1, "Type"@, v2, key);
    lemma_lookup_push(e2, "Volume"@, v3, key);
    lemma_lookup_push(e3, "DoesLoop"@, v4, key);
    lemma_lookup_push(e4, "LoopCount"@, v5, key);
    lemma_lookup_push(e5, "Args"@, v6, key);
}

/// A create record carries the provisional name, the word for the kind of
/// source, and each setting under the key by which the service knows it.
pub proof fn lemma_create_record_fields(
    name: Seq<char>,
    audio_type: AudioType,
    volume: Decimal,
    does_loop: bool,
    loop_count: i64,
)
    ensures
        ({
            let record = create_record(name, audio_type, volume, does_loop, loop_count);
            &&& field(record, "Name"@) == Json::Text(name)
            &&& field(record, "Type"@) == Json::Text(audio_type.word())
            &&& field(record, "Volume"@) == number_doc(decimal_parts(volume))
            &&& field(record, "DoesLoop"@) == Json::Boolean(does_loop)
            &&& field(record, "LoopCount"@) == number_doc(integer_parts(loop_count))
            &&& field(record, "Args"@) == args_record(audio_type)
        }),
{
    lemma_keys_differ();
    lemma_create_record_member(name, audio_type, volume, does_loop, loop_count, "Name"@);
    lemma_create_record_member(name, audio_type, volume, does_loop, loop_count, "Type"@);
    lemma_create_record_member(name, audio_type, volume, does_loop, loop_count, "Volume"@);
    lemma_create_record_member(name, audio_type, volume, does_loop, loop_count, "DoesLoop"@);
    lemma_create_record_member(name, audio_type, volume, does_loop, loop_count, "LoopCount"@);
    lemma_create_record_member(name, audio_type, volume, does_loop, loop_count, "Args"@);
}

/// Two texts differ if their lengths differ or their first characters do.
proof fn lemma_texts_differ(a: Seq<char>, b: Seq<char>)
    requires
        a.len() != b.len() || (a.len() > 0 && b.len() > 0 && a[0] != b[0]),
    ensures
        a != b,
{
}

/// The keys of a record differ from one another.
proof fn lemma_keys_differ()
    ensures
        "Name"@ != "Type"@,
        "Name"@ != "Volume"@,
        "Name"@ != "DoesLoop"@,
        "Name"@ != "LoopCount"@,
        "Name"@ != "Args"@,
        "Type"@ != "Volume"@,
        "Type"@ != "DoesLoop"@,
        "Type"@ != "LoopCount"@,
        "Type"@ != "Args"@,
        "Volume"@ != "DoesLoop"@,
        "Volume"@ != "LoopCount"@,
        "Volume"@ != "Args"@,
        "DoesLoop"@ != "LoopCount"@,
        "DoesLoop"@ != "Args"@,
        "LoopCount"@ != "Args"@,
        "ID"@ != "Volume"@,
        "ID"@ != "Paused"@,
        "ID"@ != "DoesLoop"@,
        "ID"@ != "LoopCount"@,
        "Volume"@ != "Paused"@,
        "Paused"@ != "DoesLoop"@,
        "Paused"@ != "LoopCount"@,
        "WaveType"@ != "Pitch"@,
        "WaveType"@ != "Seconds"@,
        "Pitch"@ != "Seconds"@,
{
    reveal_strlit("Name");
    reveal_strlit("Type");
    reveal_strlit("Volume");
    reveal_strlit("DoesLoop");
    reveal_strlit("LoopCount");
    reveal_strlit("Args");
    reveal_strlit("ID");
    reveal_strlit("Paused");
    reveal_strlit("WaveType");
    reveal_strlit("Pitch");
    reveal_strlit("Seconds");
    lemma_texts_differ("Name"@, "Type"@);
    lemma_texts_differ("Name"@, "Volume"@);
    lemma_texts_differ("Name"@, "DoesLoop"@);
    lemma_texts_differ("Name"@, "LoopCount"@);
    lemma_texts_differ("Name"@, "Args"@);
    lemma_texts_differ("Type"@, "Volume"@);
    lemma_texts_differ("Type"@, "DoesLoop"@);
    lemma_texts_differ("Type"@, "LoopCount"@);
    lemma_texts_differ("Type"@, "Args"@);
    lemma_texts_differ("Volume"@, "DoesLoop"@);
    lemma_texts_differ("Volume"@, "LoopCount"@);
    lemma_texts_differ("Volume"@, "Args"@);
    lemma_texts_differ("DoesLoop"@, "LoopCount"@);
    lemma_texts_differ("DoesLoop"@, "Args"@);
    lemma_texts_differ("LoopCount"@, "Args"@);
    lemma_texts_differ("ID"@, "Volume"@);
    lemma_texts_differ("ID"@, "Paused"@);
    lemma_texts_differ("ID"@, "DoesLoop"@);
    lemma_texts_differ("ID"@, "LoopCount"@);
    lemma_texts_differ("Volume"@, "Paused"@);
    lemma_texts_differ("Paused"@, "DoesLoop"@);
    lemma_texts_differ("Paused"@, "LoopCount"@);
    lemma_texts_differ("WaveType"@, "Pitch"@);
    lemma_texts_differ("WaveType"@, "Seconds"@);
    lemma_texts_differ("Pitch"@, "Seconds"@);
}

/// An object that has the entries of `entries` and one more has the key
/// `key` only if `entries` has it or the new entry does.
proof fn lemma_fresh_key(
    entries: Seq<(Seq<char>, Json)>,
    added: Seq<char>,
    value: Json,
    key: Seq<char>,
)
    requires
        !has_key(entries, key),
        added != key,
    ensures
        !has_key(entries.push((added, value)), key),
{
    let longer = entries.push((added, value));
    if has_key(longer, key) {
        let i = choose|i: int| 0 <= i < longer.len() && (#[trigger] longer[i]).0 == key;
        assert(i < entries.len() ==> entries[i].0 == key);
    }
}

/// The number document for `value`.
fn decimal_value(value: Decimal) -> (doc: json::JsonValue)
    ensures
        json_content(doc) == number_doc(decimal_parts(value)),
{
    match value {
        Decimal::NotANumber => json_number(None),
        Decimal::Finite { positive, mantissa, exponent } => json_number(
            Some((positive, mantissa, exponent)),
        ),
    }
}

/// The number document for the integer `n`.
fn integer_value(n: i64) -> (doc: json::JsonValue)
    ensures
        json_content(doc) == number_doc(integer_parts(n)),
{
    if n >= 0 {
        json_number(Some((true, n as u64, 0)))
    } else {
        let magnitude: u64 = (-(n + 1)) as u64 + 1;
        json_number(Some((false, magnitude, 0)))
    }
}

/// Builds the part of a create record that depends on the kind of source.
fn build_args(audio_type: &AudioType) -> (doc: json::JsonValue)
    ensures
        json_content(doc) == args_record(*audio_type),
{
    let mut args = json_object();
    let ghost e0 = Seq::<(Seq<char>, Json)>::empty();
    match audio_type {
        AudioType::File { path, .. } => {
            json_insert(&mut args, "Path", json_text(path.as_str()));
        },
        AudioType::Tone { tone, pitch, duration } => {
            let ghost v1 = number_doc(unsigned_parts(tone.spec_code() as u64));
            let ghost v2 = number_doc(decimal_parts(*pitch));
            let ghost v3 = number_doc(decimal_parts(*duration));
            let ghost e1 = e0.push(("WaveType"@, v1));
            let ghost e2 = e1.push(("Pitch"@, v2));
            proof {
                lemma_keys_differ();
                lemma_fresh_key(e0, "WaveType"@, v1, "Pitch"@);
                lemma_fresh_key(e0, "WaveType"@, v1, "Seconds"@);
                lemma_fresh_key(e1, "Pitch"@, v2, "Seconds"@);
            }
            json_insert(&mut args, "WaveType", json_number(Some((true, tone.code() as u64, 0))));
            json_insert(&mut args, "Pitch", decimal_value(*pitch));
            json_insert(&mut args, "Seconds", decimal_value(*duration));
            assert(e2.push(("Seconds"@, v3)) =~= seq![
                ("WaveType"@, v1),
                ("Pitch"@, v2),
                ("Seconds"@, v3),
            ]);
        },
    }
    args
}

/// Builds the record that asks the service to play a new source.
fn build_create_record(
    name: &str,
    audio_type: &AudioType,
    volume: Decimal,
    does_loop: bool,
    loop_count: i64,
) -> (doc: json::JsonValue)
    ensures
        json_content(doc) == create_record(name@, *audio_type, volume, does_loop, loop_count),
{
    let ghost e0 = Seq::<(Seq<char>, Json)>::empty();
    let ghost v1 = Json::Text(name@);
    let ghost v2 = Json::Text(audio_type.word());
    let ghost v3 = number_doc(decimal_parts(volume));
    let ghost v4 = Json::Boolean(does_loop);
    let ghost v5 = number_doc(integer_parts(loop_count));
    let ghost v6 = args_record(*audio_type);
    let ghost e1 = e0.push(("Name"@, v1));
    let ghost e2 = e1.push(("Type"@, v2));
    let ghost e3 = e2.push(("Volume"@, v3));
    let ghost e4 = e3.push(("DoesLoop"@, v4));
    let ghost e5 = e4.push(("LoopCount"@, v5));
    proof {
        lemma_keys_differ();
        lemma_fresh_key(e0, "Name"@, v1, "Type"@);
        lemma_fresh_key(e0, "Name"@, v1, "Volume"@);
        lemma_fresh_key(e0, "Name"@, v1, "DoesLoop"@);
        lemma_fresh_key(e0, "Name"@, v1, "LoopCount"@);
        lemma_fresh_key(e0, "Name"@, v1, "Args"@);
        lemma_fresh_key(e1, "Type"@, v2, "Volume"@);
        lemma_fresh_key(e1, "Type"@, v2, "DoesLoop"@);
        lemma_fresh_key(e1, "Type"@, v2, "LoopCount"@);
        lemma_fresh_key(e1, "Type"@, v2, "Args"@);
        lemma_fresh_key(e2, "Volume"@, v3, "DoesLoop"@);
        lemma_fresh_key(e2, "Volume"@, v3, "LoopCount"@);
        lemma_fresh_key(e2, "Volume"@, v3, "Args"@);
        lemma_fresh_key(e3, "DoesLoop"@, v4, "LoopCount"@);
        lemma_fresh_key(e3, "DoesLoop"@, v4, "Args"@);
        lemma_fresh_key(e4, "LoopCount"@, v5, "Args"@);
    }
    let mut record = json_object();
    json_insert(&mut record, "Name", json_text(name));
    json_insert(&mut record, "Type", json_text(audio_type.as_str()));
    json_insert(&mut record, "Volume", decimal_value(volume));
    json_insert(&mut record, "DoesLoop", json_boolean(does_loop));
    json_insert(&mut record, "LoopCount", integer_value(loop_count));
    json_insert(&mut record, "Args", build_args(audio_type));
    assert(e5.push(("Args"@, v6)) =~= seq![
        ("Name"@, v1),
        ("Type"@, v2),
        ("Volume"@, v3),
        ("DoesLoop"@, v4),
        ("LoopCount"@, v5),
        ("Args"@, v6),
    ]);
    record
}

/// Builds the record that asks the service to change the source `id`.
fn build_update_record(id: u64, update: &AudioUpdate) -> (doc: json::JsonValue)
    ensures
        json_content(doc) == update_record(id, *update),
{
    let ghost e0 = Seq::<(Seq<char>, Json)>::empty();
    let ghost v1 = number_doc(unsigned_parts(id));
    let ghost v2 = number_doc(decimal_parts(update.volume));
    let ghost v3 = Json::Boolean(update.paused);
    let ghost v4 = Json::Boolean(update.does_loop);
    let ghost v5 = number_doc(integer_parts(update.loop_count));
    let ghost e1 = e0.push(("ID"@, v1));
    let ghost e2 = e1.push(("Volume"@, v2));
    let ghost e3 = e2.push(("Paused"@, v3));
    let ghost e4 = e3.push(("DoesLoop"@, v4));
    proof {
        lemma_keys_differ();
        lemma_fresh_key(e0, "ID"@, v1, "Volume"@);
        lemma_fresh_key(e0, "ID"@, v1, "Paused"@);
        lemma_fresh_key(e0, "ID"@, v1, "DoesLoop"@);
        lemma_fresh_key(e0, "ID"@, v1, "LoopCount"@);
        lemma_fresh_key(e1, "Volume"@, v2, "Paused"@);
        lemma_fresh_key(e1, "Volume"@, v2, "DoesLoop"@);
        lemma_fresh_key(e1, "Volume"@, v2, "LoopCount"@);
        lemma_fresh_key(e2, "Paused"@, v3, "DoesLoop"@);
        lemma_fresh_key(e2, "Paused"@, v3, "LoopCount"@);
        lemma_fresh_key(e3, "DoesLoop"@, v4, "LoopCount"@);
    }
    let mut record = json_object();
    json_insert(&mut record, "ID", json_number(Some((true, id, 0))));
    json_insert(&mut record, "Volume", decimal_value(update.volume));
    json_insert(&mut record, "Paused", json_boolean(update.paused));
    json_insert(&mut record, "DoesLoop", json_boolean(update.does_loop));
    json_insert(&mut record, "LoopCount", integer_value(update.loop_count));
    assert(e4.push(("LoopCount"@, v5)) =~= seq![
        ("ID"@, v1),
        ("Volume"@, v2),
        ("Paused"@, v3),
        ("DoesLoop"@, v4),
        ("LoopCount"@, v5),
    ]);
    record
}

/// Writes the command that asks the service to play a new source under the
/// provisional name `name`.
pub fn encode_create(
    name: &str,
    audio_type: &AudioType,
    volume: Decimal,
    does_loop: bool,
    loop_count: i64,
) -> (command: String)
    ensures
        command@ == create_command(name@, *audio_type, volume, does_loop, loop_count),
{
    let record = build_create_record(name, audio_type, volume, does_loop, loop_count);
    json_dump(&record)
}

/// Writes the command that asks the service to change the source `id`.
pub fn encode_update(id: u64, update: &AudioUpdate) -> (command: String)
    ensures
        command@ == update_command(id, *update),
{
    let record = build_update_record(id, update);
    json_dump(&record)
}

} // verus!
