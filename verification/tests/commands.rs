use json::number::Number;
use replit_audio::{
    encode_create, encode_update, AudioBuilder, AudioType, AudioUpdate, Decimal, FileType,
    NameCounter, ToneType,
};

fn decimal(x: f64) -> Decimal {
    let n = Number::from(x);
    if n.is_nan() {
        Decimal::NotANumber
    } else {
        let (positive, mantissa, exponent) = n.as_parts();
        Decimal::Finite { positive, mantissa, exponent }
    }
}

fn tone() -> AudioType {
    AudioType::Tone { tone: ToneType::Square, pitch: decimal(440.0), duration: decimal(2.0) }
}

fn file() -> AudioType {
    AudioType::File { file: FileType::Wav, path: "audio.wav".to_string() }
}

#[test]
fn create_command_of_a_tone_is_exact() {
    let command = encode_create("rust_audio_0", &tone(), decimal(1.0), false, -1);
    assert_eq!(
        command,
        "{\"Name\":\"rust_audio_0\",\"Type\":\"tone\",\"Volume\":1,\"DoesLoop\":false,\
         \"LoopCount\":-1,\"Args\":{\"WaveType\":3,\"Pitch\":440,\"Seconds\":2}}"
    );
}

#[test]
fn create_command_of_a_file_is_exact() {
    let command = encode_create("rust_audio_7", &file(), decimal(0.5), true, 3);
    assert_eq!(
        command,
        "{\"Name\":\"rust_audio_7\",\"Type\":\"wav\",\"Volume\":0.5,\"DoesLoop\":true,\
         \"LoopCount\":3,\"Args\":{\"Path\":\"audio.wav\"}}"
    );
}

#[test]
fn create_command_names_each_file_format() {
    for (format, word) in [(FileType::Wav, "wav"), (FileType::Aiff, "aiff"), (FileType::Mp3, "mp3")] {
        let source = AudioType::File { file: format, path: "a".to_string() };
        let command = encode_create("n", &source, Decimal::one(), false, 0);
        let record = json::parse(&command).unwrap();
        assert_eq!(record["Type"], word);
        assert_eq!(format.as_str(), word);
        assert_eq!(source.as_str(), word);
    }
    assert_eq!(tone().as_str(), "tone");
}

#[test]
fn create_command_numbers_each_waveform() {
    let waves = [
        (ToneType::Sine, 0u8),
        (ToneType::Triangle, 1),
        (ToneType::Saw, 2),
        (ToneType::Square, 3),
    ];
    for (wave, code) in waves {
        let source = AudioType::Tone { tone: wave, pitch: decimal(1.0), duration: decimal(1.0) };
        let command = encode_create("n", &source, Decimal::one(), false, 0);
        let record = json::parse(&command).unwrap();
        assert_eq!(record["Args"]["WaveType"], code);
        assert_eq!(wave.code(), code);
    }
}

#[test]
fn create_command_matches_the_json_crate_on_floats() {
    for x in [1.0f64, 0.1, 440.0, 2.5, -3.75, 1e21, 1e-7, 0.0, 123456.789] {
        let source = AudioType::Tone { tone: ToneType::Sine, pitch: decimal(x), duration: decimal(x) };
        let command = encode_create("n", &source, decimal(x), false, 0);
        let record = json::parse(&command).unwrap();
        let direct = json::JsonValue::from(x).dump();
        assert_eq!(record["Volume"].dump(), direct);
        assert_eq!(record["Args"]["Pitch"].dump(), direct);
        assert_eq!(record["Args"]["Seconds"].dump(), direct);
        assert_eq!(record["Volume"].as_f64(), Some(x));
    }
}

#[test]
fn numbers_lose_the_zeros_at_the_end_of_a_fraction() {
    let padded = Decimal::Finite { positive: true, mantissa: 1500, exponent: -3 };
    let update = AudioUpdate { volume: padded, paused: false, does_loop: false, loop_count: 0 };
    assert_eq!(
        encode_update(1, &update),
        "{\"ID\":1,\"Volume\":1.5,\"Paused\":false,\"DoesLoop\":false,\"LoopCount\":0}"
    );
    let whole = Decimal::Finite { positive: true, mantissa: 1000, exponent: -3 };
    let update = AudioUpdate { volume: whole, paused: false, does_loop: false, loop_count: 0 };
    assert_eq!(
        encode_update(1, &update),
        "{\"ID\":1,\"Volume\":1,\"Paused\":false,\"DoesLoop\":false,\"LoopCount\":0}"
    );
}

#[test]
fn no_number_is_written_as_null() {
    let update =
        AudioUpdate { volume: decimal(f64::NAN), paused: true, does_loop: true, loop_count: 2 };
    assert_eq!(
        encode_update(9, &update),
        "{\"ID\":9,\"Volume\":null,\"Paused\":true,\"DoesLoop\":true,\"LoopCount\":2}"
    );
    assert_eq!(json::JsonValue::from(f64::NAN).dump(), "null");
    assert_eq!(decimal(f64::INFINITY), Decimal::NotANumber);
}

#[test]
fn update_command_is_exact() {
    let update =
        AudioUpdate { volume: decimal(0.1), paused: false, does_loop: false, loop_count: -1 };
    assert_eq!(
        encode_update(7, &update),
        "{\"ID\":7,\"Volume\":0.1,\"Paused\":false,\"DoesLoop\":false,\"LoopCount\":-1}"
    );
}

#[test]
fn update_command_holds_the_largest_identity_and_the_extreme_loop_counts() {
    let update =
        AudioUpdate { volume: Decimal::one(), paused: false, does_loop: true, loop_count: i64::MIN };
    assert_eq!(
        encode_update(u64::MAX, &update),
        "{\"ID\":18446744073709551615,\"Volume\":1,\"Paused\":false,\"DoesLoop\":true,\
         \"LoopCount\":-9223372036854775808}"
    );
    let update =
        AudioUpdate { volume: Decimal::one(), paused: false, does_loop: true, loop_count: i64::MAX };
    assert_eq!(
        encode_update(0, &update),
        "{\"ID\":0,\"Volume\":1,\"Paused\":false,\"DoesLoop\":true,\
         \"LoopCount\":9223372036854775807}"
    );
}

#[test]
fn texts_are_escaped_in_commands() {
    let source = AudioType::File { file: FileType::Mp3, path: "a \"b\"\\c\n.mp3".to_string() };
    let command = encode_create("my \"name\"", &source, Decimal::one(), false, -1);
    let record = json::parse(&command).unwrap();
    assert_eq!(record["Name"], "my \"name\"");
    assert_eq!(record["Args"]["Path"], "a \"b\"\\c\n.mp3");
    assert!(command.starts_with("{\"Name\":\"my \\\"name\\\"\","));
}

#[test]
fn builder_defaults_are_full_volume_and_no_loop() {
    let mut names = NameCounter::new();
    let pending = AudioBuilder::new(&tone()).build(&mut names);
    assert_eq!(pending.name(), "rust_audio_0");
    assert_eq!(pending.get_type(), tone());
    assert_eq!(
        pending.command(),
        "{\"Name\":\"rust_audio_0\",\"Type\":\"tone\",\"Volume\":1,\"DoesLoop\":false,\
         \"LoopCount\":-1,\"Args\":{\"WaveType\":3,\"Pitch\":440,\"Seconds\":2}}"
    );
}

#[test]
fn builder_settings_reach_the_command() {
    let mut names = NameCounter::new();
    let pending = AudioBuilder::new(&file())
        .volume(decimal(0.25))
        .does_loop(true)
        .loop_count(5)
        .build(&mut names);
    assert_eq!(
        pending.command(),
        "{\"Name\":\"rust_audio_0\",\"Type\":\"wav\",\"Volume\":0.25,\"DoesLoop\":true,\
         \"LoopCount\":5,\"Args\":{\"Path\":\"audio.wav\"}}"
    );
    assert_eq!(pending.get_type(), file());
}

#[test]
fn builder_with_a_set_name_leaves_the_counter_alone() {
    let mut names = NameCounter::new();
    let builder = AudioBuilder::new(&file()).name("intro");
    let first = builder.build(&mut names);
    let second = builder.build(&mut names);
    assert_eq!(first.name(), "intro");
    assert_eq!(second.name(), "intro");
    assert_eq!(names.issue(), "rust_audio_0");
}

#[test]
fn builder_builds_again_under_a_fresh_name() {
    let mut names = NameCounter::new();
    let builder = AudioBuilder::new(&tone());
    let first = builder.build(&mut names);
    let second = builder.build(&mut names);
    assert_eq!(first.name(), "rust_audio_0");
    assert_eq!(second.name(), "rust_audio_1");
    assert_ne!(first.command(), second.command());
}
