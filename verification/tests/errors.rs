use replit_audio::{
    AudioError, AudioType, Decimal, ErrorKind, FileType, ToneType, AUDIO_STATUS_PATH,
    AUDIO_UPDATE_PATH, TIME_FORMAT,
};

#[test]
fn failure_keeps_its_kind_and_message() {
    let error = AudioError::new(ErrorKind::NotFound, "nothing here".to_string());
    assert_eq!(error.kind(), ErrorKind::NotFound);
    assert_eq!(error.description(), "nothing here");
    assert_eq!(error.to_string(), "nothing here");
    let error = AudioError::new(ErrorKind::Timeout, String::new());
    assert_eq!(error.kind(), ErrorKind::Timeout);
    assert_eq!(error.to_string(), "");
}

#[test]
fn failure_to_open_the_channel_is_an_io_failure() {
    let error = AudioError::open_failed("No such file or directory (os error 2)");
    assert_eq!(error.kind(), ErrorKind::Io);
    assert_eq!(
        error.to_string(),
        "Error in opening /tmp/audio. (No such file or directory (os error 2))"
    );
}

#[test]
fn failure_to_write_to_the_channel_is_an_io_failure() {
    let error = AudioError::write_failed("Broken pipe (os error 32)");
    assert_eq!(error.kind(), ErrorKind::Io);
    assert_eq!(error.to_string(), "Error in writing to /tmp/audio. (Broken pipe (os error 32))");
    let error = AudioError::write_failed("");
    assert_eq!(error.to_string(), "Error in writing to /tmp/audio. ()");
}

#[test]
fn kinds_of_failure_differ() {
    let kinds = [ErrorKind::Io, ErrorKind::Parse, ErrorKind::NotFound, ErrorKind::Timeout];
    for i in 0..kinds.len() {
        for j in 0..kinds.len() {
            assert_eq!(kinds[i] == kinds[j], i == j);
        }
    }
}

#[test]
fn paths_and_format_are_fixed() {
    assert_eq!(AUDIO_UPDATE_PATH, "/tmp/audio");
    assert_eq!(AUDIO_STATUS_PATH, "/tmp/audioStatus.json");
    assert_eq!(TIME_FORMAT, "%FT%T.%fZ");
}

#[test]
fn one_is_written_without_an_exponent() {
    assert_eq!(Decimal::one(), Decimal::Finite { positive: true, mantissa: 1, exponent: 0 });
    assert_ne!(Decimal::one(), Decimal::Finite { positive: true, mantissa: 10, exponent: -1 });
    assert_ne!(Decimal::one(), Decimal::NotANumber);
}

#[test]
fn copy_of_a_description_equals_it() {
    let file = AudioType::File { file: FileType::Aiff, path: "some/where.aiff".to_string() };
    assert_eq!(file.duplicate(), file);
    let tone = AudioType::Tone {
        tone: ToneType::Saw,
        pitch: Decimal::Finite { positive: true, mantissa: 220, exponent: 0 },
        duration: Decimal::Finite { positive: true, mantissa: 15, exponent: -1 },
    };
    assert_eq!(tone.duplicate(), tone);
    assert_ne!(tone.duplicate(), file);
}
