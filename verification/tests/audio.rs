use json::number::Number;
use replit_audio::{
    is_disabled, is_running, Audio, AudioBuilder, AudioType, AudioUpdate, Decimal, ErrorKind,
    FileType, NameCounter, PendingAudio, PollAction, PollEvent, Timestamp, ToneType,
    CONFIRM_TIMEOUT_NANOS,
};

fn decimal(x: f64) -> Decimal {
    let n = Number::from(x);
    if n.is_nan() {
        Decimal::NotANumber
    } else {
        let (positive, mantissa, exponent) = n.as_parts();
        Decimal::Finite { positive, mantissa, exponent }
    }
}

fn float(d: Decimal) -> f64 {
    match d {
        Decimal::NotANumber => f64::NAN,
        Decimal::Finite { positive, mantissa, exponent } => {
            f64::from(Number::from_parts(positive, mantissa, exponent))
        }
    }
}

fn contents(text: &str) -> Result<String, String> {
    Ok(text.to_string())
}

const TONE_PLAYING: &str = "{\"Sources\":[{\"Name\":\"rust_audio_0\",\"Type\":\"tone\",\
    \"Volume\":1,\"Duration\":2000,\"Remaining\":1987,\"Paused\":false,\"Loop\":0,\"ID\":1,\
    \"EndTime\":\"2020-05-21T18:02:13.000000255Z\",\
    \"StartTime\":\"2020-05-21T18:02:11.000000255Z\"}],\"Running\":true,\"Disabled\":false}";

const FILE_PLAYING: &str = "{\"Sources\":[{\"Name\":\"rust_audio_0\",\"Type\":\"wav\",\
    \"Volume\":1,\"Duration\":30000,\"Remaining\":29000,\"Paused\":false,\"Loop\":-1,\"ID\":4,\
    \"EndTime\":\"2020-05-21T18:02:43.5Z\",\
    \"StartTime\":\"2020-05-21T18:02:13.5Z\"}],\"Running\":true,\"Disabled\":false}";

const NOTHING_PLAYING: &str = "{\"Sources\":[],\"Running\":false,\"Disabled\":false}";

fn tone() -> AudioType {
    AudioType::Tone { tone: ToneType::Square, pitch: decimal(440.0), duration: decimal(2.0) }
}

fn file() -> AudioType {
    AudioType::File { file: FileType::Wav, path: "audio.wav".to_string() }
}

fn pending(source: &AudioType) -> PendingAudio {
    let mut names = NameCounter::new();
    AudioBuilder::new(source).build(&mut names)
}

fn confirmed(source: &AudioType, snapshot: &str) -> Audio {
    match pending(source).step(&PollEvent::Snapshot(contents(snapshot))) {
        PollAction::Done(audio) => audio,
        other => panic!("not confirmed: {:?}", other),
    }
}

/// Runs the handshake as a caller does: `snapshots` are what the status
/// file holds at each reading, `clock` what the clock says before each.
fn run(waiting: &PendingAudio, clock: &[u128], snapshots: &[Result<String, String>]) -> PollAction {
    let mut reads = 0;
    let mut ticks = 0;
    let mut action = waiting.first_action();
    loop {
        action = match action {
            PollAction::CheckClock => {
                ticks += 1;
                waiting.step(&PollEvent::Clock(clock[ticks - 1]))
            }
            PollAction::ReadSnapshot => {
                reads += 1;
                waiting.step(&PollEvent::Snapshot(snapshots[reads - 1].clone()))
            }
            done => return done,
        };
    }
}

#[test]
fn tone_is_played_and_reported() {
    let waiting = pending(&tone());
    assert_eq!(
        waiting.command(),
        "{\"Name\":\"rust_audio_0\",\"Type\":\"tone\",\"Volume\":1,\"DoesLoop\":false,\
         \"LoopCount\":-1,\"Args\":{\"WaveType\":3,\"Pitch\":440,\"Seconds\":2}}"
    );
    let snapshots = [Err("not there".to_string()), contents(NOTHING_PLAYING), contents(TONE_PLAYING)];
    let mut audio = match run(&waiting, &[10, 20_000, 1_999_999_999], &snapshots) {
        PollAction::Done(audio) => audio,
        other => panic!("not confirmed: {:?}", other),
    };
    let read = contents(TONE_PLAYING);
    assert_eq!(audio.get_id(), 1);
    assert_eq!(audio.get_type(), tone());
    assert_eq!(audio.get_name(&read).unwrap(), "rust_audio_0");
    assert_eq!(float(audio.get_volume(&read).unwrap()), 1.0);
    assert_eq!(audio.get_loop(&read).unwrap(), 0);
    assert_eq!(audio.get_duration(&read).unwrap(), 2000);
    assert_eq!(audio.get_remaining(&read).unwrap(), 1987);
    assert_eq!(audio.is_paused(&read).unwrap(), false);
    assert_eq!(
        audio.get_start_time(&read).unwrap(),
        Timestamp { year: 2020, month: 5, day: 21, hour: 18, minute: 2, second: 11, nanosecond: 255 }
    );
    assert_eq!(
        audio.get_end_time(&read).unwrap(),
        Timestamp { year: 2020, month: 5, day: 21, hour: 18, minute: 2, second: 13, nanosecond: 255 }
    );
    assert_eq!(is_disabled(&read).unwrap(), false);
    assert_eq!(is_running(&read).unwrap(), true);

    let update =
        AudioUpdate { volume: decimal(0.1), paused: false, does_loop: false, loop_count: -1 };
    assert_eq!(
        audio.update(&update),
        "{\"ID\":1,\"Volume\":0.1,\"Paused\":false,\"DoesLoop\":false,\"LoopCount\":-1}"
    );
    assert_eq!(audio.get_id(), 1);
    assert_eq!(audio.get_type(), tone());
}

#[test]
fn looping_file_is_played_and_reported() {
    let mut names = NameCounter::new();
    let waiting = AudioBuilder::new(&file())
        .volume(decimal(1.0))
        .does_loop(true)
        .loop_count(-1)
        .build(&mut names);
    assert_eq!(
        waiting.command(),
        "{\"Name\":\"rust_audio_0\",\"Type\":\"wav\",\"Volume\":1,\"DoesLoop\":true,\
         \"LoopCount\":-1,\"Args\":{\"Path\":\"audio.wav\"}}"
    );
    let audio = match run(&waiting, &[0], &[contents(FILE_PLAYING)]) {
        PollAction::Done(audio) => audio,
        other => panic!("not confirmed: {:?}", other),
    };
    let read = contents(FILE_PLAYING);
    assert_eq!(audio.get_id(), 4);
    assert_eq!(audio.get_type(), file());
    assert_eq!(float(audio.get_volume(&read).unwrap()), 1.0);
    assert_eq!(audio.get_loop(&read).unwrap(), -1);
    assert_eq!(audio.get_duration(&read).unwrap(), 30000);
    assert_eq!(audio.get_remaining(&read).unwrap(), 29000);
    assert_eq!(audio.is_paused(&read).unwrap(), false);
    assert_eq!(audio.get_start_time(&read).unwrap().second, 13);
    assert_eq!(audio.get_end_time(&read).unwrap().second, 43);
    assert_eq!(is_disabled(&read).unwrap(), false);
    assert_eq!(is_running(&read).unwrap(), true);
}

#[test]
fn wait_starts_at_the_clock() {
    assert!(matches!(pending(&tone()).first_action(), PollAction::CheckClock));
    assert!(matches!(pending(&file()).first_action(), PollAction::CheckClock));
}

#[test]
fn wait_reads_the_snapshot_until_the_timeout() {
    let waiting = pending(&tone());
    assert!(matches!(waiting.step(&PollEvent::Clock(0)), PollAction::ReadSnapshot));
    assert!(matches!(
        waiting.step(&PollEvent::Clock(CONFIRM_TIMEOUT_NANOS)),
        PollAction::ReadSnapshot
    ));
    assert_eq!(CONFIRM_TIMEOUT_NANOS, 2_000_000_000);
    match waiting.step(&PollEvent::Clock(CONFIRM_TIMEOUT_NANOS + 1)) {
        PollAction::GiveUp(error) => {
            assert_eq!(error.kind(), ErrorKind::Timeout);
            assert_eq!(
                error.to_string(),
                "Timed out while waiting for /tmp/audioStatus.json to update."
            );
        }
        other => panic!("still waiting: {:?}", other),
    }
    assert!(matches!(waiting.step(&PollEvent::Clock(u128::MAX)), PollAction::GiveUp(_)));
}

#[test]
fn wait_goes_back_to_the_clock_while_the_source_is_not_listed() {
    let waiting = pending(&tone());
    let not_yet = [
        Err("No such file or directory (os error 2)".to_string()),
        contents(""),
        contents("{\"Sources\":[{\"Name\":\"rust_au"),
        contents(NOTHING_PLAYING),
        contents("{\"Sources\":[{\"Name\":\"rust_audio_1\",\"ID\":1}]}"),
        contents("{\"Sources\":[{\"Name\":\"rust_audio_0\"}]}"),
        contents("{\"Sources\":[{\"Name\":\"rust_audio_0\",\"ID\":-1}]}"),
        contents("{\"Sources\":[{\"Name\":\"rust_audio_0\",\"ID\":\"1\"}]}"),
    ];
    for read in not_yet {
        assert!(matches!(waiting.step(&PollEvent::Snapshot(read)), PollAction::CheckClock));
    }
}

#[test]
fn wait_times_out_when_the_source_never_shows() {
    let waiting = pending(&file());
    let snapshots = [contents(NOTHING_PLAYING), contents(NOTHING_PLAYING), contents(FILE_PLAYING)];
    match run(&waiting, &[5, 1_000_000_000, 2_000_000_001], &snapshots) {
        PollAction::GiveUp(error) => assert_eq!(error.kind(), ErrorKind::Timeout),
        other => panic!("no timeout: {:?}", other),
    }
}

#[test]
fn wait_ends_with_the_first_record_of_the_name() {
    let text = "{\"Sources\":[{\"Name\":\"other\",\"ID\":3},{\"Name\":\"intro\",\"ID\":8},\
                {\"Name\":\"intro\",\"ID\":9}]}";
    let mut names = NameCounter::new();
    let waiting = AudioBuilder::new(&file()).name("intro").build(&mut names);
    match waiting.step(&PollEvent::Snapshot(contents(text))) {
        PollAction::Done(audio) => {
            assert_eq!(audio.get_id(), 8);
            assert_eq!(audio.get_type(), file());
            assert_eq!(audio.get_name(&contents(text)).unwrap(), "intro");
        }
        other => panic!("not confirmed: {:?}", other),
    }
    assert_eq!(waiting.lookup(&contents(text)), Some(8));
    assert_eq!(waiting.lookup(&contents(NOTHING_PLAYING)), None);
}

#[test]
fn source_under_a_name_of_digits_is_confirmed_and_found() {
    let name = "7".repeat(40000);
    let listed = format!(
        "{{\"Sources\":[{{\"Name\":\"{}\",\"ID\":5,\"Volume\":0.5,\"Loop\":-1}}],\
         \"Running\":true,\"Disabled\":false}}",
        name
    );
    let mut names = NameCounter::new();
    let waiting = AudioBuilder::new(&file()).name(name.as_str()).build(&mut names);
    let audio = match run(&waiting, &[0], &[contents(&listed)]) {
        PollAction::Done(audio) => audio,
        other => panic!("not confirmed: {:?}", other),
    };
    let read = contents(&listed);
    assert_eq!(audio.get_id(), 5);
    assert_eq!(audio.get_name(&read).unwrap(), name);
    assert_eq!(float(audio.get_volume(&read).unwrap()), 0.5);
    assert_eq!(audio.get_loop(&read).unwrap(), -1);
    assert_eq!(is_running(&read).unwrap(), true);

    let gone = confirmed(&tone(), TONE_PLAYING);
    let error = gone.get_end_time(&read).unwrap_err();
    assert_eq!(error.kind(), ErrorKind::NotFound);
    assert_eq!(gone.get_name(&read).unwrap_err().kind(), ErrorKind::NotFound);
}

#[test]
fn source_under_a_name_that_looks_like_a_fraction_is_confirmed() {
    let name = format!("0.{}", "0".repeat(40000));
    let listed = format!("{{\"Sources\":[{{\"Name\":\"{}\",\"ID\":6}}]}}", name);
    let mut names = NameCounter::new();
    let waiting = AudioBuilder::new(&tone()).name(name.as_str()).build(&mut names);
    assert_eq!(waiting.lookup(&contents(&listed)), Some(6));
    match waiting.step(&PollEvent::Snapshot(contents(&listed))) {
        PollAction::Done(audio) => {
            assert_eq!(audio.get_id(), 6);
            assert_eq!(audio.get_name(&contents(&listed)).unwrap(), name);
        }
        other => panic!("not confirmed: {:?}", other),
    }
}

#[test]
fn handle_of_a_source_that_ended_is_not_found() {
    let audio = confirmed(&tone(), TONE_PLAYING);
    let read = contents(NOTHING_PLAYING);
    let error = audio.get_name(&read).unwrap_err();
    assert_eq!(error.kind(), ErrorKind::NotFound);
    assert_eq!(error.to_string(), "No audio source found with id 1.");
    assert_eq!(audio.get_volume(&read).unwrap_err().kind(), ErrorKind::NotFound);
    assert_eq!(audio.get_duration(&read).unwrap_err().kind(), ErrorKind::NotFound);
    assert_eq!(audio.get_remaining(&read).unwrap_err().kind(), ErrorKind::NotFound);
    assert_eq!(audio.is_paused(&read).unwrap_err().kind(), ErrorKind::NotFound);
    assert_eq!(audio.get_loop(&read).unwrap_err().kind(), ErrorKind::NotFound);
    assert_eq!(audio.get_start_time(&read).unwrap_err().kind(), ErrorKind::NotFound);
    assert_eq!(audio.get_end_time(&read).unwrap_err().kind(), ErrorKind::NotFound);
    let read = contents(FILE_PLAYING);
    assert_eq!(audio.get_name(&read).unwrap_err().kind(), ErrorKind::NotFound);
}

#[test]
fn handle_reports_a_snapshot_it_cannot_use() {
    let audio = confirmed(&tone(), TONE_PLAYING);
    let unreadable: Result<String, String> = Err("Permission denied (os error 13)".to_string());
    let error = audio.get_duration(&unreadable).unwrap_err();
    assert_eq!(error.kind(), ErrorKind::Io);
    assert_eq!(
        error.to_string(),
        "Error in reading /tmp/audioStatus.json. (Permission denied (os error 13))"
    );
    let malformed = contents("{\"Sources\":[{\"ID\":1,");
    let error = audio.get_duration(&malformed).unwrap_err();
    assert_eq!(error.kind(), ErrorKind::Parse);
    assert_eq!(error.to_string(), "Error in parsing JSON. (Unexpected end of JSON)");
}

#[test]
fn handle_reports_a_record_it_cannot_use() {
    let audio = confirmed(&tone(), TONE_PLAYING);
    let read = contents(
        "{\"Sources\":[{\"ID\":1,\"Name\":7,\"Volume\":\"loud\",\"Duration\":-1,\
         \"Remaining\":0.5,\"Paused\":0,\"Loop\":1.5,\"StartTime\":\"noon\"}]}",
    );
    let error = audio.get_name(&read).unwrap_err();
    assert_eq!(error.kind(), ErrorKind::Parse);
    assert_eq!(error.to_string(), "Error in reading Name from the audio status.");
    assert_eq!(audio.get_volume(&read).unwrap_err().kind(), ErrorKind::Parse);
    assert_eq!(audio.get_duration(&read).unwrap_err().kind(), ErrorKind::Parse);
    assert_eq!(audio.get_remaining(&read).unwrap_err().kind(), ErrorKind::Parse);
    assert_eq!(audio.is_paused(&read).unwrap_err().kind(), ErrorKind::Parse);
    assert_eq!(audio.get_loop(&read).unwrap_err().kind(), ErrorKind::Parse);
    let error = audio.get_start_time(&read).unwrap_err();
    assert_eq!(error.kind(), ErrorKind::Parse);
    assert_eq!(error.to_string(), "Error in parsing start time. (input contains invalid characters)");
    let error = audio.get_end_time(&read).unwrap_err();
    assert_eq!(error.kind(), ErrorKind::Parse);
    assert_eq!(error.to_string(), "Error in reading EndTime from the audio status.");
}

#[test]
fn handle_follows_its_record_as_the_snapshot_changes() {
    let audio = confirmed(&tone(), TONE_PLAYING);
    let later = contents(
        "{\"Sources\":[{\"ID\":9,\"Volume\":3},{\"ID\":1,\"Volume\":0.1,\"Paused\":true,\
         \"Loop\":7,\"Remaining\":12}],\"Running\":true,\"Disabled\":false}",
    );
    assert_eq!(float(audio.get_volume(&later).unwrap()), 0.1);
    assert_eq!(audio.is_paused(&later).unwrap(), true);
    assert_eq!(audio.get_loop(&later).unwrap(), 7);
    assert_eq!(audio.get_remaining(&later).unwrap(), 12);
}

#[test]
fn update_is_reflected_once_the_service_follows() {
    let mut audio = confirmed(&tone(), TONE_PLAYING);
    let updates = [
        AudioUpdate { volume: decimal(0.1), paused: true, does_loop: true, loop_count: 3 },
        AudioUpdate { volume: decimal(12.5), paused: false, does_loop: false, loop_count: -1 },
        AudioUpdate { volume: decimal(0.0), paused: true, does_loop: true, loop_count: i64::MIN },
        AudioUpdate { volume: decimal(-2e30), paused: false, does_loop: true, loop_count: i64::MAX },
    ];
    for update in updates {
        let sent = json::parse(&audio.update(&update)).unwrap();
        assert_eq!(sent["ID"], 1);
        let mut record = json::JsonValue::new_object();
        record.insert("ID", sent["ID"].clone()).unwrap();
        record.insert("Volume", sent["Volume"].clone()).unwrap();
        record.insert("Paused", sent["Paused"].clone()).unwrap();
        record.insert("Loop", sent["LoopCount"].clone()).unwrap();
        let mut sources = json::JsonValue::new_array();
        sources.push(record).unwrap();
        let mut snapshot = json::JsonValue::new_object();
        snapshot.insert("Sources", sources).unwrap();
        let read = contents(&snapshot.dump());
        assert_eq!(audio.get_volume(&read).unwrap(), update.volume);
        assert_eq!(audio.is_paused(&read).unwrap(), update.paused);
        assert_eq!(audio.get_loop(&read).unwrap(), update.loop_count);
    }
}

#[test]
fn test() {
    // first, play a tone, then turn down the volume halfway through
    let mut names = NameCounter::new();
    let waiting = AudioBuilder::new(&tone()).build(&mut names);
    let mut audio = match run(&waiting, &[0], &[contents(TONE_PLAYING)]) {
        PollAction::Done(audio) => audio,
        other => panic!("not confirmed: {:?}", other),
    };
    let read = contents(TONE_PLAYING);
    assert_eq!(float(audio.get_volume(&read).unwrap()), 1.0);
    assert_eq!(audio.get_loop(&read).unwrap(), 0);
    assert_eq!(audio.get_duration(&read).unwrap(), 2000);
    audio.get_remaining(&read).unwrap();
    audio.get_start_time(&read).unwrap();
    audio.get_end_time(&read).unwrap();
    audio.is_paused(&read).unwrap();
    assert_eq!(is_disabled(&read).unwrap(), false);
    assert_eq!(is_running(&read).unwrap(), true);
    let update =
        AudioUpdate { volume: decimal(0.1), paused: false, does_loop: false, loop_count: -1 };
    assert_eq!(
        audio.update(&update),
        "{\"ID\":1,\"Volume\":0.1,\"Paused\":false,\"DoesLoop\":false,\"LoopCount\":-1}"
    );

    // finally, play the audio file
    let waiting = AudioBuilder::new(&file())
        .volume(decimal(1.0))
        .does_loop(true)
        .loop_count(-1)
        .build(&mut names);
    assert_eq!(waiting.name(), "rust_audio_1");
    let playing = FILE_PLAYING.replace("rust_audio_0", "rust_audio_1");
    let audio = match run(&waiting, &[0], &[contents(&playing)]) {
        PollAction::Done(audio) => audio,
        other => panic!("not confirmed: {:?}", other),
    };
    let read = contents(&playing);
    assert_eq!(float(audio.get_volume(&read).unwrap()), 1.0);
    assert_eq!(audio.get_loop(&read).unwrap(), -1);
    audio.get_duration(&read).unwrap();
    audio.get_remaining(&read).unwrap();
    audio.get_start_time(&read).unwrap();
    audio.get_end_time(&read).unwrap();
    audio.is_paused(&read).unwrap();
    assert_eq!(is_disabled(&read).unwrap(), false);
    assert_eq!(is_running(&read).unwrap(), true);
}
