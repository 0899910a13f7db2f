//! Playing audio: the builder that describes a new source, the handshake
//! that waits for the service to confirm it, and the handle by which a
//! confirmed source is queried and updated.

use crate::command::{
    create_command, create_record, encode_create, encode_update, lemma_create_record_fields,
    lemma_update_record_fields, update_command, update_record, AudioUpdate,
};
use crate::document::{dumped_json, field, Json};
use crate::error::{failure, AudioError, AudioErrorView, AudioResult, ErrorKind, AUDIO_STATUS_PATH};
use crate::names::{nth_number, provisional_name, NameCounter};
use crate::source::{AudioType, Decimal};
use crate::status::{
    agrees, agrees_text, canonical, decimal_field, flag_field, get_status_by_id,
    get_status_by_name, id_matches, integer_field, lemma_first_by_id, lemma_first_by_name,
    name_matches, no_id_message, parse_status, read_decimal, read_flag, read_integer, read_text,
    read_time, read_unsigned, record_by_id, record_by_name, snapshot_doc, sources, text_field,
    time_field, unsigned_field,
};
use crate::timestamp::Timestamp;
use vstd::prelude::*;
use vstd::string::*;

verus! {

/// What an [`AudioBuilder`] holds.
pub ghost struct AudioBuilderView {
    pub name: Option<Seq<char>>,
    pub audio_type: AudioType,
    pub volume: Decimal,
    pub does_loop: bool,
    pub loop_count: i64,
}

/// Used to play an audio file or tone and create an `Audio` instance.
#[derive(Debug)]
pub struct AudioBuilder {
    name: Option<String>,
    audio_type: AudioType,
    volume: Decimal,
    does_loop: bool,
    loop_count: i64,
}

impl View for AudioBuilder {
    type V = AudioBuilderView;

    closed spec fn view(&self) -> AudioBuilderView {
        AudioBuilderView {
            name: match self.name {
                Some(name) => Some(name@),
                None => None,
            },
            audio_type: self.audio_type,
            volume: self.volume,
            does_loop: self.does_loop,
            loop_count: self.loop_count,
        }
    }
}

/// What a [`PendingAudio`] holds.
pub ghost struct PendingAudioView {
    pub name: Seq<char>,
    pub audio_type: AudioType,
    pub command: Seq<char>,
}

/// A source that has been asked for and is not confirmed yet: the create
/// command to append to the command channel, and the provisional name under
/// which the service will list the source once it plays.
#[derive(Debug)]
pub struct PendingAudio {
    name: String,
    audio_type: AudioType,
    command: String,
}

impl View for PendingAudio {
    type V = PendingAudioView;

    closed spec fn view(&self) -> PendingAudioView {
        PendingAudioView {
            name: self.name@,
            audio_type: self.audio_type,
            command: self.command@,
        }
    }
}

/// What an [`Audio`] holds.
pub ghost struct AudioView {
    pub id: u64,
    pub audio_type: AudioType,
}

/// A struct providing access to some currently playing audio instance.
#[derive(Debug)]
pub struct Audio {
    id: u64,
    audio_type: AudioType,
}

impl View for Audio {
    type V = AudioView;

    closed spec fn view(&self) -> AudioView {
        AudioView { id: self.id, audio_type: self.audio_type }
    }
}

impl AudioBuilder {
    /// Create a new `AudioBuilder` with a certain `AudioType`, which describes either an
    /// audio file or a tone.
    ///
    /// The volume starts at one, and the source does not loop; once it is
    /// told to loop, it loops forever unless a loop count is set.
    pub fn new(audio_type: &AudioType) -> (builder: AudioBuilder)
        ensures
            builder@ == (AudioBuilderView {
                name: None,
                audio_type: *audio_type,
                volume: Decimal::spec_one(),
                does_loop: false,
                loop_count: -1i64,
            }),
    {
        AudioBuilder {
            name: None,
            audio_type: audio_type.duplicate(),
            volume: Decimal::one(),
            does_loop: false,
            loop_count: -1,
        }
    }

    /// Set the name of the audio instance. Each audio instance should have a unique name.
    ///
    /// By default, a unique name is created for each audio instance.
    /// Setting a custom name is *not* recommended.
    pub fn name(self, name: &str) -> (builder: AudioBuilder)
        ensures
            builder@ == (AudioBuilderView { name: Some(name@), ..self@ }),
    {
        let mut builder = self;
        builder.name = Some(String::from_str(name));
        builder
    }

    /// Set the volume of the audio instance.
    ///
    /// By default, the volume is one.
    pub fn volume(self, volume: Decimal) -> (builder: AudioBuilder)
        ensures
            builder@ == (AudioBuilderView { volume: volume, ..self@ }),
    {
        let mut builder = self;
        builder.volume = volume;
        builder
    }

    /// Set whether the audio instance loops.
    ///
    /// By default, the audio instance does not loop.
    pub fn does_loop(self, does_loop: bool) -> (builder: AudioBuilder)
        ensures
            builder@ == (AudioBuilderView { does_loop: does_loop, ..self@ }),
    {
        let mut builder = self;
        builder.does_loop = does_loop;
        builder
    }

    /// Set the number of times to loop.
    ///
    /// `does_loop` should be used to allow looping of the audio instance.
    /// By default, the audio instance loops forever.
    pub fn loop_count(self, loop_count: i64) -> (builder: AudioBuilder)
        ensures
            builder@ == (AudioBuilderView { loop_count: loop_count, ..self@ }),
    {
        let mut builder = self;
        builder.loop_count = loop_count;
        builder
    }

    /// The provisional name that a build gives the source: the name that
    /// was set, or else the next name of a counter at `upcoming`.
    pub open spec fn resolved_name(view: AudioBuilderView, upcoming: u64) -> Seq<char> {
        match view.name {
            Some(name) => name,
            None => provisional_name(upcoming),
        }
    }

    /// What a build makes of the settings `view` with a counter at
    /// `upcoming`: the source waits under its resolved name, is of the kind
    /// that was asked for, and its command is the create command of the
    /// settings.
    pub open spec fn pending_of(view: AudioBuilderView, upcoming: u64) -> PendingAudioView {
        PendingAudioView {
            name: Self::resolved_name(view, upcoming),
            audio_type: view.audio_type,
            command: create_command(
                Self::resolved_name(view, upcoming),
                view.audio_type,
                view.volume,
                view.does_loop,
                view.loop_count,
            ),
        }
    }

    /// Prepare to play the audio instance: pick its provisional name and
    /// write the create command.
    ///
    /// This can be called multiple times to play a certain audio multiple times.
    /// Each call takes a fresh name from `names`, unless a name was set; then
    /// the counter is left alone, and it is up to the caller that no two
    /// sources wait under one name.
    pub fn build(&self, names: &mut NameCounter) -> (pending: PendingAudio)
        ensures
            pending@ == Self::pending_of(self@, old(names).upcoming()),
            final(names).upcoming() == if self@.name is Some {
                old(names).upcoming()
            } else {
                nth_number(old(names).upcoming(), 1)
            },
    {
        let name = match &self.name {
            Some(name) => name.clone(),
            None => names.issue(),
        };
        let command = encode_create(
            name.as_str(),
            &self.audio_type,
            self.volume,
            self.does_loop,
            self.loop_count,
        );
        PendingAudio { name, audio_type: self.audio_type.duplicate(), command }
    }
}

/// How long the confirmation of a new source is waited for, in
/// nanoseconds: two seconds.
pub const CONFIRM_TIMEOUT_NANOS: u128 = 2_000_000_000;

/// What the caller reports to a pending source while it waits.
#[derive(Debug)]
pub enum PollEvent {
    /// The clock was read: so many nanoseconds have passed since the create
    /// command was written.
    Clock(u128),
    /// The status snapshot was read: its text, or the reason why it could
    /// not be read.
    Snapshot(Result<String, String>),
}

/// What the caller of a pending source does next.
#[derive(Debug)]
pub enum PollAction {
    /// Read the status snapshot and report it.
    ReadSnapshot,
    /// Read the clock and report it.
    CheckClock,
    /// Stop: the service has confirmed the source, and this is its handle.
    Done(Audio),
    /// Stop: the confirmation did not come in time.
    GiveUp(AudioError),
}

/// What a [`PollAction`] holds.
pub ghost enum PollActionView {
    ReadSnapshot,
    CheckClock,
    Done(AudioView),
    GiveUp(AudioErrorView),
}

impl View for PollAction {
    type V = PollActionView;

    open spec fn view(&self) -> PollActionView {
        match self {
            PollAction::ReadSnapshot => PollActionView::ReadSnapshot,
            PollAction::CheckClock => PollActionView::CheckClock,
            PollAction::Done(audio) => PollActionView::Done(audio@),
            PollAction::GiveUp(error) => PollActionView::GiveUp(error@),
        }
    }
}

/// The message for a confirmation that did not come in time.
pub open spec fn timeout_message() -> Seq<char> {
    "Timed out while waiting for "@ + AUDIO_STATUS_PATH@ + " to update."@
}

/// The identity under which the snapshot `read` lists the provisional name
/// `name`: the member `ID` of the first record with that name.
///
/// There is none while the snapshot cannot be read or parsed, lists no such
/// record, or lists it without an identity. All of these can happen while
/// the service is at work, and none of them is a failure yet.
pub open spec fn confirmed_id(name: Seq<char>, read: Result<String, String>) -> Option<u64> {
    match snapshot_doc(read) {
        Ok(doc) => match record_by_name(doc, name) {
            Ok(source) => match unsigned_field(source, "ID"@) {
                Ok(id) => Some(id),
                Err(_) => None,
            },
            Err(_) => None,
        },
        Err(_) => None,
    }
}

/// What to do next on `event` while the source `pending` waits to be
/// confirmed.
///
/// On the clock: read the snapshot while no more than the timeout has
/// passed, and give up after that. On a snapshot: stop with the handle as
/// soon as the snapshot lists the source, and go back to the clock until it
/// does.
pub open spec fn next_action(pending: PendingAudioView, event: PollEvent) -> PollActionView {
    match event {
        PollEvent::Clock(elapsed) => if elapsed <= CONFIRM_TIMEOUT_NANOS {
            PollActionView::ReadSnapshot
        } else {
            PollActionView::GiveUp(failure(ErrorKind::Timeout, timeout_message()))
        },
        PollEvent::Snapshot(read) => match confirmed_id(pending.name, read) {
            Some(id) => PollActionView::Done(AudioView { id, audio_type: pending.audio_type }),
            None => PollActionView::CheckClock,
        },
    }
}

impl PendingAudio {
    /// The provisional name of the source.
    pub fn name(&self) -> (name: &str)
        ensures
            name@ == self@.name,
    {
        self.name.as_str()
    }

    /// The create command, to be appended to the command channel once.
    pub fn command(&self) -> (command: &str)
        ensures
            command@ == self@.command,
    {
        self.command.as_str()
    }

    /// Get the `AudioType` of the source.
    pub fn get_type(&self) -> (audio_type: AudioType)
        ensures
            audio_type == self@.audio_type,
    {
        self.audio_type.duplicate()
    }

    /// What the caller does first, once the create command is appended:
    /// read the clock.
    pub fn first_action(&self) -> (action: PollAction)
        ensures
            action@ == PollActionView::CheckClock,
    {
        PollAction::CheckClock
    }

    /// Looks the source up in the snapshot `read`, and tells its identity
    /// if the service has given it one.
    pub fn lookup(&self, read: &Result<String, String>) -> (id: Option<u64>)
        ensures
            id == confirmed_id(self@.name, *read),
    {
        match parse_status(read) {
            Err(_) => None,
            Ok(status) => match get_status_by_name(&status, self.name.as_str()) {
                Err(_) => None,
                Ok(source) => match read_unsigned(source, "ID") {
                    Err(_) => None,
                    Ok(id) => Some(id),
                },
            },
        }
    }

    /// Decides what to do next while the source waits to be confirmed.
    ///
    /// The caller appends the create command, starts with the first action,
    /// and from then on does what each answer says and reports what came of
    /// it, until the answer is `Done` or `GiveUp`.
    pub fn step(&self, event: &PollEvent) -> (action: PollAction)
        ensures
            action@ == next_action(self@, *event),
    {
        match event {
            PollEvent::Clock(elapsed) => {
                if *elapsed <= CONFIRM_TIMEOUT_NANOS {
                    PollAction::ReadSnapshot
                } else {
                    let mut message = String::from_str("Timed out while waiting for ");
                    message.append(AUDIO_STATUS_PATH);
                    message.append(" to update.");
                    PollAction::GiveUp(AudioError::new(ErrorKind::Timeout, message))
                }
            },
            PollEvent::Snapshot(read) => match self.lookup(read) {
                Some(id) => PollAction::Done(Audio { id, audio_type: self.audio_type.duplicate() }),
                None => PollAction::CheckClock,
            },
        }
    }
}

/// The record of the identity `id` in the snapshot `read`, or why there is
/// none: the snapshot could not be read, is malformed, or lists no such
/// record.
pub open spec fn record_of(read: Result<String, String>, id: u64) -> Result<Json, AudioErrorView> {
    match snapshot_doc(read) {
        Ok(doc) => record_by_id(doc, id),
        Err(fault) => Err(fault),
    }
}

/// What `reader` makes of `record`, or the failure that `record` is.
pub open spec fn on_record<T>(
    record: Result<Json, AudioErrorView>,
    reader: spec_fn(Json) -> Result<T, AudioErrorView>,
) -> Result<T, AudioErrorView> {
    match record {
        Ok(source) => reader(source),
        Err(fault) => Err(fault),
    }
}

/// A source is confirmed only by a snapshot that lists a record under the
/// name it was built with; its handle then carries the identity of the
/// first such record and the kind of source that was asked for. The wait
/// ends in a failure only by timeout, and it does end so whenever the clock
/// is reported past the timeout.
pub proof fn lemma_confirmation(config: AudioBuilderView, upcoming: u64, event: PollEvent)
    ensures
        ({
            let pending = AudioBuilder::pending_of(config, upcoming);
            let action = next_action(pending, event);
            &&& action matches PollActionView::Done(audio) ==> {
                &&& audio.audio_type == config.audio_type
                &&& event matches PollEvent::Snapshot(read)
                &&& snapshot_doc(read) matches Ok(doc)
                &&& exists|i: int|
                    0 <= i < sources(doc).len() && name_matches(
                        #[trigger] sources(doc)[i],
                        AudioBuilder::resolved_name(config, upcoming),
                    ) && unsigned_field(sources(doc)[i], "ID"@) == Ok::<u64, AudioErrorView>(
                        audio.id,
                    ) && forall|j: int|
                        0 <= j < i ==> !name_matches(
                            #[trigger] sources(doc)[j],
                            AudioBuilder::resolved_name(config, upcoming),
                        )
            }
            &&& action matches PollActionView::GiveUp(fault) ==> {
                &&& fault.kind == ErrorKind::Timeout
                &&& event matches PollEvent::Clock(elapsed)
                &&& elapsed > CONFIRM_TIMEOUT_NANOS
            }
            &&& event matches PollEvent::Clock(elapsed) ==> elapsed > CONFIRM_TIMEOUT_NANOS
                ==> action is GiveUp
        }),
{
    let pending = AudioBuilder::pending_of(config, upcoming);
    if let PollEvent::Snapshot(read) = event {
        if let Ok(doc) = snapshot_doc(read) {
            lemma_first_by_name(sources(doc), pending.name);
        }
    }
}

/// The create command of a build carries the name under which the source
/// waits: a record that repeats the `Name` of the create record is one that
/// the wait will take for the source.
pub proof fn lemma_command_carries_name(config: AudioBuilderView, upcoming: u64)
    ensures
        ({
            let pending = AudioBuilder::pending_of(config, upcoming);
            let record = create_record(
                pending.name,
                config.audio_type,
                config.volume,
                config.does_loop,
                config.loop_count,
            );
            &&& pending.command == dumped_json(record)
            &&& name_matches(record, pending.name)
        }),
{
    let pending = AudioBuilder::pending_of(config, upcoming);
    lemma_create_record_fields(
        pending.name,
        config.audio_type,
        config.volume,
        config.does_loop,
        config.loop_count,
    );
}

/// Once the snapshot lists a source with the settings that an update
/// command carries, the queries report those settings: the volume in the
/// form in which the command carries it, the pause flag, and the loop
/// count.
pub proof fn lemma_update_then_query(read: Result<String, String>, id: u64, update: AudioUpdate)
    requires
        update.volume is Finite,
        record_of(read, id) matches Ok(source) && {
            &&& field(source, "Volume"@) == field(update_record(id, update), "Volume"@)
            &&& field(source, "Paused"@) == field(update_record(id, update), "Paused"@)
            &&& field(source, "Loop"@) == field(update_record(id, update), "LoopCount"@)
        },
    ensures
        on_record(record_of(read, id), |source: Json| decimal_field(source, "Volume"@)) == Ok::<
            Decimal,
            AudioErrorView,
        >(canonical(update.volume)),
        on_record(record_of(read, id), |source: Json| flag_field(source, "Paused"@)) == Ok::<
            bool,
            AudioErrorView,
        >(update.paused),
        on_record(record_of(read, id), |source: Json| integer_field(source, "Loop"@)) == Ok::<
            i64,
            AudioErrorView,
        >(update.loop_count),
{
    lemma_update_record_fields(id, update);
}

/// A query for an identity that the snapshot does not list fails as not
/// found, whatever is asked of the record, and so never as a parse
/// failure.
pub proof fn lemma_unlisted_identity<T>(
    read: Result<String, String>,
    id: u64,
    reader: spec_fn(Json) -> Result<T, AudioErrorView>,
)
    requires
        snapshot_doc(read) matches Ok(doc) && forall|i: int|
            0 <= i < sources(doc).len() ==> !id_matches(#[trigger] sources(doc)[i], id),
    ensures
        on_record(record_of(read, id), reader) == Err::<T, AudioErrorView>(
            failure(ErrorKind::NotFound, no_id_message(id)),
        ),
        ErrorKind::NotFound != ErrorKind::Parse,
{
    let doc = snapshot_doc(read)->Ok_0;
    lemma_first_by_id(sources(doc), id);
}

/// Get whether there are any audio instances playing, from the snapshot
/// `read`.
pub fn is_running(read: &Result<String, String>) -> (res: AudioResult<bool>)
    ensures
        agrees(res, on_record(snapshot_doc(*read), |doc: Json| flag_field(doc, "Running"@))),
{
    match parse_status(read) {
        Err(error) => Err(error),
        Ok(status) => read_flag(&status, "Running"),
    }
}

/// Get whether the audio playing program is switched off, from the snapshot
/// `read`.
pub fn is_disabled(read: &Result<String, String>) -> (res: AudioResult<bool>)
    ensures
        agrees(res, on_record(snapshot_doc(*read), |doc: Json| flag_field(doc, "Disabled"@))),
{
    match parse_status(read) {
        Err(error) => Err(error),
        Ok(status) => read_flag(&status, "Disabled"),
    }
}

impl Audio {
    /// Get the name of the audio instance.
    pub fn get_name(&self, read: &Result<String, String>) -> (res: AudioResult<String>)
        ensures
            agrees_text(
                res,
                on_record(record_of(*read, self@.id), |source: Json| text_field(source, "Name"@)),
            ),
    {
        match parse_status(read) {
            Err(error) => Err(error),
            Ok(status) => match get_status_by_id(&status, self.id) {
                Err(error) => Err(error),
                Ok(source) => read_text(source, "Name"),
            },
        }
    }

    /// Get the `AudioType` of the audio instance.
    pub fn get_type(&self) -> (audio_type: AudioType)
        ensures
            audio_type == self@.audio_type,
    {
        self.audio_type.duplicate()
    }

    /// Get the volume level of the audio instance.
    pub fn get_volume(&self, read: &Result<String, String>) -> (res: AudioResult<Decimal>)
        ensures
            agrees(
                res,
                on_record(
                    record_of(*read, self@.id),
                    |source: Json| decimal_field(source, "Volume"@),
                ),
            ),
    {
        match parse_status(read) {
            Err(error) => Err(error),
            Ok(status) => match get_status_by_id(&status, self.id) {
                Err(error) => Err(error),
                Ok(source) => read_decimal(source, "Volume"),
            },
        }
    }

    /// Get the duration (in milliseconds) of the audio instance.
    pub fn get_duration(&self, read: &Result<String, String>) -> (res: AudioResult<u64>)
        ensures
            agrees(
                res,
                on_record(
                    record_of(*read, self@.id),
                    |source: Json| unsigned_field(source, "Duration"@),
                ),
            ),
    {
        match parse_status(read) {
            Err(error) => Err(error),
            Ok(status) => match get_status_by_id(&status, self.id) {
                Err(error) => Err(error),
                Ok(source) => read_unsigned(source, "Duration"),
            },
        }
    }

    /// Get the remaining time (in milliseconds) of the audio instance.
    pub fn get_remaining(&self, read: &Result<String, String>) -> (res: AudioResult<u64>)
        ensures
            agrees(
                res,
                on_record(
                    record_of(*read, self@.id),
                    |source: Json| unsigned_field(source, "Remaining"@),
                ),
            ),
    {
        match parse_status(read) {
            Err(error) => Err(error),
            Ok(status) => match get_status_by_id(&status, self.id) {
                Err(error) => Err(error),
                Ok(source) => read_unsigned(source, "Remaining"),
            },
        }
    }

    /// Get whether the audio instance is paused.
    pub fn is_paused(&self, read: &Result<String, String>) -> (res: AudioResult<bool>)
        ensures
            agrees(
                res,
                on_record(record_of(*read, self@.id), |source: Json| flag_field(source, "Paused"@)),
            ),
    {
        match parse_status(read) {
            Err(error) => Err(error),
            Ok(status) => match get_status_by_id(&status, self.id) {
                Err(error) => Err(error),
                Ok(source) => read_flag(source, "Paused"),
            },
        }
    }

    /// Get the number of times the audio instance will loop.
    pub fn get_loop(&self, read: &Result<String, String>) -> (res: AudioResult<i64>)
        ensures
            agrees(
                res,
                on_record(
                    record_of(*read, self@.id),
                    |source: Json| integer_field(source, "Loop"@),
                ),
            ),
    {
        match parse_status(read) {
            Err(error) => Err(error),
            Ok(status) => match get_status_by_id(&status, self.id) {
                Err(error) => Err(error),
                Ok(source) => read_integer(source, "Loop"),
            },
        }
    }

    /// Get the ID of the audio instance.
    pub fn get_id(&self) -> (id: u64)
        ensures
            id == self@.id,
    {
        self.id
    }

    /// Get the end time of the audio instance.
    pub fn get_end_time(&self, read: &Result<String, String>) -> (res: AudioResult<Timestamp>)
        ensures
            agrees(
                res,
                on_record(
                    record_of(*read, self@.id),
                    |source: Json| time_field(source, "EndTime"@, "end"@),
                ),
            ),
    {
        match parse_status(read) {
            Err(error) => Err(error),
            Ok(status) => match get_status_by_id(&status, self.id) {
                Err(error) => Err(error),
                Ok(source) => read_time(source, "EndTime", "end"),
            },
        }
    }

    /// Get the start time of the audio instance.
    pub fn get_start_time(&self, read: &Result<String, String>) -> (res: AudioResult<Timestamp>)
        ensures
            agrees(
                res,
                on_record(
                    record_of(*read, self@.id),
                    |source: Json| time_field(source, "StartTime"@, "start"@),
                ),
            ),
    {
        match parse_status(read) {
            Err(error) => Err(error),
            Ok(status) => match get_status_by_id(&status, self.id) {
                Err(error) => Err(error),
                Ok(source) => read_time(source, "StartTime", "start"),
            },
        }
    }

    /// Update the audio instance by using the `AudioUpdate` struct: writes
    /// the update command, to be appended to the command channel. The handle
    /// stays as it is, and nothing waits for the service to follow.
    pub fn update(&mut self, update: &AudioUpdate) -> (command: String)
        ensures
            command@ == update_command(old(self)@.id, *update),
            final(self)@ == old(self)@,
    {
        encode_update(self.id, update)
    }
}

} // verus!
