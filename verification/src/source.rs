//! What can be played: the description of an audio source.

use vstd::prelude::*;

verus! {

/// A real number in decimal notation, as it travels in commands and in the
/// status snapshot.
///
/// `Finite` stands for `mantissa` times ten to the power `exponent`, negated
/// where `positive` is false. Two values with different fields are different
/// values, also where they stand for the same number.
#[derive(Debug, PartialEq, Eq, Clone, Copy, Structural)]
pub enum Decimal {
    /// No number: what an infinite or undefined quantity becomes.
    NotANumber,
    /// A finite decimal number.
    Finite { positive: bool, mantissa: u64, exponent: i16 },
}

impl Decimal {
    /// The number one.
    pub open spec fn spec_one() -> Decimal {
        Decimal::Finite { positive: true, mantissa: 1, exponent: 0 }
    }

    /// The number one.
    #[verifier::when_used_as_spec(spec_one)]
    pub fn one() -> (number: Decimal)
        ensures
            number == Decimal::spec_one(),
    {
        Decimal::Finite { positive: true, mantissa: 1, exponent: 0 }
    }
}

/// Supported audio file formats.
#[derive(Debug, PartialEq, Eq, Clone, Copy, Structural)]
pub enum FileType {
    Wav,
    Aiff,
    Mp3,
}

impl FileType {
    /// The word by which the service knows this format.
    pub open spec fn word(self) -> Seq<char> {
        match self {
            FileType::Wav => "wav"@,
            FileType::Aiff => "aiff"@,
            FileType::Mp3 => "mp3"@,
        }
    }

    /// The word by which the service knows this format.
    pub fn as_str(&self) -> (text: &'static str)
        ensures
            text@ == self.word(),
    {
        match self {
            FileType::Wav => "wav",
            FileType::Aiff => "aiff",
            FileType::Mp3 => "mp3",
        }
    }
}

/// Supported tone types.
#[derive(Debug, PartialEq, Eq, Clone, Copy, Structural)]
pub enum ToneType {
    Sine,
    Triangle,
    Saw,
    Square,
}

impl ToneType {
    /// The number by which the service knows this waveform.
    pub open spec fn spec_code(&self) -> u8 {
        match self {
            ToneType::Sine => 0,
            ToneType::Triangle => 1,
            ToneType::Saw => 2,
            ToneType::Square => 3,
        }
    }

    /// The number by which the service knows this waveform.
    #[verifier::when_used_as_spec(spec_code)]
    pub fn code(&self) -> (code: u8)
        ensures
            code == self.spec_code(),
    {
        match self {
            ToneType::Sine => 0,
            ToneType::Triangle => 1,
            ToneType::Saw => 2,
            ToneType::Square => 3,
        }
    }
}

/// Type of audio to play: audio file or tone.
#[derive(Debug, PartialEq, Clone)]
pub enum AudioType {
    /// A file in format `file` at `path`.
    File { file: FileType, path: String },
    /// A tone of waveform `tone`, `pitch` hertz high and `duration` seconds long.
    Tone { tone: ToneType, pitch: Decimal, duration: Decimal },
}

impl AudioType {
    /// The word that tells the service what kind of source this is.
    pub open spec fn word(self) -> Seq<char> {
        match self {
            AudioType::File { file, .. } => file.word(),
            AudioType::Tone { .. } => "tone"@,
        }
    }

    /// The word that tells the service what kind of source this is.
    pub fn as_str(&self) -> (text: &'static str)
        ensures
            text@ == self.word(),
    {
        match self {
            AudioType::File { file, .. } => file.as_str(),
            AudioType::Tone { .. } => "tone",
        }
    }

    /// A copy of this description.
    pub fn duplicate(&self) -> (copy: AudioType)
        ensures
            copy == *self,
    {
        match self {
            AudioType::File { file, path } => AudioType::File { file: *file, path: path.clone() },
            AudioType::Tone { tone, pitch, duration } => AudioType::Tone {
                tone: *tone,
                pitch: *pitch,
                duration: *duration,
            },
        }
    }
}

} // verus!
