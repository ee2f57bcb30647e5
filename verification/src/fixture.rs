use vstd::prelude::*;
use vstd::string::StringExecFns;
use crate::host::{HostAudioEvent, HostAudioEventView};
use crate::render::{AudioRenderKind, AudioSourceKind};
use crate::text::{decimal, push_decimal, push_wide_decimal, safe_char, safe_identifier};

verus! {

// ---------------------------------------------------------------------------
// Runtime WAV fixtures
// ---------------------------------------------------------------------------

/// PCM16 audio that a fixture imports as if the user had loaded a WAV file.
#[derive(Debug, Clone, PartialEq, Eq)]
pub struct RuntimeWavImport {
    pub sample_name: String,
    pub channels: u16,
    pub sample_rate_hz: u32,
    pub samples: Vec<i16>,
}

/// Why a runtime WAV fixture cannot be written.
#[derive(Debug, Clone, Copy, PartialEq, Eq, Structural)]
pub enum RuntimeWavFixtureError {
    UnsupportedChannelCount { channels: u16 },
    ZeroSampleRate,
    EmptySamples,
    SampleCountNotDivisible { sample_count: usize, channels: u16 },
    DataSizeOverflow,
    DataExceedsU32,
    RiffSizeOverflow,
    ByteRateOverflow,
    BlockAlignOverflow,
}

pub open spec fn le16(value: u16) -> Seq<u8> {
    seq![(value % 256) as u8, (value / 256) as u8]
}

pub open spec fn le32(value: u32) -> Seq<u8> {
    seq![
        (value % 256) as u8,
        ((value / 256) % 256) as u8,
        ((value / 65536) % 256) as u8,
        (value / 16777216) as u8,
    ]
}

/// The two's-complement bit pattern of a PCM16 sample.
pub open spec fn sample_bits(sample: i16) -> u16 {
    (if sample < 0 {
        sample + 65536
    } else {
        sample as int
    }) as u16
}

/// Little-endian PCM16 bytes of the samples, in order.
pub open spec fn sample_bytes(samples: Seq<i16>) -> Seq<u8>
    decreases samples.len(),
{
    if samples.len() == 0 {
        Seq::empty()
    } else {
        sample_bytes(samples.drop_last()) + le16(sample_bits(samples.last()))
    }
}

/// The first reason, in the order the writer checks them, why these
/// parameters make no WAV file.
pub open spec fn wav_fixture_error(channels: u16, sample_rate_hz: u32, sample_count: nat) -> Option<RuntimeWavFixtureError> {
    if channels != 1 && channels != 2 {
        Some(RuntimeWavFixtureError::UnsupportedChannelCount { channels })
    } else if sample_rate_hz == 0 {
        Some(RuntimeWavFixtureError::ZeroSampleRate)
    } else if sample_count == 0 {
        Some(RuntimeWavFixtureError::EmptySamples)
    } else if sample_count % (channels as nat) != 0 {
        Some(
            RuntimeWavFixtureError::SampleCountNotDivisible {
                sample_count: sample_count as usize,
                channels,
            },
        )
    } else if sample_count * 2 > usize::MAX {
        Some(RuntimeWavFixtureError::DataSizeOverflow)
    } else if sample_count * 2 > u32::MAX {
        Some(RuntimeWavFixtureError::DataExceedsU32)
    } else if 36 + sample_count * 2 > u32::MAX {
        Some(RuntimeWavFixtureError::RiffSizeOverflow)
    } else if sample_rate_hz * channels * 2 > u32::MAX {
        Some(RuntimeWavFixtureError::ByteRateOverflow)
    } else if channels * 2 > u16::MAX {
        Some(RuntimeWavFixtureError::BlockAlignOverflow)
    } else {
        None
    }
}

pub open spec fn wav_fixture_error_message(error: RuntimeWavFixtureError) -> Seq<char> {
    match error {
        RuntimeWavFixtureError::UnsupportedChannelCount { channels } => "runtime WAV fixture supports mono or stereo PCM16 only, got "@
            + decimal(channels as nat) + " channels"@,
        RuntimeWavFixtureError::ZeroSampleRate => "runtime WAV fixture sample_rate_hz must be non-zero"@,
        RuntimeWavFixtureError::EmptySamples => "runtime WAV fixture samples must not be empty"@,
        RuntimeWavFixtureError::SampleCountNotDivisible { sample_count, channels } => "runtime WAV fixture sample count "@
            + decimal(sample_count as nat) + " is not divisible by channel count "@ + decimal(channels as nat),
        RuntimeWavFixtureError::DataSizeOverflow => "runtime WAV fixture data size overflow"@,
        RuntimeWavFixtureError::DataExceedsU32 => "runtime WAV fixture data exceeds u32 WAV size"@,
        RuntimeWavFixtureError::RiffSizeOverflow => "runtime WAV fixture RIFF size overflow"@,
        RuntimeWavFixtureError::ByteRateOverflow => "runtime WAV fixture byte rate overflow"@,
        RuntimeWavFixtureError::BlockAlignOverflow => "runtime WAV fixture block align overflow"@,
    }
}

impl RuntimeWavFixtureError {
    /// Says why the fixture's WAV file cannot be written.
    pub fn message(&self) -> (text: String)
        ensures
            text@ == wav_fixture_error_message(*self),
    {
        let mut text = String::new();
        match *self {
            RuntimeWavFixtureError::UnsupportedChannelCount { channels } => {
                text.append("runtime WAV fixture supports mono or stereo PCM16 only, got ");
                push_decimal(&mut text, channels as u64);
                text.append(" channels");
            },
            RuntimeWavFixtureError::ZeroSampleRate => text.append("runtime WAV fixture sample_rate_hz must be non-zero"),
            RuntimeWavFixtureError::EmptySamples => text.append("runtime WAV fixture samples must not be empty"),
            RuntimeWavFixtureError::SampleCountNotDivisible { sample_count, channels } => {
                text.append("runtime WAV fixture sample count ");
                push_decimal(&mut text, sample_count as u64);
                text.append(" is not divisible by channel count ");
                push_decimal(&mut text, channels as u64);
            },
            RuntimeWavFixtureError::DataSizeOverflow => text.append("runtime WAV fixture data size overflow"),
            RuntimeWavFixtureError::DataExceedsU32 => text.append("runtime WAV fixture data exceeds u32 WAV size"),
            RuntimeWavFixtureError::RiffSizeOverflow => text.append("runtime WAV fixture RIFF size overflow"),
            RuntimeWavFixtureError::ByteRateOverflow => text.append("runtime WAV fixture byte rate overflow"),
            RuntimeWavFixtureError::BlockAlignOverflow => text.append("runtime WAV fixture block align overflow"),
        }
        proof {
            assert(text@ =~= wav_fixture_error_message(*self));
        }
        text
    }
}

/// A canonical 44-byte-header PCM16 WAV file holding `samples`.
pub open spec fn wav_file_bytes(channels: u16, sample_rate_hz: u32, samples: Seq<i16>) -> Seq<u8> {
    let data_byte_count = (samples.len() * 2) as u32;
    seq![0x52u8, 0x49, 0x46, 0x46] + le32((36 + data_byte_count) as u32) + seq![
        0x57u8,
        0x41,
        0x56,
        0x45,
    ] + seq![0x66u8, 0x6d, 0x74, 0x20] + le32(16) + le16(1) + le16(channels) + le32(sample_rate_hz)
        + le32((sample_rate_hz * channels * 2) as u32) + le16((channels * 2) as u16) + le16(16)
        + seq![0x64u8, 0x61, 0x74, 0x61] + le32(data_byte_count) + sample_bytes(samples)
}

fn push_le16(bytes: &mut Vec<u8>, value: u16)
    ensures
        final(bytes)@ == old(bytes)@ + le16(value),
{
    bytes.push((value % 256) as u8);
    bytes.push((value / 256) as u8);
    proof {
        assert(final(bytes)@ =~= old(bytes)@ + le16(value));
    }
}

fn push_le32(bytes: &mut Vec<u8>, value: u32)
    ensures
        final(bytes)@ == old(bytes)@ + le32(value),
{
    bytes.push((value % 256) as u8);
    bytes.push(((value / 256) % 256) as u8);
    bytes.push(((value / 65536) % 256) as u8);
    bytes.push((value / 16777216) as u8);
    proof {
        assert(final(bytes)@ =~= old(bytes)@ + le32(value));
    }
}

fn push_tag(bytes: &mut Vec<u8>, a: u8, b: u8, c: u8, d: u8)
    ensures
        final(bytes)@ == old(bytes)@ + seq![a, b, c, d],
{
    bytes.push(a);
    bytes.push(b);
    bytes.push(c);
    bytes.push(d);
    proof {
        assert(final(bytes)@ =~= old(bytes)@ + seq![a, b, c, d]);
    }
}

impl RuntimeWavImport {
    /// The bytes of the WAV file this import is written as, or why none can be.
    pub fn wav_bytes(&self) -> (result: Result<Vec<u8>, RuntimeWavFixtureError>)
        ensures
            match wav_fixture_error(self.channels, self.sample_rate_hz, self.samples@.len()) {
                Some(error) => result == Err::<Vec<u8>, RuntimeWavFixtureError>(error),
                None => result matches Ok(bytes) && bytes@ == wav_file_bytes(
                    self.channels,
                    self.sample_rate_hz,
                    self.samples@,
                ),
            },
    {
        let channels: u16 = self.channels;
        if channels != 1 && channels != 2 {
            return Err(RuntimeWavFixtureError::UnsupportedChannelCount { channels });
        }
        if self.sample_rate_hz == 0 {
            return Err(RuntimeWavFixtureError::ZeroSampleRate);
        }
        let sample_count: usize = self.samples.len();
        if sample_count == 0 {
            return Err(RuntimeWavFixtureError::EmptySamples);
        }
        if sample_count % (channels as usize) != 0 {
            return Err(RuntimeWavFixtureError::SampleCountNotDivisible { sample_count, channels });
        }
        if sample_count > usize::MAX / 2 {
            return Err(RuntimeWavFixtureError::DataSizeOverflow);
        }
        let data_byte_count_usize: usize = sample_count * 2;
        if data_byte_count_usize > 0xffff_ffff {
            return Err(RuntimeWavFixtureError::DataExceedsU32);
        }
        let data_byte_count: u32 = data_byte_count_usize as u32;
        if data_byte_count > 0xffff_ffff - 36 {
            return Err(RuntimeWavFixtureError::RiffSizeOverflow);
        }
        let riff_chunk_size: u32 = 36 + data_byte_count;
        if self.sample_rate_hz > 0xffff_ffff / ((channels as u32) * 2) {
            proof {
                assert(self.sample_rate_hz * channels * 2 > u32::MAX) by (nonlinear_arith)
                    requires
                        self.sample_rate_hz > 0xffff_ffffint / ((channels as int) * 2),
                        channels == 1 || channels == 2,
                ;
            }
            return Err(RuntimeWavFixtureError::ByteRateOverflow);
        }
        proof {
            assert(self.sample_rate_hz * channels * 2 <= u32::MAX) by (nonlinear_arith)
                requires
                    self.sample_rate_hz <= 0xffff_ffffint / ((channels as int) * 2),
                    channels == 1 || channels == 2,
            ;
        }
        let byte_rate: u32 = self.sample_rate_hz * (channels as u32) * 2;
        let block_align: u16 = channels * 2;
        let mut bytes: Vec<u8> = Vec::new();
        push_tag(&mut bytes, 0x52, 0x49, 0x46, 0x46);
        push_le32(&mut bytes, riff_chunk_size);
        push_tag(&mut bytes, 0x57, 0x41, 0x56, 0x45);
        push_tag(&mut bytes, 0x66, 0x6d, 0x74, 0x20);
        push_le32(&mut bytes, 16);
        push_le16(&mut bytes, 1);
        push_le16(&mut bytes, channels);
        push_le32(&mut bytes, self.sample_rate_hz);
        push_le32(&mut bytes, byte_rate);
        push_le16(&mut bytes, block_align);
        push_le16(&mut bytes, 16);
        push_tag(&mut bytes, 0x64, 0x61, 0x74, 0x61);
        push_le32(&mut bytes, data_byte_count);
        let ghost header = bytes@;
        let mut index: usize = 0;
        while index < sample_count
            invariant
                index <= sample_count,
                sample_count == self.samples@.len(),
                bytes@ == header + sample_bytes(self.samples@.take(index as int)),
            decreases sample_count - index,
        {
            let sample: i16 = self.samples[index];
            let bits: u16 = if sample < 0 {
                (sample as i32 + 65536) as u16
            } else {
                sample as u16
            };
            push_le16(&mut bytes, bits);
            proof {
                assert(self.samples@.take(index + 1).drop_last() =~= self.samples@.take(index as int));
                assert(bytes@ =~= header + sample_bytes(self.samples@.take(index + 1)));
            }
            index = index + 1;
        }
        proof {
            assert(self.samples@.take(sample_count as int) =~= self.samples@);
            assert(bytes@ =~= wav_file_bytes(channels, self.sample_rate_hz, self.samples@));
        }
        Ok(bytes)
    }
}

// ---------------------------------------------------------------------------
// Expected MIDI input channel
// ---------------------------------------------------------------------------

/// A fixture's expectation of the MIDI input channel: omni, or channel 1..=16.
#[derive(Debug, Clone, Copy, PartialEq, Eq, Structural)]
pub enum ExpectedMidiInputChannel {
    Omni,
    Channel(u8),
}

impl ExpectedMidiInputChannel {
    /// The channel as the core state stores it: `None` for omni.
    pub fn state_value(self) -> (value: Option<u8>)
        ensures
            value == (match self {
                ExpectedMidiInputChannel::Omni => None,
                ExpectedMidiInputChannel::Channel(channel) => Some(channel),
            }),
    {
        match self {
            ExpectedMidiInputChannel::Omni => None,
            ExpectedMidiInputChannel::Channel(channel) => Some(channel),
        }
    }
}

/// Reads a channel number: only 1..=16 is a MIDI input channel.
pub fn channel_from_u64(value: u64) -> (result: Result<ExpectedMidiInputChannel, &'static str>)
    ensures
        1 <= value <= 16 ==> result == Ok::<ExpectedMidiInputChannel, &'static str>(
            ExpectedMidiInputChannel::Channel(value as u8),
        ),
        !(1 <= value <= 16) ==> (result matches Err(message) && message@
            == "MIDI input channel must be 1..=16"@),
{
    if value > 255 {
        return Err("MIDI input channel must be 1..=16");
    }
    let channel: u8 = value as u8;
    if 1 <= channel && channel <= 16 {
        Ok(ExpectedMidiInputChannel::Channel(channel))
    } else {
        Err("MIDI input channel must be 1..=16")
    }
}

/// The character with ASCII upper case letters taken to lower case.
pub open spec fn ascii_lower(c: char) -> char {
    if 'A' <= c && c <= 'Z' {
        ((c as int) + 32) as char
    } else {
        c
    }
}

pub open spec fn invalid_channel_text_message(value: Seq<char>) -> Seq<char> {
    "invalid MIDI input channel \""@ + value + "\", expected \"omni\" or 1..=16"@
}

/// Reads a channel written as text: only `omni`, in any ASCII case, is one.
pub fn channel_from_text(value: &str) -> (result: Result<ExpectedMidiInputChannel, String>)
    ensures
        value@.map_values(|c: char| ascii_lower(c)) == "omni"@ ==> result == Ok::<
            ExpectedMidiInputChannel,
            String,
        >(ExpectedMidiInputChannel::Omni),
        value@.map_values(|c: char| ascii_lower(c)) != "omni"@ ==> (result matches Err(message)
            && message@ == invalid_channel_text_message(value@)),
{
    let mut lowered = String::new();
    broadcast use vstd::string::axiom_spec_iter;
    for c in iter: value.chars()
        invariant
            iter.seq() == value@,
            lowered@ == iter.seq().take(iter.index() as int).map_values(|c: char| ascii_lower(c)),
    {
        let lower: char = if 'A' <= c && c <= 'Z' {
            ((c as u8) + 32) as char
        } else {
            c
        };
        lowered.push(lower);
        proof {
            assert(lowered@ =~= iter.seq().take(iter.index() as int + 1).map_values(|c: char| ascii_lower(c)));
        }
    }
    proof {
        assert(value@.take(value@.len() as int) =~= value@);
    }
    let omni = "omni".to_owned();
    if lowered == omni {
        Ok(ExpectedMidiInputChannel::Omni)
    } else {
        let mut message = "invalid MIDI input channel \"".to_owned();
        message.append(value);
        message.append("\", expected \"omni\" or 1..=16");
        Err(message)
    }
}

/// The name of the temporary WAV file written for import `index` of a
/// fixture: the fixture id made safe for file names, the process, the index
/// and a clock reading keep concurrent runs apart.
pub open spec fn runtime_wav_fixture_file_name_view(
    fixture_id: Seq<char>,
    process_id: u32,
    index: usize,
    nanos: u128,
) -> Seq<char> {
    "mpc_conformance_"@ + fixture_id.map_values(|c: char| safe_char(c)) + "_"@ + decimal(process_id as nat)
        + "_"@ + decimal(index as nat) + "_"@ + decimal(nanos as nat) + ".wav"@
}

pub fn runtime_wav_fixture_file_name(fixture_id: &str, process_id: u32, index: usize, nanos: u128) -> (name: String)
    ensures
        name@ == runtime_wav_fixture_file_name_view(fixture_id@, process_id, index, nanos),
{
    let mut name = "mpc_conformance_".to_owned();
    let safe = safe_identifier(fixture_id);
    name.append(safe.as_str());
    name.append("_");
    push_decimal(&mut name, process_id as u64);
    name.append("_");
    push_decimal(&mut name, index as u64);
    name.append("_");
    push_wide_decimal(&mut name, nanos);
    name.append(".wav");
    proof {
        assert(name@ =~= runtime_wav_fixture_file_name_view(fixture_id@, process_id, index, nanos));
    }
    name
}

// ---------------------------------------------------------------------------
// Host-audio events as fixtures name them
// ---------------------------------------------------------------------------

#[derive(Debug, Clone, Copy, PartialEq, Eq, Structural)]
pub enum ExpectedHostAudioEventType {
    Ignored,
    Enqueued,
    Released,
    Failed,
}

pub open spec fn event_type(event: HostAudioEventView) -> ExpectedHostAudioEventType {
    match event {
        HostAudioEventView::Ignored { .. } => ExpectedHostAudioEventType::Ignored,
        HostAudioEventView::Enqueued { .. } => ExpectedHostAudioEventType::Enqueued,
        HostAudioEventView::Released { .. } => ExpectedHostAudioEventType::Released,
        HostAudioEventView::Failed { .. } => ExpectedHostAudioEventType::Failed,
    }
}

pub fn host_audio_event_type(event: &HostAudioEvent) -> (kind: ExpectedHostAudioEventType)
    ensures
        kind == event_type(event@),
{
    match event {
        HostAudioEvent::Ignored { .. } => ExpectedHostAudioEventType::Ignored,
        HostAudioEvent::Enqueued { .. } => ExpectedHostAudioEventType::Enqueued,
        HostAudioEvent::Released { .. } => ExpectedHostAudioEventType::Released,
        HostAudioEvent::Failed { .. } => ExpectedHostAudioEventType::Failed,
    }
}

pub open spec fn event_backend_name(event: HostAudioEventView) -> Seq<char> {
    match event {
        HostAudioEventView::Ignored { backend_name, .. } => backend_name,
        HostAudioEventView::Enqueued { backend_name, .. } => backend_name,
        HostAudioEventView::Released { backend_name, .. } => backend_name,
        HostAudioEventView::Failed { backend_name, .. } => backend_name,
    }
}

pub fn host_audio_event_backend_name(event: &HostAudioEvent) -> (name: &str)
    ensures
        name@ == event_backend_name(event@),
{
    match event {
        HostAudioEvent::Ignored { backend_name, .. } => backend_name.as_str(),
        HostAudioEvent::Enqueued { backend_name, .. } => backend_name.as_str(),
        HostAudioEvent::Released { backend_name, .. } => backend_name.as_str(),
        HostAudioEvent::Failed { backend_name, .. } => backend_name.as_str(),
    }
}

/// The render kind an event reports: that of its render, when it has one.
pub open spec fn event_render_kind(event: HostAudioEventView) -> Option<AudioRenderKind> {
    match event {
        HostAudioEventView::Enqueued { receipt, .. } => Some(receipt.summary.render_kind),
        HostAudioEventView::Failed { summary, .. } => match summary {
            Some(summary) => Some(summary.render_kind),
            None => None,
        },
        _ => None,
    }
}

pub fn host_audio_event_render_kind(event: &HostAudioEvent) -> (kind: Option<AudioRenderKind>)
    ensures
        kind == event_render_kind(event@),
{
    match event {
        HostAudioEvent::Enqueued { receipt, .. } => Some(receipt.summary.render_kind),
        HostAudioEvent::Failed { summary, .. } => match summary {
            Some(summary) => Some(summary.render_kind),
            None => None,
        },
        _ => None,
    }
}

/// The source kind an event reports: that of its render, when it has one.
pub open spec fn event_source_kind(event: HostAudioEventView) -> Option<AudioSourceKind> {
    match event {
        HostAudioEventView::Enqueued { receipt, .. } => Some(receipt.summary.source_kind),
        HostAudioEventView::Failed { summary, .. } => match summary {
            Some(summary) => Some(summary.source_kind),
            None => None,
        },
        _ => None,
    }
}

pub fn host_audio_event_source_kind(event: &HostAudioEvent) -> (kind: Option<AudioSourceKind>)
    ensures
        kind == event_source_kind(event@),
{
    match event {
        HostAudioEvent::Enqueued { receipt, .. } => Some(receipt.summary.source_kind),
        HostAudioEvent::Failed { summary, .. } => match summary {
            Some(summary) => Some(summary.source_kind),
            None => None,
        },
        _ => None,
    }
}

/// The frame count an enqueued event reports.
pub open spec fn event_frame_count(event: HostAudioEventView) -> Option<usize> {
    match event {
        HostAudioEventView::Enqueued { receipt, .. } => Some(receipt.frame_count),
        _ => None,
    }
}

pub fn host_audio_event_frame_count(event: &HostAudioEvent) -> (count: Option<usize>)
    ensures
        count == event_frame_count(event@),
{
    match event {
        HostAudioEvent::Enqueued { receipt, .. } => Some(receipt.frame_count),
        _ => None,
    }
}

/// The voice an enqueued event started, if it started one.
pub open spec fn event_voice_id(event: HostAudioEventView) -> Option<u64> {
    match event {
        HostAudioEventView::Enqueued { receipt, .. } => match receipt.voice_allocation {
            Some(allocation) => Some(allocation.voice_id),
            None => None,
        },
        _ => None,
    }
}

pub fn host_audio_event_voice_id(event: &HostAudioEvent) -> (voice_id: Option<u64>)
    ensures
        voice_id == event_voice_id(event@),
{
    match event {
        HostAudioEvent::Enqueued { receipt, .. } => match &receipt.voice_allocation {
            Some(allocation) => Some(allocation.voice_id),
            None => None,
        },
        _ => None,
    }
}

/// The voice an enqueued event stole, if it stole one.
pub open spec fn event_stolen_voice_id(event: HostAudioEventView) -> Option<u64> {
    match event {
        HostAudioEventView::Enqueued { receipt, .. } => match receipt.voice_allocation {
            Some(allocation) => allocation.stolen_voice_id,
            None => None,
        },
        _ => None,
    }
}

pub fn host_audio_event_stolen_voice_id(event: &HostAudioEvent) -> (voice_id: Option<u64>)
    ensures
        voice_id == event_stolen_voice_id(event@),
{
    match event {
        HostAudioEvent::Enqueued { receipt, .. } => match &receipt.voice_allocation {
            Some(allocation) => allocation.stolen_voice_id,
            None => None,
        },
        _ => None,
    }
}

// ---------------------------------------------------------------------------
// Fixture records
// ---------------------------------------------------------------------------

/// The outcome of running one fixture.
#[derive(Debug, Clone, PartialEq, Eq)]
pub struct FixtureReport {
    pub id: String,
    pub name: String,
    pub passed: bool,
    pub details: Vec<String>,
}

/// A malformed project JSON document and the error it must be refused with.
#[derive(Debug, Clone, PartialEq, Eq)]
pub struct InvalidProjectJsonCase {
    pub name: String,
    pub mutation: ProjectJsonMutation,
    pub expect_error_contains: String,
}

/// How a valid project JSON document is broken for a refusal case.
#[derive(Debug, Clone, PartialEq, Eq)]
pub enum ProjectJsonMutation {
    UnsupportedVersion { version: u16 },
    InvalidRightsBoundary { rights_boundary: String },
    DuplicateFirstPadAssignment,
    UnknownRootField { field: String },
    EventCountLessThanRecordedEvents,
    LastPlaybackWithZeroEventCount,
}

} // verus!
