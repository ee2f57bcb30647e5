use vstd::prelude::*;
use vstd::utf8::encode_utf8;
use crate::intents::{CountInClickIntent, PadBank, SamplePlaybackIntent};
use crate::settings::{AudioRenderError, AudioRenderSettings, settings_error, settings_valid};

verus! {

pub const PCM_MAX: i32 = 32_767;
pub const MAX_VELOCITY: i32 = 127;
pub const MAX_LEVEL: i32 = 127;
pub const PAN_RANGE: i8 = 100;
pub const FNV_OFFSET_BASIS: u32 = 2_166_136_261;
pub const FNV_PRIME: u32 = 16_777_619;
pub const COUNT_IN_CLICK_ACCENT_PEAK: i32 = 24_000;
pub const COUNT_IN_CLICK_NORMAL_PEAK: i32 = 14_000;
pub const COUNT_IN_CLICK_ACTIVE_RATE_DIVISOR: usize = 250;

/// One stereo PCM16 frame.
#[derive(Debug, Clone, Copy, PartialEq, Eq, Structural)]
pub struct AudioFrame {
    pub left: i16,
    pub right: i16,
}

/// Where the rendered audio comes from: always generated here, never loaded from disk.
#[derive(Debug, Clone, Copy, PartialEq, Eq, Structural)]
pub enum AudioSourceKind {
    RightsSafeGenerated,
}

/// Which channel carries the louder peak.
#[derive(Debug, Clone, Copy, PartialEq, Eq, Structural)]
pub enum ChannelBalance {
    Left,
    Center,
    Right,
}

/// What a render was made for.
#[derive(Debug, Clone, Copy, PartialEq, Eq, Structural)]
pub enum AudioRenderKind {
    SamplePlayback,
    CountInClick,
}

impl Default for AudioRenderKind {
    fn default() -> (kind: Self)
        ensures
            kind == AudioRenderKind::SamplePlayback,
    {
        AudioRenderKind::SamplePlayback
    }
}

/// Metadata that describes one render.
#[derive(Debug, Clone, PartialEq, Eq)]
pub struct AudioRenderSummary {
    pub render_kind: AudioRenderKind,
    pub sample_rate_hz: u32,
    pub frame_count: usize,
    pub source_sample_id: String,
    pub source_sample_name: String,
    pub selected_track: u8,
    pub program_index: u8,
    pub program_name: String,
    pub bank: PadBank,
    pub pad_number: u8,
    pub velocity: u8,
    pub level: u8,
    pub pan: i8,
    pub tune_cents: i16,
    pub start_frame: u32,
    pub end_frame: u32,
    pub window_length_frames: u32,
    pub peak_left: i16,
    pub peak_right: i16,
    pub peak_amplitude: i16,
    pub channel_balance: ChannelBalance,
    pub source_kind: AudioSourceKind,
    pub loaded_audio_byte_count: usize,
    pub count_in_tick: Option<u64>,
    pub bar_index: Option<u8>,
    pub beat_index: Option<u8>,
    pub accent: Option<bool>,
}

/// A summary with its strings taken by their characters.
pub struct AudioRenderSummaryView {
    pub render_kind: AudioRenderKind,
    pub sample_rate_hz: u32,
    pub frame_count: usize,
    pub source_sample_id: Seq<char>,
    pub source_sample_name: Seq<char>,
    pub selected_track: u8,
    pub program_index: u8,
    pub program_name: Seq<char>,
    pub bank: PadBank,
    pub pad_number: u8,
    pub velocity: u8,
    pub level: u8,
    pub pan: i8,
    pub tune_cents: i16,
    pub start_frame: u32,
    pub end_frame: u32,
    pub window_length_frames: u32,
    pub peak_left: i16,
    pub peak_right: i16,
    pub peak_amplitude: i16,
    pub channel_balance: ChannelBalance,
    pub source_kind: AudioSourceKind,
    pub loaded_audio_byte_count: usize,
    pub count_in_tick: Option<u64>,
    pub bar_index: Option<u8>,
    pub beat_index: Option<u8>,
    pub accent: Option<bool>,
}

impl View for AudioRenderSummary {
    type V = AudioRenderSummaryView;

    open spec fn view(&self) -> AudioRenderSummaryView {
        AudioRenderSummaryView {
            render_kind: self.render_kind,
            sample_rate_hz: self.sample_rate_hz,
            frame_count: self.frame_count,
            source_sample_id: self.source_sample_id@,
            source_sample_name: self.source_sample_name@,
            selected_track: self.selected_track,
            program_index: self.program_index,
            program_name: self.program_name@,
            bank: self.bank,
            pad_number: self.pad_number,
            velocity: self.velocity,
            level: self.level,
            pan: self.pan,
            tune_cents: self.tune_cents,
            start_frame: self.start_frame,
            end_frame: self.end_frame,
            window_length_frames: self.window_length_frames,
            peak_left: self.peak_left,
            peak_right: self.peak_right,
            peak_amplitude: self.peak_amplitude,
            channel_balance: self.channel_balance,
            source_kind: self.source_kind,
            loaded_audio_byte_count: self.loaded_audio_byte_count,
            count_in_tick: self.count_in_tick,
            bar_index: self.bar_index,
            beat_index: self.beat_index,
            accent: self.accent,
        }
    }
}

impl AudioRenderSummary {
    /// A field-for-field copy.
    pub fn duplicate(&self) -> (copy: Self)
        ensures
            copy@ == self@,
    {
        AudioRenderSummary {
            render_kind: self.render_kind,
            sample_rate_hz: self.sample_rate_hz,
            frame_count: self.frame_count,
            source_sample_id: self.source_sample_id.clone(),
            source_sample_name: self.source_sample_name.clone(),
            selected_track: self.selected_track,
            program_index: self.program_index,
            program_name: self.program_name.clone(),
            bank: self.bank,
            pad_number: self.pad_number,
            velocity: self.velocity,
            level: self.level,
            pan: self.pan,
            tune_cents: self.tune_cents,
            start_frame: self.start_frame,
            end_frame: self.end_frame,
            window_length_frames: self.window_length_frames,
            peak_left: self.peak_left,
            peak_right: self.peak_right,
            peak_amplitude: self.peak_amplitude,
            channel_balance: self.channel_balance,
            source_kind: self.source_kind,
            loaded_audio_byte_count: self.loaded_audio_byte_count,
            count_in_tick: self.count_in_tick,
            bar_index: self.bar_index,
            beat_index: self.beat_index,
            accent: self.accent,
        }
    }
}

/// The window length a summary without one is read with: the frame count,
/// saturating at `u32::MAX`.
pub open spec fn legacy_window_length(frame_count: usize) -> u32 {
    if frame_count <= u32::MAX {
        frame_count as u32
    } else {
        u32::MAX
    }
}

/// The end frame a summary without one is read with: the last frame, or 0
/// when the render is empty or the last frame does not fit in `u32`.
pub open spec fn legacy_end_frame(frame_count: usize) -> u32 {
    if frame_count == 0 {
        0
    } else if frame_count - 1 <= u32::MAX {
        (frame_count - 1) as u32
    } else {
        0
    }
}

impl AudioRenderSummary {
    /// Start frame, end frame and window length for a summary recorded before
    /// trim windows existed: the values that are present are kept, a missing
    /// start is 0, and a missing end and length cover the whole render.
    pub fn legacy_window(
        frame_count: usize,
        start_frame: Option<u32>,
        end_frame: Option<u32>,
        window_length_frames: Option<u32>,
    ) -> (window: (u32, u32, u32))
        ensures
            window.0 == (match start_frame {
                Some(start) => start,
                None => 0,
            }),
            window.1 == (match end_frame {
                Some(end) => end,
                None => legacy_end_frame(frame_count),
            }),
            window.2 == (match window_length_frames {
                Some(length) => length,
                None => legacy_window_length(frame_count),
            }),
    {
        let default_window_length: u32 = if frame_count <= 0xffff_ffff {
            frame_count as u32
        } else {
            0xffff_ffff
        };
        let default_end_frame: u32 = if frame_count == 0 {
            0
        } else if frame_count - 1 <= 0xffff_ffff {
            (frame_count - 1) as u32
        } else {
            0
        };
        let start: u32 = match start_frame {
            Some(start) => start,
            None => 0,
        };
        let end: u32 = match end_frame {
            Some(end) => end,
            None => default_end_frame,
        };
        let length: u32 = match window_length_frames {
            Some(length) => length,
            None => default_window_length,
        };
        (start, end, length)
    }
}

/// The settings a render was made with, its summary and its frames.
#[derive(Debug, Clone, PartialEq, Eq)]
pub struct RenderedAudio {
    pub settings: AudioRenderSettings,
    pub summary: AudioRenderSummary,
    pub frames: Vec<AudioFrame>,
}

// ---------------------------------------------------------------------------
// Arithmetic as the renderer performs it
// ---------------------------------------------------------------------------

/// Integer division that rounds toward zero, for a positive divisor.
pub open spec fn trunc_div(a: int, b: int) -> int {
    if a >= 0 {
        a / b
    } else {
        -((-a) / b)
    }
}

pub open spec fn clamp_int(value: int, low: int, high: int) -> int {
    if value < low {
        low
    } else if value > high {
        high
    } else {
        value
    }
}

pub open spec fn clamp_to_i16(value: int) -> i16 {
    clamp_int(value, -32768, 32767) as i16
}

/// Absolute value that saturates at `i16::MAX`.
pub open spec fn abs_i16(value: i16) -> i16 {
    if value == -32768 {
        32767
    } else if value < 0 {
        (-value) as i16
    } else {
        value
    }
}

pub open spec fn max_i16(a: i16, b: i16) -> i16 {
    if a >= b {
        a
    } else {
        b
    }
}

// ---------------------------------------------------------------------------
// Seed: FNV-1a over the sample id, a 0xff separator and the sample name
// ---------------------------------------------------------------------------

pub open spec fn fnv_step(hash: u32, byte: u8) -> u32 {
    (((hash ^ (byte as u32)) as nat * FNV_PRIME as nat) % 0x1_0000_0000nat) as u32
}

pub open spec fn fnv_fold(hash: u32, bytes: Seq<u8>) -> u32
    decreases bytes.len(),
{
    if bytes.len() == 0 {
        hash
    } else {
        fnv_step(fnv_fold(hash, bytes.drop_last()), bytes.last())
    }
}

pub open spec fn seed_bytes(sample_id: Seq<char>, sample_name: Seq<char>) -> Seq<u8> {
    encode_utf8(sample_id) + seq![0xffu8] + encode_utf8(sample_name)
}

/// The seed of a playback render: FNV-1a of the UTF-8 sample id, 0xff and the UTF-8 sample name.
pub open spec fn playback_seed(intent: SamplePlaybackIntent) -> u32 {
    fnv_fold(FNV_OFFSET_BASIS, seed_bytes(intent.sample_id@, intent.sample_name@))
}

proof fn lemma_fnv_fold_concat(hash: u32, a: Seq<u8>, b: Seq<u8>)
    ensures
        fnv_fold(hash, a + b) == fnv_fold(fnv_fold(hash, a), b),
    decreases b.len(),
{
    if b.len() == 0 {
        assert(a + b =~= a);
    } else {
        lemma_fnv_fold_concat(hash, a, b.drop_last());
        assert((a + b).drop_last() =~= a + b.drop_last());
    }
}

proof fn lemma_fnv_fold_single(hash: u32, byte: u8)
    ensures
        fnv_fold(hash, seq![byte]) == vstd::wrapping::u32_specs::wrapping_mul(hash ^ (byte as u32), FNV_PRIME),
{
    assert(seq![byte].drop_last() =~= Seq::<u8>::empty());
    assert(fnv_fold(hash, Seq::<u8>::empty()) == hash);
    assert(fnv_fold(hash, seq![byte]) == fnv_step(hash, byte));
}

fn fnv_extend(hash: u32, bytes: &[u8]) -> (result: u32)
    ensures
        result == fnv_fold(hash, bytes@),
{
    let mut current: u32 = hash;
    let mut index: usize = 0;
    while index < bytes.len()
        invariant
            index <= bytes.len(),
            current == fnv_fold(hash, bytes@.take(index as int)),
        decreases bytes.len() - index,
    {
        proof {
            assert(bytes@.take(index + 1).drop_last() =~= bytes@.take(index as int));
        }
        current = (current ^ (bytes[index] as u32)).wrapping_mul(FNV_PRIME);
        index = index + 1;
    }
    proof {
        assert(bytes@.take(bytes.len() as int) =~= bytes@);
    }
    current
}

fn stable_seed(intent: &SamplePlaybackIntent) -> (seed: u32)
    ensures
        seed == playback_seed(*intent),
{
    let id_bytes = intent.sample_id.as_str().as_bytes();
    let after_id = fnv_extend(FNV_OFFSET_BASIS, id_bytes);
    let after_separator = (after_id ^ 0xffu32).wrapping_mul(FNV_PRIME);
    proof {
        lemma_fnv_fold_single(after_id, 0xffu8);
    }
    let name_bytes = intent.sample_name.as_str().as_bytes();
    let seed = fnv_extend(after_separator, name_bytes);
    proof {
        let ids = encode_utf8(intent.sample_id@);
        let names = encode_utf8(intent.sample_name@);
        let sep = seq![0xffu8];
        lemma_fnv_fold_concat(FNV_OFFSET_BASIS, ids, sep);
        lemma_fnv_fold_concat(FNV_OFFSET_BASIS, ids + sep, names);
    }
    seed
}

// ---------------------------------------------------------------------------
// Square wave
// ---------------------------------------------------------------------------

pub open spec fn wave_period(seed: u32, tune_cents: i16) -> int {
    clamp_int(12 + (seed as int % 53) - trunc_div(tune_cents as int, 100), 4, 128)
}

pub open spec fn wave_duty(seed: u32, tune_cents: i16) -> int {
    1 + (seed as int / 256) % (wave_period(seed, tune_cents) - 1)
}

pub open spec fn wave_phase_offset(seed: u32, tune_cents: i16) -> int {
    (seed as int / 65536 + tune_cents as int) % wave_period(seed, tune_cents)
}

/// The seeded square wave: +255 during the duty part of each period, -255 otherwise.
pub open spec fn square_wave(seed: u32, frame_index: int, tune_cents: i16) -> int {
    if (frame_index + wave_phase_offset(seed, tune_cents)) % wave_period(seed, tune_cents)
        < wave_duty(seed, tune_cents) {
        255
    } else {
        -255
    }
}

fn euclid_mod(value: i64, modulus: i64) -> (result: i64)
    requires
        -0x1_0000_0000 <= value <= 0x1_0000_0000,
        0 < modulus <= 0x1_0000,
    ensures
        result == value as int % modulus as int,
        0 <= result < modulus,
{
    if value >= 0 {
        value % modulus
    } else {
        let magnitude: i64 = (-value) % modulus;
        proof {
            let q = (-(value as int)) / (modulus as int);
            let n = (-(value as int)) % (modulus as int);
            assert(-(value as int) == q * modulus + n && 0 <= n < modulus) by (nonlinear_arith)
                requires
                    modulus > 0,
                    n == (-(value as int)) % (modulus as int),
                    q == (-(value as int)) / (modulus as int),
            ;
            if n == 0 {
                assert(value == (-q) * modulus) by (nonlinear_arith)
                    requires
                        -(value as int) == q * modulus + n,
                        n == 0,
                ;
                assert((value as int) % (modulus as int) == 0) by (nonlinear_arith)
                    requires
                        value == (-q) * modulus,
                        modulus > 0,
                ;
            } else {
                assert(value == (-q - 1) * modulus + (modulus - n)) by (nonlinear_arith)
                    requires
                        -(value as int) == q * modulus + n,
                ;
                assert((value as int) % (modulus as int) == modulus - n) by (nonlinear_arith)
                    requires
                        value == (-q - 1) * modulus + (modulus - n),
                        0 < modulus - n < modulus,
                ;
            }
        }
        if magnitude == 0 {
            0
        } else {
            modulus - magnitude
        }
    }
}

fn seeded_square_wave(seed: u32, frame_index: u64, tune_cents: i16) -> (wave: i32)
    requires
        frame_index < 0x1_0000_0000_0000,
    ensures
        wave == square_wave(seed, frame_index as int, tune_cents),
{
    let base_period: i32 = 12 + (seed % 53) as i32;
    let semitone_offset: i32 = (tune_cents as i32) / 100;
    let raw_period: i32 = base_period - semitone_offset;
    let period: i32 = if raw_period < 4 {
        4
    } else if raw_period > 128 {
        128
    } else {
        raw_period
    };
    assert(period == wave_period(seed, tune_cents));
    let high_seed: u32 = seed >> 8;
    assert(high_seed == seed / 256) by (bit_vector)
        requires
            high_seed == seed >> 8,
    ;
    let duty: u32 = 1 + high_seed % ((period as u32) - 1);
    let top_seed: u32 = seed >> 16;
    assert(top_seed == seed / 65536) by (bit_vector)
        requires
            top_seed == seed >> 16,
    ;
    let phase_seed: i64 = top_seed as i64 + tune_cents as i64;
    let phase_offset: i64 = euclid_mod(phase_seed, period as i64);
    let phase: u64 = (frame_index + phase_offset as u64) % (period as u64);
    if phase < duty as u64 {
        255
    } else {
        -255
    }
}

// ---------------------------------------------------------------------------
// Playback render
// ---------------------------------------------------------------------------

/// Peak of a playback render before panning: PCM16 full scale scaled by
/// velocity and level, each capped at 127.
pub open spec fn mono_peak(velocity: u8, level: u8) -> int {
    let v: int = if velocity > 127 { 127 } else { velocity as int };
    let l: int = if level > 127 { 127 } else { level as int };
    32767 * v * l / 16129
}

pub open spec fn clamped_pan(pan: i8) -> int {
    clamp_int(pan as int, -100, 100)
}

/// Percentage kept on the left channel: panning right attenuates the left.
pub open spec fn left_gain(pan: int) -> int {
    100 - (if pan > 0 { pan } else { 0 })
}

/// Percentage kept on the right channel: panning left attenuates the right.
pub open spec fn right_gain(pan: int) -> int {
    100 + (if pan < 0 { pan } else { 0 })
}

pub open spec fn playback_channel(mono: int, gain: int) -> i16 {
    clamp_to_i16(trunc_div(mono * gain, 100))
}

/// Frame `frame_index` of the render of `intent`, counted from the trim start.
pub open spec fn playback_frame(intent: SamplePlaybackIntent, frame_index: int) -> AudioFrame {
    let wave = square_wave(
        playback_seed(intent),
        frame_index + intent.start_frame as int,
        intent.tune_cents,
    );
    let mono = trunc_div(wave * mono_peak(intent.velocity, intent.level), 255);
    let pan = clamped_pan(intent.pan);
    AudioFrame {
        left: playback_channel(mono, left_gain(pan)),
        right: playback_channel(mono, right_gain(pan)),
    }
}

pub open spec fn playback_frames(intent: SamplePlaybackIntent, count: nat) -> Seq<AudioFrame> {
    Seq::new(count, |i: int| playback_frame(intent, i))
}

/// A playback render is as long as the requested buffer, but no longer than the trim window.
pub open spec fn playback_frame_count(intent: SamplePlaybackIntent, settings: AudioRenderSettings) -> nat {
    if settings.frame_count <= intent.window_length_frames {
        settings.frame_count as nat
    } else {
        intent.window_length_frames as nat
    }
}

pub open spec fn peak_left(frames: Seq<AudioFrame>) -> i16
    decreases frames.len(),
{
    if frames.len() == 0 {
        0
    } else {
        max_i16(peak_left(frames.drop_last()), abs_i16(frames.last().left))
    }
}

pub open spec fn peak_right(frames: Seq<AudioFrame>) -> i16
    decreases frames.len(),
{
    if frames.len() == 0 {
        0
    } else {
        max_i16(peak_right(frames.drop_last()), abs_i16(frames.last().right))
    }
}

pub open spec fn balance_of(peak_left: i16, peak_right: i16) -> ChannelBalance {
    if peak_left > peak_right {
        ChannelBalance::Left
    } else if peak_left == peak_right {
        ChannelBalance::Center
    } else {
        ChannelBalance::Right
    }
}

/// The summary of a playback render of `intent` with `settings`, whose frames are `frames`.
pub open spec fn playback_summary(
    intent: SamplePlaybackIntent,
    settings: AudioRenderSettings,
    frames: Seq<AudioFrame>,
) -> AudioRenderSummaryView {
    AudioRenderSummaryView {
        render_kind: AudioRenderKind::SamplePlayback,
        sample_rate_hz: settings.sample_rate_hz,
        frame_count: settings.frame_count,
        source_sample_id: intent.sample_id@,
        source_sample_name: intent.sample_name@,
        selected_track: intent.selected_track,
        program_index: intent.program_index,
        program_name: intent.program_name@,
        bank: intent.bank,
        pad_number: intent.pad_number,
        velocity: intent.velocity,
        level: intent.level,
        pan: intent.pan,
        tune_cents: intent.tune_cents,
        start_frame: intent.start_frame,
        end_frame: intent.end_frame,
        window_length_frames: intent.window_length_frames,
        peak_left: peak_left(frames),
        peak_right: peak_right(frames),
        peak_amplitude: max_i16(peak_left(frames), peak_right(frames)),
        channel_balance: balance_of(peak_left(frames), peak_right(frames)),
        source_kind: AudioSourceKind::RightsSafeGenerated,
        loaded_audio_byte_count: 0,
        count_in_tick: None,
        bar_index: None,
        beat_index: None,
        accent: None,
    }
}

/// `rendered` is the playback render of `intent` for the (valid) `settings`.
pub open spec fn is_playback_render(
    intent: SamplePlaybackIntent,
    settings: AudioRenderSettings,
    rendered: RenderedAudio,
) -> bool {
    let count = playback_frame_count(intent, settings);
    &&& rendered.settings == (AudioRenderSettings {
        sample_rate_hz: settings.sample_rate_hz,
        frame_count: count as usize,
    })
    &&& rendered.frames@ == playback_frames(intent, count)
    &&& rendered.summary@ == playback_summary(intent, rendered.settings, rendered.frames@)
}

fn scaled_mono_peak(velocity: u8, level: u8) -> (peak: i32)
    ensures
        peak == mono_peak(velocity, level),
        0 <= peak <= PCM_MAX,
{
    let v: i32 = if velocity > 127 { MAX_VELOCITY } else { velocity as i32 };
    let l: i32 = if level > 127 { MAX_LEVEL } else { level as i32 };
    assert(0 <= PCM_MAX * v * l <= 32767 * 16129) by (nonlinear_arith)
        requires
            0 <= v <= 127,
            0 <= l <= 127,
            PCM_MAX == 32767,
    ;
    let product: i32 = PCM_MAX * v;
    let product: i32 = product * l;
    product / (MAX_VELOCITY * MAX_LEVEL)
}

fn stereo_gains(pan: i8) -> (gains: (i32, i32))
    ensures
        gains.0 == left_gain(pan as int),
        gains.1 == right_gain(pan as int),
{
    let pan: i32 = pan as i32;
    let left: i32 = 100 - (if pan > 0 { pan } else { 0 });
    let right: i32 = 100 + (if pan < 0 { pan } else { 0 });
    (left, right)
}

fn clamp_i16(value: i32) -> (clamped: i16)
    ensures
        clamped == clamp_to_i16(value as int),
{
    if value < -32768 {
        -32768
    } else if value > 32767 {
        32767
    } else {
        value as i16
    }
}

fn saturating_abs(value: i16) -> (magnitude: i16)
    ensures
        magnitude == abs_i16(value),
{
    if value == -32768 {
        32767
    } else if value < 0 {
        -value
    } else {
        value
    }
}

fn channel_balance(peak_left: i16, peak_right: i16) -> (balance: ChannelBalance)
    ensures
        balance == balance_of(peak_left, peak_right),
{
    if peak_left > peak_right {
        ChannelBalance::Left
    } else if peak_left == peak_right {
        ChannelBalance::Center
    } else {
        ChannelBalance::Right
    }
}

/// Renders the rights-safe synthetic audio for a pad playback intent.
pub fn render_intent(intent: &SamplePlaybackIntent, settings: AudioRenderSettings) -> (result: Result<RenderedAudio, AudioRenderError>)
    ensures
        settings_error(settings) is Some ==> result == Err::<RenderedAudio, AudioRenderError>(
            settings_error(settings).unwrap(),
        ),
        settings_error(settings) is None ==> (result matches Ok(rendered) && is_playback_render(
            *intent,
            settings,
            rendered,
        )),
{
    if let Err(error) = settings.validate() {
        return Err(error);
    }
    let window: usize = intent.window_length_frames as usize;
    let render_frame_count: usize = if settings.frame_count <= window {
        settings.frame_count
    } else {
        window
    };
    let render_settings = AudioRenderSettings {
        sample_rate_hz: settings.sample_rate_hz,
        frame_count: render_frame_count,
    };
    let seed: u32 = stable_seed(intent);
    let mono_peak_value: i32 = scaled_mono_peak(intent.velocity, intent.level);
    let pan: i8 = if intent.pan < -PAN_RANGE {
        -PAN_RANGE
    } else if intent.pan > PAN_RANGE {
        PAN_RANGE
    } else {
        intent.pan
    };
    let (left_gain_value, right_gain_value) = stereo_gains(pan);
    let mut frames: Vec<AudioFrame> = Vec::with_capacity(render_frame_count);
    let mut peak_l: i16 = 0;
    let mut peak_r: i16 = 0;
    let mut frame_index: usize = 0;
    while frame_index < render_frame_count
        invariant
            frame_index <= render_frame_count,
            render_frame_count <= 192_000,
            seed == playback_seed(*intent),
            mono_peak_value == mono_peak(intent.velocity, intent.level),
            0 <= mono_peak_value <= 32767,
            pan as int == clamped_pan(intent.pan),
            left_gain_value == left_gain(pan as int),
            right_gain_value == right_gain(pan as int),
            frames@ == playback_frames(*intent, frame_index as nat),
            peak_l == peak_left(frames@),
            peak_r == peak_right(frames@),
        decreases render_frame_count - frame_index,
    {
        let source_frame_index: u64 = frame_index as u64 + intent.start_frame as u64;
        let wave: i32 = seeded_square_wave(seed, source_frame_index, intent.tune_cents);
        assert(wave == 255 || wave == -255);
        let mono: i32 = wave * mono_peak_value / 255;
        proof {
            if wave == 255 {
                assert(mono == mono_peak_value);
            } else {
                assert(mono == -mono_peak_value);
            }
            assert(-3_276_700 <= mono * left_gain_value <= 3_276_700) by (nonlinear_arith)
                requires
                    -32767 <= mono <= 32767,
                    0 <= left_gain_value <= 100,
            ;
            assert(-3_276_700 <= mono * right_gain_value <= 3_276_700) by (nonlinear_arith)
                requires
                    -32767 <= mono <= 32767,
                    0 <= right_gain_value <= 100,
            ;
        }
        let left: i16 = clamp_i16(mono * left_gain_value / 100);
        let right: i16 = clamp_i16(mono * right_gain_value / 100);
        let frame = AudioFrame { left, right };
        proof {
            assert(frame == playback_frame(*intent, frame_index as int));
        }
        let abs_left: i16 = saturating_abs(left);
        let abs_right: i16 = saturating_abs(right);
        if abs_left > peak_l {
            peak_l = abs_left;
        }
        if abs_right > peak_r {
            peak_r = abs_right;
        }
        let ghost before = frames@;
        frames.push(frame);
        proof {
            assert(frames@.drop_last() =~= before);
            assert(frames@ =~= playback_frames(*intent, (frame_index + 1) as nat));
        }
        frame_index = frame_index + 1;
    }
    let peak_amplitude: i16 = if peak_l >= peak_r { peak_l } else { peak_r };
    let balance = channel_balance(peak_l, peak_r);
    let summary = AudioRenderSummary {
        render_kind: AudioRenderKind::SamplePlayback,
        sample_rate_hz: render_settings.sample_rate_hz,
        frame_count: render_settings.frame_count,
        source_sample_id: intent.sample_id.clone(),
        source_sample_name: intent.sample_name.clone(),
        selected_track: intent.selected_track,
        program_index: intent.program_index,
        program_name: intent.program_name.clone(),
        bank: intent.bank,
        pad_number: intent.pad_number,
        velocity: intent.velocity,
        level: intent.level,
        pan: intent.pan,
        tune_cents: intent.tune_cents,
        start_frame: intent.start_frame,
        end_frame: intent.end_frame,
        window_length_frames: intent.window_length_frames,
        peak_left: peak_l,
        peak_right: peak_r,
        peak_amplitude,
        channel_balance: balance,
        source_kind: AudioSourceKind::RightsSafeGenerated,
        loaded_audio_byte_count: 0,
        count_in_tick: None,
        bar_index: None,
        beat_index: None,
        accent: None,
    };
    Ok(RenderedAudio { settings: render_settings, summary, frames })
}

// ---------------------------------------------------------------------------
// Count-in click render
// ---------------------------------------------------------------------------

/// Frames that carry the click before it falls silent: the whole buffer, but
/// no more than one 250th of a second (and at least one frame).
pub open spec fn click_active_frame_count(settings: AudioRenderSettings) -> int {
    if settings.frame_count == 0 {
        0
    } else {
        let by_rate: int = settings.sample_rate_hz as int / 250;
        let limit: int = if by_rate >= 1 { by_rate } else { 1 };
        if settings.frame_count <= limit {
            settings.frame_count as int
        } else {
            limit
        }
    }
}

/// The accented click is louder than the normal one.
pub open spec fn click_peak(accent: bool) -> int {
    if accent {
        COUNT_IN_CLICK_ACCENT_PEAK as int
    } else {
        COUNT_IN_CLICK_NORMAL_PEAK as int
    }
}

/// Mono sample `frame_index` of a click: a linearly decaying envelope whose
/// polarity flips every 3 (accent) or 5 frames, silent past the active part.
pub open spec fn click_sample(
    intent: CountInClickIntent,
    frame_index: int,
    active_frame_count: int,
    peak: int,
) -> i16 {
    if frame_index >= active_frame_count || active_frame_count == 0 {
        0
    } else {
        let phase_seed: int = ((intent.count_in_tick ^ (intent.bar_index as u64) ^ (
        intent.beat_index as u64)) & 1) as int;
        let polarity_period: int = if intent.accent { 3 } else { 5 };
        let polarity: int = if ((frame_index / polarity_period) + phase_seed) % 2 == 0 {
            1
        } else {
            -1
        };
        let envelope: int = peak * (active_frame_count - frame_index) / active_frame_count;
        clamp_to_i16(polarity * envelope)
    }
}

pub open spec fn click_frame(intent: CountInClickIntent, settings: AudioRenderSettings, frame_index: int) -> AudioFrame {
    let sample = click_sample(
        intent,
        frame_index,
        click_active_frame_count(settings),
        click_peak(intent.accent),
    );
    AudioFrame { left: sample, right: sample }
}

pub open spec fn click_frames(intent: CountInClickIntent, settings: AudioRenderSettings) -> Seq<AudioFrame> {
    Seq::new(settings.frame_count as nat, |i: int| click_frame(intent, settings, i))
}

pub open spec fn click_sample_name(accent: bool) -> Seq<char> {
    if accent {
        "COUNT-IN ACCENT"@
    } else {
        "COUNT-IN CLICK"@
    }
}

/// The summary of the count-in click render of `intent` with `settings`, whose frames are `frames`.
pub open spec fn click_summary(
    intent: CountInClickIntent,
    settings: AudioRenderSettings,
    frames: Seq<AudioFrame>,
) -> AudioRenderSummaryView {
    AudioRenderSummaryView {
        render_kind: AudioRenderKind::CountInClick,
        sample_rate_hz: settings.sample_rate_hz,
        frame_count: settings.frame_count,
        source_sample_id: "count_in_click"@,
        source_sample_name: click_sample_name(intent.accent),
        selected_track: 0,
        program_index: 0,
        program_name: "Metronome"@,
        bank: PadBank::A,
        pad_number: 0,
        velocity: if intent.accent { 127 } else { 96 },
        level: 127,
        pan: 0,
        tune_cents: 0,
        start_frame: 0,
        end_frame: if settings.frame_count == 0 { 0 } else { (settings.frame_count - 1) as u32 },
        window_length_frames: settings.frame_count as u32,
        peak_left: peak_left(frames),
        peak_right: peak_right(frames),
        peak_amplitude: max_i16(peak_left(frames), peak_right(frames)),
        channel_balance: balance_of(peak_left(frames), peak_right(frames)),
        source_kind: AudioSourceKind::RightsSafeGenerated,
        loaded_audio_byte_count: 0,
        count_in_tick: Some(intent.count_in_tick),
        bar_index: Some(intent.bar_index),
        beat_index: Some(intent.beat_index),
        accent: Some(intent.accent),
    }
}

/// `rendered` is the count-in click render of `intent` for the (valid) `settings`.
pub open spec fn is_click_render(
    intent: CountInClickIntent,
    settings: AudioRenderSettings,
    rendered: RenderedAudio,
) -> bool {
    &&& rendered.settings == settings
    &&& rendered.frames@ == click_frames(intent, settings)
    &&& rendered.summary@ == click_summary(intent, settings, rendered.frames@)
}

fn count_in_click_active_frame_count(settings: AudioRenderSettings) -> (count: usize)
    ensures
        count == click_active_frame_count(settings),
{
    if settings.frame_count == 0 {
        return 0;
    }
    let by_rate: usize = settings.sample_rate_hz as usize / COUNT_IN_CLICK_ACTIVE_RATE_DIVISOR;
    let limit: usize = if by_rate >= 1 { by_rate } else { 1 };
    if settings.frame_count <= limit {
        settings.frame_count
    } else {
        limit
    }
}

fn count_in_click_peak(accent: bool) -> (peak: i32)
    ensures
        peak == click_peak(accent),
{
    if accent {
        COUNT_IN_CLICK_ACCENT_PEAK
    } else {
        COUNT_IN_CLICK_NORMAL_PEAK
    }
}

fn count_in_click_sample(
    intent: &CountInClickIntent,
    frame_index: usize,
    active_frame_count: usize,
    peak: i32,
) -> (sample: i16)
    requires
        active_frame_count <= 768,
        0 <= peak <= COUNT_IN_CLICK_ACCENT_PEAK,
    ensures
        sample == click_sample(*intent, frame_index as int, active_frame_count as int, peak as int),
{
    if frame_index >= active_frame_count || active_frame_count == 0 {
        return 0;
    }
    let mixed: u64 = intent.count_in_tick ^ (intent.bar_index as u64) ^ (intent.beat_index as u64);
    let low_bit: u64 = mixed & 1;
    assert(low_bit <= 1) by (bit_vector)
        requires
            low_bit == mixed & 1,
    ;
    let phase_seed: usize = low_bit as usize;
    let polarity_period: usize = if intent.accent { 3 } else { 5 };
    let polarity: i32 = if ((frame_index / polarity_period) + phase_seed) % 2 == 0 {
        1
    } else {
        -1
    };
    let remaining: i32 = (active_frame_count - frame_index) as i32;
    let active: i32 = active_frame_count as i32;
    assert(0 <= peak * remaining <= 24_000 * 768) by (nonlinear_arith)
        requires
            0 <= peak <= 24_000,
            0 <= remaining <= 768,
    ;
    let envelope: i32 = peak * remaining / active;
    assert(0 <= envelope <= peak) by (nonlinear_arith)
        requires
            envelope as int == (peak as int * remaining as int) / (active as int),
            0 <= peak,
            0 < remaining <= active,
    ;
    clamp_i16(polarity * envelope)
}

/// Renders the rights-safe synthetic metronome click for a count-in intent.
pub fn render_count_in_click(intent: &CountInClickIntent, settings: AudioRenderSettings) -> (result: Result<RenderedAudio, AudioRenderError>)
    ensures
        settings_error(settings) is Some ==> result == Err::<RenderedAudio, AudioRenderError>(
            settings_error(settings).unwrap(),
        ),
        settings_error(settings) is None ==> (result matches Ok(rendered) && is_click_render(
            *intent,
            settings,
            rendered,
        )),
{
    if let Err(error) = settings.validate() {
        return Err(error);
    }
    let render_settings = settings;
    let active_frame_count: usize = count_in_click_active_frame_count(render_settings);
    let peak: i32 = count_in_click_peak(intent.accent);
    let mut frames: Vec<AudioFrame> = Vec::with_capacity(render_settings.frame_count);
    let mut peak_l: i16 = 0;
    let mut peak_r: i16 = 0;
    let mut frame_index: usize = 0;
    while frame_index < render_settings.frame_count
        invariant
            frame_index <= render_settings.frame_count,
            render_settings == settings,
            settings_valid(settings),
            active_frame_count == click_active_frame_count(settings),
            peak == click_peak(intent.accent),
            frames@ =~= Seq::new(frame_index as nat, |i: int| click_frame(*intent, settings, i)),
            peak_l == peak_left(frames@),
            peak_r == peak_right(frames@),
        decreases render_settings.frame_count - frame_index,
    {
        let mono: i16 = count_in_click_sample(intent, frame_index, active_frame_count, peak);
        let frame = AudioFrame { left: mono, right: mono };
        let magnitude: i16 = saturating_abs(mono);
        if magnitude > peak_l {
            peak_l = magnitude;
        }
        if magnitude > peak_r {
            peak_r = magnitude;
        }
        let ghost before = frames@;
        frames.push(frame);
        proof {
            assert(frames@.drop_last() =~= before);
        }
        frame_index = frame_index + 1;
    }
    let frame_count_u32: u32 = render_settings.frame_count as u32;
    let peak_amplitude: i16 = if peak_l >= peak_r { peak_l } else { peak_r };
    let balance = channel_balance(peak_l, peak_r);
    let source_sample_name = if intent.accent {
        "COUNT-IN ACCENT".to_owned()
    } else {
        "COUNT-IN CLICK".to_owned()
    };
    let summary = AudioRenderSummary {
        render_kind: AudioRenderKind::CountInClick,
        sample_rate_hz: render_settings.sample_rate_hz,
        frame_count: render_settings.frame_count,
        source_sample_id: "count_in_click".to_owned(),
        source_sample_name,
        selected_track: 0,
        program_index: 0,
        program_name: "Metronome".to_owned(),
        bank: PadBank::A,
        pad_number: 0,
        velocity: if intent.accent { 127 } else { 96 },
        level: 127,
        pan: 0,
        tune_cents: 0,
        start_frame: 0,
        end_frame: if frame_count_u32 == 0 { 0 } else { frame_count_u32 - 1 },
        window_length_frames: frame_count_u32,
        peak_left: peak_l,
        peak_right: peak_r,
        peak_amplitude,
        channel_balance: balance,
        source_kind: AudioSourceKind::RightsSafeGenerated,
        loaded_audio_byte_count: 0,
        count_in_tick: Some(intent.count_in_tick),
        bar_index: Some(intent.bar_index),
        beat_index: Some(intent.beat_index),
        accent: Some(intent.accent),
    };
    Ok(RenderedAudio { settings: render_settings, summary, frames })
}

} // verus!
