use vstd::prelude::*;
use vstd::string::StringExecFns;
use crate::text::{decimal, push_decimal};

verus! {

pub const DEFAULT_SAMPLE_RATE_HZ: u32 = 44_100;

pub const DEFAULT_FRAME_COUNT: usize = 512;

/// Lowest accepted render sample rate: malformed zero or near-zero rates are
/// rejected before any render allocation happens.
pub const MIN_SAMPLE_RATE_HZ: u32 = 8_000;

/// Highest accepted render sample rate.
pub const MAX_SAMPLE_RATE_HZ: u32 = 192_000;

/// One render buffer holds at most one second at the highest accepted rate.
pub const MAX_RENDER_FRAMES: usize = 192_000;

/// Why a set of render settings was refused.
#[derive(Debug, Clone, Copy, PartialEq, Eq, Structural)]
pub enum AudioRenderError {
    SampleRateBelowMinimum { sample_rate_hz: u32, min_sample_rate_hz: u32 },
    SampleRateAboveMaximum { sample_rate_hz: u32, max_sample_rate_hz: u32 },
    FrameCountTooLarge { frame_count: usize, max_frame_count: usize },
}

/// Sample rate and buffer length of one render.
#[derive(Debug, Clone, Copy, PartialEq, Eq, Structural)]
pub struct AudioRenderSettings {
    pub sample_rate_hz: u32,
    pub frame_count: usize,
}

/// The first guardrail that `settings` breaks, checked in the order
/// lower rate bound, upper rate bound, frame count; `None` when all hold.
pub open spec fn settings_error(settings: AudioRenderSettings) -> Option<AudioRenderError> {
    if settings.sample_rate_hz < MIN_SAMPLE_RATE_HZ {
        Some(AudioRenderError::SampleRateBelowMinimum {
            sample_rate_hz: settings.sample_rate_hz,
            min_sample_rate_hz: MIN_SAMPLE_RATE_HZ,
        })
    } else if settings.sample_rate_hz > MAX_SAMPLE_RATE_HZ {
        Some(AudioRenderError::SampleRateAboveMaximum {
            sample_rate_hz: settings.sample_rate_hz,
            max_sample_rate_hz: MAX_SAMPLE_RATE_HZ,
        })
    } else if settings.frame_count > MAX_RENDER_FRAMES {
        Some(AudioRenderError::FrameCountTooLarge {
            frame_count: settings.frame_count,
            max_frame_count: MAX_RENDER_FRAMES,
        })
    } else {
        None
    }
}

/// Settings that pass every guardrail.
pub open spec fn settings_valid(settings: AudioRenderSettings) -> bool {
    &&& MIN_SAMPLE_RATE_HZ <= settings.sample_rate_hz <= MAX_SAMPLE_RATE_HZ
    &&& settings.frame_count <= MAX_RENDER_FRAMES
}

pub proof fn lemma_settings_error_none_iff_valid(settings: AudioRenderSettings)
    ensures
        settings_error(settings) is None <==> settings_valid(settings),
{
}

impl AudioRenderSettings {
    /// Builds settings, refusing those that break a guardrail.
    pub fn new(sample_rate_hz: u32, frame_count: usize) -> (result: Result<Self, AudioRenderError>)
        ensures
            match settings_error(AudioRenderSettings { sample_rate_hz, frame_count }) {
                Some(error) => result == Err::<Self, AudioRenderError>(error),
                None => result == Ok::<Self, AudioRenderError>(
                    AudioRenderSettings { sample_rate_hz, frame_count },
                ),
            },
    {
        let settings = Self { sample_rate_hz, frame_count };
        match settings.validate() {
            Ok(()) => Ok(settings),
            Err(error) => Err(error),
        }
    }

    /// Short settings used for UI previews.
    pub fn preview() -> (settings: Self)
        ensures
            settings == (AudioRenderSettings { sample_rate_hz: DEFAULT_SAMPLE_RATE_HZ, frame_count: 256 }),
            settings_valid(settings),
    {
        Self { sample_rate_hz: DEFAULT_SAMPLE_RATE_HZ, frame_count: 256 }
    }

    /// Checks the guardrails, reporting the first one that is broken.
    pub fn validate(&self) -> (result: Result<(), AudioRenderError>)
        ensures
            match settings_error(*self) {
                Some(error) => result == Err::<(), AudioRenderError>(error),
                None => result is Ok,
            },
            result is Ok <==> settings_valid(*self),
    {
        if self.sample_rate_hz < MIN_SAMPLE_RATE_HZ {
            return Err(AudioRenderError::SampleRateBelowMinimum {
                sample_rate_hz: self.sample_rate_hz,
                min_sample_rate_hz: MIN_SAMPLE_RATE_HZ,
            });
        }
        if self.sample_rate_hz > MAX_SAMPLE_RATE_HZ {
            return Err(AudioRenderError::SampleRateAboveMaximum {
                sample_rate_hz: self.sample_rate_hz,
                max_sample_rate_hz: MAX_SAMPLE_RATE_HZ,
            });
        }
        if self.frame_count > MAX_RENDER_FRAMES {
            return Err(AudioRenderError::FrameCountTooLarge {
                frame_count: self.frame_count,
                max_frame_count: MAX_RENDER_FRAMES,
            });
        }
        Ok(())
    }
}

/// The text that describes a refused setting.
pub open spec fn render_error_message(error: AudioRenderError) -> Seq<char> {
    match error {
        AudioRenderError::SampleRateBelowMinimum { sample_rate_hz, min_sample_rate_hz } => {
            "sample rate "@ + decimal(sample_rate_hz as nat) + " Hz is below minimum "@ + decimal(
                min_sample_rate_hz as nat,
            ) + " Hz"@
        },
        AudioRenderError::SampleRateAboveMaximum { sample_rate_hz, max_sample_rate_hz } => {
            "sample rate "@ + decimal(sample_rate_hz as nat) + " Hz exceeds maximum "@ + decimal(
                max_sample_rate_hz as nat,
            ) + " Hz"@
        },
        AudioRenderError::FrameCountTooLarge { frame_count, max_frame_count } => {
            "frame count "@ + decimal(frame_count as nat) + " exceeds maximum "@ + decimal(
                max_frame_count as nat,
            )
        },
    }
}

impl AudioRenderError {
    /// Describes the refused setting, e.g. `frame count 192001 exceeds maximum 192000`.
    pub fn message(&self) -> (text: String)
        ensures
            text@ == render_error_message(*self),
    {
        let mut text = String::new();
        match *self {
            AudioRenderError::SampleRateBelowMinimum { sample_rate_hz, min_sample_rate_hz } => {
                text.append("sample rate ");
                push_decimal(&mut text, sample_rate_hz as u64);
                text.append(" Hz is below minimum ");
                push_decimal(&mut text, min_sample_rate_hz as u64);
                text.append(" Hz");
            },
            AudioRenderError::SampleRateAboveMaximum { sample_rate_hz, max_sample_rate_hz } => {
                text.append("sample rate ");
                push_decimal(&mut text, sample_rate_hz as u64);
                text.append(" Hz exceeds maximum ");
                push_decimal(&mut text, max_sample_rate_hz as u64);
                text.append(" Hz");
            },
            AudioRenderError::FrameCountTooLarge { frame_count, max_frame_count } => {
                text.append("frame count ");
                push_decimal(&mut text, frame_count as u64);
                text.append(" exceeds maximum ");
                push_decimal(&mut text, max_frame_count as u64);
            },
        }
        proof {
            assert(text@ =~= render_error_message(*self));
        }
        text
    }
}

impl Default for AudioRenderSettings {
    fn default() -> (settings: Self)
        ensures
            settings == (AudioRenderSettings { sample_rate_hz: DEFAULT_SAMPLE_RATE_HZ, frame_count: DEFAULT_FRAME_COUNT }),
    {
        Self { sample_rate_hz: DEFAULT_SAMPLE_RATE_HZ, frame_count: DEFAULT_FRAME_COUNT }
    }
}

} // verus!
