//! Deterministic host-side audio for an MPC2000XL-style instrument: render
//! settings with guardrails, rights-safe synthetic rendering of pad and
//! count-in intents, and a host-audio engine that validates renders and
//! backend receipts and accounts for a bounded set of active voices.
//!
//! Around the engine: the checks that fixtures make of it (mismatch reports
//! written the way `{:?}` writes values), the rights boundary of saved
//! project JSON, and the status texts of the desktop shell.

pub mod conformance;
pub mod debug_text;
pub mod display;
pub mod engine;
pub mod fixture;
pub mod host;
pub mod intents;
pub mod laws;
pub mod mismatch;
pub mod project_file;
pub mod project_json;
pub mod render;
pub mod settings;
pub mod text;

pub use engine::{HostAudioEngine, HostAudioEngineView};
pub use host::{
    CaptureAudioBackend, CapturedHostAudioRender, DEFAULT_HOST_AUDIO_VOICE_LIMIT, HostAudioBackend,
    HostAudioBackendError, HostAudioBackendReceipt, HostAudioError, HostAudioEvent,
    HostAudioIgnoreReason, HostAudioMode, HostAudioPlaybackReport, HostAudioReleaseReceipt,
    HostAudioRenderReceipt, HostAudioState, HostAudioVoiceAllocationReceipt,
    HostAudioVoiceSummary, InvalidBackendReceiptError, InvalidRenderedAudioError,
    MAX_CAPTURE_AUDIO_BACKEND_CAPTURES, MAX_HOST_AUDIO_VOICE_LIMIT, MIN_HOST_AUDIO_VOICE_LIMIT,
    NullAudioBackend,
};
pub use intents::{CountInClickIntent, PadBank, SamplePlaybackIntent, SampleReleaseIntent};
pub use render::{
    AudioFrame, AudioRenderKind, AudioRenderSummary, AudioSourceKind, ChannelBalance,
    RenderedAudio, render_count_in_click, render_intent,
};
pub use settings::{
    AudioRenderError, AudioRenderSettings, DEFAULT_FRAME_COUNT, DEFAULT_SAMPLE_RATE_HZ,
    MAX_RENDER_FRAMES, MAX_SAMPLE_RATE_HZ, MIN_SAMPLE_RATE_HZ,
};
