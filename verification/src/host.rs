use std::collections::VecDeque;
use vstd::prelude::*;
use vstd::string::StringExecFns;
use vstd::std_specs::cmp::PartialEqSpecImpl;
use crate::engine::backend_error_result_view;
use crate::text::{decimal, push_decimal};
use crate::intents::{
    CountInClickIntent, PadBank, SamplePlaybackIntent, SampleReleaseIntent, SampleReleaseIntentView,
};
use crate::render::{
    AudioFrame, AudioRenderKind, AudioRenderSummary, AudioRenderSummaryView, RenderedAudio, click_frames,
    click_summary, playback_frame_count, playback_frames, playback_summary, render_count_in_click,
    render_intent,
};
use crate::settings::{
    AudioRenderError, AudioRenderSettings, render_error_message, settings_error, settings_valid,
};

verus! {

pub const DEFAULT_HOST_AUDIO_VOICE_LIMIT: usize = 32;

pub const MIN_HOST_AUDIO_VOICE_LIMIT: usize = 1;

pub const MAX_HOST_AUDIO_VOICE_LIMIT: usize = 128;

/// A capture backend never keeps more render summaries than this.
pub const MAX_CAPTURE_AUDIO_BACKEND_CAPTURES: usize = 1_024;

#[derive(Debug, Clone, Copy, PartialEq, Eq, Structural)]
pub enum HostAudioMode {
    Disabled,
    Enabled,
}

#[derive(Debug, Clone, Copy, PartialEq, Eq, Structural)]
pub enum HostAudioIgnoreReason {
    Disabled,
}

/// The voice that an accepted render was given, and the voice it displaced.
#[derive(Debug, Clone, Copy, PartialEq, Eq, Structural)]
pub struct HostAudioVoiceAllocationReceipt {
    pub voice_id: u64,
    pub stolen_voice_id: Option<u64>,
    pub voice_limit: usize,
    pub active_voice_count: usize,
}

/// What the engine accepted from the backend for one render.
#[derive(Debug, Clone, PartialEq, Eq)]
pub struct HostAudioRenderReceipt {
    pub summary: AudioRenderSummary,
    pub frame_count: usize,
    pub queued: bool,
    pub played: bool,
    pub voice_allocation: Option<HostAudioVoiceAllocationReceipt>,
}

/// One sounding voice.
#[derive(Debug, Clone, PartialEq, Eq)]
pub struct HostAudioVoiceSummary {
    pub voice_id: u64,
    pub render_kind: AudioRenderKind,
    pub source_label: String,
    pub source_sample_id: String,
    pub bank: PadBank,
    pub pad_number: u8,
    pub total_frame_count: usize,
    pub remaining_frame_count: usize,
}

/// Which voices a release intent stopped.
#[derive(Debug, Clone, PartialEq, Eq)]
pub struct HostAudioReleaseReceipt {
    pub intent: SampleReleaseIntent,
    pub released_voice_ids: Vec<u64>,
    pub released_voice_count: usize,
    pub active_voice_count: usize,
}

/// The event of a playback request together with the summary of its render.
#[derive(Debug, Clone, PartialEq, Eq)]
pub struct HostAudioPlaybackReport {
    pub event: HostAudioEvent,
    pub render_summary: Option<AudioRenderSummary>,
}

/// What the engine did with one request.
#[derive(Debug, Clone, PartialEq, Eq)]
pub enum HostAudioEvent {
    Ignored { backend_name: String, reason: HostAudioIgnoreReason },
    Enqueued { backend_name: String, receipt: HostAudioRenderReceipt },
    Released { backend_name: String, receipt: HostAudioReleaseReceipt },
    Failed { backend_name: String, error: HostAudioError, summary: Option<AudioRenderSummary> },
}

/// A snapshot of the engine for display and fixtures.
#[derive(Debug, Clone, PartialEq, Eq)]
pub struct HostAudioState {
    pub mode: HostAudioMode,
    pub backend_name: String,
    pub render_settings: AudioRenderSettings,
    pub queued_render_count: u64,
    pub played_render_count: u64,
    pub voice_limit: usize,
    pub active_voice_count: usize,
    pub completed_voice_count: u64,
    pub stolen_voice_count: u64,
    pub released_voice_count: u64,
    pub active_voices: Vec<HostAudioVoiceSummary>,
    pub last_event: Option<HostAudioEvent>,
}

#[derive(Debug, Clone, PartialEq, Eq)]
pub enum HostAudioError {
    Render { error: AudioRenderError },
    InvalidRenderedAudio { error: InvalidRenderedAudioError },
    InvalidBackendReceipt { error: InvalidBackendReceiptError },
    Backend { error: HostAudioBackendError },
}

#[derive(Debug, Clone, Copy, PartialEq, Eq, Structural)]
pub enum InvalidRenderedAudioError {
    FrameCountMismatch {
        settings_frame_count: usize,
        summary_frame_count: usize,
        actual_frame_count: usize,
    },
}

#[derive(Debug, Clone, Copy, PartialEq, Eq, Structural)]
pub enum InvalidBackendReceiptError {
    PlayedWithoutQueued,
    FrameCountMismatch { receipt_frame_count: usize, rendered_frame_count: usize },
}

#[derive(Debug, Clone, PartialEq, Eq)]
pub enum HostAudioBackendError {
    BackendUnavailable { backend_name: String, message: String },
}

// ---------------------------------------------------------------------------
// Views: the same values with strings taken by their characters
// ---------------------------------------------------------------------------

pub struct HostAudioRenderReceiptView {
    pub summary: AudioRenderSummaryView,
    pub frame_count: usize,
    pub queued: bool,
    pub played: bool,
    pub voice_allocation: Option<HostAudioVoiceAllocationReceipt>,
}

pub struct HostAudioVoiceSummaryView {
    pub voice_id: u64,
    pub render_kind: AudioRenderKind,
    pub source_label: Seq<char>,
    pub source_sample_id: Seq<char>,
    pub bank: PadBank,
    pub pad_number: u8,
    pub total_frame_count: usize,
    pub remaining_frame_count: usize,
}

pub struct HostAudioReleaseReceiptView {
    pub intent: SampleReleaseIntentView,
    pub released_voice_ids: Seq<u64>,
    pub released_voice_count: usize,
    pub active_voice_count: usize,
}

pub enum HostAudioBackendErrorView {
    BackendUnavailable { backend_name: Seq<char>, message: Seq<char> },
}

pub enum HostAudioErrorView {
    Render { error: AudioRenderError },
    InvalidRenderedAudio { error: InvalidRenderedAudioError },
    InvalidBackendReceipt { error: InvalidBackendReceiptError },
    Backend { error: HostAudioBackendErrorView },
}

pub enum HostAudioEventView {
    Ignored { backend_name: Seq<char>, reason: HostAudioIgnoreReason },
    Enqueued { backend_name: Seq<char>, receipt: HostAudioRenderReceiptView },
    Released { backend_name: Seq<char>, receipt: HostAudioReleaseReceiptView },
    Failed {
        backend_name: Seq<char>,
        error: HostAudioErrorView,
        summary: Option<AudioRenderSummaryView>,
    },
}

pub struct HostAudioStateView {
    pub mode: HostAudioMode,
    pub backend_name: Seq<char>,
    pub render_settings: AudioRenderSettings,
    pub queued_render_count: u64,
    pub played_render_count: u64,
    pub voice_limit: usize,
    pub active_voice_count: usize,
    pub completed_voice_count: u64,
    pub stolen_voice_count: u64,
    pub released_voice_count: u64,
    pub active_voices: Seq<HostAudioVoiceSummaryView>,
    pub last_event: Option<HostAudioEventView>,
}

pub open spec fn summary_option_view(summary: Option<AudioRenderSummary>) -> Option<AudioRenderSummaryView> {
    match summary {
        Some(s) => Some(s@),
        None => None,
    }
}

pub open spec fn event_option_view(event: Option<HostAudioEvent>) -> Option<HostAudioEventView> {
    match event {
        Some(e) => Some(e@),
        None => None,
    }
}

impl View for HostAudioRenderReceipt {
    type V = HostAudioRenderReceiptView;

    open spec fn view(&self) -> HostAudioRenderReceiptView {
        HostAudioRenderReceiptView {
            summary: self.summary@,
            frame_count: self.frame_count,
            queued: self.queued,
            played: self.played,
            voice_allocation: self.voice_allocation,
        }
    }
}

impl View for HostAudioVoiceSummary {
    type V = HostAudioVoiceSummaryView;

    open spec fn view(&self) -> HostAudioVoiceSummaryView {
        HostAudioVoiceSummaryView {
            voice_id: self.voice_id,
            render_kind: self.render_kind,
            source_label: self.source_label@,
            source_sample_id: self.source_sample_id@,
            bank: self.bank,
            pad_number: self.pad_number,
            total_frame_count: self.total_frame_count,
            remaining_frame_count: self.remaining_frame_count,
        }
    }
}

impl View for HostAudioReleaseReceipt {
    type V = HostAudioReleaseReceiptView;

    open spec fn view(&self) -> HostAudioReleaseReceiptView {
        HostAudioReleaseReceiptView {
            intent: self.intent@,
            released_voice_ids: self.released_voice_ids@,
            released_voice_count: self.released_voice_count,
            active_voice_count: self.active_voice_count,
        }
    }
}

impl View for HostAudioBackendError {
    type V = HostAudioBackendErrorView;

    open spec fn view(&self) -> HostAudioBackendErrorView {
        match self {
            HostAudioBackendError::BackendUnavailable { backend_name, message } => {
                HostAudioBackendErrorView::BackendUnavailable {
                    backend_name: backend_name@,
                    message: message@,
                }
            },
        }
    }
}

impl View for HostAudioError {
    type V = HostAudioErrorView;

    open spec fn view(&self) -> HostAudioErrorView {
        match self {
            HostAudioError::Render { error } => HostAudioErrorView::Render { error: *error },
            HostAudioError::InvalidRenderedAudio { error } => {
                HostAudioErrorView::InvalidRenderedAudio { error: *error }
            },
            HostAudioError::InvalidBackendReceipt { error } => {
                HostAudioErrorView::InvalidBackendReceipt { error: *error }
            },
            HostAudioError::Backend { error } => HostAudioErrorView::Backend { error: error@ },
        }
    }
}

impl View for HostAudioEvent {
    type V = HostAudioEventView;

    open spec fn view(&self) -> HostAudioEventView {
        match self {
            HostAudioEvent::Ignored { backend_name, reason } => HostAudioEventView::Ignored {
                backend_name: backend_name@,
                reason: *reason,
            },
            HostAudioEvent::Enqueued { backend_name, receipt } => HostAudioEventView::Enqueued {
                backend_name: backend_name@,
                receipt: receipt@,
            },
            HostAudioEvent::Released { backend_name, receipt } => HostAudioEventView::Released {
                backend_name: backend_name@,
                receipt: receipt@,
            },
            HostAudioEvent::Failed { backend_name, error, summary } => HostAudioEventView::Failed {
                backend_name: backend_name@,
                error: error@,
                summary: summary_option_view(*summary),
            },
        }
    }
}

impl View for HostAudioState {
    type V = HostAudioStateView;

    open spec fn view(&self) -> HostAudioStateView {
        HostAudioStateView {
            mode: self.mode,
            backend_name: self.backend_name@,
            render_settings: self.render_settings,
            queued_render_count: self.queued_render_count,
            played_render_count: self.played_render_count,
            voice_limit: self.voice_limit,
            active_voice_count: self.active_voice_count,
            completed_voice_count: self.completed_voice_count,
            stolen_voice_count: self.stolen_voice_count,
            released_voice_count: self.released_voice_count,
            active_voices: self.active_voices@.map_values(|v: HostAudioVoiceSummary| v@),
            last_event: event_option_view(self.last_event),
        }
    }
}

// ---------------------------------------------------------------------------
// Copies that keep the view
// ---------------------------------------------------------------------------

fn duplicate_summary_option(summary: &Option<AudioRenderSummary>) -> (copy: Option<AudioRenderSummary>)
    ensures
        summary_option_view(copy) == summary_option_view(*summary),
{
    match summary {
        Some(s) => Some(s.duplicate()),
        None => None,
    }
}

fn duplicate_ids(ids: &Vec<u64>) -> (copy: Vec<u64>)
    ensures
        copy@ == ids@,
{
    let mut copy: Vec<u64> = Vec::with_capacity(ids.len());
    let mut index: usize = 0;
    while index < ids.len()
        invariant
            index <= ids.len(),
            copy@ == ids@.take(index as int),
        decreases ids.len() - index,
    {
        copy.push(ids[index]);
        index = index + 1;
        proof {
            assert(copy@ =~= ids@.take(index as int));
        }
    }
    proof {
        assert(ids@.take(ids.len() as int) =~= ids@);
    }
    copy
}

/// The bank of a voice recorded before voices carried their pad.
pub fn default_voice_bank() -> (bank: PadBank)
    ensures
        bank == PadBank::A,
{
    PadBank::A
}

impl HostAudioVoiceSummary {
    /// A field-for-field copy.
    pub fn duplicate(&self) -> (copy: Self)
        ensures
            copy@ == self@,
    {
        HostAudioVoiceSummary {
            voice_id: self.voice_id,
            render_kind: self.render_kind,
            source_label: self.source_label.clone(),
            source_sample_id: self.source_sample_id.clone(),
            bank: self.bank,
            pad_number: self.pad_number,
            total_frame_count: self.total_frame_count,
            remaining_frame_count: self.remaining_frame_count,
        }
    }
}

impl HostAudioBackendError {
    /// The backend named `backend_name` cannot take renders; `message` says why.
    pub fn backend_unavailable(backend_name: &str, message: &str) -> (error: Self)
        ensures
            error@ == (HostAudioBackendErrorView::BackendUnavailable {
                backend_name: backend_name@,
                message: message@,
            }),
    {
        HostAudioBackendError::BackendUnavailable {
            backend_name: backend_name.to_owned(),
            message: message.to_owned(),
        }
    }

    /// A field-for-field copy.
    pub fn duplicate(&self) -> (copy: Self)
        ensures
            copy@ == self@,
    {
        match self {
            HostAudioBackendError::BackendUnavailable { backend_name, message } => {
                HostAudioBackendError::BackendUnavailable {
                    backend_name: backend_name.clone(),
                    message: message.clone(),
                }
            },
        }
    }
}

impl HostAudioError {
    pub(crate) fn render(error: AudioRenderError) -> (e: Self)
        ensures
            e == (HostAudioError::Render { error }),
    {
        HostAudioError::Render { error }
    }

    pub(crate) fn invalid_rendered_audio(error: InvalidRenderedAudioError) -> (e: Self)
        ensures
            e == (HostAudioError::InvalidRenderedAudio { error }),
    {
        HostAudioError::InvalidRenderedAudio { error }
    }

    pub(crate) fn invalid_backend_receipt(error: InvalidBackendReceiptError) -> (e: Self)
        ensures
            e == (HostAudioError::InvalidBackendReceipt { error }),
    {
        HostAudioError::InvalidBackendReceipt { error }
    }

    pub(crate) fn backend(error: HostAudioBackendError) -> (e: Self)
        ensures
            e == (HostAudioError::Backend { error }),
    {
        HostAudioError::Backend { error }
    }

    /// A field-for-field copy.
    pub fn duplicate(&self) -> (copy: Self)
        ensures
            copy@ == self@,
    {
        match self {
            HostAudioError::Render { error } => HostAudioError::Render { error: *error },
            HostAudioError::InvalidRenderedAudio { error } => {
                HostAudioError::InvalidRenderedAudio { error: *error }
            },
            HostAudioError::InvalidBackendReceipt { error } => {
                HostAudioError::InvalidBackendReceipt { error: *error }
            },
            HostAudioError::Backend { error } => HostAudioError::Backend { error: error.duplicate() },
        }
    }
}

impl HostAudioRenderReceipt {
    /// A field-for-field copy.
    pub fn duplicate(&self) -> (copy: Self)
        ensures
            copy@ == self@,
    {
        HostAudioRenderReceipt {
            summary: self.summary.duplicate(),
            frame_count: self.frame_count,
            queued: self.queued,
            played: self.played,
            voice_allocation: self.voice_allocation,
        }
    }
}

impl HostAudioReleaseReceipt {
    /// A field-for-field copy.
    pub fn duplicate(&self) -> (copy: Self)
        ensures
            copy@ == self@,
    {
        HostAudioReleaseReceipt {
            intent: self.intent.duplicate(),
            released_voice_ids: duplicate_ids(&self.released_voice_ids),
            released_voice_count: self.released_voice_count,
            active_voice_count: self.active_voice_count,
        }
    }
}

impl HostAudioEvent {
    /// A field-for-field copy.
    pub fn duplicate(&self) -> (copy: Self)
        ensures
            copy@ == self@,
    {
        match self {
            HostAudioEvent::Ignored { backend_name, reason } => HostAudioEvent::Ignored {
                backend_name: backend_name.clone(),
                reason: *reason,
            },
            HostAudioEvent::Enqueued { backend_name, receipt } => HostAudioEvent::Enqueued {
                backend_name: backend_name.clone(),
                receipt: receipt.duplicate(),
            },
            HostAudioEvent::Released { backend_name, receipt } => HostAudioEvent::Released {
                backend_name: backend_name.clone(),
                receipt: receipt.duplicate(),
            },
            HostAudioEvent::Failed { backend_name, error, summary } => HostAudioEvent::Failed {
                backend_name: backend_name.clone(),
                error: error.duplicate(),
                summary: duplicate_summary_option(summary),
            },
        }
    }
}

// ---------------------------------------------------------------------------
// Backends
// ---------------------------------------------------------------------------

/// What a backend answered for one render: how many frames it took and
/// whether it queued and played them.
#[derive(Debug, Clone, Copy, PartialEq, Eq, Structural)]
pub struct HostAudioBackendReceipt {
    pub frame_count: usize,
    pub queued: bool,
    pub played: bool,
}

impl HostAudioBackendReceipt {
    pub fn not_queued(frame_count: usize) -> (receipt: Self)
        ensures
            receipt == (HostAudioBackendReceipt { frame_count, queued: false, played: false }),
    {
        Self { frame_count, queued: false, played: false }
    }

    pub fn queued(frame_count: usize) -> (receipt: Self)
        ensures
            receipt == (HostAudioBackendReceipt { frame_count, queued: true, played: false }),
    {
        Self { frame_count, queued: true, played: false }
    }

    pub fn queued_and_played(frame_count: usize) -> (receipt: Self)
        ensures
            receipt == (HostAudioBackendReceipt { frame_count, queued: true, played: true }),
    {
        Self { frame_count, queued: true, played: true }
    }

    pub fn frame_count(&self) -> (count: usize)
        ensures
            count == self.frame_count,
    {
        self.frame_count
    }

    pub fn is_queued(&self) -> (queued: bool)
        ensures
            queued == self.queued,
    {
        self.queued
    }

    pub fn is_played(&self) -> (played: bool)
        ensures
            played == self.played,
    {
        self.played
    }
}

/// Where rendered audio goes: a device, a capture buffer, or nowhere.
/// Implementations decide freely what `enqueue_render` answers; the engine
/// checks every answer before it counts it.
pub trait HostAudioBackend {
    /// The characters of the name `backend_name` returns. Every implementation
    /// in this crate defines it as its stored name. Without a body here an
    /// implementation written in ordinary Rust, outside verified code, would
    /// not compile, so the trait gives one; such an implementation is not held
    /// to `backend_name`'s contract by anything but its author.
    closed spec fn spec_backend_name(&self) -> Seq<char> {
        Seq::empty()
    }

    fn backend_name(&self) -> (name: &str)
        ensures
            name@ == self.spec_backend_name(),
    ;

    /// What one `enqueue_render` may do: take the backend from `self` to
    /// `post` and answer `result`, for a render with this summary and these
    /// frames. Implementations in this crate say exactly; the default,
    /// for implementations written outside verified code, allows anything.
    open spec fn spec_enqueued(
        &self,
        post: &Self,
        summary: AudioRenderSummaryView,
        frames: Seq<AudioFrame>,
        result: Result<HostAudioBackendReceipt, HostAudioBackendErrorView>,
    ) -> bool {
        true
    }

    fn enqueue_render(&mut self, rendered: &RenderedAudio) -> (result: Result<
        HostAudioBackendReceipt,
        HostAudioBackendError,
    >)
        ensures
            old(self).spec_enqueued(
                final(self),
                rendered.summary@,
                rendered.frames@,
                backend_error_result_view(result),
            ),
    ;
}

/// A backend that accepts every render and plays it nowhere.
///
/// Its whole state is its name, which is also its view: two null backends are
/// `==` exactly when their names are equal.
#[derive(Debug, Clone, Eq)]
pub struct NullAudioBackend {
    backend_name: String,
}

impl View for NullAudioBackend {
    type V = Seq<char>;

    closed spec fn view(&self) -> Seq<char> {
        self.backend_name@
    }
}

impl PartialEq for NullAudioBackend {
    fn eq(&self, other: &Self) -> (equal: bool) {
        self.backend_name == other.backend_name
    }
}

impl PartialEqSpecImpl for NullAudioBackend {
    open spec fn obeys_eq_spec() -> bool {
        true
    }

    open spec fn eq_spec(&self, other: &Self) -> bool {
        self@ == other@
    }
}

impl NullAudioBackend {
    /// The backend named "null"; the same value as `default()`.
    pub fn new() -> (backend: Self)
        ensures
            backend@ == "null"@,
            backend.spec_backend_name() == "null"@,
    {
        Self::named("null")
    }

    pub fn named(backend_name: &str) -> (backend: Self)
        ensures
            backend@ == backend_name@,
            backend.spec_backend_name() == backend_name@,
    {
        NullAudioBackend { backend_name: backend_name.to_owned() }
    }
}

impl Default for NullAudioBackend {
    /// The same value as `new()`: the backend named "null".
    fn default() -> (backend: Self)
        ensures
            backend@ == "null"@,
            backend.spec_backend_name() == "null"@,
    {
        Self::new()
    }
}

impl HostAudioBackend for NullAudioBackend {
    closed spec fn spec_backend_name(&self) -> Seq<char> {
        self.backend_name@
    }

    /// Nothing changes, and every render is queued and played.
    open spec fn spec_enqueued(
        &self,
        post: &Self,
        summary: AudioRenderSummaryView,
        frames: Seq<AudioFrame>,
        result: Result<HostAudioBackendReceipt, HostAudioBackendErrorView>,
    ) -> bool {
        &&& *post == *self
        &&& result == Ok::<HostAudioBackendReceipt, HostAudioBackendErrorView>(
            HostAudioBackendReceipt { frame_count: frames.len() as usize, queued: true, played: true },
        )
    }

    fn backend_name(&self) -> (name: &str) {
        self.backend_name.as_str()
    }

    fn enqueue_render(&mut self, rendered: &RenderedAudio) -> (result: Result<
        HostAudioBackendReceipt,
        HostAudioBackendError,
    >)
        ensures
            result == Ok::<HostAudioBackendReceipt, HostAudioBackendError>(
                HostAudioBackendReceipt { frame_count: rendered.frames@.len() as usize, queued: true, played: true },
            ),
            final(self).spec_backend_name() == old(self).spec_backend_name(),
    {
        Ok(HostAudioBackendReceipt::queued_and_played(rendered.frames.len()))
    }
}

/// What a capture backend keeps of one render.
#[derive(Debug, Clone, PartialEq, Eq)]
pub struct CapturedHostAudioRender {
    pub summary: AudioRenderSummary,
    pub frame_count: usize,
}

pub struct CapturedHostAudioRenderView {
    pub summary: AudioRenderSummaryView,
    pub frame_count: usize,
}

impl View for CapturedHostAudioRender {
    type V = CapturedHostAudioRenderView;

    open spec fn view(&self) -> CapturedHostAudioRenderView {
        CapturedHostAudioRenderView { summary: self.summary@, frame_count: self.frame_count }
    }
}

/// A backend that accepts every render and keeps the summaries of the most
/// recent ones, at most `max_captures` of them.
#[derive(Debug, Clone, PartialEq, Eq)]
pub struct CaptureAudioBackend {
    backend_name: String,
    max_captures: usize,
    captures: VecDeque<CapturedHostAudioRender>,
}

/// The history after one more capture: nothing is kept when the capacity is
/// zero; a full history drops its oldest entry first.
pub open spec fn capture_step(
    captures: Seq<CapturedHostAudioRenderView>,
    max_captures: usize,
    capture: CapturedHostAudioRenderView,
) -> Seq<CapturedHostAudioRenderView> {
    if max_captures == 0 {
        captures
    } else if captures.len() == max_captures {
        captures.drop_first().push(capture)
    } else {
        captures.push(capture)
    }
}

pub open spec fn capture_views(captures: Seq<CapturedHostAudioRender>) -> Seq<CapturedHostAudioRenderView> {
    captures.map_values(|c: CapturedHostAudioRender| c@)
}

impl CaptureAudioBackend {
    pub closed spec fn spec_max_captures(&self) -> usize {
        self.max_captures
    }

    pub closed spec fn spec_captures(&self) -> Seq<CapturedHostAudioRenderView> {
        capture_views(self.captures@)
    }

    pub fn new(max_captures: usize) -> (backend: Self)
        ensures
            backend.spec_backend_name() == "capture"@,
            backend.spec_max_captures() == (if max_captures <= MAX_CAPTURE_AUDIO_BACKEND_CAPTURES {
                max_captures
            } else {
                MAX_CAPTURE_AUDIO_BACKEND_CAPTURES
            }),
            backend.spec_captures() == Seq::<CapturedHostAudioRenderView>::empty(),
    {
        Self::named("capture", max_captures)
    }

    /// The history capacity is clamped to `MAX_CAPTURE_AUDIO_BACKEND_CAPTURES`
    /// before anything is allocated.
    pub fn named(backend_name: &str, max_captures: usize) -> (backend: Self)
        ensures
            backend.spec_backend_name() == backend_name@,
            backend.spec_max_captures() == (if max_captures <= MAX_CAPTURE_AUDIO_BACKEND_CAPTURES {
                max_captures
            } else {
                MAX_CAPTURE_AUDIO_BACKEND_CAPTURES
            }),
            backend.spec_captures() == Seq::<CapturedHostAudioRenderView>::empty(),
    {
        let max_captures: usize = if max_captures <= MAX_CAPTURE_AUDIO_BACKEND_CAPTURES {
            max_captures
        } else {
            MAX_CAPTURE_AUDIO_BACKEND_CAPTURES
        };
        let captures: VecDeque<CapturedHostAudioRender> = VecDeque::with_capacity(max_captures);
        proof {
            assert(capture_views(captures@) =~= Seq::<CapturedHostAudioRenderView>::empty());
        }
        CaptureAudioBackend { backend_name: backend_name.to_owned(), max_captures, captures }
    }

    pub fn max_captures(&self) -> (max_captures: usize)
        ensures
            max_captures == self.spec_max_captures(),
    {
        self.max_captures
    }

    pub fn captured_renders(&self) -> (captures: &VecDeque<CapturedHostAudioRender>)
        ensures
            capture_views(captures@) == self.spec_captures(),
    {
        &self.captures
    }
}

impl HostAudioBackend for CaptureAudioBackend {
    closed spec fn spec_backend_name(&self) -> Seq<char> {
        self.backend_name@
    }

    /// The render is captured, and every render is queued and played.
    open spec fn spec_enqueued(
        &self,
        post: &Self,
        summary: AudioRenderSummaryView,
        frames: Seq<AudioFrame>,
        result: Result<HostAudioBackendReceipt, HostAudioBackendErrorView>,
    ) -> bool {
        &&& post.spec_backend_name() == self.spec_backend_name()
        &&& post.spec_max_captures() == self.spec_max_captures()
        &&& post.spec_captures() == capture_step(
            self.spec_captures(),
            self.spec_max_captures(),
            CapturedHostAudioRenderView { summary, frame_count: frames.len() as usize },
        )
        &&& result == Ok::<HostAudioBackendReceipt, HostAudioBackendErrorView>(
            HostAudioBackendReceipt { frame_count: frames.len() as usize, queued: true, played: true },
        )
    }

    fn backend_name(&self) -> (name: &str) {
        self.backend_name.as_str()
    }

    fn enqueue_render(&mut self, rendered: &RenderedAudio) -> (result: Result<
        HostAudioBackendReceipt,
        HostAudioBackendError,
    >)
        ensures
            result == Ok::<HostAudioBackendReceipt, HostAudioBackendError>(
                HostAudioBackendReceipt { frame_count: rendered.frames@.len() as usize, queued: true, played: true },
            ),
            final(self).spec_backend_name() == old(self).spec_backend_name(),
            final(self).spec_max_captures() == old(self).spec_max_captures(),
            final(self).spec_captures() == capture_step(
                old(self).spec_captures(),
                old(self).spec_max_captures(),
                CapturedHostAudioRenderView { summary: rendered.summary@, frame_count: rendered.frames@.len() as usize },
            ),
    {
        if self.max_captures > 0 {
            let ghost before = self.captures@;
            if self.captures.len() == self.max_captures {
                self.captures.pop_front();
            }
            let ghost middle = self.captures@;
            self.captures.push_back(
                CapturedHostAudioRender {
                    summary: rendered.summary.duplicate(),
                    frame_count: rendered.frames.len(),
                },
            );
            proof {
                if before.len() == self.max_captures {
                    assert(capture_views(middle) =~= capture_views(before).drop_first());
                } else {
                    assert(middle == before);
                }
                assert(capture_views(self.captures@) =~= capture_views(middle).push(
                    CapturedHostAudioRenderView { summary: rendered.summary@, frame_count: rendered.frames@.len() as usize },
                ));
            }
        }
        Ok(HostAudioBackendReceipt::queued_and_played(rendered.frames.len()))
    }
}

/// A history that fits its capacity still fits it after one more capture.
pub proof fn lemma_capture_history_stays_bounded(
    captures: Seq<CapturedHostAudioRenderView>,
    max_captures: usize,
    capture: CapturedHostAudioRenderView,
)
    requires
        captures.len() <= max_captures,
    ensures
        capture_step(captures, max_captures, capture).len() <= max_captures,
        max_captures > 0 ==> capture_step(captures, max_captures, capture).last() == capture,
{
}

// ---------------------------------------------------------------------------
// Messages
// ---------------------------------------------------------------------------

pub open spec fn invalid_rendered_audio_message(error: InvalidRenderedAudioError) -> Seq<char> {
    match error {
        InvalidRenderedAudioError::FrameCountMismatch {
            settings_frame_count,
            summary_frame_count,
            actual_frame_count,
        } => "settings frame count "@ + decimal(settings_frame_count as nat)
            + ", summary frame count "@ + decimal(summary_frame_count as nat)
            + ", and actual frame count "@ + decimal(actual_frame_count as nat) + " must match"@,
    }
}

pub open spec fn invalid_backend_receipt_message(error: InvalidBackendReceiptError) -> Seq<char> {
    match error {
        InvalidBackendReceiptError::PlayedWithoutQueued => "played receipts must also be queued"@,
        InvalidBackendReceiptError::FrameCountMismatch {
            receipt_frame_count,
            rendered_frame_count,
        } => "receipt frame count "@ + decimal(receipt_frame_count as nat)
            + " must match rendered frame count "@ + decimal(rendered_frame_count as nat),
    }
}

pub open spec fn backend_error_message(error: HostAudioBackendErrorView) -> Seq<char> {
    match error {
        HostAudioBackendErrorView::BackendUnavailable { backend_name, message } => backend_name
            + " unavailable: "@ + message,
    }
}

pub open spec fn host_audio_error_text(error: HostAudioErrorView) -> Seq<char> {
    match error {
        HostAudioErrorView::Render { error } => "render failed: "@ + render_error_message(error),
        HostAudioErrorView::InvalidRenderedAudio { error } => "invalid rendered audio: "@
            + invalid_rendered_audio_message(error),
        HostAudioErrorView::InvalidBackendReceipt { error } => "invalid backend receipt: "@
            + invalid_backend_receipt_message(error),
        HostAudioErrorView::Backend { error } => "backend failed: "@ + backend_error_message(error),
    }
}

impl InvalidRenderedAudioError {
    /// Describes the disagreement between the frame counts.
    pub fn message(&self) -> (text: String)
        ensures
            text@ == invalid_rendered_audio_message(*self),
    {
        let mut text = String::new();
        match *self {
            InvalidRenderedAudioError::FrameCountMismatch {
                settings_frame_count,
                summary_frame_count,
                actual_frame_count,
            } => {
                text.append("settings frame count ");
                push_decimal(&mut text, settings_frame_count as u64);
                text.append(", summary frame count ");
                push_decimal(&mut text, summary_frame_count as u64);
                text.append(", and actual frame count ");
                push_decimal(&mut text, actual_frame_count as u64);
                text.append(" must match");
            },
        }
        proof {
            assert(text@ =~= invalid_rendered_audio_message(*self));
        }
        text
    }
}

impl InvalidBackendReceiptError {
    /// Describes why the receipt was refused.
    pub fn message(&self) -> (text: String)
        ensures
            text@ == invalid_backend_receipt_message(*self),
    {
        let mut text = String::new();
        match *self {
            InvalidBackendReceiptError::PlayedWithoutQueued => {
                text.append("played receipts must also be queued");
            },
            InvalidBackendReceiptError::FrameCountMismatch {
                receipt_frame_count,
                rendered_frame_count,
            } => {
                text.append("receipt frame count ");
                push_decimal(&mut text, receipt_frame_count as u64);
                text.append(" must match rendered frame count ");
                push_decimal(&mut text, rendered_frame_count as u64);
            },
        }
        proof {
            assert(text@ =~= invalid_backend_receipt_message(*self));
        }
        text
    }
}

impl HostAudioBackendError {
    /// Names the backend and says why it is unavailable.
    pub fn message(&self) -> (text: String)
        ensures
            text@ == backend_error_message(self@),
    {
        let mut text = String::new();
        match self {
            HostAudioBackendError::BackendUnavailable { backend_name, message } => {
                text.append(backend_name.as_str());
                text.append(" unavailable: ");
                text.append(message.as_str());
            },
        }
        proof {
            assert(text@ =~= backend_error_message(self@));
        }
        text
    }
}

impl HostAudioError {
    /// Says which stage failed and why.
    pub fn message(&self) -> (text: String)
        ensures
            text@ == host_audio_error_text(self@),
    {
        let mut text = String::new();
        match self {
            HostAudioError::Render { error } => {
                text.append("render failed: ");
                text.append(error.message().as_str());
            },
            HostAudioError::InvalidRenderedAudio { error } => {
                text.append("invalid rendered audio: ");
                text.append(error.message().as_str());
            },
            HostAudioError::InvalidBackendReceipt { error } => {
                text.append("invalid backend receipt: ");
                text.append(error.message().as_str());
            },
            HostAudioError::Backend { error } => {
                text.append("backend failed: ");
                text.append(error.message().as_str());
            },
        }
        proof {
            assert(text@ =~= host_audio_error_text(self@));
        }
        text
    }
}

} // verus!
