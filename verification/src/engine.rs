use std::collections::VecDeque;
use vstd::prelude::*;
use crate::host::{
    DEFAULT_HOST_AUDIO_VOICE_LIMIT, HostAudioBackend, HostAudioBackendError,
    HostAudioBackendErrorView, HostAudioBackendReceipt, HostAudioError, HostAudioErrorView,
    HostAudioEvent, HostAudioEventView, HostAudioIgnoreReason, HostAudioMode,
    HostAudioPlaybackReport, HostAudioReleaseReceipt, HostAudioReleaseReceiptView,
    HostAudioRenderReceipt, HostAudioRenderReceiptView, HostAudioState, HostAudioStateView,
    HostAudioVoiceAllocationReceipt, HostAudioVoiceSummary, HostAudioVoiceSummaryView,
    InvalidBackendReceiptError, InvalidRenderedAudioError, MAX_HOST_AUDIO_VOICE_LIMIT,
    MIN_HOST_AUDIO_VOICE_LIMIT, event_option_view, summary_option_view,
};
use crate::intents::{CountInClickIntent, SamplePlaybackIntent, SampleReleaseIntent, SampleReleaseIntentView};
use crate::render::{
    AudioFrame, AudioRenderKind, AudioRenderSummary, AudioRenderSummaryView, RenderedAudio, click_frames,
    click_summary, playback_frame_count, playback_frames, playback_summary, render_count_in_click,
    render_intent,
};
use crate::settings::{AudioRenderError, AudioRenderSettings, settings_error, settings_valid};

verus! {

/// The engine's state with its voices and last event taken by their views.
pub struct HostAudioEngineView {
    pub mode: HostAudioMode,
    pub render_settings: AudioRenderSettings,
    pub queued_render_count: u64,
    pub played_render_count: u64,
    pub voice_limit: usize,
    pub next_voice_id: u64,
    pub active_voices: Seq<HostAudioVoiceSummaryView>,
    pub completed_voice_count: u64,
    pub stolen_voice_count: u64,
    pub released_voice_count: u64,
    pub last_event: Option<HostAudioEventView>,
}

/// Routes renders to a backend when enabled, validates what comes back, and
/// keeps a bounded, oldest-first list of the voices that are sounding.
pub struct HostAudioEngine<B> where B: HostAudioBackend {
    backend: B,
    mode: HostAudioMode,
    render_settings: AudioRenderSettings,
    queued_render_count: u64,
    played_render_count: u64,
    voice_limit: usize,
    next_voice_id: u64,
    active_voices: VecDeque<HostAudioVoiceSummary>,
    completed_voice_count: u64,
    stolen_voice_count: u64,
    released_voice_count: u64,
    last_event: Option<HostAudioEvent>,
}

pub open spec fn voice_views(voices: Seq<HostAudioVoiceSummary>) -> Seq<HostAudioVoiceSummaryView> {
    voices.map_values(|v: HostAudioVoiceSummary| v@)
}

pub open spec fn backend_error_result_view(
    result: Result<HostAudioBackendReceipt, HostAudioBackendError>,
) -> Result<HostAudioBackendReceipt, HostAudioBackendErrorView> {
    match result {
        Ok(receipt) => Ok(receipt),
        Err(error) => Err(error@),
    }
}

impl<B: HostAudioBackend> View for HostAudioEngine<B> {
    type V = HostAudioEngineView;

    closed spec fn view(&self) -> HostAudioEngineView {
        HostAudioEngineView {
            mode: self.mode,
            render_settings: self.render_settings,
            queued_render_count: self.queued_render_count,
            played_render_count: self.played_render_count,
            voice_limit: self.voice_limit,
            next_voice_id: self.next_voice_id,
            active_voices: voice_views(self.active_voices@),
            completed_voice_count: self.completed_voice_count,
            stolen_voice_count: self.stolen_voice_count,
            released_voice_count: self.released_voice_count,
            last_event: event_option_view(self.last_event),
        }
    }
}

// ---------------------------------------------------------------------------
// The engine as a state machine over its view
// ---------------------------------------------------------------------------

pub open spec fn saturating_add_u64(value: u64, amount: nat) -> u64 {
    if value + amount > u64::MAX {
        u64::MAX
    } else {
        (value + amount) as u64
    }
}

/// The voice limit actually used: clamped to the foundation bounds.
pub open spec fn clamp_voice_limit(voice_limit: usize) -> usize {
    if voice_limit < MIN_HOST_AUDIO_VOICE_LIMIT {
        MIN_HOST_AUDIO_VOICE_LIMIT
    } else if voice_limit > MAX_HOST_AUDIO_VOICE_LIMIT {
        MAX_HOST_AUDIO_VOICE_LIMIT
    } else {
        voice_limit
    }
}

/// Every state the engine can reach satisfies this.
pub open spec fn engine_view_wf(engine: HostAudioEngineView) -> bool {
    &&& MIN_HOST_AUDIO_VOICE_LIMIT <= engine.voice_limit <= MAX_HOST_AUDIO_VOICE_LIMIT
    &&& engine.active_voices.len() <= engine.voice_limit
    &&& settings_valid(engine.render_settings)
    &&& voice_frames_valid(engine.active_voices)
    &&& voice_ids_ordered(engine.active_voices)
    &&& voice_ids_below(engine.active_voices, engine.next_voice_id)
}

/// Every voice still has frames to play, and no more than it started with.
pub open spec fn voice_frames_valid(voices: Seq<HostAudioVoiceSummaryView>) -> bool {
    forall|i: int|
        0 <= i < voices.len() ==> 0 < #[trigger] voices[i].remaining_frame_count
            <= voices[i].total_frame_count
}

/// Voice ids increase from the oldest voice to the newest; only once the id
/// counter has saturated at `u64::MAX` can two voices share an id.
pub open spec fn voice_ids_ordered(voices: Seq<HostAudioVoiceSummaryView>) -> bool {
    forall|i: int, j: int|
        #![trigger voices[i], voices[j]]
        0 <= i < j < voices.len() ==> voices[i].voice_id < voices[j].voice_id || voices[j].voice_id
            == u64::MAX
}

/// Every voice id was handed out before `next_voice_id`, unless the counter
/// has saturated.
pub open spec fn voice_ids_below(voices: Seq<HostAudioVoiceSummaryView>, next_voice_id: u64) -> bool {
    forall|i: int|
        0 <= i < voices.len() ==> #[trigger] voices[i].voice_id < next_voice_id || next_voice_id
            == u64::MAX
}

pub open spec fn initial_engine(render_settings: AudioRenderSettings, voice_limit: usize, mode: HostAudioMode) -> HostAudioEngineView {
    HostAudioEngineView {
        mode,
        render_settings,
        queued_render_count: 0,
        played_render_count: 0,
        voice_limit: clamp_voice_limit(voice_limit),
        next_voice_id: 1,
        active_voices: Seq::empty(),
        completed_voice_count: 0,
        stolen_voice_count: 0,
        released_voice_count: 0,
        last_event: None,
    }
}

pub open spec fn with_last_event(engine: HostAudioEngineView, event: HostAudioEventView) -> HostAudioEngineView {
    HostAudioEngineView { last_event: Some(event), ..engine }
}

pub open spec fn ignored_event(backend_name: Seq<char>) -> HostAudioEventView {
    HostAudioEventView::Ignored { backend_name, reason: HostAudioIgnoreReason::Disabled }
}

/// The voice that a render with `summary` starts, with id `voice_id`.
pub open spec fn voice_for(summary: AudioRenderSummaryView, voice_id: u64, frame_count: usize) -> HostAudioVoiceSummaryView {
    HostAudioVoiceSummaryView {
        voice_id,
        render_kind: summary.render_kind,
        source_label: summary.source_sample_name,
        source_sample_id: summary.source_sample_id,
        bank: summary.bank,
        pad_number: summary.pad_number,
        total_frame_count: frame_count,
        remaining_frame_count: frame_count,
    }
}

/// Whether starting a voice displaces the oldest one: the list is at the limit.
pub open spec fn steals_voice(engine: HostAudioEngineView) -> bool {
    engine.active_voices.len() >= engine.voice_limit && engine.active_voices.len() > 0
}

/// The state after a new voice starts.
pub open spec fn allocate_voice_state(
    engine: HostAudioEngineView,
    summary: AudioRenderSummaryView,
    frame_count: usize,
) -> HostAudioEngineView {
    let kept = if steals_voice(engine) {
        engine.active_voices.drop_first()
    } else {
        engine.active_voices
    };
    HostAudioEngineView {
        next_voice_id: saturating_add_u64(engine.next_voice_id, 1),
        active_voices: kept.push(voice_for(summary, engine.next_voice_id, frame_count)),
        stolen_voice_count: if steals_voice(engine) {
            saturating_add_u64(engine.stolen_voice_count, 1)
        } else {
            engine.stolen_voice_count
        },
        ..engine
    }
}

/// The receipt of that allocation.
pub open spec fn allocation_receipt(engine: HostAudioEngineView) -> HostAudioVoiceAllocationReceipt {
    HostAudioVoiceAllocationReceipt {
        voice_id: engine.next_voice_id,
        stolen_voice_id: if steals_voice(engine) {
            Some(engine.active_voices[0].voice_id)
        } else {
            None
        },
        voice_limit: engine.voice_limit,
        active_voice_count: (if steals_voice(engine) {
            engine.active_voices.len()
        } else {
            engine.active_voices.len() + 1
        }) as usize,
    }
}

/// Why a backend receipt is refused: played without being queued, or a frame
/// count that differs from the render's.
pub open spec fn receipt_error(receipt: HostAudioBackendReceipt, rendered_frame_count: usize) -> Option<InvalidBackendReceiptError> {
    if receipt.played && !receipt.queued {
        Some(InvalidBackendReceiptError::PlayedWithoutQueued)
    } else if receipt.frame_count != rendered_frame_count {
        Some(
            InvalidBackendReceiptError::FrameCountMismatch {
                receipt_frame_count: receipt.frame_count,
                rendered_frame_count,
            },
        )
    } else {
        None
    }
}

/// A queued render with at least one frame starts a voice.
pub open spec fn receipt_allocates(receipt: HostAudioBackendReceipt) -> bool {
    receipt.queued && receipt.frame_count > 0
}

/// The state after the engine accepts a valid receipt for a render with `summary`.
pub open spec fn accepted_receipt_state(
    engine: HostAudioEngineView,
    backend_name: Seq<char>,
    summary: AudioRenderSummaryView,
    receipt: HostAudioBackendReceipt,
) -> HostAudioEngineView {
    let counted = HostAudioEngineView {
        queued_render_count: if receipt.queued {
            saturating_add_u64(engine.queued_render_count, 1)
        } else {
            engine.queued_render_count
        },
        played_render_count: if receipt.played {
            saturating_add_u64(engine.played_render_count, 1)
        } else {
            engine.played_render_count
        },
        ..engine
    };
    let allocated = if receipt_allocates(receipt) {
        allocate_voice_state(counted, summary, receipt.frame_count)
    } else {
        counted
    };
    let allocation = if receipt_allocates(receipt) {
        Some(allocation_receipt(counted))
    } else {
        None
    };
    with_last_event(
        allocated,
        HostAudioEventView::Enqueued {
            backend_name,
            receipt: HostAudioRenderReceiptView {
                summary,
                frame_count: receipt.frame_count,
                queued: receipt.queued,
                played: receipt.played,
                voice_allocation: allocation,
            },
        },
    )
}

/// The state after the engine records what the backend answered for a render
/// with `summary` and `rendered_frame_count` frames.
pub open spec fn backend_result_state(
    engine: HostAudioEngineView,
    backend_name: Seq<char>,
    summary: AudioRenderSummaryView,
    rendered_frame_count: usize,
    result: Result<HostAudioBackendReceipt, HostAudioBackendErrorView>,
) -> HostAudioEngineView {
    match result {
        Err(error) => with_last_event(
            engine,
            HostAudioEventView::Failed {
                backend_name,
                error: HostAudioErrorView::Backend { error },
                summary: Some(summary),
            },
        ),
        Ok(receipt) => match receipt_error(receipt, rendered_frame_count) {
            Some(error) => with_last_event(
                engine,
                HostAudioEventView::Failed {
                    backend_name,
                    error: HostAudioErrorView::InvalidBackendReceipt { error },
                    summary: Some(summary),
                },
            ),
            None => accepted_receipt_state(engine, backend_name, summary, receipt),
        },
    }
}

/// Why a render is refused before it reaches the backend: invalid settings,
/// or settings, summary and frames that disagree on the frame count.
pub open spec fn rendered_audio_error(
    settings: AudioRenderSettings,
    summary_frame_count: usize,
    actual_frame_count: nat,
) -> Option<HostAudioErrorView> {
    match settings_error(settings) {
        Some(error) => Some(HostAudioErrorView::Render { error }),
        None => if settings.frame_count != summary_frame_count || settings.frame_count
            != actual_frame_count {
            Some(
                HostAudioErrorView::InvalidRenderedAudio {
                    error: InvalidRenderedAudioError::FrameCountMismatch {
                        settings_frame_count: settings.frame_count,
                        summary_frame_count,
                        actual_frame_count: actual_frame_count as usize,
                    },
                },
            )
        } else {
            None
        },
    }
}

/// The backend took one enqueue of a render with `summary` and `frames`
/// from `pre_backend` to `post_backend`, and the engine recorded its answer.
pub open spec fn enqueued_once<B: HostAudioBackend>(
    pre: HostAudioEngineView,
    pre_backend: B,
    post: HostAudioEngineView,
    post_backend: B,
    summary: AudioRenderSummaryView,
    frames: Seq<AudioFrame>,
) -> bool {
    exists|result: Result<HostAudioBackendReceipt, HostAudioBackendErrorView>|
        #[trigger] pre_backend.spec_enqueued(&post_backend, summary, frames, result) && post
            == backend_result_state(pre, post_backend.spec_backend_name(), summary, frames.len() as usize, result)
}

/// Whether a render reaches the backend at all.
pub open spec fn reaches_backend(
    engine: HostAudioEngineView,
    settings: AudioRenderSettings,
    summary: AudioRenderSummaryView,
    frame_count: nat,
) -> bool {
    engine.mode == HostAudioMode::Enabled && rendered_audio_error(
        settings,
        summary.frame_count,
        frame_count,
    ) is None
}

/// `post` is a state the engine can be in after playing a render with these
/// settings, summary and frame count from `pre`; the backend was named
/// `pre_name` before and `post_name` after. A disabled engine records that it
/// ignored the render; a malformed render is recorded as failed; otherwise the
/// state is what the backend's answer, whatever it was, leads to.
pub open spec fn play_outcome(
    pre: HostAudioEngineView,
    pre_name: Seq<char>,
    post: HostAudioEngineView,
    post_name: Seq<char>,
    settings: AudioRenderSettings,
    summary: AudioRenderSummaryView,
    frame_count: nat,
) -> bool {
    if pre.mode == HostAudioMode::Disabled {
        post == with_last_event(pre, ignored_event(pre_name))
    } else {
        match rendered_audio_error(settings, summary.frame_count, frame_count) {
            Some(error) => post == with_last_event(
                pre,
                HostAudioEventView::Failed { backend_name: pre_name, error, summary: None },
            ),
            None => exists|result: Result<HostAudioBackendReceipt, HostAudioBackendErrorView>|
                post == #[trigger] backend_result_state(
                    pre,
                    post_name,
                    summary,
                    frame_count as usize,
                    result,
                ),
        }
    }
}

pub open spec fn advance_voice(voice: HostAudioVoiceSummaryView, frame_count: usize) -> HostAudioVoiceSummaryView {
    HostAudioVoiceSummaryView {
        remaining_frame_count: (if voice.remaining_frame_count > frame_count {
            voice.remaining_frame_count - frame_count
        } else {
            0
        }) as usize,
        ..voice
    }
}

/// The voices still sounding after `frame_count` more frames, in their order.
pub open spec fn advanced_voices(voices: Seq<HostAudioVoiceSummaryView>, frame_count: usize) -> Seq<HostAudioVoiceSummaryView>
    decreases voices.len(),
{
    if voices.len() == 0 {
        Seq::empty()
    } else {
        let rest = advanced_voices(voices.drop_last(), frame_count);
        if voices.last().remaining_frame_count > frame_count {
            rest.push(advance_voice(voices.last(), frame_count))
        } else {
            rest
        }
    }
}

/// How many voices finish within `frame_count` more frames.
pub open spec fn completed_voices(voices: Seq<HostAudioVoiceSummaryView>, frame_count: usize) -> nat
    decreases voices.len(),
{
    if voices.len() == 0 {
        0
    } else {
        completed_voices(voices.drop_last(), frame_count) + (if voices.last().remaining_frame_count
            <= frame_count {
            1nat
        } else {
            0nat
        })
    }
}

pub open spec fn advance_state(engine: HostAudioEngineView, frame_count: usize) -> HostAudioEngineView {
    if frame_count == 0 {
        engine
    } else {
        HostAudioEngineView {
            active_voices: advanced_voices(engine.active_voices, frame_count),
            completed_voice_count: saturating_add_u64(
                engine.completed_voice_count,
                completed_voices(engine.active_voices, frame_count),
            ),
            ..engine
        }
    }
}

/// A release intent stops the sample-playback voices of its sample on its pad.
pub open spec fn releases(voice: HostAudioVoiceSummaryView, intent: SampleReleaseIntentView) -> bool {
    &&& voice.render_kind == AudioRenderKind::SamplePlayback
    &&& voice.source_sample_id == intent.sample_id
    &&& voice.bank == intent.bank
    &&& voice.pad_number == intent.pad_number
}

pub open spec fn kept_voices(voices: Seq<HostAudioVoiceSummaryView>, intent: SampleReleaseIntentView) -> Seq<HostAudioVoiceSummaryView>
    decreases voices.len(),
{
    if voices.len() == 0 {
        Seq::empty()
    } else {
        let rest = kept_voices(voices.drop_last(), intent);
        if releases(voices.last(), intent) {
            rest
        } else {
            rest.push(voices.last())
        }
    }
}

pub open spec fn released_voice_ids(voices: Seq<HostAudioVoiceSummaryView>, intent: SampleReleaseIntentView) -> Seq<u64>
    decreases voices.len(),
{
    if voices.len() == 0 {
        Seq::empty()
    } else {
        let rest = released_voice_ids(voices.drop_last(), intent);
        if releases(voices.last(), intent) {
            rest.push(voices.last().voice_id)
        } else {
            rest
        }
    }
}

pub open spec fn release_state(
    engine: HostAudioEngineView,
    backend_name: Seq<char>,
    intent: SampleReleaseIntentView,
) -> HostAudioEngineView {
    if engine.mode == HostAudioMode::Disabled {
        with_last_event(engine, ignored_event(backend_name))
    } else {
        let ids = released_voice_ids(engine.active_voices, intent);
        let kept = kept_voices(engine.active_voices, intent);
        with_last_event(
            HostAudioEngineView {
                active_voices: kept,
                released_voice_count: saturating_add_u64(engine.released_voice_count, ids.len()),
                ..engine
            },
            HostAudioEventView::Released {
                backend_name,
                receipt: HostAudioReleaseReceiptView {
                    intent,
                    released_voice_ids: ids,
                    released_voice_count: ids.len() as usize,
                    active_voice_count: kept.len() as usize,
                },
            },
        )
    }
}

/// The snapshot `state()` reports.
pub open spec fn state_view(engine: HostAudioEngineView, backend_name: Seq<char>) -> HostAudioStateView {
    HostAudioStateView {
        mode: engine.mode,
        backend_name,
        render_settings: engine.render_settings,
        queued_render_count: engine.queued_render_count,
        played_render_count: engine.played_render_count,
        voice_limit: engine.voice_limit,
        active_voice_count: engine.active_voices.len() as usize,
        completed_voice_count: engine.completed_voice_count,
        stolen_voice_count: engine.stolen_voice_count,
        released_voice_count: engine.released_voice_count,
        active_voices: engine.active_voices,
        last_event: engine.last_event,
    }
}

// ---------------------------------------------------------------------------
// The engine
// ---------------------------------------------------------------------------

fn clamp_host_audio_voice_limit(voice_limit: usize) -> (clamped: usize)
    ensures
        clamped == clamp_voice_limit(voice_limit),
{
    if voice_limit < MIN_HOST_AUDIO_VOICE_LIMIT {
        MIN_HOST_AUDIO_VOICE_LIMIT
    } else if voice_limit > MAX_HOST_AUDIO_VOICE_LIMIT {
        MAX_HOST_AUDIO_VOICE_LIMIT
    } else {
        voice_limit
    }
}

fn default_host_audio_voice_limit() -> (limit: usize)
    ensures
        limit == DEFAULT_HOST_AUDIO_VOICE_LIMIT,
{
    DEFAULT_HOST_AUDIO_VOICE_LIMIT
}

fn voice_source_label(summary: &AudioRenderSummary) -> (label: String)
    ensures
        label@ == summary.source_sample_name@,
{
    match summary.render_kind {
        AudioRenderKind::SamplePlayback | AudioRenderKind::CountInClick => {
            summary.source_sample_name.clone()
        },
    }
}

fn validate_rendered_audio(rendered: &RenderedAudio) -> (result: Result<(), HostAudioError>)
    ensures
        match rendered_audio_error(
            rendered.settings,
            rendered.summary.frame_count,
            rendered.frames@.len(),
        ) {
            Some(error) => result matches Err(e) && e@ == error,
            None => result is Ok,
        },
{
    if let Err(error) = rendered.settings.validate() {
        return Err(HostAudioError::render(error));
    }
    if rendered.settings.frame_count != rendered.summary.frame_count
        || rendered.settings.frame_count != rendered.frames.len() {
        return Err(
            HostAudioError::invalid_rendered_audio(
                InvalidRenderedAudioError::FrameCountMismatch {
                    settings_frame_count: rendered.settings.frame_count,
                    summary_frame_count: rendered.summary.frame_count,
                    actual_frame_count: rendered.frames.len(),
                },
            ),
        );
    }
    Ok(())
}

fn validate_backend_receipt(receipt: &HostAudioBackendReceipt, rendered_frame_count: usize) -> (result: Result<(), HostAudioError>)
    ensures
        match receipt_error(*receipt, rendered_frame_count) {
            Some(error) => result == Err::<(), HostAudioError>(
                HostAudioError::InvalidBackendReceipt { error },
            ),
            None => result is Ok,
        },
{
    if receipt.played && !receipt.queued {
        return Err(
            HostAudioError::invalid_backend_receipt(InvalidBackendReceiptError::PlayedWithoutQueued),
        );
    }
    if receipt.frame_count != rendered_frame_count {
        return Err(
            HostAudioError::invalid_backend_receipt(
                InvalidBackendReceiptError::FrameCountMismatch {
                    receipt_frame_count: receipt.frame_count,
                    rendered_frame_count,
                },
            ),
        );
    }
    Ok(())
}

impl<B: HostAudioBackend> HostAudioEngine<B> {
    /// The backend the engine owns.
    pub closed spec fn backend_state(&self) -> B {
        self.backend
    }

    /// The name of the backend the engine owns.
    pub open spec fn backend_name_view(&self) -> Seq<char> {
        self.backend_state().spec_backend_name()
    }

    pub open spec fn wf(&self) -> bool {
        engine_view_wf(self@)
    }

    /// A disabled engine with the default voice limit.
    pub fn new(backend: B, render_settings: AudioRenderSettings) -> (result: Result<Self, HostAudioError>)
        ensures
            match settings_error(render_settings) {
                Some(error) => result matches Err(e) && e == (HostAudioError::Render { error }),
                None => result matches Ok(engine) && engine.wf() && engine@ == initial_engine(
                    render_settings,
                    DEFAULT_HOST_AUDIO_VOICE_LIMIT,
                    HostAudioMode::Disabled,
                ) && engine.backend_state() == backend,
            },
    {
        Self::new_with_voice_limit(backend, render_settings, default_host_audio_voice_limit())
    }

    /// Builds a disabled engine whose voice limit is clamped to the foundation
    /// bounds; settings that break a guardrail are refused.
    pub fn new_with_voice_limit(backend: B, render_settings: AudioRenderSettings, voice_limit: usize) -> (result: Result<Self, HostAudioError>)
        ensures
            match settings_error(render_settings) {
                Some(error) => result matches Err(e) && e == (HostAudioError::Render { error }),
                None => result matches Ok(engine) && engine.wf() && engine@ == initial_engine(
                    render_settings,
                    voice_limit,
                    HostAudioMode::Disabled,
                ) && engine.backend_state() == backend,
            },
    {
        if let Err(error) = render_settings.validate() {
            return Err(HostAudioError::render(error));
        }
        let active_voices: VecDeque<HostAudioVoiceSummary> = VecDeque::new();
        let engine = HostAudioEngine {
            backend,
            mode: HostAudioMode::Disabled,
            render_settings,
            queued_render_count: 0,
            played_render_count: 0,
            voice_limit: clamp_host_audio_voice_limit(voice_limit),
            next_voice_id: 1,
            active_voices,
            completed_voice_count: 0,
            stolen_voice_count: 0,
            released_voice_count: 0,
            last_event: None,
        };
        proof {
            assert(voice_views(engine.active_voices@) =~= Seq::<HostAudioVoiceSummaryView>::empty());
        }
        Ok(engine)
    }

    /// An enabled engine with the default voice limit.
    pub fn enabled(backend: B, render_settings: AudioRenderSettings) -> (result: Result<Self, HostAudioError>)
        ensures
            match settings_error(render_settings) {
                Some(error) => result matches Err(e) && e == (HostAudioError::Render { error }),
                None => result matches Ok(engine) && engine.wf() && engine@ == initial_engine(
                    render_settings,
                    DEFAULT_HOST_AUDIO_VOICE_LIMIT,
                    HostAudioMode::Enabled,
                ) && engine.backend_state() == backend,
            },
    {
        Self::enabled_with_voice_limit(backend, render_settings, default_host_audio_voice_limit())
    }

    /// An enabled engine whose voice limit is clamped to the foundation bounds.
    pub fn enabled_with_voice_limit(backend: B, render_settings: AudioRenderSettings, voice_limit: usize) -> (result: Result<Self, HostAudioError>)
        ensures
            match settings_error(render_settings) {
                Some(error) => result matches Err(e) && e == (HostAudioError::Render { error }),
                None => result matches Ok(engine) && engine.wf() && engine@ == initial_engine(
                    render_settings,
                    voice_limit,
                    HostAudioMode::Enabled,
                ) && engine.backend_state() == backend,
            },
    {
        match Self::new_with_voice_limit(backend, render_settings, voice_limit) {
            Ok(mut engine) => {
                engine.set_mode(HostAudioMode::Enabled);
                Ok(engine)
            },
            Err(error) => Err(error),
        }
    }

    pub fn is_enabled(&self) -> (enabled: bool)
        ensures
            enabled == (self@.mode == HostAudioMode::Enabled),
    {
        self.mode == HostAudioMode::Enabled
    }

    pub fn mode(&self) -> (mode: HostAudioMode)
        ensures
            mode == self@.mode,
    {
        self.mode
    }

    pub fn set_enabled(&mut self, enabled: bool)
        ensures
            final(self)@ == (HostAudioEngineView {
                mode: if enabled {
                    HostAudioMode::Enabled
                } else {
                    HostAudioMode::Disabled
                },
                ..old(self)@
            }),
            final(self).backend_state() == old(self).backend_state(),
    {
        self.set_mode(
            if enabled {
                HostAudioMode::Enabled
            } else {
                HostAudioMode::Disabled
            },
        );
    }

    pub fn set_mode(&mut self, mode: HostAudioMode)
        ensures
            final(self)@ == (HostAudioEngineView { mode, ..old(self)@ }),
            final(self).backend_state() == old(self).backend_state(),
    {
        self.mode = mode;
    }

    pub fn render_settings(&self) -> (settings: AudioRenderSettings)
        ensures
            settings == self@.render_settings,
    {
        self.render_settings
    }

    pub fn voice_limit(&self) -> (limit: usize)
        ensures
            limit == self@.voice_limit,
    {
        self.voice_limit
    }

    /// The sounding voices, oldest first.
    pub fn active_voices(&self) -> (voices: &VecDeque<HostAudioVoiceSummary>)
        ensures
            voice_views(voices@) == self@.active_voices,
    {
        &self.active_voices
    }

    pub fn backend(&self) -> (backend: &B)
        ensures
            *backend == self.backend_state(),
    {
        &self.backend
    }

    pub fn backend_mut(&mut self) -> (backend: &mut B)
        ensures
            *backend == old(self).backend_state(),
            final(self)@ == old(self)@,
            final(self).backend_state() == *final(backend),
    {
        &mut self.backend
    }

    fn backend_name_string(&self) -> (name: String)
        ensures
            name@ == self.backend_name_view(),
    {
        self.backend.backend_name().to_owned()
    }

    fn record_ignored(&mut self) -> (event: HostAudioEvent)
        ensures
            final(self)@ == with_last_event(old(self)@, ignored_event(old(self).backend_name_view())),
            final(self).backend_state() == old(self).backend_state(),
            event@ == ignored_event(old(self).backend_name_view()),
    {
        let event = HostAudioEvent::Ignored {
            backend_name: self.backend_name_string(),
            reason: HostAudioIgnoreReason::Disabled,
        };
        self.last_event = Some(event.duplicate());
        event
    }

    fn record_failed(&mut self, error: HostAudioError, summary: Option<AudioRenderSummary>) -> (event: HostAudioEvent)
        ensures
            event@ == (HostAudioEventView::Failed {
                backend_name: old(self).backend_name_view(),
                error: error@,
                summary: summary_option_view(summary),
            }),
            final(self)@ == with_last_event(old(self)@, event@),
            final(self).backend_state() == old(self).backend_state(),
    {
        let event = HostAudioEvent::Failed { backend_name: self.backend_name_string(), error, summary };
        self.last_event = Some(event.duplicate());
        event
    }

    fn record_enqueued(&mut self, receipt: HostAudioRenderReceipt) -> (event: HostAudioEvent)
        ensures
            event@ == (HostAudioEventView::Enqueued {
                backend_name: old(self).backend_name_view(),
                receipt: receipt@,
            }),
            final(self)@ == with_last_event(old(self)@, event@),
            final(self).backend_state() == old(self).backend_state(),
    {
        let event = HostAudioEvent::Enqueued { backend_name: self.backend_name_string(), receipt };
        self.last_event = Some(event.duplicate());
        event
    }

    fn allocate_voice(&mut self, summary: &AudioRenderSummary, frame_count: usize) -> (receipt: HostAudioVoiceAllocationReceipt)
        requires
            engine_view_wf(old(self)@),
            frame_count > 0,
        ensures
            final(self)@ == allocate_voice_state(old(self)@, summary@, frame_count),
            receipt == allocation_receipt(old(self)@),
            final(self).backend_state() == old(self).backend_state(),
            engine_view_wf(final(self)@),
    {
        let ghost pre = self@;
        let stolen_voice_id: Option<u64> = if self.active_voices.len() >= self.voice_limit {
            let ghost before = self.active_voices@;
            match self.active_voices.pop_front() {
                Some(voice) => {
                    self.stolen_voice_count = self.stolen_voice_count.saturating_add(1);
                    proof {
                        assert(voice_views(self.active_voices@) =~= voice_views(before).drop_first());
                    }
                    Some(voice.voice_id)
                },
                None => None,
            }
        } else {
            None
        };
        let ghost kept = self.active_voices@;
        let voice_id: u64 = self.next_voice_id;
        self.next_voice_id = self.next_voice_id.saturating_add(1);
        let voice = HostAudioVoiceSummary {
            voice_id,
            render_kind: summary.render_kind,
            source_label: voice_source_label(summary),
            source_sample_id: summary.source_sample_id.clone(),
            bank: summary.bank,
            pad_number: summary.pad_number,
            total_frame_count: frame_count,
            remaining_frame_count: frame_count,
        };
        self.active_voices.push_back(voice);
        proof {
            assert(voice_views(self.active_voices@) =~= voice_views(kept).push(
                voice_for(summary@, pre.next_voice_id, frame_count),
            ));
            assert(self@ =~= allocate_voice_state(pre, summary@, frame_count));
        }
        HostAudioVoiceAllocationReceipt {
            voice_id,
            stolen_voice_id,
            voice_limit: self.voice_limit,
            active_voice_count: self.active_voices.len(),
        }
    }

    /// Records what the backend answered for a render with `summary` and
    /// `rendered_frame_count` frames: a backend error or an inconsistent
    /// receipt is recorded as failed; a valid receipt is counted and, when it
    /// queued frames, starts a voice.
    pub fn record_backend_result(
        &mut self,
        summary: AudioRenderSummary,
        rendered_frame_count: usize,
        result: Result<HostAudioBackendReceipt, HostAudioBackendError>,
    ) -> (event: HostAudioEvent)
        requires
            old(self).wf(),
        ensures
            final(self).wf(),
            final(self)@ == backend_result_state(
                old(self)@,
                old(self).backend_name_view(),
                summary@,
                rendered_frame_count,
                backend_error_result_view(result),
            ),
            final(self).backend_state() == old(self).backend_state(),
            final(self)@.last_event == Some(event@),
    {
        match result {
            Ok(receipt) => {
                if let Err(error) = validate_backend_receipt(&receipt, rendered_frame_count) {
                    return self.record_failed(error, Some(summary));
                }
                let ghost pre = self@;
                if receipt.queued {
                    self.queued_render_count = self.queued_render_count.saturating_add(1);
                }
                if receipt.played {
                    self.played_render_count = self.played_render_count.saturating_add(1);
                }
                let ghost counted = self@;
                let voice_allocation = if receipt.queued && receipt.frame_count > 0 {
                    Some(self.allocate_voice(&summary, receipt.frame_count))
                } else {
                    None
                };
                self.record_enqueued(
                    HostAudioRenderReceipt {
                        summary,
                        frame_count: receipt.frame_count,
                        queued: receipt.queued,
                        played: receipt.played,
                        voice_allocation,
                    },
                )
            },
            Err(error) => self.record_failed(HostAudioError::backend(error), Some(summary)),
        }
    }

    /// Sends a render to the backend when the engine is enabled and the render
    /// is well formed, and records the outcome as the last event.
    pub fn play_rendered(&mut self, rendered: RenderedAudio) -> (event: HostAudioEvent)
        requires
            old(self).wf(),
        ensures
            final(self).wf(),
            play_outcome(
                old(self)@,
                old(self).backend_name_view(),
                final(self)@,
                final(self).backend_name_view(),
                rendered.settings,
                rendered.summary@,
                rendered.frames@.len(),
            ),
            !reaches_backend(old(self)@, rendered.settings, rendered.summary@, rendered.frames@.len())
                ==> final(self).backend_state() == old(self).backend_state(),
            reaches_backend(old(self)@, rendered.settings, rendered.summary@, rendered.frames@.len())
                ==> enqueued_once(
                old(self)@,
                old(self).backend_state(),
                final(self)@,
                final(self).backend_state(),
                rendered.summary@,
                rendered.frames@,
            ),
            final(self)@.last_event == Some(event@),
    {
        if self.mode == HostAudioMode::Disabled {
            return self.record_ignored();
        }
        if let Err(error) = validate_rendered_audio(&rendered) {
            return self.record_failed(error, None);
        }
        let summary = rendered.summary.duplicate();
        let ghost before = self.backend_state();
        let result = self.backend.enqueue_render(&rendered);
        let ghost pre = self@;
        let ghost name = self.backend_name_view();
        let ghost after = self.backend_state();
        let event = self.record_backend_result(summary, rendered.frames.len(), result);
        proof {
            assert(self@ == backend_result_state(
                pre,
                name,
                rendered.summary@,
                rendered.frames@.len() as usize,
                backend_error_result_view(result),
            ));
            assert(before.spec_enqueued(
                &after,
                rendered.summary@,
                rendered.frames@,
                backend_error_result_view(result),
            ));
        }
        event
    }

    /// Renders a pad playback intent with the engine's settings and plays it,
    /// reporting the event together with the render's summary.
    pub fn play_intent_with_render_summary(&mut self, intent: &SamplePlaybackIntent) -> (report: HostAudioPlaybackReport)
        requires
            old(self).wf(),
        ensures
            final(self).wf(),
            ({
                let settings = old(self)@.render_settings;
                let count = playback_frame_count(*intent, settings);
                let render_settings = AudioRenderSettings {
                    sample_rate_hz: settings.sample_rate_hz,
                    frame_count: count as usize,
                };
                let summary = playback_summary(
                    *intent,
                    render_settings,
                    playback_frames(*intent, count),
                );
                &&& summary_option_view(report.render_summary) == Some(summary)
                &&& play_outcome(
                    old(self)@,
                    old(self).backend_name_view(),
                    final(self)@,
                    final(self).backend_name_view(),
                    render_settings,
                    summary,
                    count,
                )
                &&& reaches_backend(old(self)@, render_settings, summary, count) ==> enqueued_once(
                    old(self)@,
                    old(self).backend_state(),
                    final(self)@,
                    final(self).backend_state(),
                    summary,
                    playback_frames(*intent, count),
                )
                &&& !reaches_backend(old(self)@, render_settings, summary, count) ==> final(self).backend_state() == old(self).backend_state()
            }),
            final(self)@.last_event == Some(report.event@),
    {
        match render_intent(intent, self.render_settings) {
            Ok(rendered) => {
                let render_summary = Some(rendered.summary.duplicate());
                let event = self.play_rendered(rendered);
                HostAudioPlaybackReport { event, render_summary }
            },
            Err(error) => {
                let event = self.record_failed(HostAudioError::render(error), None);
                HostAudioPlaybackReport { event, render_summary: None }
            },
        }
    }

    /// Renders and plays a pad playback intent.
    pub fn play_intent(&mut self, intent: &SamplePlaybackIntent) -> (event: HostAudioEvent)
        requires
            old(self).wf(),
        ensures
            final(self).wf(),
            ({
                let settings = old(self)@.render_settings;
                let count = playback_frame_count(*intent, settings);
                let render_settings = AudioRenderSettings {
                    sample_rate_hz: settings.sample_rate_hz,
                    frame_count: count as usize,
                };
                let summary = playback_summary(*intent, render_settings, playback_frames(*intent, count));
                &&& play_outcome(
                    old(self)@,
                    old(self).backend_name_view(),
                    final(self)@,
                    final(self).backend_name_view(),
                    render_settings,
                    summary,
                    count,
                )
                &&& reaches_backend(old(self)@, render_settings, summary, count) ==> enqueued_once(
                    old(self)@,
                    old(self).backend_state(),
                    final(self)@,
                    final(self).backend_state(),
                    summary,
                    playback_frames(*intent, count),
                )
                &&& !reaches_backend(old(self)@, render_settings, summary, count) ==> final(self).backend_state() == old(self).backend_state()
            }),
            final(self)@.last_event == Some(event@),
    {
        self.play_intent_with_render_summary(intent).event
    }

    /// Renders a count-in click with the engine's settings and plays it,
    /// reporting the event together with the render's summary.
    pub fn play_count_in_click_with_render_summary(&mut self, intent: &CountInClickIntent) -> (report: HostAudioPlaybackReport)
        requires
            old(self).wf(),
        ensures
            final(self).wf(),
            ({
                let settings = old(self)@.render_settings;
                let summary = click_summary(*intent, settings, click_frames(*intent, settings));
                &&& summary_option_view(report.render_summary) == Some(summary)
                &&& play_outcome(
                    old(self)@,
                    old(self).backend_name_view(),
                    final(self)@,
                    final(self).backend_name_view(),
                    settings,
                    summary,
                    settings.frame_count as nat,
                )
                &&& reaches_backend(old(self)@, settings, summary, settings.frame_count as nat) ==> enqueued_once(
                    old(self)@,
                    old(self).backend_state(),
                    final(self)@,
                    final(self).backend_state(),
                    summary,
                    click_frames(*intent, settings),
                )
                &&& !reaches_backend(old(self)@, settings, summary, settings.frame_count as nat) ==> final(self).backend_state() == old(self).backend_state()
            }),
            final(self)@.last_event == Some(report.event@),
    {
        match render_count_in_click(intent, self.render_settings) {
            Ok(rendered) => {
                let render_summary = Some(rendered.summary.duplicate());
                let event = self.play_rendered(rendered);
                HostAudioPlaybackReport { event, render_summary }
            },
            Err(error) => {
                let event = self.record_failed(HostAudioError::render(error), None);
                HostAudioPlaybackReport { event, render_summary: None }
            },
        }
    }

    /// Renders and plays a count-in click.
    pub fn play_count_in_click(&mut self, intent: &CountInClickIntent) -> (event: HostAudioEvent)
        requires
            old(self).wf(),
        ensures
            final(self).wf(),
            ({
                let settings = old(self)@.render_settings;
                let summary = click_summary(*intent, settings, click_frames(*intent, settings));
                &&& play_outcome(
                    old(self)@,
                    old(self).backend_name_view(),
                    final(self)@,
                    final(self).backend_name_view(),
                    settings,
                    summary,
                    settings.frame_count as nat,
                )
                &&& reaches_backend(old(self)@, settings, summary, settings.frame_count as nat) ==> enqueued_once(
                    old(self)@,
                    old(self).backend_state(),
                    final(self)@,
                    final(self).backend_state(),
                    summary,
                    click_frames(*intent, settings),
                )
                &&& !reaches_backend(old(self)@, settings, summary, settings.frame_count as nat) ==> final(self).backend_state() == old(self).backend_state()
            }),
            final(self)@.last_event == Some(event@),
    {
        self.play_count_in_click_with_render_summary(intent).event
    }

    /// Lets `frame_count` frames of time pass for every active voice; voices
    /// that run out are removed and counted as completed.
    pub fn advance_voice_frames(&mut self, frame_count: usize)
        requires
            old(self).wf(),
        ensures
            final(self).wf(),
            final(self)@ == advance_state(old(self)@, frame_count),
            final(self).backend_state() == old(self).backend_state(),
    {
        if frame_count == 0 {
            return;
        }
        let ghost pre = self@;
        let ghost original = pre.active_voices;
        let mut pending: VecDeque<HostAudioVoiceSummary> = VecDeque::new();
        std::mem::swap(&mut pending, &mut self.active_voices);
        let mut kept: VecDeque<HostAudioVoiceSummary> = VecDeque::new();
        let mut completed: u64 = 0;
        let ghost mut processed: int = 0;
        proof {
            assert(voice_views(kept@) =~= advanced_voices(original.take(0), frame_count));
            assert(voice_views(pending@) =~= original.skip(0));
        }
        while pending.len() > 0
            invariant
                0 <= processed <= original.len(),
                original.len() <= MAX_HOST_AUDIO_VOICE_LIMIT,
                voice_views(pending@) == original.skip(processed),
                voice_views(kept@) == advanced_voices(original.take(processed), frame_count),
                completed == completed_voices(original.take(processed), frame_count),
                completed <= processed,
                frame_count > 0,
            decreases pending@.len(),
        {
            let ghost pending_before = pending@;
            let mut voice = match pending.pop_front() {
                Some(voice) => voice,
                None => {
                    proof {
                        assert(false);
                    }
                    return;
                },
            };
            proof {
                assert(voice_views(pending_before).len() == pending_before.len());
                assert(processed < original.len());
                assert(voice_views(pending_before)[0] == voice@);
                assert(original[processed] == voice@) by {
                    assert(original.skip(processed)[0] == original[processed]);
                }
                assert(voice_views(pending@) =~= voice_views(pending_before).subrange(
                    1,
                    pending_before.len() as int,
                ));
                assert(original.skip(processed + 1) =~= original.skip(processed).subrange(
                    1,
                    pending_before.len() as int,
                ));
                assert(voice_views(pending@) =~= original.skip(processed + 1));
                assert(original.take(processed + 1).drop_last() =~= original.take(processed));
                assert(original.take(processed + 1).last() == voice@);
            }
            voice.remaining_frame_count = voice.remaining_frame_count.saturating_sub(frame_count);
            if voice.remaining_frame_count == 0 {
                completed = completed + 1;
            } else {
                let ghost kept_before = kept@;
                kept.push_back(voice);
                proof {
                    assert(voice_views(kept@) =~= voice_views(kept_before).push(voice@));
                }
            }
            proof {
                processed = processed + 1;
            }
        }
        proof {
            assert(original.take(processed) =~= original);
        }
        self.active_voices = kept;
        self.completed_voice_count = self.completed_voice_count.saturating_add(completed);
        proof {
            lemma_advanced_voices_bounded(original, frame_count);
            lemma_advanced_voices_keep_invariant(original, frame_count, pre.next_voice_id);
            assert(self@ =~= advance_state(pre, frame_count));
        }
    }

    /// Stops the matching sample-playback voices when enabled; a disabled
    /// engine records that it ignored the intent and keeps its voices.
    pub fn release_intent(&mut self, intent: &SampleReleaseIntent) -> (event: HostAudioEvent)
        requires
            old(self).wf(),
        ensures
            final(self).wf(),
            final(self)@ == release_state(old(self)@, old(self).backend_name_view(), intent@),
            final(self).backend_state() == old(self).backend_state(),
            final(self)@.last_event == Some(event@),
    {
        if self.mode == HostAudioMode::Disabled {
            return self.record_ignored();
        }
        let ghost pre = self@;
        let released_voice_ids = self.release_matching_voices(intent);
        let released_voice_count: usize = released_voice_ids.len();
        self.released_voice_count = self.released_voice_count.saturating_add(released_voice_count as u64);
        let event = HostAudioEvent::Released {
            backend_name: self.backend_name_string(),
            receipt: HostAudioReleaseReceipt {
                intent: intent.duplicate(),
                released_voice_ids,
                released_voice_count,
                active_voice_count: self.active_voices.len(),
            },
        };
        self.last_event = Some(event.duplicate());
        proof {
            assert(self@ =~= release_state(pre, old(self).backend_name_view(), intent@));
        }
        event
    }

    fn release_matching_voices(&mut self, intent: &SampleReleaseIntent) -> (released: Vec<u64>)
        requires
            engine_view_wf(old(self)@),
        ensures
            released@ == released_voice_ids(old(self)@.active_voices, intent@),
            final(self)@ == (HostAudioEngineView {
                active_voices: kept_voices(old(self)@.active_voices, intent@),
                ..old(self)@
            }),
            final(self).backend_state() == old(self).backend_state(),
            engine_view_wf(final(self)@),
            released@.len() <= old(self)@.active_voices.len(),
    {
        let ghost pre = self@;
        let ghost original = pre.active_voices;
        let mut pending: VecDeque<HostAudioVoiceSummary> = VecDeque::new();
        std::mem::swap(&mut pending, &mut self.active_voices);
        let mut kept: VecDeque<HostAudioVoiceSummary> = VecDeque::new();
        let mut released: Vec<u64> = Vec::new();
        let ghost mut processed: int = 0;
        proof {
            assert(voice_views(kept@) =~= kept_voices(original.take(0), intent@));
            assert(released@ =~= released_voice_ids(original.take(0), intent@));
            assert(voice_views(pending@) =~= original.skip(0));
        }
        while pending.len() > 0
            invariant
                0 <= processed <= original.len(),
                voice_views(pending@) == original.skip(processed),
                voice_views(kept@) == kept_voices(original.take(processed), intent@),
                released@ == released_voice_ids(original.take(processed), intent@),
            decreases pending@.len(),
        {
            let ghost pending_before = pending@;
            let voice = match pending.pop_front() {
                Some(voice) => voice,
                None => {
                    proof {
                        assert(false);
                    }
                    return released;
                },
            };
            proof {
                assert(voice_views(pending_before).len() == pending_before.len());
                assert(processed < original.len());
                assert(voice_views(pending_before)[0] == voice@);
                assert(original[processed] == voice@) by {
                    assert(original.skip(processed)[0] == original[processed]);
                }
                assert(voice_views(pending@) =~= voice_views(pending_before).subrange(
                    1,
                    pending_before.len() as int,
                ));
                assert(original.skip(processed + 1) =~= original.skip(processed).subrange(
                    1,
                    pending_before.len() as int,
                ));
                assert(voice_views(pending@) =~= original.skip(processed + 1));
                assert(original.take(processed + 1).drop_last() =~= original.take(processed));
                assert(original.take(processed + 1).last() == voice@);
            }
            if voice.render_kind == AudioRenderKind::SamplePlayback && voice.source_sample_id
                == intent.sample_id && voice.bank == intent.bank && voice.pad_number
                == intent.pad_number {
                released.push(voice.voice_id);
            } else {
                let ghost kept_before = kept@;
                kept.push_back(voice);
                proof {
                    assert(voice_views(kept@) =~= voice_views(kept_before).push(voice@));
                }
            }
            proof {
                processed = processed + 1;
            }
        }
        proof {
            assert(original.take(processed) =~= original);
        }
        self.active_voices = kept;
        proof {
            lemma_release_partition(original, intent@);
            lemma_kept_voices_keep_invariant(original, intent@, pre.next_voice_id);
            assert(self@ =~= (HostAudioEngineView {
                active_voices: kept_voices(original, intent@),
                ..pre
            }));
        }
        released
    }

    /// A snapshot of the engine.
    pub fn state(&self) -> (state: HostAudioState)
        requires
            self.wf(),
        ensures
            state@ == state_view(self@, self.backend_name_view()),
    {
        let mut active_voices: Vec<HostAudioVoiceSummary> = Vec::with_capacity(self.active_voices.len());
        let mut index: usize = 0;
        while index < self.active_voices.len()
            invariant
                index <= self.active_voices@.len(),
                active_voices@.map_values(|v: HostAudioVoiceSummary| v@) == voice_views(
                    self.active_voices@,
                ).take(index as int),
            decreases self.active_voices@.len() - index,
        {
            let copy = self.active_voices[index].duplicate();
            let ghost before = active_voices@;
            active_voices.push(copy);
            proof {
                assert(active_voices@.map_values(|v: HostAudioVoiceSummary| v@) =~= before.map_values(
                    |v: HostAudioVoiceSummary| v@,
                ).push(copy@));
                assert(voice_views(self.active_voices@).take(index + 1) =~= voice_views(
                    self.active_voices@,
                ).take(index as int).push(copy@));
            }
            index = index + 1;
        }
        proof {
            assert(voice_views(self.active_voices@).take(index as int) =~= voice_views(
                self.active_voices@,
            ));
        }
        let last_event = match &self.last_event {
            Some(event) => Some(event.duplicate()),
            None => None,
        };
        HostAudioState {
            mode: self.mode,
            backend_name: self.backend_name_string(),
            render_settings: self.render_settings,
            queued_render_count: self.queued_render_count,
            played_render_count: self.played_render_count,
            voice_limit: self.voice_limit,
            active_voice_count: self.active_voices.len(),
            completed_voice_count: self.completed_voice_count,
            stolen_voice_count: self.stolen_voice_count,
            released_voice_count: self.released_voice_count,
            active_voices,
            last_event,
        }
    }
}

/// Advancing never adds voices, and every voice it keeps still has frames left.
pub proof fn lemma_advanced_voices_bounded(voices: Seq<HostAudioVoiceSummaryView>, frame_count: usize)
    ensures
        advanced_voices(voices, frame_count).len() <= voices.len(),
        advanced_voices(voices, frame_count).len() + completed_voices(voices, frame_count)
            == voices.len(),
        forall|i: int|
            0 <= i < advanced_voices(voices, frame_count).len() ==> #[trigger] advanced_voices(
                voices,
                frame_count,
            )[i].remaining_frame_count > 0,
    decreases voices.len(),
{
    if voices.len() > 0 {
        lemma_advanced_voices_bounded(voices.drop_last(), frame_count);
    }
}

/// Advancing keeps what the engine invariant says of its voices: each one
/// left is an earlier voice, with fewer frames remaining.
pub proof fn lemma_advanced_voices_keep_invariant(voices: Seq<HostAudioVoiceSummaryView>, frame_count: usize, next_voice_id: u64)
    requires
        voice_frames_valid(voices),
        voice_ids_ordered(voices),
        voice_ids_below(voices, next_voice_id),
    ensures
        voice_frames_valid(advanced_voices(voices, frame_count)),
        voice_ids_ordered(advanced_voices(voices, frame_count)),
        voice_ids_below(advanced_voices(voices, frame_count), next_voice_id),
        forall|i: int|
            0 <= i < advanced_voices(voices, frame_count).len() ==> exists|k: int|
                0 <= k < voices.len() && voices[k].voice_id == #[trigger] advanced_voices(
                    voices,
                    frame_count,
                )[i].voice_id,
    decreases voices.len(),
{
    if voices.len() > 0 {
        let front = voices.drop_last();
        assert(voice_ids_ordered(front));
        lemma_advanced_voices_keep_invariant(front, frame_count, next_voice_id);
        let rest = advanced_voices(front, frame_count);
        let result = advanced_voices(voices, frame_count);
        assert forall|i: int|
            0 <= i < result.len() implies exists|k: int|
                0 <= k < voices.len() && voices[k].voice_id == #[trigger] result[i].voice_id by {
            if i < rest.len() {
                let k = choose|k: int| 0 <= k < front.len() && front[k].voice_id == rest[i].voice_id;
                assert(voices[k] == front[k]);
            } else {
                assert(voices[voices.len() - 1].voice_id == result[i].voice_id);
            }
        }
        assert forall|i: int, j: int|
            #![trigger result[i], result[j]]
            0 <= i < j < result.len() implies result[i].voice_id < result[j].voice_id || result[j].voice_id
                == u64::MAX by {
            if j < rest.len() {
            } else {
                let k = choose|k: int| 0 <= k < front.len() && front[k].voice_id == rest[i].voice_id;
                assert(voices[k] == front[k]);
                assert(voices[voices.len() - 1] == voices.last());
            }
        }
    }
}

/// A release keeps what the engine invariant says of the voices it keeps.
pub proof fn lemma_kept_voices_keep_invariant(voices: Seq<HostAudioVoiceSummaryView>, intent: SampleReleaseIntentView, next_voice_id: u64)
    requires
        voice_frames_valid(voices),
        voice_ids_ordered(voices),
        voice_ids_below(voices, next_voice_id),
    ensures
        voice_frames_valid(kept_voices(voices, intent)),
        voice_ids_ordered(kept_voices(voices, intent)),
        voice_ids_below(kept_voices(voices, intent), next_voice_id),
        forall|i: int|
            0 <= i < kept_voices(voices, intent).len() ==> exists|k: int|
                0 <= k < voices.len() && voices[k].voice_id == #[trigger] kept_voices(voices, intent)[i].voice_id,
    decreases voices.len(),
{
    if voices.len() > 0 {
        let front = voices.drop_last();
        assert(voice_ids_ordered(front));
        lemma_kept_voices_keep_invariant(front, intent, next_voice_id);
        let rest = kept_voices(front, intent);
        let result = kept_voices(voices, intent);
        assert forall|i: int|
            0 <= i < result.len() implies exists|k: int|
                0 <= k < voices.len() && voices[k].voice_id == #[trigger] result[i].voice_id by {
            if i < rest.len() {
                let k = choose|k: int| 0 <= k < front.len() && front[k].voice_id == rest[i].voice_id;
                assert(voices[k] == front[k]);
            } else {
                assert(voices[voices.len() - 1].voice_id == result[i].voice_id);
            }
        }
        assert forall|i: int, j: int|
            #![trigger result[i], result[j]]
            0 <= i < j < result.len() implies result[i].voice_id < result[j].voice_id || result[j].voice_id
                == u64::MAX by {
            if j < rest.len() {
            } else {
                let k = choose|k: int| 0 <= k < front.len() && front[k].voice_id == rest[i].voice_id;
                assert(voices[k] == front[k]);
                assert(voices[voices.len() - 1] == voices.last());
            }
        }
    }
}

/// A release splits the voices: every voice is either released or kept.
pub proof fn lemma_release_partition(voices: Seq<HostAudioVoiceSummaryView>, intent: SampleReleaseIntentView)
    ensures
        kept_voices(voices, intent).len() + released_voice_ids(voices, intent).len() == voices.len(),
        forall|i: int|
            0 <= i < kept_voices(voices, intent).len() ==> voices.contains(
                #[trigger] kept_voices(voices, intent)[i],
            ),
    decreases voices.len(),
{
    if voices.len() > 0 {
        lemma_release_partition(voices.drop_last(), intent);
        let rest = kept_voices(voices.drop_last(), intent);
        assert forall|i: int|
            0 <= i < kept_voices(voices, intent).len() implies voices.contains(
                #[trigger] kept_voices(voices, intent)[i],
            ) by {
            if i < rest.len() {
                let j = choose|j: int| 0 <= j < voices.drop_last().len() && voices.drop_last()[j] == rest[i];
                assert(voices[j] == rest[i]);
            } else {
                assert(voices[voices.len() - 1] == voices.last());
            }
        }
    }
}

} // verus!
