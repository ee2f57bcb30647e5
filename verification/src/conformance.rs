use std::collections::VecDeque;
use vstd::prelude::*;
use vstd::string::StringExecFns;
use crate::debug_text::texts_view;
use vstd::seq_lib::lemma_concat_associative;
use crate::display::string_option_view;
use crate::engine::{
    advance_state, enqueued_once, initial_engine, play_outcome, reaches_backend, release_state, state_view,
    voice_views, HostAudioEngine, HostAudioEngineView,
};
use crate::fixture::{
    event_backend_name, event_frame_count, event_render_kind, event_source_kind,
    event_stolen_voice_id, event_type, event_voice_id, host_audio_event_backend_name,
    host_audio_event_frame_count, host_audio_event_render_kind, host_audio_event_source_kind,
    host_audio_event_stolen_voice_id, host_audio_event_type, host_audio_event_voice_id,
    ExpectedHostAudioEventType,
};
use crate::host::{
    capture_views, host_audio_error_text, CaptureAudioBackend, CapturedHostAudioRender,
    CapturedHostAudioRenderView, HostAudioBackend, HostAudioError, HostAudioEventView, HostAudioMode,
    HostAudioState, HostAudioStateView, HostAudioVoiceSummary, HostAudioVoiceSummaryView,
    MAX_CAPTURE_AUDIO_BACKEND_CAPTURES,
};
use crate::mismatch::{
    event_type_lines, optional_bool_list_lines, optional_render_kind_lines,
    optional_source_kind_lines, optional_u64_lines, optional_u64_list_lines, optional_usize_lines,
    push_event_type_mismatch, push_mode_mismatch, push_optional_bool_list_mismatch,
    push_optional_render_kind_mismatch, push_optional_source_kind_mismatch,
    push_optional_u64_list_mismatch, push_optional_u64_mismatch, push_optional_usize_mismatch,
    push_render_kind_list_mismatch, push_settings_mismatch, push_source_kind_list_mismatch,
    push_text_list_mismatch, push_text_mismatch, push_u64_mismatch, push_usize_list_mismatch,
    push_usize_mismatch, push_voice_list_mismatch, render_kind_list_lines, settings_lines,
    source_kind_list_lines, text_list_lines, text_lines, u64_lines, usize_list_lines, usize_lines,
    voice_list_lines, mode_lines, balance_lines, bank_lines, i16_lines, source_kind_lines,
    push_balance_mismatch, push_bank_mismatch, push_i16_mismatch, push_source_kind_mismatch,
};
use crate::intents::{CountInClickIntent, PadBank, SampleReleaseIntent, SamplePlaybackIntent};
use crate::render::{
    click_frames, click_summary, playback_frame_count, playback_frames, playback_summary, render_intent,
    AudioFrame, AudioRenderKind,
    AudioRenderSummaryView, AudioSourceKind, ChannelBalance,
};
use crate::settings::{render_error_message, settings_error, AudioRenderSettings};

verus! {

// ---------------------------------------------------------------------------
// Host-audio fixtures: an engine driven by a fixture's events, and the
// report that compares its state with what the fixture expects.
// ---------------------------------------------------------------------------

/// How many captures a fixture's backend keeps when the fixture does not say.
pub fn default_capture_history() -> (history: usize)
    ensures
        history == 16,
{
    16
}

/// The voice limit of a fixture's engine when the fixture does not say.
pub fn default_host_audio_fixture_voice_limit() -> (limit: usize)
    ensures
        limit == 32,
{
    32
}

/// What a fixture expects of the host-audio engine once its events have run.
/// Every field left `None` is not checked.
#[derive(Debug, Clone, PartialEq, Eq)]
pub struct ExpectedHostAudioState {
    pub mode: Option<HostAudioMode>,
    pub backend_name: Option<String>,
    pub render_settings: Option<AudioRenderSettings>,
    pub queued_render_count: Option<u64>,
    pub played_render_count: Option<u64>,
    pub voice_limit: Option<usize>,
    pub active_voice_count: Option<usize>,
    pub completed_voice_count: Option<u64>,
    pub stolen_voice_count: Option<u64>,
    pub released_voice_count: Option<u64>,
    pub active_voices: Option<Vec<HostAudioVoiceSummary>>,
    pub capture_count: Option<usize>,
    pub capture_frame_counts: Option<Vec<usize>>,
    pub capture_render_kinds: Option<Vec<AudioRenderKind>>,
    pub capture_source_kinds: Option<Vec<AudioSourceKind>>,
    pub capture_source_sample_names: Option<Vec<String>>,
    pub capture_count_in_ticks: Option<Vec<Option<u64>>>,
    pub capture_accents: Option<Vec<Option<bool>>>,
    pub last_event_type: Option<ExpectedHostAudioEventType>,
    pub last_event_backend_name: Option<String>,
    pub last_event_render_kind: Option<AudioRenderKind>,
    pub last_event_source_kind: Option<AudioSourceKind>,
    pub last_event_frame_count: Option<usize>,
    pub last_event_voice_id: Option<u64>,
    pub last_event_stolen_voice_id: Option<u64>,
}

pub struct ExpectedHostAudioStateView {
    pub mode: Option<HostAudioMode>,
    pub backend_name: Option<Seq<char>>,
    pub render_settings: Option<AudioRenderSettings>,
    pub queued_render_count: Option<u64>,
    pub played_render_count: Option<u64>,
    pub voice_limit: Option<usize>,
    pub active_voice_count: Option<usize>,
    pub completed_voice_count: Option<u64>,
    pub stolen_voice_count: Option<u64>,
    pub released_voice_count: Option<u64>,
    pub active_voices: Option<Seq<HostAudioVoiceSummaryView>>,
    pub capture_count: Option<usize>,
    pub capture_frame_counts: Option<Seq<usize>>,
    pub capture_render_kinds: Option<Seq<AudioRenderKind>>,
    pub capture_source_kinds: Option<Seq<AudioSourceKind>>,
    pub capture_source_sample_names: Option<Seq<Seq<char>>>,
    pub capture_count_in_ticks: Option<Seq<Option<u64>>>,
    pub capture_accents: Option<Seq<Option<bool>>>,
    pub last_event_type: Option<ExpectedHostAudioEventType>,
    pub last_event_backend_name: Option<Seq<char>>,
    pub last_event_render_kind: Option<AudioRenderKind>,
    pub last_event_source_kind: Option<AudioSourceKind>,
    pub last_event_frame_count: Option<usize>,
    pub last_event_voice_id: Option<u64>,
    pub last_event_stolen_voice_id: Option<u64>,
}

pub open spec fn vec_option_view<T>(values: Option<Vec<T>>) -> Option<Seq<T>> {
    match values {
        Some(v) => Some(v@),
        None => None,
    }
}

impl View for ExpectedHostAudioState {
    type V = ExpectedHostAudioStateView;

    open spec fn view(&self) -> ExpectedHostAudioStateView {
        ExpectedHostAudioStateView {
            mode: self.mode,
            backend_name: string_option_view(self.backend_name),
            render_settings: self.render_settings,
            queued_render_count: self.queued_render_count,
            played_render_count: self.played_render_count,
            voice_limit: self.voice_limit,
            active_voice_count: self.active_voice_count,
            completed_voice_count: self.completed_voice_count,
            stolen_voice_count: self.stolen_voice_count,
            released_voice_count: self.released_voice_count,
            active_voices: match self.active_voices {
                Some(voices) => Some(voice_views(voices@)),
                None => None,
            },
            capture_count: self.capture_count,
            capture_frame_counts: vec_option_view(self.capture_frame_counts),
            capture_render_kinds: vec_option_view(self.capture_render_kinds),
            capture_source_kinds: vec_option_view(self.capture_source_kinds),
            capture_source_sample_names: match self.capture_source_sample_names {
                Some(names) => Some(texts_view(names@)),
                None => None,
            },
            capture_count_in_ticks: vec_option_view(self.capture_count_in_ticks),
            capture_accents: vec_option_view(self.capture_accents),
            last_event_type: self.last_event_type,
            last_event_backend_name: string_option_view(self.last_event_backend_name),
            last_event_render_kind: self.last_event_render_kind,
            last_event_source_kind: self.last_event_source_kind,
            last_event_frame_count: self.last_event_frame_count,
            last_event_voice_id: self.last_event_voice_id,
            last_event_stolen_voice_id: self.last_event_stolen_voice_id,
        }
    }
}

impl Default for ExpectedHostAudioState {
    /// Expects nothing.
    fn default() -> (expected: Self)
        ensures
            expected.mode is None,
            expected.backend_name is None,
            expected.render_settings is None,
            expected.queued_render_count is None,
            expected.played_render_count is None,
            expected.voice_limit is None,
            expected.active_voice_count is None,
            expected.completed_voice_count is None,
            expected.stolen_voice_count is None,
            expected.released_voice_count is None,
            expected.active_voices is None,
            expected.capture_count is None,
            expected.capture_frame_counts is None,
            expected.capture_render_kinds is None,
            expected.capture_source_kinds is None,
            expected.capture_source_sample_names is None,
            expected.capture_count_in_ticks is None,
            expected.capture_accents is None,
            expected.last_event_type is None,
            expected.last_event_backend_name is None,
            expected.last_event_render_kind is None,
            expected.last_event_source_kind is None,
            expected.last_event_frame_count is None,
            expected.last_event_voice_id is None,
            expected.last_event_stolen_voice_id is None,
    {
        ExpectedHostAudioState {
            mode: None,
            backend_name: None,
            render_settings: None,
            queued_render_count: None,
            played_render_count: None,
            voice_limit: None,
            active_voice_count: None,
            completed_voice_count: None,
            stolen_voice_count: None,
            released_voice_count: None,
            active_voices: None,
            capture_count: None,
            capture_frame_counts: None,
            capture_render_kinds: None,
            capture_source_kinds: None,
            capture_source_sample_names: None,
            capture_count_in_ticks: None,
            capture_accents: None,
            last_event_type: None,
            last_event_backend_name: None,
            last_event_render_kind: None,
            last_event_source_kind: None,
            last_event_frame_count: None,
            last_event_voice_id: None,
            last_event_stolen_voice_id: None,
        }
    }
}

/// The host-audio part of a fixture: how to build the engine, how far to
/// advance its voices after the events, and what to expect of it.
#[derive(Debug, Clone, PartialEq, Eq)]
pub struct HostAudioFixture {
    pub enabled: bool,
    pub settings: AudioRenderSettings,
    pub capture_history: usize,
    pub voice_limit: usize,
    pub advance_voice_frames: Vec<usize>,
    pub expect: ExpectedHostAudioState,
}

/// The engine that a fixture drives, over a backend that captures renders.
pub struct HostAudioFixtureRunner {
    pub engine: HostAudioEngine<CaptureAudioBackend>,
}

pub open spec fn fixture_mode(enabled: bool) -> HostAudioMode {
    if enabled {
        HostAudioMode::Enabled
    } else {
        HostAudioMode::Disabled
    }
}

pub open spec fn clamped_capture_history(capture_history: usize) -> usize {
    if capture_history <= MAX_CAPTURE_AUDIO_BACKEND_CAPTURES {
        capture_history
    } else {
        MAX_CAPTURE_AUDIO_BACKEND_CAPTURES
    }
}

pub open spec fn setup_error_line(error: HostAudioError) -> Seq<char> {
    "host_audio setup error: "@ + host_audio_error_text(error@)
}

/// Builds the engine of a fixture's host-audio section: a capture backend
/// keeping `capture_history` renders, the fixture's settings and voice
/// limit, enabled as the fixture says. Settings that do not validate add one
/// setup-error line to `details` and build nothing.
pub fn build_host_audio_runner(details: &mut Vec<String>, config: Option<&HostAudioFixture>) -> (runner: Option<
    HostAudioFixtureRunner,
>)
    ensures
        match config {
            None => runner is None && final(details)@ == old(details)@,
            Some(config) => match settings_error(config.settings) {
                Some(error) => runner is None && texts_view(final(details)@) == texts_view(
                    old(details)@,
                ).push(setup_error_line(HostAudioError::Render { error })),
                None => runner matches Some(r) && final(details)@ == old(details)@ && r.engine.wf()
                    && r.engine@ == initial_engine(
                    config.settings,
                    config.voice_limit,
                    fixture_mode(config.enabled),
                ) && r.engine.backend_name_view() == "capture"@
                    && r.engine.backend_state().spec_max_captures() == clamped_capture_history(
                    config.capture_history,
                ) && r.engine.backend_state().spec_captures() == Seq::<
                    CapturedHostAudioRenderView,
                >::empty(),
            },
        },
{
    let config = match config {
        Some(config) => config,
        None => return None,
    };
    let backend = CaptureAudioBackend::new(config.capture_history);
    match HostAudioEngine::new_with_voice_limit(backend, config.settings, config.voice_limit) {
        Ok(mut engine) => {
            engine.set_enabled(config.enabled);
            Some(HostAudioFixtureRunner { engine })
        },
        Err(error) => {
            let mut line = "host_audio setup error: ".to_owned();
            line.append(error.message().as_str());
            details.push(line);
            proof {
                assert(texts_view(final(details)@) =~= texts_view(old(details)@).push(
                    setup_error_line(error),
                ));
            }
            None
        },
    }
}

/// The engine after its voices advanced by each count of `frames` in turn.
pub open spec fn advance_all(engine: HostAudioEngineView, frames: Seq<usize>) -> HostAudioEngineView
    decreases frames.len(),
{
    if frames.len() == 0 {
        engine
    } else {
        advance_state(advance_all(engine, frames.drop_last()), frames.last())
    }
}

impl HostAudioFixtureRunner {
    /// Advances the engine's voices by each count of `frames`, in order.
    pub fn advance_voice_frames(&mut self, frames: &Vec<usize>)
        requires
            old(self).engine.wf(),
        ensures
            final(self).engine.wf(),
            final(self).engine@ == advance_all(old(self).engine@, frames@),
            final(self).engine.backend_state() == old(self).engine.backend_state(),
    {
        let mut index: usize = 0;
        while index < frames.len()
            invariant
                index <= frames@.len(),
                self.engine.wf(),
                self.engine@ == advance_all(old(self).engine@, frames@.take(index as int)),
                self.engine.backend_state() == old(self).engine.backend_state(),
            decreases frames@.len() - index,
        {
            self.engine.advance_voice_frames(frames[index]);
            proof {
                assert(frames@.take(index + 1).drop_last() =~= frames@.take(index as int));
            }
            index = index + 1;
        }
        proof {
            assert(frames@.take(frames@.len() as int) =~= frames@);
        }
    }
}

// ---------------------------------------------------------------------------
// The host-audio report
// ---------------------------------------------------------------------------

pub open spec fn host_audio_state_lines(expected: ExpectedHostAudioStateView, state: HostAudioStateView) -> Seq<Seq<char>> {
    mode_lines("host_audio.mode"@, expected.mode, state.mode)
        + text_lines("host_audio.backend_name"@, expected.backend_name, state.backend_name)
        + settings_lines("host_audio.render_settings"@, expected.render_settings, state.render_settings)
        + u64_lines("host_audio.queued_render_count"@, expected.queued_render_count, state.queued_render_count)
        + u64_lines("host_audio.played_render_count"@, expected.played_render_count, state.played_render_count)
        + usize_lines("host_audio.voice_limit"@, expected.voice_limit, state.voice_limit)
        + usize_lines("host_audio.active_voice_count"@, expected.active_voice_count, state.active_voice_count)
        + u64_lines(
        "host_audio.completed_voice_count"@,
        expected.completed_voice_count,
        state.completed_voice_count,
    ) + u64_lines("host_audio.stolen_voice_count"@, expected.stolen_voice_count, state.stolen_voice_count)
        + u64_lines(
        "host_audio.released_voice_count"@,
        expected.released_voice_count,
        state.released_voice_count,
    ) + voice_list_lines("host_audio.active_voices"@, expected.active_voices, state.active_voices)
}

pub open spec fn capture_frame_counts(captures: Seq<CapturedHostAudioRenderView>) -> Seq<usize> {
    captures.map_values(|c: CapturedHostAudioRenderView| c.frame_count)
}

pub open spec fn capture_render_kinds(captures: Seq<CapturedHostAudioRenderView>) -> Seq<AudioRenderKind> {
    captures.map_values(|c: CapturedHostAudioRenderView| c.summary.render_kind)
}

pub open spec fn capture_source_kinds(captures: Seq<CapturedHostAudioRenderView>) -> Seq<AudioSourceKind> {
    captures.map_values(|c: CapturedHostAudioRenderView| c.summary.source_kind)
}

pub open spec fn capture_sample_names(captures: Seq<CapturedHostAudioRenderView>) -> Seq<Seq<char>> {
    captures.map_values(|c: CapturedHostAudioRenderView| c.summary.source_sample_name)
}

pub open spec fn capture_count_in_ticks(captures: Seq<CapturedHostAudioRenderView>) -> Seq<Option<u64>> {
    captures.map_values(|c: CapturedHostAudioRenderView| c.summary.count_in_tick)
}

pub open spec fn capture_accents(captures: Seq<CapturedHostAudioRenderView>) -> Seq<Option<bool>> {
    captures.map_values(|c: CapturedHostAudioRenderView| c.summary.accent)
}

pub open spec fn host_audio_capture_lines(
    expected: ExpectedHostAudioStateView,
    captures: Seq<CapturedHostAudioRenderView>,
) -> Seq<Seq<char>> {
    usize_lines("host_audio.capture_count"@, expected.capture_count, captures.len() as usize)
        + usize_list_lines(
        "host_audio.capture_frame_counts"@,
        expected.capture_frame_counts,
        capture_frame_counts(captures),
    ) + render_kind_list_lines(
        "host_audio.capture_render_kinds"@,
        expected.capture_render_kinds,
        capture_render_kinds(captures),
    ) + source_kind_list_lines(
        "host_audio.capture_source_kinds"@,
        expected.capture_source_kinds,
        capture_source_kinds(captures),
    ) + text_list_lines(
        "host_audio.capture_source_sample_names"@,
        expected.capture_source_sample_names,
        capture_sample_names(captures),
    ) + optional_u64_list_lines(
        "host_audio.capture_count_in_ticks"@,
        expected.capture_count_in_ticks,
        capture_count_in_ticks(captures),
    ) + optional_bool_list_lines(
        "host_audio.capture_accents"@,
        expected.capture_accents,
        capture_accents(captures),
    )
}

pub open spec fn host_audio_last_event_lines(
    expected: ExpectedHostAudioStateView,
    last_event: Option<HostAudioEventView>,
) -> Seq<Seq<char>> {
    match last_event {
        None => if expected.last_event_type is Some {
            seq!["host_audio.last_event mismatch: expected event, got None"@]
        } else {
            Seq::empty()
        },
        Some(event) => event_type_lines("host_audio.last_event_type"@, expected.last_event_type, event_type(event))
            + text_lines(
            "host_audio.last_event_backend_name"@,
            expected.last_event_backend_name,
            event_backend_name(event),
        ) + optional_render_kind_lines(
            "host_audio.last_event_render_kind"@,
            expected.last_event_render_kind,
            event_render_kind(event),
        ) + optional_source_kind_lines(
            "host_audio.last_event_source_kind"@,
            expected.last_event_source_kind,
            event_source_kind(event),
        ) + optional_usize_lines(
            "host_audio.last_event_frame_count"@,
            expected.last_event_frame_count,
            event_frame_count(event),
        ) + optional_u64_lines(
            "host_audio.last_event_voice_id"@,
            expected.last_event_voice_id,
            event_voice_id(event),
        ) + optional_u64_lines(
            "host_audio.last_event_stolen_voice_id"@,
            expected.last_event_stolen_voice_id,
            event_stolen_voice_id(event),
        ),
    }
}

/// What the engine shows a fixture: its state and the captured renders.
pub open spec fn runner_observation(runner: HostAudioFixtureRunner) -> (HostAudioStateView, Seq<CapturedHostAudioRenderView>) {
    (
        state_view(runner.engine@, runner.engine.backend_name_view()),
        runner.engine.backend_state().spec_captures(),
    )
}

/// Every line of the host-audio report, in order: the state, the captures,
/// the last event. A fixture without a host-audio section gets none; one
/// whose engine could not be built gets a single line.
pub open spec fn host_audio_report(
    expected: Option<ExpectedHostAudioStateView>,
    observed: Option<(HostAudioStateView, Seq<CapturedHostAudioRenderView>)>,
) -> Seq<Seq<char>> {
    match expected {
        None => Seq::empty(),
        Some(expected) => match observed {
            None => seq!["host_audio state mismatch: host audio runner was not created"@],
            Some((state, captures)) => host_audio_state_lines(expected, state) + host_audio_capture_lines(
                expected,
                captures,
            ) + host_audio_last_event_lines(expected, state.last_event),
        },
    }
}

fn push_state_mismatches(details: &mut Vec<String>, expected: &ExpectedHostAudioState, state: &HostAudioState)
    ensures
        texts_view(final(details)@) == texts_view(old(details)@) + host_audio_state_lines(expected@, state@),
{
    let ghost start = texts_view(details@);
    let ghost e = expected@;
    let ghost s = state@;
    push_mode_mismatch(details, "host_audio.mode", expected.mode, state.mode);
    let ghost mut lines = mode_lines("host_audio.mode"@, e.mode, s.mode);
    let expected_backend_name: Option<&str> = match &expected.backend_name {
        Some(name) => Some(name.as_str()),
        None => None,
    };
    push_text_mismatch(details, "host_audio.backend_name", expected_backend_name, state.backend_name.as_str());
    proof {
        let next = text_lines("host_audio.backend_name"@, e.backend_name, s.backend_name);
        lemma_concat_associative(start, lines, next);
        lines = lines + next;
    }
    push_settings_mismatch(details, "host_audio.render_settings", expected.render_settings, state.render_settings);
    proof {
        let next = settings_lines("host_audio.render_settings"@, e.render_settings, s.render_settings);
        lemma_concat_associative(start, lines, next);
        lines = lines + next;
    }
    push_u64_mismatch(details, "host_audio.queued_render_count", expected.queued_render_count, state.queued_render_count);
    proof {
        let next = u64_lines("host_audio.queued_render_count"@, e.queued_render_count, s.queued_render_count);
        lemma_concat_associative(start, lines, next);
        lines = lines + next;
    }
    push_u64_mismatch(details, "host_audio.played_render_count", expected.played_render_count, state.played_render_count);
    proof {
        let next = u64_lines("host_audio.played_render_count"@, e.played_render_count, s.played_render_count);
        lemma_concat_associative(start, lines, next);
        lines = lines + next;
    }
    push_usize_mismatch(details, "host_audio.voice_limit", expected.voice_limit, state.voice_limit);
    proof {
        let next = usize_lines("host_audio.voice_limit"@, e.voice_limit, s.voice_limit);
        lemma_concat_associative(start, lines, next);
        lines = lines + next;
    }
    push_usize_mismatch(details, "host_audio.active_voice_count", expected.active_voice_count, state.active_voice_count);
    proof {
        let next = usize_lines("host_audio.active_voice_count"@, e.active_voice_count, s.active_voice_count);
        lemma_concat_associative(start, lines, next);
        lines = lines + next;
    }
    push_u64_mismatch(
        details,
        "host_audio.completed_voice_count",
        expected.completed_voice_count,
        state.completed_voice_count,
    );
    proof {
        let next = u64_lines("host_audio.completed_voice_count"@, e.completed_voice_count, s.completed_voice_count);
        lemma_concat_associative(start, lines, next);
        lines = lines + next;
    }
    push_u64_mismatch(details, "host_audio.stolen_voice_count", expected.stolen_voice_count, state.stolen_voice_count);
    proof {
        let next = u64_lines("host_audio.stolen_voice_count"@, e.stolen_voice_count, s.stolen_voice_count);
        lemma_concat_associative(start, lines, next);
        lines = lines + next;
    }
    push_u64_mismatch(
        details,
        "host_audio.released_voice_count",
        expected.released_voice_count,
        state.released_voice_count,
    );
    proof {
        let next = u64_lines("host_audio.released_voice_count"@, e.released_voice_count, s.released_voice_count);
        lemma_concat_associative(start, lines, next);
        lines = lines + next;
    }
    let expected_voices: Option<&Vec<HostAudioVoiceSummary>> = match &expected.active_voices {
        Some(voices) => Some(voices),
        None => None,
    };
    push_voice_list_mismatch(details, "host_audio.active_voices", expected_voices, &state.active_voices);
    proof {
        assert(s.active_voices =~= voice_views(state.active_voices@));
        let next = voice_list_lines("host_audio.active_voices"@, e.active_voices, s.active_voices);
        lemma_concat_associative(start, lines, next);
        lines = lines + next;
        assert(lines == host_audio_state_lines(e, s));
    }
}

/// Compares what the fixture expects of the captured renders with the
/// renders that the backend kept, field by field.
pub fn validate_expected_host_audio_captures(
    details: &mut Vec<String>,
    captures: &VecDeque<CapturedHostAudioRender>,
    expected: &ExpectedHostAudioState,
)
    ensures
        texts_view(final(details)@) == texts_view(old(details)@) + host_audio_capture_lines(
            expected@,
            capture_views(captures@),
        ),
{
    let ghost start = texts_view(details@);
    let ghost caps = capture_views(captures@);
    let mut frame_counts: Vec<usize> = Vec::new();
    let mut render_kinds: Vec<AudioRenderKind> = Vec::new();
    let mut source_kinds: Vec<AudioSourceKind> = Vec::new();
    let mut names: Vec<String> = Vec::new();
    let mut ticks: Vec<Option<u64>> = Vec::new();
    let mut accents: Vec<Option<bool>> = Vec::new();
    let mut index: usize = 0;
    while index < captures.len()
        invariant
            caps == capture_views(captures@),
            index <= captures@.len(),
            frame_counts@ == capture_frame_counts(caps).take(index as int),
            render_kinds@ == capture_render_kinds(caps).take(index as int),
            source_kinds@ == capture_source_kinds(caps).take(index as int),
            texts_view(names@) == capture_sample_names(caps).take(index as int),
            ticks@ == capture_count_in_ticks(caps).take(index as int),
            accents@ == capture_accents(caps).take(index as int),
        decreases captures@.len() - index,
    {
        let capture = &captures[index];
        frame_counts.push(capture.frame_count);
        render_kinds.push(capture.summary.render_kind);
        source_kinds.push(capture.summary.source_kind);
        let ghost names_before = names@;
        names.push(capture.summary.source_sample_name.clone());
        ticks.push(capture.summary.count_in_tick);
        accents.push(capture.summary.accent);
        proof {
            let c = caps[index as int];
            assert(c == captures@[index as int]@);
            assert(frame_counts@ =~= capture_frame_counts(caps).take(index + 1));
            assert(render_kinds@ =~= capture_render_kinds(caps).take(index + 1));
            assert(source_kinds@ =~= capture_source_kinds(caps).take(index + 1));
            assert(texts_view(names@) =~= texts_view(names_before).push(c.summary.source_sample_name));
            assert(texts_view(names@) =~= capture_sample_names(caps).take(index + 1));
            assert(ticks@ =~= capture_count_in_ticks(caps).take(index + 1));
            assert(accents@ =~= capture_accents(caps).take(index + 1));
        }
        index = index + 1;
    }
    proof {
        assert(capture_frame_counts(caps).take(caps.len() as int) =~= capture_frame_counts(caps));
        assert(capture_render_kinds(caps).take(caps.len() as int) =~= capture_render_kinds(caps));
        assert(capture_source_kinds(caps).take(caps.len() as int) =~= capture_source_kinds(caps));
        assert(capture_sample_names(caps).take(caps.len() as int) =~= capture_sample_names(caps));
        assert(capture_count_in_ticks(caps).take(caps.len() as int) =~= capture_count_in_ticks(caps));
        assert(capture_accents(caps).take(caps.len() as int) =~= capture_accents(caps));
    }
    push_usize_mismatch(details, "host_audio.capture_count", expected.capture_count, captures.len());
    let expected_frame_counts: Option<&Vec<usize>> = match &expected.capture_frame_counts {
        Some(v) => Some(v),
        None => None,
    };
    push_usize_list_mismatch(details, "host_audio.capture_frame_counts", expected_frame_counts, &frame_counts);
    let expected_render_kinds: Option<&Vec<AudioRenderKind>> = match &expected.capture_render_kinds {
        Some(v) => Some(v),
        None => None,
    };
    push_render_kind_list_mismatch(details, "host_audio.capture_render_kinds", expected_render_kinds, &render_kinds);
    let expected_source_kinds: Option<&Vec<AudioSourceKind>> = match &expected.capture_source_kinds {
        Some(v) => Some(v),
        None => None,
    };
    push_source_kind_list_mismatch(details, "host_audio.capture_source_kinds", expected_source_kinds, &source_kinds);
    let expected_names: Option<&Vec<String>> = match &expected.capture_source_sample_names {
        Some(v) => Some(v),
        None => None,
    };
    push_text_list_mismatch(details, "host_audio.capture_source_sample_names", expected_names, &names);
    let expected_ticks: Option<&Vec<Option<u64>>> = match &expected.capture_count_in_ticks {
        Some(v) => Some(v),
        None => None,
    };
    push_optional_u64_list_mismatch(details, "host_audio.capture_count_in_ticks", expected_ticks, &ticks);
    let expected_accents: Option<&Vec<Option<bool>>> = match &expected.capture_accents {
        Some(v) => Some(v),
        None => None,
    };
    push_optional_bool_list_mismatch(details, "host_audio.capture_accents", expected_accents, &accents);
    proof {
        assert(texts_view(final(details)@) =~= start + host_audio_capture_lines(expected@, caps));
    }
}

/// Compares what the fixture expects of the engine's last event with the
/// event itself. With no event, only an expected event type is reported.
pub fn validate_expected_host_audio_last_event(
    details: &mut Vec<String>,
    state: &HostAudioState,
    expected: &ExpectedHostAudioState,
)
    ensures
        texts_view(final(details)@) == texts_view(old(details)@) + host_audio_last_event_lines(
            expected@,
            state@.last_event,
        ),
{
    let ghost start = texts_view(details@);
    let event = match &state.last_event {
        Some(event) => event,
        None => {
            if expected.last_event_type.is_some() {
                details.push("host_audio.last_event mismatch: expected event, got None".to_owned());
            }
            proof {
                assert(texts_view(final(details)@) =~= start + host_audio_last_event_lines(
                    expected@,
                    state@.last_event,
                ));
            }
            return;
        },
    };
    push_event_type_mismatch(details, "host_audio.last_event_type", expected.last_event_type, host_audio_event_type(event));
    let expected_backend_name: Option<&str> = match &expected.last_event_backend_name {
        Some(name) => Some(name.as_str()),
        None => None,
    };
    push_text_mismatch(
        details,
        "host_audio.last_event_backend_name",
        expected_backend_name,
        host_audio_event_backend_name(event),
    );
    push_optional_render_kind_mismatch(
        details,
        "host_audio.last_event_render_kind",
        expected.last_event_render_kind,
        host_audio_event_render_kind(event),
    );
    push_optional_source_kind_mismatch(
        details,
        "host_audio.last_event_source_kind",
        expected.last_event_source_kind,
        host_audio_event_source_kind(event),
    );
    push_optional_usize_mismatch(
        details,
        "host_audio.last_event_frame_count",
        expected.last_event_frame_count,
        host_audio_event_frame_count(event),
    );
    push_optional_u64_mismatch(
        details,
        "host_audio.last_event_voice_id",
        expected.last_event_voice_id,
        host_audio_event_voice_id(event),
    );
    push_optional_u64_mismatch(
        details,
        "host_audio.last_event_stolen_voice_id",
        expected.last_event_stolen_voice_id,
        host_audio_event_stolen_voice_id(event),
    );
    proof {
        assert(texts_view(final(details)@) =~= start + host_audio_last_event_lines(expected@, state@.last_event));
    }
}

/// Appends the host-audio report of a fixture to `details`: nothing when the
/// fixture has no host-audio section, one line when its engine was not
/// built, and otherwise one line for each expected value that the engine's
/// state, captures or last event do not match.
pub fn validate_host_audio(
    details: &mut Vec<String>,
    config: Option<&HostAudioFixture>,
    runner: Option<&HostAudioFixtureRunner>,
)
    requires
        match runner {
            Some(r) => r.engine.wf(),
            None => true,
        },
    ensures
        texts_view(final(details)@) == texts_view(old(details)@) + host_audio_report(
            match config {
                Some(c) => Some(c.expect@),
                None => None,
            },
            match runner {
                Some(r) => Some(runner_observation(*r)),
                None => None,
            },
        ),
{
    let ghost start = texts_view(details@);
    let config = match config {
        Some(config) => config,
        None => {
            proof {
                assert(texts_view(final(details)@) =~= start + Seq::<Seq<char>>::empty());
            }
            return;
        },
    };
    let runner = match runner {
        Some(runner) => runner,
        None => {
            details.push("host_audio state mismatch: host audio runner was not created".to_owned());
            proof {
                assert(texts_view(final(details)@) =~= start + seq![
                    "host_audio state mismatch: host audio runner was not created"@,
                ]);
            }
            return;
        },
    };
    let state = runner.engine.state();
    let expected = &config.expect;
    push_state_mismatches(details, expected, &state);
    validate_expected_host_audio_captures(details, runner.engine.backend().captured_renders(), expected);
    validate_expected_host_audio_last_event(details, &state, expected);
    proof {
        assert(texts_view(final(details)@) =~= start + host_audio_report(
            Some(config.expect@),
            Some(runner_observation(*runner)),
        ));
    }
}

// ---------------------------------------------------------------------------
// The last audio render
// ---------------------------------------------------------------------------

/// What a fixture expects of the render of the machine's last playback intent.
#[derive(Debug, Clone, PartialEq, Eq)]
pub struct ExpectedAudioRender {
    pub settings: AudioRenderSettings,
    pub sample_rate_hz: u32,
    pub frame_count: usize,
    pub source_sample_id: String,
    pub source_sample_name: String,
    pub selected_track: u8,
    pub program_index: u8,
    pub program_name: String,
    pub bank: PadBank,
    pub pad_number: u8,
    pub tune_cents: i16,
    pub start_frame: Option<u32>,
    pub end_frame: Option<u32>,
    pub window_length_frames: Option<u32>,
    pub peak_left: i16,
    pub peak_right: i16,
    pub peak_amplitude: i16,
    pub channel_balance: ChannelBalance,
    pub source_kind: AudioSourceKind,
    pub loaded_audio_byte_count: usize,
}

pub struct ExpectedAudioRenderView {
    pub settings: AudioRenderSettings,
    pub sample_rate_hz: u32,
    pub frame_count: usize,
    pub source_sample_id: Seq<char>,
    pub source_sample_name: Seq<char>,
    pub selected_track: u8,
    pub program_index: u8,
    pub program_name: Seq<char>,
    pub bank: PadBank,
    pub pad_number: u8,
    pub tune_cents: i16,
    pub start_frame: Option<u32>,
    pub end_frame: Option<u32>,
    pub window_length_frames: Option<u32>,
    pub peak_left: i16,
    pub peak_right: i16,
    pub peak_amplitude: i16,
    pub channel_balance: ChannelBalance,
    pub source_kind: AudioSourceKind,
    pub loaded_audio_byte_count: usize,
}

impl View for ExpectedAudioRender {
    type V = ExpectedAudioRenderView;

    open spec fn view(&self) -> ExpectedAudioRenderView {
        ExpectedAudioRenderView {
            settings: self.settings,
            sample_rate_hz: self.sample_rate_hz,
            frame_count: self.frame_count,
            source_sample_id: self.source_sample_id@,
            source_sample_name: self.source_sample_name@,
            selected_track: self.selected_track,
            program_index: self.program_index,
            program_name: self.program_name@,
            bank: self.bank,
            pad_number: self.pad_number,
            tune_cents: self.tune_cents,
            start_frame: self.start_frame,
            end_frame: self.end_frame,
            window_length_frames: self.window_length_frames,
            peak_left: self.peak_left,
            peak_right: self.peak_right,
            peak_amplitude: self.peak_amplitude,
            channel_balance: self.channel_balance,
            source_kind: self.source_kind,
            loaded_audio_byte_count: self.loaded_audio_byte_count,
        }
    }
}

pub open spec fn widened(value: Option<u32>) -> Option<u64> {
    match value {
        Some(v) => Some(v as u64),
        None => None,
    }
}

fn widen_u32(value: Option<u32>) -> (widened_value: Option<u64>)
    ensures
        widened_value == widened(value),
{
    match value {
        Some(v) => Some(v as u64),
        None => None,
    }
}

/// The lines that compare an expected render with a render's summary and
/// its number of frames, field by field.
pub open spec fn audio_render_summary_lines(
    e: ExpectedAudioRenderView,
    summary: AudioRenderSummaryView,
    frame_len: nat,
) -> Seq<Seq<char>> {
    u64_lines("last_audio_render.sample_rate_hz"@, Some(e.sample_rate_hz as u64), summary.sample_rate_hz as u64)
        + usize_lines("last_audio_render.frame_count"@, Some(e.frame_count), summary.frame_count)
        + usize_lines("last_audio_render.frames.len"@, Some(e.frame_count), frame_len as usize)
        + text_lines("last_audio_render.source_sample_id"@, Some(e.source_sample_id), summary.source_sample_id)
        + text_lines("last_audio_render.source_sample_name"@, Some(e.source_sample_name), summary.source_sample_name)
        + u64_lines("last_audio_render.selected_track"@, Some(e.selected_track as u64), summary.selected_track as u64)
        + u64_lines("last_audio_render.program_index"@, Some(e.program_index as u64), summary.program_index as u64)
        + text_lines("last_audio_render.program_name"@, Some(e.program_name), summary.program_name)
        + bank_lines("last_audio_render.bank"@, Some(e.bank), summary.bank)
        + u64_lines("last_audio_render.pad_number"@, Some(e.pad_number as u64), summary.pad_number as u64)
        + i16_lines("last_audio_render.tune_cents"@, Some(e.tune_cents), summary.tune_cents)
        + u64_lines("last_audio_render.start_frame"@, widened(e.start_frame), summary.start_frame as u64)
        + u64_lines("last_audio_render.end_frame"@, widened(e.end_frame), summary.end_frame as u64)
        + u64_lines("last_audio_render.window_length_frames"@, widened(e.window_length_frames), summary.window_length_frames as u64)
        + i16_lines("last_audio_render.peak_left"@, Some(e.peak_left), summary.peak_left)
        + i16_lines("last_audio_render.peak_right"@, Some(e.peak_right), summary.peak_right)
        + i16_lines("last_audio_render.peak_amplitude"@, Some(e.peak_amplitude), summary.peak_amplitude)
        + balance_lines("last_audio_render.channel_balance"@, Some(e.channel_balance), summary.channel_balance)
        + source_kind_lines("last_audio_render.source_kind"@, Some(e.source_kind), summary.source_kind)
        + usize_lines("last_audio_render.loaded_audio_byte_count"@, Some(e.loaded_audio_byte_count), summary.loaded_audio_byte_count)
}

/// The report on the last audio render: no renderable intent gives one
/// line, settings that do not validate give the render error, and otherwise
/// the intent is rendered with the expected settings and compared.
pub open spec fn audio_render_report(expected: ExpectedAudioRenderView, last_playback: Option<SamplePlaybackIntent>) -> Seq<Seq<char>> {
    match last_playback {
        None => seq!["last_audio_render mismatch: expected renderable SamplePlaybackIntent, got None"@],
        Some(intent) => match settings_error(expected.settings) {
            Some(error) => seq!["last_audio_render render error: "@ + render_error_message(error)],
            None => {
                let count = playback_frame_count(intent, expected.settings);
                let settings = AudioRenderSettings {
                    sample_rate_hz: expected.settings.sample_rate_hz,
                    frame_count: count as usize,
                };
                let frames = playback_frames(intent, count);
                audio_render_summary_lines(expected, playback_summary(intent, settings, frames), frames.len())
            },
        },
    }
}

/// Renders the last playback intent with the expected settings and reports
/// every field of the render that differs from what the fixture expects.
pub fn validate_expected_audio_render(
    details: &mut Vec<String>,
    last_playback: Option<&SamplePlaybackIntent>,
    expected: &ExpectedAudioRender,
)
    ensures
        texts_view(final(details)@) == texts_view(old(details)@) + audio_render_report(
            expected@,
            match last_playback {
                Some(intent) => Some(*intent),
                None => None,
            },
        ),
{
    let ghost start = texts_view(details@);
    let intent = match last_playback {
        Some(intent) => intent,
        None => {
            details.push("last_audio_render mismatch: expected renderable SamplePlaybackIntent, got None".to_owned());
            proof {
                assert(texts_view(final(details)@) =~= start + audio_render_report(expected@, None));
            }
            return;
        },
    };
    let rendered = match render_intent(intent, expected.settings) {
        Ok(rendered) => rendered,
        Err(error) => {
            let mut line = "last_audio_render render error: ".to_owned();
            line.append(error.message().as_str());
            details.push(line);
            proof {
                assert(texts_view(final(details)@) =~= start + audio_render_report(expected@, Some(*intent)));
            }
            return;
        },
    };
    let summary = &rendered.summary;
    let ghost e = expected@;
    let ghost sv = rendered.summary@;
    push_u64_mismatch(details, "last_audio_render.sample_rate_hz", Some(expected.sample_rate_hz as u64), summary.sample_rate_hz as u64);
    let ghost mut lines = u64_lines("last_audio_render.sample_rate_hz"@, Some(e.sample_rate_hz as u64), sv.sample_rate_hz as u64);
    push_usize_mismatch(details, "last_audio_render.frame_count", Some(expected.frame_count), summary.frame_count);
    proof {
        let next = usize_lines("last_audio_render.frame_count"@, Some(e.frame_count), sv.frame_count);
        lemma_concat_associative(start, lines, next);
        lines = lines + next;
    }
    push_usize_mismatch(details, "last_audio_render.frames.len", Some(expected.frame_count), rendered.frames.len());
    proof {
        let next = usize_lines("last_audio_render.frames.len"@, Some(e.frame_count), rendered.frames@.len() as usize);
        lemma_concat_associative(start, lines, next);
        lines = lines + next;
    }
    push_text_mismatch(details, "last_audio_render.source_sample_id", Some(expected.source_sample_id.as_str()), summary.source_sample_id.as_str());
    proof {
        let next = text_lines("last_audio_render.source_sample_id"@, Some(e.source_sample_id), sv.source_sample_id);
        lemma_concat_associative(start, lines, next);
        lines = lines + next;
    }
    push_text_mismatch(details, "last_audio_render.source_sample_name", Some(expected.source_sample_name.as_str()), summary.source_sample_name.as_str());
    proof {
        let next = text_lines("last_audio_render.source_sample_name"@, Some(e.source_sample_name), sv.source_sample_name);
        lemma_concat_associative(start, lines, next);
        lines = lines + next;
    }
    push_u64_mismatch(details, "last_audio_render.selected_track", Some(expected.selected_track as u64), summary.selected_track as u64);
    proof {
        let next = u64_lines("last_audio_render.selected_track"@, Some(e.selected_track as u64), sv.selected_track as u64);
        lemma_concat_associative(start, lines, next);
        lines = lines + next;
    }
    push_u64_mismatch(details, "last_audio_render.program_index", Some(expected.program_index as u64), summary.program_index as u64);
    proof {
        let next = u64_lines("last_audio_render.program_index"@, Some(e.program_index as u64), sv.program_index as u64);
        lemma_concat_associative(start, lines, next);
        lines = lines + next;
    }
    push_text_mismatch(details, "last_audio_render.program_name", Some(expected.program_name.as_str()), summary.program_name.as_str());
    proof {
        let next = text_lines("last_audio_render.program_name"@, Some(e.program_name), sv.program_name);
        lemma_concat_associative(start, lines, next);
        lines = lines + next;
    }
    push_bank_mismatch(details, "last_audio_render.bank", Some(expected.bank), summary.bank);
    proof {
        let next = bank_lines("last_audio_render.bank"@, Some(e.bank), sv.bank);
        lemma_concat_associative(start, lines, next);
        lines = lines + next;
    }
    push_u64_mismatch(details, "last_audio_render.pad_number", Some(expected.pad_number as u64), summary.pad_number as u64);
    proof {
        let next = u64_lines("last_audio_render.pad_number"@, Some(e.pad_number as u64), sv.pad_number as u64);
        lemma_concat_associative(start, lines, next);
        lines = lines + next;
    }
    push_i16_mismatch(details, "last_audio_render.tune_cents", Some(expected.tune_cents), summary.tune_cents);
    proof {
        let next = i16_lines("last_audio_render.tune_cents"@, Some(e.tune_cents), sv.tune_cents);
        lemma_concat_associative(start, lines, next);
        lines = lines + next;
    }
    push_u64_mismatch(details, "last_audio_render.start_frame", widen_u32(expected.start_frame), summary.start_frame as u64);
    proof {
        let next = u64_lines("last_audio_render.start_frame"@, widened(e.start_frame), sv.start_frame as u64);
        lemma_concat_associative(start, lines, next);
        lines = lines + next;
    }
    push_u64_mismatch(details, "last_audio_render.end_frame", widen_u32(expected.end_frame), summary.end_frame as u64);
    proof {
        let next = u64_lines("last_audio_render.end_frame"@, widened(e.end_frame), sv.end_frame as u64);
        lemma_concat_associative(start, lines, next);
        lines = lines + next;
    }
    push_u64_mismatch(details, "last_audio_render.window_length_frames", widen_u32(expected.window_length_frames), summary.window_length_frames as u64);
    proof {
        let next = u64_lines("last_audio_render.window_length_frames"@, widened(e.window_length_frames), sv.window_length_frames as u64);
        lemma_concat_associative(start, lines, next);
        lines = lines + next;
    }
    push_i16_mismatch(details, "last_audio_render.peak_left", Some(expected.peak_left), summary.peak_left);
    proof {
        let next = i16_lines("last_audio_render.peak_left"@, Some(e.peak_left), sv.peak_left);
        lemma_concat_associative(start, lines, next);
        lines = lines + next;
    }
    push_i16_mismatch(details, "last_audio_render.peak_right", Some(expected.peak_right), summary.peak_right);
    proof {
        let next = i16_lines("last_audio_render.peak_right"@, Some(e.peak_right), sv.peak_right);
        lemma_concat_associative(start, lines, next);
        lines = lines + next;
    }
    push_i16_mismatch(details, "last_audio_render.peak_amplitude", Some(expected.peak_amplitude), summary.peak_amplitude);
    proof {
        let next = i16_lines("last_audio_render.peak_amplitude"@, Some(e.peak_amplitude), sv.peak_amplitude);
        lemma_concat_associative(start, lines, next);
        lines = lines + next;
    }
    push_balance_mismatch(details, "last_audio_render.channel_balance", Some(expected.channel_balance), summary.channel_balance);
    proof {
        let next = balance_lines("last_audio_render.channel_balance"@, Some(e.channel_balance), sv.channel_balance);
        lemma_concat_associative(start, lines, next);
        lines = lines + next;
    }
    push_source_kind_mismatch(details, "last_audio_render.source_kind", Some(expected.source_kind), summary.source_kind);
    proof {
        let next = source_kind_lines("last_audio_render.source_kind"@, Some(e.source_kind), sv.source_kind);
        lemma_concat_associative(start, lines, next);
        lines = lines + next;
    }
    push_usize_mismatch(details, "last_audio_render.loaded_audio_byte_count", Some(expected.loaded_audio_byte_count), summary.loaded_audio_byte_count);
    proof {
        let next = usize_lines("last_audio_render.loaded_audio_byte_count"@, Some(e.loaded_audio_byte_count), sv.loaded_audio_byte_count);
        lemma_concat_associative(start, lines, next);
        lines = lines + next;
    }
    proof {
        assert(lines == audio_render_summary_lines(e, sv, rendered.frames@.len()));
        assert(texts_view(final(details)@) == start + audio_render_report(expected@, Some(*intent)));
    }
}

// ---------------------------------------------------------------------------
// Routing machine outputs to the engine
// ---------------------------------------------------------------------------

/// A machine output as the host-audio engine sees it: the three kinds of
/// intent it acts on, and every other output.
#[derive(Debug, Clone, PartialEq, Eq)]
pub enum HostAudioOutput {
    SamplePlayback { intent: SamplePlaybackIntent },
    MetronomeClick { intent: CountInClickIntent },
    SampleRelease { intent: SampleReleaseIntent },
    Other,
}

/// What rendering and playing one render may do to the engine and its
/// capture backend: the engine records the outcome, and the backend gets
/// the render exactly when it reaches it.
pub open spec fn played(
    pre: HostAudioEngineView,
    pre_backend: CaptureAudioBackend,
    post: HostAudioEngineView,
    post_backend: CaptureAudioBackend,
    settings: AudioRenderSettings,
    summary: AudioRenderSummaryView,
    frames: Seq<AudioFrame>,
) -> bool {
    &&& play_outcome(
        pre,
        pre_backend.spec_backend_name(),
        post,
        post_backend.spec_backend_name(),
        settings,
        summary,
        frames.len(),
    )
    &&& reaches_backend(pre, settings, summary, frames.len()) ==> enqueued_once(
        pre,
        pre_backend,
        post,
        post_backend,
        summary,
        frames,
    )
    &&& !reaches_backend(pre, settings, summary, frames.len()) ==> post_backend == pre_backend
}

/// What one output may do to the engine (`pre` to `post`) and to its
/// capture backend.
#[verifier::opaque]
pub open spec fn output_outcome(
    pre: HostAudioEngineView,
    pre_backend: CaptureAudioBackend,
    post: HostAudioEngineView,
    post_backend: CaptureAudioBackend,
    output: HostAudioOutput,
) -> bool {
    match output {
        HostAudioOutput::SamplePlayback { intent } => {
            let count = playback_frame_count(intent, pre.render_settings);
            let settings = AudioRenderSettings {
                sample_rate_hz: pre.render_settings.sample_rate_hz,
                frame_count: count as usize,
            };
            played(
                pre,
                pre_backend,
                post,
                post_backend,
                settings,
                playback_summary(intent, settings, playback_frames(intent, count)),
                playback_frames(intent, count),
            )
        },
        HostAudioOutput::MetronomeClick { intent } => played(
            pre,
            pre_backend,
            post,
            post_backend,
            pre.render_settings,
            click_summary(intent, pre.render_settings, click_frames(intent, pre.render_settings)),
            click_frames(intent, pre.render_settings),
        ),
        HostAudioOutput::SampleRelease { intent } => post == release_state(
            pre,
            pre_backend.spec_backend_name(),
            intent@,
        ) && post_backend == pre_backend,
        HostAudioOutput::Other => post == pre && post_backend == pre_backend,
    }
}

/// A trace of engine and backend states in which each step is what one
/// output, taken in order, may do.
pub open spec fn is_route(trace: Seq<(HostAudioEngineView, CaptureAudioBackend)>, outputs: Seq<HostAudioOutput>) -> bool {
    &&& trace.len() == outputs.len() + 1
    &&& forall|i: int|
        #![trigger outputs[i]]
        0 <= i < outputs.len() ==> output_outcome(trace[i].0, trace[i].1, trace[i + 1].0, trace[i + 1].1, outputs[i])
}

/// The engine and its backend can go from `pre` to `post` by handling
/// `outputs` in order.
pub open spec fn routed(
    pre: HostAudioEngineView,
    pre_backend: CaptureAudioBackend,
    outputs: Seq<HostAudioOutput>,
    post: HostAudioEngineView,
    post_backend: CaptureAudioBackend,
) -> bool {
    exists|trace: Seq<(HostAudioEngineView, CaptureAudioBackend)>|
        #[trigger] is_route(trace, outputs) && trace[0] == (pre, pre_backend) && trace.last() == (
            post,
            post_backend,
        )
}

/// Hands one output to the engine.
fn route_host_audio_output(runner: &mut HostAudioFixtureRunner, output: &HostAudioOutput)
    requires
        old(runner).engine.wf(),
    ensures
        final(runner).engine.wf(),
        output_outcome(
            old(runner).engine@,
            old(runner).engine.backend_state(),
            final(runner).engine@,
            final(runner).engine.backend_state(),
            *output,
        ),
{
    proof {
        reveal(output_outcome);
    }
    match output {
        HostAudioOutput::SamplePlayback { intent } => {
            runner.engine.play_intent_with_render_summary(intent);
        },
        HostAudioOutput::MetronomeClick { intent } => {
            runner.engine.play_count_in_click_with_render_summary(intent);
        },
        HostAudioOutput::SampleRelease { intent } => {
            runner.engine.release_intent(intent);
        },
        HostAudioOutput::Other => {},
    }
}

/// Hands each output to the engine in order: playback intents and count-in
/// clicks are rendered and played, release intents release voices, other
/// outputs are passed over.
pub fn route_host_audio_outputs(runner: &mut HostAudioFixtureRunner, outputs: &Vec<HostAudioOutput>)
    requires
        old(runner).engine.wf(),
    ensures
        final(runner).engine.wf(),
        routed(
            old(runner).engine@,
            old(runner).engine.backend_state(),
            outputs@,
            final(runner).engine@,
            final(runner).engine.backend_state(),
        ),
{
    let ghost pre = runner.engine@;
    let ghost pre_backend = runner.engine.backend_state();
    let ghost mut trace: Seq<(HostAudioEngineView, CaptureAudioBackend)> = seq![(pre, pre_backend)];
    let mut index: usize = 0;
    while index < outputs.len()
        invariant
            index <= outputs@.len(),
            runner.engine.wf(),
            trace.len() == index + 1,
            trace[0] == (pre, pre_backend),
            trace.last() == (runner.engine@, runner.engine.backend_state()),
            forall|i: int|
                #![trigger outputs@[i]]
                0 <= i < index ==> output_outcome(trace[i].0, trace[i].1, trace[i + 1].0, trace[i + 1].1, outputs@[i]),
        decreases outputs@.len() - index,
    {
        let ghost before = trace;
        route_host_audio_output(runner, &outputs[index]);
        proof {
            trace = trace.push((runner.engine@, runner.engine.backend_state()));
            assert forall|i: int|
                #![trigger outputs@[i]]
                0 <= i < index + 1 implies output_outcome(
                trace[i].0,
                trace[i].1,
                trace[i + 1].0,
                trace[i + 1].1,
                outputs@[i],
            ) by {
                if i < index {
                    assert(trace[i] == before[i]);
                    assert(trace[i + 1] == before[i + 1]);
                }
            }
        }
        index = index + 1;
    }
    proof {
        assert(is_route(trace, outputs@));
    }
}

} // verus!
