use vstd::prelude::*;
use crate::conformance::{
    played,
    capture_accents, capture_count_in_ticks, capture_frame_counts, capture_render_kinds,
    capture_sample_names, capture_source_kinds, host_audio_capture_lines,
    host_audio_last_event_lines, host_audio_report, host_audio_state_lines,
    ExpectedHostAudioStateView,
};
use crate::project_json::{
    contains_forbidden_key, entries_contain_forbidden_key, forbidden_key, json_boundary_report,
    lemma_no_paths_iff_no_forbidden_key, member_path, unsafe_fields_line, view_entry_paths, view_forbidden_paths,
    view_root_text_member, JsonView, PROJECT_FILE_RIGHTS_BOUNDARY,
};
use crate::fixture::{
    event_backend_name, event_frame_count, event_render_kind, event_source_kind,
    event_stolen_voice_id, event_type, event_voice_id,
};
use crate::host::{MAX_HOST_AUDIO_VOICE_LIMIT, MIN_HOST_AUDIO_VOICE_LIMIT, CaptureAudioBackend, CapturedHostAudioRenderView, HostAudioBackend, HostAudioStateView, capture_step};
use crate::mismatch::{
    event_type_lines, mode_lines, optional_bool_list_lines, optional_render_kind_lines,
    optional_source_kind_lines, optional_u64_lines, optional_u64_list_lines, optional_usize_lines,
    render_kind_list_lines, settings_lines, source_kind_list_lines, text_list_lines, text_lines,
    u64_lines, usize_list_lines, usize_lines, voice_list_lines,
};
use crate::engine::{
    HostAudioEngine, HostAudioEngineView, state_view, accepted_receipt_state, advance_state, advanced_voices,
    allocate_voice_state, allocation_receipt, backend_result_state, completed_voices,
    engine_view_wf, ignored_event, lemma_release_partition, rendered_audio_error, kept_voices, play_outcome, receipt_error, release_state,
    released_voice_ids, releases, saturating_add_u64, steals_voice, voice_for, with_last_event,
};
use crate::host::{
    HostAudioBackendErrorView, HostAudioBackendReceipt, HostAudioEventView, HostAudioMode,
    HostAudioReleaseReceiptView, HostAudioVoiceSummaryView,
};
use crate::render::AudioRenderKind;
use crate::intents::{CountInClickIntent, SamplePlaybackIntent, SampleReleaseIntentView};
use crate::render::{
    AudioFrame, AudioRenderSummaryView, AudioSourceKind, ChannelBalance, RenderedAudio, abs_i16, balance_of,
    clamped_pan, click_frame, click_frames, click_peak, click_summary, is_click_render,
    is_playback_render, left_gain, mono_peak, peak_left, peak_right, playback_frame,
    playback_frame_count, playback_frames, playback_summary, right_gain, square_wave, trunc_div,
};
use crate::settings::{AudioRenderSettings, settings_valid};

verus! {

// ---------------------------------------------------------------------------
// Rendering
// ---------------------------------------------------------------------------

/// The same intent with the same settings always renders the same frames and summary.
pub proof fn law_playback_render_is_deterministic(
    intent: SamplePlaybackIntent,
    settings: AudioRenderSettings,
    first: RenderedAudio,
    second: RenderedAudio,
)
    requires
        is_playback_render(intent, settings, first),
        is_playback_render(intent, settings, second),
    ensures
        first.settings == second.settings,
        first.frames@ == second.frames@,
        first.summary@ == second.summary@,
{
}

/// The same count-in intent with the same settings always renders the same frames and summary.
pub proof fn law_click_render_is_deterministic(
    intent: CountInClickIntent,
    settings: AudioRenderSettings,
    first: RenderedAudio,
    second: RenderedAudio,
)
    requires
        is_click_render(intent, settings, first),
        is_click_render(intent, settings, second),
    ensures
        first.settings == second.settings,
        first.frames@ == second.frames@,
        first.summary@ == second.summary@,
{
}

/// A playback render has as many frames as requested, but no more than the
/// trim window, keeps the sample rate, and its settings, summary and frames
/// agree on the frame count.
pub proof fn law_playback_render_length(
    intent: SamplePlaybackIntent,
    settings: AudioRenderSettings,
    rendered: RenderedAudio,
)
    requires
        is_playback_render(intent, settings, rendered),
    ensures
        rendered.frames@.len() <= settings.frame_count,
        rendered.frames@.len() <= intent.window_length_frames,
        rendered.frames@.len() == settings.frame_count || rendered.frames@.len()
            == intent.window_length_frames,
        rendered.settings.frame_count == rendered.frames@.len(),
        rendered.summary@.frame_count == rendered.frames@.len(),
        rendered.settings.sample_rate_hz == settings.sample_rate_hz,
        rendered.summary@.sample_rate_hz == settings.sample_rate_hz,
{
}

/// Renders are generated here: no audio bytes are loaded from disk.
pub proof fn law_renders_are_rights_safe(
    playback: SamplePlaybackIntent,
    click: CountInClickIntent,
    settings: AudioRenderSettings,
    frames: Seq<crate::render::AudioFrame>,
)
    ensures
        playback_summary(playback, settings, frames).source_kind == AudioSourceKind::RightsSafeGenerated,
        playback_summary(playback, settings, frames).loaded_audio_byte_count == 0,
        click_summary(click, settings, frames).source_kind == AudioSourceKind::RightsSafeGenerated,
        click_summary(click, settings, frames).loaded_audio_byte_count == 0,
{
}

/// Velocity and level scale the peak: raising either never lowers it.
pub proof fn law_mono_peak_is_monotonic(velocity: u8, level: u8, louder_velocity: u8, louder_level: u8)
    requires
        velocity <= louder_velocity,
        level <= louder_level,
    ensures
        0 <= mono_peak(velocity, level) <= mono_peak(louder_velocity, louder_level) <= 32767,
{
    let v: int = if velocity > 127 { 127 } else { velocity as int };
    let l: int = if level > 127 { 127 } else { level as int };
    let lv: int = if louder_velocity > 127 { 127 } else { louder_velocity as int };
    let ll: int = if louder_level > 127 { 127 } else { louder_level as int };
    assert(0 <= 32767 * v * l <= 32767 * lv * ll <= 32767 * 16129) by (nonlinear_arith)
        requires
            0 <= v <= lv <= 127,
            0 <= l <= ll <= 127,
    ;
    assert(0 <= (32767 * v * l) / 16129 <= (32767 * lv * ll) / 16129 <= 32767) by (nonlinear_arith)
        requires
            0 <= 32767 * v * l <= 32767 * lv * ll <= 32767 * 16129,
    ;
}

proof fn lemma_playback_frame_magnitude(intent: SamplePlaybackIntent, frame_index: int)
    ensures
        abs_i16(playback_frame(intent, frame_index).left) == mono_peak(intent.velocity, intent.level)
            * left_gain(clamped_pan(intent.pan)) / 100,
        abs_i16(playback_frame(intent, frame_index).right) == mono_peak(intent.velocity, intent.level)
            * right_gain(clamped_pan(intent.pan)) / 100,
{
    let p = mono_peak(intent.velocity, intent.level);
    law_mono_peak_is_monotonic(intent.velocity, intent.level, intent.velocity, intent.level);
    let pan = clamped_pan(intent.pan);
    let lg = left_gain(pan);
    let rg = right_gain(pan);
    assert(0 <= lg <= 100 && 0 <= rg <= 100);
    assert(0 <= p * lg / 100 <= p && 0 <= p * rg / 100 <= p) by (nonlinear_arith)
        requires
            0 <= p <= 32767,
            0 <= lg <= 100,
            0 <= rg <= 100,
    ;
    let wave = square_wave(
        crate::render::playback_seed(intent),
        frame_index + intent.start_frame as int,
        intent.tune_cents,
    );
    if wave == 255 {
        assert(trunc_div(wave * p, 255) == p) by (nonlinear_arith)
            requires
                wave == 255,
                p >= 0,
        ;
        assert(trunc_div(p * lg, 100) == p * lg / 100) by (nonlinear_arith)
            requires
                p >= 0,
                lg >= 0,
        ;
        assert(trunc_div(p * rg, 100) == p * rg / 100) by (nonlinear_arith)
            requires
                p >= 0,
                rg >= 0,
        ;
    } else {
        assert(trunc_div(wave * p, 255) == -p) by (nonlinear_arith)
            requires
                wave == -255,
                p >= 0,
        ;
        assert(trunc_div((-p) * lg, 100) == -(p * lg / 100)) by (nonlinear_arith)
            requires
                p >= 0,
                lg >= 0,
        ;
        assert(trunc_div((-p) * rg, 100) == -(p * rg / 100)) by (nonlinear_arith)
            requires
                p >= 0,
                rg >= 0,
        ;
    }
}

/// The peaks of a non-empty playback render are the velocity/level peak
/// scaled by each channel's pan gain.
pub proof fn law_playback_peaks(intent: SamplePlaybackIntent, count: nat)
    requires
        count > 0,
    ensures
        peak_left(playback_frames(intent, count)) == mono_peak(intent.velocity, intent.level)
            * left_gain(clamped_pan(intent.pan)) / 100,
        peak_right(playback_frames(intent, count)) == mono_peak(intent.velocity, intent.level)
            * right_gain(clamped_pan(intent.pan)) / 100,
    decreases count,
{
    let frames = playback_frames(intent, count);
    lemma_playback_frame_magnitude(intent, count - 1);
    assert(frames.last() == playback_frame(intent, count - 1));
    assert(frames.drop_last() =~= playback_frames(intent, (count - 1) as nat));
    let p = mono_peak(intent.velocity, intent.level);
    let pan = clamped_pan(intent.pan);
    let left = abs_i16(frames.last().left);
    let right = abs_i16(frames.last().right);
    assert(left >= 0 && right >= 0);
    if count > 1 {
        law_playback_peaks(intent, (count - 1) as nat);
        assert(peak_left(frames.drop_last()) == left);
        assert(peak_right(frames.drop_last()) == right);
    } else {
        assert(frames.drop_last().len() == 0);
        assert(peak_left(frames.drop_last()) == 0);
        assert(peak_right(frames.drop_last()) == 0);
    }
    assert(peak_left(frames) == crate::render::max_i16(peak_left(frames.drop_last()), left));
    assert(peak_right(frames) == crate::render::max_i16(peak_right(frames.drop_last()), right));
}

/// Panning left makes the left channel the louder one, panning right the
/// right one, and a centred pad sounds equally on both.
pub proof fn law_pan_sets_channel_balance(intent: SamplePlaybackIntent, count: nat)
    requires
        count > 0,
    ensures
        ({
            let frames = playback_frames(intent, count);
            let balance = balance_of(peak_left(frames), peak_right(frames));
            &&& clamped_pan(intent.pan) == 0 ==> balance == ChannelBalance::Center
            &&& clamped_pan(intent.pan) < 0 && mono_peak(intent.velocity, intent.level) > 0 ==> balance
                == ChannelBalance::Left
            &&& clamped_pan(intent.pan) > 0 && mono_peak(intent.velocity, intent.level) > 0 ==> balance
                == ChannelBalance::Right
        }),
{
    law_playback_peaks(intent, count);
    law_mono_peak_is_monotonic(intent.velocity, intent.level, intent.velocity, intent.level);
    let p = mono_peak(intent.velocity, intent.level);
    let pan = clamped_pan(intent.pan);
    let lg = left_gain(pan);
    let rg = right_gain(pan);
    if pan < 0 && p > 0 {
        assert(p * rg / 100 < p * lg / 100) by (nonlinear_arith)
            requires
                p > 0,
                lg == 100,
                0 <= rg < 100,
        ;
    }
    if pan > 0 && p > 0 {
        assert(p * lg / 100 < p * rg / 100) by (nonlinear_arith)
            requires
                p > 0,
                rg == 100,
                0 <= lg < 100,
        ;
    }
}

/// A non-empty count-in click peaks at the click peak on both channels, so
/// an accented click is louder than a normal one and every click is centred.
pub proof fn law_click_peak(intent: CountInClickIntent, settings: AudioRenderSettings)
    requires
        settings_valid(settings),
        settings.frame_count > 0,
    ensures
        peak_left(click_frames(intent, settings)) == click_peak(intent.accent),
        peak_right(click_frames(intent, settings)) == click_peak(intent.accent),
        balance_of(
            peak_left(click_frames(intent, settings)),
            peak_right(click_frames(intent, settings)),
        ) == ChannelBalance::Center,
        click_peak(true) > click_peak(false),
{
    lemma_click_peak_prefix(intent, settings, settings.frame_count as nat);
    assert(click_frames(intent, settings) =~= Seq::new(
        settings.frame_count as nat,
        |i: int| click_frame(intent, settings, i),
    ));
}

proof fn lemma_click_sample_bounds(intent: CountInClickIntent, settings: AudioRenderSettings, frame_index: int)
    requires
        settings_valid(settings),
        settings.frame_count > 0,
        0 <= frame_index,
    ensures
        abs_i16(click_frame(intent, settings, frame_index).left) <= click_peak(intent.accent),
        frame_index == 0 ==> abs_i16(click_frame(intent, settings, frame_index).left) == click_peak(
            intent.accent,
        ),
        click_frame(intent, settings, frame_index).left == click_frame(intent, settings, frame_index).right,
{
    let active = crate::render::click_active_frame_count(settings);
    let peak = click_peak(intent.accent);
    assert(1 <= active <= 768);
    if frame_index < active {
        let phase_seed: int = ((intent.count_in_tick ^ (intent.bar_index as u64) ^ (
        intent.beat_index as u64)) & 1) as int;
        let polarity_period: int = if intent.accent { 3 } else { 5 };
        let polarity: int = if ((frame_index / polarity_period) + phase_seed) % 2 == 0 {
            1
        } else {
            -1
        };
        let envelope = peak * (active - frame_index) / active;
        assert(0 <= envelope <= peak) by (nonlinear_arith)
            requires
                envelope == peak * (active - frame_index) / active,
                0 <= peak,
                0 < active - frame_index <= active,
        ;
        if frame_index == 0 {
            assert(peak * (active - 0) / active == peak) by (nonlinear_arith)
                requires
                    active > 0,
            ;
        }
        assert(click_frame(intent, settings, frame_index).left == crate::render::clamp_to_i16(
            polarity * envelope,
        ));
        if polarity == 1 {
            assert(polarity * envelope == envelope);
        } else {
            assert(polarity == -1);
            assert(polarity * envelope == -envelope) by (nonlinear_arith)
                requires
                    polarity == -1,
            ;
        }
    }
}

proof fn lemma_click_peak_prefix(intent: CountInClickIntent, settings: AudioRenderSettings, count: nat)
    requires
        settings_valid(settings),
        settings.frame_count > 0,
        count > 0,
    ensures
        ({
            let frames = Seq::new(count, |i: int| click_frame(intent, settings, i));
            &&& peak_left(frames) == click_peak(intent.accent)
            &&& peak_right(frames) == click_peak(intent.accent)
        }),
    decreases count,
{
    let frames = Seq::new(count, |i: int| click_frame(intent, settings, i));
    lemma_click_sample_bounds(intent, settings, count - 1);
    assert(frames.last() == click_frame(intent, settings, count - 1));
    lemma_click_sample_bounds(intent, settings, 0);
    assert(frames.drop_last() =~= Seq::new(
        (count - 1) as nat,
        |i: int| click_frame(intent, settings, i),
    ));
    let last = abs_i16(frames.last().left);
    assert(frames.last().left == frames.last().right);
    if count > 1 {
        lemma_click_peak_prefix(intent, settings, (count - 1) as nat);
        assert(peak_left(frames.drop_last()) == click_peak(intent.accent));
        assert(peak_right(frames.drop_last()) == click_peak(intent.accent));
        assert(peak_left(frames) == crate::render::max_i16(peak_left(frames.drop_last()), last));
        assert(peak_right(frames) == crate::render::max_i16(peak_right(frames.drop_last()), last));
    } else {
        assert(frames.last() == click_frame(intent, settings, 0));
        assert(peak_left(frames) == crate::render::max_i16(peak_left(frames.drop_last()), last));
        assert(peak_right(frames) == crate::render::max_i16(peak_right(frames.drop_last()), last));
        assert(frames.drop_last().len() == 0);
    }
}

// ---------------------------------------------------------------------------
// Host-audio engine
// ---------------------------------------------------------------------------

/// Everything the engine counts stays the same or grows.
pub open spec fn counters_grow(pre: HostAudioEngineView, post: HostAudioEngineView) -> bool {
    &&& pre.queued_render_count <= post.queued_render_count
    &&& pre.played_render_count <= post.played_render_count
    &&& pre.completed_voice_count <= post.completed_voice_count
    &&& pre.stolen_voice_count <= post.stolen_voice_count
    &&& pre.released_voice_count <= post.released_voice_count
    &&& pre.next_voice_id <= post.next_voice_id
}

/// Only the last event differs between the two states.
pub open spec fn only_last_event_changed(pre: HostAudioEngineView, post: HostAudioEngineView) -> bool {
    post == with_last_event(pre, post.last_event.unwrap()) && post.last_event is Some
}

/// A disabled engine sends nothing to its backend: playing only records an
/// ignored event, and so does a release.
pub proof fn law_disabled_engine_only_records_ignored(
    pre: HostAudioEngineView,
    pre_name: Seq<char>,
    post: HostAudioEngineView,
    post_name: Seq<char>,
    settings: AudioRenderSettings,
    summary: AudioRenderSummaryView,
    frame_count: nat,
    intent: SampleReleaseIntentView,
)
    requires
        pre.mode == HostAudioMode::Disabled,
        play_outcome(pre, pre_name, post, post_name, settings, summary, frame_count),
    ensures
        post == with_last_event(pre, ignored_event(pre_name)),
        only_last_event_changed(pre, post),
        release_state(pre, pre_name, intent) == with_last_event(pre, ignored_event(pre_name)),
        only_last_event_changed(pre, release_state(pre, pre_name, intent)),
{
}

/// A backend error or an inconsistent receipt is recorded as a failure and
/// changes no counter and no voice.
pub proof fn law_refused_answers_change_only_the_last_event(
    pre: HostAudioEngineView,
    backend_name: Seq<char>,
    summary: AudioRenderSummaryView,
    rendered_frame_count: usize,
    result: Result<HostAudioBackendReceipt, HostAudioBackendErrorView>,
)
    requires
        result is Err || receipt_error(result->Ok_0, rendered_frame_count) is Some,
    ensures
        only_last_event_changed(
            pre,
            backend_result_state(pre, backend_name, summary, rendered_frame_count, result),
        ),
{
}

/// Playing, advancing and releasing never lower a counter or the next voice id.
pub proof fn law_counters_never_decrease(
    pre: HostAudioEngineView,
    pre_name: Seq<char>,
    post: HostAudioEngineView,
    post_name: Seq<char>,
    settings: AudioRenderSettings,
    summary: AudioRenderSummaryView,
    frame_count: nat,
    advance: usize,
    intent: SampleReleaseIntentView,
)
    requires
        play_outcome(pre, pre_name, post, post_name, settings, summary, frame_count),
    ensures
        counters_grow(pre, post),
        counters_grow(pre, advance_state(pre, advance)),
        counters_grow(pre, release_state(pre, pre_name, intent)),
{
    if pre.mode == HostAudioMode::Enabled {
        if crate::engine::rendered_audio_error(settings, summary.frame_count, frame_count) is None {
            let result = choose|result: Result<HostAudioBackendReceipt, HostAudioBackendErrorView>|
                post == #[trigger] backend_result_state(
                    pre,
                    post_name,
                    summary,
                    frame_count as usize,
                    result,
                );
            assert(post == backend_result_state(pre, post_name, summary, frame_count as usize, result));
        }
    }
}

/// Starting a voice keeps the list within the voice limit: at the limit the
/// oldest voice is stolen; the new voice, with the next id, is the newest.
pub proof fn law_voice_allocation_steals_oldest(
    pre: HostAudioEngineView,
    summary: AudioRenderSummaryView,
    frame_count: usize,
)
    requires
        engine_view_wf(pre),
        frame_count > 0,
    ensures
        ({
            let post = allocate_voice_state(pre, summary, frame_count);
            let receipt = allocation_receipt(pre);
            let voice = voice_for(summary, pre.next_voice_id, frame_count);
            &&& engine_view_wf(post)
            &&& post.active_voices.last() == voice
            &&& receipt.voice_id == pre.next_voice_id
            &&& receipt.active_voice_count == post.active_voices.len()
            &&& receipt.voice_limit == pre.voice_limit
            &&& steals_voice(pre) <==> pre.active_voices.len() == pre.voice_limit
            &&& steals_voice(pre) ==> receipt.stolen_voice_id == Some(pre.active_voices[0].voice_id)
                && post.active_voices == pre.active_voices.drop_first().push(voice)
                && post.stolen_voice_count == saturating_add_u64(pre.stolen_voice_count, 1)
            &&& !steals_voice(pre) ==> receipt.stolen_voice_id is None && post.active_voices
                == pre.active_voices.push(voice) && post.stolen_voice_count == pre.stolen_voice_count
        }),
{
    let post = allocate_voice_state(pre, summary, frame_count);
    assert forall|i: int| 0 <= i < post.active_voices.len() implies #[trigger] post.active_voices[i].remaining_frame_count > 0 by {
        if i < post.active_voices.len() - 1 {
            if steals_voice(pre) {
                assert(post.active_voices[i] == pre.active_voices[i + 1]);
            } else {
                assert(post.active_voices[i] == pre.active_voices[i]);
            }
        }
    }
}

/// After a release no remaining voice matches the intent, every voice was
/// either released or kept (in its order), and releasing again stops nothing.
pub proof fn law_release_is_complete_and_idempotent(
    voices: Seq<HostAudioVoiceSummaryView>,
    intent: SampleReleaseIntentView,
)
    ensures
        forall|i: int|
            0 <= i < kept_voices(voices, intent).len() ==> !releases(
                #[trigger] kept_voices(voices, intent)[i],
                intent,
            ),
        kept_voices(voices, intent).len() + released_voice_ids(voices, intent).len() == voices.len(),
        released_voice_ids(kept_voices(voices, intent), intent).len() == 0,
        kept_voices(kept_voices(voices, intent), intent) == kept_voices(voices, intent),
    decreases voices.len(),
{
    crate::engine::lemma_release_partition(voices, intent);
    if voices.len() > 0 {
        law_release_is_complete_and_idempotent(voices.drop_last(), intent);
        let rest = kept_voices(voices.drop_last(), intent);
        if !releases(voices.last(), intent) {
            let kept = rest.push(voices.last());
            assert(kept.drop_last() =~= rest);
            assert forall|i: int| 0 <= i < kept.len() implies !releases(#[trigger] kept[i], intent) by {
                if i < rest.len() {
                    assert(kept[i] == rest[i]);
                }
            }
        }
    }
}

/// Letting `first` and then `second` frames pass is the same as letting
/// `first + second` frames pass at once.
pub proof fn law_advance_composes(voices: Seq<HostAudioVoiceSummaryView>, first: usize, second: usize)
    requires
        first > 0,
        second > 0,
        first + second <= usize::MAX,
    ensures
        advanced_voices(advanced_voices(voices, first), second) == advanced_voices(
            voices,
            (first + second) as usize,
        ),
        completed_voices(voices, first) + completed_voices(advanced_voices(voices, first), second)
            == completed_voices(voices, (first + second) as usize),
    decreases voices.len(),
{
    if voices.len() > 0 {
        law_advance_composes(voices.drop_last(), first, second);
        let rest = advanced_voices(voices.drop_last(), first);
        if voices.last().remaining_frame_count > first {
            let once = rest.push(crate::engine::advance_voice(voices.last(), first));
            assert(once.drop_last() =~= rest);
        }
    }
}

// ---------------------------------------------------------------------------
// Fixture reports
// ---------------------------------------------------------------------------

/// An expectation that is absent, or equal to the observed value.
pub open spec fn meets<T>(expected: Option<T>, actual: T) -> bool {
    match expected {
        Some(value) => value == actual,
        None => true,
    }
}

/// An expectation that is absent, or whose value was observed.
pub open spec fn meets_optional<T>(expected: Option<T>, actual: Option<T>) -> bool {
    match expected {
        Some(value) => actual == Some(value),
        None => true,
    }
}

/// Every expectation of a host-audio fixture holds of what the engine shows.
pub open spec fn host_audio_expectations_hold(
    expected: ExpectedHostAudioStateView,
    state: HostAudioStateView,
    captures: Seq<CapturedHostAudioRenderView>,
) -> bool {
    &&& meets(expected.mode, state.mode)
    &&& meets(expected.backend_name, state.backend_name)
    &&& meets(expected.render_settings, state.render_settings)
    &&& meets(expected.queued_render_count, state.queued_render_count)
    &&& meets(expected.played_render_count, state.played_render_count)
    &&& meets(expected.voice_limit, state.voice_limit)
    &&& meets(expected.active_voice_count, state.active_voice_count)
    &&& meets(expected.completed_voice_count, state.completed_voice_count)
    &&& meets(expected.stolen_voice_count, state.stolen_voice_count)
    &&& meets(expected.released_voice_count, state.released_voice_count)
    &&& meets(expected.active_voices, state.active_voices)
    &&& meets(expected.capture_count, captures.len() as usize)
    &&& meets(expected.capture_frame_counts, capture_frame_counts(captures))
    &&& meets(expected.capture_render_kinds, capture_render_kinds(captures))
    &&& meets(expected.capture_source_kinds, capture_source_kinds(captures))
    &&& meets(expected.capture_source_sample_names, capture_sample_names(captures))
    &&& meets(expected.capture_count_in_ticks, capture_count_in_ticks(captures))
    &&& meets(expected.capture_accents, capture_accents(captures))
    &&& match state.last_event {
        None => expected.last_event_type is None,
        Some(event) => {
            &&& meets(expected.last_event_type, event_type(event))
            &&& meets(expected.last_event_backend_name, event_backend_name(event))
            &&& meets_optional(expected.last_event_render_kind, event_render_kind(event))
            &&& meets_optional(expected.last_event_source_kind, event_source_kind(event))
            &&& meets_optional(expected.last_event_frame_count, event_frame_count(event))
            &&& meets_optional(expected.last_event_voice_id, event_voice_id(event))
            &&& meets_optional(expected.last_event_stolen_voice_id, event_stolen_voice_id(event))
        },
    }
}

/// A host-audio fixture whose engine was built reports no line exactly when
/// every one of its expectations holds.
#[verifier::rlimit(40)]
pub proof fn law_host_audio_report_is_empty_iff_expectations_hold(
    expected: ExpectedHostAudioStateView,
    state: HostAudioStateView,
    captures: Seq<CapturedHostAudioRenderView>,
)
    ensures
        host_audio_report(Some(expected), Some((state, captures))).len() == 0
            <==> host_audio_expectations_hold(expected, state, captures),
{
    reveal(mode_lines);
    reveal(text_lines);
    reveal(settings_lines);
    reveal(u64_lines);
    reveal(usize_lines);
    reveal(voice_list_lines);
    reveal(usize_list_lines);
    reveal(render_kind_list_lines);
    reveal(source_kind_list_lines);
    reveal(text_list_lines);
    reveal(optional_u64_list_lines);
    reveal(optional_bool_list_lines);
    reveal(event_type_lines);
    reveal(optional_render_kind_lines);
    reveal(optional_source_kind_lines);
    reveal(optional_usize_lines);
    reveal(optional_u64_lines);
    assert(host_audio_state_lines(expected, state).len() == 0 <==> {
        &&& meets(expected.mode, state.mode)
        &&& meets(expected.backend_name, state.backend_name)
        &&& meets(expected.render_settings, state.render_settings)
        &&& meets(expected.queued_render_count, state.queued_render_count)
        &&& meets(expected.played_render_count, state.played_render_count)
        &&& meets(expected.voice_limit, state.voice_limit)
        &&& meets(expected.active_voice_count, state.active_voice_count)
        &&& meets(expected.completed_voice_count, state.completed_voice_count)
        &&& meets(expected.stolen_voice_count, state.stolen_voice_count)
        &&& meets(expected.released_voice_count, state.released_voice_count)
        &&& meets(expected.active_voices, state.active_voices)
    });
    assert(host_audio_capture_lines(expected, captures).len() == 0 <==> {
        &&& meets(expected.capture_count, captures.len() as usize)
        &&& meets(expected.capture_frame_counts, capture_frame_counts(captures))
        &&& meets(expected.capture_render_kinds, capture_render_kinds(captures))
        &&& meets(expected.capture_source_kinds, capture_source_kinds(captures))
        &&& meets(expected.capture_source_sample_names, capture_sample_names(captures))
        &&& meets(expected.capture_count_in_ticks, capture_count_in_ticks(captures))
        &&& meets(expected.capture_accents, capture_accents(captures))
    });
}

/// A saved project file passes the rights-boundary check exactly when it
/// declares the metadata-only boundary and no member, at any depth, is named
/// `audio_bytes`, `sample_file_contents`, `file_path` or `sample_file_path`.
pub proof fn law_project_file_boundary(value: JsonView)
    ensures
        json_boundary_report(Ok(value)).len() == 0 <==> (view_root_text_member(value, "rights_boundary"@)
            == Some(PROJECT_FILE_RIGHTS_BOUNDARY@) && !contains_forbidden_key(value)),
{
    lemma_no_paths_iff_no_forbidden_key(value, Seq::empty());
}

/// An enabled engine hands every well-formed render to its capture backend,
/// which keeps it (dropping its oldest capture when the history is full),
/// and the engine counts the render as queued and played.
pub proof fn law_capture_backend_keeps_every_played_render(
    pre: HostAudioEngineView,
    pre_backend: CaptureAudioBackend,
    post: HostAudioEngineView,
    post_backend: CaptureAudioBackend,
    settings: AudioRenderSettings,
    summary: AudioRenderSummaryView,
    frames: Seq<AudioFrame>,
)
    requires
        pre.mode == HostAudioMode::Enabled,
        rendered_audio_error(settings, summary.frame_count, frames.len()) is None,
        played(pre, pre_backend, post, post_backend, settings, summary, frames),
    ensures
        post_backend.spec_captures() == capture_step(
            pre_backend.spec_captures(),
            pre_backend.spec_max_captures(),
            CapturedHostAudioRenderView { summary, frame_count: frames.len() as usize },
        ),
        post_backend.spec_max_captures() == pre_backend.spec_max_captures(),
        post.queued_render_count == saturating_add_u64(pre.queued_render_count, 1),
        post.played_render_count == saturating_add_u64(pre.played_render_count, 1),
{
    let result = choose|result: Result<HostAudioBackendReceipt, HostAudioBackendErrorView>|
        #[trigger] pre_backend.spec_enqueued(&post_backend, summary, frames, result) && post
            == backend_result_state(pre, post_backend.spec_backend_name(), summary, frames.len() as usize, result);
    assert(pre_backend.spec_enqueued(&post_backend, summary, frames, result));
}

/// What holds of every engine: the constructors build engines that satisfy
/// `wf` and every method keeps it, so in each state that the engine reports
/// the voice count is the number of voices and fits the limit, the limit
/// lies in 1..=128, voice ids increase from the oldest voice to the newest
/// (two voices can share an id only once the id counter has saturated at
/// `u64::MAX`), and every voice has between one and its total number of
/// frames left to play.
pub proof fn law_engine_state_invariant<B: HostAudioBackend>(engine: HostAudioEngine<B>)
    requires
        engine.wf(),
    ensures
        ({
            let state = state_view(engine@, engine.backend_name_view());
            &&& state.active_voice_count == state.active_voices.len()
            &&& state.active_voices.len() <= state.voice_limit
            &&& MIN_HOST_AUDIO_VOICE_LIMIT <= state.voice_limit <= MAX_HOST_AUDIO_VOICE_LIMIT
            &&& forall|i: int, j: int|
                #![trigger state.active_voices[i], state.active_voices[j]]
                0 <= i < j < state.active_voices.len() ==> state.active_voices[i].voice_id
                    < state.active_voices[j].voice_id || state.active_voices[j].voice_id == u64::MAX
            &&& forall|i: int|
                0 <= i < state.active_voices.len() ==> 0 < #[trigger] state.active_voices[i].remaining_frame_count
                    <= state.active_voices[i].total_frame_count
        }),
{
}

// ---------------------------------------------------------------------------
// Release and advance, stated over the voices themselves
// ---------------------------------------------------------------------------

/// The voices a release keeps are, in order, those that are not sample
/// playbacks of the intent's sample on the intent's bank and pad; the ids it
/// reports are, in order, those of the voices it stops.
proof fn lemma_release_as_filters(voices: Seq<HostAudioVoiceSummaryView>, intent: SampleReleaseIntentView)
    ensures
        kept_voices(voices, intent) == voices.filter(
            |v: HostAudioVoiceSummaryView|
                !(v.render_kind == AudioRenderKind::SamplePlayback && v.source_sample_id == intent.sample_id
                    && v.bank == intent.bank && v.pad_number == intent.pad_number),
        ),
        released_voice_ids(voices, intent) == voices.filter(
            |v: HostAudioVoiceSummaryView|
                v.render_kind == AudioRenderKind::SamplePlayback && v.source_sample_id == intent.sample_id
                    && v.bank == intent.bank && v.pad_number == intent.pad_number,
        ).map_values(|v: HostAudioVoiceSummaryView| v.voice_id),
    decreases voices.len(),
{
    reveal(Seq::filter);
    if voices.len() > 0 {
        lemma_release_as_filters(voices.drop_last(), intent);
        let stopped = voices.drop_last().filter(
            |v: HostAudioVoiceSummaryView|
                v.render_kind == AudioRenderKind::SamplePlayback && v.source_sample_id == intent.sample_id
                    && v.bank == intent.bank && v.pad_number == intent.pad_number,
        );
        assert(stopped.push(voices.last()).map_values(|v: HostAudioVoiceSummaryView| v.voice_id)
            =~= stopped.map_values(|v: HostAudioVoiceSummaryView| v.voice_id).push(voices.last().voice_id));
    }
}

/// A release on an enabled engine stops exactly the sample-playback voices
/// of the intent's sample on the intent's bank and pad, and keeps every other
/// voice in its order: in particular a voice on another bank, or another pad,
/// or of another sample, or a count-in click, keeps sounding. The receipt
/// lists the stopped voices' ids in order, their number, and how many voices
/// remain, and the released count grows by that number (saturating).
pub proof fn law_release_stops_only_its_pad(
    engine: HostAudioEngineView,
    backend_name: Seq<char>,
    intent: SampleReleaseIntentView,
)
    requires
        engine.mode == HostAudioMode::Enabled,
    ensures
        ({
            let post = release_state(engine, backend_name, intent);
            let kept = engine.active_voices.filter(
                |v: HostAudioVoiceSummaryView|
                    !(v.render_kind == AudioRenderKind::SamplePlayback && v.source_sample_id == intent.sample_id
                        && v.bank == intent.bank && v.pad_number == intent.pad_number),
            );
            let stopped = engine.active_voices.filter(
                |v: HostAudioVoiceSummaryView|
                    v.render_kind == AudioRenderKind::SamplePlayback && v.source_sample_id == intent.sample_id
                        && v.bank == intent.bank && v.pad_number == intent.pad_number,
            );
            let ids = stopped.map_values(|v: HostAudioVoiceSummaryView| v.voice_id);
            &&& post.active_voices == kept
            &&& kept.len() + stopped.len() == engine.active_voices.len()
            &&& forall|i: int|
                0 <= i < engine.active_voices.len() && (#[trigger] engine.active_voices[i]).bank != intent.bank
                    ==> post.active_voices.contains(engine.active_voices[i])
            &&& forall|i: int|
                0 <= i < engine.active_voices.len() && (#[trigger] engine.active_voices[i]).pad_number
                    != intent.pad_number ==> post.active_voices.contains(engine.active_voices[i])
            &&& forall|i: int|
                0 <= i < engine.active_voices.len() && (#[trigger] engine.active_voices[i]).render_kind
                    != AudioRenderKind::SamplePlayback ==> post.active_voices.contains(engine.active_voices[i])
            &&& forall|j: int|
                0 <= j < stopped.len() ==> (#[trigger] stopped[j]).bank == intent.bank
                    && stopped[j].pad_number == intent.pad_number && stopped[j].source_sample_id
                    == intent.sample_id && stopped[j].render_kind == AudioRenderKind::SamplePlayback
            &&& post.released_voice_count == (if engine.released_voice_count + stopped.len() > u64::MAX {
                u64::MAX
            } else {
                (engine.released_voice_count + stopped.len()) as u64
            })
            &&& post.last_event == Some(
                HostAudioEventView::Released {
                    backend_name,
                    receipt: HostAudioReleaseReceiptView {
                        intent,
                        released_voice_ids: ids,
                        released_voice_count: ids.len() as usize,
                        active_voice_count: kept.len() as usize,
                    },
                },
            )
        }),
{
    let voices = engine.active_voices;
    lemma_release_as_filters(voices, intent);
    lemma_release_partition(voices, intent);
    let keep = |v: HostAudioVoiceSummaryView|
        !(v.render_kind == AudioRenderKind::SamplePlayback && v.source_sample_id == intent.sample_id
            && v.bank == intent.bank && v.pad_number == intent.pad_number);
    let stop = |v: HostAudioVoiceSummaryView|
        v.render_kind == AudioRenderKind::SamplePlayback && v.source_sample_id == intent.sample_id
            && v.bank == intent.bank && v.pad_number == intent.pad_number;
    let stopped = voices.filter(stop);
    assert forall|i: int| 0 <= i < voices.len() && !stop(#[trigger] voices[i]) implies voices.filter(keep).contains(
        voices[i],
    ) by {
        voices.lemma_filter_contains_rev(keep, voices[i]);
    }
    assert forall|j: int| 0 <= j < stopped.len() implies stop(#[trigger] stopped[j]) by {
        voices.lemma_filter_pred(stop, j);
    }
}

/// Advancing an enabled or disabled engine by `frame_count > 0` frames counts
/// every active voice down by that many frames, whatever its render kind:
/// the voices with more frames left stay, in their order, with
/// `frame_count` fewer; the others are removed and added (saturating) to
/// the completed count. Nothing else changes.
pub proof fn law_advance_counts_down_every_voice(engine: HostAudioEngineView, frame_count: usize)
    requires
        frame_count > 0,
    ensures
        ({
            let post = advance_state(engine, frame_count);
            let finished = engine.active_voices.filter(
                |v: HostAudioVoiceSummaryView| v.remaining_frame_count <= frame_count,
            );
            &&& post.active_voices == engine.active_voices.filter(
                |v: HostAudioVoiceSummaryView| v.remaining_frame_count > frame_count,
            ).map_values(
                |v: HostAudioVoiceSummaryView|
                    HostAudioVoiceSummaryView {
                        remaining_frame_count: (v.remaining_frame_count - frame_count) as usize,
                        ..v
                    },
            )
            &&& post.completed_voice_count == (if engine.completed_voice_count + finished.len() > u64::MAX {
                u64::MAX
            } else {
                (engine.completed_voice_count + finished.len()) as u64
            })
            &&& post == HostAudioEngineView {
                active_voices: post.active_voices,
                completed_voice_count: post.completed_voice_count,
                ..engine
            }
        }),
{
    lemma_advance_as_filters(engine.active_voices, frame_count);
}

proof fn lemma_advance_as_filters(voices: Seq<HostAudioVoiceSummaryView>, frame_count: usize)
    ensures
        advanced_voices(voices, frame_count) == voices.filter(
            |v: HostAudioVoiceSummaryView| v.remaining_frame_count > frame_count,
        ).map_values(
            |v: HostAudioVoiceSummaryView|
                HostAudioVoiceSummaryView {
                    remaining_frame_count: (v.remaining_frame_count - frame_count) as usize,
                    ..v
                },
        ),
        completed_voices(voices, frame_count) == voices.filter(
            |v: HostAudioVoiceSummaryView| v.remaining_frame_count <= frame_count,
        ).len(),
    decreases voices.len(),
{
    reveal(Seq::filter);
    if voices.len() > 0 {
        lemma_advance_as_filters(voices.drop_last(), frame_count);
        let going = voices.drop_last().filter(
            |v: HostAudioVoiceSummaryView| v.remaining_frame_count > frame_count,
        );
        let down = |v: HostAudioVoiceSummaryView|
            HostAudioVoiceSummaryView {
                remaining_frame_count: (v.remaining_frame_count - frame_count) as usize,
                ..v
            };
        assert(going.push(voices.last()).map_values(down) =~= going.map_values(down).push(
            down(voices.last()),
        ));
    }
}

// ---------------------------------------------------------------------------
// Forbidden keys of a saved project
// ---------------------------------------------------------------------------

/// Exactly four member names are refused in a saved project: `audio_bytes`,
/// `sample_file_contents`, `file_path` and `sample_file_path`.
pub proof fn law_forbidden_keys_are_the_four_audio_and_path_names(key: Seq<char>)
    ensures
        forbidden_key(key) <==> (key == "audio_bytes"@ || key == "sample_file_contents"@ || key
            == "file_path"@ || key == "sample_file_path"@),
{
}

/// A saved project with a root member named `audio_bytes`,
/// `sample_file_contents`, `file_path` or `sample_file_path`, whatever its
/// value and whatever the rest of the document, fails the rights-boundary
/// check, and the report names that member.
pub proof fn law_root_member_with_forbidden_name_is_reported(entries: Seq<(Seq<char>, JsonView)>, i: int)
    requires
        0 <= i < entries.len(),
        entries[i].0 == "audio_bytes"@ || entries[i].0 == "sample_file_contents"@ || entries[i].0
            == "file_path"@ || entries[i].0 == "sample_file_path"@,
    ensures
        json_boundary_report(Ok(JsonView::Object(entries))).len() > 0,
        json_boundary_report(Ok(JsonView::Object(entries))).last() == unsafe_fields_line(
            view_forbidden_paths(JsonView::Object(entries), Seq::empty()),
        ),
        view_forbidden_paths(JsonView::Object(entries), Seq::empty()).contains(entries[i].0),
{
    lemma_entry_paths_contain(entries, i, entries.len());
}

proof fn lemma_entry_paths_contain(entries: Seq<(Seq<char>, JsonView)>, i: int, n: nat)
    requires
        0 <= i < n <= entries.len(),
        forbidden_key(entries[i].0),
    ensures
        view_entry_paths(entries, Seq::empty(), n).contains(entries[i].0),
    decreases n,
{
    let key = entries[n - 1].0;
    let before = view_entry_paths(entries, Seq::empty(), (n - 1) as nat);
    let here: Seq<Seq<char>> = if forbidden_key(key) {
        seq![member_path(Seq::empty(), key)]
    } else {
        Seq::empty()
    };
    let below = view_forbidden_paths(entries[n - 1].1, member_path(Seq::empty(), key));
    assert(view_entry_paths(entries, Seq::empty(), n) == before + here + below);
    if i < n - 1 {
        lemma_entry_paths_contain(entries, i, (n - 1) as nat);
        let k = choose|k: int| 0 <= k < before.len() && before[k] == entries[i].0;
        assert((before + here + below)[k] == entries[i].0);
    } else {
        assert(member_path(Seq::empty(), key) == key);
        assert((before + here + below)[before.len() as int] == entries[i].0);
    }
}

/// For a saved project whose members all hold plain values (no nested
/// objects or arrays), the rights-boundary check passes exactly when the
/// document declares the metadata-only boundary and none of its members is
/// named `audio_bytes`, `sample_file_contents`, `file_path` or
/// `sample_file_path`.
pub proof fn law_flat_project_boundary(entries: Seq<(Seq<char>, JsonView)>)
    requires
        forall|i: int|
            0 <= i < entries.len() ==> !((#[trigger] entries[i]).1 is Object) && !(entries[i].1 is Array),
    ensures
        json_boundary_report(Ok(JsonView::Object(entries))).len() == 0 <==> (view_root_text_member(
            JsonView::Object(entries),
            "rights_boundary"@,
        ) == Some(PROJECT_FILE_RIGHTS_BOUNDARY@) && forall|i: int|
            0 <= i < entries.len() ==> !((#[trigger] entries[i]).0 == "audio_bytes"@ || entries[i].0
                == "sample_file_contents"@ || entries[i].0 == "file_path"@ || entries[i].0
                == "sample_file_path"@)),
{
    lemma_no_paths_iff_no_forbidden_key(JsonView::Object(entries), Seq::empty());
    lemma_flat_entries_forbidden(entries, entries.len());
}

proof fn lemma_flat_entries_forbidden(entries: Seq<(Seq<char>, JsonView)>, n: nat)
    requires
        n <= entries.len(),
        forall|i: int|
            0 <= i < entries.len() ==> !((#[trigger] entries[i]).1 is Object) && !(entries[i].1 is Array),
    ensures
        entries_contain_forbidden_key(entries, n) <==> exists|i: int| 0 <= i < n && forbidden_key(#[trigger] entries[i].0),
    decreases n,
{
    if n > 0 {
        lemma_flat_entries_forbidden(entries, (n - 1) as nat);
        let last = entries[n - 1];
        assert(!(last.1 is Object) && !(last.1 is Array));
        assert(!contains_forbidden_key(last.1));
        if forbidden_key(entries[n - 1].0) {
            assert(forbidden_key(entries[n - 1].0));
        }
    }
}


} // verus!
