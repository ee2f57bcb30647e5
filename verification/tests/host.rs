use mpc_audio::{
    AudioRenderKind, AudioRenderSettings, CaptureAudioBackend, CountInClickIntent,
    DEFAULT_HOST_AUDIO_VOICE_LIMIT, HostAudioBackend, HostAudioBackendError,
    HostAudioBackendReceipt, HostAudioEngine, HostAudioError, HostAudioEvent,
    HostAudioIgnoreReason, HostAudioMode, HostAudioVoiceSummary, InvalidBackendReceiptError,
    MAX_CAPTURE_AUDIO_BACKEND_CAPTURES, MAX_HOST_AUDIO_VOICE_LIMIT, MIN_HOST_AUDIO_VOICE_LIMIT,
    NullAudioBackend, PadBank, RenderedAudio, SamplePlaybackIntent, SampleReleaseIntent,
    render_intent,
};
use mpc_audio::host::default_voice_bank;

fn settings(sample_rate_hz: u32, frame_count: usize) -> AudioRenderSettings {
    AudioRenderSettings::new(sample_rate_hz, frame_count)
        .expect("test settings should satisfy audio render guardrails")
}

fn render(intent: &SamplePlaybackIntent, settings: AudioRenderSettings) -> RenderedAudio {
    render_intent(intent, settings).expect("test render settings should be valid")
}

fn test_intent(velocity: u8, level: u8, pan: i8) -> SamplePlaybackIntent {
    SamplePlaybackIntent {
        selected_track: 1,
        program_index: 1,
        program_name: "Program01".to_string(),
        bank: PadBank::A,
        pad_number: 4,
        sample_id: "synthetic_a_04".to_string(),
        sample_name: "SYN-A04".to_string(),
        velocity,
        level,
        pan,
        tune_cents: 0,
        start_frame: 0,
        end_frame: 51_599,
        window_length_frames: 51_600,
    }
}

fn test_intent_with_sample(sample_id: &str, sample_name: &str) -> SamplePlaybackIntent {
    SamplePlaybackIntent {
        sample_id: sample_id.to_string(),
        sample_name: sample_name.to_string(),
        ..test_intent(100, 100, 0)
    }
}

fn test_release_intent(sample_id: &str, sample_name: &str) -> SampleReleaseIntent {
    SampleReleaseIntent {
        selected_track: 1,
        program_index: 1,
        program_name: "Program01".to_string(),
        bank: PadBank::A,
        pad_number: 4,
        sample_id: sample_id.to_string(),
        sample_name: sample_name.to_string(),
        release_velocity: 64,
    }
}

fn test_count_in_click_intent(
    count_in_tick: u64,
    bar_index: u8,
    beat_index: u8,
    accent: bool,
) -> CountInClickIntent {
    CountInClickIntent {
        count_in_tick,
        bar_index,
        beat_index,
        accent,
    }
}

#[derive(Debug, Clone, Copy, PartialEq, Eq)]
struct FailingAudioBackend;

impl HostAudioBackend for FailingAudioBackend {
    fn backend_name(&self) -> &str {
        "failing-test"
    }

    fn enqueue_render(
        &mut self,
        _rendered: &RenderedAudio,
    ) -> Result<HostAudioBackendReceipt, HostAudioBackendError> {
        Err(HostAudioBackendError::backend_unavailable(
            self.backend_name(),
            "injected test failure",
        ))
    }
}

#[derive(Debug, Clone, Copy, PartialEq, Eq)]
struct ReceiptAudioBackend {
    receipt: HostAudioBackendReceipt,
}

impl ReceiptAudioBackend {
    fn new(receipt: HostAudioBackendReceipt) -> Self {
        Self { receipt }
    }
}

impl HostAudioBackend for ReceiptAudioBackend {
    fn backend_name(&self) -> &str {
        "receipt-test"
    }

    fn enqueue_render(
        &mut self,
        _rendered: &RenderedAudio,
    ) -> Result<HostAudioBackendReceipt, HostAudioBackendError> {
        Ok(self.receipt)
    }
}

#[test]
fn disabled_host_audio_ignores_count_in_click_without_enqueueing() {
    let mut engine = HostAudioEngine::new(CaptureAudioBackend::new(4), settings(44_100, 64))
        .expect("host audio settings should be valid");

    let report =
        engine.play_count_in_click_with_render_summary(&test_count_in_click_intent(0, 1, 1, true));

    assert_eq!(
        report.event,
        HostAudioEvent::Ignored {
            backend_name: "capture".to_string(),
            reason: HostAudioIgnoreReason::Disabled,
        }
    );
    let summary = report
        .render_summary
        .expect("engine should expose count-in render summary for UI");
    assert_eq!(summary.render_kind, AudioRenderKind::CountInClick);
    assert_eq!(summary.accent, Some(true));
    let state = engine.state();
    assert_eq!(state.queued_render_count, 0);
    assert_eq!(state.played_render_count, 0);
    assert_eq!(engine.backend().captured_renders().len(), 0);
    assert_eq!(state.last_event.as_ref(), Some(&report.event));
}

#[test]
fn enabled_host_audio_enqueues_and_captures_count_in_click() {
    let mut engine = HostAudioEngine::enabled(CaptureAudioBackend::new(4), settings(44_100, 64))
        .expect("host audio settings should be valid");

    let report = engine
        .play_count_in_click_with_render_summary(&test_count_in_click_intent(96, 1, 2, false));

    let HostAudioEvent::Enqueued {
        backend_name,
        receipt,
    } = &report.event
    else {
        panic!("expected enqueued event, got {:?}", report.event);
    };
    assert_eq!(backend_name, "capture");
    assert_eq!(receipt.frame_count, 64);
    assert!(receipt.queued);
    assert!(receipt.played);
    assert_eq!(receipt.summary.render_kind, AudioRenderKind::CountInClick);
    assert_eq!(receipt.summary.count_in_tick, Some(96));
    assert_eq!(receipt.summary.beat_index, Some(2));
    assert_eq!(receipt.summary.accent, Some(false));

    let state = engine.state();
    assert_eq!(state.queued_render_count, 1);
    assert_eq!(state.played_render_count, 1);
    assert_eq!(state.last_event.as_ref(), Some(&report.event));
    let capture = engine
        .backend()
        .captured_renders()
        .back()
        .expect("capture should store latest count-in click");
    assert_eq!(capture.frame_count, 64);
    assert_eq!(capture.summary.render_kind, AudioRenderKind::CountInClick);
    assert_eq!(capture.summary.source_sample_name, "COUNT-IN CLICK");
}

#[test]
fn capture_backend_clamps_oversized_history_capacity_before_allocation() {
    let backend = CaptureAudioBackend::named("oversized", usize::MAX);

    assert_eq!(backend.max_captures(), MAX_CAPTURE_AUDIO_BACKEND_CAPTURES);
    assert_eq!(
        backend.captured_renders().capacity(),
        MAX_CAPTURE_AUDIO_BACKEND_CAPTURES
    );
}

#[test]
fn host_audio_backend_receipt_constructors_expose_valid_states() {
    let queued = HostAudioBackendReceipt::queued(12);
    assert_eq!(queued.frame_count(), 12);
    assert!(queued.is_queued());
    assert!(!queued.is_played());

    let played = HostAudioBackendReceipt::queued_and_played(34);
    assert_eq!(played.frame_count(), 34);
    assert!(played.is_queued());
    assert!(played.is_played());
}

#[test]
fn host_audio_playback_report_exposes_engine_render_summary_when_disabled() {
    let mut engine = HostAudioEngine::new(CaptureAudioBackend::new(4), settings(32_000, 24))
        .expect("host audio settings should be valid");

    let report = engine.play_intent_with_render_summary(&test_intent(100, 100, 0));

    assert_eq!(
        report.event,
        HostAudioEvent::Ignored {
            backend_name: "capture".to_string(),
            reason: HostAudioIgnoreReason::Disabled,
        }
    );
    let summary = report
        .render_summary
        .expect("engine should expose render summary for UI");
    assert_eq!(summary.sample_rate_hz, 32_000);
    assert_eq!(summary.frame_count, 24);
    assert_eq!(engine.backend().captured_renders().len(), 0);
}

#[test]
fn enabled_host_audio_enqueues_and_captures_render_summary() {
    let mut engine = HostAudioEngine::enabled(CaptureAudioBackend::new(4), settings(44_100, 64))
        .expect("host audio settings should be valid");

    let event = engine.play_intent(&test_intent(100, 100, 0));

    let HostAudioEvent::Enqueued {
        backend_name,
        receipt,
    } = &event
    else {
        panic!("expected enqueued event, got {event:?}");
    };
    assert_eq!(backend_name, "capture");
    assert_eq!(receipt.frame_count, 64);
    assert!(receipt.queued);
    assert!(receipt.played);
    assert_eq!(receipt.summary.source_sample_id, "synthetic_a_04");

    let state = engine.state();
    assert_eq!(state.mode, HostAudioMode::Enabled);
    assert_eq!(state.backend_name, "capture");
    assert_eq!(state.queued_render_count, 1);
    assert_eq!(state.played_render_count, 1);
    assert_eq!(state.last_event.as_ref(), Some(&event));
    assert_eq!(engine.backend().captured_renders().len(), 1);
    assert_eq!(
        engine
            .backend()
            .captured_renders()
            .back()
            .expect("capture should store latest render")
            .summary
            .source_sample_name,
        "SYN-A04"
    );
}

#[test]
fn disabled_host_audio_ignores_without_enqueueing() {
    let mut engine = HostAudioEngine::new(CaptureAudioBackend::new(4), settings(44_100, 64))
        .expect("host audio settings should be valid");

    let event = engine.play_intent(&test_intent(100, 100, 0));

    assert_eq!(
        event,
        HostAudioEvent::Ignored {
            backend_name: "capture".to_string(),
            reason: HostAudioIgnoreReason::Disabled,
        }
    );
    let state = engine.state();
    assert_eq!(state.mode, HostAudioMode::Disabled);
    assert_eq!(state.queued_render_count, 0);
    assert_eq!(state.played_render_count, 0);
    assert_eq!(engine.backend().captured_renders().len(), 0);
    assert_eq!(state.last_event.as_ref(), Some(&event));
}

#[test]
fn backend_errors_are_propagated_without_incrementing_counters() {
    let mut engine = HostAudioEngine::enabled(FailingAudioBackend, settings(44_100, 64))
        .expect("host audio settings should be valid");

    let event = engine.play_intent(&test_intent(100, 100, 0));

    let HostAudioEvent::Failed {
        backend_name,
        error,
        summary,
    } = &event
    else {
        panic!("expected failed event, got {event:?}");
    };
    assert_eq!(backend_name, "failing-test");
    assert!(matches!(
        error,
        HostAudioError::Backend {
            error: HostAudioBackendError::BackendUnavailable { .. }
        }
    ));
    assert_eq!(
        summary
            .as_ref()
            .expect("backend failure should retain render summary")
            .source_sample_id,
        "synthetic_a_04"
    );

    let state = engine.state();
    assert_eq!(state.queued_render_count, 0);
    assert_eq!(state.played_render_count, 0);
    assert_eq!(state.last_event.as_ref(), Some(&event));
}

#[test]
fn host_audio_state_counters_track_multiple_playbacks() {
    let mut engine = HostAudioEngine::enabled(CaptureAudioBackend::new(2), settings(44_100, 32))
        .expect("host audio settings should be valid");

    engine.play_intent(&test_intent(100, 100, -40));
    engine.play_intent(&test_intent(80, 100, 0));
    engine.play_intent(&test_intent(60, 100, 40));

    let state = engine.state();
    assert_eq!(state.queued_render_count, 3);
    assert_eq!(state.played_render_count, 3);
    assert_eq!(engine.backend().captured_renders().len(), 2);
    assert!(
        engine
            .backend()
            .captured_renders()
            .iter()
            .all(|capture| { capture.frame_count == 32 && capture.summary.frame_count == 32 })
    );
}

#[test]
fn null_backend_accepts_playback_without_device_setup() {
    let mut engine = HostAudioEngine::enabled(NullAudioBackend::new(), settings(44_100, 16))
        .expect("host audio settings should be valid");

    let event = engine.play_intent(&test_intent(100, 100, 0));

    assert!(matches!(event, HostAudioEvent::Enqueued { .. }));
    let state = engine.state();
    assert_eq!(state.backend_name, "null");
    assert_eq!(state.queued_render_count, 1);
    assert_eq!(state.played_render_count, 1);
}

#[test]
fn null_backend_new_equals_default_and_names_differ() {
    assert_eq!(NullAudioBackend::new(), NullAudioBackend::default());
    assert_eq!(NullAudioBackend::new(), NullAudioBackend::named("null"));
    assert_ne!(NullAudioBackend::new(), NullAudioBackend::named("null-out"));
    let engine = HostAudioEngine::enabled(NullAudioBackend::default(), settings(44_100, 16))
        .expect("host audio settings should be valid");
    assert_eq!(engine.state().backend_name, "null");
}

#[test]
fn host_audio_rejects_invalid_rendered_audio_before_backend_enqueue() {
    let mut engine = HostAudioEngine::enabled(CaptureAudioBackend::new(4), settings(44_100, 64))
        .expect("host audio settings should be valid");
    let mut rendered = render(&test_intent(100, 100, 0), settings(44_100, 64));
    rendered.summary.frame_count = 63;

    let event = engine.play_rendered(rendered);

    assert!(matches!(
        event,
        HostAudioEvent::Failed {
            error: HostAudioError::InvalidRenderedAudio { .. },
            ..
        }
    ));
    let state = engine.state();
    assert_eq!(state.queued_render_count, 0);
    assert_eq!(state.played_render_count, 0);
    assert_eq!(state.active_voice_count, 0);
    assert_eq!(state.completed_voice_count, 0);
    assert_eq!(state.stolen_voice_count, 0);
    assert!(state.active_voices.is_empty());
    assert_eq!(engine.backend().captured_renders().len(), 0);
}

#[test]
fn host_audio_rejects_played_without_queued_backend_receipt() {
    let receipt = HostAudioBackendReceipt {
        frame_count: 64,
        queued: false,
        played: true,
    };
    let mut engine =
        HostAudioEngine::enabled(ReceiptAudioBackend::new(receipt), settings(44_100, 64))
            .expect("host audio settings should be valid");

    let event = engine.play_intent(&test_intent(100, 100, 0));

    assert!(matches!(
        event,
        HostAudioEvent::Failed {
            error: HostAudioError::InvalidBackendReceipt {
                error: InvalidBackendReceiptError::PlayedWithoutQueued
            },
            ..
        }
    ));
    let state = engine.state();
    assert_eq!(state.queued_render_count, 0);
    assert_eq!(state.played_render_count, 0);
    assert_eq!(state.active_voice_count, 0);
    assert_eq!(state.completed_voice_count, 0);
    assert_eq!(state.stolen_voice_count, 0);
    assert!(state.active_voices.is_empty());
}

#[test]
fn host_audio_rejects_backend_receipt_frame_count_mismatch() {
    let mut engine = HostAudioEngine::enabled(
        ReceiptAudioBackend::new(HostAudioBackendReceipt::queued_and_played(65)),
        settings(44_100, 64),
    )
    .expect("host audio settings should be valid");

    let event = engine.play_intent(&test_intent(100, 100, 0));

    assert!(matches!(
        event,
        HostAudioEvent::Failed {
            error: HostAudioError::InvalidBackendReceipt {
                error: InvalidBackendReceiptError::FrameCountMismatch {
                    receipt_frame_count: 65,
                    rendered_frame_count: 64,
                }
            },
            ..
        }
    ));
    let state = engine.state();
    assert_eq!(state.queued_render_count, 0);
    assert_eq!(state.played_render_count, 0);
    assert_eq!(state.active_voice_count, 0);
    assert_eq!(state.completed_voice_count, 0);
    assert_eq!(state.stolen_voice_count, 0);
    assert!(state.active_voices.is_empty());
}

#[test]
fn enabled_sample_playback_allocates_default_voice() {
    let mut engine = HostAudioEngine::enabled(CaptureAudioBackend::new(4), settings(44_100, 64))
        .expect("host audio settings should be valid");

    let event = engine.play_intent(&test_intent(100, 100, 0));

    let HostAudioEvent::Enqueued { receipt, .. } = &event else {
        panic!("expected enqueued event, got {event:?}");
    };
    let allocation = receipt
        .voice_allocation
        .as_ref()
        .expect("queued render should allocate a voice");
    assert_eq!(allocation.voice_id, 1);
    assert_eq!(allocation.stolen_voice_id, None);
    assert_eq!(allocation.voice_limit, DEFAULT_HOST_AUDIO_VOICE_LIMIT);
    assert_eq!(allocation.active_voice_count, 1);

    let state = engine.state();
    assert_eq!(state.voice_limit, DEFAULT_HOST_AUDIO_VOICE_LIMIT);
    assert_eq!(state.active_voice_count, 1);
    assert_eq!(state.completed_voice_count, 0);
    assert_eq!(state.stolen_voice_count, 0);
    assert_eq!(
        state.active_voices,
        vec![HostAudioVoiceSummary {
            voice_id: 1,
            render_kind: AudioRenderKind::SamplePlayback,
            source_label: "SYN-A04".to_string(),
            source_sample_id: "synthetic_a_04".to_string(),
            bank: PadBank::A,
            pad_number: 4,
            total_frame_count: 64,
            remaining_frame_count: 64,
        }]
    );
}

#[test]
fn zero_frame_queued_render_does_not_allocate_voice() {
    let mut engine = HostAudioEngine::enabled(CaptureAudioBackend::new(4), settings(44_100, 0))
        .expect("host audio settings should be valid");

    let event = engine.play_intent(&test_intent(100, 100, 0));

    let HostAudioEvent::Enqueued { receipt, .. } = &event else {
        panic!("expected enqueued event, got {event:?}");
    };
    assert!(receipt.queued);
    assert!(receipt.played);
    assert_eq!(receipt.frame_count, 0);
    assert_eq!(receipt.voice_allocation, None);

    let state = engine.state();
    assert_eq!(state.queued_render_count, 1);
    assert_eq!(state.played_render_count, 1);
    assert_eq!(state.active_voice_count, 0);
    assert_eq!(state.completed_voice_count, 0);
    assert_eq!(state.stolen_voice_count, 0);
    assert!(state.active_voices.is_empty());
}

#[test]
fn disabled_sample_playback_does_not_allocate_voice() {
    let mut engine = HostAudioEngine::new(CaptureAudioBackend::new(4), settings(44_100, 64))
        .expect("host audio settings should be valid");

    let event = engine.play_intent(&test_intent(100, 100, 0));

    assert!(matches!(event, HostAudioEvent::Ignored { .. }));
    let state = engine.state();
    assert_eq!(state.queued_render_count, 0);
    assert_eq!(state.played_render_count, 0);
    assert_eq!(state.active_voice_count, 0);
    assert_eq!(state.completed_voice_count, 0);
    assert_eq!(state.stolen_voice_count, 0);
    assert!(state.active_voices.is_empty());
}

#[test]
fn backend_failure_does_not_allocate_voice() {
    let mut engine = HostAudioEngine::enabled(FailingAudioBackend, settings(44_100, 64))
        .expect("host audio settings should be valid");

    let event = engine.play_intent(&test_intent(100, 100, 0));

    assert!(matches!(event, HostAudioEvent::Failed { .. }));
    let state = engine.state();
    assert_eq!(state.queued_render_count, 0);
    assert_eq!(state.played_render_count, 0);
    assert_eq!(state.active_voice_count, 0);
    assert_eq!(state.completed_voice_count, 0);
    assert_eq!(state.stolen_voice_count, 0);
    assert!(state.active_voices.is_empty());
}

#[test]
fn advance_voice_frames_completes_active_voice() {
    let mut engine = HostAudioEngine::enabled(CaptureAudioBackend::new(4), settings(44_100, 64))
        .expect("host audio settings should be valid");
    engine.play_intent(&test_intent(100, 100, 0));

    engine.advance_voice_frames(0);
    assert_eq!(engine.state().active_voices[0].remaining_frame_count, 64);

    engine.advance_voice_frames(63);
    let state = engine.state();
    assert_eq!(state.active_voice_count, 1);
    assert_eq!(state.completed_voice_count, 0);
    assert_eq!(state.active_voices[0].remaining_frame_count, 1);

    engine.advance_voice_frames(1);
    let state = engine.state();
    assert_eq!(state.active_voice_count, 0);
    assert_eq!(state.completed_voice_count, 1);
    assert!(state.active_voices.is_empty());
}

#[test]
fn voice_limit_steals_oldest_active_voice() {
    let mut engine = HostAudioEngine::enabled_with_voice_limit(
        CaptureAudioBackend::new(4),
        settings(44_100, 32),
        2,
    )
    .expect("host audio settings should be valid");

    engine.play_intent(&test_intent_with_sample("sample-1", "SYN-01"));
    engine.play_intent(&test_intent_with_sample("sample-2", "SYN-02"));
    let event = engine.play_intent(&test_intent_with_sample("sample-3", "SYN-03"));

    let HostAudioEvent::Enqueued { receipt, .. } = &event else {
        panic!("expected enqueued event, got {event:?}");
    };
    let allocation = receipt
        .voice_allocation
        .as_ref()
        .expect("queued render should allocate a voice");
    assert_eq!(allocation.voice_id, 3);
    assert_eq!(allocation.stolen_voice_id, Some(1));
    assert_eq!(allocation.voice_limit, 2);
    assert_eq!(allocation.active_voice_count, 2);

    let state = engine.state();
    assert_eq!(state.voice_limit, 2);
    assert_eq!(state.active_voice_count, 2);
    assert_eq!(state.completed_voice_count, 0);
    assert_eq!(state.stolen_voice_count, 1);
    assert_eq!(
        state
            .active_voices
            .iter()
            .map(|voice| (voice.voice_id, voice.source_label.as_str()))
            .collect::<Vec<_>>(),
        vec![(2, "SYN-02"), (3, "SYN-03")]
    );
}

#[test]
fn count_in_click_allocates_voice_through_same_host_path() {
    let mut engine = HostAudioEngine::enabled(CaptureAudioBackend::new(4), settings(44_100, 64))
        .expect("host audio settings should be valid");

    let event = engine.play_count_in_click(&test_count_in_click_intent(96, 1, 2, false));

    let HostAudioEvent::Enqueued { receipt, .. } = &event else {
        panic!("expected enqueued event, got {event:?}");
    };
    let allocation = receipt
        .voice_allocation
        .as_ref()
        .expect("queued count-in click should allocate a voice");
    assert_eq!(allocation.voice_id, 1);
    assert_eq!(allocation.stolen_voice_id, None);
    assert_eq!(receipt.summary.render_kind, AudioRenderKind::CountInClick);

    let state = engine.state();
    assert_eq!(state.active_voice_count, 1);
    assert_eq!(
        state.active_voices,
        vec![HostAudioVoiceSummary {
            voice_id: 1,
            render_kind: AudioRenderKind::CountInClick,
            source_label: "COUNT-IN CLICK".to_string(),
            source_sample_id: "count_in_click".to_string(),
            bank: PadBank::A,
            pad_number: 0,
            total_frame_count: 64,
            remaining_frame_count: 64,
        }]
    );
}

#[test]
fn release_intent_removes_matching_active_sample_voices() {
    let mut engine = HostAudioEngine::enabled(CaptureAudioBackend::new(4), settings(44_100, 64))
        .expect("host audio settings should be valid");
    engine.play_intent(&test_intent_with_sample("sample-1", "SYN-01"));
    engine.play_intent(&test_intent_with_sample("sample-2", "SYN-02"));
    engine.play_intent(&test_intent_with_sample("sample-1", "SYN-01"));

    let event = engine.release_intent(&test_release_intent("sample-1", "SYN-01"));

    let HostAudioEvent::Released { receipt, .. } = &event else {
        panic!("expected released event, got {event:?}");
    };
    assert_eq!(receipt.released_voice_ids, vec![1, 3]);
    assert_eq!(receipt.released_voice_count, 2);
    assert_eq!(receipt.active_voice_count, 1);

    let state = engine.state();
    assert_eq!(state.active_voice_count, 1);
    assert_eq!(state.released_voice_count, 2);
    assert_eq!(state.completed_voice_count, 0);
    assert_eq!(
        state
            .active_voices
            .iter()
            .map(|voice| (voice.voice_id, voice.source_sample_id.as_str()))
            .collect::<Vec<_>>(),
        vec![(2, "sample-2")]
    );
}

#[test]
fn release_intent_does_not_remove_count_in_or_other_pads() {
    let mut engine = HostAudioEngine::enabled(CaptureAudioBackend::new(4), settings(44_100, 64))
        .expect("host audio settings should be valid");
    engine.play_intent(&test_intent_with_sample("sample-1", "SYN-01"));
    engine.play_count_in_click(&test_count_in_click_intent(96, 1, 2, false));
    let mut release = test_release_intent("sample-1", "SYN-01");
    release.pad_number = 5;

    let event = engine.release_intent(&release);

    let HostAudioEvent::Released { receipt, .. } = &event else {
        panic!("expected released event, got {event:?}");
    };
    assert!(receipt.released_voice_ids.is_empty());
    assert_eq!(receipt.active_voice_count, 2);
    let state = engine.state();
    assert_eq!(state.released_voice_count, 0);
    assert_eq!(state.active_voice_count, 2);
}

#[test]
fn disabled_release_intent_is_ignored_without_voice_mutation() {
    let mut engine = HostAudioEngine::enabled(CaptureAudioBackend::new(4), settings(44_100, 64))
        .expect("host audio settings should be valid");
    engine.play_intent(&test_intent_with_sample("sample-1", "SYN-01"));
    let before_release = engine.state();
    assert_eq!(before_release.active_voice_count, 1);

    engine.set_mode(HostAudioMode::Disabled);

    let event = engine.release_intent(&test_release_intent("sample-1", "SYN-01"));

    assert!(matches!(event, HostAudioEvent::Ignored { .. }));
    let state = engine.state();
    assert_eq!(state.released_voice_count, 0);
    assert_eq!(state.active_voices, before_release.active_voices);
    assert_eq!(state.active_voice_count, before_release.active_voice_count);
}

#[test]
fn non_queued_backend_receipt_does_not_allocate_voice() {
    let mut engine = HostAudioEngine::enabled(
        ReceiptAudioBackend::new(HostAudioBackendReceipt::not_queued(64)),
        settings(44_100, 64),
    )
    .expect("host audio settings should be valid");

    let event = engine.play_intent(&test_intent(100, 100, 0));

    let HostAudioEvent::Enqueued { receipt, .. } = event else {
        panic!("expected receipt event, got {event:?}");
    };
    assert!(!receipt.queued);
    assert!(!receipt.played);
    assert_eq!(receipt.voice_allocation, None);
    let state = engine.state();
    assert_eq!(state.queued_render_count, 0);
    assert_eq!(state.played_render_count, 0);
    assert_eq!(state.active_voice_count, 0);
    assert_eq!(state.completed_voice_count, 0);
    assert_eq!(state.stolen_voice_count, 0);
    assert!(state.active_voices.is_empty());
}

#[test]
fn configurable_voice_limit_is_clamped_to_foundation_bounds() {
    let low = HostAudioEngine::enabled_with_voice_limit(
        NullAudioBackend::new(),
        settings(44_100, 16),
        0,
    )
    .expect("host audio settings should be valid");
    let high = HostAudioEngine::enabled_with_voice_limit(
        NullAudioBackend::new(),
        settings(44_100, 16),
        usize::MAX,
    )
    .expect("host audio settings should be valid");

    assert_eq!(low.voice_limit(), MIN_HOST_AUDIO_VOICE_LIMIT);
    assert_eq!(high.voice_limit(), MAX_HOST_AUDIO_VOICE_LIMIT);
}

#[test]
fn host_audio_voice_summary_deserializes_legacy_json_without_release_metadata() {
    let value: serde_json::Value = serde_json::from_str(
        r#"{
            "voice_id": 7,
            "render_kind": "sample_playback",
            "source_label": "SYN-A01",
            "total_frame_count": 64,
            "remaining_frame_count": 32
        }"#,
    )
    .expect("legacy voice summary is JSON");
    let summary = HostAudioVoiceSummary {
        voice_id: value["voice_id"].as_u64().unwrap(),
        render_kind: AudioRenderKind::SamplePlayback,
        source_label: value["source_label"].as_str().unwrap().to_string(),
        source_sample_id: value.get("source_sample_id").and_then(|v| v.as_str()).unwrap_or_default().to_string(),
        bank: default_voice_bank(),
        pad_number: value.get("pad_number").and_then(|v| v.as_u64()).unwrap_or_default() as u8,
        total_frame_count: value["total_frame_count"].as_u64().unwrap() as usize,
        remaining_frame_count: value["remaining_frame_count"].as_u64().unwrap() as usize,
    };

    assert_eq!(
        summary,
        HostAudioVoiceSummary {
            voice_id: 7,
            render_kind: AudioRenderKind::SamplePlayback,
            source_label: "SYN-A01".to_string(),
            source_sample_id: String::new(),
            bank: PadBank::A,
            pad_number: 0,
            total_frame_count: 64,
            remaining_frame_count: 32,
        }
    );
}
