use mpc_audio::{
    AudioRenderError, AudioRenderKind, AudioRenderSettings, AudioRenderSummary, AudioSourceKind,
    ChannelBalance, CountInClickIntent, DEFAULT_SAMPLE_RATE_HZ, MAX_RENDER_FRAMES,
    MAX_SAMPLE_RATE_HZ, MIN_SAMPLE_RATE_HZ, PadBank, RenderedAudio, SamplePlaybackIntent,
    render_count_in_click, render_intent,
};

fn settings(sample_rate_hz: u32, frame_count: usize) -> AudioRenderSettings {
    AudioRenderSettings::new(sample_rate_hz, frame_count)
        .expect("test settings should satisfy audio render guardrails")
}

fn render(intent: &SamplePlaybackIntent, settings: AudioRenderSettings) -> RenderedAudio {
    render_intent(intent, settings).expect("test render settings should be valid")
}

fn render_click(intent: &CountInClickIntent, settings: AudioRenderSettings) -> RenderedAudio {
    render_count_in_click(intent, settings).expect("test render settings should be valid")
}

fn test_intent(velocity: u8, level: u8, pan: i8) -> SamplePlaybackIntent {
    test_intent_with_tune(velocity, level, pan, 0)
}

fn test_intent_with_tune(velocity: u8, level: u8, pan: i8, tune_cents: i16) -> SamplePlaybackIntent {
    SamplePlaybackIntent {
        selected_track: 1,
        program_index: 1,
        program_name: "Program01".to_string(),
        bank: PadBank::A,
        pad_number: 4,
        sample_id: "synthetic_a_04".to_string(),
        sample_name: "SYN-A04".to_string(),
        velocity,
        level,
        pan,
        tune_cents,
        start_frame: 0,
        end_frame: 51_599,
        window_length_frames: 51_600,
    }
}

fn test_count_in_click_intent(
    count_in_tick: u64,
    bar_index: u8,
    beat_index: u8,
    accent: bool,
) -> CountInClickIntent {
    CountInClickIntent {
        count_in_tick,
        bar_index,
        beat_index,
        accent,
    }
}

#[test]
fn same_intent_and_settings_render_exact_same_frames() {
    let intent = test_intent(100, 100, 0);
    let settings = settings(48_000, 96);

    let first = render(&intent, settings);
    let second = render(&intent, settings);

    assert_eq!(first.frames, second.frames);
    assert_eq!(first.summary, second.summary);
}

#[test]
fn velocity_and_level_affect_peak_amplitude() {
    let quiet_velocity = render(&test_intent(40, 100, 0), settings(44_100, 128));
    let loud_velocity = render(&test_intent(100, 100, 0), settings(44_100, 128));
    let quiet_level = render(&test_intent(100, 40, 0), settings(44_100, 128));

    assert!(loud_velocity.summary.peak_amplitude > quiet_velocity.summary.peak_amplitude);
    assert!(loud_velocity.summary.peak_amplitude > quiet_level.summary.peak_amplitude);
}

#[test]
fn pan_affects_left_and_right_channels() {
    let left = render(&test_intent(100, 100, -60), settings(44_100, 128));
    let center = render(&test_intent(100, 100, 0), settings(44_100, 128));
    let right = render(&test_intent(100, 100, 60), settings(44_100, 128));

    assert!(left.summary.peak_left > left.summary.peak_right);
    assert_eq!(left.summary.channel_balance, ChannelBalance::Left);
    assert_eq!(center.summary.peak_left, center.summary.peak_right);
    assert_eq!(center.summary.channel_balance, ChannelBalance::Center);
    assert!(right.summary.peak_right > right.summary.peak_left);
    assert_eq!(right.summary.channel_balance, ChannelBalance::Right);
}

#[test]
fn tune_is_reported_and_changes_deterministic_frames() {
    let settings = settings(44_100, 128);
    let default_tune = render(&test_intent_with_tune(100, 100, 0, 0), settings);
    let raised_tune = render(&test_intent_with_tune(100, 100, 0, 700), settings);

    assert_eq!(default_tune.summary.tune_cents, 0);
    assert_eq!(raised_tune.summary.tune_cents, 700);
    assert_eq!(
        default_tune.summary.peak_amplitude,
        raised_tune.summary.peak_amplitude
    );
    assert_ne!(default_tune.frames, raised_tune.frames);
}

#[test]
fn render_length_and_sample_rate_are_respected() {
    let rendered = render(&test_intent(100, 100, 0), settings(32_000, 17));

    assert_eq!(rendered.frames.len(), 17);
    assert_eq!(rendered.settings.sample_rate_hz, 32_000);
    assert_eq!(rendered.summary.sample_rate_hz, 32_000);
    assert_eq!(rendered.summary.frame_count, 17);
}

#[test]
fn render_is_clipped_to_trim_window() {
    let mut intent = test_intent(100, 100, 0);
    intent.start_frame = 10;
    intent.end_frame = 12;
    intent.window_length_frames = 3;

    let rendered = render(&intent, settings(44_100, 16));

    assert_eq!(rendered.frames.len(), 3);
    assert_eq!(rendered.settings.frame_count, 3);
    assert_eq!(rendered.summary.frame_count, 3);
    assert_eq!(rendered.summary.start_frame, 10);
    assert_eq!(rendered.summary.end_frame, 12);
    assert_eq!(rendered.summary.window_length_frames, 3);
}

#[test]
fn audio_render_summary_deserializes_legacy_windowless_json() {
    let json = r#"{
        "sample_rate_hz": 44100,
        "frame_count": 24,
        "source_sample_id": "synthetic_a_04",
        "source_sample_name": "SYN-A04",
        "selected_track": 1,
        "program_index": 1,
        "program_name": "Program01",
        "bank": "a",
        "pad_number": 4,
        "velocity": 100,
        "level": 100,
        "pan": 0,
        "tune_cents": 0,
        "peak_left": 1000,
        "peak_right": 1000,
        "peak_amplitude": 1000,
        "channel_balance": "center",
        "source_kind": "rights_safe_generated",
        "loaded_audio_byte_count": 0
    }"#;

    let value: serde_json::Value =
        serde_json::from_str(json).expect("legacy summary should deserialize");
    let field = |name: &str| value.get(name).and_then(|v| v.as_u64()).map(|v| v as u32);
    let frame_count = value["frame_count"].as_u64().expect("frame count") as usize;
    let (start_frame, end_frame, window_length_frames) = AudioRenderSummary::legacy_window(
        frame_count,
        field("start_frame"),
        field("end_frame"),
        field("window_length_frames"),
    );
    let render_kind = match value.get("render_kind").and_then(|v| v.as_str()) {
        Some("count_in_click") => AudioRenderKind::CountInClick,
        _ => AudioRenderKind::default(),
    };

    assert_eq!(start_frame, 0);
    assert_eq!(end_frame, 23);
    assert_eq!(window_length_frames, 24);
    assert_eq!(render_kind, AudioRenderKind::SamplePlayback);
    assert_eq!(value.get("count_in_tick").and_then(|v| v.as_u64()), None);
    assert_eq!(value.get("bar_index").and_then(|v| v.as_u64()), None);
    assert_eq!(value.get("beat_index").and_then(|v| v.as_u64()), None);
    assert_eq!(value.get("accent").and_then(|v| v.as_bool()), None);
}

#[test]
fn count_in_click_render_is_deterministic_and_reports_metadata() {
    let intent = test_count_in_click_intent(96, 1, 1, true);
    let settings = settings(44_100, 64);

    let first = render_click(&intent, settings);
    let second = render_click(&intent, settings);

    assert_eq!(first.frames, second.frames);
    assert_eq!(first.summary, second.summary);
    assert_eq!(first.settings, settings);
    assert_eq!(first.summary.render_kind, AudioRenderKind::CountInClick);
    assert_eq!(
        first.summary.source_kind,
        AudioSourceKind::RightsSafeGenerated
    );
    assert_eq!(first.summary.loaded_audio_byte_count, 0);
    assert_eq!(first.summary.count_in_tick, Some(96));
    assert_eq!(first.summary.bar_index, Some(1));
    assert_eq!(first.summary.beat_index, Some(1));
    assert_eq!(first.summary.accent, Some(true));
    assert_eq!(first.summary.channel_balance, ChannelBalance::Center);
}

#[test]
fn count_in_click_accent_peak_is_louder_than_non_accent_peak() {
    let settings = settings(44_100, 128);
    let accent = render_click(&test_count_in_click_intent(0, 1, 1, true), settings);
    let click = render_click(&test_count_in_click_intent(96, 1, 2, false), settings);

    assert!(accent.summary.peak_amplitude > click.summary.peak_amplitude);
    assert_eq!(accent.summary.source_sample_name, "COUNT-IN ACCENT");
    assert_eq!(click.summary.source_sample_name, "COUNT-IN CLICK");
}

#[test]
fn renderer_reports_that_no_audio_bytes_are_loaded_from_disk() {
    let rendered = render(&test_intent(100, 100, 0), settings(44_100, 32));

    assert_eq!(
        rendered.summary.source_kind,
        AudioSourceKind::RightsSafeGenerated
    );
    assert_eq!(rendered.summary.loaded_audio_byte_count, 0);
}

#[test]
fn settings_reject_oversized_frame_count_before_render_allocation() {
    let frame_count = MAX_RENDER_FRAMES + 1;
    let expected = AudioRenderError::FrameCountTooLarge {
        frame_count,
        max_frame_count: MAX_RENDER_FRAMES,
    };

    assert_eq!(
        AudioRenderSettings::new(DEFAULT_SAMPLE_RATE_HZ, frame_count),
        Err(expected)
    );

    let unchecked_settings = AudioRenderSettings {
        sample_rate_hz: DEFAULT_SAMPLE_RATE_HZ,
        frame_count,
    };
    assert_eq!(
        render_intent(&test_intent(100, 100, 0), unchecked_settings),
        Err(expected)
    );
}

#[test]
fn settings_reject_sample_rates_outside_foundation_bounds() {
    assert_eq!(
        AudioRenderSettings::new(MIN_SAMPLE_RATE_HZ - 1, 1),
        Err(AudioRenderError::SampleRateBelowMinimum {
            sample_rate_hz: MIN_SAMPLE_RATE_HZ - 1,
            min_sample_rate_hz: MIN_SAMPLE_RATE_HZ,
        })
    );
    assert_eq!(
        AudioRenderSettings::new(MAX_SAMPLE_RATE_HZ + 1, 1),
        Err(AudioRenderError::SampleRateAboveMaximum {
            sample_rate_hz: MAX_SAMPLE_RATE_HZ + 1,
            max_sample_rate_hz: MAX_SAMPLE_RATE_HZ,
        })
    );

    assert!(AudioRenderSettings::new(MIN_SAMPLE_RATE_HZ, 1).is_ok());
    assert!(AudioRenderSettings::new(MAX_SAMPLE_RATE_HZ, 1).is_ok());
}
