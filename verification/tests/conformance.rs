use mpc_audio::conformance::{
    ExpectedAudioRender, ExpectedHostAudioState, HostAudioFixture, HostAudioOutput,
    build_host_audio_runner, route_host_audio_outputs,
    default_capture_history, default_host_audio_fixture_voice_limit, validate_expected_audio_render,
    validate_expected_host_audio_last_event, validate_host_audio,
};
use mpc_audio::mismatch::push_mismatch;
use mpc_audio::fixture::{ExpectedHostAudioEventType, runtime_wav_fixture_file_name};
use mpc_audio::project_json::{
    JsonValue, collect_forbidden_project_json_keys, validate_parsed_project_json_boundary,
    validate_project_file_json_boundary,
};
use mpc_audio::{
    AudioRenderKind, AudioRenderSettings, AudioSourceKind, ChannelBalance, CountInClickIntent,
    DEFAULT_FRAME_COUNT, DEFAULT_SAMPLE_RATE_HZ, HostAudioMode, MAX_RENDER_FRAMES, PadBank,
    HostAudioEvent, SamplePlaybackIntent, SampleReleaseIntent, render_intent,
};

fn playback_intent() -> SamplePlaybackIntent {
    SamplePlaybackIntent {
        selected_track: 1,
        program_index: 1,
        program_name: "Program01".to_string(),
        bank: PadBank::A,
        pad_number: 1,
        sample_id: "synthetic_a_01".to_string(),
        sample_name: "SYN-A01".to_string(),
        velocity: 100,
        level: 100,
        pan: 0,
        tune_cents: 0,
        start_frame: 0,
        end_frame: 47_999,
        window_length_frames: 48_000,
    }
}

fn click_intent(tick: u64, accent: bool) -> CountInClickIntent {
    CountInClickIntent {
        count_in_tick: tick,
        bar_index: 0,
        beat_index: 1,
        accent,
    }
}

fn expected_render_for(intent: &SamplePlaybackIntent, settings: AudioRenderSettings) -> ExpectedAudioRender {
    let rendered = render_intent(intent, settings).expect("valid settings render");
    let summary = rendered.summary;
    ExpectedAudioRender {
        settings,
        sample_rate_hz: summary.sample_rate_hz,
        frame_count: summary.frame_count,
        source_sample_id: summary.source_sample_id.clone(),
        source_sample_name: summary.source_sample_name.clone(),
        selected_track: summary.selected_track,
        program_index: summary.program_index,
        program_name: summary.program_name.clone(),
        bank: summary.bank,
        pad_number: summary.pad_number,
        tune_cents: summary.tune_cents,
        start_frame: Some(summary.start_frame),
        end_frame: Some(summary.end_frame),
        window_length_frames: Some(summary.window_length_frames),
        peak_left: summary.peak_left,
        peak_right: summary.peak_right,
        peak_amplitude: summary.peak_amplitude,
        channel_balance: summary.channel_balance,
        source_kind: summary.source_kind,
        loaded_audio_byte_count: summary.loaded_audio_byte_count,
    }
}

fn host_audio_fixture(enabled: bool, expect: ExpectedHostAudioState) -> HostAudioFixture {
    HostAudioFixture {
        enabled,
        settings: AudioRenderSettings::new(DEFAULT_SAMPLE_RATE_HZ, 64).expect("valid settings"),
        capture_history: default_capture_history(),
        voice_limit: default_host_audio_fixture_voice_limit(),
        advance_voice_frames: Vec::new(),
        expect,
    }
}

#[test]
fn invalid_audio_render_settings_are_reported_as_fixture_details() {
    let frame_count = MAX_RENDER_FRAMES + 1;
    let intent = playback_intent();
    let expected = ExpectedAudioRender {
        settings: AudioRenderSettings {
            sample_rate_hz: DEFAULT_SAMPLE_RATE_HZ,
            frame_count,
        },
        sample_rate_hz: DEFAULT_SAMPLE_RATE_HZ,
        frame_count,
        source_sample_id: "synthetic_a_01".to_string(),
        source_sample_name: "SYN-A01".to_string(),
        selected_track: 1,
        program_index: 1,
        program_name: "Program01".to_string(),
        bank: PadBank::A,
        pad_number: 1,
        tune_cents: 0,
        start_frame: Some(0),
        end_frame: Some(47_999),
        window_length_frames: Some(48_000),
        peak_left: 0,
        peak_right: 0,
        peak_amplitude: 0,
        channel_balance: ChannelBalance::Center,
        source_kind: AudioSourceKind::RightsSafeGenerated,
        loaded_audio_byte_count: 0,
    };
    let mut details = Vec::new();

    validate_expected_audio_render(&mut details, Some(&intent), &expected);

    assert_eq!(
        details,
        vec![format!(
            "last_audio_render render error: frame count {frame_count} exceeds maximum {}",
            MAX_RENDER_FRAMES
        )]
    );
}

#[test]
fn matching_audio_render_expectation_reports_nothing() {
    let intent = playback_intent();
    let settings = AudioRenderSettings::new(DEFAULT_SAMPLE_RATE_HZ, DEFAULT_FRAME_COUNT).unwrap();
    let expected = expected_render_for(&intent, settings);
    let mut details = Vec::new();

    validate_expected_audio_render(&mut details, Some(&intent), &expected);

    assert!(details.is_empty(), "{details:?}");
}

#[test]
fn audio_render_mismatches_are_reported_in_field_order_with_debug_values() {
    let intent = playback_intent();
    let settings = AudioRenderSettings::new(DEFAULT_SAMPLE_RATE_HZ, DEFAULT_FRAME_COUNT).unwrap();
    let actual = expected_render_for(&intent, settings);
    let mut expected = actual.clone();
    expected.source_sample_name = "OTHER \"A\"".to_string();
    expected.tune_cents = -12;
    expected.peak_left = actual.peak_left - 1;
    expected.channel_balance = ChannelBalance::Left;
    expected.window_length_frames = None;
    expected.start_frame = Some(5);
    let mut details = vec!["earlier line".to_string()];

    validate_expected_audio_render(&mut details, Some(&intent), &expected);

    assert_eq!(
        details,
        vec![
            "earlier line".to_string(),
            format!(
                "last_audio_render.source_sample_name mismatch: expected {:?}, got {:?}",
                expected.source_sample_name, actual.source_sample_name
            ),
            "last_audio_render.tune_cents mismatch: expected -12, got 0".to_string(),
            format!(
                "last_audio_render.start_frame mismatch: expected 5, got {}",
                actual.start_frame.unwrap()
            ),
            format!(
                "last_audio_render.peak_left mismatch: expected {}, got {}",
                actual.peak_left - 1,
                actual.peak_left
            ),
            format!(
                "last_audio_render.channel_balance mismatch: expected Left, got {:?}",
                actual.channel_balance
            ),
        ]
    );
}

#[test]
fn audio_render_without_playback_intent_reports_one_line() {
    let intent = playback_intent();
    let settings = AudioRenderSettings::new(DEFAULT_SAMPLE_RATE_HZ, DEFAULT_FRAME_COUNT).unwrap();
    let expected = expected_render_for(&intent, settings);
    let mut details = Vec::new();

    validate_expected_audio_render(&mut details, None, &expected);

    assert_eq!(
        details,
        vec!["last_audio_render mismatch: expected renderable SamplePlaybackIntent, got None".to_string()]
    );
}

#[test]
fn fixture_defaults_match_documented_values() {
    assert_eq!(default_capture_history(), 16);
    assert_eq!(default_host_audio_fixture_voice_limit(), 32);
}

#[test]
fn host_audio_runner_is_built_only_for_a_host_audio_section() {
    let mut details = Vec::new();
    assert!(build_host_audio_runner(&mut details, None).is_none());
    assert!(details.is_empty());

    let config = host_audio_fixture(true, ExpectedHostAudioState::default());
    let runner = build_host_audio_runner(&mut details, Some(&config)).expect("valid settings build a runner");
    assert!(details.is_empty());
    let state = runner.engine.state();
    assert_eq!(state.mode, HostAudioMode::Enabled);
    assert_eq!(state.backend_name, "capture");
    assert_eq!(state.voice_limit, 32);
    assert_eq!(runner.engine.backend().max_captures(), 16);
}

#[test]
fn invalid_host_audio_settings_report_a_setup_error() {
    let mut config = host_audio_fixture(true, ExpectedHostAudioState::default());
    config.settings = AudioRenderSettings {
        sample_rate_hz: DEFAULT_SAMPLE_RATE_HZ,
        frame_count: MAX_RENDER_FRAMES + 1,
    };
    let mut details = Vec::new();

    let runner = build_host_audio_runner(&mut details, Some(&config));

    assert!(runner.is_none());
    assert_eq!(
        details,
        vec![format!(
            "host_audio setup error: render failed: frame count {} exceeds maximum {}",
            MAX_RENDER_FRAMES + 1,
            MAX_RENDER_FRAMES
        )]
    );

    validate_host_audio(&mut details, Some(&config), None);
    assert_eq!(details[1], "host_audio state mismatch: host audio runner was not created");
    assert_eq!(details.len(), 2);
}

#[test]
fn host_audio_report_is_empty_when_every_expectation_holds() {
    let expect = ExpectedHostAudioState {
        mode: Some(HostAudioMode::Enabled),
        backend_name: Some("capture".to_string()),
        queued_render_count: Some(2),
        played_render_count: Some(2),
        active_voice_count: Some(2),
        capture_count: Some(2),
        capture_frame_counts: Some(vec![64, 64]),
        capture_render_kinds: Some(vec![AudioRenderKind::SamplePlayback, AudioRenderKind::CountInClick]),
        capture_source_kinds: Some(vec![AudioSourceKind::RightsSafeGenerated; 2]),
        capture_count_in_ticks: Some(vec![None, Some(96)]),
        capture_accents: Some(vec![None, Some(false)]),
        last_event_type: Some(ExpectedHostAudioEventType::Enqueued),
        last_event_backend_name: Some("capture".to_string()),
        last_event_render_kind: Some(AudioRenderKind::CountInClick),
        last_event_frame_count: Some(64),
        last_event_voice_id: Some(2),
        ..ExpectedHostAudioState::default()
    };
    let config = host_audio_fixture(true, expect);
    let mut details = Vec::new();
    let mut runner = build_host_audio_runner(&mut details, Some(&config)).unwrap();
    runner.engine.play_intent_with_render_summary(&playback_intent());
    runner.engine.play_count_in_click_with_render_summary(&click_intent(96, false));

    validate_host_audio(&mut details, Some(&config), Some(&runner));

    assert!(details.is_empty(), "{details:?}");
}

#[test]
fn host_audio_mismatches_are_reported_state_then_captures_then_last_event() {
    let expect = ExpectedHostAudioState {
        mode: Some(HostAudioMode::Disabled),
        backend_name: Some("device".to_string()),
        queued_render_count: Some(3),
        capture_frame_counts: Some(vec![10]),
        capture_source_sample_names: Some(vec!["X".to_string()]),
        capture_accents: Some(vec![Some(true)]),
        last_event_voice_id: Some(9),
        last_event_stolen_voice_id: Some(1),
        ..ExpectedHostAudioState::default()
    };
    let config = host_audio_fixture(true, expect);
    let mut details = Vec::new();
    let mut runner = build_host_audio_runner(&mut details, Some(&config)).unwrap();
    runner.engine.play_intent_with_render_summary(&playback_intent());

    validate_host_audio(&mut details, Some(&config), Some(&runner));

    assert_eq!(
        details,
        vec![
            "host_audio.mode mismatch: expected Disabled, got Enabled".to_string(),
            "host_audio.backend_name mismatch: expected \"device\", got \"capture\"".to_string(),
            "host_audio.queued_render_count mismatch: expected 3, got 1".to_string(),
            "host_audio.capture_frame_counts mismatch: expected [10], got [64]".to_string(),
            "host_audio.capture_source_sample_names mismatch: expected [\"X\"], got [\"SYN-A01\"]".to_string(),
            "host_audio.capture_accents mismatch: expected [Some(true)], got [None]".to_string(),
            "host_audio.last_event_voice_id mismatch: expected 9, got Some(1)".to_string(),
            "host_audio.last_event_stolen_voice_id mismatch: expected 1, got None".to_string(),
        ]
    );
}

#[test]
fn active_voice_expectations_compare_whole_voice_summaries() {
    let config = host_audio_fixture(true, ExpectedHostAudioState::default());
    let mut details = Vec::new();
    let mut runner = build_host_audio_runner(&mut details, Some(&config)).unwrap();
    runner.engine.play_intent_with_render_summary(&playback_intent());
    let actual_voices: Vec<_> = runner.engine.active_voices().iter().cloned().collect();
    let mut expected_voices = actual_voices.clone();
    expected_voices[0].remaining_frame_count = 1;
    let config = host_audio_fixture(
        true,
        ExpectedHostAudioState {
            active_voices: Some(expected_voices.clone()),
            ..ExpectedHostAudioState::default()
        },
    );

    validate_host_audio(&mut details, Some(&config), Some(&runner));

    assert_eq!(
        details,
        vec![format!(
            "host_audio.active_voices mismatch: expected {:?}, got {:?}",
            expected_voices, actual_voices
        )]
    );
}

#[test]
fn missing_last_event_is_reported_only_when_an_event_type_is_expected() {
    let config = host_audio_fixture(false, ExpectedHostAudioState::default());
    let mut details = Vec::new();
    let runner = build_host_audio_runner(&mut details, Some(&config)).unwrap();
    let state = runner.engine.state();

    validate_expected_host_audio_last_event(&mut details, &state, &ExpectedHostAudioState::default());
    assert!(details.is_empty());

    let expect = ExpectedHostAudioState {
        last_event_type: Some(ExpectedHostAudioEventType::Ignored),
        ..ExpectedHostAudioState::default()
    };
    validate_expected_host_audio_last_event(&mut details, &state, &expect);
    assert_eq!(details, vec!["host_audio.last_event mismatch: expected event, got None".to_string()]);
}

#[test]
fn fixture_runner_advances_voices_by_each_frame_count_in_turn() {
    let config = host_audio_fixture(true, ExpectedHostAudioState::default());
    let mut details = Vec::new();
    let mut runner = build_host_audio_runner(&mut details, Some(&config)).unwrap();
    runner.engine.play_intent_with_render_summary(&playback_intent());
    let total = runner.engine.active_voices()[0].total_frame_count;

    runner.advance_voice_frames(&vec![total - 10, 4]);
    assert_eq!(runner.engine.active_voices()[0].remaining_frame_count, 6);

    runner.advance_voice_frames(&vec![6]);
    let state = runner.engine.state();
    assert_eq!(state.active_voice_count, 0);
    assert_eq!(state.completed_voice_count, 1);
}

#[test]
fn host_audio_report_is_skipped_without_a_host_audio_section() {
    let mut details = vec!["kept".to_string()];
    validate_host_audio(&mut details, None, None);
    assert_eq!(details, vec!["kept".to_string()]);
}


#[test]
fn routed_outputs_play_click_and_release_in_order() {
    let config = host_audio_fixture(true, ExpectedHostAudioState::default());
    let mut details = Vec::new();
    let mut runner = build_host_audio_runner(&mut details, Some(&config)).unwrap();
    let intent = playback_intent();
    let release = SampleReleaseIntent {
        selected_track: intent.selected_track,
        program_index: intent.program_index,
        program_name: intent.program_name.clone(),
        bank: intent.bank,
        pad_number: intent.pad_number,
        sample_id: intent.sample_id.clone(),
        sample_name: intent.sample_name.clone(),
        release_velocity: 0,
    };
    let outputs = vec![
        HostAudioOutput::SamplePlayback { intent: intent.clone() },
        HostAudioOutput::Other,
        HostAudioOutput::MetronomeClick { intent: click_intent(0, true) },
        HostAudioOutput::SampleRelease { intent: release },
    ];

    route_host_audio_outputs(&mut runner, &outputs);

    let state = runner.engine.state();
    assert_eq!(state.queued_render_count, 2);
    assert_eq!(state.released_voice_count, 1);
    assert_eq!(state.active_voice_count, 1);
    assert_eq!(state.active_voices[0].render_kind, AudioRenderKind::CountInClick);
    let captures = runner.engine.backend().captured_renders();
    assert_eq!(captures.len(), 2);
    assert_eq!(captures[0].summary.render_kind, AudioRenderKind::SamplePlayback);
    assert_eq!(captures[1].summary.accent, Some(true));
    assert!(matches!(state.last_event, Some(HostAudioEvent::Released { .. })));
}

#[test]
fn runtime_wav_fixture_file_names_keep_only_ascii_letters_and_digits() {

    assert_eq!(
        runtime_wav_fixture_file_name("core.sample/import wav-é", 4242, 3, 1_700_000_000_123_456_789),
        "mpc_conformance_core_sample_import_wav___4242_3_1700000000123456789.wav"
    );
    assert_eq!(
        runtime_wav_fixture_file_name("", 0, 0, u128::MAX),
        format!("mpc_conformance__0_0_{}.wav", u128::MAX)
    );
}

#[test]
fn project_json_boundary_accepts_metadata_only_files() {

    let parsed = Ok(JsonValue::Object(vec![
        ("rights_boundary".to_string(), JsonValue::Text("metadata_only_no_audio_bytes".to_string())),
        ("version".to_string(), JsonValue::Number("1".to_string())),
        ("samples".to_string(), JsonValue::Array(vec![JsonValue::Null, JsonValue::Bool(true)])),
    ]));
    let mut details = Vec::new();

    validate_parsed_project_json_boundary(&mut details, &parsed);

    assert!(details.is_empty(), "{details:?}");
}

#[test]
fn project_json_boundary_reports_wrong_boundary_and_forbidden_paths_in_document_order() {

    let sample = JsonValue::Object(vec![
        ("name".to_string(), JsonValue::Text("KICK".to_string())),
        ("sample_file_path".to_string(), JsonValue::Text("/tmp/kick.wav".to_string())),
    ]);
    let document = JsonValue::Object(vec![
        ("audio_bytes".to_string(), JsonValue::Object(vec![("file_path".to_string(), JsonValue::Null)])),
        ("rights_boundary".to_string(), JsonValue::Text("anything".to_string())),
        ("samples".to_string(), JsonValue::Array(vec![JsonValue::Null, sample])),
    ]);
    let mut paths = Vec::new();
    collect_forbidden_project_json_keys(&document, "", &mut paths);
    assert_eq!(
        paths,
        vec![
            "audio_bytes".to_string(),
            "audio_bytes.file_path".to_string(),
            "samples[1].sample_file_path".to_string(),
        ]
    );

    let mut details = Vec::new();
    validate_parsed_project_json_boundary(&mut details, &Ok(document));
    assert_eq!(
        details,
        vec![
            format!(
                "project_round_trip.file.saved_json rights_boundary mismatch: expected {:?}, got {:?}",
                "metadata_only_no_audio_bytes",
                Some("anything")
            ),
            format!(
                "project_round_trip.file.saved_json contains rights-unsafe fields: {:?}",
                paths
            ),
        ]
    );
}

#[test]
fn project_json_boundary_reports_missing_boundary_and_parse_errors() {

    let mut details = Vec::new();
    validate_parsed_project_json_boundary(&mut details, &Ok(JsonValue::Array(Vec::new())));
    validate_parsed_project_json_boundary(&mut details, &Err("EOF while parsing a value at line 1 column 0".to_string()));
    assert_eq!(
        details,
        vec![
            "project_round_trip.file.saved_json rights_boundary mismatch: expected \"metadata_only_no_audio_bytes\", got None".to_string(),
            "project_round_trip.file.saved_json parse error: EOF while parsing a value at line 1 column 0".to_string(),
        ]
    );
}

#[test]
fn saved_project_text_is_parsed_before_its_boundary_is_checked() {
    let mut details = Vec::new();
    validate_project_file_json_boundary(
        &mut details,
        r#"{"rights_boundary": "metadata_only_no_audio_bytes", "pads": [{"sample_file_path": "/tmp/a.wav"}]}"#,
    );
    assert_eq!(
        details,
        vec![format!(
            "project_round_trip.file.saved_json contains rights-unsafe fields: {:?}",
            vec!["pads[0].sample_file_path"]
        )]
    );

    let mut details = Vec::new();
    validate_project_file_json_boundary(&mut details, r#"{"rights_boundary": "metadata_only_no_audio_bytes", "version": 2}"#);
    assert!(details.is_empty(), "{details:?}");

    let mut details = Vec::new();
    validate_project_file_json_boundary(&mut details, "not json");
    assert_eq!(details.len(), 1);
    assert!(details[0].starts_with("project_round_trip.file.saved_json parse error: "), "{details:?}");
    assert!(details[0].len() > "project_round_trip.file.saved_json parse error: ".len());
}

#[test]
fn push_mismatch_reports_only_differing_texts() {
    let mut details = Vec::new();
    push_mismatch(&mut details, "x", "1", "1");
    assert!(details.is_empty());
    push_mismatch(&mut details, "x", "1", "2");
    assert_eq!(details, vec!["x mismatch: expected 1, got 2".to_string()]);
}
