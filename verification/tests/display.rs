use mpc_audio::display::{
    DesktopAudioDeviceOrigin, audio_source_label, clamp_port_index, count_in_click_summary_label, host_audio_error_message,
    midi_input_channel_text, midi_note_range_text, mute_group_text, optional_u64_text, optional_u8_text,
    project_file_status_text, project_snapshot_status_text, sample_name_from_path, tempo_text, tune_text,
};
use mpc_audio::fixture::{
    ExpectedMidiInputChannel, RuntimeWavFixtureError, RuntimeWavImport, channel_from_text, channel_from_u64,
    host_audio_event_backend_name, host_audio_event_frame_count, host_audio_event_render_kind,
    host_audio_event_source_kind, host_audio_event_stolen_voice_id, host_audio_event_type,
    host_audio_event_voice_id, ExpectedHostAudioEventType,
};
use mpc_audio::{
    AudioRenderError, AudioRenderKind, AudioRenderSettings, AudioSourceKind, CountInClickIntent,
    HostAudioBackendError, HostAudioEngine, HostAudioError, HostAudioEvent, HostAudioIgnoreReason,
    InvalidBackendReceiptError, InvalidRenderedAudioError, NullAudioBackend, PadBank,
    SamplePlaybackIntent, render_count_in_click,
};

fn playback_intent() -> SamplePlaybackIntent {
    SamplePlaybackIntent {
        selected_track: 1,
        program_index: 1,
        program_name: "Program01".to_string(),
        bank: PadBank::B,
        pad_number: 3,
        sample_id: "synthetic_b_03".to_string(),
        sample_name: "SYN-B03".to_string(),
        velocity: 90,
        level: 100,
        pan: 0,
        tune_cents: 0,
        start_frame: 0,
        end_frame: 999,
        window_length_frames: 1_000,
    }
}

#[test]
fn device_origin_labels() {
    assert_eq!(DesktopAudioDeviceOrigin::Default.label(), "default device");
    assert_eq!(DesktopAudioDeviceOrigin::Selected.label(), "selected device");
}

#[test]
fn tempo_and_tune_texts_match_their_formats() {
    assert_eq!(tempo_text(12_050), "120.50 BPM");
    assert_eq!(tempo_text(9_005), "90.05 BPM");
    assert_eq!(tempo_text(0), "0.00 BPM");
    for tune in [0i16, 5, -5, 99, -120, 1_200, i16::MIN, i16::MAX] {
        assert_eq!(tune_text(tune), format!("{tune:+04}c"));
    }
    assert_eq!(tune_text(-5), "-005c");
    assert_eq!(tune_text(1_200), "+1200c");
}

#[test]
fn mute_group_and_midi_texts() {
    assert_eq!(mute_group_text(0), "off");
    assert_eq!(mute_group_text(7), "07");
    assert_eq!(mute_group_text(32), "32");
    assert_eq!(midi_input_channel_text(None), "Omni");
    assert_eq!(midi_input_channel_text(Some(3)), "Ch 03");
    assert_eq!(midi_input_channel_text(Some(16)), "Ch 16");
    assert_eq!(midi_note_range_text(36), "36..=51");
    assert_eq!(midi_note_range_text(250), "250..=255");
}

#[test]
fn optional_numbers_and_port_indexes() {
    assert_eq!(optional_u8_text(Some(4)), "4");
    assert_eq!(optional_u8_text(None), "?");
    assert_eq!(optional_u64_text(Some(18_446_744_073_709_551_615)), "18446744073709551615");
    assert_eq!(optional_u64_text(None), "?");
    assert_eq!(clamp_port_index(5, 0), 0);
    assert_eq!(clamp_port_index(5, 3), 2);
    assert_eq!(clamp_port_index(1, 3), 1);
}

#[test]
fn saved_status_texts_mention_version_and_size_only_when_both_are_known() {
    assert_eq!(project_snapshot_status_text("saved", Some(1), Some(2_048)), "Snapshot: v1, 2048 bytes, saved");
    assert_eq!(project_snapshot_status_text("saved", Some(1), None), "saved");
    assert_eq!(project_file_status_text("loaded", Some(2), Some(10)), "Project file: v2, 10 bytes, loaded");
    assert_eq!(project_file_status_text("no file", None, Some(10)), "no file");
}

#[test]
fn count_in_click_labels_name_accent_bar_beat_and_tick() {
    let settings = AudioRenderSettings::new(48_000, 256).unwrap();
    let accent = CountInClickIntent { count_in_tick: 0, bar_index: 1, beat_index: 0, accent: true };
    let click = CountInClickIntent { count_in_tick: 96, bar_index: 1, beat_index: 1, accent: false };
    let accent_summary = render_count_in_click(&accent, settings).unwrap().summary;
    let click_summary = render_count_in_click(&click, settings).unwrap().summary;
    assert_eq!(count_in_click_summary_label(&accent_summary), "count-in accent bar 1 beat 0 tick 0");
    assert_eq!(count_in_click_summary_label(&click_summary), "count-in click bar 1 beat 1 tick 96");
}

#[test]
fn sample_names_come_from_trimmed_file_stems() {
    assert_eq!(sample_name_from_path("local-assets/samples/kick.wav"), "kick");
    assert_eq!(sample_name_from_path("/tmp/ snare one .wav"), "snare one");
    assert_eq!(sample_name_from_path("/tmp/   .wav"), "USER-WAV");
    assert_eq!(sample_name_from_path(""), "USER-WAV");
    assert_eq!(sample_name_from_path("archive.tar.gz"), "archive.tar");
}

#[test]
fn sample_names_trim_unicode_whitespace() {
    assert_eq!(sample_name_from_path("/tmp/\u{3000}\tkick  a\u{a0}.wav"), "kick  a");
    assert_eq!(sample_name_from_path("/tmp/\u{2003}\u{85}.wav"), "USER-WAV");
}

#[test]
fn error_messages_describe_each_error() {
    let render = AudioRenderError::FrameCountTooLarge { frame_count: 192_001, max_frame_count: 192_000 };
    assert_eq!(render.message(), "frame count 192001 exceeds maximum 192000");
    let low = AudioRenderError::SampleRateBelowMinimum { sample_rate_hz: 7_999, min_sample_rate_hz: 8_000 };
    assert_eq!(low.message(), "sample rate 7999 Hz is below minimum 8000 Hz");
    let rendered = InvalidRenderedAudioError::FrameCountMismatch {
        settings_frame_count: 4,
        summary_frame_count: 5,
        actual_frame_count: 6,
    };
    assert_eq!(
        rendered.message(),
        "settings frame count 4, summary frame count 5, and actual frame count 6 must match"
    );
    assert_eq!(
        InvalidBackendReceiptError::PlayedWithoutQueued.message(),
        "played receipts must also be queued"
    );
    let backend = HostAudioBackendError::backend_unavailable("device", "no output");
    assert_eq!(backend.message(), "device unavailable: no output");
    assert_eq!(
        HostAudioError::Backend { error: backend }.message(),
        "backend failed: device unavailable: no output"
    );
    assert_eq!(
        HostAudioError::Render { error: render }.message(),
        "render failed: frame count 192001 exceeds maximum 192000"
    );
}

#[test]
fn host_audio_error_message_is_only_for_failures() {
    let failed = HostAudioEvent::Failed {
        backend_name: "device".to_string(),
        error: HostAudioError::Backend { error: HostAudioBackendError::backend_unavailable("device", "gone") },
        summary: None,
    };
    assert_eq!(
        host_audio_error_message(&failed),
        Some("Host audio failed: backend failed: device unavailable: gone".to_string())
    );
    let ignored = HostAudioEvent::Ignored {
        backend_name: "null".to_string(),
        reason: HostAudioIgnoreReason::Disabled,
    };
    assert_eq!(host_audio_error_message(&ignored), None);
}

#[test]
fn event_accessors_read_enqueued_and_failed_events() {
    let settings = AudioRenderSettings::new(48_000, 128).unwrap();
    let mut engine = HostAudioEngine::enabled(NullAudioBackend::named("null-out"), settings).unwrap();
    let event = engine.play_intent(&playback_intent());
    assert_eq!(host_audio_event_type(&event), ExpectedHostAudioEventType::Enqueued);
    assert_eq!(host_audio_event_backend_name(&event), "null-out");
    assert_eq!(host_audio_event_render_kind(&event), Some(AudioRenderKind::SamplePlayback));
    assert_eq!(host_audio_event_source_kind(&event), Some(AudioSourceKind::RightsSafeGenerated));
    assert_eq!(host_audio_event_frame_count(&event), Some(128));
    assert_eq!(host_audio_event_voice_id(&event), Some(1));
    assert_eq!(host_audio_event_stolen_voice_id(&event), None);

    let failed = HostAudioEvent::Failed {
        backend_name: "x".to_string(),
        error: HostAudioError::InvalidBackendReceipt { error: InvalidBackendReceiptError::PlayedWithoutQueued },
        summary: None,
    };
    assert_eq!(host_audio_event_type(&failed), ExpectedHostAudioEventType::Failed);
    assert_eq!(host_audio_event_render_kind(&failed), None);
    assert_eq!(host_audio_event_frame_count(&failed), None);
    assert_eq!(host_audio_event_voice_id(&failed), None);
}

#[test]
fn midi_input_channel_expectations() {
    assert_eq!(channel_from_u64(1), Ok(ExpectedMidiInputChannel::Channel(1)));
    assert_eq!(channel_from_u64(16), Ok(ExpectedMidiInputChannel::Channel(16)));
    assert_eq!(channel_from_u64(0), Err("MIDI input channel must be 1..=16"));
    assert_eq!(channel_from_u64(17), Err("MIDI input channel must be 1..=16"));
    assert_eq!(channel_from_u64(u64::MAX), Err("MIDI input channel must be 1..=16"));
    assert_eq!(ExpectedMidiInputChannel::Omni.state_value(), None);
    assert_eq!(ExpectedMidiInputChannel::Channel(9).state_value(), Some(9));
}

#[test]
fn runtime_wav_fixture_bytes_form_a_canonical_pcm16_file() {
    let import = RuntimeWavImport {
        sample_name: "TONE".to_string(),
        channels: 2,
        sample_rate_hz: 44_100,
        samples: vec![1, -1, 256, -32_768],
    };
    let bytes = import.wav_bytes().expect("valid import");
    let mut expected = Vec::new();
    expected.extend_from_slice(b"RIFF");
    expected.extend_from_slice(&(36u32 + 8).to_le_bytes());
    expected.extend_from_slice(b"WAVE");
    expected.extend_from_slice(b"fmt ");
    expected.extend_from_slice(&16u32.to_le_bytes());
    expected.extend_from_slice(&1u16.to_le_bytes());
    expected.extend_from_slice(&2u16.to_le_bytes());
    expected.extend_from_slice(&44_100u32.to_le_bytes());
    expected.extend_from_slice(&(44_100u32 * 4).to_le_bytes());
    expected.extend_from_slice(&4u16.to_le_bytes());
    expected.extend_from_slice(&16u16.to_le_bytes());
    expected.extend_from_slice(b"data");
    expected.extend_from_slice(&8u32.to_le_bytes());
    for sample in [1i16, -1, 256, -32_768] {
        expected.extend_from_slice(&sample.to_le_bytes());
    }
    assert_eq!(bytes, expected);
}

#[test]
fn runtime_wav_fixture_errors_come_in_check_order() {
    let base = RuntimeWavImport {
        sample_name: "TONE".to_string(),
        channels: 1,
        sample_rate_hz: 44_100,
        samples: vec![0, 1, 2],
    };
    let three_channels = RuntimeWavImport { channels: 3, sample_rate_hz: 0, ..base.clone() };
    assert_eq!(three_channels.wav_bytes(), Err(RuntimeWavFixtureError::UnsupportedChannelCount { channels: 3 }));
    assert_eq!(
        RuntimeWavFixtureError::UnsupportedChannelCount { channels: 3 }.message(),
        "runtime WAV fixture supports mono or stereo PCM16 only, got 3 channels"
    );
    let silent_rate = RuntimeWavImport { sample_rate_hz: 0, samples: Vec::new(), ..base.clone() };
    assert_eq!(silent_rate.wav_bytes(), Err(RuntimeWavFixtureError::ZeroSampleRate));
    let empty = RuntimeWavImport { samples: Vec::new(), ..base.clone() };
    assert_eq!(empty.wav_bytes(), Err(RuntimeWavFixtureError::EmptySamples));
    assert_eq!(
        RuntimeWavFixtureError::EmptySamples.message(),
        "runtime WAV fixture samples must not be empty"
    );
    let odd_stereo = RuntimeWavImport { channels: 2, ..base.clone() };
    assert_eq!(
        odd_stereo.wav_bytes(),
        Err(RuntimeWavFixtureError::SampleCountNotDivisible { sample_count: 3, channels: 2 })
    );
    assert_eq!(
        RuntimeWavFixtureError::SampleCountNotDivisible { sample_count: 3, channels: 2 }.message(),
        "runtime WAV fixture sample count 3 is not divisible by channel count 2"
    );
    let fast = RuntimeWavImport { channels: 2, sample_rate_hz: u32::MAX, samples: vec![0, 0], ..base };
    assert_eq!(fast.wav_bytes(), Err(RuntimeWavFixtureError::ByteRateOverflow));
    assert_eq!(
        RuntimeWavFixtureError::ByteRateOverflow.message(),
        "runtime WAV fixture byte rate overflow"
    );
}

#[test]
fn midi_input_channel_text_accepts_omni_in_any_ascii_case() {
    assert_eq!(channel_from_text("omni"), Ok(ExpectedMidiInputChannel::Omni));
    assert_eq!(channel_from_text("OMNI"), Ok(ExpectedMidiInputChannel::Omni));
    assert_eq!(channel_from_text("OmNi"), Ok(ExpectedMidiInputChannel::Omni));
    assert_eq!(
        channel_from_text("omnis"),
        Err("invalid MIDI input channel \"omnis\", expected \"omni\" or 1..=16".to_string())
    );
    assert_eq!(
        channel_from_text(""),
        Err("invalid MIDI input channel \"\", expected \"omni\" or 1..=16".to_string())
    );
}

#[test]
fn expected_state_parses_omni_midi_input_channel_as_explicit_expectation() {
    let expected = channel_from_text("omni").expect("explicit omni should parse as a MIDI input channel expectation");
    assert_eq!(expected, ExpectedMidiInputChannel::Omni);
    assert_eq!(expected.state_value(), None);
}

#[test]
fn generated_renders_are_labelled_as_such() {
    let settings = AudioRenderSettings::new(48_000, 64).unwrap();
    let click = CountInClickIntent { count_in_tick: 0, bar_index: 0, beat_index: 0, accent: false };
    let summary = render_count_in_click(&click, settings).unwrap().summary;
    assert_eq!(audio_source_label(&summary), "Generated render");
}
