//! What the editor panel shows.

use audio_tools::editor::{
    AudioEditorDrag, AudioEditorSnap, AudioEditorState, AudioEditorTool, FrequencyScale,
};
use audio_tools::host::AudioEditorHost;
use audio_tools::target::{SpectralSelection, WaveformFileMeta};
use audio_tools::timeline::{
    AudioClipStretchState, AudioImportState, BeatPosition, ClipState, ClipType, EnvelopeCurve,
    EnvelopePoint, StretchAlgorithm, StretchMode, TimelineSelection, TimelineState, TrackState,
    WarpMarker,
};
use audio_tools::view_model::{
    selection_in_view, source_summary, stretch_mode_name, SpectrogramPane, ViewLabels,
    ViewMeasures,
};

fn clip() -> ClipState<f32> {
    ClipState {
        id: "a".to_string(),
        name: "Kick".to_string(),
        clip_type: ClipType::Audio { source_path: Some("/tmp/kick.wav".to_string()) },
        asset_key: Some("asset".to_string()),
        audio_import: AudioImportState::Ready,
        start_beat: 8.0,
        duration_beats: 4.0,
        offset_beats: 0.5,
        gain: 1.0,
        stretch: AudioClipStretchState {
            mode: StretchMode::Warp,
            algorithm: StretchAlgorithm::PhaseVocoder,
            preserve_pitch: false,
            bpm_source: Some(120.0),
            bpm_target: None,
            time_ratio: 1.0,
            reverse: true,
            denoise_amount: 0.25,
            channel_transform: 6,
            fade_in_ms: 0.0,
            fade_out_ms: 0.0,
            gain_envelope: vec![EnvelopePoint {
                id: 4,
                time: 0.5,
                value_db: -3.0,
                curve: EnvelopeCurve::Linear,
            }],
            warp_markers: vec![WarpMarker {
                id: 3,
                source_sample: 100,
                timeline_beat: BeatPosition { beat: 9.0, rank: 90 },
                locked: true,
            }],
            source_start_samples: 10,
            source_end_samples: 0,
            original_duration_samples: 500,
            original_sample_rate: 48_000,
            dirty: false,
        },
    }
}

fn timeline() -> TimelineState<f32> {
    TimelineState {
        tracks: vec![TrackState { color: 7, clips: vec![clip()] }],
        selection: TimelineSelection { selected_clip_ids: vec!["a".to_string()] },
    }
}

fn host() -> AudioEditorHost<f32, u8> {
    AudioEditorHost {
        state: AudioEditorState {
            active_tool: AudioEditorTool::Pointer,
            snap: AudioEditorSnap::Grid,
            zero_crossing_snap: false,
            open_dropdown: None,
            channel_mode: 1,
            view_mode: 2,
            amplitude_scale: 3,
            frequency_scale: FrequencyScale::Logarithmic,
            display_smoothing: 4,
            selection_range: None,
            spectral_selection: Some(SpectralSelection {
                start_frame: 1,
                end_frame: 2,
                min_hz: 3.0,
                max_hz: 4.0,
            }),
            drag: AudioEditorDrag::Idle,
            fitted_clip_id: None,
        },
        last_editing_clip: None,
        active_clip_id: None,
        spectrogram_key: None,
        spectrogram_result: None,
        spectrogram_generation: 0,
        pending_open_tool: None,
        pending_audition: None,
    }
}

fn measures() -> ViewMeasures<f32> {
    ViewMeasures {
        beats_per_bar: 4.0,
        bpm: 120.0,
        gain_db: 0.0,
        pitch_semitones: 0.0,
        fine_cents: 0.0,
        stretch_percent: 100.0,
        follow_tempo: false,
        fade_in_beats: 0.0,
        fade_out_beats: 0.0,
        playing: true,
        playhead: 1.25,
        playhead_inside: true,
        arrangement_range: Some((0.0, 2.0)),
    }
}

fn labels() -> ViewLabels {
    ViewLabels {
        selection_start: "00:00.00".to_string(),
        selection_end: "00:01.00".to_string(),
        selection_duration: "00:01.00".to_string(),
        peak: Some("-3.0 dB".to_string()),
    }
}

#[test]
fn the_panel_shows_the_active_clip() {
    let host = host();
    let meta = Some(WaveformFileMeta { sample_rate: 48_000, channels: 2, total_frames: 900 });
    let state = timeline();
    let model =
        host.build_view_model(&state, meta, measures(), &vec![1.0], labels()).unwrap();
    assert_eq!(model.clip_id, "a");
    assert_eq!(model.clip_name, "Kick");
    assert_eq!(model.file_label.as_deref(), Some("kick.wav"));
    assert_eq!(model.source_path.as_deref(), Some("/tmp/kick.wav"));
    assert_eq!((model.source_start_frame, model.source_end_frame), (10, 900));
    assert_eq!((model.start_beat, model.duration_beats, model.offset_beats), (8.0, 4.0, 0.5));
    assert_eq!(model.track_color, 7);
    assert_eq!((model.view_mode, model.amplitude_scale, model.channel_mode), (2, 3, 1));
    assert_eq!(model.frequency_scale, FrequencyScale::Logarithmic);
    assert_eq!(model.display_smoothing, 4);
    assert_eq!(model.playhead_in_clip, Some(1.25));
    assert_eq!(model.selection_range, Some((0.0, 2.0)));
    assert_eq!(model.spectral_selection.unwrap().end_frame, 2);
    assert_eq!(model.gain_envelope[0].id, 4);
    assert_eq!(model.original_bpm, Some(120.0));
    assert_eq!(model.stretch_mode, "Warp");
    assert!(model.reverse);
    assert_eq!(model.denoise_amount, 0.25);
    assert_eq!(model.clip_channel, 6);
    assert_eq!(model.sample_rate, 48_000);
    assert_eq!(model.warp_markers.len(), 1);
    assert_eq!(model.warp_markers[0].rel_beat, 1.0);
    assert!(model.warp_markers[0].locked);
    assert_eq!(model.selection_start_label, "00:00.00");
    assert_eq!(model.selection_end_label, "00:01.00");
    assert_eq!(model.selection_duration_label, "00:01.00");
    assert_eq!(model.peak_label, "-3.0 dB");
    assert_eq!(model.source_summary, "48 kHz · 2 ch");
    assert_eq!(model.measures.bpm, 120.0);
}

#[test]
fn what_is_missing_is_shown_as_a_dash() {
    let host = host();
    let mut state = timeline();
    state.tracks[0].clips[0].asset_key = None;
    state.tracks[0].clips[0].clip_type = ClipType::Audio { source_path: None };
    let mut paused = measures();
    paused.playing = false;
    paused.arrangement_range = None;
    let model = host.build_view_model(&state, None, paused, &vec![1.0], labels()).unwrap();
    assert_eq!(model.file_label, None);
    assert_eq!(model.selection_start_label, "—");
    assert_eq!(model.selection_end_label, "—");
    assert_eq!(model.selection_duration_label, "—");
    assert_eq!(model.peak_label, "—");
    assert_eq!(model.playhead_in_clip, None);
    assert_eq!(model.sample_rate, 0);
    assert_eq!(model.source_end_frame, 500);
    assert_eq!(model.source_summary, "Preparing source…");
}

#[test]
fn without_a_clip_there_is_no_model() {
    let host = host();
    let mut state = timeline();
    state.selection.selected_clip_ids.clear();
    assert!(host.build_view_model(&state, None, measures(), &vec![], labels()).is_none());
}

#[test]
fn sources_are_summed_up() {
    let meta = WaveformFileMeta { sample_rate: 44_100, channels: 1, total_frames: 0 };
    assert_eq!(source_summary(Some(meta), &AudioImportState::Pending), "44 kHz · 1 ch");
    assert_eq!(
        source_summary(None, &AudioImportState::Failed { message: "x".to_string() }),
        "Source unavailable"
    );
    assert_eq!(source_summary(None, &AudioImportState::Ready), "Preparing source…");
}

#[test]
fn the_spectrogram_lane_tells_how_the_analysis_stands() {
    let mut host = host();
    assert!(matches!(
        host.spectrogram_pane(),
        SpectrogramPane::Loading { label: "Preparing spectrogram…" }
    ));
    host.spectrogram_result = Some(Ok(9));
    assert!(matches!(host.spectrogram_pane(), SpectrogramPane::Ready { rendered: 9 }));
    host.spectrogram_result = Some(Err("broken".to_string()));
    assert!(matches!(
        host.spectrogram_pane(),
        SpectrogramPane::Failed { message } if message == "broken"
    ));
}

#[test]
fn the_editors_own_selection_comes_first() {
    assert_eq!(selection_in_view(Some((1, 2)), Some((3, 4))), Some((1, 2)));
    assert_eq!(selection_in_view(None, Some((3, 4))), Some((3, 4)));
    assert_eq!(selection_in_view::<i32>(None, None), None);
}

#[test]
fn stretch_modes_have_names() {
    assert_eq!(stretch_mode_name(StretchMode::Off), "Off");
    assert_eq!(stretch_mode_name(StretchMode::Resample), "Resample");
    assert_eq!(stretch_mode_name(StretchMode::TempoSync), "Tempo Sync");
    assert_eq!(stretch_mode_name(StretchMode::Manual), "Manual");
    assert_eq!(stretch_mode_name(StretchMode::Warp), "Warp");
}
