//! From the arrangement to what the editor draws.

use audio_tools::adapter::{
    clip_type_hint_for_selection, column_count, drawn_waveform, first_visible, import_status_label,
    peak_range, sample_candidates, sample_range, sample_to_peak_index, selected_audio_clip,
    waveform_source, waveform_step, ClipTypeHint, WaveformDisplayStatus, WaveformSource,
    WaveformStep,
};
use audio_tools::timeline::{
    AudioClipStretchState, AudioImportState, ClipState, ClipType, StretchAlgorithm, StretchMode,
    TimelineSelection, TimelineState, TrackState,
};

fn stretch() -> AudioClipStretchState<f32> {
    AudioClipStretchState {
        mode: StretchMode::Off,
        algorithm: StretchAlgorithm::PhaseVocoder,
        preserve_pitch: false,
        bpm_source: None,
        bpm_target: None,
        time_ratio: 1.0,
        reverse: false,
        denoise_amount: 0.0,
        channel_transform: 0,
        fade_in_ms: 0.0,
        fade_out_ms: 0.0,
        gain_envelope: vec![],
        warp_markers: vec![],
        source_start_samples: 0,
        source_end_samples: 0,
        original_duration_samples: 0,
        original_sample_rate: 0,
        dirty: false,
    }
}

fn clip(id: &str, clip_type: ClipType) -> ClipState<f32> {
    ClipState {
        id: id.to_string(),
        name: id.to_string(),
        clip_type,
        asset_key: Some("asset".to_string()),
        audio_import: AudioImportState::Ready,
        start_beat: 0.0,
        duration_beats: 4.0,
        offset_beats: 0.0,
        gain: 1.0,
        stretch: stretch(),
    }
}

fn audio(id: &str) -> ClipState<f32> {
    clip(id, ClipType::Audio { source_path: Some("/kick.wav".to_string()) })
}

fn timeline(tracks: Vec<Vec<ClipState<f32>>>, selected: &[&str]) -> TimelineState<f32> {
    TimelineState {
        tracks: tracks
            .into_iter()
            .enumerate()
            .map(|(i, clips)| TrackState { color: i as u32, clips })
            .collect(),
        selection: TimelineSelection {
            selected_clip_ids: selected.iter().map(|id| id.to_string()).collect(),
        },
    }
}

#[test]
fn imports_say_how_far_they_are() {
    assert_eq!(import_status_label(&AudioImportState::Pending), ("Queued".to_string(), false, true));
    assert_eq!(
        import_status_label(&AudioImportState::Probing),
        ("Probing metadata…".to_string(), false, true)
    );
    assert_eq!(
        import_status_label(&AudioImportState::Decoding),
        ("Preparing waveform…".to_string(), false, true)
    );
    assert_eq!(
        import_status_label(&AudioImportState::GeneratingPeaks { percent: 42 }),
        ("Building waveform… 42%".to_string(), false, true)
    );
    assert_eq!(
        import_status_label(&AudioImportState::GeneratingPeaks { percent: 250 }),
        ("Building waveform… 100%".to_string(), false, true)
    );
    assert_eq!(import_status_label(&AudioImportState::Ready), ("Ready".to_string(), false, false));
    assert_eq!(
        import_status_label(&AudioImportState::Failed { message: "no disk".to_string() }),
        ("no disk".to_string(), true, false)
    );
}

#[test]
fn the_first_selected_audio_clip_is_the_target() {
    let state = timeline(
        vec![vec![clip("midi", ClipType::Midi)], vec![audio("a"), audio("b")]],
        &["missing", "midi", "b", "a"],
    );
    let (track, found) = selected_audio_clip(&state).unwrap();
    assert_eq!(found.id, "b");
    assert_eq!(track.color, 1);
    let state = timeline(vec![vec![clip("midi", ClipType::Midi)]], &["midi"]);
    assert!(selected_audio_clip(&state).is_none());
    let state = timeline(vec![vec![audio("a")]], &[]);
    assert!(selected_audio_clip(&state).is_none());
}

#[test]
fn the_first_clip_with_an_id_counts() {
    let state = timeline(vec![vec![audio("x")], vec![audio("a")], vec![audio("a")]], &["a"]);
    assert_eq!(state.find_clip("a").unwrap().0.color, 1);
    assert!(state.find_clip("b").is_none());
}

#[test]
fn the_editor_suits_the_first_selected_clip() {
    let tracks = || {
        vec![vec![
            audio("a"),
            clip("m", ClipType::Midi),
            clip("v", ClipType::Video),
        ]]
    };
    assert_eq!(
        clip_type_hint_for_selection(&timeline(tracks(), &["a", "m"])),
        Some(ClipTypeHint::Audio)
    );
    assert_eq!(
        clip_type_hint_for_selection(&timeline(tracks(), &["m", "a"])),
        Some(ClipTypeHint::Midi)
    );
    assert_eq!(clip_type_hint_for_selection(&timeline(tracks(), &["v", "a"])), None);
    assert_eq!(clip_type_hint_for_selection(&timeline(tracks(), &["gone"])), None);
    assert_eq!(clip_type_hint_for_selection(&timeline(tracks(), &[])), None);
}

#[test]
fn a_waveform_needs_a_file_and_an_asset() {
    let midi = clip("m", ClipType::Midi);
    assert!(matches!(
        waveform_source(&midi),
        WaveformSource::Missing { label: "No source file" }
    ));
    let unlinked = clip("a", ClipType::Audio { source_path: None });
    assert!(matches!(
        waveform_source(&unlinked),
        WaveformSource::Missing { label: "No source file" }
    ));
    let mut orphan = audio("a");
    orphan.asset_key = None;
    assert!(matches!(
        waveform_source(&orphan),
        WaveformSource::Missing { label: "No source asset" }
    ));
    let whole = audio("a");
    match waveform_source(&whole) {
        WaveformSource::Found { asset_key, source_path } => {
            assert_eq!(asset_key, "asset");
            assert_eq!(source_path, "/kick.wav");
        }
        WaveformSource::Missing { .. } => panic!("the clip has a source"),
    }
}

#[test]
fn the_lane_follows_the_cache() {
    let failed = AudioImportState::Failed { message: "gone".to_string() };
    match waveform_step::<u8, u8>(&failed, None) {
        WaveformStep::Show { model } => {
            assert!(!model.ready && model.is_error && !model.show_progress);
            assert_eq!(model.status_label, "gone");
            assert!(model.columns.is_empty() && model.samples.is_empty());
        }
        _ => panic!("nothing is cached"),
    }
    match waveform_step::<u8, u8>(&failed, Some(WaveformDisplayStatus::Pending)) {
        WaveformStep::Show { model } => {
            assert!(!model.ready && !model.is_error && model.show_progress);
        }
        _ => panic!("peaks are pending"),
    }
    assert!(matches!(
        waveform_step::<u8, u8>(&failed, Some(WaveformDisplayStatus::Ready)),
        WaveformStep::Draw
    ));
    assert!(matches!(
        waveform_step::<u8, u8>(&failed, Some(WaveformDisplayStatus::Partial)),
        WaveformStep::Draw
    ));
    let broken = WaveformDisplayStatus::Error { message: "bad".to_string() };
    match waveform_step::<u8, u8>(&failed, Some(broken)) {
        WaveformStep::Failed { message } => assert_eq!(message, "bad"),
        _ => panic!("the cache gave up"),
    }
}

#[test]
fn a_drawn_lane_is_ready_once_it_shows_something() {
    let model = drawn_waveform::<u8, u8>(&AudioImportState::Pending, vec![], vec![]);
    assert!(!model.ready && model.show_progress);
    assert_eq!(model.status_label, "Queued");
    let model = drawn_waveform::<u8, u8>(&AudioImportState::Pending, vec![], vec![7]);
    assert!(model.ready && !model.show_progress && model.status_label.is_empty());
    let model = drawn_waveform::<u8, u8>(&AudioImportState::Ready, vec![1], vec![]);
    assert!(model.ready && model.columns == vec![1]);
}

#[test]
fn columns_are_bounded() {
    assert_eq!(column_count(0), 16);
    assert_eq!(column_count(700), 700);
    assert_eq!(column_count(9_000), 2_048);
}

#[test]
fn peaks_cover_the_samples_between_two_positions() {
    assert_eq!(sample_to_peak_index(1_000, 256), 3);
    assert_eq!(sample_to_peak_index(1_000, 0), 1_000);
    assert_eq!(peak_range(1_000, 200, 256), (0, 4));
    assert_eq!(peak_range(200, 1_000, 256), (0, 4));
    assert_eq!(peak_range(300, 300, 256), (1, 2));
}

#[test]
fn short_ranges_are_drawn_sample_by_sample() {
    assert_eq!(sample_range(10, 20), Some((10, 20)));
    assert_eq!(sample_range(20, 10), Some((10, 20)));
    assert_eq!(sample_range(5, 5), Some((5, 6)));
    assert_eq!(sample_range(0, 32_768), Some((0, 32_768)));
    assert_eq!(sample_range(0, 32_769), None);
}

#[test]
fn candidates_are_the_samples_in_range() {
    let mono = vec![0.0_f32, 0.1, 0.2, 0.3, 0.4];
    let forward = sample_candidates(100, &mono, 101, 104, false, 90, 200);
    assert_eq!(
        forward.iter().map(|c| (c.frame, c.source_offset, c.value)).collect::<Vec<_>>(),
        vec![(101, 11, 0.1), (102, 12, 0.2), (103, 13, 0.3)]
    );
    let reversed = sample_candidates(100, &mono, 0, 102, true, 90, 200);
    assert_eq!(
        reversed.iter().map(|c| (c.frame, c.source_offset)).collect::<Vec<_>>(),
        vec![(100, 99), (101, 98)]
    );
    let before_the_clip = sample_candidates(100, &mono, 100, 101, false, 150, 200);
    assert_eq!(before_the_clip[0].source_offset, 0);
    assert!(sample_candidates(100, &mono, 200, 300, false, 0, 500).is_empty());
}

#[test]
fn only_so_many_points_are_drawn() {
    let places: Vec<Option<u32>> =
        (0..10_000).map(|i| if i % 2 == 0 { Some(i) } else { None }).collect();
    let points = first_visible(&places);
    assert_eq!(points.len(), 4_096);
    assert_eq!(points[4_095], 8_190);
    assert_eq!(first_visible(&vec![None, Some(3), None, Some(1)]), vec![3, 1]);
}
