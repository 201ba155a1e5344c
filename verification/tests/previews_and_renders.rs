//! Previews over the engine's clips, and the frames of a render.

use audio_tools::preview::{
    apply_preview_to_clip, apply_previews_to_snapshot, ClipPreviewOverride, DehumParams,
    EngineClip, EngineClipAudioProcess, EngineProjectSnapshot, PreviewLevels,
};
use audio_tools::render::{
    clip_source_window, frame_count, local_frame, render_region, render_step, render_window,
    spectral_frames, spread_mono, RenderRegion, RenderStep, SPECTRAL_FADE_BINS,
};
use audio_tools::target::{AudioRangeSelection, AudioToolKind};
use audio_tools::timeline::{
    AudioClipStretchState, AudioImportState, ClipState, ClipType, StretchAlgorithm, StretchMode,
    TimelineSelection, TimelineState, TrackState,
};

fn process() -> EngineClipAudioProcess<f64> {
    EngineClipAudioProcess {
        preview_bypass: true,
        extra_gain: 0.5,
        channel_transform: 1,
        dc_remove: false,
        dc_left: 0.1,
        dc_right: 0.2,
        dehum_hz: 0.0,
        dehum_harmonics: 0,
        dehum_reduction_db: 0.0,
        denoise_amount: 0.3,
        effective_time_ratio: 1.0,
        preserve_pitch: false,
        pitch_semitones: 0.0,
        pitch_ratio: 1.0,
    }
}

fn levels() -> PreviewLevels<f64> {
    PreviewLevels { unity: 1.0, extra_gain: 2.0, denoise_amount: 0.75, pitch_ratio: 1.5 }
}

fn plain(clip_id: &str) -> ClipPreviewOverride<f64> {
    ClipPreviewOverride::identity(clip_id.to_string(), 0.0)
}

#[test]
fn a_plain_preview_only_lifts_the_bypass() {
    let mut engine = process();
    apply_preview_to_clip(&mut engine, &plain("a"), &levels());
    assert!(!engine.preview_bypass);
    assert_eq!(engine.extra_gain, 0.5);
    assert_eq!(engine.channel_transform, 1);
    assert_eq!(engine.denoise_amount, 0.3);
    assert!(!engine.preserve_pitch);
}

#[test]
fn a_bypassed_preview_plays_the_clip_as_it_is() {
    let mut engine = process();
    engine.preview_bypass = false;
    let mut preview = plain("a");
    preview.bypass = true;
    preview.channel = Some(9);
    apply_preview_to_clip(&mut engine, &preview, &levels());
    assert!(engine.preview_bypass);
    assert_eq!(engine.extra_gain, 1.0);
    assert_eq!(engine.channel_transform, 1);
}

#[test]
fn a_preview_sets_what_it_names() {
    let mut engine = process();
    let mut preview = plain("a");
    preview.extra_gain = Some(9.0);
    preview.channel = Some(4);
    preview.dc_remove = Some(true);
    preview.dc_left = 0.7;
    preview.dc_right = 0.8;
    preview.dehum = Some(DehumParams { base_hz: 60.0, harmonics: 5, reduction_db: 18.0 });
    preview.denoise_amount = Some(3.0);
    preview.stretch_ratio = Some(1.25);
    preview.pitch_semitones = Some(7.0);
    apply_preview_to_clip(&mut engine, &preview, &levels());
    assert_eq!(engine.extra_gain, 2.0);
    assert_eq!(engine.channel_transform, 4);
    assert!(engine.dc_remove);
    assert_eq!((engine.dc_left, engine.dc_right), (0.7, 0.8));
    assert_eq!(
        (engine.dehum_hz, engine.dehum_harmonics, engine.dehum_reduction_db),
        (60.0, 5, 18.0)
    );
    assert_eq!(engine.denoise_amount, 0.75);
    assert_eq!(engine.effective_time_ratio, 1.25);
    assert_eq!((engine.pitch_semitones, engine.pitch_ratio), (7.0, 1.5));
    assert!(engine.preserve_pitch);
}

#[test]
fn previews_reach_only_their_own_clips() {
    let clip = |id: &str, audio: bool| EngineClip {
        id: id.to_string(),
        audio_process: if audio { Some(process()) } else { None },
    };
    let mut snapshot = EngineProjectSnapshot {
        clips: vec![clip("a", true), clip("b", true), clip("c", false), clip("a", true)],
    };
    let mut preview = plain("a");
    preview.channel = Some(8);
    let silent = plain("c");
    apply_previews_to_snapshot(&mut snapshot, &vec![(preview, levels()), (silent, levels())]);
    assert_eq!(snapshot.clips[0].audio_process.unwrap().channel_transform, 8);
    assert_eq!(snapshot.clips[1].audio_process.unwrap().channel_transform, 1);
    assert!(snapshot.clips[1].audio_process.unwrap().preview_bypass);
    assert!(snapshot.clips[2].audio_process.is_none());
    assert_eq!(snapshot.clips[3].audio_process.unwrap().channel_transform, 8);
    apply_previews_to_snapshot(&mut snapshot, &vec![]);
    assert_eq!(snapshot.clips[0].audio_process.unwrap().channel_transform, 8);
}

#[test]
fn a_render_reads_the_clips_own_window() {
    assert_eq!(render_window(10, 50, 100), (10, 50));
    assert_eq!(render_window(10, 500, 100), (10, 100));
    assert_eq!(render_window(10, 10, 100), (10, 100));
    assert_eq!(render_window(10, 0, 100), (10, 100));
    assert_eq!(render_window(200, 300, 100), (100, 100));
}

#[test]
fn a_render_processes_the_selection_or_everything() {
    let selection = Some(AudioRangeSelection { start_frame: 150, end_frame: 300 });
    assert_eq!(
        render_region(AudioToolKind::Normalize, selection, 100),
        RenderRegion::Part { start: 50, end: 200 }
    );
    assert_eq!(
        render_region(AudioToolKind::Normalize, selection, 200),
        RenderRegion::Part { start: 0, end: 100 }
    );
    let backwards = Some(AudioRangeSelection { start_frame: 300, end_frame: -5 });
    assert_eq!(
        render_region(AudioToolKind::DcOffset, backwards, 100),
        RenderRegion::Part { start: 200, end: 200 }
    );
    assert_eq!(render_region(AudioToolKind::TimePitch, selection, 100), RenderRegion::Whole);
    assert_eq!(render_region(AudioToolKind::Resample, selection, 100), RenderRegion::Whole);
    assert_eq!(
        render_region(AudioToolKind::SpectralProcessor, selection, 100),
        RenderRegion::Whole
    );
    assert_eq!(render_region(AudioToolKind::Normalize, None, 100), RenderRegion::Whole);
}

#[test]
fn frames_are_counted_from_the_window() {
    assert_eq!(local_frame(-5, 0), 0);
    assert_eq!(local_frame(50, 100), 0);
    assert_eq!(local_frame(150, 100), 50);
    assert_eq!(spectral_frames(Some((50, 150)), 100), (0, 50));
    assert_eq!(spectral_frames(None, 100), (0, i64::MAX));
    assert_eq!(frame_count(10, 2), 5);
    assert_eq!(frame_count(10, 0), 10);
    assert_eq!(frame_count(11, 4), 2);
}

#[test]
fn mono_is_spread_over_the_channels() {
    assert_eq!(spread_mono(&vec![1, 2, 3], 2), vec![1, 1, 2, 2, 3, 3]);
    assert_eq!(spread_mono(&vec![1, 2], 0), vec![1, 2]);
    assert_eq!(spread_mono::<i32>(&vec![], 2), Vec::<i32>::new());
}

#[test]
fn a_clip_without_a_trimmed_end_plays_its_whole_source() {
    let clip = |id: &str, start: u64, end: u64| ClipState::<f32> {
        id: id.to_string(),
        name: String::new(),
        clip_type: ClipType::Midi,
        asset_key: None,
        audio_import: AudioImportState::Ready,
        start_beat: 0.0,
        duration_beats: 0.0,
        offset_beats: 0.0,
        gain: 0.0,
        stretch: AudioClipStretchState {
            mode: StretchMode::Off,
            algorithm: StretchAlgorithm::PhaseVocoder,
            preserve_pitch: false,
            bpm_source: None,
            bpm_target: None,
            time_ratio: 1.0,
            reverse: false,
            denoise_amount: 0.0,
            channel_transform: 0,
            fade_in_ms: 0.0,
            fade_out_ms: 0.0,
            gain_envelope: vec![],
            warp_markers: vec![],
            source_start_samples: start,
            source_end_samples: end,
            original_duration_samples: 900,
            original_sample_rate: 0,
            dirty: false,
        },
    };
    let timeline = TimelineState {
        tracks: vec![TrackState { color: 0, clips: vec![clip("a", 10, 50), clip("b", 10, 10)] }],
        selection: TimelineSelection { selected_clip_ids: vec![] },
    };
    assert_eq!(clip_source_window(&timeline, "a"), (10, 50));
    assert_eq!(clip_source_window(&timeline, "b"), (10, 900));
    assert_eq!(clip_source_window(&timeline, "c"), (0, 0));
}

#[test]
fn a_render_needs_samples_and_keeps_what_it_does_not_process() {
    let part = RenderRegion::Part { start: 7, end: 9 };
    assert_eq!(render_step(0, RenderRegion::Whole, 0).unwrap_err(), "clip source window is empty");
    assert_eq!(render_step(0, part, 4).unwrap_err(), "clip source window is empty");
    assert_eq!(render_step(20, RenderRegion::Whole, 0), Ok(RenderStep::ProcessWindow));
    assert_eq!(render_step(20, part, 4), Ok(RenderStep::ProcessRegion { start: 7 }));
    assert_eq!(render_step(20, part, 0), Ok(RenderStep::Keep));
    assert_eq!(SPECTRAL_FADE_BINS, 4);
}
