//! What the canvas shows.

use std::sync::Arc;

use audio_tools::canvas::{
    bucket_count, canvas_layers, extrema, frequency_marks, visible_range, CanvasDiff, CanvasView,
    ColumnSpan, EventTone, WaveformPeaks, MIP_BUCKETS,
};

/// A sample as a level: order is kept, silence is zero.
fn level(sample: f64) -> i32 {
    (sample * 1_000_000.0).round() as i32
}

#[test]
fn peak_columns_agree_between_the_mip_and_the_samples() {
    let mono: Vec<i32> =
        (0..200_000).map(|i| level(((i as f32) * 0.01).sin() as f64 * 0.8)).collect();
    let peaks = WaveformPeaks::build(Arc::new(mono), 1);
    let bucket_frames = 200_000.0 / MIP_BUCKETS as f64;
    let frames_per_pixel = 200_000.0 / 400.0;
    let wide: Vec<ColumnSpan> = (0..400)
        .map(|x| {
            let start = (x as f64 * frames_per_pixel / bucket_frames) as usize;
            let end = ((x + 1) as f64 * frames_per_pixel / bucket_frames).ceil() as usize;
            ColumnSpan::Buckets { start, end }
        })
        .collect();
    let coarse = peaks.columns(&wide);
    assert_eq!(coarse.len(), 400);
    assert!(coarse.iter().any(|(lo, hi)| *lo < level(-0.5) && *hi > level(0.5)));

    let tight: Vec<ColumnSpan> =
        (0..400).map(|x| ColumnSpan::Frames { start: x, end: x + 1 }).collect();
    let fine = peaks.columns(&tight);
    assert_eq!(fine.len(), 400);
    assert!(fine.iter().all(|(lo, hi)| *lo <= *hi));
}

#[test]
fn the_overview_has_a_bounded_number_of_buckets() {
    assert_eq!(bucket_count(0), 1);
    assert_eq!(bucket_count(1), 1);
    assert_eq!(bucket_count(100), 100);
    assert_eq!(bucket_count(65_536), 65_536);
    assert_eq!(bucket_count(10_000_000), 65_536);
}

#[test]
fn buckets_match_the_float_rule() {
    for frames in [0usize, 1, 5, 65_535, 65_536, 65_537, 100_003] {
        let samples: Vec<i32> = (0..frames).map(|i| (i % 977) as i32 - 488).collect();
        let peaks = WaveformPeaks::build(Arc::new(samples.clone()), 1);
        let buckets = MIP_BUCKETS.min(frames.max(1));
        let bucket_frames = frames.max(1) as f64 / buckets as f64;
        assert_eq!(peaks.mip.len(), buckets);
        for bucket in (0..buckets).step_by(997).chain([buckets - 1]) {
            let start = (bucket as f64 * bucket_frames).floor() as usize;
            let end = (((bucket + 1) as f64 * bucket_frames).ceil() as usize).min(frames);
            assert_eq!(peaks.mip[bucket], extrema(&samples, 1, start.min(end), end));
        }
    }
}

#[test]
fn an_overview_column_shows_the_peaks_of_its_samples() {
    let samples: Vec<i32> = (0..70_000).map(|i| ((i * 7_919) % 2_003) as i32 - 1_001).collect();
    let peaks = WaveformPeaks::build(Arc::new(samples.clone()), 1);
    let columns = peaks.columns(&vec![ColumnSpan::Buckets { start: 10, end: 60 }]);
    let start = 10 * 70_000 / MIP_BUCKETS;
    let end = (60 * 70_000 + MIP_BUCKETS - 1) / MIP_BUCKETS;
    assert_eq!(columns[0], extrema(&samples, 1, start, end));
}

#[test]
fn channels_share_their_frames() {
    let peaks = WaveformPeaks::build(Arc::new(vec![5, -3, 9, -8, 1]), 2);
    assert_eq!(peaks.frames(), 2);
    assert!(!peaks.is_empty());
    assert_eq!(*peaks.mip, vec![(-3, 5), (-8, 9)]);
    let mono = WaveformPeaks::build(Arc::new(vec![4, 2]), 0);
    assert_eq!(mono.channels, 1);
    assert_eq!(*mono.mip, vec![(0, 4), (0, 2)]);
    let silent = WaveformPeaks::build(Arc::new(vec![]), 2);
    assert!(silent.is_empty());
    assert_eq!(*silent.mip, vec![(0, 0)]);
}

#[test]
fn ranges_reach_no_further_than_the_samples() {
    let samples = vec![3, -4, 5, -6];
    assert_eq!(extrema(&samples, 1, 0, 4), (-6, 5));
    assert_eq!(extrema(&samples, 1, 1, 2), (-4, 0));
    assert_eq!(extrema(&samples, 1, 2, 2), (0, 0));
    assert_eq!(extrema(&samples, 1, 3, 1), (0, 0));
    assert_eq!(extrema(&samples, 2, 1, 100), (-6, 5));
    assert_eq!(extrema(&samples, usize::MAX, 1, 2), (0, 0));
}

#[test]
fn columns_past_the_end_are_silent() {
    let peaks = WaveformPeaks::build(Arc::new(vec![7, -7, 7]), 1);
    let columns = peaks.columns(&vec![
        ColumnSpan::Frames { start: 0, end: 0 },
        ColumnSpan::Frames { start: 1, end: 9 },
        ColumnSpan::Frames { start: 3, end: 9 },
        ColumnSpan::Buckets { start: 2, end: 2 },
        ColumnSpan::Buckets { start: 3, end: 9 },
        ColumnSpan::Buckets { start: 0, end: 9 },
    ]);
    assert_eq!(columns, vec![(0, 7), (-7, 7), (0, 0), (0, 7), (0, 0), (-7, 7)]);
}

#[test]
fn views_show_the_waveform_the_spectrogram_or_both() {
    assert_eq!(CanvasView::ALL.map(|view| view.label()), ["Wave", "Spectro", "Both"]);
    assert_eq!(CanvasView::default(), CanvasView::Overlay);
    assert_eq!(EventTone::default(), EventTone::Repair);
    assert!(CanvasView::Waveform.shows_waveform() && !CanvasView::Waveform.shows_spectrogram());
    assert!(!CanvasView::Spectrogram.shows_waveform());
    assert!(CanvasView::Overlay.shows_waveform() && CanvasView::Overlay.shows_spectrogram());
}

#[test]
fn layers_depend_on_the_view_and_on_what_there_is() {
    let diff = Some(CanvasDiff {
        before: vec![0.1],
        after: vec![0.2],
        start_frame: 0,
        end_frame: 1,
        stale: false,
    });
    let layers = canvas_layers(CanvasView::Overlay, Some(10), 2, true, &diff);
    assert!(layers.waveform && layers.tiles && layers.mask && layers.frequency_axis);
    assert!(layers.diff_lane);
    let layers = canvas_layers(CanvasView::Waveform, Some(10), 2, true, &diff);
    assert!(layers.waveform && !layers.tiles && !layers.mask && !layers.frequency_axis);
    let empty = Some(CanvasDiff::<f32> {
        before: vec![],
        after: vec![0.2],
        start_frame: 0,
        end_frame: 1,
        stale: false,
    });
    assert!(empty.as_ref().unwrap().is_empty());
    let layers = canvas_layers(CanvasView::Spectrogram, None, 0, false, &empty);
    assert!(!layers.waveform && !layers.tiles && !layers.mask && !layers.diff_lane);
    assert!(layers.frequency_axis);
    let layers = canvas_layers::<f32>(CanvasView::Overlay, Some(0), 0, false, &None);
    assert!(!layers.waveform);
}

#[test]
fn the_view_stays_inside_the_window() {
    assert_eq!(visible_range(10, 50, 100), (10, 50));
    assert_eq!(visible_range(10, 500, 100), (10, 100));
    assert_eq!(visible_range(300, 500, 100), (100, 100));
}

#[test]
fn marks_stop_at_half_the_sample_rate() {
    let labels = |rate| -> Vec<String> {
        frequency_marks(rate).into_iter().map(|(_, label)| label).collect()
    };
    assert_eq!(labels(48_000), ["20", "100", "500", "1k", "5k", "10k", "20k"]);
    assert_eq!(labels(22_050), ["20", "100", "500", "1k", "5k", "10k"]);
    assert_eq!(labels(40), ["20"]);
    assert!(labels(39).is_empty());
    assert_eq!(frequency_marks(8_000)[3].0, 1_000);
}
