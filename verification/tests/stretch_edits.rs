//! Edits of a clip's stretch settings.

use audio_tools::stretch::{first_hit_index, next_point_id, AudioFadeSide, WarpMove};
use audio_tools::timeline::{
    AudioClipStretchState, BeatPosition, EnvelopeCurve, EnvelopePoint, StretchAlgorithm,
    StretchMode, WarpMarker,
};

fn at(rank: i64) -> BeatPosition<f64> {
    BeatPosition { beat: rank as f64 / 10.0, rank }
}

fn marker(id: u64, rank: i64, locked: bool) -> WarpMarker<f64> {
    WarpMarker { id, source_sample: id * 100, timeline_beat: at(rank), locked }
}

fn point(id: u64) -> EnvelopePoint<f64> {
    EnvelopePoint { id, time: 0.0, value_db: 0.0, curve: EnvelopeCurve::Other { tag: 3 } }
}

fn stretch(markers: Vec<WarpMarker<f64>>, points: Vec<EnvelopePoint<f64>>) -> AudioClipStretchState<f64> {
    AudioClipStretchState {
        mode: StretchMode::Off,
        algorithm: StretchAlgorithm::Other { tag: 1 },
        preserve_pitch: false,
        bpm_source: Some(120.0),
        bpm_target: Some(90.0),
        time_ratio: 1.0,
        reverse: false,
        denoise_amount: 0.0,
        channel_transform: 0,
        fade_in_ms: 0.0,
        fade_out_ms: 0.0,
        gain_envelope: points,
        warp_markers: markers,
        source_start_samples: 0,
        source_end_samples: 0,
        original_duration_samples: 0,
        original_sample_rate: 0,
        dirty: false,
    }
}

#[test]
fn following_the_tempo_switches_the_mode() {
    let mut clip = stretch(vec![], vec![]);
    clip.set_follow_tempo(true);
    assert!(matches!(clip.mode, StretchMode::TempoSync));
    assert!(matches!(clip.algorithm, StretchAlgorithm::PhaseVocoder));
    assert!(clip.preserve_pitch && clip.dirty);
    assert_eq!(clip.bpm_target, Some(90.0));
    clip.set_follow_tempo(false);
    assert!(matches!(clip.mode, StretchMode::Manual));
    assert_eq!(clip.bpm_target, None);
    assert!(clip.preserve_pitch);
}

#[test]
fn plain_settings_mark_the_clip_dirty() {
    let mut clip = stretch(vec![], vec![]);
    clip.set_reverse(true);
    assert!(clip.reverse && clip.dirty);
    let mut clip = stretch(vec![], vec![]);
    clip.set_denoise_amount(0.5);
    assert!(clip.denoise_amount == 0.5 && clip.dirty);
    let mut clip = stretch(vec![], vec![]);
    clip.set_channel_transform(4);
    assert!(clip.channel_transform == 4 && clip.dirty);
    let mut clip = stretch(vec![], vec![]);
    clip.set_fade(AudioFadeSide::In, 12.0);
    assert!(clip.fade_in_ms == 12.0 && clip.fade_out_ms == 0.0 && clip.dirty);
    clip.set_fade(AudioFadeSide::Out, 34.0);
    assert!(clip.fade_in_ms == 12.0 && clip.fade_out_ms == 34.0);
}

#[test]
fn new_points_get_the_next_id() {
    assert_eq!(next_point_id::<f64>(&vec![]), 1);
    assert_eq!(next_point_id(&vec![point(7), point(3)]), 8);
    assert_eq!(next_point_id(&vec![point(u64::MAX)]), u64::MAX);
}

#[test]
fn a_drawn_point_is_moved_or_added() {
    let mut clip = stretch(vec![], vec![point(1), point(2), point(2)]);
    clip.draw_envelope_point(2, 0.5, -6.0);
    assert_eq!(clip.gain_envelope.len(), 3);
    assert_eq!(clip.gain_envelope[1].time, 0.5);
    assert!(matches!(clip.gain_envelope[1].curve, EnvelopeCurve::Other { tag: 3 }));
    assert_eq!(clip.gain_envelope[2].time, 0.0);
    assert!(!clip.dirty);
    clip.draw_envelope_point(9, 0.25, -3.0);
    assert_eq!(clip.gain_envelope[3].id, 9);
    assert_eq!(clip.gain_envelope[3].value_db, -3.0);
    assert!(matches!(clip.gain_envelope[3].curve, EnvelopeCurve::Linear));
}

#[test]
fn only_a_point_that_is_there_moves() {
    let mut clip = stretch(vec![], vec![point(1)]);
    assert!(!clip.move_envelope_point(5, 0.5, -6.0));
    assert!(!clip.dirty);
    assert!(clip.move_envelope_point(1, 0.5, -6.0));
    assert!(clip.dirty);
    assert_eq!(clip.gain_envelope[0].value_db, -6.0);
}

#[test]
fn warp_markers_are_kept_in_beat_order() {
    let mut clip = stretch(vec![marker(4, 30, false), marker(2, 10, false)], vec![]);
    clip.add_warp_marker(777, at(20));
    let order: Vec<(u64, i64)> =
        clip.warp_markers.iter().map(|m| (m.id, m.timeline_beat.rank)).collect();
    assert_eq!(order, vec![(2, 10), (5, 20), (4, 30)]);
    assert_eq!(clip.warp_markers[1].source_sample, 777);
    assert!(!clip.warp_markers[1].locked);
    assert!(matches!(clip.mode, StretchMode::Warp));
    assert!(clip.dirty);
}

#[test]
fn markers_on_one_beat_keep_their_order() {
    let mut clip =
        stretch(vec![marker(1, 10, false), marker(2, 10, false), marker(3, 5, false)], vec![]);
    clip.add_warp_marker(0, at(10));
    let order: Vec<u64> = clip.warp_markers.iter().map(|m| m.id).collect();
    assert_eq!(order, vec![3, 1, 2, 4]);
}

#[test]
fn a_marker_moves_between_its_neighbours() {
    let clip = stretch(
        vec![marker(1, 10, false), marker(2, 20, false), marker(3, 30, true)],
        vec![],
    );
    assert!(matches!(
        clip.warp_move(1),
        WarpMove::Between { lower: None, upper: Some(upper) } if upper.rank == 20
    ));
    assert!(matches!(
        clip.warp_move(2),
        WarpMove::Between { lower: Some(lower), upper: Some(upper) }
            if lower.rank == 10 && upper.rank == 30
    ));
    assert!(matches!(clip.warp_move(3), WarpMove::Locked));
    assert!(matches!(clip.warp_move(4), WarpMove::Missing));
    let single = stretch(vec![marker(1, 10, false)], vec![]);
    assert!(matches!(single.warp_move(1), WarpMove::Between { lower: None, upper: None }));
}

#[test]
fn locked_and_missing_markers_stay() {
    let mut clip = stretch(vec![marker(1, 10, true), marker(2, 20, false)], vec![]);
    assert!(!clip.place_warp_marker(1, at(15)));
    assert!(!clip.place_warp_marker(9, at(15)));
    assert!(!clip.dirty);
    assert!(clip.place_warp_marker(2, at(15)));
    assert_eq!(clip.warp_markers[1].timeline_beat.rank, 15);
    assert_eq!(clip.warp_markers[1].source_sample, 200);
    assert!(clip.dirty);
}

#[test]
fn the_first_hit_counts() {
    assert_eq!(first_hit_index(&vec![false, true, true], 3), Some(1));
    assert_eq!(first_hit_index(&vec![false, true], 1), None);
    assert_eq!(first_hit_index(&vec![true], 5), Some(0));
    assert_eq!(first_hit_index(&vec![], 5), None);
}
