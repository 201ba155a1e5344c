//! Analyzer graphs and the plots of the tool windows.

use audio_tools::graph::{
    bin_plan, display_points, frequency_ticks, interp_taps, kernel_tap, level_ticks, paint_plan,
    BinPlan, DisplaySmoothing, GraphStyle, LayerTone, SpectrumLayer,
};
use audio_tools::viz::{
    channel_route, harmonic_numbers, hop_ranges, keyboard_tone, noise_profile_layers, pitch_bins,
    pitch_tone, shifted_key, spectrum_layers, KeyTone,
};

#[test]
fn display_count_tracks_width_not_bin_count() {
    let narrow = display_points(320);
    let wide = display_points(2_400);
    assert!(narrow >= 256);
    assert!(wide > narrow);
    assert!(wide <= 2048);
}

#[test]
fn hop_levels_covers_the_buffer() {
    let samples: Vec<f32> = (0..1000).map(|i| if i % 2 == 0 { 0.5 } else { -0.5 }).collect();
    let hops: Vec<f32> = hop_ranges(samples.len(), 10)
        .into_iter()
        .map(|range| match range {
            Some((start, end)) => {
                let sum: f32 = samples[start..end].iter().map(|sample| sample * sample).sum();
                (sum / (end - start) as f32).sqrt()
            }
            None => 0.0,
        })
        .collect();
    assert_eq!(hops.len(), 10);
    assert!(hops.iter().all(|v| *v > 0.4));
}

#[test]
fn hops_are_even_and_stop_at_the_end() {
    assert_eq!(hop_ranges(10, 3), vec![Some((0, 3)), Some((3, 6)), Some((6, 9))]);
    assert_eq!(hop_ranges(2, 4), vec![Some((0, 1)), Some((1, 2)), None, None]);
    assert_eq!(hop_ranges(6, 2), vec![Some((0, 3)), Some((3, 6))]);
    assert!(hop_ranges(0, 4).is_empty());
    assert!(hop_ranges(4, 0).is_empty());
}

#[test]
fn points_are_bounded() {
    assert_eq!(display_points(0), 256);
    assert_eq!(display_points(256), 256);
    assert_eq!(display_points(1_000), 1_000);
    assert_eq!(display_points(5_000), 2_048);
}

#[test]
fn strengths_and_styles_have_names() {
    assert_eq!(
        DisplaySmoothing::ALL.map(|smoothing| smoothing.label()),
        ["Off", "Light", "Med", "Heavy"]
    );
    assert_eq!(DisplaySmoothing::ALL.map(|smoothing| smoothing.radius()), [0, 2, 4, 8]);
    assert_eq!(DisplaySmoothing::default(), DisplaySmoothing::Light);
    assert!(!DisplaySmoothing::Off.smooths(10));
    assert!(!DisplaySmoothing::Heavy.smooths(2));
    assert!(DisplaySmoothing::Light.smooths(3));
    assert_eq!(GraphStyle::ALL.map(|style| style.label()), ["Fill", "Line", "Both", "Cmp"]);
    assert_eq!(GraphStyle::ALL.map(|style| style.fill()), [true, false, true, true]);
    assert_eq!(GraphStyle::ALL.map(|style| style.line()), [false, true, true, true]);
    assert_eq!(GraphStyle::ALL.map(|style| style.overlay()), [false, false, false, true]);
    assert_eq!(GraphStyle::default(), GraphStyle::FillAndLine);
}

fn layer(db: Vec<f32>, line: bool, fill: bool) -> SpectrumLayer<f32> {
    SpectrumLayer { tone: LayerTone::Input, db, line, fill }
}

#[test]
fn curves_are_painted_by_style_and_place() {
    let layers = vec![
        layer(vec![1.0], true, true),
        layer(vec![], true, true),
        layer(vec![1.0], true, true),
        layer(vec![1.0], false, false),
    ];
    let flags = |style| -> Vec<(usize, bool, bool, bool)> {
        paint_plan(style, &layers)
            .into_iter()
            .map(|paint| (paint.index, paint.fill, paint.dimmed, paint.line))
            .collect()
    };
    assert_eq!(
        flags(GraphStyle::Fill),
        vec![(0, true, false, false), (2, false, false, true), (3, false, false, false)]
    );
    assert_eq!(
        flags(GraphStyle::Line),
        vec![(0, false, false, true), (2, false, false, true), (3, false, false, false)]
    );
    assert_eq!(
        flags(GraphStyle::Overlay),
        vec![(0, true, false, true), (2, true, true, true), (3, false, false, false)]
    );
}

#[test]
fn bins_are_interpolated_or_collapsed() {
    assert_eq!(bin_plan(3, 4, 10), BinPlan::Interpolate);
    assert_eq!(bin_plan(3, 6, 10), BinPlan::Peak { start: 3, end: 6 });
    assert_eq!(bin_plan(8, 60, 10), BinPlan::Peak { start: 8, end: 10 });
    assert_eq!(bin_plan(50, 60, 10), BinPlan::Interpolate);
    assert_eq!(bin_plan(0, 0, 1), BinPlan::Interpolate);
}

#[test]
fn taps_hold_the_ends() {
    assert_eq!(interp_taps(0, 1), (0, 0, 0, 0));
    assert_eq!(interp_taps(0, 10), (0, 0, 1, 2));
    assert_eq!(interp_taps(5, 10), (4, 5, 6, 7));
    assert_eq!(interp_taps(8, 10), (7, 8, 9, 9));
    assert_eq!(interp_taps(9, 10), (8, 9, 9, 9));
    assert_eq!(kernel_tap(0, 0, 4, 10), 0);
    assert_eq!(kernel_tap(5, 4, 4, 10), 5);
    assert_eq!(kernel_tap(5, 0, 4, 10), 1);
    assert_eq!(kernel_tap(8, 8, 4, 10), 9);
}

#[test]
fn axes_are_marked() {
    let ticks: Vec<String> = frequency_ticks().into_iter().map(|(_, label)| label).collect();
    assert_eq!(ticks, ["20", "50", "100", "200", "500", "1k", "2k", "5k", "10k", "20k"]);
    let levels: Vec<(String, bool)> =
        level_ticks().into_iter().map(|tick| (tick.label, tick.major)).collect();
    let expected = [
        ("0", true),
        ("-12", false),
        ("-24", true),
        ("-48", true),
        ("-72", false),
        ("-96", false),
    ];
    assert_eq!(levels.len(), expected.len());
    for ((label, major), (text, stands_out)) in levels.iter().zip(expected) {
        assert_eq!((label.as_str(), *major), (text, stands_out));
    }
}

#[test]
fn spectra_are_layered() {
    let tones = |layers: Vec<SpectrumLayer<f32>>| -> Vec<&'static str> {
        layers.iter().map(|layer| layer.tone.label()).collect()
    };
    let one = || vec![1.0];
    assert_eq!(tones(spectrum_layers(GraphStyle::Line, one(), one(), one())), ["Hold", "In"]);
    assert_eq!(
        tones(spectrum_layers(GraphStyle::Overlay, one(), one(), one())),
        ["Hold", "Avg", "In"]
    );
    assert_eq!(tones(spectrum_layers(GraphStyle::Overlay, one(), vec![], vec![])), ["In"]);
    assert_eq!(
        tones(noise_profile_layers(one(), one(), one())),
        ["In", "Profile", "Floor"]
    );
    assert_eq!(tones(noise_profile_layers(one(), vec![], vec![])), ["In"]);
    let floor = &noise_profile_layers(one(), one(), vec![2.0])[2];
    assert!(floor.line && !floor.fill && floor.db == vec![2.0]);
}

#[test]
fn harmonics_are_counted_from_one() {
    assert_eq!(harmonic_numbers(0), vec![1]);
    assert_eq!(harmonic_numbers(3), vec![1, 2, 3]);
    assert_eq!(harmonic_numbers(255).len(), 255);
}

#[test]
fn keys_are_black_or_white_or_stand_out() {
    let black: Vec<usize> = (0..12).filter(|i| pitch_tone(*i, 200) == KeyTone::Black).collect();
    assert_eq!(black, vec![1, 3, 6, 8, 10]);
    assert_eq!(pitch_tone(3, 3), KeyTone::Accent);
    assert_eq!(pitch_bins(&vec![0.5], 0.0).len(), 12);
    assert_eq!(pitch_bins(&vec![0.5], 0.0)[..2], [0.5, 0.0]);
    assert_eq!(pitch_bins(&vec![7; 20], 0), vec![7; 12]);
    assert_eq!(shifted_key(0), 12);
    assert_eq!(shifted_key(-30), 0);
    assert_eq!(shifted_key(30), 24);
    assert_eq!(shifted_key(5), 17);
    assert_eq!(keyboard_tone(12, 17), KeyTone::Center);
    assert_eq!(keyboard_tone(17, 17), KeyTone::Accent);
    assert_eq!(keyboard_tone(13, 17), KeyTone::Black);
    assert_eq!(keyboard_tone(14, 17), KeyTone::White);
}

#[test]
fn channels_are_routed_in_halves() {
    assert_eq!(channel_route(0), [2, 0, 0, 2]);
    assert_eq!(channel_route(1), [2, 2, 0, 0]);
    assert_eq!(channel_route(2), [0, 0, 2, 2]);
    assert_eq!(channel_route(3), [1, 1, 1, 1]);
    assert_eq!(channel_route(4), [0, 2, 2, 0]);
    assert_eq!(channel_route(5), [-2, 0, 0, 2]);
    assert_eq!(channel_route(6), [2, 0, 0, -2]);
    assert_eq!(channel_route(7), [-2, 0, 0, -2]);
    assert_eq!(channel_route(8), [1, 1, 1, 1]);
    assert_eq!(channel_route(9), [1, -1, -1, 1]);
    assert_eq!(channel_route(50), [1, -1, -1, 1]);
}
