//! The repair workspace.

use std::sync::Arc;

use audio_tools::canvas::{CanvasDiff, CanvasMask, CanvasRegion, CanvasView, WaveformPeaks};
use audio_tools::editor::FrequencyScale;
use audio_tools::inspector::{
    reaches_engine, slider_range, HumBase, InspectorItem, InspectorTexts, RepairAction,
    RepairParam,
};
use audio_tools::mask::{build_mask_image, GateMask, MASK_IMAGE_HEIGHT};
use audio_tools::navigator::AudioRepairModule;
use audio_tools::repair::{
    compute_preview, preview_range, preview_work, profile_label, region_hint,
    repair_window_frames, repair_window_start, ClickEvent, GateMeasure, LegendEntry,
    PreviewOutcome, PreviewResult, PreviewWork, Processed, RangeLevels, RepairSurface, PREVIEW_MAX_FRAMES,
};
use audio_tools::repair_actions::{move_slider, RepairEffect, WorkspaceFacts};
use audio_tools::target::{AudioRangeSelection, SpectralSelection};
use audio_tools::tools::TransientMarker;

type Surface = RepairSurface<f32, u8>;

fn region(start_frame: i64, end_frame: i64) -> CanvasRegion<f32> {
    CanvasRegion { start_frame, end_frame, min_hz: 0.0, max_hz: 24_000.0 }
}

fn levels(peak_db: f32) -> RangeLevels<f32> {
    RangeLevels { peak_db, rms_db: peak_db - 3.0 }
}

fn click(frame: usize) -> ClickEvent<f32> {
    ClickEvent { frame, width: 4, strength: 0.5 }
}

fn mask() -> CanvasMask {
    let gate = GateMask { columns: 2, bins: 2, alpha: vec![0; 4] };
    CanvasMask {
        image: build_mask_image(&gate, (1, 2, 3), &vec![0; MASK_IMAGE_HEIGHT]).unwrap(),
        start_frame: 0,
        end_frame: 10,
    }
}

fn processed() -> Processed<f32> {
    Processed { levels: levels(-6.0), before: vec![0.5], after: vec![0.4] }
}

fn pass(clicks: Vec<ClickEvent<f32>>) -> PreviewResult<f32> {
    let outcome = PreviewOutcome::Declicked { processed: processed(), clicks };
    compute_preview(PreviewWork::DeClick, 10, 20, levels(-3.0), outcome)
}

fn gated(image: bool) -> PreviewResult<f32> {
    let image = if image { Some(mask().image) } else { None };
    let gate = Some(GateMeasure { coverage: 0.25, image });
    let outcome = PreviewOutcome::Denoised { processed: processed(), gate };
    compute_preview(PreviewWork::Denoise, 10, 20, levels(-3.0), outcome)
}

fn facts() -> WorkspaceFacts {
    WorkspaceFacts {
        source_path: Some("/kick.wav".to_string()),
        source_ready: true,
        learned: true,
        transient_count: 0,
    }
}

fn names(effects: &[RepairEffect]) -> Vec<String> {
    effects
        .iter()
        .map(|effect| match effect {
            RepairEffect::Notify => "notify".to_string(),
            RepairEffect::Invalidate => "invalidate".to_string(),
            RepairEffect::BuildSpectrogram { job } => format!("spectrogram {}", job.generation),
            RepairEffect::DetectTransients => "detect".to_string(),
            RepairEffect::ZoomOut => "zoom out".to_string(),
            RepairEffect::ZoomIn => "zoom in".to_string(),
            RepairEffect::Fit => "fit".to_string(),
            RepairEffect::Center { frame } => format!("center {frame}"),
            RepairEffect::LearnNoise => "learn".to_string(),
            RepairEffect::ForgetNoise => "forget".to_string(),
            RepairEffect::SetHumBase { hz } => format!("hum {hz}"),
            RepairEffect::Silence => "silence".to_string(),
            RepairEffect::EmitPreview => "preview".to_string(),
            RepairEffect::EmitRepairPreview => "repair preview".to_string(),
        })
        .collect()
}

#[test]
fn denoise_preview_without_a_profile_reports_no_change() {
    let work = preview_work::<f32>(AudioRepairModule::Denoise, false, None, 0, 0);
    assert_eq!(work, PreviewWork::Nothing);
    let result = compute_preview(work, 0, 8192, levels(-64.4), PreviewOutcome::Nothing);
    assert!(result.mask.is_none());
    assert!(result.diff.is_none());
    assert_eq!(result.stats.before.peak_db, result.stats.after.peak_db);
    assert_eq!(result.stats.before.rms_db, result.stats.after.rms_db);
}

#[test]
fn a_preview_reports_the_events_it_repairs() {
    let result = pass(vec![click(3), click(5)]);
    assert_eq!(result.stats.events, 2);
    assert_eq!(result.clicks.len(), result.stats.events);
    assert!(result.stats.after.peak_db < result.stats.before.peak_db);
    let diff = result.diff.unwrap();
    assert_eq!((diff.start_frame, diff.end_frame, diff.stale), (10, 20, false));
    assert_eq!((result.start_frame, result.end_frame), (10, 20));
    assert_eq!(result.stats.coverage, None);
    assert!(result.mask.is_none());
}

#[test]
fn declick_preview_reports_the_events_it_repairs() {
    let mut samples: Vec<f32> = (0..8192)
        .flat_map(|i| {
            let value = (std::f32::consts::TAU * 440.0 * i as f32 / 48_000.0).sin() * 0.2;
            [value, value]
        })
        .collect();
    samples[2048] = 0.98;
    samples[2049] = 0.98;
    let mut repaired = samples.clone();
    repaired[2048] = (samples[2046] + samples[2050]) / 2.0;
    repaired[2049] = (samples[2047] + samples[2051]) / 2.0;
    let measure = |samples: &[f32]| {
        let peak = samples.iter().fold(0.0_f32, |peak, sample| peak.max(sample.abs()));
        let sum: f32 = samples.iter().map(|sample| sample * sample).sum();
        RangeLevels {
            peak_db: 20.0 * peak.log10(),
            rms_db: 10.0 * (sum / samples.len() as f32).log10(),
        }
    };
    let work = preview_work::<f32>(AudioRepairModule::DeClick, false, None, 0, 0);
    let outcome = PreviewOutcome::Declicked {
        processed: Processed {
            levels: measure(&repaired),
            before: vec![0.98],
            after: vec![0.2],
        },
        clicks: vec![ClickEvent { frame: 1024, width: 1, strength: 0.98 }],
    };
    let result = compute_preview(work, 0, 8192, measure(&samples), outcome);
    assert!(result.stats.events > 0);
    assert_eq!(result.clicks.len(), result.stats.events);
    assert!(result.stats.after.peak_db < result.stats.before.peak_db);
    assert!(result.diff.is_some());
    assert!(result.mask.is_none());
}

#[test]
fn only_noise_reduction_reports_what_it_gates() {
    let result = gated(true);
    assert_eq!(result.stats.coverage, Some(0.25));
    let drawn = result.mask.unwrap();
    assert_eq!((drawn.start_frame, drawn.end_frame), (10, 20));
    assert!(result.clicks.is_empty() && result.stats.events == 0);
    assert_eq!(result.stats.after.peak_db, -6.0);
    assert!(gated(false).mask.is_none());
    for (work, outcome) in [
        (PreviewWork::DeHum, PreviewOutcome::Dehummed { processed: processed() }),
        (
            PreviewWork::SpectralGain { start_frame: 0, end_frame: 5 },
            PreviewOutcome::Shaped { processed: processed() },
        ),
    ] {
        let result = compute_preview(work, 10, 20, levels(-3.0), outcome);
        assert!(result.diff.is_some() && result.mask.is_none() && result.clicks.is_empty());
        assert_eq!((result.stats.coverage, result.stats.events), (None, 0));
    }
}

#[test]
fn modules_without_what_they_need_process_nothing() {
    let work = |module, profile, drawn| preview_work(module, profile, drawn, 100, 50);
    assert_eq!(work(AudioRepairModule::Denoise, true, None), PreviewWork::Denoise);
    assert_eq!(work(AudioRepairModule::DeClick, false, None), PreviewWork::DeClick);
    assert_eq!(work(AudioRepairModule::DeHum, false, None), PreviewWork::DeHum);
    assert_eq!(work(AudioRepairModule::SpectralRepair, false, None), PreviewWork::Nothing);
    assert_eq!(
        work(AudioRepairModule::SpectralRepair, false, Some(region(120, 200))),
        PreviewWork::SpectralGain { start_frame: 0, end_frame: 50 }
    );
    assert_eq!(work(AudioRepairModule::DeReverb, true, None), PreviewWork::Nothing);
}

#[test]
fn preview_passes_follow_the_view_and_are_bounded() {
    assert_eq!(preview_range(1_000, 100, 300), Some((100, 300)));
    assert_eq!(preview_range(1_000, 100, 5_000), Some((100, 1_000)));
    assert_eq!(preview_range(1_000, 100, 100), Some((100, 101)));
    assert_eq!(preview_range(1_000, 1_000, 2_000), None);
    assert_eq!(preview_range(0, 0, 0), None);
    assert_eq!(
        preview_range(10_000_000, 7, 9_000_000),
        Some((7, 7 + PREVIEW_MAX_FRAMES))
    );
}

#[test]
fn the_window_is_the_selection_or_the_source() {
    let selection = Some(AudioRangeSelection { start_frame: 30, end_frame: 90 });
    assert_eq!(repair_window_start(selection), 30);
    assert_eq!(repair_window_start(None), 0);
    assert_eq!(
        repair_window_start(Some(AudioRangeSelection { start_frame: -9, end_frame: 90 })),
        0
    );
    assert_eq!(repair_window_frames(&None, selection, 500), 60);
    assert_eq!(repair_window_frames(&None, None, 500), 500);
    assert_eq!(repair_window_frames(&None, None, -1), 1);
    let peaks = WaveformPeaks::build(Arc::new(vec![0; 40]), 2);
    assert_eq!(repair_window_frames(&Some(peaks), selection, 500), 20);
}

#[test]
fn one_pass_runs_at_a_time() {
    let mut surface = Surface::new();
    assert!(surface.invalidate_repair_preview(None).is_none());
    let first = surface.invalidate_repair_preview(Some((0, 10))).unwrap();
    assert_eq!((first.generation, first.start, first.end), (1, 0, 10));
    assert!(surface.preview_busy);
    assert!(surface.invalidate_repair_preview(Some((0, 10))).is_none());
    assert!(surface.preview_dirty);
    let second = surface.finish_repair_preview(1, pass(vec![]), Some((5, 15))).unwrap();
    assert_eq!((second.generation, second.start, second.end), (2, 5, 15));
    assert!(surface.diff.is_some());
    assert!(surface.finish_repair_preview(2, pass(vec![]), Some((5, 15))).is_none());
    assert!(!surface.preview_busy && !surface.preview_dirty);
}

#[test]
fn a_change_ages_what_is_compared() {
    let mut surface = Surface::new();
    surface.invalidate_repair_preview(Some((0, 10)));
    surface.finish_repair_preview(1, pass(vec![]), None);
    assert!(!surface.result_is_stale());
    surface.invalidate_repair_preview(None);
    assert!(surface.diff.as_ref().unwrap().stale);
    assert!(surface.result_is_stale());
}

#[test]
fn stale_results_are_dropped() {
    let mut surface = Surface::new();
    surface.invalidate_repair_preview(Some((0, 10)));
    surface.finish_repair_preview(9, pass(vec![click(1)]), None);
    assert!(surface.stats.is_none() && surface.clicks.is_empty() && surface.diff.is_none());
}

#[test]
fn the_selected_click_stays_among_the_clicks() {
    let mut surface = Surface::new();
    surface.selected_click = 9;
    surface.invalidate_repair_preview(Some((0, 10)));
    surface.finish_repair_preview(1, pass(vec![click(10), click(20), click(30)]), None);
    assert_eq!(surface.selected_click, 2);
    assert_eq!(surface.step_click(1), Some(30));
    assert_eq!(surface.step_click(-1), Some(20));
    assert_eq!(surface.step_click(-5), Some(10));
    assert_eq!(surface.event_label("0.100"), "Event 1 of 3 · 0.100 s");
    surface.clicks.clear();
    assert_eq!(surface.step_click(1), None);
    assert_eq!(surface.event_label("0.100"), "No events detected");
}

#[test]
fn another_module_drops_what_the_old_one_found() {
    let mut surface = Surface::new();
    surface.invalidate_repair_preview(Some((0, 10)));
    surface.finish_repair_preview(1, pass(vec![click(1)]), None);
    assert!(!surface.activate_repair_module(AudioRepairModule::Denoise));
    assert!(surface.stats.is_some());
    assert!(surface.activate_repair_module(AudioRepairModule::DeHum));
    assert!(surface.stats.is_none() && surface.diff.is_none() && surface.clicks.is_empty());
    assert!(surface.choose_module(AudioRepairModule::DeHum).is_empty());
    assert_eq!(
        names(&surface.choose_module(AudioRepairModule::DeClick)),
        ["preview", "invalidate", "notify"]
    );
}

#[test]
fn regions_are_drawn_either_way() {
    let mut surface = Surface::new();
    assert!(!surface.repair_pointer_down(false, 50, 100.0));
    assert!(!surface.repair_pointer_move(true, 60, 100.0, (0.0, 1.0)));
    assert!(surface.repair_pointer_down(true, 50, 100.0));
    assert!(!surface.repair_pointer_move(false, 60, 100.0, (0.0, 1.0)));
    assert!(surface.region.is_none());
    assert!(surface.repair_pointer_move(true, 20, 300.0, (100.0, 300.0)));
    let drawn = surface.region.unwrap();
    assert_eq!((drawn.start_frame, drawn.end_frame), (20, 50));
    assert_eq!((drawn.min_hz, drawn.max_hz), (100.0, 300.0));
    assert!(surface.repair_pointer_up(80, (100.0, 300.0)));
    let drawn = surface.region.unwrap();
    assert_eq!((drawn.start_frame, drawn.end_frame), (50, 80));
    assert!(!surface.repair_pointer_up(90, (100.0, 300.0)));
    surface.repair_pointer_down(true, 50, 100.0);
    surface.repair_pointer_up(50, (100.0, 300.0));
    assert!(surface.region.is_none());
}

#[test]
fn profiles_are_learned_from_the_region() {
    let mut surface = Surface::new();
    assert_eq!(surface.repair_learn_range(100, 500), (0, 500));
    surface.region = Some(region(150, 300));
    assert_eq!(surface.repair_learn_range(100, 500), (50, 200));
    assert_eq!(surface.repair_learn_range(100, 120), (50, 120));
    assert_eq!(surface.repair_learn_range(1_000, 500), (0, 0));
    surface.clear_region();
    assert!(surface.region.is_none());
    surface.profile_frames = 9;
    surface.mask = Some(mask());
    surface.clear_profile();
    assert!(surface.profile_frames == 0 && surface.mask.is_none());
}

#[test]
fn a_decoded_source_fits_the_view_once() {
    let mut surface = Surface::new();
    surface.show_transients = true;
    let selection =
        Some(SpectralSelection { start_frame: 90, end_frame: 30, min_hz: 5.0, max_hz: 9.0 });
    let peaks = || WaveformPeaks::build(Arc::new(vec![0; 40]), 2);
    let ready = surface.on_repair_source_ready(peaks(), selection, (5.0, 9.0));
    assert!(ready.fit && ready.detect_transients);
    assert_eq!(surface.region.unwrap().start_frame, 30);
    surface.region = Some(region(1, 2));
    let ready = surface.on_repair_source_ready(peaks(), selection, (5.0, 9.0));
    assert!(!ready.fit);
    assert_eq!(surface.region.unwrap().start_frame, 1);
}

#[test]
fn spectrograms_are_built_and_told() {
    let mut surface = Surface::new();
    assert_eq!(surface.repair_canvas_status().as_deref(), Some("Analyzing source…"));
    assert!(surface.spawn_repair_spectrogram(&None).is_none());
    assert_eq!(surface.repair_canvas_status().as_deref(), Some("Clip has no source file"));
    let job = surface.spawn_repair_spectrogram(&Some("/a.wav".to_string())).unwrap();
    assert_eq!((job.path.as_str(), job.generation, job.reverse), ("/a.wav", 1, false));
    assert_eq!(job.frequency_scale, FrequencyScale::Logarithmic);
    assert!(!surface.finish_repair_spectrogram(0, Ok(vec![1])));
    surface.peaks = Some(WaveformPeaks::build(Arc::new(vec![0; 4]), 1));
    assert_eq!(surface.repair_canvas_status().as_deref(), Some("Building spectrogram…"));
    surface.view = CanvasView::Waveform;
    assert_eq!(surface.repair_canvas_status(), None);
    surface.view = CanvasView::Overlay;
    assert!(surface.finish_repair_spectrogram(1, Err("broken".to_string())));
    assert_eq!(surface.repair_canvas_status().as_deref(), Some("broken"));
    assert!(surface.finish_repair_spectrogram(1, Ok(vec![1, 2])));
    assert_eq!(surface.repair_canvas_status(), None);
    assert_eq!(surface.tiles, vec![1, 2]);
}

#[test]
fn overlays_come_from_the_module() {
    let mut surface = Surface::new();
    surface.mask = Some(mask());
    surface.clicks = vec![click(3), click(8)];
    surface.selected_click = 7;
    let markers = vec![
        TransientMarker { source_frame: 90, strength: 1.0 },
        TransientMarker { source_frame: 130, strength: 0.5 },
    ];
    let overlays = surface.repair_overlays(&markers, 100, 96);
    assert!(overlays.mask && !overlays.bands && overlays.events.is_empty());
    assert!(overlays.transients.is_empty() && overlays.selected_event.is_none());
    surface.module = AudioRepairModule::DeClick;
    surface.show_transients = true;
    let overlays = surface.repair_overlays(&markers, 100, 96);
    assert!(!overlays.mask);
    assert_eq!(overlays.events.len(), 2);
    assert_eq!((overlays.events[1].frame, overlays.events[1].width_frames), (8, 4));
    assert_eq!(overlays.selected_event, Some(1));
    assert_eq!(overlays.transients.len(), 1);
    assert_eq!((overlays.transients[0].frame, overlays.transients[0].width_frames), (30, 96));
    surface.module = AudioRepairModule::SpectralRepair;
    surface.region = Some(region(1, 2));
    let overlays = surface.repair_overlays(&markers, 100, 96);
    assert!(overlays.region_gain && overlays.region.is_some());
    surface.module = AudioRepairModule::DeHum;
    assert!(surface.repair_overlays(&markers, 100, 96).bands);
}

#[test]
fn the_legend_explains_what_is_drawn() {
    let mut surface = Surface::new();
    assert!(surface.repair_legend(5).is_empty());
    surface.mask = Some(mask());
    surface.show_transients = true;
    surface.diff = Some(CanvasDiff {
        before: vec![0.1],
        after: vec![0.1],
        start_frame: 0,
        end_frame: 1,
        stale: false,
    });
    let labels: Vec<&str> = surface.repair_legend(5).iter().map(|entry| entry.label()).collect();
    assert_eq!(labels, ["Gated", "Transient", "Removed", "After"]);
    surface.module = AudioRepairModule::DeClick;
    assert_eq!(
        surface.repair_legend(0),
        vec![LegendEntry::Click, LegendEntry::Removed, LegendEntry::After]
    );
    surface.diff = None;
    surface.module = AudioRepairModule::DeHum;
    assert_eq!(surface.repair_legend(0), vec![LegendEntry::Notch]);
    surface.module = AudioRepairModule::SpectralRepair;
    assert_eq!(surface.repair_legend(0), vec![LegendEntry::Region]);
    surface.module = AudioRepairModule::DrumSilencer;
    assert!(surface.repair_legend(0).is_empty());
}

#[test]
fn sliders_have_ends_and_a_reset() {
    let ends = |param| {
        let range = slider_range(param);
        (range.min, range.max, range.reset)
    };
    assert_eq!(ends(RepairParam::DenoiseReduction), (0, 2_400, 1_200));
    assert_eq!(ends(RepairParam::DenoiseThreshold), (-8_000, -1_200, -4_800));
    assert_eq!(ends(RepairParam::ClickSensitivity), (5, 100, 65));
    assert_eq!(ends(RepairParam::ClickWidth), (200, 6_400, 1_200));
    assert_eq!(ends(RepairParam::HumHarmonics), (100, 1_000, 400));
    assert_eq!(ends(RepairParam::HumReduction), (0, 4_800, 1_800));
    assert_eq!(ends(RepairParam::SpectralGain), (-4_800, 2_400, 0));
    assert!(reaches_engine(RepairParam::HumHarmonics));
    assert!(!reaches_engine(RepairParam::ClickWidth));
    assert_eq!(
        names(&move_slider(RepairParam::DenoiseThreshold)),
        ["repair preview", "invalidate", "notify"]
    );
    assert_eq!(names(&move_slider(RepairParam::SpectralGain)), ["invalidate", "notify"]);
}

#[test]
fn workspace_controls_do_what_they_say() {
    let mut surface = Surface::new();
    let view = CanvasView::Waveform;
    assert_eq!(names(&surface.perform(RepairAction::ShowView { view }, &facts())), ["notify"]);
    assert_eq!(surface.view, view);
    assert_eq!(
        names(&surface.perform(RepairAction::ToggleFrequencyScale, &facts())),
        ["spectrogram 1", "invalidate", "notify"]
    );
    assert_eq!(surface.frequency_scale, FrequencyScale::Linear);
    assert_eq!(surface.spectrogram_status.as_deref(), Some("Building spectrogram…"));
    let mut nowhere = facts();
    nowhere.source_path = None;
    assert_eq!(
        names(&surface.perform(RepairAction::ToggleFrequencyScale, &nowhere)),
        ["invalidate", "notify"]
    );
    assert_eq!(surface.spectrogram_status.as_deref(), Some("Clip has no source file"));
    assert_eq!(
        names(&surface.perform(RepairAction::ToggleTransients, &facts())),
        ["detect", "notify"]
    );
    assert_eq!(names(&surface.perform(RepairAction::ToggleTransients, &facts())), ["notify"]);
    assert_eq!(names(&surface.perform(RepairAction::ToggleSpectrum, &facts())), ["notify"]);
    assert!(surface.show_spectrum);
    assert_eq!(
        names(&surface.perform(RepairAction::ZoomIn, &facts())),
        ["zoom in", "invalidate", "notify"]
    );
    assert_eq!(
        names(&surface.perform(RepairAction::ZoomOut, &facts())),
        ["zoom out", "invalidate", "notify"]
    );
    assert_eq!(
        names(&surface.perform(RepairAction::Fit, &facts())),
        ["fit", "invalidate", "notify"]
    );
    assert_eq!(names(&surface.perform(RepairAction::LearnRegion, &facts())), ["learn"]);
    surface.profile_frames = 4;
    assert_eq!(
        names(&surface.perform(RepairAction::ClearProfile, &facts())),
        ["forget", "invalidate", "notify"]
    );
    assert_eq!(surface.profile_frames, 0);
    assert_eq!(
        names(&surface.perform(RepairAction::HumAt60, &facts())),
        ["hum 60", "repair preview", "invalidate", "notify"]
    );
    assert_eq!(names(&surface.perform(RepairAction::HumAt50, &facts()))[0], "hum 50");
    surface.clicks = vec![click(10), click(20)];
    assert_eq!(
        names(&surface.perform(RepairAction::NextClick, &facts())),
        ["center 20", "invalidate", "notify"]
    );
    assert_eq!(names(&surface.perform(RepairAction::PreviousClick, &facts()))[0], "center 10");
    surface.region = Some(region(1, 2));
    assert_eq!(
        names(&surface.perform(RepairAction::SilenceRegion, &facts())),
        ["silence", "invalidate", "notify"]
    );
    assert_eq!(
        names(&surface.perform(RepairAction::ClearRegion, &facts())),
        ["invalidate", "notify"]
    );
    assert!(surface.region.is_none());
}

#[test]
fn unavailable_workspace_controls_do_nothing() {
    let mut surface = Surface::new();
    let nothing = WorkspaceFacts {
        source_path: None,
        source_ready: false,
        learned: false,
        transient_count: 0,
    };
    for action in [
        RepairAction::LearnRegion,
        RepairAction::ClearProfile,
        RepairAction::PreviousClick,
        RepairAction::NextClick,
        RepairAction::SilenceRegion,
        RepairAction::ClearRegion,
    ] {
        assert!(surface.perform(action, &nothing).is_empty());
    }
}

fn inspector_texts() -> InspectorTexts {
    let text = |words: &str| words.to_string();
    InspectorTexts {
        module_name: text("Module"),
        module_hint: text("What to do."),
        profile_seconds: text("1.50"),
        denoise_reduction: text("12.0 dB"),
        denoise_threshold: text("-48 dB"),
        click_sensitivity: text("65%"),
        click_width: text("12 smp"),
        click_seconds: text("0.100"),
        hum_harmonics: text("4"),
        hum_reduction: text("18.0 dB"),
        spectral_gain: text("+0.0 dB"),
        region_time: text("0.000–1.000 s"),
        region_band: text("20–90 Hz"),
        peak: text("-3.0 → -6.0 dB"),
        rms: text("-6.0 → -9.0 dB"),
        change: text("-3.00 dB"),
        gated: text("25.0%"),
    }
}

fn inspect(items: &[InspectorItem]) -> Vec<String> {
    items
        .iter()
        .map(|item| match item {
            InspectorItem::Title { label } => format!("= {label}"),
            InspectorItem::Section { label } => format!("# {label}"),
            InspectorItem::Text { text, warning } => {
                format!("{text}{}", if *warning { " !" } else { "" })
            }
            InspectorItem::Row { label, value } => format!("{label}: {value}"),
            InspectorItem::Slider { label, value, .. } => format!("{label} <{value}>"),
            InspectorItem::Button { label, enabled, .. } => {
                format!("[{label}{}]", if *enabled { "" } else { " off" })
            }
            InspectorItem::Latch { label, active, .. } => {
                format!("({label}{})", if *active { " x" } else { "" })
            }
            InspectorItem::Segment { label, active, .. } => {
                format!("|{label}{}|", if *active { " x" } else { "" })
            }
        })
        .collect()
}

#[test]
fn the_header_shows_the_view() {
    let surface = Surface::new();
    assert_eq!(
        inspect(&surface.repair_canvas_header()),
        [
            "|Wave|",
            "|Spectro|",
            "|Both x|",
            "(Log Hz x)",
            "(Transients)",
            "[−]",
            "[+]",
            "[Fit]",
            "(Spectrum)",
        ]
    );
}

#[test]
fn the_inspector_shows_the_module_the_region_and_the_result() {
    let mut surface = Surface::new();
    let hum = HumBase { at_50: true, at_60: false };
    let show = |surface: &Surface, learned| {
        let spectral = surface.module == AudioRepairModule::SpectralRepair;
        inspect(&surface.repair_inspector(learned, true, hum, spectral, &inspector_texts()))
    };
    assert_eq!(
        show(&surface, false),
        [
            "= Module",
            "What to do.",
            "# PROFILE",
            "No profile learned !",
            "[Learn Region]",
            "[Clear off]",
            "# REDUCTION",
            "Reduction <12.0 dB>",
            "Threshold <-48 dB>",
            "# REGION",
            "Whole window. Drag on the canvas to narrow it.",
            "[Clear Region off]",
            "# BEFORE / AFTER",
            "No preview yet.",
        ]
    );
    assert_eq!(show(&surface, true)[3], "Learned from 1.50 s");
    surface.module = AudioRepairModule::DeClick;
    surface.invalidate_repair_preview(Some((0, 10)));
    surface.finish_repair_preview(1, pass(vec![click(1)]), None);
    surface.region = Some(region(0, 48_000));
    surface.invalidate_repair_preview(Some((0, 10)));
    assert_eq!(
        show(&surface, true),
        [
            "= Module",
            "What to do.",
            "# DETECTION",
            "Sensitivity <65%>",
            "Max Width <12 smp>",
            "# EVENTS",
            "Event 1 of 1 · 0.100 s",
            "[Previous]",
            "[Next]",
            "# REGION",
            "Time: 0.000–1.000 s",
            "[Clear Region]",
            "# BEFORE / AFTER",
            "Peak: -3.0 → -6.0 dB",
            "RMS: -6.0 → -9.0 dB",
            "Change: -3.00 dB",
            "Repaired: 1 events",
            "Recomputing…",
        ]
    );
    assert_eq!(surface.repaired_label().as_deref(), Some("1 events"));
    surface.module = AudioRepairModule::DeHum;
    assert_eq!(show(&surface, true)[2..7], [
        "# FUNDAMENTAL",
        "|50 Hz x|",
        "|60 Hz|",
        "Harmonics <4>",
        "Reduction <18.0 dB>",
    ]);
    surface.module = AudioRepairModule::SpectralRepair;
    assert_eq!(show(&surface, true)[2..8], [
        "# GAIN",
        "Gain <+0.0 dB>",
        "[Silence Region]",
        "# REGION",
        "Time: 0.000–1.000 s",
        "Band: 20–90 Hz",
    ]);
    surface.module = AudioRepairModule::DeBleed;
    assert_eq!(show(&surface, true)[2], "# REGION");
    surface.stats = Some(gated(false).stats);
    assert!(show(&surface, true).contains(&"Gated: 25.0%".to_string()));
    assert_eq!(profile_label(true, "2.00"), "Learned from 2.00 s");
    assert_eq!(region_hint(true), "Drag on the canvas to target a band.");
}
