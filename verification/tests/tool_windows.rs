//! The floating tool windows.

use audio_tools::actions::{PressInputs, ToolEffect};
use audio_tools::navigator::{AudioRepairModule, AvailableModules};
use audio_tools::panel::{
    bar_bins, channel_body, time_mode_name, PanelItem, RepairTexts, ToolAction,
};
use audio_tools::preview::{ClipPreviewOverride, DehumParams};
use audio_tools::target::{AudioRangeSelection, AudioToolKind, AudioToolTarget};
use audio_tools::timeline::{
    AudioClipStretchState, AudioImportState, ClipState, ClipType, StretchAlgorithm, StretchMode,
    TimelineSelection, TimelineState, TrackState,
};
use audio_tools::tool_window::{
    enough_for_phase, enough_for_spectrum, has_engine_audition, source_or_error, Cycle,
};
use audio_tools::window_items::{LoudnessTexts, NormalizeTexts, ToolTexts};
use audio_tools::tools::{
    AnalysisResult, AnalysisWork, ApplyStep, AudioToolCommand, AudioToolSession, AudioToolWindow,
    AudioToolWindowManager, DcOffset, FftSize, NormalizeMode, OfflineTool, PreviewValues,
    RealtimeTick, SpectrumMode, SpectrumSmoothing, SpectrumWindow, TempoCandidate, TimePitchMode,
    TransientMarker,
};

fn target(clip_id: &str) -> AudioToolTarget<f64> {
    AudioToolTarget {
        clip_id: clip_id.to_string(),
        source_id: "asset".to_string(),
        clip_name: "Kick".to_string(),
        file_label: "kick.wav".to_string(),
        source_path: Some("/tmp/kick.wav".to_string()),
        sample_rate: 96_000,
        channels: 2,
        source_frames: 1_000,
        time_selection: Some(AudioRangeSelection { start_frame: 5, end_frame: 9 }),
        spectral_selection: None,
    }
}

fn session(kind: AudioToolKind) -> AudioToolSession<f64> {
    AudioToolSession {
        tool_kind: kind,
        target: target("a"),
        follow_selection: true,
        pin_target: false,
        preview_enabled: true,
        preview_bypassed: false,
        dirty: true,
        analyzing: false,
    }
}

fn window(kind: AudioToolKind) -> AudioToolWindow<f64> {
    AudioToolWindow::new(
        session(kind),
        NormalizeMode::Peak,
        0,
        DcOffset { left: 0.1, right: 0.2 },
        DehumParams { base_hz: 50.0, harmonics: 4, reduction_db: 18.0 },
    )
}

fn timeline() -> TimelineState<f64> {
    TimelineState {
        tracks: vec![TrackState {
            color: 0,
            clips: vec![ClipState {
                id: "a".to_string(),
                name: "Kick".to_string(),
                clip_type: ClipType::Audio { source_path: None },
                asset_key: None,
                audio_import: AudioImportState::Ready,
                start_beat: 8.0,
                duration_beats: 4.0,
                offset_beats: 0.0,
                gain: 1.0,
                stretch: AudioClipStretchState {
                    mode: StretchMode::Off,
                    algorithm: StretchAlgorithm::PhaseVocoder,
                    preserve_pitch: false,
                    bpm_source: None,
                    bpm_target: None,
                    time_ratio: 1.0,
                    reverse: false,
                    denoise_amount: 0.0,
                    channel_transform: 0,
                    fade_in_ms: 0.0,
                    fade_out_ms: 0.0,
                    gain_envelope: vec![],
                    warp_markers: vec![],
                    source_start_samples: 10,
                    source_end_samples: 20,
                    original_duration_samples: 0,
                    original_sample_rate: 0,
                    dirty: false,
                },
            }],
        }],
        selection: TimelineSelection { selected_clip_ids: vec![] },
    }
}

fn values() -> PreviewValues<f64> {
    PreviewValues {
        zero: 0.0,
        gain: 2.0,
        stretch_ratio: 1.25,
        pitch_semitones: 3.0,
        denoise_amount: 0.5,
    }
}

const AVAILABLE: AvailableModules = AvailableModules {
    denoise: true,
    declick: true,
    dehum: true,
    spectral_repair: true,
    dereverb: false,
    debleed: false,
    defeedback: false,
    drum_silencer: false,
};

fn inputs() -> PressInputs<f64> {
    PressInputs {
        values: values(),
        hum_base: 60.0,
        marker_beats: vec![1.0, 2.0],
        slice_beats: vec![3.0],
        origin: 0.0,
        denoise_amount: 0.5,
        unchanged: false,
        available: AVAILABLE,
    }
}

fn preview(command: AudioToolCommand<f64>) -> ClipPreviewOverride<f64> {
    match command {
        AudioToolCommand::Preview { preview } => preview,
        _ => panic!("no preview"),
    }
}

fn effect_names(effects: &[ToolEffect<f64>]) -> Vec<&'static str> {
    effects
        .iter()
        .map(|effect| match effect {
            ToolEffect::Notify => "notify",
            ToolEffect::Analyze { .. } => "analyze",
            ToolEffect::LearnNoise => "learn",
            ToolEffect::Render { .. } => "render",
            ToolEffect::CloseWindow => "close",
            ToolEffect::Send { command } => match command {
                AudioToolCommand::Preview { .. } => "preview",
                AudioToolCommand::ClearPreview { .. } => "clear",
                AudioToolCommand::MutateClip { .. } => "mutate",
                AudioToolCommand::AddMarkers { .. } => "markers",
                AudioToolCommand::AddWarpMarkers { .. } => "warp",
                AudioToolCommand::SliceClip { .. } => "slice",
                AudioToolCommand::UseOriginalBpm { .. } => "bpm",
                AudioToolCommand::AddTempoPoint { .. } => "tempo",
                AudioToolCommand::ReplaceSource { .. } => "replace",
            },
        })
        .collect()
}

fn press(window: &mut AudioToolWindow<f64>, action: ToolAction) -> Vec<&'static str> {
    effect_names(&window.press(action, inputs(), &timeline()))
}

fn texts(items: &[PanelItem]) -> Vec<String> {
    items
        .iter()
        .map(|item| match item {
            PanelItem::Title { label, .. } => format!("= {label}"),
            PanelItem::Row { label, value } => format!("{label}: {value}"),
            PanelItem::Note { text } => text.clone(),
            PanelItem::Button { label, enabled, primary, .. } => format!(
                "[{label}{}{}]",
                if *primary { " *" } else { "" },
                if *enabled { "" } else { " off" }
            ),
            PanelItem::Check { label, enabled, checked, .. } => format!(
                "({label}{}{})",
                if *checked { " x" } else { "" },
                if *enabled { "" } else { " off" }
            ),
        })
        .collect()
}

#[test]
fn only_modules_with_an_engine_path_can_be_auditioned() {
    assert!(has_engine_audition(AudioRepairModule::Denoise));
    assert!(has_engine_audition(AudioRepairModule::DeHum));
    assert!(!has_engine_audition(AudioRepairModule::DeClick));
    assert!(!has_engine_audition(AudioRepairModule::SpectralRepair));
}

#[test]
fn a_new_window_has_analysed_nothing() {
    let fresh = window(AudioToolKind::Resample);
    assert_eq!(fresh.status, "");
    assert_eq!(fresh.resample_target, 44_100);
    assert_eq!(fresh.fft_size, FftSize::N2048);
    assert_eq!(fresh.spectrum_mode, SpectrumMode::SelectionAverage);
    assert!(fresh.preserve_transients && fresh.required_gain_db.is_none());
    let mut low = session(AudioToolKind::Resample);
    low.target.sample_rate = 22_050;
    let low = AudioToolWindow::new(
        low,
        NormalizeMode::Peak,
        0,
        DcOffset { left: 0.0, right: 0.0 },
        DehumParams { base_hz: 50.0, harmonics: 4, reduction_db: 18.0 },
    );
    assert_eq!(low.resample_target, 48_000);
}

#[test]
fn windows_follow_or_pin() {
    let mut one = session(AudioToolKind::Loudness);
    one.toggle_follow();
    assert!(!one.follow_selection && one.pin_target);
    assert!(!one.follow(&target("b")));
    assert_eq!(one.target.clip_id, "a");
    one.toggle_pin();
    assert!(one.follow_selection && !one.pin_target);
    assert!(one.follow(&target("b")));
    assert_eq!(one.target.clip_id, "b");
}

#[test]
fn the_manager_keeps_the_open_windows() {
    let mut manager: AudioToolWindowManager<f64> = AudioToolWindowManager::new();
    manager.keep(session(AudioToolKind::Normalize));
    manager.keep(session(AudioToolKind::Loudness));
    manager.keep(session(AudioToolKind::Normalize));
    manager.keep(session(AudioToolKind::Resample));
    assert_eq!(manager.windows.len(), 3);
    assert_eq!(manager.windows[0].tool_kind, AudioToolKind::Loudness);
    manager.windows[2].toggle_pin();
    assert_eq!(manager.follow_selection(&target("b")), vec![true, true, false]);
    assert_eq!(manager.windows[1].target.clip_id, "b");
    assert_eq!(manager.windows[2].target.clip_id, "a");
    manager.prune(&vec![true, false, true]);
    let kinds: Vec<AudioToolKind> = manager.windows.iter().map(|w| w.tool_kind).collect();
    assert_eq!(kinds, vec![AudioToolKind::Loudness, AudioToolKind::Resample]);
    manager.previews.push(ClipPreviewOverride::identity("a".to_string(), 0.0));
    manager.close_all();
    assert!(manager.windows.is_empty() && manager.previews.is_empty());
}

#[test]
fn realtime_ticks_read_what_the_tool_needs() {
    let mut analyzer = window(AudioToolKind::SpectrumAnalyzer);
    assert_eq!(analyzer.tick_realtime(), RealtimeTick::Nothing);
    analyzer.spectrum_mode = SpectrumMode::RealtimePlayback;
    assert_eq!(
        analyzer.tick_realtime(),
        RealtimeTick::Spectrum { samples: 2048, sample_rate: 96_000 }
    );
    assert!(!analyzer.begin_spectrum(1_023));
    assert!(analyzer.begin_spectrum(1_024));
    assert_eq!(analyzer.tick_realtime(), RealtimeTick::Nothing);
    analyzer.finish_spectrum();
    analyzer.session.target.sample_rate = 8_000;
    assert_eq!(
        analyzer.tick_realtime(),
        RealtimeTick::Spectrum { samples: 2048, sample_rate: 44_100 }
    );
    assert_eq!(
        window(AudioToolKind::PhaseAnalyzer).tick_realtime(),
        RealtimeTick::Phase { samples: 2048 }
    );
    assert_eq!(window(AudioToolKind::Loudness).tick_realtime(), RealtimeTick::Nothing);
    assert!(enough_for_spectrum(256, FftSize::N512) && !enough_for_spectrum(255, FftSize::N512));
    assert!(enough_for_phase(17) && !enough_for_phase(16));
}

#[test]
fn each_tool_analyses_its_own() {
    let work = |kind| {
        let mut one = window(kind);
        one.spectrum_mode = SpectrumMode::SelectionPeak;
        let job = one.begin_analysis();
        assert!(one.session.analyzing);
        assert_eq!(one.status, "Analyzing…");
        assert_eq!(job.source_path.as_deref(), Some("/tmp/kick.wav"));
        assert_eq!(job.selection.unwrap().end_frame, 9);
        job.work
    };
    assert_eq!(work(AudioToolKind::SpectrumAnalyzer), AnalysisWork::Spectrum { peak: true });
    assert_eq!(work(AudioToolKind::Loudness), AnalysisWork::Loudness);
    assert_eq!(work(AudioToolKind::Normalize), AnalysisWork::Loudness);
    assert_eq!(work(AudioToolKind::DcOffset), AnalysisWork::DcOffset);
    assert_eq!(work(AudioToolKind::BpmAnalysis), AnalysisWork::Tempo);
    assert_eq!(work(AudioToolKind::KeyAnalysis), AnalysisWork::Key);
    assert_eq!(work(AudioToolKind::TransientDetector), AnalysisWork::Transients);
    assert_eq!(work(AudioToolKind::PhaseAnalyzer), AnalysisWork::Phase);
    assert_eq!(work(AudioToolKind::SpectralProcessor), AnalysisWork::SpectralRegion);
    assert_eq!(work(AudioToolKind::Resample), AnalysisWork::Nothing);
}

#[test]
fn results_are_kept_and_told() {
    let mut one = window(AudioToolKind::Normalize);
    one.begin_analysis();
    one.finish_analysis(Ok(AnalysisResult::Loudness { required_gain_db: -3.0 }));
    assert!(!one.session.analyzing);
    assert_eq!(one.status, "");
    assert_eq!(one.required_gain_db, Some(-3.0));
    one.finish_analysis(Ok(AnalysisResult::DcOffset { dc: DcOffset { left: 0.5, right: 0.6 } }));
    assert_eq!(one.dc.right, 0.6);
    one.finish_analysis(Ok(AnalysisResult::Tempo {
        bpm: vec![TempoCandidate { bpm: 120.0, confidence: 0.9 }],
    }));
    assert_eq!(one.bpm[0].bpm, 120.0);
    one.finish_analysis(Ok(AnalysisResult::Transients {
        transients: vec![TransientMarker { source_frame: 7, strength: 1.0 }],
    }));
    assert_eq!(one.status, "1 transients");
    one.finish_analysis(Ok(AnalysisResult::SpectralRegion {
        text: "region 0–0 Hz".to_string(),
    }));
    assert_eq!(one.status, "region 0–0 Hz");
    one.finish_analysis(Ok(AnalysisResult::Plotted));
    assert_eq!(one.status, "");
    one.finish_analysis(Err("no file".to_string()));
    assert_eq!(one.status, "no file");
    assert_eq!(one.transients.len(), 1);
}

#[test]
fn noise_profiles_are_learned() {
    let mut one = window(AudioToolKind::AudioRepair);
    one.begin_learning();
    assert_eq!(one.status, "Learning noise profile…");
    one.finish_learning(Err("no file".to_string()));
    assert_eq!(one.status, "no file");
    assert!(one.learned_noise.is_none());
    one.finish_learning(Ok(vec![1.0]));
    assert_eq!(one.status, "Noise profile learned");
    assert_eq!(one.learned_noise, Some(vec![1.0]));
}

#[test]
fn previews_carry_what_the_tool_is_about() {
    let mut normalize = window(AudioToolKind::Normalize);
    assert_eq!(preview(normalize.emit_preview(&values())).extra_gain, None);
    normalize.required_gain_db = Some(1.0);
    let command = preview(normalize.emit_preview(&values()));
    assert_eq!((command.clip_id.as_str(), command.extra_gain), ("a", Some(2.0)));
    let mut channel = window(AudioToolKind::ChannelTools);
    channel.channel = 7;
    assert_eq!(preview(channel.emit_preview(&values())).channel, Some(7));
    let dc = preview(window(AudioToolKind::DcOffset).emit_preview(&values()));
    assert_eq!((dc.dc_remove, dc.dc_left, dc.dc_right), (Some(true), 0.1, 0.2));
    let time = preview(window(AudioToolKind::TimePitch).emit_preview(&values()));
    assert_eq!((time.stretch_ratio, time.pitch_semitones), (Some(1.25), Some(3.0)));
    let mut repair = window(AudioToolKind::AudioRepair);
    assert_eq!(preview(repair.emit_preview(&values())).denoise_amount, Some(0.5));
    repair.repair_module = AudioRepairModule::DeHum;
    assert_eq!(preview(repair.emit_preview(&values())).dehum.unwrap().harmonics, 4);
    repair.repair_module = AudioRepairModule::DeClick;
    let plain = preview(repair.emit_preview(&values()));
    assert!(plain.dehum.is_none() && plain.denoise_amount.is_none());
    assert!(repair.emit_repair_preview(&values()).is_none());
    repair.repair_module = AudioRepairModule::DeHum;
    assert!(repair.emit_repair_preview(&values()).is_some());
    assert!(preview(repair.toggle_bypass(&values())).bypass);
    assert!(matches!(
        repair.toggle_preview(&values()),
        AudioToolCommand::ClearPreview { clip_id } if clip_id == "a"
    ));
    assert!(repair.emit_repair_preview(&values()).is_none());
}

#[test]
fn applying_renders_or_dispatches_or_refuses() {
    let tool = |mut one: AudioToolWindow<f64>, unchanged| {
        match one.apply(&timeline(), 0.5, unchanged) {
            ApplyStep::Refused => Err(one.status),
            ApplyStep::Render { job } => {
                assert_eq!(one.status, "Rendering…");
                assert_eq!(job.source_window, (10, 20));
                assert_eq!(job.clip_id, "a");
                Ok(Some((job.tool, job.target_rate)))
            }
            ApplyStep::Dispatch { commands } => {
                assert!(!one.session.preview_enabled && !one.session.dirty);
                assert!(matches!(
                    commands.last(),
                    Some(AudioToolCommand::ClearPreview { clip_id }) if clip_id == "a"
                ));
                Ok(None)
            }
        }
    };
    assert_eq!(tool(window(AudioToolKind::Normalize), false), Err("Analyze first".to_string()));
    let mut measured = window(AudioToolKind::Normalize);
    measured.required_gain_db = Some(1.0);
    assert_eq!(tool(measured, false), Ok(Some((OfflineTool::Gain, 96_000))));
    assert_eq!(
        tool(window(AudioToolKind::ChannelTools), false),
        Ok(Some((OfflineTool::Channel, 96_000)))
    );
    assert_eq!(
        tool(window(AudioToolKind::DcOffset), false),
        Ok(Some((OfflineTool::RemoveDc, 96_000)))
    );
    assert_eq!(
        tool(window(AudioToolKind::TimePitch), true),
        Err("Nothing to apply".to_string())
    );
    assert_eq!(
        tool(window(AudioToolKind::TimePitch), false),
        Ok(Some((OfflineTool::Stretch, 96_000)))
    );
    assert_eq!(
        tool(window(AudioToolKind::SpectralProcessor), false),
        Ok(Some((OfflineTool::SpectralGain, 96_000)))
    );
    assert_eq!(
        tool(window(AudioToolKind::Resample), false),
        Ok(Some((OfflineTool::Resample, 44_100)))
    );
    let repair = |module, learned| {
        let mut one = window(AudioToolKind::AudioRepair);
        one.repair_module = module;
        one.learned_noise = learned;
        one
    };
    assert_eq!(
        tool(repair(AudioRepairModule::DeHum, None), false),
        Ok(Some((OfflineTool::DeHum, 96_000)))
    );
    assert_eq!(
        tool(repair(AudioRepairModule::DeClick, None), false),
        Ok(Some((OfflineTool::DeClick, 96_000)))
    );
    assert_eq!(
        tool(repair(AudioRepairModule::Denoise, Some(vec![])), false),
        Ok(Some((OfflineTool::Denoise, 96_000)))
    );
    assert_eq!(tool(repair(AudioRepairModule::Denoise, None), false), Ok(None));
    assert_eq!(tool(window(AudioToolKind::Loudness), false), Ok(None));
    let mut quick = repair(AudioRepairModule::Denoise, None);
    match quick.apply(&timeline(), 0.5, false) {
        ApplyStep::Dispatch { commands } => {
            assert!(matches!(
                &commands[0],
                AudioToolCommand::MutateClip { clip_id, label: "De-Noise", denoise_amount }
                    if clip_id == "a" && *denoise_amount == 0.5
            ));
        }
        _ => panic!("no profile was learned"),
    }
}

#[test]
fn renders_replace_the_source_or_say_why_not() {
    let mut one = window(AudioToolKind::Normalize);
    let commands =
        one.finish_render("a".to_string(), 48_000, Ok("/tmp/kick.a.processed.wav".to_string()));
    assert_eq!(one.status, "Applied");
    assert!(matches!(
        &commands[0],
        AudioToolCommand::ReplaceSource { path, sample_rate: 48_000, .. }
            if path == "/tmp/kick.a.processed.wav"
    ));
    assert!(matches!(&commands[1], AudioToolCommand::ClearPreview { .. }));
    assert!(one.session.preview_enabled);
    let commands = one.finish_render("a".to_string(), 48_000, Err("disk full".to_string()));
    assert!(commands.is_empty());
    assert_eq!(one.status, "disk full");
    assert_eq!(source_or_error(None), Err("clip has no source file".to_string()));
    assert_eq!(source_or_error(Some("/a".to_string())), Ok("/a".to_string()));
}

#[test]
fn cancelling_takes_the_preview_back() {
    let mut one = window(AudioToolKind::Normalize);
    assert!(matches!(one.cancel(), AudioToolCommand::ClearPreview { clip_id } if clip_id == "a"));
    assert!(!one.session.preview_enabled && !one.session.dirty);
}

#[test]
fn cycles_come_round() {
    let mut one = window(AudioToolKind::SpectrumAnalyzer);
    for _ in 0..4 {
        one.cycle(Cycle::SpectrumMode);
    }
    assert_eq!(one.spectrum_mode, SpectrumMode::SelectionAverage);
    one.cycle(Cycle::FftSize);
    assert_eq!(one.fft_size, FftSize::N4096);
    assert_eq!(FftSize::N16384.cycled(), FftSize::N512);
    assert_eq!(FftSize::N16384.size(), 16_384);
    one.cycle(Cycle::SpectrumWindow);
    assert_eq!(one.spectrum_window, SpectrumWindow::BlackmanHarris);
    one.cycle(Cycle::Smoothing);
    assert_eq!(one.smoothing, SpectrumSmoothing::SixthOctave);
    assert_eq!(SpectrumSmoothing::TwelfthOctave.cycled(), SpectrumSmoothing::Off);
    one.cycle(Cycle::PeakHold);
    assert!(one.peak_hold);
    one.cycle(Cycle::PhaseMode);
    assert!(one.phase_ms);
    let rates: Vec<u32> = (0..5)
        .map(|_| {
            one.cycle(Cycle::ResampleRate);
            one.resample_target
        })
        .collect();
    assert_eq!(rates, vec![48_000, 88_200, 96_000, 44_100, 48_000]);
}

#[test]
fn findings_become_commands() {
    let mut one = window(AudioToolKind::TransientDetector);
    assert!(one.add_transient_markers(vec![1.0]).is_none());
    assert!(one.add_warp_markers().is_none());
    assert!(one.slice_at_transients(vec![1.0]).is_none());
    assert!(one.use_original_bpm().is_none());
    assert!(one.add_tempo_point(&timeline(), 0.0).is_none());
    one.transients = vec![
        TransientMarker { source_frame: 7, strength: 1.0 },
        TransientMarker { source_frame: 9, strength: 0.5 },
    ];
    one.bpm = vec![TempoCandidate { bpm: 121.0, confidence: 0.9 }];
    assert!(matches!(
        one.add_transient_markers(vec![1.0, 2.0]),
        Some(AudioToolCommand::AddMarkers { beats, label: "Add Transient Markers" })
            if beats == vec![1.0, 2.0]
    ));
    assert!(matches!(
        one.add_warp_markers(),
        Some(AudioToolCommand::AddWarpMarkers { frames, .. }) if frames == vec![7, 9]
    ));
    assert!(matches!(
        one.slice_at_transients(vec![4.0]),
        Some(AudioToolCommand::SliceClip { beats, .. }) if beats == vec![4.0]
    ));
    assert!(matches!(
        one.use_original_bpm(),
        Some(AudioToolCommand::UseOriginalBpm { bpm, .. }) if bpm == 121.0
    ));
    assert!(matches!(
        one.add_tempo_point(&timeline(), 0.0),
        Some(AudioToolCommand::AddTempoPoint { beat, bpm }) if beat == 8.0 && bpm == 121.0
    ));
    one.session.target.clip_id = "gone".to_string();
    assert!(matches!(
        one.add_tempo_point(&timeline(), -1.0),
        Some(AudioToolCommand::AddTempoPoint { beat, .. }) if beat == -1.0
    ));
}

#[test]
fn controls_do_what_they_say() {
    let mut one = window(AudioToolKind::TimePitch);
    assert_eq!(press(&mut one, ToolAction::TimeStretch), ["preview", "notify"]);
    assert_eq!(one.time_mode, TimePitchMode::Stretch);
    assert_eq!(press(&mut one, ToolAction::PitchUp), ["preview", "notify"]);
    assert_eq!(press(&mut one, ToolAction::TimeOff), ["preview", "notify"]);
    assert_eq!(one.time_mode, TimePitchMode::Off);
    assert_eq!(press(&mut one, ToolAction::SetChannel { tag: 5 }), ["preview", "notify"]);
    assert_eq!(one.channel, 5);
    assert_eq!(press(&mut one, ToolAction::CycleHumBase), ["preview", "notify"]);
    assert_eq!(one.dehum.base_hz, 60.0);
    assert_eq!(press(&mut one, ToolAction::DenoiseMore), ["preview", "notify"]);
    assert_eq!(press(&mut one, ToolAction::SpectralSilence), ["notify"]);
    assert_eq!(press(&mut one, ToolAction::CycleSensitivity), ["notify"]);
    assert_eq!(
        press(&mut one, ToolAction::SetNormalizeMode { mode: NormalizeMode::Loudness }),
        ["notify"]
    );
    assert_eq!(one.normalize_mode, NormalizeMode::Loudness);
    assert_eq!(press(&mut one, ToolAction::Cycle { control: Cycle::PeakHold }), ["notify"]);
    assert!(one.peak_hold);
    assert_eq!(press(&mut one, ToolAction::ToggleFollow), ["notify"]);
    assert!(one.session.pin_target);
    assert_eq!(press(&mut one, ToolAction::TogglePin), ["notify"]);
    assert!(one.session.follow_selection);
    assert_eq!(press(&mut one, ToolAction::ToggleBypass), ["preview", "notify"]);
    assert!(one.session.preview_bypassed);
    assert_eq!(press(&mut one, ToolAction::TogglePreview), ["clear", "notify"]);
    assert!(press(&mut one, ToolAction::ToggleBypass).is_empty());
    assert!(one.session.preview_bypassed);
    assert_eq!(press(&mut one, ToolAction::Analyze), ["analyze"]);
    assert_eq!(one.status, "Analyzing…");
    assert_eq!(press(&mut one, ToolAction::LearnNoise), ["learn"]);
    assert_eq!(one.status, "Learning noise profile…");
    assert_eq!(press(&mut one, ToolAction::Close), ["close"]);
    assert_eq!(press(&mut one, ToolAction::Cancel), ["clear", "close"]);
    assert_eq!(press(&mut one, ToolAction::Apply), ["render", "notify"]);
    assert_eq!(one.status, "Rendering…");
}

#[test]
fn controls_that_are_not_offered_do_nothing() {
    let mut one = window(AudioToolKind::TransientDetector);
    for action in [
        ToolAction::AddMarkers,
        ToolAction::CreateWarpMarkers,
        ToolAction::Slice,
        ToolAction::Quantize,
        ToolAction::UseOriginalBpm,
        ToolAction::AddTempoMarker,
        ToolAction::SelectModule { module: AudioRepairModule::DeReverb },
    ] {
        assert!(press(&mut one, action).is_empty());
    }
    assert_eq!(one.repair_module, AudioRepairModule::Denoise);
    one.transients = vec![TransientMarker { source_frame: 7, strength: 1.0 }];
    one.bpm = vec![TempoCandidate { bpm: 121.0, confidence: 0.9 }];
    assert_eq!(press(&mut one, ToolAction::AddMarkers), ["markers"]);
    assert_eq!(press(&mut one, ToolAction::CreateWarpMarkers), ["warp"]);
    assert_eq!(press(&mut one, ToolAction::Slice), ["slice"]);
    assert_eq!(press(&mut one, ToolAction::UseOriginalBpm), ["bpm"]);
    assert_eq!(press(&mut one, ToolAction::AddTempoMarker), ["tempo"]);
    assert!(press(&mut one, ToolAction::Quantize).is_empty());
    let module = AudioRepairModule::SpectralRepair;
    assert_eq!(press(&mut one, ToolAction::SelectModule { module }), ["notify"]);
    assert_eq!(one.repair_module, module);
    let mut quick = window(AudioToolKind::AudioRepair);
    assert_eq!(press(&mut quick, ToolAction::Apply), ["mutate", "clear", "notify"]);
    let mut unmeasured = window(AudioToolKind::Normalize);
    assert_eq!(press(&mut unmeasured, ToolAction::Apply), ["notify"]);
    assert_eq!(unmeasured.status, "Analyze first");
}

#[test]
fn bodies_show_the_tool() {
    let mut one = window(AudioToolKind::SpectrumAnalyzer);
    assert_eq!(
        texts(&one.spectrum_body("Average", "2048", "Hann", "None")),
        [
            "Mode: Average",
            "FFT: 2048",
            "Window: Hann",
            "Smoothing: None",
            "Peak Hold: Off",
            "Range: 20 Hz → Nyquist",
            "[Cycle Mode]",
            "[Cycle FFT]",
            "[Cycle Window]",
            "[Cycle Smooth]",
            "[Peak Hold On]",
            "[Analyze]",
        ]
    );
    let some = |text: &str| Some(text.to_string());
    assert_eq!(
        texts(&one.loudness_body(&some("-20.0 LUFS"), &None, &None, &None, &None, &None)),
        [
            "Momentary: -20.0 LUFS",
            "Short-Term: —",
            "Integrated: —",
            "LRA: —",
            "True Peak: —",
            "Peak: —",
            "[Analyze]",
        ]
    );
    let normalize =
        texts(&one.normalize_body("Peak", "-1", "-2", "-14", &None, &None, &None, &some("+3.0 dB")));
    assert_eq!(normalize[7..12], [
        "Required Gain: +3.0 dB",
        "[Peak *]",
        "[True Peak]",
        "[Loudness]",
        "[Analyze]",
    ]);
    assert_eq!(
        texts(&one.transient_body("50%", "40 ms", "Full")),
        [
            "Sensitivity: 50%",
            "Minimum Gap: 40 ms",
            "Frequency Focus: Full",
            "Results: 0 transients",
            "[Analyze]",
            "[Add Markers off]",
            "[Create Warp Markers off]",
            "[Slice off]",
            "[Quantize off]",
        ]
    );
    let time = texts(&one.time_pitch_body("100", "2 s", &some("120.000"), "0", "0"));
    assert_eq!(time[0], "Time mode: Off");
    assert_eq!(time[3], "Original BPM: 120.000");
    assert_eq!(time[7], "Preserve Transients: On");
    assert_eq!(time[9..], ["[Off]", "[Stretch]", "[+1 st]", "[−1 st]"]);
    assert_eq!(
        texts(&one.resample_body()),
        [
            "Current: 96000 Hz",
            "Target: 44100 Hz",
            "Quality: High",
            "Mode: Offline Render",
            "[Cycle Target Rate]",
        ]
    );
    assert_eq!(
        texts(&one.phase_body("0.50")),
        ["Mode: L/R", "Correlation: 0.50", "−1 ← 0 → +1", "[Use M/S]"]
    );
    one.phase_ms = true;
    assert_eq!(texts(&one.phase_body("0.50"))[3], "[Use L/R]");
    assert_eq!(texts(&one.dc_body("+0", "-0")), ["Left: +0", "Right: -0", "[Analyze]"]);
    assert_eq!(
        texts(&one.spectral_body(&None, &some("20–90 Hz"), "+0.0 dB")),
        [
            "Time: entire clip",
            "Frequency: 20–90 Hz",
            "Gain: +0.0 dB",
            "Apply writes a derived WAV via STFT gain.",
            "[−3 dB]",
            "[+3 dB]",
            "[Silence]",
        ]
    );
    assert_eq!(
        texts(&one.spectrogram_settings_body("2048", "Hann")),
        [
            "FFT: 2048",
            "Window: Hann",
            "These settings drive the Spectrum Analyzer FFT.",
            "[Cycle FFT]",
        ]
    );
    one.bpm = vec![TempoCandidate { bpm: 121.0, confidence: 0.9 }];
    let found: Vec<String> = (1..5).map(|i| i.to_string()).collect();
    assert_eq!(
        texts(&one.bpm_body("60", "200", &found)),
        [
            "Minimum BPM: 60",
            "Maximum BPM: 200",
            "Candidate: 1",
            "Candidate: 2",
            "Candidate: 3",
            "[Analyze]",
            "[Use as Original BPM]",
            "[Add Tempo Marker]",
        ]
    );
    assert_eq!(
        texts(&one.key_body(&found, &some("0.90"), &None)),
        [
            "Detected: 1",
            "Confidence: 0.90",
            "User key: —",
            "Alternate: 2",
            "Alternate: 3",
            "[Analyze]",
        ]
    );
    assert_eq!(
        texts(&one.key_body(&vec![], &some("0.90"), &some("C"))),
        ["Detected: —", "Confidence: —", "User key: C", "[Analyze]"]
    );
    assert_eq!(
        texts(&channel_body(4, &vec![(0, "Stereo".to_string()), (4, "Swap".to_string())])),
        ["[Stereo]", "[Swap *]"]
    );
    assert_eq!(time_mode_name(TimePitchMode::FitDuration), "Fit Duration");
    assert_eq!(time_mode_name(TimePitchMode::FollowTempo), "Follow Tempo");
}

#[test]
fn the_repair_panel_lists_its_modules() {
    let mut one = window(AudioToolKind::AudioRepair);
    let names: Vec<String> = (0..8).map(|row| format!("M{row}")).collect();
    let words = RepairTexts {
        denoise_reduction: "12 dB".to_string(),
        denoise_threshold: "-48 dB".to_string(),
        click_sensitivity: "65%".to_string(),
        click_width: "12 smp".to_string(),
        hum_base: "50 Hz".to_string(),
        hum_reduction: "18 dB".to_string(),
    };
    let shown = texts(&one.repair_body(&names, &AVAILABLE, &words));
    assert_eq!(shown[..8], [
        "[M0 *]",
        "[M1]",
        "[M2]",
        "[M4 (unavailable) off]",
        "[M5 (unavailable) off]",
        "[M6 (unavailable) off]",
        "[M7 (unavailable) off]",
        "[M3]",
    ]);
    assert_eq!(shown[8..], [
        "Reduction: 12 dB",
        "Threshold: -48 dB",
        "Noise profile: None",
        "[−3 dB]",
        "[+3 dB]",
        "[Learn Noise Profile]",
    ]);
    one.learned_noise = Some(vec![]);
    assert_eq!(texts(&one.denoise_body("12", "-48"))[2], "Noise profile: Learned");
    one.repair_module = AudioRepairModule::DeClick;
    assert_eq!(texts(&one.repair_body(&names, &AVAILABLE, &words))[8..], [
        "Sensitivity: 65%",
        "Max Click Width: 12 smp",
        "[Cycle Sensitivity]",
    ]);
    one.repair_module = AudioRepairModule::DeHum;
    assert_eq!(texts(&one.repair_body(&names, &AVAILABLE, &words))[8..], [
        "Base: 50 Hz",
        "Harmonics: 4",
        "Reduction: 18 dB",
        "[Cycle 50/60 Hz]",
    ]);
    one.repair_module = AudioRepairModule::SpectralRepair;
    assert_eq!(
        texts(&one.repair_body(&names, &AVAILABLE, &words))[8..],
        ["Use Spectral Processing with a spectral selection."]
    );
    one.repair_module = AudioRepairModule::DeReverb;
    assert_eq!(
        texts(&one.repair_body(&names, &AVAILABLE, &words))[8..],
        ["This module is not available yet."]
    );
}

#[test]
fn footers_offer_only_what_applies() {
    let mut one = window(AudioToolKind::Normalize);
    one.status = "Applied".to_string();
    assert_eq!(
        texts(&one.footer(false, "Analyzing… 0%")),
        [
            "Applied",
            "(Follow Selection x)",
            "(Pin Target)",
            "(Preview x)",
            "(Bypass)",
            "[Cancel]",
            "[Apply *]",
        ]
    );
    one.session.preview_enabled = false;
    assert_eq!(texts(&one.footer(false, ""))[4], "(Bypass off)");
    one.session.analyzing = true;
    assert_eq!(
        texts(&one.footer(true, "Analyzing… 40%")),
        ["Analyzing… 40%", "(Follow Selection x)", "(Pin Target)", "[Close]"]
    );
}

#[test]
fn bars_are_spread_over_the_bins() {
    assert_eq!(bar_bins(0), vec![0]);
    assert_eq!(bar_bins(3), vec![0, 1, 2]);
    let bars = bar_bins(1_025);
    assert_eq!(bars.len(), 240);
    assert_eq!(bars[239], 239 * 1_025 / 240);
}

fn tool_texts() -> ToolTexts {
    let text = |words: &str| words.to_string();
    let some = |words: &str| Some(words.to_string());
    ToolTexts {
        spectrum_mode: text("Average"),
        fft_size: text("2048"),
        spectrum_window: text("Hann"),
        smoothing: text("None"),
        loudness: LoudnessTexts {
            momentary: some("-20.0 LUFS"),
            shortterm: None,
            integrated: None,
            range: None,
            true_peak: None,
            peak: None,
        },
        normalize: NormalizeTexts {
            mode: text("Peak"),
            peak_target: text("-1.00 dBFS"),
            true_peak_target: text("-1.00 dBTP"),
            loudness_target: text("-14.0 LUFS"),
            peak: None,
            lufs: None,
            true_peak: None,
            gain: None,
        },
        sensitivity: text("50%"),
        gap: text("40 ms"),
        focus: text("Full"),
        ratio: text("100.000 %"),
        duration: text("2.000 s"),
        original_bpm: None,
        semitones: text("0"),
        cents: text("0"),
        routes: vec![(0, text("Stereo")), (4, text("Swap"))],
        correlation: text("0.50"),
        dc_left: text("+0.1000"),
        dc_right: text("+0.2000"),
        bpm_minimum: text("60"),
        bpm_maximum: text("200"),
        tempos: vec![],
        keys: vec![text("C major")],
        key_confidence: some("0.90"),
        user_key: None,
        modules: (0..8).map(|row| format!("M{row}")).collect(),
        available: AVAILABLE,
        repair: RepairTexts {
            denoise_reduction: text("12 dB"),
            denoise_threshold: text("-48 dB"),
            click_sensitivity: text("65%"),
            click_width: text("12 smp"),
            hum_base: text("50 Hz"),
            hum_reduction: text("18 dB"),
        },
        spectral_frames: None,
        spectral_band: some("20–90 Hz"),
        spectral_gain: text("+0.0 dB"),
    }
}

#[test]
fn each_tool_has_its_own_body() {
    let first = |kind| texts(&window(kind).tool_body(&tool_texts()))[0].clone();
    assert_eq!(first(AudioToolKind::SpectrumAnalyzer), "Mode: Average");
    assert_eq!(first(AudioToolKind::Loudness), "Momentary: -20.0 LUFS");
    assert_eq!(first(AudioToolKind::Normalize), "Mode: Peak");
    assert_eq!(first(AudioToolKind::TransientDetector), "Sensitivity: 50%");
    assert_eq!(first(AudioToolKind::TimePitch), "Time mode: Off");
    assert_eq!(first(AudioToolKind::Resample), "Current: 96000 Hz");
    assert_eq!(first(AudioToolKind::ChannelTools), "[Stereo *]");
    assert_eq!(first(AudioToolKind::PhaseAnalyzer), "Mode: L/R");
    assert_eq!(first(AudioToolKind::DcOffset), "Left: +0.1000");
    assert_eq!(first(AudioToolKind::BpmAnalysis), "Minimum BPM: 60");
    assert_eq!(first(AudioToolKind::KeyAnalysis), "Detected: C major");
    assert_eq!(first(AudioToolKind::AudioRepair), "[M0 *]");
    assert_eq!(first(AudioToolKind::SpectralProcessor), "Time: entire clip");
    assert_eq!(first(AudioToolKind::SpectrogramSettings), "FFT: 2048");
}

#[test]
fn a_window_is_header_body_and_footer() {
    let one = window(AudioToolKind::DcOffset);
    assert_eq!(
        texts(&one.render("DC Offset", "Kick", "kick.wav · 96 kHz", &tool_texts(), false, "")),
        [
            "= DC Offset",
            "Target: Kick",
            "Source: kick.wav · 96 kHz",
            "Left: +0.1000",
            "Right: +0.2000",
            "[Analyze]",
            "",
            "(Follow Selection x)",
            "(Pin Target)",
            "(Preview x)",
            "(Bypass)",
            "[Cancel]",
            "[Apply *]",
        ]
    );
}

#[test]
fn controls_are_enabled_when_they_can_be_used() {
    for kind in [
        AudioToolKind::TransientDetector,
        AudioToolKind::BpmAnalysis,
        AudioToolKind::AudioRepair,
        AudioToolKind::Loudness,
    ] {
        let shown = window(kind).render("", "", "", &tool_texts(), false, "");
        for item in shown {
            let (action, enabled) = match item {
                PanelItem::Title { action, .. } => (action, true),
                PanelItem::Button { action, enabled, .. } => (action, enabled),
                PanelItem::Check { action, enabled, .. } => (action, enabled),
                _ => continue,
            };
            let effects = window(kind).press(action, inputs(), &timeline());
            assert_eq!(enabled, !effects.is_empty(), "{action:?}");
        }
    }
}
