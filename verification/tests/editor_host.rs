//! The audio editor's state machine.

use audio_tools::editor::{
    AudioEditorDrag, AudioEditorEvent, AudioEditorSnap, AudioEditorState, AudioEditorTool,
    ClipEdge, FrequencyScale, HostEffect, KeyAction, PointerReading, StretchEdit,
};
use audio_tools::host::{
    crossing_window, key_action, snap_target, source_end_frame, total_source_frames, Audition,
    AudioEditorHost, SnapTarget, SourceFacts,
};
use audio_tools::stretch::AudioFadeSide;
use audio_tools::target::{AudioToolKind, SpectralSelection, WaveformFileMeta};
use audio_tools::timeline::{
    AudioClipStretchState, AudioImportState, BeatPosition, ClipState, ClipType, EnvelopeCurve,
    EnvelopePoint, StretchAlgorithm, StretchMode, TimelineSelection, TimelineState, TrackState,
    WarpMarker,
};

type Host = AudioEditorHost<f64, String>;

fn stretch() -> AudioClipStretchState<f64> {
    AudioClipStretchState {
        mode: StretchMode::Off,
        algorithm: StretchAlgorithm::PhaseVocoder,
        preserve_pitch: false,
        bpm_source: None,
        bpm_target: None,
        time_ratio: 1.0,
        reverse: true,
        denoise_amount: 0.0,
        channel_transform: 0,
        fade_in_ms: 0.0,
        fade_out_ms: 0.0,
        gain_envelope: vec![
            EnvelopePoint { id: 4, time: 0.0, value_db: 0.0, curve: EnvelopeCurve::Linear },
            EnvelopePoint { id: 9, time: 0.5, value_db: 0.0, curve: EnvelopeCurve::Linear },
        ],
        warp_markers: vec![
            WarpMarker {
                id: 3,
                source_sample: 0,
                timeline_beat: BeatPosition { beat: 0.0, rank: 0 },
                locked: false,
            },
            WarpMarker {
                id: 5,
                source_sample: 100,
                timeline_beat: BeatPosition { beat: 1.0, rank: 10 },
                locked: false,
            },
        ],
        source_start_samples: 0,
        source_end_samples: 0,
        original_duration_samples: 500,
        original_sample_rate: 22_050,
        dirty: false,
    }
}

fn audio(id: &str) -> ClipState<f64> {
    ClipState {
        id: id.to_string(),
        name: "Kick".to_string(),
        clip_type: ClipType::Audio { source_path: Some("/tmp/kick.wav".to_string()) },
        asset_key: Some("asset".to_string()),
        audio_import: AudioImportState::Ready,
        start_beat: 8.0,
        duration_beats: 4.0,
        offset_beats: 0.0,
        gain: 1.0,
        stretch: stretch(),
    }
}

fn timeline(selected: &[&str]) -> TimelineState<f64> {
    TimelineState {
        tracks: vec![TrackState { color: 7, clips: vec![audio("a"), audio("b")] }],
        selection: TimelineSelection {
            selected_clip_ids: selected.iter().map(|id| id.to_string()).collect(),
        },
    }
}

fn host(tool: AudioEditorTool) -> Host {
    AudioEditorHost {
        state: AudioEditorState {
            active_tool: tool,
            snap: AudioEditorSnap::Grid,
            zero_crossing_snap: false,
            open_dropdown: Some(2),
            channel_mode: 0,
            view_mode: 0,
            amplitude_scale: 0,
            frequency_scale: FrequencyScale::Linear,
            display_smoothing: 0,
            selection_range: None,
            spectral_selection: None,
            drag: AudioEditorDrag::Idle,
            fitted_clip_id: None,
        },
        last_editing_clip: None,
        active_clip_id: None,
        spectrogram_key: None,
        spectrogram_result: None,
        spectrogram_generation: 0,
        pending_open_tool: None,
        pending_audition: None,
    }
}

fn band(start_frame: i64, end_frame: i64) -> SpectralSelection<f64> {
    SpectralSelection { start_frame, end_frame, min_hz: 100.0, max_hz: 200.0 }
}

fn reading() -> PointerReading<f64> {
    PointerReading {
        abs_beat: 9.5,
        rel_beat: 1.5,
        clip_beat: 9.5,
        selection_beat: 8.25,
        frame: 1_000,
        hz: 440.0,
        spectral: band(1_000, 1_000),
        on_fade_in: false,
        on_fade_out: false,
        fade_in_seconds: 0.1,
        fade_out_seconds: 0.2,
        fade_in_ms: 150.0,
        fade_out_ms: 250.0,
        at_start: false,
        at_end: false,
        marker_hits: vec![false, false],
        point_hits: vec![false, false],
        time: 0.375,
        value_db: -6.0,
        warp: Some((48_000, BeatPosition { beat: 9.5, rank: 95 })),
        drawn_range_empty: false,
        kept_range_empty: true,
        drawn_spectral_empty: false,
        kept_spectral_empty: true,
        follows_tempo: true,
    }
}

fn facts() -> SourceFacts {
    SourceFacts {
        meta: None,
        spectrogram_rate: 0,
        spectrogram_frames: 0,
        selected_frames: (11, 22),
    }
}

fn fire(host: &mut Host, event: AudioEditorEvent<f64>) -> Vec<HostEffect<f64>> {
    host.handle_event(event, &timeline(&["a"]), &reading(), &facts())
}

fn names(effects: &[HostEffect<f64>]) -> Vec<String> {
    effects
        .iter()
        .map(|effect| match effect {
            HostEffect::Notify => "notify".to_string(),
            HostEffect::BeginGesture { clip_id } => format!("begin {clip_id}"),
            HostEffect::CommitGesture { clip_id } => format!("commit {clip_id}"),
            HostEffect::CancelGesture => "cancel".to_string(),
            HostEffect::Seek { beat } => format!("seek {beat}"),
            HostEffect::SplitClip { clip_id, beat } => format!("split {clip_id} {beat}"),
            HostEffect::AddMarker { beat } => format!("marker {beat}"),
            HostEffect::ResizeClip { clip_id, edge, beat } => {
                format!("resize {clip_id} {} {beat}", if *edge == ClipEdge::Left { "left" } else { "right" })
            }
            HostEffect::EditStretch { clip_id, edit } => format!("edit {clip_id} {}", change(edit)),
            HostEffect::ApplyStretch { clip_id, edit } => {
                format!("apply {clip_id} {}", change(edit))
            }
            HostEffect::ApplyGain { clip_id, delta_db } => format!("gain {clip_id} {delta_db}"),
            HostEffect::ApplyPitch { clip_id, delta_semitones } => {
                format!("pitch {clip_id} {delta_semitones}")
            }
            HostEffect::ApplyFinePitch { clip_id, delta_cents } => {
                format!("cents {clip_id} {delta_cents}")
            }
            HostEffect::ZoomBy { factor, anchor_x } => format!("zoom {factor} {anchor_x:?}"),
            HostEffect::ZoomIn => "zoom in".to_string(),
            HostEffect::ZoomOut => "zoom out".to_string(),
            HostEffect::FitClip { duration_beats } => format!("fit {duration_beats}"),
            HostEffect::AdjustVerticalZoom { factor } => format!("vertical {factor}"),
            HostEffect::ResetVerticalZoom => "vertical reset".to_string(),
        })
        .collect()
}

fn change(edit: &StretchEdit<f64>) -> String {
    match edit {
        StretchEdit::FollowTempo { enabled } => format!("follow {enabled}"),
        StretchEdit::Reverse { enabled } => format!("reverse {enabled}"),
        StretchEdit::Denoise { amount } => format!("denoise {amount}"),
        StretchEdit::Channel { tag } => format!("channel {tag}"),
        StretchEdit::Fade { side, milliseconds } => {
            format!("fade {} {milliseconds}", if *side == AudioFadeSide::In { "in" } else { "out" })
        }
        StretchEdit::DrawPoint { point_id, time, value_db } => {
            format!("draw {point_id} {time} {value_db}")
        }
        StretchEdit::MovePoint { point_id, time, value_db } => {
            format!("point {point_id} {time} {value_db}")
        }
        StretchEdit::AddWarpMarker { source_sample, timeline_beat } => {
            format!("warp at {source_sample} {}", timeline_beat.beat)
        }
        StretchEdit::MoveWarpMarker { marker_id, beat } => format!("warp {marker_id} {beat}"),
    }
}

#[test]
fn letters_choose_tools_and_digits_zoom() {
    let tool = |tool| KeyAction::SelectTool { tool };
    assert_eq!(key_action("q", false), tool(AudioEditorTool::Pointer));
    assert_eq!(key_action("p", false), tool(AudioEditorTool::Pointer));
    assert_eq!(key_action("r", false), tool(AudioEditorTool::Range));
    assert_eq!(key_action("x", false), tool(AudioEditorTool::SpectralRange));
    assert_eq!(key_action("s", false), tool(AudioEditorTool::Split));
    assert_eq!(key_action("f", false), tool(AudioEditorTool::Fade));
    assert_eq!(key_action("m", false), tool(AudioEditorTool::Marker));
    assert_eq!(key_action("y", false), tool(AudioEditorTool::Trim));
    assert_eq!(key_action("z", false), tool(AudioEditorTool::Scrub));
    assert_eq!(key_action("d", false), tool(AudioEditorTool::Draw));
    assert_eq!(key_action("e", false), tool(AudioEditorTool::Draw));
    assert_eq!(key_action("w", false), tool(AudioEditorTool::Warp));
    assert_eq!(key_action("a", false), tool(AudioEditorTool::Audition));
    assert_eq!(
        key_action("t", false),
        KeyAction::OpenTool { kind: AudioToolKind::TransientDetector }
    );
    assert_eq!(key_action("n", false), KeyAction::OpenTool { kind: AudioToolKind::Normalize });
    assert_eq!(key_action("escape", false), KeyAction::Escape);
    assert_eq!(key_action("0", false), KeyAction::Fit);
    assert_eq!(key_action("=", false), KeyAction::ZoomIn);
    assert_eq!(key_action("_", false), KeyAction::ZoomOut);
    assert_eq!(key_action("k", false), KeyAction::Ignore);
    assert_eq!(key_action("s", true), KeyAction::Ignore);
}

#[test]
fn a_press_acts_by_the_tool() {
    let press = |tool| {
        let mut host = host(tool);
        let effects = fire(&mut host, AudioEditorEvent::PointerDown);
        (host, names(&effects))
    };
    assert_eq!(press(AudioEditorTool::Split).1, ["split a 9.5"]);
    assert_eq!(press(AudioEditorTool::Marker).1, ["marker 9.5"]);
    assert_eq!(press(AudioEditorTool::Pointer).1, ["seek 9.5"]);
    assert_eq!(press(AudioEditorTool::Fade).1, ["seek 9.5"]);
    assert!(press(AudioEditorTool::Trim).1.is_empty());
    let (pressed, effects) = press(AudioEditorTool::Range);
    assert_eq!(effects, ["notify"]);
    assert_eq!(pressed.state.selection_range, Some((1.5, 1.5)));
    assert!(matches!(
        pressed.state.drag,
        AudioEditorDrag::SelectingRange { anchor_beat } if anchor_beat == 1.5
    ));
    let (pressed, effects) = press(AudioEditorTool::SpectralRange);
    assert_eq!(effects, ["notify"]);
    assert!(matches!(
        pressed.state.drag,
        AudioEditorDrag::SelectingSpectralRange { anchor_frame: 1_000, .. }
    ));
    let (pressed, effects) = press(AudioEditorTool::Scrub);
    assert_eq!(effects, ["seek 9.5"]);
    assert!(matches!(pressed.state.drag, AudioEditorDrag::SelectingRange { .. }));
    assert_eq!(pressed.state.selection_range, None);
    assert_eq!(press(AudioEditorTool::Warp).1, ["apply a warp at 48000 9.5", "notify"]);
    let (pressed, effects) = press(AudioEditorTool::Draw);
    assert_eq!(effects, ["begin a", "edit a draw 10 0.375 -6"]);
    assert!(matches!(
        pressed.state.drag,
        AudioEditorDrag::MovingEnvelopePoint { point_id: 10 }
    ));
    assert_eq!(pressed.active_clip_id.as_deref(), Some("a"));
}

#[test]
fn the_first_thing_hit_is_moved() {
    let mut at = reading();
    at.marker_hits = vec![false, true];
    at.point_hits = vec![true, true];
    let mut warping = host(AudioEditorTool::Warp);
    let effects = warping.begin_pointer(&timeline(&["a"]), &at);
    assert_eq!(names(&effects), ["begin a", "notify"]);
    assert!(matches!(warping.state.drag, AudioEditorDrag::MovingWarpMarker { marker_id: 5 }));
    let effects = warping.update_pointer(&timeline(&["a"]), &at);
    assert_eq!(names(&effects), ["edit a warp 5 9.5"]);
    let mut drawing = host(AudioEditorTool::Draw);
    let effects = drawing.begin_pointer(&timeline(&["a"]), &at);
    assert_eq!(names(&effects), ["begin a", "edit a draw 4 0.375 -6"]);
    let effects = drawing.update_pointer(&timeline(&["a"]), &at);
    assert_eq!(names(&effects), ["edit a point 4 0.375 -6"]);
}

#[test]
fn edges_and_fades_are_dragged() {
    let mut at = reading();
    at.at_start = true;
    at.at_end = true;
    let mut trimming = host(AudioEditorTool::Trim);
    assert_eq!(names(&trimming.begin_pointer(&timeline(&["a"]), &at)), ["begin a"]);
    assert_eq!(names(&trimming.update_pointer(&timeline(&["a"]), &at)), ["resize a left 9.5"]);
    at.at_start = false;
    let mut trimming = host(AudioEditorTool::Pointer);
    assert_eq!(names(&trimming.begin_pointer(&timeline(&["a"]), &at)), ["begin a"]);
    assert_eq!(names(&trimming.update_pointer(&timeline(&["a"]), &at)), ["resize a right 9.5"]);
    at.on_fade_in = true;
    let mut fading = host(AudioEditorTool::Fade);
    assert_eq!(names(&fading.begin_pointer(&timeline(&["a"]), &at)), ["begin a"]);
    assert_eq!(names(&fading.update_pointer(&timeline(&["a"]), &at)), ["edit a fade in 150"]);
    at.on_fade_in = false;
    at.on_fade_out = true;
    let mut fading = host(AudioEditorTool::Fade);
    fading.begin_pointer(&timeline(&["a"]), &at);
    assert!(matches!(
        fading.state.drag,
        AudioEditorDrag::AdjustingFadeOut { original_seconds } if original_seconds == 0.2
    ));
    assert_eq!(names(&fading.update_pointer(&timeline(&["a"]), &at)), ["edit a fade out 250"]);
    assert_eq!(names(&fading.finish_pointer(true, true)), ["commit a"]);
    assert!(matches!(fading.state.drag, AudioEditorDrag::Idle));
}

#[test]
fn the_release_position_counts_as_a_last_move() {
    let mut host = host(AudioEditorTool::Range);
    fire(&mut host, AudioEditorEvent::PointerDown);
    let mut at = reading();
    at.rel_beat = 3.0;
    let effects =
        host.handle_event(AudioEditorEvent::PointerUp, &timeline(&["a"]), &at, &facts());
    assert_eq!(names(&effects), ["notify", "notify"]);
    assert_eq!(host.state.selection_range, Some((1.5, 3.0)));
    assert!(matches!(host.state.drag, AudioEditorDrag::Idle));
}

#[test]
fn empty_selections_are_dropped() {
    let mut host = host(AudioEditorTool::Range);
    fire(&mut host, AudioEditorEvent::PointerDown);
    let mut at = reading();
    at.drawn_range_empty = true;
    at.kept_range_empty = false;
    host.handle_event(AudioEditorEvent::PointerUp, &timeline(&["a"]), &at, &facts());
    assert_eq!(host.state.selection_range, None);
    host.state.active_tool = AudioEditorTool::SpectralRange;
    fire(&mut host, AudioEditorEvent::PointerDown);
    assert!(host.state.spectral_selection.is_some());
    host.finish_pointer(false, true);
    assert!(host.state.spectral_selection.is_none());
}

#[test]
fn audition_lasts_as_long_as_the_press() {
    let mut host = host(AudioEditorTool::Audition);
    let effects = fire(&mut host, AudioEditorEvent::PointerDown);
    assert_eq!(names(&effects), ["seek 9.5", "notify"]);
    assert!(matches!(
        host.take_pending_audition(),
        Some(Audition::Start { beat }) if beat == 9.5
    ));
    assert!(host.take_pending_audition().is_none());
    assert_eq!(names(&fire(&mut host, AudioEditorEvent::PointerMove)), ["seek 9.5"]);
    fire(&mut host, AudioEditorEvent::PointerUp);
    assert!(matches!(host.take_pending_audition(), Some(Audition::Stop)));
    host.state.selection_range = Some((0.25, 1.0));
    let effects = fire(&mut host, AudioEditorEvent::PointerDown);
    assert_eq!(names(&effects), ["seek 8.25", "notify"]);
}

#[test]
fn events_without_a_clip_edit_nothing() {
    let mut host = host(AudioEditorTool::Draw);
    let nothing = timeline(&[]);
    for event in [
        AudioEditorEvent::PointerDown,
        AudioEditorEvent::PointerMove,
        AudioEditorEvent::PointerUp,
        AudioEditorEvent::Seek,
        AudioEditorEvent::FitClip,
        AudioEditorEvent::ToggleReverse,
        AudioEditorEvent::ToggleFollowTempo,
        AudioEditorEvent::AdjustGain { delta_db: 1.0 },
        AudioEditorEvent::SetClipChannel { tag: 1 },
    ] {
        let effects = host.handle_event(event, &nothing, &reading(), &facts());
        assert!(effects.is_empty());
    }
    assert_eq!(host.state.open_dropdown, Some(2));
    let kind = AudioToolKind::Normalize;
    let effects =
        host.handle_event(AudioEditorEvent::OpenTool { kind }, &nothing, &reading(), &facts());
    assert_eq!(names(&effects), ["notify"]);
    assert!(host.take_pending_open_tool().is_none());
}

#[test]
fn settings_change_the_active_clip() {
    let mut host = host(AudioEditorTool::Pointer);
    let mut done = |event| names(&fire(&mut host, event));
    assert_eq!(done(AudioEditorEvent::SetClipChannel { tag: 6 }), ["apply a channel 6"]);
    assert_eq!(done(AudioEditorEvent::ToggleReverse), ["apply a reverse false"]);
    assert_eq!(done(AudioEditorEvent::SetReverse { enabled: true }), ["apply a reverse true"]);
    assert_eq!(done(AudioEditorEvent::ToggleFollowTempo), ["apply a follow false"]);
    assert_eq!(
        done(AudioEditorEvent::SetFollowTempo { enabled: true }),
        ["apply a follow true"]
    );
    assert_eq!(
        done(AudioEditorEvent::SetDenoiseAmount { amount: 0.5 }),
        ["apply a denoise 0.5"]
    );
    assert_eq!(done(AudioEditorEvent::AdjustGain { delta_db: -1.5 }), ["gain a -1.5"]);
    assert_eq!(done(AudioEditorEvent::AdjustPitch { delta_semitones: 2.0 }), ["pitch a 2"]);
    assert_eq!(done(AudioEditorEvent::AdjustFinePitch { delta_cents: 5.0 }), ["cents a 5"]);
    assert_eq!(done(AudioEditorEvent::Seek), ["seek 9.5"]);
    assert_eq!(done(AudioEditorEvent::FitClip), ["fit 4", "notify"]);
    assert_eq!(
        done(AudioEditorEvent::ZoomBy { factor: 2.0, anchor_x: Some(3.0) }),
        ["zoom 2 Some(3.0)", "notify"]
    );
    assert_eq!(
        done(AudioEditorEvent::AdjustVerticalZoom { factor: 1.25 }),
        ["vertical 1.25", "notify"]
    );
    assert_eq!(done(AudioEditorEvent::ResetVerticalZoom), ["vertical reset", "notify"]);
}

#[test]
fn settings_of_the_view_close_the_dropdown() {
    let mut host = host(AudioEditorTool::Pointer);
    fire(&mut host, AudioEditorEvent::SetSnap { snap: AudioEditorSnap::ZeroCrossing });
    assert!(host.state.zero_crossing_snap);
    assert_eq!(host.state.open_dropdown, None);
    fire(&mut host, AudioEditorEvent::SetSnap { snap: AudioEditorSnap::Grid });
    assert!(!host.state.zero_crossing_snap);
    fire(&mut host, AudioEditorEvent::SetViewMode { mode: 3 });
    fire(&mut host, AudioEditorEvent::SetChannelMode { mode: 4 });
    fire(&mut host, AudioEditorEvent::SetAmplitudeScale { scale: 5 });
    fire(&mut host, AudioEditorEvent::SetDisplaySmoothing { mode: 6 });
    fire(
        &mut host,
        AudioEditorEvent::SetFrequencyScale { frequency_scale: FrequencyScale::Logarithmic },
    );
    assert_eq!(host.state.view_mode, 3);
    assert_eq!(host.state.channel_mode, 4);
    assert_eq!(host.state.amplitude_scale, 5);
    assert_eq!(host.state.display_smoothing, 6);
    assert_eq!(host.state.frequency_scale, FrequencyScale::Logarithmic);
}

#[test]
fn a_dropdown_toggled_twice_is_as_it_was() {
    let mut host = host(AudioEditorTool::Pointer);
    host.state.open_dropdown = None;
    fire(&mut host, AudioEditorEvent::ToggleDropdown { dropdown: 2 });
    assert_eq!(host.state.open_dropdown, Some(2));
    fire(&mut host, AudioEditorEvent::ToggleDropdown { dropdown: 2 });
    assert_eq!(host.state.open_dropdown, None);
    host.state.open_dropdown = Some(1);
    fire(&mut host, AudioEditorEvent::ToggleDropdown { dropdown: 2 });
    assert_eq!(host.state.open_dropdown, Some(2));
}

#[test]
fn another_tool_commits_what_is_under_way() {
    let mut host = host(AudioEditorTool::Draw);
    fire(&mut host, AudioEditorEvent::PointerDown);
    let effects = fire(&mut host, AudioEditorEvent::SetTool { tool: AudioEditorTool::Range });
    assert_eq!(names(&effects), ["commit a", "notify"]);
    assert!(matches!(host.state.drag, AudioEditorDrag::Idle));
    assert_eq!(host.state.active_tool, AudioEditorTool::Range);
}

#[test]
fn a_gesture_on_another_clip_closes_the_first_one() {
    let mut host = host(AudioEditorTool::Draw);
    host.active_clip_id = Some("b".to_string());
    let effects = fire(&mut host, AudioEditorEvent::PointerDown);
    assert_eq!(names(&effects), ["commit b", "begin a", "edit a draw 10 0.375 -6"]);
}

#[test]
fn escape_clears_selections_and_rolls_back() {
    let mut host = host(AudioEditorTool::Range);
    fire(&mut host, AudioEditorEvent::PointerDown);
    host.state.spectral_selection = Some(band(1, 2));
    host.pending_audition = Some(Audition::Start { beat: 1.0 });
    let (taken, effects) = host.on_key("escape", false, &timeline(&["a"]), &facts());
    assert!(taken);
    assert_eq!(names(&effects), ["cancel", "notify"]);
    assert_eq!(host.state.selection_range, None);
    assert!(host.state.spectral_selection.is_none());
    assert!(matches!(host.state.drag, AudioEditorDrag::Idle));
    assert!(matches!(host.pending_audition, Some(Audition::Stop)));
    let (taken, effects) = host.on_key("escape", true, &timeline(&["a"]), &facts());
    assert!(!taken && effects.is_empty());
}

#[test]
fn keys_fit_zoom_and_open_tools() {
    let mut host = host(AudioEditorTool::Range);
    let none = timeline(&[]);
    let some = timeline(&["b"]);
    assert_eq!(names(&host.on_key("0", false, &some, &facts()).1), ["fit 4", "notify"]);
    assert_eq!(names(&host.on_key("0", false, &none, &facts()).1), ["notify"]);
    assert_eq!(names(&host.on_key("+", false, &none, &facts()).1), ["zoom in", "notify"]);
    assert_eq!(names(&host.on_key("-", false, &none, &facts()).1), ["zoom out", "notify"]);
    assert_eq!(names(&host.on_key("n", false, &some, &facts()).1), ["notify"]);
    let (kind, target) = host.take_pending_open_tool().unwrap();
    assert_eq!(kind, AudioToolKind::Normalize);
    assert_eq!(target.clip_id, "b");
    assert_eq!(target.source_id, "asset");
    assert_eq!(target.clip_name, "Kick");
    assert_eq!(target.file_label, "kick.wav");
    assert_eq!(target.source_path.as_deref(), Some("/tmp/kick.wav"));
    assert_eq!(target.sample_rate, 44_100);
    assert_eq!(target.channels, 2);
    assert_eq!(target.source_frames, 500);
    assert!(target.time_selection.is_none());
    host.active_clip_id = Some("b".to_string());
    assert_eq!(names(&host.on_key("s", false, &none, &facts()).1), ["commit b", "notify"]);
    assert_eq!(host.state.active_tool, AudioEditorTool::Split);
}

#[test]
fn tool_targets_prefer_what_the_file_says() {
    let mut host = host(AudioEditorTool::Range);
    host.state.selection_range = Some((0.0, 1.0));
    host.state.spectral_selection = Some(band(5, 6));
    let mut known = facts();
    known.meta = Some(WaveformFileMeta { sample_rate: 96_000, channels: 1, total_frames: 77 });
    let target = host.current_tool_target(&timeline(&["a"]), &known).unwrap();
    assert_eq!(target.sample_rate, 96_000);
    assert_eq!(target.channels, 1);
    assert_eq!(target.source_frames, 77);
    let selection = target.time_selection.unwrap();
    assert_eq!((selection.start_frame, selection.end_frame), (11, 22));
    assert_eq!(target.spectral_selection.unwrap().start_frame, 5);
    known.meta = None;
    known.spectrogram_rate = 48_000;
    let target = host.current_tool_target(&timeline(&["a"]), &known).unwrap();
    assert_eq!(target.sample_rate, 48_000);
    let mut bare = timeline(&["a"]);
    bare.tracks[0].clips[0].clip_type = ClipType::Audio { source_path: None };
    bare.tracks[0].clips[0].asset_key = None;
    let target = host.current_tool_target(&bare, &known).unwrap();
    assert_eq!(target.file_label, "Audio Clip");
    assert_eq!(target.source_id, "a");
}

#[test]
fn source_frames_end_where_the_clip_does() {
    let mut clip = audio("a");
    let mut known = facts();
    known.spectrogram_frames = 33;
    assert_eq!(total_source_frames(&clip, &known), 500);
    clip.stretch.source_start_samples = 100;
    clip.stretch.source_end_samples = 300;
    assert_eq!(total_source_frames(&clip, &known), 300);
    clip.stretch.source_start_samples = 600;
    assert_eq!(total_source_frames(&clip, &known), 33);
    known.meta = Some(WaveformFileMeta { sample_rate: 48_000, channels: 2, total_frames: 900 });
    assert_eq!(total_source_frames(&clip, &known), 900);
}

#[test]
fn a_source_ends_at_its_trim_or_where_it_is_known_to_end() {
    let mut clip = audio("a");
    let meta = |total_frames| {
        Some(WaveformFileMeta { sample_rate: 48_000, channels: 2, total_frames })
    };
    assert_eq!(source_end_frame(&clip, None), 500);
    assert_eq!(source_end_frame(&clip, meta(900)), 900);
    assert_eq!(source_end_frame(&clip, meta(400)), 500);
    clip.stretch.source_start_samples = 100;
    clip.stretch.source_end_samples = 300;
    assert_eq!(source_end_frame(&clip, meta(900)), 300);
    clip.stretch.source_end_samples = 100;
    assert_eq!(source_end_frame(&clip, meta(900)), 900);
}

#[test]
fn a_clip_is_fitted_once() {
    let mut host = host(AudioEditorTool::Pointer);
    assert!(host.refit(&"a".to_string()));
    assert!(!host.refit(&"a".to_string()));
    assert!(host.refit(&"b".to_string()));
    assert_eq!(host.state.fitted_clip_id.as_deref(), Some("b"));
    assert!(host.refit(&"a".to_string()));
}

#[test]
fn another_selection_rolls_the_gesture_back() {
    let mut host = host(AudioEditorTool::Draw);
    assert_eq!(names(&host.sync_selection(&timeline(&["a"]))), ["cancel"]);
    assert_eq!(host.active_clip_id.as_deref(), Some("a"));
    assert_eq!(host.last_editing_clip.as_deref(), Some("a"));
    host.state.fitted_clip_id = Some("a".to_string());
    fire(&mut host, AudioEditorEvent::PointerDown);
    assert!(host.sync_selection(&timeline(&["a"])).is_empty());
    assert!(matches!(host.state.drag, AudioEditorDrag::MovingEnvelopePoint { .. }));
    assert_eq!(names(&host.sync_selection(&timeline(&["b"]))), ["cancel"]);
    assert!(matches!(host.state.drag, AudioEditorDrag::Idle));
    assert_eq!(host.state.fitted_clip_id.as_deref(), Some("a"));
    assert_eq!(names(&host.sync_selection(&timeline(&[]))), ["cancel"]);
    assert_eq!(host.active_clip_id, None);
    assert_eq!(host.state.fitted_clip_id, None);
}

#[test]
fn the_clip_edited_last_stays_active() {
    let mut host = host(AudioEditorTool::Pointer);
    assert!(host.active_clip(&timeline(&[])).is_none());
    host.active_clip_id = Some("b".to_string());
    assert_eq!(host.active_clip(&timeline(&[])).unwrap().1.id, "b");
    assert_eq!(host.active_clip(&timeline(&["a"])).unwrap().1.id, "a");
    host.active_clip_id = Some("gone".to_string());
    assert!(host.active_clip(&timeline(&[])).is_none());
}

#[test]
fn only_the_newest_spectrogram_is_taken() {
    let mut host = host(AudioEditorTool::Pointer);
    let path = Some("/a.wav".to_string());
    let first = host.ensure_spectrogram(&path, "0.00", false).unwrap();
    assert_eq!(first.path, "/a.wav");
    assert_eq!(first.generation, 1);
    assert_eq!(host.spectrogram_key.as_deref(), Some("/a.wav|Linear|p0.00|r0"));
    assert!(host.ensure_spectrogram(&path, "0.00", false).is_none());
    let second = host.ensure_spectrogram(&path, "0.00", true).unwrap();
    assert_eq!(host.spectrogram_key.as_deref(), Some("/a.wav|Linear|p0.00|r1"));
    assert!(!host.finish_spectrogram(first.generation, Ok("first".to_string())));
    assert!(host.spectrogram_result.is_none());
    assert!(host.finish_spectrogram(second.generation, Ok("second".to_string())));
    assert!(matches!(&host.spectrogram_result, Some(Ok(result)) if result == "second"));
    host.refresh_clip_visuals();
    assert!(host.spectrogram_result.is_none() && host.spectrogram_key.is_none());
    assert!(!host.finish_spectrogram(second.generation, Err("late".to_string())));
    host.state.frequency_scale = FrequencyScale::Logarithmic;
    host.ensure_spectrogram(&path, "1.50", false);
    assert_eq!(host.spectrogram_key.as_deref(), Some("/a.wav|Logarithmic|p1.50|r0"));
    assert!(host.ensure_spectrogram(&None, "1.50", false).is_none());
    assert!(host.spectrogram_key.is_none());
}

#[test]
fn generations_wrap_around() {
    let mut host = host(AudioEditorTool::Pointer);
    host.spectrogram_generation = u64::MAX;
    host.refresh_clip_visuals();
    assert_eq!(host.spectrogram_generation, 0);
}

#[test]
fn beats_snap_as_the_mode_says() {
    assert_eq!(snap_target(AudioEditorSnap::Grid, false), SnapTarget::Grid);
    assert_eq!(snap_target(AudioEditorSnap::ZeroCrossing, false), SnapTarget::ZeroCrossing);
    assert_eq!(snap_target(AudioEditorSnap::Markers, false), SnapTarget::Keep);
    assert_eq!(snap_target(AudioEditorSnap::Off, false), SnapTarget::Keep);
    assert_eq!(snap_target(AudioEditorSnap::Grid, true), SnapTarget::Keep);
    assert_eq!(crossing_window(10_000), (7_952, 12_048));
    assert_eq!(crossing_window(100), (0, 2_148));
    assert_eq!(crossing_window(-5), (0, 2_048));
}
