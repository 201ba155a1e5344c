//! The audio editor's state machine.
//!
//! The host turns key presses, pointer gestures and panel events into changes
//! of its own state and into effects on the arrangement. Everything measured
//! in beats, pixels or hertz reaches it as a reading; it decides what happens.

use vstd::prelude::*;

use crate::adapter::selected_audio_clip;
use crate::editor::{
    AudioEditorDrag, AudioEditorEvent, AudioEditorSnap, AudioEditorState, AudioEditorTool,
    ClipEdge, FrequencyScale, HostEffect, KeyAction, PointerReading, StretchEdit,
};
use crate::paths::path_file_name;
use crate::stretch::{first_hit_index, next_point_id, AudioFadeSide};
use crate::target::{AudioRangeSelection, AudioToolKind, AudioToolTarget, WaveformFileMeta};
use crate::text::same_text;
use crate::timeline::{ClipState, ClipType, EnvelopePoint, TimelineState, TrackState, WarpMarker};

verus! {

/// A change of the audition transport.
#[derive(Clone, Copy)]
pub enum Audition<T> {
    Start { beat: T },
    Stop,
}

/// The state of the audio editor. `T` is a measure, `R` a rendered
/// spectrogram.
pub struct AudioEditorHost<T, R> {
    pub state: AudioEditorState<T>,
    pub last_editing_clip: Option<String>,
    pub active_clip_id: Option<String>,
    pub spectrogram_key: Option<String>,
    pub spectrogram_result: Option<Result<R, String>>,
    pub spectrogram_generation: u64,
    pub pending_open_tool: Option<(AudioToolKind, AudioToolTarget<T>)>,
    pub pending_audition: Option<Audition<T>>,
}

/// What the tools need to know of the active clip's source.
#[derive(Clone, Copy)]
pub struct SourceFacts {
    pub meta: Option<WaveformFileMeta>,
    /// Sample rate of the analysed spectrogram, or zero.
    pub spectrogram_rate: u32,
    /// Frames of the analysed spectrogram.
    pub spectrogram_frames: i64,
    /// First and last frame of the selection, where there is one.
    pub selected_frames: (i64, i64),
}

/// A spectrogram to be analysed.
pub struct SpectrogramJob {
    pub path: String,
    pub frequency_scale: FrequencyScale,
    pub reverse: bool,
    pub generation: u64,
}

// ------------------------------------------------------------------- clips

/// The place of the clip that the editor works on: the selected audio clip,
/// or the one edited last.
pub open spec fn active_place<T>(state: TimelineState<T>, active: Option<String>) -> Option<
    (int, int),
> {
    match state.selected_place() {
        Some(place) => Some(place),
        None => match active {
            Some(id) => match state.place_of(id@) {
                Some(place) => if state.clip_at(place).clip_type.audio() {
                    Some(place)
                } else {
                    None
                },
                None => None,
            },
            None => None,
        },
    }
}

/// Last source frame of a clip: where it is trimmed, or where its source ends.
pub open spec fn source_end<T>(clip: ClipState<T>, meta: Option<WaveformFileMeta>) -> u64 {
    let stretch = clip.stretch;
    let known: u64 = match meta {
        Some(m) => m.total_frames,
        None => 0,
    };
    if stretch.source_end_samples > stretch.source_start_samples {
        stretch.source_end_samples
    } else if stretch.original_duration_samples > known {
        stretch.original_duration_samples
    } else {
        known
    }
}

/// Frames of a clip's source: up to the end of the clip's window, or as many
/// as the spectrogram has when the window is empty.
pub open spec fn source_frames<T>(clip: ClipState<T>, facts: SourceFacts) -> i64 {
    let start = clip.stretch.source_start_samples as i64;
    let end = source_end(clip, facts.meta) as i64;
    if end > start {
        if end > 0 {
            end
        } else {
            0
        }
    } else {
        facts.spectrogram_frames
    }
}

/// The file behind a clip.
pub open spec fn clip_path(clip_type: ClipType) -> Option<String> {
    match clip_type {
        ClipType::Audio { source_path } => source_path,
        _ => None,
    }
}

/// The target that a tool window opens with.
pub open spec fn is_tool_target<T>(
    target: AudioToolTarget<T>,
    clip: ClipState<T>,
    state: AudioEditorState<T>,
    facts: SourceFacts,
) -> bool {
    &&& target.clip_id == clip.id
    &&& target.source_id == match clip.asset_key {
        Some(key) => key,
        None => clip.id,
    }
    &&& target.clip_name == clip.name
    &&& target.source_path == clip_path(clip.clip_type)
    &&& target.source_path is None ==> target.file_label@ == "Audio Clip"@
    &&& target.source_path matches Some(path) ==> labels_file(target.file_label@, path@)
    &&& target.sample_rate == match facts.meta {
        Some(m) => m.sample_rate,
        None => if facts.spectrogram_rate > 0 {
            facts.spectrogram_rate
        } else if clip.stretch.original_sample_rate > 44_100 {
            clip.stretch.original_sample_rate
        } else {
            44_100
        },
    }
    &&& target.channels == match facts.meta {
        Some(m) => m.channels,
        None => 2,
    }
    &&& target.source_frames == match facts.meta {
        Some(m) => m.total_frames as i64,
        None => source_frames(clip, facts),
    }
    &&& target.time_selection == match state.selection_range {
        Some(_) => Some(
            AudioRangeSelection {
                start_frame: facts.selected_frames.0,
                end_frame: facts.selected_frames.1,
            },
        ),
        None => None,
    }
    &&& target.spectral_selection == state.spectral_selection
}

/// Whether a label is that of a file: its name, as Unix or as Windows reads the
/// path, or the path itself where it names none. Whatever the path, the label is
/// all of it or a piece that no separator divides.
pub open spec fn labels_file(label: Seq<char>, path: Seq<char>) -> bool {
    &&& label_read(false, path, label) || label_read(true, path, label)
    &&& label == path || crate::paths::undivided_piece(path, label)
}

/// Whether a label is what a platform makes of a path: the name of its file, or
/// the path itself where it names none.
pub open spec fn label_read(windows: bool, path: Seq<char>, label: Seq<char>) -> bool {
    ||| crate::paths::names_file(windows, path, Some(label))
    ||| crate::paths::names_file(windows, path, None) && label == path
}

/// The name of a file, or its whole path when it has none.
pub fn file_name_or_path(name: Option<String>, path: &String) -> (label: String)
    ensures
        label == match name {
            Some(n) => n,
            None => *path,
        },
{
    match name {
        Some(name) => name,
        None => path.clone(),
    }
}

/// The label of the file at a path.
pub fn file_label(path: &String) -> (label: String)
    ensures
        labels_file(label@, path@),
{
    file_name_or_path(path_file_name(path), path)
}

fn copy_text(text: &Option<String>) -> (copy: Option<String>)
    ensures
        copy == *text,
{
    match text {
        Some(text) => Some(text.clone()),
        None => None,
    }
}

fn copy_clip_path(clip_type: &ClipType) -> (path: Option<String>)
    ensures
        path == clip_path(*clip_type),
{
    match clip_type {
        ClipType::Audio { source_path } => copy_text(source_path),
        _ => None,
    }
}

// -------------------------------------------------------------------- keys

/// What a key means, by its name.
pub open spec fn key_meaning(key: Seq<char>) -> KeyAction {
    if key == "q"@ || key == "p"@ {
        KeyAction::SelectTool { tool: AudioEditorTool::Pointer }
    } else if key == "r"@ {
        KeyAction::SelectTool { tool: AudioEditorTool::Range }
    } else if key == "x"@ {
        KeyAction::SelectTool { tool: AudioEditorTool::SpectralRange }
    } else if key == "s"@ {
        KeyAction::SelectTool { tool: AudioEditorTool::Split }
    } else if key == "f"@ {
        KeyAction::SelectTool { tool: AudioEditorTool::Fade }
    } else if key == "m"@ {
        KeyAction::SelectTool { tool: AudioEditorTool::Marker }
    } else if key == "y"@ {
        KeyAction::SelectTool { tool: AudioEditorTool::Trim }
    } else if key == "z"@ {
        KeyAction::SelectTool { tool: AudioEditorTool::Scrub }
    } else if key == "d"@ || key == "e"@ {
        KeyAction::SelectTool { tool: AudioEditorTool::Draw }
    } else if key == "w"@ {
        KeyAction::SelectTool { tool: AudioEditorTool::Warp }
    } else if key == "a"@ {
        KeyAction::SelectTool { tool: AudioEditorTool::Audition }
    } else if key == "t"@ {
        KeyAction::OpenTool { kind: AudioToolKind::TransientDetector }
    } else if key == "n"@ {
        KeyAction::OpenTool { kind: AudioToolKind::Normalize }
    } else if key == "escape"@ {
        KeyAction::Escape
    } else if key == "0"@ {
        KeyAction::Fit
    } else if key == "+"@ || key == "="@ {
        KeyAction::ZoomIn
    } else if key == "-"@ || key == "_"@ {
        KeyAction::ZoomOut
    } else {
        KeyAction::Ignore
    }
}

/// What a key press means; one with a modifier is left to others.
pub fn key_action(key: &str, modified: bool) -> (action: KeyAction)
    ensures
        action == if modified {
            KeyAction::Ignore
        } else {
            key_meaning(key@)
        },
{
    if modified {
        KeyAction::Ignore
    } else if same_text(key, "q") || same_text(key, "p") {
        KeyAction::SelectTool { tool: AudioEditorTool::Pointer }
    } else if same_text(key, "r") {
        KeyAction::SelectTool { tool: AudioEditorTool::Range }
    } else if same_text(key, "x") {
        KeyAction::SelectTool { tool: AudioEditorTool::SpectralRange }
    } else if same_text(key, "s") {
        KeyAction::SelectTool { tool: AudioEditorTool::Split }
    } else if same_text(key, "f") {
        KeyAction::SelectTool { tool: AudioEditorTool::Fade }
    } else if same_text(key, "m") {
        KeyAction::SelectTool { tool: AudioEditorTool::Marker }
    } else if same_text(key, "y") {
        KeyAction::SelectTool { tool: AudioEditorTool::Trim }
    } else if same_text(key, "z") {
        KeyAction::SelectTool { tool: AudioEditorTool::Scrub }
    } else if same_text(key, "d") || same_text(key, "e") {
        KeyAction::SelectTool { tool: AudioEditorTool::Draw }
    } else if same_text(key, "w") {
        KeyAction::SelectTool { tool: AudioEditorTool::Warp }
    } else if same_text(key, "a") {
        KeyAction::SelectTool { tool: AudioEditorTool::Audition }
    } else if same_text(key, "t") {
        KeyAction::OpenTool { kind: AudioToolKind::TransientDetector }
    } else if same_text(key, "n") {
        KeyAction::OpenTool { kind: AudioToolKind::Normalize }
    } else if same_text(key, "escape") {
        KeyAction::Escape
    } else if same_text(key, "0") {
        KeyAction::Fit
    } else if same_text(key, "+") || same_text(key, "=") {
        KeyAction::ZoomIn
    } else if same_text(key, "-") || same_text(key, "_") {
        KeyAction::ZoomOut
    } else {
        KeyAction::Ignore
    }
}

// ---------------------------------------------------------------- gestures

/// What closing the open undo step asks for.
pub open spec fn commit_effects<T>(active: Option<String>) -> Seq<HostEffect<T>> {
    match active {
        Some(clip_id) => seq![HostEffect::CommitGesture { clip_id }],
        None => Seq::empty(),
    }
}

/// What opening an undo step for a clip asks for: the step of another clip is
/// closed first.
pub open spec fn gesture_effects<T>(active: Option<String>, clip_id: String) -> Seq<
    HostEffect<T>,
> {
    let before: Seq<HostEffect<T>> = if active is Some && active->0@ == clip_id@ {
        Seq::empty()
    } else {
        commit_effects(active)
    };
    before.push(HostEffect::BeginGesture { clip_id })
}

/// The id of the first warp marker that is hit.
pub open spec fn hit_marker<T>(markers: Seq<WarpMarker<T>>, hits: Seq<bool>) -> Option<u64> {
    if exists|i: int| crate::stretch::first_hit(hits, markers.len() as int, i) {
        Some(
            markers[choose|i: int| crate::stretch::first_hit(hits, markers.len() as int, i)].id,
        )
    } else {
        None
    }
}

/// The id of the first envelope point that is hit, or a new one.
pub open spec fn drawn_point<T>(points: Seq<EnvelopePoint<T>>, hits: Seq<bool>) -> u64 {
    if exists|i: int| crate::stretch::first_hit(hits, points.len() as int, i) {
        points[choose|i: int| crate::stretch::first_hit(hits, points.len() as int, i)].id
    } else if crate::stretch::max_point_id(points) == u64::MAX {
        u64::MAX
    } else {
        (crate::stretch::max_point_id(points) + 1) as u64
    }
}

proof fn lemma_first_hit(hits: Seq<bool>, count: int, i: int)
    requires
        crate::stretch::first_hit(hits, count, i),
    ensures
        i == choose|j: int| crate::stretch::first_hit(hits, count, j),
{
    let j = choose|j: int| crate::stretch::first_hit(hits, count, j);
    if j < i {
        assert(!hits[j]);
    } else if i < j {
        assert(!hits[i]);
    }
}

impl<T, R> AudioEditorHost<T, R> {
    /// The host with another gesture under way.
    pub open spec fn with_drag(self, drag: AudioEditorDrag<T>) -> Self {
        AudioEditorHost { state: AudioEditorState { drag, ..self.state }, ..self }
    }

    /// The host with an undo step open for a clip.
    pub open spec fn with_gesture(self, clip_id: String, drag: AudioEditorDrag<T>) -> Self {
        AudioEditorHost { active_clip_id: Some(clip_id), ..self.with_drag(drag) }
    }

    /// The host and the effects after the pointer goes down on a clip.
    pub open spec fn pressed(self, clip: ClipState<T>, at: PointerReading<T>) -> (
        Self,
        Seq<HostEffect<T>>,
    ) {
        let state = self.state;
        let begin = gesture_effects::<T>(self.active_clip_id, clip.id);
        match state.active_tool {
            AudioEditorTool::Split => (
                self,
                seq![HostEffect::SplitClip { clip_id: clip.id, beat: at.abs_beat }],
            ),
            AudioEditorTool::Range => (
                AudioEditorHost {
                    state: AudioEditorState {
                        selection_range: Some((at.rel_beat, at.rel_beat)),
                        drag: AudioEditorDrag::SelectingRange { anchor_beat: at.rel_beat },
                        ..state
                    },
                    ..self
                },
                seq![HostEffect::Notify],
            ),
            AudioEditorTool::SpectralRange => (
                AudioEditorHost {
                    state: AudioEditorState {
                        spectral_selection: Some(at.spectral),
                        drag: AudioEditorDrag::SelectingSpectralRange {
                            anchor_frame: at.frame,
                            anchor_hz: at.hz,
                        },
                        ..state
                    },
                    ..self
                },
                seq![HostEffect::Notify],
            ),
            AudioEditorTool::Fade => if at.on_fade_in {
                (
                    self.with_gesture(
                        clip.id,
                        AudioEditorDrag::AdjustingFadeIn { original_seconds: at.fade_in_seconds },
                    ),
                    begin,
                )
            } else if at.on_fade_out {
                (
                    self.with_gesture(
                        clip.id,
                        AudioEditorDrag::AdjustingFadeOut { original_seconds: at.fade_out_seconds },
                    ),
                    begin,
                )
            } else {
                (self, seq![HostEffect::Seek { beat: at.clip_beat }])
            },
            AudioEditorTool::Pointer | AudioEditorTool::Trim => if at.at_start {
                (
                    self.with_gesture(
                        clip.id,
                        AudioEditorDrag::TrimmingLeft { start_beat: clip.start_beat },
                    ),
                    begin,
                )
            } else if at.at_end {
                (
                    self.with_gesture(
                        clip.id,
                        AudioEditorDrag::TrimmingRight { start_beat: clip.start_beat },
                    ),
                    begin,
                )
            } else if state.active_tool == AudioEditorTool::Pointer {
                (self, seq![HostEffect::Seek { beat: at.clip_beat }])
            } else {
                (self, Seq::empty())
            },
            AudioEditorTool::Marker => (self, seq![HostEffect::AddMarker { beat: at.clip_beat }]),
            AudioEditorTool::Scrub => (
                self.with_drag(AudioEditorDrag::SelectingRange { anchor_beat: at.rel_beat }),
                seq![HostEffect::Seek { beat: at.clip_beat }],
            ),
            AudioEditorTool::Audition => {
                let beat = if state.selection_range is Some {
                    at.selection_beat
                } else {
                    at.clip_beat
                };
                (
                    AudioEditorHost {
                        pending_audition: Some(Audition::Start { beat }),
                        ..self.with_drag(
                            AudioEditorDrag::SelectingRange { anchor_beat: at.rel_beat },
                        )
                    },
                    seq![HostEffect::Seek { beat }, HostEffect::Notify],
                )
            },
            AudioEditorTool::Warp => match hit_marker(
                clip.stretch.warp_markers@,
                at.marker_hits@,
            ) {
                Some(marker_id) => (
                    self.with_gesture(clip.id, AudioEditorDrag::MovingWarpMarker { marker_id }),
                    begin.push(HostEffect::Notify),
                ),
                None => (
                    self,
                    match at.warp {
                        Some((source_sample, timeline_beat)) => seq![
                            HostEffect::ApplyStretch {
                                clip_id: clip.id,
                                edit: StretchEdit::AddWarpMarker { source_sample, timeline_beat },
                            },
                            HostEffect::Notify,
                        ],
                        None => seq![HostEffect::Notify],
                    },
                ),
            },
            AudioEditorTool::Draw => {
                let point_id = drawn_point(clip.stretch.gain_envelope@, at.point_hits@);
                (
                    self.with_gesture(clip.id, AudioEditorDrag::MovingEnvelopePoint { point_id }),
                    begin.push(
                        HostEffect::EditStretch {
                            clip_id: clip.id,
                            edit: StretchEdit::DrawPoint {
                                point_id,
                                time: at.time,
                                value_db: at.value_db,
                            },
                        },
                    ),
                )
            },
        }
    }

    /// Whether the pointer draws a range, rather than scrubs.
    pub open spec fn draws_range(self) -> bool {
        self.state.drag is SelectingRange && self.state.active_tool != AudioEditorTool::Scrub
            && self.state.active_tool != AudioEditorTool::Audition
    }

    /// The host and the effects after the pointer moves over a clip.
    pub open spec fn dragged(self, clip: ClipState<T>, at: PointerReading<T>) -> (
        Self,
        Seq<HostEffect<T>>,
    ) {
        let state = self.state;
        match state.drag {
            AudioEditorDrag::Idle => (self, Seq::empty()),
            AudioEditorDrag::SelectingRange { anchor_beat } => if self.draws_range() {
                (
                    AudioEditorHost {
                        state: AudioEditorState {
                            selection_range: Some((anchor_beat, at.rel_beat)),
                            ..state
                        },
                        ..self
                    },
                    seq![HostEffect::Notify],
                )
            } else {
                (self, seq![HostEffect::Seek { beat: at.clip_beat }])
            },
            AudioEditorDrag::SelectingSpectralRange { .. } => (
                AudioEditorHost {
                    state: AudioEditorState { spectral_selection: Some(at.spectral), ..state },
                    ..self
                },
                seq![HostEffect::Notify],
            ),
            AudioEditorDrag::TrimmingLeft { .. } => (
                self,
                seq![
                    HostEffect::ResizeClip {
                        clip_id: clip.id,
                        edge: ClipEdge::Left,
                        beat: at.clip_beat,
                    },
                ],
            ),
            AudioEditorDrag::TrimmingRight { .. } => (
                self,
                seq![
                    HostEffect::ResizeClip {
                        clip_id: clip.id,
                        edge: ClipEdge::Right,
                        beat: at.clip_beat,
                    },
                ],
            ),
            AudioEditorDrag::AdjustingFadeIn { .. } => (
                self,
                seq![
                    HostEffect::EditStretch {
                        clip_id: clip.id,
                        edit: StretchEdit::Fade {
                            side: AudioFadeSide::In,
                            milliseconds: at.fade_in_ms,
                        },
                    },
                ],
            ),
            AudioEditorDrag::AdjustingFadeOut { .. } => (
                self,
                seq![
                    HostEffect::EditStretch {
                        clip_id: clip.id,
                        edit: StretchEdit::Fade {
                            side: AudioFadeSide::Out,
                            milliseconds: at.fade_out_ms,
                        },
                    },
                ],
            ),
            AudioEditorDrag::MovingEnvelopePoint { point_id } => (
                self,
                seq![
                    HostEffect::EditStretch {
                        clip_id: clip.id,
                        edit: StretchEdit::MovePoint {
                            point_id,
                            time: at.time,
                            value_db: at.value_db,
                        },
                    },
                ],
            ),
            AudioEditorDrag::MovingWarpMarker { marker_id } => (
                self,
                seq![
                    HostEffect::EditStretch {
                        clip_id: clip.id,
                        edit: StretchEdit::MoveWarpMarker { marker_id, beat: at.clip_beat },
                    },
                ],
            ),
        }
    }

    /// The host and the effects after the pointer goes up.
    pub open spec fn released(self, range_empty: bool, spectral_empty: bool) -> (
        Self,
        Seq<HostEffect<T>>,
    ) {
        let idle = self.with_drag(AudioEditorDrag::Idle);
        match self.state.drag {
            AudioEditorDrag::Idle => (idle, Seq::empty()),
            AudioEditorDrag::SelectingRange { .. } => (
                AudioEditorHost {
                    state: AudioEditorState {
                        selection_range: if range_empty {
                            None
                        } else {
                            idle.state.selection_range
                        },
                        ..idle.state
                    },
                    pending_audition: if self.state.active_tool == AudioEditorTool::Audition {
                        Some(Audition::Stop)
                    } else {
                        self.pending_audition
                    },
                    ..idle
                },
                seq![HostEffect::Notify],
            ),
            AudioEditorDrag::SelectingSpectralRange { .. } => (
                AudioEditorHost {
                    state: AudioEditorState {
                        spectral_selection: if spectral_empty {
                            None
                        } else {
                            idle.state.spectral_selection
                        },
                        ..idle.state
                    },
                    ..idle
                },
                seq![HostEffect::Notify],
            ),
            _ => (idle, commit_effects(self.active_clip_id)),
        }
    }
}

/// The clip that the editor works on.
pub open spec fn active_clip_of<T>(state: TimelineState<T>, active: Option<String>) -> Option<
    ClipState<T>,
> {
    match active_place(state, active) {
        Some(place) => Some(state.clip_at(place)),
        None => None,
    }
}

impl<T, R> AudioEditorHost<T, R> {
    /// The host with its dropdown closed.
    pub open spec fn closed(self) -> Self {
        AudioEditorHost { state: AudioEditorState { open_dropdown: None, ..self.state }, ..self }
    }

    /// The host and the effects after a change of the active clip's settings.
    pub open spec fn applied(self, clip: Option<ClipState<T>>, edit: StretchEdit<T>) -> (
        Self,
        Seq<HostEffect<T>>,
    ) {
        match clip {
            Some(clip) => (
                self.closed(),
                seq![HostEffect::ApplyStretch { clip_id: clip.id, edit }],
            ),
            None => (self, Seq::empty()),
        }
    }

    /// The host and the effects after the pointer goes up over the panel.
    ///
    /// The release position counts as a last move: some platforms report no
    /// move between a press and a release.
    pub open spec fn dropped(self, clip: Option<ClipState<T>>, at: PointerReading<T>) -> (
        Self,
        Seq<HostEffect<T>>,
    ) {
        let (moved, effects) = match clip {
            Some(clip) => self.dragged(clip, at),
            None => (self, Seq::empty()),
        };
        let range_empty = if clip is Some && self.draws_range() {
            at.drawn_range_empty
        } else {
            at.kept_range_empty
        };
        let spectral_empty = if clip is Some && self.state.drag is SelectingSpectralRange {
            at.drawn_spectral_empty
        } else {
            at.kept_spectral_empty
        };
        let (done, last) = moved.released(range_empty, spectral_empty);
        (done, effects + last)
    }

    /// The host and the effects after an event of the panel, other than one
    /// that opens a tool.
    pub open spec fn after_event(
        self,
        event: AudioEditorEvent<T>,
        clip: Option<ClipState<T>>,
        at: PointerReading<T>,
    ) -> (Self, Seq<HostEffect<T>>) {
        let state = self.state;
        let notify: Seq<HostEffect<T>> = seq![HostEffect::Notify];
        match event {
            AudioEditorEvent::ToggleDropdown { dropdown } => (
                AudioEditorHost {
                    state: AudioEditorState {
                        open_dropdown: if state.open_dropdown == Some(dropdown) {
                            None
                        } else {
                            Some(dropdown)
                        },
                        ..state
                    },
                    ..self
                },
                notify,
            ),
            AudioEditorEvent::SetTool { tool } => (
                AudioEditorHost {
                    state: AudioEditorState {
                        drag: AudioEditorDrag::Idle,
                        active_tool: tool,
                        open_dropdown: None,
                        ..state
                    },
                    ..self
                },
                commit_effects::<T>(self.active_clip_id).push(HostEffect::Notify),
            ),
            AudioEditorEvent::SetSnap { snap } => (
                AudioEditorHost {
                    state: AudioEditorState {
                        snap,
                        zero_crossing_snap: snap == AudioEditorSnap::ZeroCrossing,
                        open_dropdown: None,
                        ..state
                    },
                    ..self
                },
                notify,
            ),
            AudioEditorEvent::SetChannelMode { mode } => (
                AudioEditorHost {
                    state: AudioEditorState { channel_mode: mode, open_dropdown: None, ..state },
                    ..self
                },
                notify,
            ),
            AudioEditorEvent::SetViewMode { mode } => (
                AudioEditorHost {
                    state: AudioEditorState { view_mode: mode, open_dropdown: None, ..state },
                    ..self
                },
                notify,
            ),
            AudioEditorEvent::SetAmplitudeScale { scale } => (
                AudioEditorHost {
                    state: AudioEditorState { amplitude_scale: scale, open_dropdown: None, ..state },
                    ..self
                },
                notify,
            ),
            AudioEditorEvent::SetFrequencyScale { frequency_scale } => (
                AudioEditorHost {
                    state: AudioEditorState { frequency_scale, open_dropdown: None, ..state },
                    ..self
                },
                notify,
            ),
            AudioEditorEvent::SetDisplaySmoothing { mode } => (
                AudioEditorHost {
                    state: AudioEditorState {
                        display_smoothing: mode,
                        open_dropdown: None,
                        ..state
                    },
                    ..self
                },
                notify,
            ),
            AudioEditorEvent::SetClipChannel { tag } => self.applied(
                clip,
                StretchEdit::Channel { tag },
            ),
            AudioEditorEvent::AdjustVerticalZoom { factor } => (
                self,
                seq![HostEffect::AdjustVerticalZoom { factor }, HostEffect::Notify],
            ),
            AudioEditorEvent::ResetVerticalZoom => (
                self,
                seq![HostEffect::ResetVerticalZoom, HostEffect::Notify],
            ),
            AudioEditorEvent::ZoomBy { factor, anchor_x } => (
                self,
                seq![HostEffect::ZoomBy { factor, anchor_x }, HostEffect::Notify],
            ),
            AudioEditorEvent::FitClip => (
                self,
                match clip {
                    Some(clip) => seq![
                        HostEffect::FitClip { duration_beats: clip.duration_beats },
                        HostEffect::Notify,
                    ],
                    None => Seq::empty(),
                },
            ),
            AudioEditorEvent::Seek => (
                self,
                match clip {
                    Some(_) => seq![HostEffect::Seek { beat: at.abs_beat }],
                    None => Seq::empty(),
                },
            ),
            AudioEditorEvent::PointerDown => match clip {
                Some(clip) => self.pressed(clip, at),
                None => (self, Seq::empty()),
            },
            AudioEditorEvent::PointerMove => match clip {
                Some(clip) => self.dragged(clip, at),
                None => (self, Seq::empty()),
            },
            AudioEditorEvent::PointerUp => self.dropped(clip, at),
            AudioEditorEvent::AdjustGain { delta_db } => (
                self,
                match clip {
                    Some(clip) => seq![HostEffect::ApplyGain { clip_id: clip.id, delta_db }],
                    None => Seq::empty(),
                },
            ),
            AudioEditorEvent::AdjustPitch { delta_semitones } => (
                self,
                match clip {
                    Some(clip) => seq![
                        HostEffect::ApplyPitch { clip_id: clip.id, delta_semitones },
                    ],
                    None => Seq::empty(),
                },
            ),
            AudioEditorEvent::AdjustFinePitch { delta_cents } => (
                self,
                match clip {
                    Some(clip) => seq![
                        HostEffect::ApplyFinePitch { clip_id: clip.id, delta_cents },
                    ],
                    None => Seq::empty(),
                },
            ),
            AudioEditorEvent::ToggleFollowTempo => self.applied(
                clip,
                StretchEdit::FollowTempo { enabled: !at.follows_tempo },
            ),
            AudioEditorEvent::ToggleReverse => self.applied(
                clip,
                StretchEdit::Reverse { enabled: !(clip->0.stretch.reverse) },
            ),
            AudioEditorEvent::SetFollowTempo { enabled } => self.applied(
                clip,
                StretchEdit::FollowTempo { enabled },
            ),
            AudioEditorEvent::SetReverse { enabled } => self.applied(
                clip,
                StretchEdit::Reverse { enabled },
            ),
            AudioEditorEvent::SetDenoiseAmount { amount } => self.applied(
                clip,
                StretchEdit::Denoise { amount },
            ),
            AudioEditorEvent::OpenTool { .. } => (self.closed(), notify),
        }
    }

    /// Whether a host is another one with a tool waiting to be opened on the
    /// active clip, or the same when there is no clip.
    pub open spec fn opens(
        self,
        next: Self,
        kind: AudioToolKind,
        clip: Option<ClipState<T>>,
        facts: SourceFacts,
    ) -> bool {
        &&& next == (AudioEditorHost { pending_open_tool: next.pending_open_tool, ..self })
        &&& match clip {
            Some(clip) => next.pending_open_tool matches Some((opened, target)) && opened == kind
                && is_tool_target(target, clip, self.state, facts),
            None => next.pending_open_tool == self.pending_open_tool,
        }
    }

    /// The host and the effects after a key press, other than one that opens a
    /// tool.
    pub open spec fn after_key(self, action: KeyAction, clip: Option<ClipState<T>>) -> (
        Self,
        Seq<HostEffect<T>>,
    ) {
        let state = self.state;
        match action {
            KeyAction::SelectTool { tool } => (
                AudioEditorHost {
                    state: AudioEditorState { active_tool: tool, open_dropdown: None, ..state },
                    ..self
                },
                commit_effects::<T>(self.active_clip_id).push(HostEffect::Notify),
            ),
            KeyAction::OpenTool { .. } => (self, seq![HostEffect::Notify]),
            KeyAction::Escape => (
                AudioEditorHost {
                    state: AudioEditorState {
                        selection_range: None,
                        spectral_selection: None,
                        drag: AudioEditorDrag::Idle,
                        open_dropdown: None,
                        ..state
                    },
                    pending_audition: match self.pending_audition {
                        Some(_) => Some(Audition::Stop),
                        None => None,
                    },
                    ..self
                },
                seq![HostEffect::CancelGesture, HostEffect::Notify],
            ),
            KeyAction::Fit => (
                self,
                match clip {
                    Some(clip) => seq![
                        HostEffect::FitClip { duration_beats: clip.duration_beats },
                        HostEffect::Notify,
                    ],
                    None => seq![HostEffect::Notify],
                },
            ),
            KeyAction::ZoomIn => (self, seq![HostEffect::ZoomIn, HostEffect::Notify]),
            KeyAction::ZoomOut => (self, seq![HostEffect::ZoomOut, HostEffect::Notify]),
            KeyAction::Ignore => (self, Seq::empty()),
        }
    }

    /// The host and the effects after a look at the selection.
    ///
    /// The selection may change before the old clip's gesture has ended: the
    /// change ends it, and rolls back what it has done so far.
    pub open spec fn after_selection(self, selected: Option<String>) -> (Self, Seq<HostEffect<T>>) {
        let changed = !same_id(selected, self.last_editing_clip);
        let active = match selected {
            Some(_) => selected,
            None => if changed {
                None
            } else {
                self.active_clip_id
            },
        };
        if changed {
            (
                AudioEditorHost {
                    state: AudioEditorState {
                        drag: AudioEditorDrag::Idle,
                        fitted_clip_id: match selected {
                            Some(_) => self.state.fitted_clip_id,
                            None => None,
                        },
                        ..self.state
                    },
                    active_clip_id: active,
                    last_editing_clip: selected,
                    ..self
                },
                seq![HostEffect::CancelGesture],
            )
        } else {
            (AudioEditorHost { active_clip_id: active, ..self }, Seq::empty())
        }
    }
}

/// Whether two ids, where there are any, are the same.
pub open spec fn same_id(a: Option<String>, b: Option<String>) -> bool {
    match (a, b) {
        (Some(a), Some(b)) => a@ == b@,
        (None, None) => true,
        _ => false,
    }
}

/// The id of the selected audio clip.
pub open spec fn selected_id<T>(state: TimelineState<T>) -> Option<String> {
    match state.selected_place() {
        Some(place) => Some(state.clip_at(place).id),
        None => None,
    }
}

fn same_optional_text(a: &Option<String>, b: &Option<String>) -> (same: bool)
    ensures
        same == same_id(*a, *b),
{
    match (a, b) {
        (Some(a), Some(b)) => same_text(a, b),
        (None, None) => true,
        _ => false,
    }
}

// ------------------------------------------------------------- spectrogram

/// The generation after another.
pub open spec fn next_generation(generation: u64) -> u64 {
    if generation == u64::MAX {
        0
    } else {
        (generation + 1) as u64
    }
}

/// The name of a frequency scale.
pub open spec fn scale_name(scale: FrequencyScale) -> Seq<char> {
    match scale {
        FrequencyScale::Linear => "Linear"@,
        FrequencyScale::Logarithmic => "Logarithmic"@,
    }
}

/// What identifies a spectrogram: file, scale, pitch and direction.
pub open spec fn spectrogram_id(
    path: Seq<char>,
    scale: FrequencyScale,
    pitch: Seq<char>,
    reverse: bool,
) -> Seq<char> {
    path + "|"@ + scale_name(scale) + "|p"@ + pitch + "|r"@ + if reverse {
        "1"@
    } else {
        "0"@
    }
}

fn spectrogram_text(path: &str, scale: FrequencyScale, pitch: &str, reverse: bool) -> (text: String)
    ensures
        text@ == spectrogram_id(path@, scale, pitch@, reverse),
{
    let name = match scale {
        FrequencyScale::Linear => "Linear",
        FrequencyScale::Logarithmic => "Logarithmic",
    };
    path.to_owned().concat("|").concat(name).concat("|p").concat(pitch).concat("|r").concat(
        if reverse {
            "1"
        } else {
            "0"
        },
    )
}

impl<T: Copy, R> AudioEditorHost<T, R> {
    /// Makes sure that the spectrogram of the clip is there or on its way, and
    /// hands out the job that starts it.
    pub fn ensure_spectrogram(
        &mut self,
        source_path: &Option<String>,
        pitch: &str,
        reverse: bool,
    ) -> (job: Option<SpectrogramJob>)
        ensures
            match *source_path {
                None => job is None && *final(self) == (AudioEditorHost {
                    spectrogram_key: None,
                    spectrogram_result: None,
                    ..*old(self)
                }),
                Some(path) => {
                    let scale = old(self).state.frequency_scale;
                    let key = spectrogram_id(path@, scale, pitch@, reverse);
                    if old(self).spectrogram_key is Some && old(self).spectrogram_key->0@ == key {
                        job is None && *final(self) == *old(self)
                    } else {
                        &&& *final(self) == (AudioEditorHost {
                            spectrogram_key: final(self).spectrogram_key,
                            spectrogram_result: None,
                            spectrogram_generation: next_generation(
                                old(self).spectrogram_generation,
                            ),
                            ..*old(self)
                        })
                        &&& final(self).spectrogram_key is Some
                        &&& final(self).spectrogram_key->0@ == key
                        &&& job == Some(
                            SpectrogramJob {
                                path,
                                frequency_scale: scale,
                                reverse,
                                generation: final(self).spectrogram_generation,
                            },
                        )
                    }
                },
            },
    {
        let path = match source_path {
            Some(path) => path,
            None => {
                self.spectrogram_key = None;
                self.spectrogram_result = None;
                return None;
            },
        };
        let key = spectrogram_text(path, self.state.frequency_scale, pitch, reverse);
        if let Some(current) = &self.spectrogram_key {
            if same_text(current, &key) {
                return None;
            }
        }
        self.spectrogram_key = Some(key);
        self.spectrogram_result = None;
        self.spectrogram_generation = self.spectrogram_generation.wrapping_add(1);
        Some(
            SpectrogramJob {
                path: path.clone(),
                frequency_scale: self.state.frequency_scale,
                reverse,
                generation: self.spectrogram_generation,
            },
        )
    }

    /// Takes the result of a spectrogram job, unless a later job or a refresh
    /// has made it stale. Says whether it was taken.
    pub fn finish_spectrogram(&mut self, generation: u64, result: Result<R, String>) -> (taken: bool)
        ensures
            taken == (generation == old(self).spectrogram_generation),
            *final(self) == if taken {
                AudioEditorHost { spectrogram_result: Some(result), ..*old(self) }
            } else {
                *old(self)
            },
    {
        if self.spectrogram_generation != generation {
            return false;
        }
        self.spectrogram_result = Some(result);
        true
    }

    /// Whether the view has still to be fitted to a clip, which then counts as
    /// fitted.
    pub fn refit(&mut self, clip_id: &String) -> (fit: bool)
        ensures
            fit == !same_id(old(self).state.fitted_clip_id, Some(*clip_id)),
            *final(self) == if fit {
                AudioEditorHost {
                    state: AudioEditorState {
                        fitted_clip_id: Some(*clip_id),
                        ..old(self).state
                    },
                    ..*old(self)
                }
            } else {
                *old(self)
            },
    {
        if let Some(fitted) = &self.state.fitted_clip_id {
            if same_text(fitted, clip_id) {
                return false;
            }
        }
        self.state.fitted_clip_id = Some(clip_id.clone());
        true
    }

    /// Drops the spectrogram, so that the clip is analysed anew.
    pub fn refresh_clip_visuals(&mut self)
        ensures
            *final(self) == (AudioEditorHost {
                spectrogram_key: None,
                spectrogram_result: None,
                spectrogram_generation: next_generation(old(self).spectrogram_generation),
                ..*old(self)
            }),
    {
        self.spectrogram_key = None;
        self.spectrogram_result = None;
        self.spectrogram_generation = self.spectrogram_generation.wrapping_add(1);
    }

    /// Hands out the tool that waits to be opened.
    pub fn take_pending_open_tool(&mut self) -> (pending: Option<
        (AudioToolKind, AudioToolTarget<T>),
    >)
        ensures
            pending == old(self).pending_open_tool,
            *final(self) == (AudioEditorHost { pending_open_tool: None, ..*old(self) }),
    {
        self.pending_open_tool.take()
    }

    /// Hands out the audition change that waits to be made.
    pub fn take_pending_audition(&mut self) -> (pending: Option<Audition<T>>)
        ensures
            pending == old(self).pending_audition,
            *final(self) == (AudioEditorHost { pending_audition: None, ..*old(self) }),
    {
        self.pending_audition.take()
    }

    /// The clip that the editor works on, and its track.
    pub fn active_clip<'a>(&self, timeline: &'a TimelineState<T>) -> (found: Option<
        (&'a TrackState<T>, &'a ClipState<T>),
    >)
        ensures
            match found {
                Some((track, clip)) => active_place(*timeline, self.active_clip_id) matches Some(
                    place,
                ) && {
                    &&& *track == timeline.tracks@[place.0]
                    &&& *clip == timeline.clip_at(place)
                    &&& clip.clip_type.audio()
                },
                None => active_place(*timeline, self.active_clip_id) is None,
            },
    {
        if let Some(found) = selected_audio_clip(timeline) {
            return Some(found);
        }
        match &self.active_clip_id {
            Some(id) => match timeline.find_clip(id) {
                Some((track, clip)) => if clip.clip_type.is_audio() {
                    Some((track, clip))
                } else {
                    None
                },
                None => None,
            },
            None => None,
        }
    }

    fn commit_active_clip_gesture(&self, effects: &mut Vec<HostEffect<T>>)
        ensures
            final(effects)@ == old(effects)@ + commit_effects(self.active_clip_id),
    {
        if let Some(clip_id) = &self.active_clip_id {
            effects.push(HostEffect::CommitGesture { clip_id: clip_id.clone() });
        }
    }

    fn begin_clip_gesture(&mut self, clip_id: &String, effects: &mut Vec<HostEffect<T>>)
        ensures
            *final(self) == (AudioEditorHost { active_clip_id: Some(*clip_id), ..*old(self) }),
            final(effects)@ == old(effects)@ + gesture_effects(
                old(self).active_clip_id,
                *clip_id,
            ),
    {
        let same = match &self.active_clip_id {
            Some(active) => same_text(active, clip_id),
            None => false,
        };
        if !same {
            self.commit_active_clip_gesture(effects);
        }
        self.active_clip_id = Some(clip_id.clone());
        effects.push(HostEffect::BeginGesture { clip_id: clip_id.clone() });
    }

    /// What the selection in the arrangement means for the editor.
    pub fn sync_selection(&mut self, timeline: &TimelineState<T>) -> (effects: Vec<HostEffect<T>>)
        ensures
            (*final(self), effects@) == old(self).after_selection(selected_id(*timeline)),
    {
        let mut effects: Vec<HostEffect<T>> = Vec::new();
        let selected: Option<String> = match selected_audio_clip(timeline) {
            Some((_, clip)) => Some(clip.id.clone()),
            None => None,
        };
        let changed = !same_optional_text(&selected, &self.last_editing_clip);
        if changed {
            effects.push(HostEffect::CancelGesture);
            self.state.drag = AudioEditorDrag::Idle;
        }
        if selected.is_some() {
            self.active_clip_id = copy_text(&selected);
        }
        if changed {
            if selected.is_none() {
                self.active_clip_id = None;
                self.state.fitted_clip_id = None;
            }
            self.last_editing_clip = selected;
        }
        effects
    }
}

// ---------------------------------------------------------------- handlers

impl<T: Copy, R> AudioEditorHost<T, R> {
    fn press_fade(&mut self, clip: &ClipState<T>, at: &PointerReading<T>, effects: &mut Vec<
        HostEffect<T>,
    >)
        requires
            old(effects)@.len() == 0,
            old(self).state.active_tool == AudioEditorTool::Fade,
        ensures
            (*final(self), final(effects)@) == old(self).pressed(*clip, *at),
    {
        if at.on_fade_in {
            self.begin_clip_gesture(&clip.id, effects);
            self.state.drag = AudioEditorDrag::AdjustingFadeIn {
                original_seconds: at.fade_in_seconds,
            };
        } else if at.on_fade_out {
            self.begin_clip_gesture(&clip.id, effects);
            self.state.drag = AudioEditorDrag::AdjustingFadeOut {
                original_seconds: at.fade_out_seconds,
            };
        } else {
            effects.push(HostEffect::Seek { beat: at.clip_beat });
        }
    }

    fn press_edge(&mut self, clip: &ClipState<T>, at: &PointerReading<T>, effects: &mut Vec<
        HostEffect<T>,
    >)
        requires
            old(effects)@.len() == 0,
            old(self).state.active_tool == AudioEditorTool::Pointer || old(self).state.active_tool
                == AudioEditorTool::Trim,
        ensures
            (*final(self), final(effects)@) == old(self).pressed(*clip, *at),
    {
        if at.at_start {
            self.begin_clip_gesture(&clip.id, effects);
            self.state.drag = AudioEditorDrag::TrimmingLeft { start_beat: clip.start_beat };
        } else if at.at_end {
            self.begin_clip_gesture(&clip.id, effects);
            self.state.drag = AudioEditorDrag::TrimmingRight { start_beat: clip.start_beat };
        } else if self.state.active_tool == AudioEditorTool::Pointer {
            effects.push(HostEffect::Seek { beat: at.clip_beat });
        }
    }

    fn press_warp(&mut self, clip: &ClipState<T>, at: &PointerReading<T>, effects: &mut Vec<
        HostEffect<T>,
    >)
        requires
            old(effects)@.len() == 0,
            old(self).state.active_tool == AudioEditorTool::Warp,
        ensures
            (*final(self), final(effects)@) == old(self).pressed(*clip, *at),
    {
        let markers = &clip.stretch.warp_markers;
        match first_hit_index(&at.marker_hits, markers.len()) {
            Some(i) => {
                proof {
                    lemma_first_hit(at.marker_hits@, markers@.len() as int, i as int);
                }
                let marker_id: u64 = markers[i].id;
                self.begin_clip_gesture(&clip.id, effects);
                self.state.drag = AudioEditorDrag::MovingWarpMarker { marker_id };
            },
            None => {
                if let Some((source_sample, timeline_beat)) = at.warp {
                    effects.push(
                        HostEffect::ApplyStretch {
                            clip_id: clip.id.clone(),
                            edit: StretchEdit::AddWarpMarker { source_sample, timeline_beat },
                        },
                    );
                }
            },
        }
        effects.push(HostEffect::Notify);
    }

    fn press_draw(&mut self, clip: &ClipState<T>, at: &PointerReading<T>, effects: &mut Vec<
        HostEffect<T>,
    >)
        requires
            old(effects)@.len() == 0,
            old(self).state.active_tool == AudioEditorTool::Draw,
        ensures
            (*final(self), final(effects)@) == old(self).pressed(*clip, *at),
    {
        let points = &clip.stretch.gain_envelope;
        let point_id: u64 = match first_hit_index(&at.point_hits, points.len()) {
            Some(i) => {
                proof {
                    lemma_first_hit(at.point_hits@, points@.len() as int, i as int);
                }
                points[i].id
            },
            None => next_point_id(points),
        };
        self.begin_clip_gesture(&clip.id, effects);
        effects.push(
            HostEffect::EditStretch {
                clip_id: clip.id.clone(),
                edit: StretchEdit::DrawPoint { point_id, time: at.time, value_db: at.value_db },
            },
        );
        self.state.drag = AudioEditorDrag::MovingEnvelopePoint { point_id };
    }

    /// The pointer goes down.
    pub fn begin_pointer(&mut self, timeline: &TimelineState<T>, at: &PointerReading<T>) -> (effects:
        Vec<HostEffect<T>>)
        ensures
            match active_clip_of(*timeline, old(self).active_clip_id) {
                Some(clip) => (*final(self), effects@) == old(self).pressed(clip, *at),
                None => *final(self) == *old(self) && effects@.len() == 0,
            },
    {
        let mut effects: Vec<HostEffect<T>> = Vec::new();
        let clip = match self.active_clip(timeline) {
            Some((_, clip)) => clip,
            None => {
                return effects;
            },
        };
        match self.state.active_tool {
            AudioEditorTool::Split => {
                effects.push(
                    HostEffect::SplitClip { clip_id: clip.id.clone(), beat: at.abs_beat },
                );
            },
            AudioEditorTool::Range => {
                self.state.selection_range = Some((at.rel_beat, at.rel_beat));
                self.state.drag = AudioEditorDrag::SelectingRange { anchor_beat: at.rel_beat };
                effects.push(HostEffect::Notify);
            },
            AudioEditorTool::SpectralRange => {
                self.state.spectral_selection = Some(at.spectral);
                self.state.drag = AudioEditorDrag::SelectingSpectralRange {
                    anchor_frame: at.frame,
                    anchor_hz: at.hz,
                };
                effects.push(HostEffect::Notify);
            },
            AudioEditorTool::Fade => {
                self.press_fade(clip, at, &mut effects);
            },
            AudioEditorTool::Pointer | AudioEditorTool::Trim => {
                self.press_edge(clip, at, &mut effects);
            },
            AudioEditorTool::Marker => {
                effects.push(HostEffect::AddMarker { beat: at.clip_beat });
            },
            AudioEditorTool::Scrub => {
                effects.push(HostEffect::Seek { beat: at.clip_beat });
                self.state.drag = AudioEditorDrag::SelectingRange { anchor_beat: at.rel_beat };
            },
            AudioEditorTool::Audition => {
                let beat = if self.state.selection_range.is_some() {
                    at.selection_beat
                } else {
                    at.clip_beat
                };
                effects.push(HostEffect::Seek { beat });
                self.pending_audition = Some(Audition::Start { beat });
                self.state.drag = AudioEditorDrag::SelectingRange { anchor_beat: at.rel_beat };
                effects.push(HostEffect::Notify);
            },
            AudioEditorTool::Warp => {
                self.press_warp(clip, at, &mut effects);
            },
            AudioEditorTool::Draw => {
                self.press_draw(clip, at, &mut effects);
            },
        }
        effects
    }

    /// The pointer moves.
    pub fn update_pointer(&mut self, timeline: &TimelineState<T>, at: &PointerReading<T>) -> (effects:
        Vec<HostEffect<T>>)
        ensures
            match active_clip_of(*timeline, old(self).active_clip_id) {
                Some(clip) => (*final(self), effects@) == old(self).dragged(clip, *at),
                None => *final(self) == *old(self) && effects@.len() == 0,
            },
    {
        let mut effects: Vec<HostEffect<T>> = Vec::new();
        let clip = match self.active_clip(timeline) {
            Some((_, clip)) => clip,
            None => {
                return effects;
            },
        };
        match self.state.drag {
            AudioEditorDrag::Idle => {},
            AudioEditorDrag::SelectingRange { anchor_beat } => {
                if self.state.active_tool == AudioEditorTool::Scrub || self.state.active_tool
                    == AudioEditorTool::Audition {
                    effects.push(HostEffect::Seek { beat: at.clip_beat });
                } else {
                    self.state.selection_range = Some((anchor_beat, at.rel_beat));
                    effects.push(HostEffect::Notify);
                }
            },
            AudioEditorDrag::SelectingSpectralRange { .. } => {
                self.state.spectral_selection = Some(at.spectral);
                effects.push(HostEffect::Notify);
            },
            AudioEditorDrag::TrimmingLeft { .. } => {
                effects.push(
                    HostEffect::ResizeClip {
                        clip_id: clip.id.clone(),
                        edge: ClipEdge::Left,
                        beat: at.clip_beat,
                    },
                );
            },
            AudioEditorDrag::TrimmingRight { .. } => {
                effects.push(
                    HostEffect::ResizeClip {
                        clip_id: clip.id.clone(),
                        edge: ClipEdge::Right,
                        beat: at.clip_beat,
                    },
                );
            },
            AudioEditorDrag::AdjustingFadeIn { .. } => {
                effects.push(
                    HostEffect::EditStretch {
                        clip_id: clip.id.clone(),
                        edit: StretchEdit::Fade {
                            side: AudioFadeSide::In,
                            milliseconds: at.fade_in_ms,
                        },
                    },
                );
            },
            AudioEditorDrag::AdjustingFadeOut { .. } => {
                effects.push(
                    HostEffect::EditStretch {
                        clip_id: clip.id.clone(),
                        edit: StretchEdit::Fade {
                            side: AudioFadeSide::Out,
                            milliseconds: at.fade_out_ms,
                        },
                    },
                );
            },
            AudioEditorDrag::MovingEnvelopePoint { point_id } => {
                effects.push(
                    HostEffect::EditStretch {
                        clip_id: clip.id.clone(),
                        edit: StretchEdit::MovePoint {
                            point_id,
                            time: at.time,
                            value_db: at.value_db,
                        },
                    },
                );
            },
            AudioEditorDrag::MovingWarpMarker { marker_id } => {
                effects.push(
                    HostEffect::EditStretch {
                        clip_id: clip.id.clone(),
                        edit: StretchEdit::MoveWarpMarker { marker_id, beat: at.clip_beat },
                    },
                );
            },
        }
        effects
    }

    /// The pointer goes up; `range_empty` and `spectral_empty` say whether
    /// the selections cover nothing.
    pub fn finish_pointer(&mut self, range_empty: bool, spectral_empty: bool) -> (effects: Vec<
        HostEffect<T>,
    >)
        ensures
            (*final(self), effects@) == old(self).released(range_empty, spectral_empty),
    {
        let mut effects: Vec<HostEffect<T>> = Vec::new();
        let drag = self.state.drag;
        self.state.drag = AudioEditorDrag::Idle;
        match drag {
            AudioEditorDrag::Idle => {},
            AudioEditorDrag::SelectingRange { .. } => {
                if self.state.active_tool == AudioEditorTool::Audition {
                    self.pending_audition = Some(Audition::Stop);
                }
                if range_empty {
                    self.state.selection_range = None;
                }
                effects.push(HostEffect::Notify);
            },
            AudioEditorDrag::SelectingSpectralRange { .. } => {
                if spectral_empty {
                    self.state.spectral_selection = None;
                }
                effects.push(HostEffect::Notify);
            },
            _ => {
                self.commit_active_clip_gesture(&mut effects);
            },
        }
        effects
    }

    /// The target that a tool opens with, when the editor has a clip.
    pub fn current_tool_target(&self, timeline: &TimelineState<T>, facts: &SourceFacts) -> (target:
        Option<AudioToolTarget<T>>)
        ensures
            match active_clip_of(*timeline, self.active_clip_id) {
                Some(clip) => target matches Some(target) && is_tool_target(
                    target,
                    clip,
                    self.state,
                    *facts,
                ),
                None => target is None,
            },
    {
        let clip = match self.active_clip(timeline) {
            Some((_, clip)) => clip,
            None => {
                return None;
            },
        };
        let source_path = copy_clip_path(&clip.clip_type);
        let file_label = match &source_path {
            Some(path) => file_label(path),
            None => "Audio Clip".to_owned(),
        };
        let sample_rate: u32 = match facts.meta {
            Some(meta) => meta.sample_rate,
            None => if facts.spectrogram_rate > 0 {
                facts.spectrogram_rate
            } else if clip.stretch.original_sample_rate > 44_100 {
                clip.stretch.original_sample_rate
            } else {
                44_100
            },
        };
        let channels: u32 = match facts.meta {
            Some(meta) => meta.channels,
            None => 2,
        };
        let frames: i64 = match facts.meta {
            Some(meta) => meta.total_frames as i64,
            None => total_source_frames(clip, facts),
        };
        Some(
            AudioToolTarget {
                clip_id: clip.id.clone(),
                source_id: match &clip.asset_key {
                    Some(key) => key.clone(),
                    None => clip.id.clone(),
                },
                clip_name: clip.name.clone(),
                file_label,
                source_path,
                sample_rate,
                channels,
                source_frames: frames,
                time_selection: match self.state.selection_range {
                    Some(_) => Some(
                        AudioRangeSelection {
                            start_frame: facts.selected_frames.0,
                            end_frame: facts.selected_frames.1,
                        },
                    ),
                    None => None,
                },
                spectral_selection: self.state.spectral_selection,
            },
        )
    }

    fn open_tool(&mut self, kind: AudioToolKind, timeline: &TimelineState<T>, facts: &SourceFacts)
        ensures
            old(self).opens(
                *final(self),
                kind,
                active_clip_of(*timeline, old(self).active_clip_id),
                *facts,
            ),
    {
        if let Some(target) = self.current_tool_target(timeline, facts) {
            self.pending_open_tool = Some((kind, target));
        }
    }

    fn apply_stretch(
        &mut self,
        timeline: &TimelineState<T>,
        edit: StretchEdit<T>,
        effects: &mut Vec<HostEffect<T>>,
    )
        requires
            old(effects)@.len() == 0,
        ensures
            (*final(self), final(effects)@) == old(self).applied(
                active_clip_of(*timeline, old(self).active_clip_id),
                edit,
            ),
    {
        if let Some((_, clip)) = self.active_clip(timeline) {
            self.state.open_dropdown = None;
            effects.push(HostEffect::ApplyStretch { clip_id: clip.id.clone(), edit });
        }
    }

    fn drop_pointer(&mut self, timeline: &TimelineState<T>, at: &PointerReading<T>) -> (effects: Vec<
        HostEffect<T>,
    >)
        ensures
            (*final(self), effects@) == old(self).dropped(
                active_clip_of(*timeline, old(self).active_clip_id),
                *at,
            ),
    {
        let has_clip = self.active_clip(timeline).is_some();
        let draws_range = match self.state.drag {
            AudioEditorDrag::SelectingRange { .. } => self.state.active_tool
                != AudioEditorTool::Scrub && self.state.active_tool != AudioEditorTool::Audition,
            _ => false,
        };
        let draws_spectral = match self.state.drag {
            AudioEditorDrag::SelectingSpectralRange { .. } => true,
            _ => false,
        };
        let range_empty = if has_clip && draws_range {
            at.drawn_range_empty
        } else {
            at.kept_range_empty
        };
        let spectral_empty = if has_clip && draws_spectral {
            at.drawn_spectral_empty
        } else {
            at.kept_spectral_empty
        };
        let mut effects = self.update_pointer(timeline, at);
        let mut last = self.finish_pointer(range_empty, spectral_empty);
        effects.append(&mut last);
        effects
    }

    /// Handles an event of the editor panel.
    pub fn handle_event(
        &mut self,
        event: AudioEditorEvent<T>,
        timeline: &TimelineState<T>,
        at: &PointerReading<T>,
        facts: &SourceFacts,
    ) -> (effects: Vec<HostEffect<T>>)
        ensures
            ({
                let clip = active_clip_of(*timeline, old(self).active_clip_id);
                let (next, expected) = old(self).after_event(event, clip, *at);
                &&& effects@ == expected
                &&& match event {
                    AudioEditorEvent::OpenTool { kind } => next.opens(
                        *final(self),
                        kind,
                        clip,
                        *facts,
                    ),
                    _ => *final(self) == next,
                }
            }),
    {
        let mut effects: Vec<HostEffect<T>> = Vec::new();
        match event {
            AudioEditorEvent::ToggleDropdown { dropdown } => {
                self.state.open_dropdown = match self.state.open_dropdown {
                    Some(open) => if open == dropdown {
                        None
                    } else {
                        Some(dropdown)
                    },
                    None => Some(dropdown),
                };
                effects.push(HostEffect::Notify);
            },
            AudioEditorEvent::SetTool { tool } => {
                self.commit_active_clip_gesture(&mut effects);
                self.state.drag = AudioEditorDrag::Idle;
                self.state.active_tool = tool;
                self.state.open_dropdown = None;
                effects.push(HostEffect::Notify);
            },
            AudioEditorEvent::SetSnap { snap } => {
                self.state.snap = snap;
                self.state.zero_crossing_snap = snap == AudioEditorSnap::ZeroCrossing;
                self.state.open_dropdown = None;
                effects.push(HostEffect::Notify);
            },
            AudioEditorEvent::SetChannelMode { mode } => {
                self.state.channel_mode = mode;
                self.state.open_dropdown = None;
                effects.push(HostEffect::Notify);
            },
            AudioEditorEvent::SetViewMode { mode } => {
                self.state.view_mode = mode;
                self.state.open_dropdown = None;
                effects.push(HostEffect::Notify);
            },
            AudioEditorEvent::SetAmplitudeScale { scale } => {
                self.state.amplitude_scale = scale;
                self.state.open_dropdown = None;
                effects.push(HostEffect::Notify);
            },
            AudioEditorEvent::SetFrequencyScale { frequency_scale } => {
                self.state.frequency_scale = frequency_scale;
                self.state.open_dropdown = None;
                effects.push(HostEffect::Notify);
            },
            AudioEditorEvent::SetDisplaySmoothing { mode } => {
                self.state.display_smoothing = mode;
                self.state.open_dropdown = None;
                effects.push(HostEffect::Notify);
            },
            AudioEditorEvent::SetClipChannel { tag } => {
                self.apply_stretch(timeline, StretchEdit::Channel { tag }, &mut effects);
            },
            AudioEditorEvent::AdjustVerticalZoom { factor } => {
                effects.push(HostEffect::AdjustVerticalZoom { factor });
                effects.push(HostEffect::Notify);
            },
            AudioEditorEvent::ResetVerticalZoom => {
                effects.push(HostEffect::ResetVerticalZoom);
                effects.push(HostEffect::Notify);
            },
            AudioEditorEvent::ZoomBy { factor, anchor_x } => {
                effects.push(HostEffect::ZoomBy { factor, anchor_x });
                effects.push(HostEffect::Notify);
            },
            AudioEditorEvent::FitClip => {
                if let Some((_, clip)) = self.active_clip(timeline) {
                    effects.push(HostEffect::FitClip { duration_beats: clip.duration_beats });
                    effects.push(HostEffect::Notify);
                }
            },
            AudioEditorEvent::Seek => {
                if self.active_clip(timeline).is_some() {
                    effects.push(HostEffect::Seek { beat: at.abs_beat });
                }
            },
            AudioEditorEvent::PointerDown => {
                effects = self.begin_pointer(timeline, at);
            },
            AudioEditorEvent::PointerMove => {
                effects = self.update_pointer(timeline, at);
            },
            AudioEditorEvent::PointerUp => {
                effects = self.drop_pointer(timeline, at);
            },
            AudioEditorEvent::AdjustGain { delta_db } => {
                if let Some((_, clip)) = self.active_clip(timeline) {
                    effects.push(HostEffect::ApplyGain { clip_id: clip.id.clone(), delta_db });
                }
            },
            AudioEditorEvent::AdjustPitch { delta_semitones } => {
                if let Some((_, clip)) = self.active_clip(timeline) {
                    effects.push(
                        HostEffect::ApplyPitch { clip_id: clip.id.clone(), delta_semitones },
                    );
                }
            },
            AudioEditorEvent::AdjustFinePitch { delta_cents } => {
                if let Some((_, clip)) = self.active_clip(timeline) {
                    effects.push(
                        HostEffect::ApplyFinePitch { clip_id: clip.id.clone(), delta_cents },
                    );
                }
            },
            AudioEditorEvent::ToggleFollowTempo => {
                self.apply_stretch(
                    timeline,
                    StretchEdit::FollowTempo { enabled: !at.follows_tempo },
                    &mut effects,
                );
            },
            AudioEditorEvent::ToggleReverse => {
                if let Some((_, clip)) = self.active_clip(timeline) {
                    let enabled = !clip.stretch.reverse;
                    self.apply_stretch(timeline, StretchEdit::Reverse { enabled }, &mut effects);
                }
            },
            AudioEditorEvent::SetFollowTempo { enabled } => {
                self.apply_stretch(timeline, StretchEdit::FollowTempo { enabled }, &mut effects);
            },
            AudioEditorEvent::SetReverse { enabled } => {
                self.apply_stretch(timeline, StretchEdit::Reverse { enabled }, &mut effects);
            },
            AudioEditorEvent::SetDenoiseAmount { amount } => {
                self.apply_stretch(timeline, StretchEdit::Denoise { amount }, &mut effects);
            },
            AudioEditorEvent::OpenTool { kind } => {
                self.state.open_dropdown = None;
                self.open_tool(kind, timeline, facts);
                effects.push(HostEffect::Notify);
            },
        }
        effects
    }

    /// Handles a key press; says whether the editor took it.
    pub fn on_key(
        &mut self,
        key: &str,
        modified: bool,
        timeline: &TimelineState<T>,
        facts: &SourceFacts,
    ) -> (outcome: (bool, Vec<HostEffect<T>>))
        ensures
            ({
                let action = if modified {
                    KeyAction::Ignore
                } else {
                    key_meaning(key@)
                };
                let clip = active_clip_of(*timeline, old(self).active_clip_id);
                let (next, expected) = old(self).after_key(action, clip);
                &&& outcome.0 == (action != KeyAction::Ignore)
                &&& outcome.1@ == expected
                &&& match action {
                    KeyAction::OpenTool { kind } => next.opens(*final(self), kind, clip, *facts),
                    _ => *final(self) == next,
                }
            }),
    {
        let mut effects: Vec<HostEffect<T>> = Vec::new();
        match key_action(key, modified) {
            KeyAction::SelectTool { tool } => {
                self.commit_active_clip_gesture(&mut effects);
                self.state.active_tool = tool;
                self.state.open_dropdown = None;
            },
            KeyAction::OpenTool { kind } => {
                self.open_tool(kind, timeline, facts);
            },
            KeyAction::Escape => {
                effects.push(HostEffect::CancelGesture);
                if self.pending_audition.is_some() {
                    self.pending_audition = Some(Audition::Stop);
                }
                self.state.selection_range = None;
                self.state.spectral_selection = None;
                self.state.drag = AudioEditorDrag::Idle;
                self.state.open_dropdown = None;
            },
            KeyAction::Fit => {
                if let Some((_, clip)) = self.active_clip(timeline) {
                    effects.push(HostEffect::FitClip { duration_beats: clip.duration_beats });
                }
            },
            KeyAction::ZoomIn => {
                effects.push(HostEffect::ZoomIn);
            },
            KeyAction::ZoomOut => {
                effects.push(HostEffect::ZoomOut);
            },
            KeyAction::Ignore => {
                return (false, effects);
            },
        }
        effects.push(HostEffect::Notify);
        (true, effects)
    }
}

/// Last source frame of a clip: where it is trimmed, or where its source ends.
pub fn source_end_frame<T>(clip: &ClipState<T>, meta: Option<WaveformFileMeta>) -> (end: u64)
    ensures
        end == source_end(*clip, meta),
{
    let stretch = &clip.stretch;
    let known: u64 = match meta {
        Some(meta) => meta.total_frames,
        None => 0,
    };
    if stretch.source_end_samples > stretch.source_start_samples {
        stretch.source_end_samples
    } else if stretch.original_duration_samples > known {
        stretch.original_duration_samples
    } else {
        known
    }
}

/// Frames of a clip's source, as far as they are known.
pub fn total_source_frames<T>(clip: &ClipState<T>, facts: &SourceFacts) -> (frames: i64)
    ensures
        frames == source_frames(*clip, *facts),
{
    let start: i64 = clip.stretch.source_start_samples as i64;
    let end: i64 = source_end_frame(clip, facts.meta) as i64;
    if end > start {
        if end > 0 {
            end
        } else {
            0
        }
    } else {
        facts.spectrogram_frames
    }
}

// -------------------------------------------------------------------- snap

/// Where a pointed-at beat goes.
#[derive(Clone, Copy, PartialEq, Eq, Structural, Debug)]
pub enum SnapTarget {
    /// It stays where it is.
    Keep,
    Grid,
    ZeroCrossing,
}

/// Frames searched for a zero crossing on either side.
pub const CROSSING_RADIUS: u64 = 2_048;

/// Where a pointed-at beat goes; holding the bypass key keeps it.
pub fn snap_target(snap: AudioEditorSnap, bypass: bool) -> (target: SnapTarget)
    ensures
        target == if bypass {
            SnapTarget::Keep
        } else {
            match snap {
                AudioEditorSnap::Grid => SnapTarget::Grid,
                AudioEditorSnap::ZeroCrossing => SnapTarget::ZeroCrossing,
                _ => SnapTarget::Keep,
            }
        },
{
    if bypass {
        return SnapTarget::Keep;
    }
    match snap {
        AudioEditorSnap::Grid => SnapTarget::Grid,
        AudioEditorSnap::ZeroCrossing => SnapTarget::ZeroCrossing,
        _ => SnapTarget::Keep,
    }
}

/// The frames searched for a zero crossing near a frame.
pub fn crossing_window(frame: i64) -> (window: (u64, u64))
    ensures
        ({
            let center: int = if frame > 0 {
                frame as int
            } else {
                0
            };
            &&& window.0 == if center > CROSSING_RADIUS {
                center - CROSSING_RADIUS
            } else {
                0
            }
            &&& window.1 == center + CROSSING_RADIUS
        }),
{
    let center: u64 = if frame > 0 { frame as u64 } else { 0 };
    (center.saturating_sub(CROSSING_RADIUS), center.saturating_add(CROSSING_RADIUS))
}

// ------------------------------------------------------------------- laws

/// A zero crossing is looked for over 2048 frames on either side.
pub proof fn law_the_search_for_a_crossing_is_bounded()
    ensures
        2 * CROSSING_RADIUS == 4_096,
{
}

} // verus!
