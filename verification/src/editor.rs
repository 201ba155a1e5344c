//! Tools, gestures and view state of the audio editor.

use vstd::prelude::*;

use crate::stretch::AudioFadeSide;
use crate::target::{AudioToolKind, SpectralSelection};
use crate::timeline::BeatPosition;

verus! {

/// The tool under the pointer.
#[derive(Clone, Copy, PartialEq, Eq, Structural, Debug)]
pub enum AudioEditorTool {
    Pointer,
    Range,
    SpectralRange,
    Split,
    Fade,
    Marker,
    Trim,
    Scrub,
    Draw,
    Warp,
    Audition,
}

/// What a pointed-at beat snaps to.
#[derive(Clone, Copy, PartialEq, Eq, Structural, Debug)]
pub enum AudioEditorSnap {
    Off,
    Grid,
    ZeroCrossing,
    Markers,
    Transients,
}

/// How frequencies are laid out.
#[derive(Clone, Copy, PartialEq, Eq, Structural, Debug)]
pub enum FrequencyScale {
    Linear,
    Logarithmic,
}

/// An end of a clip.
#[derive(Clone, Copy, PartialEq, Eq, Structural, Debug)]
pub enum ClipEdge {
    Left,
    Right,
}

/// The gesture under way.
#[derive(Clone, Copy)]
pub enum AudioEditorDrag<T> {
    Idle,
    SelectingRange { anchor_beat: T },
    SelectingSpectralRange { anchor_frame: i64, anchor_hz: T },
    TrimmingLeft { start_beat: T },
    TrimmingRight { start_beat: T },
    AdjustingFadeIn { original_seconds: T },
    AdjustingFadeOut { original_seconds: T },
    MovingEnvelopePoint { point_id: u64 },
    MovingWarpMarker { marker_id: u64 },
}

impl<T> AudioEditorDrag<T> {
    /// Whether the gesture edits the clip itself.
    pub open spec fn edits_clip(self) -> bool {
        match self {
            AudioEditorDrag::Idle => false,
            AudioEditorDrag::SelectingRange { .. } => false,
            AudioEditorDrag::SelectingSpectralRange { .. } => false,
            _ => true,
        }
    }
}

/// The view state of the editor.
pub struct AudioEditorState<T> {
    pub active_tool: AudioEditorTool,
    pub snap: AudioEditorSnap,
    pub zero_crossing_snap: bool,
    pub open_dropdown: Option<u32>,
    pub channel_mode: u32,
    pub view_mode: u32,
    pub amplitude_scale: u32,
    pub frequency_scale: FrequencyScale,
    pub display_smoothing: u32,
    pub selection_range: Option<(T, T)>,
    pub spectral_selection: Option<SpectralSelection<T>>,
    pub drag: AudioEditorDrag<T>,
    pub fitted_clip_id: Option<String>,
}

/// What the editor panel reports.
#[derive(Clone, Copy)]
pub enum AudioEditorEvent<T> {
    ToggleDropdown { dropdown: u32 },
    SetTool { tool: AudioEditorTool },
    SetSnap { snap: AudioEditorSnap },
    SetChannelMode { mode: u32 },
    SetViewMode { mode: u32 },
    SetAmplitudeScale { scale: u32 },
    SetFrequencyScale { frequency_scale: FrequencyScale },
    SetDisplaySmoothing { mode: u32 },
    SetClipChannel { tag: u32 },
    AdjustVerticalZoom { factor: T },
    ResetVerticalZoom,
    ZoomBy { factor: T, anchor_x: Option<T> },
    FitClip,
    Seek,
    PointerDown,
    PointerMove,
    PointerUp,
    AdjustGain { delta_db: T },
    AdjustPitch { delta_semitones: T },
    AdjustFinePitch { delta_cents: T },
    ToggleFollowTempo,
    ToggleReverse,
    SetFollowTempo { enabled: bool },
    SetReverse { enabled: bool },
    SetDenoiseAmount { amount: T },
    OpenTool { kind: AudioToolKind },
}

/// What a press of a key means to the editor.
#[derive(Clone, Copy, PartialEq, Eq, Structural, Debug)]
pub enum KeyAction {
    SelectTool { tool: AudioEditorTool },
    OpenTool { kind: AudioToolKind },
    Escape,
    Fit,
    ZoomIn,
    ZoomOut,
    Ignore,
}

/// A change of a clip's stretch settings.
#[derive(Clone, Copy)]
pub enum StretchEdit<T> {
    FollowTempo { enabled: bool },
    Reverse { enabled: bool },
    Denoise { amount: T },
    Channel { tag: u32 },
    Fade { side: AudioFadeSide, milliseconds: T },
    DrawPoint { point_id: u64, time: T, value_db: T },
    MovePoint { point_id: u64, time: T, value_db: T },
    AddWarpMarker { source_sample: u64, timeline_beat: BeatPosition<T> },
    MoveWarpMarker { marker_id: u64, beat: T },
}

/// What the editor asks of the arrangement and the view, in order.
pub enum HostEffect<T> {
    /// Draw the editor again.
    Notify,
    /// Open an undo step for a clip.
    BeginGesture { clip_id: String },
    /// Close a clip's undo step, keeping what changed.
    CommitGesture { clip_id: String },
    /// Roll the open undo step back.
    CancelGesture,
    Seek { beat: T },
    SplitClip { clip_id: String, beat: T },
    AddMarker { beat: T },
    ResizeClip { clip_id: String, edge: ClipEdge, beat: T },
    /// Change a clip inside the open undo step.
    EditStretch { clip_id: String, edit: StretchEdit<T> },
    /// Change a clip in an undo step of its own.
    ApplyStretch { clip_id: String, edit: StretchEdit<T> },
    ApplyGain { clip_id: String, delta_db: T },
    ApplyPitch { clip_id: String, delta_semitones: T },
    ApplyFinePitch { clip_id: String, delta_cents: T },
    ZoomBy { factor: T, anchor_x: Option<T> },
    ZoomIn,
    ZoomOut,
    FitClip { duration_beats: T },
    AdjustVerticalZoom { factor: T },
    ResetVerticalZoom,
}

/// What lies under the pointer, measured in the coordinates of the view.
pub struct PointerReading<T> {
    /// The beat pointed at, snapped.
    pub abs_beat: T,
    /// The same, counted from the clip's start and kept inside the clip.
    pub rel_beat: T,
    /// The clip's start plus `rel_beat`.
    pub clip_beat: T,
    /// Where the selection starts, if there is one.
    pub selection_beat: T,
    pub frame: i64,
    pub hz: T,
    /// The spectral selection that the pointer draws.
    pub spectral: SpectralSelection<T>,
    pub on_fade_in: bool,
    pub on_fade_out: bool,
    pub fade_in_seconds: T,
    pub fade_out_seconds: T,
    /// Length of a fade that ends, or starts, at the pointer.
    pub fade_in_ms: T,
    pub fade_out_ms: T,
    pub at_start: bool,
    pub at_end: bool,
    /// Which of the clip's warp markers are hit.
    pub marker_hits: Vec<bool>,
    /// Which of the clip's envelope points are hit.
    pub point_hits: Vec<bool>,
    /// Position in the clip and gain at the pointer.
    pub time: T,
    pub value_db: T,
    /// Where a new warp marker goes; nowhere on a clip without length.
    pub warp: Option<(u64, BeatPosition<T>)>,
    /// Whether the range that the pointer draws is empty, and whether the
    /// range drawn before is.
    pub drawn_range_empty: bool,
    pub kept_range_empty: bool,
    /// The same of the spectral selection.
    pub drawn_spectral_empty: bool,
    pub kept_spectral_empty: bool,
    /// Whether the clip follows the project tempo.
    pub follows_tempo: bool,
}

} // verus!
