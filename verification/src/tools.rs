//! The floating tool windows: what they analyse, preview and apply.

use vstd::prelude::*;

use crate::navigator::AudioRepairModule;
use crate::preview::{ClipPreviewOverride, DehumParams};
use crate::target::{AudioRangeSelection, AudioToolKind, AudioToolTarget};

verus! {

// ------------------------------------------------------------------- types

/// What the spectrum analyzer listens to.
#[derive(Clone, Copy, PartialEq, Eq, Structural, Debug)]
pub enum SpectrumMode {
    RealtimePlayback,
    SelectionAverage,
    SelectionPeak,
    StaticCursor,
}

/// Length of an analysis block.
#[derive(Clone, Copy, PartialEq, Eq, Structural, Debug)]
pub enum FftSize {
    N512,
    N1024,
    N2048,
    N4096,
    N8192,
    N16384,
}

/// Shape of an analysis block.
#[derive(Clone, Copy, PartialEq, Eq, Structural, Debug)]
pub enum SpectrumWindow {
    Hann,
    BlackmanHarris,
}

/// Smoothing across frequencies.
#[derive(Clone, Copy, PartialEq, Eq, Structural, Debug)]
pub enum SpectrumSmoothing {
    Off,
    SixthOctave,
    TwelfthOctave,
}

/// What loudness is measured by when a clip is normalised.
#[derive(Clone, Copy, PartialEq, Eq, Structural, Debug)]
pub enum NormalizeMode {
    Peak,
    TruePeak,
    Loudness,
}

/// How a clip's length is changed.
#[derive(Clone, Copy, PartialEq, Eq, Structural, Debug)]
pub enum TimePitchMode {
    Off,
    Stretch,
    FitDuration,
    FollowTempo,
}

impl FftSize {
    /// Samples of a block.
    pub open spec fn samples(self) -> nat {
        match self {
            FftSize::N512 => 512,
            FftSize::N1024 => 1024,
            FftSize::N2048 => 2048,
            FftSize::N4096 => 4096,
            FftSize::N8192 => 8192,
            FftSize::N16384 => 16384,
        }
    }

    /// Samples of a block.
    pub fn size(self) -> (size: usize)
        ensures
            size == self.samples(),
    {
        match self {
            FftSize::N512 => 512,
            FftSize::N1024 => 1024,
            FftSize::N2048 => 2048,
            FftSize::N4096 => 4096,
            FftSize::N8192 => 8192,
            FftSize::N16384 => 16384,
        }
    }

    /// The next longer block, and the shortest after the longest.
    pub open spec fn following(self) -> FftSize {
        match self {
            FftSize::N512 => FftSize::N1024,
            FftSize::N1024 => FftSize::N2048,
            FftSize::N2048 => FftSize::N4096,
            FftSize::N4096 => FftSize::N8192,
            FftSize::N8192 => FftSize::N16384,
            FftSize::N16384 => FftSize::N512,
        }
    }

    /// The next longer block, and the shortest after the longest.
    pub fn cycled(self) -> (next: FftSize)
        ensures
            next == self.following(),
    {
        match self {
            FftSize::N512 => FftSize::N1024,
            FftSize::N1024 => FftSize::N2048,
            FftSize::N2048 => FftSize::N4096,
            FftSize::N4096 => FftSize::N8192,
            FftSize::N8192 => FftSize::N16384,
            FftSize::N16384 => FftSize::N512,
        }
    }
}

impl SpectrumMode {
    /// The mode offered after this one.
    pub open spec fn following(self) -> SpectrumMode {
        match self {
            SpectrumMode::RealtimePlayback => SpectrumMode::SelectionAverage,
            SpectrumMode::SelectionAverage => SpectrumMode::SelectionPeak,
            SpectrumMode::SelectionPeak => SpectrumMode::StaticCursor,
            SpectrumMode::StaticCursor => SpectrumMode::RealtimePlayback,
        }
    }

    /// The mode offered after this one.
    pub fn cycled(self) -> (next: SpectrumMode)
        ensures
            next == self.following(),
    {
        match self {
            SpectrumMode::RealtimePlayback => SpectrumMode::SelectionAverage,
            SpectrumMode::SelectionAverage => SpectrumMode::SelectionPeak,
            SpectrumMode::SelectionPeak => SpectrumMode::StaticCursor,
            SpectrumMode::StaticCursor => SpectrumMode::RealtimePlayback,
        }
    }
}

impl SpectrumWindow {
    /// The other shape.
    pub open spec fn following(self) -> SpectrumWindow {
        match self {
            SpectrumWindow::Hann => SpectrumWindow::BlackmanHarris,
            SpectrumWindow::BlackmanHarris => SpectrumWindow::Hann,
        }
    }

    /// The other shape.
    pub fn cycled(self) -> (next: SpectrumWindow)
        ensures
            next == self.following(),
    {
        match self {
            SpectrumWindow::Hann => SpectrumWindow::BlackmanHarris,
            SpectrumWindow::BlackmanHarris => SpectrumWindow::Hann,
        }
    }
}

impl SpectrumSmoothing {
    /// The smoothing offered after this one.
    pub open spec fn following(self) -> SpectrumSmoothing {
        match self {
            SpectrumSmoothing::Off => SpectrumSmoothing::SixthOctave,
            SpectrumSmoothing::SixthOctave => SpectrumSmoothing::TwelfthOctave,
            SpectrumSmoothing::TwelfthOctave => SpectrumSmoothing::Off,
        }
    }

    /// The smoothing offered after this one.
    pub fn cycled(self) -> (next: SpectrumSmoothing)
        ensures
            next == self.following(),
    {
        match self {
            SpectrumSmoothing::Off => SpectrumSmoothing::SixthOctave,
            SpectrumSmoothing::SixthOctave => SpectrumSmoothing::TwelfthOctave,
            SpectrumSmoothing::TwelfthOctave => SpectrumSmoothing::Off,
        }
    }
}

/// The sample rate offered after another.
pub open spec fn following_rate(rate: u32) -> u32 {
    if rate == 44_100 {
        48_000
    } else if rate == 48_000 {
        88_200
    } else if rate == 88_200 {
        96_000
    } else {
        44_100
    }
}

/// The sample rate that resampling starts with: another than the source's.
pub open spec fn first_resample_rate(sample_rate: u32) -> u32 {
    if sample_rate <= 44_100 {
        48_000
    } else {
        44_100
    }
}

/// What a tool window works on, and how it follows the selection.
pub struct AudioToolSession<T> {
    pub tool_kind: AudioToolKind,
    pub target: AudioToolTarget<T>,
    pub follow_selection: bool,
    pub pin_target: bool,
    pub preview_enabled: bool,
    pub preview_bypassed: bool,
    pub dirty: bool,
    pub analyzing: bool,
}

/// A tempo and how sure it is.
#[derive(Clone, Copy)]
pub struct TempoCandidate<T> {
    pub bpm: T,
    pub confidence: T,
}

/// A transient of the source.
#[derive(Clone, Copy)]
pub struct TransientMarker<T> {
    pub source_frame: u64,
    pub strength: T,
}

/// The offset of a channel pair.
#[derive(Clone, Copy)]
pub struct DcOffset<T> {
    pub left: T,
    pub right: T,
}

/// What a tool window asks of the rest of the program.
pub enum AudioToolCommand<T> {
    Preview { preview: ClipPreviewOverride<T> },
    ClearPreview { clip_id: String },
    /// Set the clip's noise reduction, as an undo step of its own.
    MutateClip { clip_id: String, label: &'static str, denoise_amount: T },
    AddMarkers { beats: Vec<T>, label: &'static str },
    AddWarpMarkers { clip_id: String, frames: Vec<u64> },
    SliceClip { clip_id: String, beats: Vec<T> },
    UseOriginalBpm { clip_id: String, bpm: T },
    AddTempoPoint { beat: T, bpm: T },
    ReplaceSource { clip_id: String, path: String, sample_rate: u32 },
}

/// The state of a tool window.
pub struct AudioToolWindow<T> {
    pub session: AudioToolSession<T>,
    pub status: String,
    pub spectrum_mode: SpectrumMode,
    pub fft_size: FftSize,
    pub spectrum_window: SpectrumWindow,
    pub smoothing: SpectrumSmoothing,
    pub peak_hold: bool,
    pub spectrum_busy: bool,
    pub normalize_mode: NormalizeMode,
    /// Gain that the last measurement asks for.
    pub required_gain_db: Option<T>,
    pub dc: DcOffset<T>,
    pub bpm: Vec<TempoCandidate<T>>,
    pub transients: Vec<TransientMarker<T>>,
    pub time_mode: TimePitchMode,
    pub preserve_transients: bool,
    pub channel: u32,
    pub phase_ms: bool,
    pub resample_target: u32,
    pub repair_module: AudioRepairModule,
    pub learned_noise: Option<Vec<T>>,
    pub dehum: DehumParams<T>,
}

/// The previewed values of a window's controls, in the units of the engine.
#[derive(Clone, Copy)]
pub struct PreviewValues<T> {
    pub zero: T,
    /// Gain for the measured level.
    pub gain: T,
    pub stretch_ratio: T,
    pub pitch_semitones: T,
    pub denoise_amount: T,
}

/// A pass over the source.
#[derive(Clone, Copy, PartialEq, Eq, Structural, Debug)]
pub enum OfflineTool {
    Gain,
    Channel,
    RemoveDc,
    Stretch,
    DeHum,
    Denoise,
    DeClick,
    SpectralGain,
    Resample,
}

/// A render to be started.
pub struct RenderJob {
    pub tool: OfflineTool,
    pub tool_kind: AudioToolKind,
    pub clip_id: String,
    pub source_path: Option<String>,
    pub selection: Option<AudioRangeSelection>,
    /// The source frames that the clip plays.
    pub source_window: (u64, u64),
    pub target_rate: u32,
}

/// What applying a tool leads to.
pub enum ApplyStep<T> {
    /// Nothing; the status says why.
    Refused,
    Render { job: RenderJob },
    Dispatch { commands: Vec<AudioToolCommand<T>> },
}

/// What an analysis pass computes.
#[derive(Clone, Copy, PartialEq, Eq, Structural, Debug)]
pub enum AnalysisWork {
    Spectrum { peak: bool },
    Loudness,
    DcOffset,
    Tempo,
    Key,
    Transients,
    Phase,
    SpectralRegion,
    Nothing,
}

/// An analysis to be started.
pub struct AnalysisJob {
    pub work: AnalysisWork,
    pub source_path: Option<String>,
    pub selection: Option<AudioRangeSelection>,
}

/// What an analysis found, as far as the window keeps it.
pub enum AnalysisResult<T> {
    /// Levels, with the gain that they ask for.
    Loudness { required_gain_db: T },
    DcOffset { dc: DcOffset<T> },
    Tempo { bpm: Vec<TempoCandidate<T>> },
    Transients { transients: Vec<TransientMarker<T>> },
    /// The region that the spectral tool works on, as a text.
    SpectralRegion { text: String },
    /// Something that only the plots show.
    Plotted,
}

/// What a realtime tick reads.
#[derive(Clone, Copy, PartialEq, Eq, Structural, Debug)]
pub enum RealtimeTick {
    /// The last samples, for a spectrum at a sample rate.
    Spectrum { samples: usize, sample_rate: u32 },
    /// The last samples, for the phase.
    Phase { samples: usize },
    Nothing,
}

// ----------------------------------------------------------------- session

/// A session that follows the selection where it did not, and the reverse.
pub open spec fn follow_toggled<T>(session: AudioToolSession<T>) -> AudioToolSession<T> {
    AudioToolSession {
        follow_selection: !session.follow_selection,
        pin_target: session.follow_selection,
        ..session
    }
}

/// A session that pins its target where it did not, and the reverse.
pub open spec fn pin_toggled<T>(session: AudioToolSession<T>) -> AudioToolSession<T> {
    AudioToolSession {
        pin_target: !session.pin_target,
        follow_selection: session.pin_target,
        ..session
    }
}

impl<T: Copy> AudioToolSession<T> {
    /// Follow the selection, or stop following it.
    pub fn toggle_follow(&mut self)
        ensures
            *final(self) == follow_toggled(*old(self)),
    {
        self.follow_selection = !self.follow_selection;
        self.pin_target = !self.follow_selection;
    }

    /// Pin the target, or let it go.
    pub fn toggle_pin(&mut self)
        ensures
            *final(self) == pin_toggled(*old(self)),
    {
        self.pin_target = !self.pin_target;
        self.follow_selection = !self.pin_target;
    }

    /// Take a new target over, when the window follows the selection; says
    /// whether it did.
    pub fn follow(&mut self, target: &AudioToolTarget<T>) -> (followed: bool)
        ensures
            followed == (old(self).follow_selection && !old(self).pin_target),
            *final(self) == if followed {
                AudioToolSession { target: *target, ..*old(self) }
            } else {
                *old(self)
            },
    {
        if self.follow_selection && !self.pin_target {
            self.target = target.copy_target();
            true
        } else {
            false
        }
    }
}

/// The open tool windows, one per tool.
pub struct AudioToolWindowManager<T> {
    pub windows: Vec<AudioToolSession<T>>,
    pub previews: Vec<ClipPreviewOverride<T>>,
}

/// Whether no tool has two windows.
pub open spec fn one_window_per_tool<T>(windows: Seq<AudioToolSession<T>>) -> bool {
    forall|i: int, j: int|
        0 <= i < j < windows.len() ==> (#[trigger] windows[i]).tool_kind != (
        #[trigger] windows[j]).tool_kind
}

/// The windows that are still open.
pub open spec fn still_open<T>(windows: Seq<AudioToolSession<T>>, open: Seq<bool>) -> Seq<
    AudioToolSession<T>,
>
    decreases windows.len(),
{
    if windows.len() == 0 {
        Seq::empty()
    } else {
        let before = still_open(windows.drop_last(), open.drop_last());
        if open.last() {
            before.push(windows.last())
        } else {
            before
        }
    }
}

/// Of each window, whether it belongs to another tool.
pub open spec fn of_other_tools<T>(windows: Seq<AudioToolSession<T>>, kind: AudioToolKind) -> Seq<
    bool,
> {
    Seq::new(windows.len(), |i: int| windows[i].tool_kind != kind)
}

impl<T: Copy> AudioToolWindowManager<T> {
    /// No windows, no previews.
    pub fn new() -> (manager: AudioToolWindowManager<T>)
        ensures
            manager.windows@.len() == 0,
            manager.previews@.len() == 0,
            one_window_per_tool(manager.windows@),
    {
        AudioToolWindowManager { windows: Vec::new(), previews: Vec::new() }
    }

    /// Drops the windows that were closed; `open` says of each whether it is
    /// still there.
    pub fn prune(&mut self, open: &Vec<bool>)
        requires
            open@.len() == old(self).windows@.len(),
            one_window_per_tool(old(self).windows@),
        ensures
            final(self).windows@ == still_open(old(self).windows@, open@),
            one_window_per_tool(final(self).windows@),
            final(self).previews == old(self).previews,
    {
        let ghost before = self.windows@;
        let mut i: usize = self.windows.len();
        proof {
            assert(before.take(i as int) =~= before);
            assert(open@.take(i as int) =~= open@);
            lemma_still_open_distinct(before, open@);
        }
        while i > 0
            invariant
                i <= before.len(),
                open@.len() == before.len(),
                i <= self.windows@.len(),
                self.windows@.take(i as int) == before.take(i as int),
                self.previews == old(self).previews,
                still_open(before, open@) == still_open(
                    before.take(i as int),
                    open@.take(i as int),
                ) + self.windows@.skip(i as int),
            decreases i,
        {
            i -= 1;
            proof {
                assert(before.take(i as int + 1).drop_last() =~= before.take(i as int));
                assert(open@.take(i as int + 1).drop_last() =~= open@.take(i as int));
                assert(before.take(i as int + 1).last() == before[i as int]);
                assert(self.windows@.take(i as int + 1)[i as int] == before[i as int]);
            }
            let ghost now = self.windows@;
            let ghost kept = still_open(before.take(i as int), open@.take(i as int));
            if !open[i] {
                let _closed = self.windows.remove(i);
                proof {
                    assert(self.windows@.skip(i as int) =~= now.skip(i as int + 1));
                    assert(self.windows@.take(i as int) =~= now.take(i as int + 1).take(i as int));
                    assert(before.take(i as int) =~= before.take(i as int + 1).take(i as int));
                }
            } else {
                proof {
                    assert(kept.push(now[i as int]) + now.skip(i as int + 1) =~= kept + now.skip(
                        i as int,
                    ));
                    assert(now.take(i as int) =~= now.take(i as int + 1).take(i as int));
                    assert(before.take(i as int) =~= before.take(i as int + 1).take(i as int));
                }
            }
        }
        proof {
            assert(self.windows@.skip(0) =~= self.windows@);
            assert(still_open(before.take(0), open@.take(0)) =~= Seq::empty());
            assert(self.windows@ =~= still_open(before, open@));
        }
    }

    /// Takes a window in; one of the same tool gives way to it.
    pub fn keep(&mut self, session: AudioToolSession<T>)
        requires
            one_window_per_tool(old(self).windows@),
        ensures
            final(self).windows@ == still_open(
                old(self).windows@,
                of_other_tools(old(self).windows@, session.tool_kind),
            ).push(session),
            one_window_per_tool(final(self).windows@),
            final(self).previews == old(self).previews,
    {
        let ghost before = self.windows@;
        let ghost others = of_other_tools(before, session.tool_kind);
        let mut open: Vec<bool> = Vec::new();
        let mut i: usize = 0;
        while i < self.windows.len()
            invariant
                i <= self.windows@.len(),
                self.windows@ == before,
                self.previews == old(self).previews,
                others == of_other_tools(before, session.tool_kind),
                open@ == others.take(i as int),
            decreases self.windows@.len() - i,
        {
            open.push(self.windows[i].tool_kind != session.tool_kind);
            proof {
                assert(open@ =~= others.take(i as int + 1));
            }
            i += 1;
        }
        proof {
            assert(open@ =~= others);
            lemma_still_open_distinct(before, others);
        }
        self.prune(&open);
        self.windows.push(session);
        proof {
            let kept = still_open(before, others);
            assert forall|k: int| 0 <= k < kept.len() implies (#[trigger] kept[k]).tool_kind
                != session.tool_kind by {
                assert(survives(before, others, kept[k]));
            }
        }
    }

    /// Hands a new target to every window that follows the selection; says
    /// which took it.
    pub fn follow_selection(&mut self, target: &AudioToolTarget<T>) -> (followed: Vec<bool>)
        ensures
            final(self).windows@.len() == old(self).windows@.len(),
            followed@.len() == old(self).windows@.len(),
            final(self).previews == old(self).previews,
            forall|i: int|
                0 <= i < old(self).windows@.len() ==> {
                    let window = #[trigger] old(self).windows@[i];
                    &&& followed@[i] == (window.follow_selection && !window.pin_target)
                    &&& final(self).windows@[i] == if followed@[i] {
                        AudioToolSession { target: *target, ..window }
                    } else {
                        window
                    }
                },
            one_window_per_tool(old(self).windows@) ==> one_window_per_tool(final(self).windows@),
    {
        let mut followed: Vec<bool> = Vec::new();
        let ghost before = self.windows@;
        let mut i: usize = 0;
        while i < self.windows.len()
            invariant
                i <= self.windows@.len(),
                before == old(self).windows@,
                self.windows@.len() == before.len(),
                self.previews == old(self).previews,
                followed@.len() == i,
                forall|j: int|
                    0 <= j < i ==> {
                        let window = #[trigger] before[j];
                        &&& followed@[j] == (window.follow_selection && !window.pin_target)
                        &&& self.windows@[j] == if followed@[j] {
                            AudioToolSession { target: *target, ..window }
                        } else {
                            window
                        }
                    },
                forall|j: int| i <= j < before.len() ==> self.windows@[j] == #[trigger] before[j],
            decreases self.windows@.len() - i,
        {
            let took = self.windows[i].follow(target);
            followed.push(took);
            i += 1;
        }
        proof {
            if one_window_per_tool(before) {
                assert forall|a: int, b: int| 0 <= a < b < self.windows@.len() implies (
                #[trigger] self.windows@[a]).tool_kind != (
                #[trigger] self.windows@[b]).tool_kind by {
                    assert(before[a].tool_kind != before[b].tool_kind);
                }
            }
        }
        followed
    }

    /// Forgets every window and every preview.
    pub fn close_all(&mut self)
        ensures
            final(self).windows@.len() == 0,
            final(self).previews@.len() == 0,
    {
        self.windows.clear();
        self.previews.clear();
    }
}

/// Whether a window is one of those that are still open.
spec fn survives<T>(
    windows: Seq<AudioToolSession<T>>,
    open: Seq<bool>,
    window: AudioToolSession<T>,
) -> bool {
    exists|i: int| 0 <= i < windows.len() && open[i] && #[trigger] windows[i] == window
}

proof fn lemma_still_open_distinct<T>(windows: Seq<AudioToolSession<T>>, open: Seq<bool>)
    requires
        windows.len() == open.len(),
        one_window_per_tool(windows),
    ensures
        one_window_per_tool(still_open(windows, open)),
        forall|k: int|
            0 <= k < still_open(windows, open).len() ==> survives(
                windows,
                open,
                #[trigger] still_open(windows, open)[k],
            ),
    decreases windows.len(),
{
    if windows.len() > 0 {
        let front = windows.drop_last();
        assert forall|i: int, j: int| 0 <= i < j < front.len() implies (
        #[trigger] front[i]).tool_kind != (#[trigger] front[j]).tool_kind by {
            assert(windows[i].tool_kind != windows[j].tool_kind);
        }
        lemma_still_open_distinct(front, open.drop_last());
        let before = still_open(front, open.drop_last());
        let now = still_open(windows, open);
        assert forall|k: int| 0 <= k < now.len() implies survives(
            windows,
            open,
            #[trigger] now[k],
        ) by {
            if k < before.len() {
                assert(survives(front, open.drop_last(), before[k]));
                let i = choose|i: int|
                    0 <= i < front.len() && open.drop_last()[i] && #[trigger] front[i] == before[k];
                assert(windows[i] == now[k]);
            } else {
                assert(windows[windows.len() - 1] == now[k]);
            }
        }
        assert forall|a: int, b: int| 0 <= a < b < now.len() implies (
        #[trigger] now[a]).tool_kind != (#[trigger] now[b]).tool_kind by {
            if b < before.len() {
                assert(before[a].tool_kind != before[b].tool_kind);
            } else {
                assert(survives(front, open.drop_last(), before[a]));
                let i = choose|i: int|
                    0 <= i < front.len() && open.drop_last()[i] && #[trigger] front[i] == before[a];
                assert(windows[i].tool_kind != windows[windows.len() - 1].tool_kind);
            }
        }
    }
}

/// Where no tool has two windows, those of one tool are one.
pub proof fn law_a_tool_has_one_window<T>(windows: Seq<AudioToolSession<T>>, i: int, j: int)
    requires
        one_window_per_tool(windows),
        0 <= i < windows.len(),
        0 <= j < windows.len(),
        windows[i].tool_kind == windows[j].tool_kind,
    ensures
        i == j,
{
}

} // verus!
