//! The Audio Repair workspace: the module in use, the drawn region, and the
//! preview passes that show what the module would do.

use vstd::prelude::*;

use crate::canvas::{
    CanvasDiff, CanvasEvent, CanvasMask, CanvasRegion, CanvasView, EventTone, WaveformPeaks,
};
use crate::editor::FrequencyScale;
use crate::host::SpectrogramJob;
use crate::mask::FrameList;
use crate::navigator::AudioRepairModule;
use crate::render::local_frame;
use crate::target::{AudioRangeSelection, SpectralSelection};
use crate::text::decimal_text;
use crate::tools::TransientMarker;

verus! {

/// Upper bound on the frames of one preview pass. The worker follows the view,
/// so this caps latency rather than cutting the clip.
pub const PREVIEW_MAX_FRAMES: usize = 1_920_000;

/// A region being drawn.
#[derive(Clone, Copy)]
pub struct RegionDrag<T> {
    pub start_frame: i64,
    pub start_hz: T,
    pub current_frame: i64,
    pub current_hz: T,
}

/// A click found in the source.
#[derive(Clone, Copy)]
pub struct ClickEvent<T> {
    pub frame: usize,
    pub width: usize,
    pub strength: T,
}

/// Levels of a range of samples.
#[derive(Clone, Copy)]
pub struct RangeLevels<T> {
    pub peak_db: T,
    pub rms_db: T,
}

/// Measured figures for the previewed range.
#[derive(Clone, Copy)]
pub struct RepairStats<T> {
    pub before: RangeLevels<T>,
    pub after: RangeLevels<T>,
    /// Share of the analysed cells that the noise gate closes.
    pub coverage: Option<T>,
    pub events: usize,
}

/// The result of one preview pass.
pub struct PreviewResult<T> {
    pub start_frame: u64,
    pub end_frame: u64,
    pub diff: Option<CanvasDiff<T>>,
    pub mask: Option<CanvasMask>,
    pub clicks: Vec<ClickEvent<T>>,
    pub stats: RepairStats<T>,
}

/// What a processor made of the previewed range.
pub struct Processed<T> {
    pub levels: RangeLevels<T>,
    /// Envelopes of the range before and after.
    pub before: Vec<T>,
    pub after: Vec<T>,
}

/// What a noise gate closes in the previewed range.
pub struct GateMeasure<T> {
    /// Share of the analysed cells that it closes.
    pub coverage: T,
    /// The cells, drawn.
    pub image: Option<FrameList>,
}

/// What a preview pass found, by what it ran.
pub enum PreviewOutcome<T> {
    Denoised { processed: Processed<T>, gate: Option<GateMeasure<T>> },
    Declicked { processed: Processed<T>, clicks: Vec<ClickEvent<T>> },
    Dehummed { processed: Processed<T> },
    Shaped { processed: Processed<T> },
    Nothing,
}

/// A preview pass to be started over frames of the window.
#[derive(Clone, Copy, PartialEq, Eq, Structural, Debug)]
pub struct PreviewJob {
    pub generation: u64,
    pub start: usize,
    pub end: usize,
}

/// What a preview pass runs.
#[derive(Clone, Copy, PartialEq, Eq, Structural, Debug)]
pub enum PreviewWork {
    Denoise,
    DeClick,
    DeHum,
    /// Gain on frames counted from the start of the range.
    SpectralGain { start_frame: i64, end_frame: i64 },
    Nothing,
}

/// The state of the repair workspace. `S` is a tile of the spectrogram.
pub struct RepairSurface<T, S> {
    pub module: AudioRepairModule,
    pub view: CanvasView,
    pub frequency_scale: FrequencyScale,
    pub fitted: bool,
    pub show_transients: bool,
    pub show_spectrum: bool,
    /// The drawn region, in absolute source frames.
    pub region: Option<CanvasRegion<T>>,
    pub drag: Option<RegionDrag<T>>,
    pub peaks: Option<WaveformPeaks>,
    pub tiles: Vec<S>,
    pub spectrogram_status: Option<String>,
    pub spectrogram_generation: u64,
    pub mask: Option<CanvasMask>,
    pub clicks: Vec<ClickEvent<T>>,
    pub selected_click: usize,
    pub diff: Option<CanvasDiff<T>>,
    pub stats: Option<RepairStats<T>>,
    pub profile_frames: u64,
    pub preview_generation: u64,
    pub preview_busy: bool,
    pub preview_dirty: bool,
}

// ------------------------------------------------------------------- model

/// A comparison marked as out of date.
pub open spec fn aged<T>(diff: Option<CanvasDiff<T>>) -> Option<CanvasDiff<T>> {
    match diff {
        Some(diff) => Some(CanvasDiff { stale: true, ..diff }),
        None => None,
    }
}

impl<T, S> RepairSurface<T, S> {
    /// The surface and the pass after the worker is asked for one over a range,
    /// if there is a range.
    pub open spec fn spawned(self, range: Option<(usize, usize)>) -> (Self, Option<PreviewJob>) {
        match range {
            Some((start, end)) => {
                let generation = crate::host::next_generation(self.preview_generation);
                (
                    RepairSurface {
                        preview_busy: true,
                        preview_dirty: false,
                        preview_generation: generation,
                        ..self
                    },
                    Some(PreviewJob { generation, start, end }),
                )
            },
            None => (self, None),
        }
    }

    /// The surface and the pass after something changed: what is shown is out
    /// of date, and a pass starts when the worker is free.
    pub open spec fn invalidated(self, range: Option<(usize, usize)>) -> (Self, Option<PreviewJob>) {
        let aged_surface = RepairSurface { diff: aged(self.diff), ..self };
        if self.preview_busy {
            (RepairSurface { preview_dirty: true, ..aged_surface }, None)
        } else {
            aged_surface.spawned(range)
        }
    }

    /// The surface and the next pass after a pass has ended.
    pub open spec fn landed(
        self,
        generation: u64,
        result: PreviewResult<T>,
        range: Option<(usize, usize)>,
    ) -> (Self, Option<PreviewJob>) {
        let freed = RepairSurface { preview_busy: false, ..self };
        let shown = if generation == self.preview_generation {
            RepairSurface {
                diff: result.diff,
                mask: result.mask,
                clicks: result.clicks,
                selected_click: kept_click(self.selected_click, result.clicks@.len()),
                stats: Some(result.stats),
                ..freed
            }
        } else {
            freed
        };
        if self.preview_dirty {
            shown.spawned(range)
        } else {
            (shown, None)
        }
    }

    /// Whether a change is only waiting while a pass is running.
    pub open spec fn disciplined(self) -> bool {
        self.preview_dirty ==> self.preview_busy
    }
}

/// The selected click among as many as there are.
pub open spec fn kept_click(selected: usize, count: nat) -> usize {
    if count == 0 {
        0
    } else if selected < count {
        selected
    } else {
        (count - 1) as usize
    }
}

/// The region between two frames, whichever way it was drawn.
pub open spec fn region_between<T>(a: i64, b: i64, band: (T, T)) -> CanvasRegion<T> {
    CanvasRegion {
        start_frame: if a < b {
            a
        } else {
            b
        },
        end_frame: if a < b {
            b
        } else {
            a
        },
        min_hz: band.0,
        max_hz: band.1,
    }
}

/// The frames that a preview pass covers: those in view, as far as they exist
/// and are not too many.
pub open spec fn preview_frames(total: nat, visible_start: nat, visible_end: nat) -> Option<
    (nat, nat),
> {
    if visible_start >= total {
        None
    } else {
        let wanted = if visible_end > visible_start + 1 {
            visible_end
        } else {
            visible_start + 1
        };
        let end = if wanted < total {
            wanted
        } else {
            total
        };
        Some(
            (
                visible_start,
                if end < visible_start + PREVIEW_MAX_FRAMES {
                    end
                } else {
                    visible_start + PREVIEW_MAX_FRAMES as nat
                },
            ),
        )
    }
}

// ------------------------------------------------------------------ window

/// First source frame of the edited window.
pub open spec fn window_origin(selection: Option<AudioRangeSelection>) -> u64 {
    match selection {
        Some(selection) => if selection.start_frame > 0 {
            selection.start_frame as u64
        } else {
            0
        },
        None => 0,
    }
}

/// First source frame of the edited window.
pub fn repair_window_start(selection: Option<AudioRangeSelection>) -> (start: u64)
    ensures
        start == window_origin(selection),
{
    match selection {
        Some(selection) => if selection.start_frame > 0 {
            selection.start_frame as u64
        } else {
            0
        },
        None => 0,
    }
}

/// Frames of the edited window: those decoded, or those selected, or those of
/// the source; never none.
pub fn repair_window_frames(
    peaks: &Option<WaveformPeaks>,
    selection: Option<AudioRangeSelection>,
    source_frames: i64,
) -> (frames: u64)
    ensures
        ({
            let known: int = match *peaks {
                Some(peaks) => peaks.frames as int,
                None => match selection {
                    Some(selection) => selection.end_frame - selection.start_frame,
                    None => source_frames as int,
                },
            };
            frames == if known > 1 {
                known
            } else {
                1
            }
        }),
{
    let known: i128 = match peaks {
        Some(peaks) => peaks.frames() as i128,
        None => match selection {
            Some(selection) => selection.end_frame as i128 - selection.start_frame as i128,
            None => source_frames as i128,
        },
    };
    if known > 1 {
        known as u64
    } else {
        1
    }
}

/// The frames that a preview pass covers, if any.
pub fn preview_range(total_frames: usize, visible_start: u64, visible_end: u64) -> (range: Option<
    (usize, usize),
>)
    ensures
        match range {
            Some((start, end)) => preview_frames(
                total_frames as nat,
                visible_start as nat,
                visible_end as nat,
            ) == Some((start as nat, end as nat)),
            None => preview_frames(
                total_frames as nat,
                visible_start as nat,
                visible_end as nat,
            ) is None,
        },
{
    if visible_start >= total_frames as u64 {
        return None;
    }
    let start: usize = visible_start as usize;
    let wanted: u64 = if visible_end > visible_start + 1 { visible_end } else { visible_start + 1 };
    let end: usize = if wanted < total_frames as u64 { wanted as usize } else { total_frames };
    if end - start < PREVIEW_MAX_FRAMES {
        Some((start, end))
    } else {
        Some((start, start + PREVIEW_MAX_FRAMES))
    }
}

// ----------------------------------------------------------------- preview

/// What a preview pass runs over the frames from `start` of a window: nothing
/// for a module that lacks what it needs, or has no processor.
pub open spec fn work_of<T>(
    module: AudioRepairModule,
    has_profile: bool,
    region: Option<CanvasRegion<T>>,
    window_start: u64,
    start: usize,
) -> PreviewWork {
    match module {
        AudioRepairModule::Denoise => if has_profile {
            PreviewWork::Denoise
        } else {
            PreviewWork::Nothing
        },
        AudioRepairModule::DeClick => PreviewWork::DeClick,
        AudioRepairModule::DeHum => PreviewWork::DeHum,
        AudioRepairModule::SpectralRepair => match region {
            Some(region) => PreviewWork::SpectralGain {
                start_frame: crate::render::frames_after(
                    region.start_frame,
                    (window_start + start) as u64,
                ) as i64,
                end_frame: crate::render::frames_after(
                    region.end_frame,
                    (window_start + start) as u64,
                ) as i64,
            },
            None => PreviewWork::Nothing,
        },
        _ => PreviewWork::Nothing,
    }
}

/// What a preview pass runs over the frames from `start` of a window: nothing
/// for a module that lacks what it needs, or has no processor.
pub fn preview_work<T: Copy>(
    module: AudioRepairModule,
    has_profile: bool,
    region: Option<CanvasRegion<T>>,
    window_start: u64,
    start: usize,
) -> (work: PreviewWork)
    requires
        window_start + start <= u64::MAX,
    ensures
        work == work_of(module, has_profile, region, window_start, start),
{
    match module {
        AudioRepairModule::Denoise => if has_profile {
            PreviewWork::Denoise
        } else {
            PreviewWork::Nothing
        },
        AudioRepairModule::DeClick => PreviewWork::DeClick,
        AudioRepairModule::DeHum => PreviewWork::DeHum,
        AudioRepairModule::SpectralRepair => match region {
            Some(region) => {
                let origin: u64 = window_start + start as u64;
                PreviewWork::SpectralGain {
                    start_frame: local_frame(region.start_frame, origin) as i64,
                    end_frame: local_frame(region.end_frame, origin) as i64,
                }
            },
            None => PreviewWork::Nothing,
        },
        _ => PreviewWork::Nothing,
    }
}

impl<T> PreviewOutcome<T> {
    /// Whether this is what some work leads to.
    pub open spec fn comes_of(self, work: PreviewWork) -> bool {
        match work {
            PreviewWork::Denoise => self is Denoised,
            PreviewWork::DeClick => self is Declicked,
            PreviewWork::DeHum => self is Dehummed,
            PreviewWork::SpectralGain { .. } => self is Shaped,
            PreviewWork::Nothing => self is Nothing,
        }
    }

    /// What the processor made of the range, if one ran.
    pub open spec fn processed(self) -> Option<Processed<T>> {
        match self {
            PreviewOutcome::Denoised { processed, .. } => Some(processed),
            PreviewOutcome::Declicked { processed, .. } => Some(processed),
            PreviewOutcome::Dehummed { processed } => Some(processed),
            PreviewOutcome::Shaped { processed } => Some(processed),
            PreviewOutcome::Nothing => None,
        }
    }

    /// What the noise gate closes, if there is one.
    pub open spec fn gate(self) -> Option<GateMeasure<T>> {
        match self {
            PreviewOutcome::Denoised { gate, .. } => gate,
            _ => None,
        }
    }

    /// The clicks that were looked for and found.
    pub open spec fn clicks(self) -> Seq<ClickEvent<T>> {
        match self {
            PreviewOutcome::Declicked { clicks, .. } => clicks@,
            _ => Seq::empty(),
        }
    }
}

/// Whether a result reports what a pass over some frames found.
pub open spec fn reports<T>(
    result: PreviewResult<T>,
    start: usize,
    end: usize,
    before: RangeLevels<T>,
    outcome: PreviewOutcome<T>,
) -> bool {
    &&& result.start_frame == start
    &&& result.end_frame == end
    &&& result.diff == match outcome.processed() {
        Some(processed) => Some(
            CanvasDiff {
                before: processed.before,
                after: processed.after,
                start_frame: start as u64,
                end_frame: end as u64,
                stale: false,
            },
        ),
        None => None,
    }
    &&& result.mask == match outcome.gate() {
        Some(gate) => match gate.image {
            Some(image) => Some(
                CanvasMask { image, start_frame: start as u64, end_frame: end as u64 },
            ),
            None => None,
        },
        None => None,
    }
    &&& result.clicks@ == outcome.clicks()
    &&& result.stats.before == before
    &&& result.stats.after == match outcome.processed() {
        Some(processed) => processed.levels,
        None => before,
    }
    &&& result.stats.coverage == match outcome.gate() {
        Some(gate) => Some(gate.coverage),
        None => None,
    }
    &&& result.stats.events == outcome.clicks().len()
}

/// Puts the result of a preview pass together. Where nothing was processed
/// there is nothing to compare, and the levels have not changed.
pub fn compute_preview<T: Copy>(
    work: PreviewWork,
    start: usize,
    end: usize,
    before: RangeLevels<T>,
    outcome: PreviewOutcome<T>,
) -> (result: PreviewResult<T>)
    requires
        outcome.comes_of(work),
    ensures
        reports(result, start, end, before, outcome),
        result.diff is Some <==> work !is Nothing,
        result.mask is Some ==> work is Denoise,
        result.stats.coverage is Some ==> work is Denoise,
        result.clicks@.len() > 0 ==> work is DeClick,
{
    let mut mask: Option<CanvasMask> = None;
    let mut coverage: Option<T> = None;
    let mut clicks: Vec<ClickEvent<T>> = Vec::new();
    let processed: Option<Processed<T>> = match outcome {
        PreviewOutcome::Denoised { processed, gate } => {
            if let Some(gate) = gate {
                coverage = Some(gate.coverage);
                if let Some(image) = gate.image {
                    mask = Some(
                        CanvasMask { image, start_frame: start as u64, end_frame: end as u64 },
                    );
                }
            }
            Some(processed)
        },
        PreviewOutcome::Declicked { processed, clicks: found } => {
            clicks = found;
            Some(processed)
        },
        PreviewOutcome::Dehummed { processed } => Some(processed),
        PreviewOutcome::Shaped { processed } => Some(processed),
        PreviewOutcome::Nothing => None,
    };
    let events: usize = clicks.len();
    let (diff, after) = match processed {
        Some(processed) => (
            Some(
                CanvasDiff {
                    before: processed.before,
                    after: processed.after,
                    start_frame: start as u64,
                    end_frame: end as u64,
                    stale: false,
                },
            ),
            processed.levels,
        ),
        None => (None, before),
    };
    PreviewResult {
        start_frame: start as u64,
        end_frame: end as u64,
        diff,
        mask,
        clicks,
        stats: RepairStats { before, after, coverage, events },
    }
}

// ----------------------------------------------------------------- surface

/// What to do once the source has been decoded.
#[derive(Clone, Copy, PartialEq, Eq, Structural, Debug)]
pub struct SourceReady {
    /// Fit the view to the window.
    pub fit: bool,
    pub detect_transients: bool,
}

impl<T: Copy, S> RepairSurface<T, S> {
    /// A surface that shows nothing yet.
    pub fn new() -> (surface: RepairSurface<T, S>)
        ensures
            surface.module == AudioRepairModule::Denoise,
            surface.view == CanvasView::Overlay,
            surface.frequency_scale == FrequencyScale::Logarithmic,
            !surface.fitted,
            !surface.show_transients,
            !surface.show_spectrum,
            surface.region is None,
            surface.drag is None,
            surface.peaks is None,
            surface.tiles@.len() == 0,
            surface.spectrogram_status is None,
            surface.spectrogram_generation == 0,
            surface.mask is None,
            surface.clicks@.len() == 0,
            surface.selected_click == 0,
            surface.diff is None,
            surface.stats is None,
            surface.profile_frames == 0,
            surface.preview_generation == 0,
            !surface.preview_busy,
            !surface.preview_dirty,
            surface.disciplined(),
    {
        RepairSurface {
            module: AudioRepairModule::Denoise,
            view: CanvasView::Overlay,
            frequency_scale: FrequencyScale::Logarithmic,
            fitted: false,
            show_transients: false,
            show_spectrum: false,
            region: None,
            drag: None,
            peaks: None,
            tiles: Vec::new(),
            spectrogram_status: None,
            spectrogram_generation: 0,
            mask: None,
            clicks: Vec::new(),
            selected_click: 0,
            diff: None,
            stats: None,
            profile_frames: 0,
            preview_generation: 0,
            preview_busy: false,
            preview_dirty: false,
        }
    }

    fn spawn_repair_preview(&mut self, range: Option<(usize, usize)>) -> (job: Option<PreviewJob>)
        ensures
            (*final(self), job) == old(self).spawned(range),
    {
        match range {
            Some((start, end)) => {
                self.preview_busy = true;
                self.preview_dirty = false;
                self.preview_generation = self.preview_generation.wrapping_add(1);
                Some(PreviewJob { generation: self.preview_generation, start, end })
            },
            None => None,
        }
    }

    fn age_diff(&mut self)
        ensures
            *final(self) == (RepairSurface { diff: aged(old(self).diff), ..*old(self) }),
    {
        let diff = self.diff.take();
        self.diff = match diff {
            Some(diff) => Some(
                CanvasDiff {
                    before: diff.before,
                    after: diff.after,
                    start_frame: diff.start_frame,
                    end_frame: diff.end_frame,
                    stale: true,
                },
            ),
            None => None,
        };
    }

    /// Marks what is shown as out of date, and starts a pass when the worker is
    /// free. `range` is what a pass would cover, if there is a source.
    pub fn invalidate_repair_preview(&mut self, range: Option<(usize, usize)>) -> (job: Option<
        PreviewJob,
    >)
        ensures
            (*final(self), job) == old(self).invalidated(range),
    {
        self.age_diff();
        if self.preview_busy {
            self.preview_dirty = true;
            return None;
        }
        self.spawn_repair_preview(range)
    }

    fn show_result(&mut self, result: PreviewResult<T>)
        ensures
            *final(self) == (RepairSurface {
                diff: result.diff,
                mask: result.mask,
                clicks: result.clicks,
                selected_click: kept_click(old(self).selected_click, result.clicks@.len()),
                stats: Some(result.stats),
                ..*old(self)
            }),
    {
        let count: usize = result.clicks.len();
        self.selected_click = if count == 0 {
            0
        } else if self.selected_click < count {
            self.selected_click
        } else {
            count - 1
        };
        self.diff = result.diff;
        self.mask = result.mask;
        self.clicks = result.clicks;
        self.stats = Some(result.stats);
    }

    /// Takes the result of a pass, unless it is stale, and starts the next one
    /// when something changed meanwhile.
    pub fn finish_repair_preview(
        &mut self,
        generation: u64,
        result: PreviewResult<T>,
        range: Option<(usize, usize)>,
    ) -> (job: Option<PreviewJob>)
        ensures
            (*final(self), job) == old(self).landed(generation, result, range),
    {
        self.preview_busy = false;
        if self.preview_generation == generation {
            self.show_result(result);
        }
        if self.preview_dirty {
            self.spawn_repair_preview(range)
        } else {
            None
        }
    }

    fn drop_products(&mut self)
        ensures
            final(self).clicks@.len() == 0,
            *final(self) == (RepairSurface {
                mask: None,
                clicks: final(self).clicks,
                stats: None,
                diff: None,
                ..*old(self)
            }),
    {
        self.mask = None;
        self.clicks = Vec::new();
        self.stats = None;
        self.diff = None;
    }

    /// Switches modules; says whether there was anything to switch. What the
    /// old module found is dropped: it says nothing true about the new one.
    pub fn activate_repair_module(&mut self, module: AudioRepairModule) -> (switched: bool)
        ensures
            switched == (old(self).module != module),
            !switched ==> *final(self) == *old(self),
            switched ==> {
                &&& final(self).clicks@.len() == 0
                &&& *final(self) == (RepairSurface {
                    module,
                    mask: None,
                    clicks: final(self).clicks,
                    stats: None,
                    diff: None,
                    ..*old(self)
                })
            },
    {
        if self.module == module {
            return false;
        }
        self.module = module;
        self.drop_products();
        true
    }

    /// Starts to draw a region, when the press lands on the canvas.
    pub fn repair_pointer_down(&mut self, inside: bool, frame: i64, hz: T) -> (begun: bool)
        ensures
            begun == inside,
            *final(self) == if inside {
                RepairSurface {
                    drag: Some(
                        RegionDrag {
                            start_frame: frame,
                            start_hz: hz,
                            current_frame: frame,
                            current_hz: hz,
                        },
                    ),
                    ..*old(self)
                }
            } else {
                *old(self)
            },
    {
        if !inside {
            return false;
        }
        self.drag = Some(
            RegionDrag { start_frame: frame, start_hz: hz, current_frame: frame, current_hz: hz },
        );
        true
    }

    /// Draws the region on; `band` is what it covers of the frequencies.
    pub fn repair_pointer_move(&mut self, dragging: bool, frame: i64, hz: T, band: (T, T)) -> (moved:
        bool)
        ensures
            moved == (dragging && old(self).drag is Some),
            *final(self) == if moved {
                RepairSurface {
                    drag: Some(
                        RegionDrag {
                            current_frame: frame,
                            current_hz: hz,
                            ..old(self).drag->0
                        },
                    ),
                    region: Some(region_between(old(self).drag->0.start_frame, frame, band)),
                    ..*old(self)
                }
            } else {
                *old(self)
            },
    {
        if !dragging {
            return false;
        }
        match self.drag {
            Some(drag) => {
                self.drag = Some(
                    RegionDrag {
                        start_frame: drag.start_frame,
                        start_hz: drag.start_hz,
                        current_frame: frame,
                        current_hz: hz,
                    },
                );
                self.region = Some(region_from_drag(drag.start_frame, frame, band));
                true
            },
            None => false,
        }
    }

    /// Ends the region. A click without movement clears it instead of leaving
    /// one that covers nothing.
    pub fn repair_pointer_up(&mut self, frame: i64, band: (T, T)) -> (ended: bool)
        ensures
            ended == old(self).drag is Some,
            *final(self) == if ended {
                RepairSurface {
                    drag: None,
                    region: if old(self).drag->0.start_frame == frame {
                        None
                    } else {
                        Some(region_between(old(self).drag->0.start_frame, frame, band))
                    },
                    ..*old(self)
                }
            } else {
                *old(self)
            },
    {
        match self.drag.take() {
            Some(drag) => {
                let region = region_from_drag(drag.start_frame, frame, band);
                self.region = if region.end_frame > region.start_frame {
                    Some(region)
                } else {
                    None
                };
                true
            },
            None => false,
        }
    }

    /// Forgets the region.
    pub fn clear_region(&mut self)
        ensures
            *final(self) == (RepairSurface { region: None, ..*old(self) }),
    {
        self.region = None;
    }

    /// Forgets the noise profile and what it gated.
    pub fn clear_profile(&mut self)
        ensures
            *final(self) == (RepairSurface { profile_frames: 0, mask: None, ..*old(self) }),
    {
        self.profile_frames = 0;
        self.mask = None;
    }

    /// Selects another click; hands out its frame.
    pub fn step_click(&mut self, delta: i32) -> (frame: Option<usize>)
        requires
            old(self).selected_click <= i32::MAX,
            i32::MIN <= old(self).selected_click + delta <= i32::MAX,
        ensures
            old(self).clicks@.len() == 0 ==> frame is None && *final(self) == *old(self),
            old(self).clicks@.len() > 0 ==> {
                let wanted = old(self).selected_click + delta;
                let last = old(self).clicks@.len() - 1;
                let next = if wanted < 0 {
                    0
                } else if wanted > last {
                    last
                } else {
                    wanted
                };
                &&& *final(self) == (RepairSurface { selected_click: next as usize, ..*old(self) })
                &&& frame == Some(old(self).clicks@[next].frame)
            },
    {
        if self.clicks.len() == 0 {
            return None;
        }
        let last: usize = self.clicks.len() - 1;
        let wanted: i64 = self.selected_click as i64 + delta as i64;
        let next: usize = if wanted < 0 {
            0
        } else if wanted as usize > last {
            last
        } else {
            wanted as usize
        };
        self.selected_click = next;
        Some(self.clicks[next].frame)
    }

    /// The frames of the window that a noise profile is learned from: the drawn
    /// region when there is one, otherwise all of them.
    pub fn repair_learn_range(&self, window_start: u64, total_frames: usize) -> (range: (usize, usize))
        ensures
            ({
                let (start, end): (int, int) = match self.region {
                    Some(region) => (
                        crate::render::frames_after(region.start_frame, window_start),
                        crate::render::frames_after(region.end_frame, window_start),
                    ),
                    None => (0, total_frames as int),
                };
                let until = if end < total_frames {
                    end
                } else {
                    total_frames as int
                };
                &&& range.1 == until
                &&& range.0 == if start < until {
                    start
                } else {
                    until
                }
            }),
    {
        match self.region {
            Some(region) => {
                let total: u64 = total_frames as u64;
                let start: u64 = local_frame(region.start_frame, window_start);
                let end: u64 = local_frame(region.end_frame, window_start);
                let until: u64 = if end < total { end } else { total };
                let from: u64 = if start < until { start } else { until };
                (from as usize, until as usize)
            },
            None => (0, total_frames),
        }
    }

    /// Changes how frequencies are laid out.
    pub fn toggle_frequency_scale(&mut self)
        ensures
            *final(self) == (RepairSurface {
                frequency_scale: if old(self).frequency_scale == FrequencyScale::Logarithmic {
                    FrequencyScale::Linear
                } else {
                    FrequencyScale::Logarithmic
                },
                ..*old(self)
            }),
    {
        self.frequency_scale = if self.frequency_scale == FrequencyScale::Logarithmic {
            FrequencyScale::Linear
        } else {
            FrequencyScale::Logarithmic
        };
    }

    /// Shows transients, or hides them; says whether they have to be found
    /// first.
    pub fn toggle_transients(&mut self, transient_count: usize) -> (detect: bool)
        ensures
            *final(self) == (RepairSurface {
                show_transients: !old(self).show_transients,
                ..*old(self)
            }),
            detect == (!old(self).show_transients && transient_count == 0),
    {
        self.show_transients = !self.show_transients;
        self.show_transients && transient_count == 0
    }

    /// The source has been decoded: the view is fitted the first time, and the
    /// tool's own selection becomes the region when none was drawn.
    pub fn on_repair_source_ready(
        &mut self,
        peaks: WaveformPeaks,
        selection: Option<SpectralSelection<T>>,
        band: (T, T),
    ) -> (ready: SourceReady)
        ensures
            ready.fit == !old(self).fitted,
            ready.detect_transients == old(self).show_transients,
            *final(self) == (RepairSurface {
                peaks: Some(peaks),
                fitted: true,
                region: match (old(self).region, selection) {
                    (Some(region), _) => Some(region),
                    (None, Some(selection)) => Some(
                        region_between(selection.start_frame, selection.end_frame, band),
                    ),
                    (None, None) => None,
                },
                ..*old(self)
            }),
    {
        let ready = SourceReady { fit: !self.fitted, detect_transients: self.show_transients };
        self.peaks = Some(peaks);
        self.fitted = true;
        if self.region.is_none() {
            if let Some(selection) = selection {
                self.region = Some(
                    region_from_drag(selection.start_frame, selection.end_frame, band),
                );
            }
        }
        ready
    }

    /// Starts to build the spectrogram of the source.
    pub fn spawn_repair_spectrogram(&mut self, source_path: &Option<String>) -> (job: Option<
        SpectrogramJob,
    >)
        ensures
            final(self).spectrogram_status is Some,
            match *source_path {
                None => {
                    &&& job is None
                    &&& final(self).spectrogram_status->0@ == "Clip has no source file"@
                    &&& *final(self) == (RepairSurface {
                        spectrogram_status: final(self).spectrogram_status,
                        ..*old(self)
                    })
                },
                Some(path) => {
                    let generation = crate::host::next_generation(old(self).spectrogram_generation);
                    &&& job == Some(
                        SpectrogramJob {
                            path,
                            frequency_scale: old(self).frequency_scale,
                            reverse: false,
                            generation,
                        },
                    )
                    &&& final(self).spectrogram_status->0@ == "Building spectrogram…"@
                    &&& *final(self) == (RepairSurface {
                        spectrogram_status: final(self).spectrogram_status,
                        spectrogram_generation: generation,
                        ..*old(self)
                    })
                },
            },
    {
        match source_path {
            None => {
                self.spectrogram_status = Some("Clip has no source file".to_owned());
                None
            },
            Some(path) => {
                self.spectrogram_generation = self.spectrogram_generation.wrapping_add(1);
                self.spectrogram_status = Some("Building spectrogram…".to_owned());
                Some(
                    SpectrogramJob {
                        path: path.clone(),
                        frequency_scale: self.frequency_scale,
                        reverse: false,
                        generation: self.spectrogram_generation,
                    },
                )
            },
        }
    }

    /// Takes the tiles of a spectrogram, or why there are none, unless they are
    /// stale; says whether it did.
    pub fn finish_repair_spectrogram(&mut self, generation: u64, result: Result<
        Vec<S>,
        String,
    >) -> (taken: bool)
        ensures
            taken == (generation == old(self).spectrogram_generation),
            *final(self) == if !taken {
                *old(self)
            } else {
                match result {
                    Ok(tiles) => RepairSurface { tiles, spectrogram_status: None, ..*old(self) },
                    Err(error) => RepairSurface {
                        spectrogram_status: Some(error),
                        ..*old(self)
                    },
                }
            },
    {
        if self.spectrogram_generation != generation {
            return false;
        }
        match result {
            Ok(tiles) => {
                self.tiles = tiles;
                self.spectrogram_status = None;
            },
            Err(error) => {
                self.spectrogram_status = Some(error);
            },
        }
        true
    }

    /// What is said over the canvas, if anything.
    pub fn repair_canvas_status(&self) -> (status: Option<String>)
        ensures
            match (self.peaks, self.spectrogram_status) {
                (None, Some(text)) => status == Some(text),
                (None, None) => status matches Some(text) && text@ == "Analyzing source…"@,
                (Some(_), text) => status == if self.view != CanvasView::Waveform
                    && self.tiles@.len() == 0 {
                    text
                } else {
                    None
                },
            },
    {
        if self.peaks.is_none() {
            return match &self.spectrogram_status {
                Some(text) => Some(text.clone()),
                None => Some("Analyzing source…".to_owned()),
            };
        }
        if self.view.shows_spectrogram() && self.tiles.len() == 0 {
            return match &self.spectrogram_status {
                Some(text) => Some(text.clone()),
                None => None,
            };
        }
        None
    }

    /// Whether the figures shown are being computed anew.
    pub fn result_is_stale(&self) -> (stale: bool)
        ensures
            stale == ((self.diff is Some && self.diff->0.stale) || self.preview_busy),
    {
        match &self.diff {
            Some(diff) => diff.stale || self.preview_busy,
            None => self.preview_busy,
        }
    }
}

fn region_from_drag<T: Copy>(a: i64, b: i64, band: (T, T)) -> (region: CanvasRegion<T>)
    ensures
        region == region_between(a, b, band),
{
    CanvasRegion {
        start_frame: if a < b {
            a
        } else {
            b
        },
        end_frame: if a < b {
            b
        } else {
            a
        },
        min_hz: band.0,
        max_hz: band.1,
    }
}

// ---------------------------------------------------------------- overlays

/// What the active module contributes to the canvas.
pub struct CanvasOverlays<T> {
    /// The gated cells are shown.
    pub mask: bool,
    /// The notches are shown.
    pub bands: bool,
    pub events: Vec<CanvasEvent<T>>,
    pub event_tone: EventTone,
    pub selected_event: Option<usize>,
    pub transients: Vec<CanvasEvent<T>>,
    pub region: Option<CanvasRegion<T>>,
    /// The region's gain is shown.
    pub region_gain: bool,
}

/// The marks of the clicks.
pub open spec fn click_events<T>(clicks: Seq<ClickEvent<T>>) -> Seq<CanvasEvent<T>> {
    Seq::new(
        clicks.len(),
        |i: int|
            CanvasEvent {
                frame: clicks[i].frame as u64,
                width_frames: clicks[i].width as u32,
                strength: clicks[i].strength,
            },
    )
}

/// The marks of the transients that lie in the window.
pub open spec fn transient_events<T>(
    markers: Seq<TransientMarker<T>>,
    window_start: u64,
    width_frames: u32,
) -> Seq<CanvasEvent<T>>
    decreases markers.len(),
{
    if markers.len() == 0 {
        Seq::empty()
    } else {
        let before = transient_events(markers.drop_last(), window_start, width_frames);
        let last = markers.last();
        if last.source_frame < window_start {
            before
        } else {
            before.push(
                CanvasEvent {
                    frame: (last.source_frame - window_start) as u64,
                    width_frames,
                    strength: last.strength,
                },
            )
        }
    }
}

fn mark_clicks<T: Copy>(clicks: &Vec<ClickEvent<T>>) -> (events: Vec<CanvasEvent<T>>)
    ensures
        events@ == click_events(clicks@),
{
    let mut events: Vec<CanvasEvent<T>> = Vec::new();
    let mut i: usize = 0;
    while i < clicks.len()
        invariant
            i <= clicks@.len(),
            events@ == click_events(clicks@).take(i as int),
        decreases clicks@.len() - i,
    {
        let click = clicks[i];
        events.push(
            CanvasEvent {
                frame: click.frame as u64,
                width_frames: click.width as u32,
                strength: click.strength,
            },
        );
        proof {
            assert(click_events(clicks@).take(i as int + 1) =~= click_events(clicks@).take(
                i as int,
            ).push(click_events(clicks@)[i as int]));
        }
        i += 1;
    }
    proof {
        assert(click_events(clicks@).take(i as int) =~= click_events(clicks@));
    }
    events
}

fn mark_transients<T: Copy>(
    markers: &Vec<TransientMarker<T>>,
    window_start: u64,
    width_frames: u32,
) -> (events: Vec<CanvasEvent<T>>)
    ensures
        events@ == transient_events(markers@, window_start, width_frames),
{
    let mut events: Vec<CanvasEvent<T>> = Vec::new();
    let mut i: usize = 0;
    proof {
        assert(markers@.take(0) =~= Seq::empty());
    }
    while i < markers.len()
        invariant
            i <= markers@.len(),
            events@ == transient_events(markers@.take(i as int), window_start, width_frames),
        decreases markers@.len() - i,
    {
        proof {
            assert(markers@.take(i as int + 1).drop_last() =~= markers@.take(i as int));
        }
        let marker = markers[i];
        if marker.source_frame >= window_start {
            events.push(
                CanvasEvent {
                    frame: marker.source_frame - window_start,
                    width_frames,
                    strength: marker.strength,
                },
            );
        }
        i += 1;
    }
    proof {
        assert(markers@.take(i as int) =~= markers@);
    }
    events
}

/// What an entry of the canvas legend stands for.
#[derive(Clone, Copy, PartialEq, Eq, Structural, Debug)]
pub enum LegendEntry {
    Gated,
    Notch,
    Click,
    Region,
    Transient,
    Removed,
    After,
}

impl LegendEntry {
    /// The name of the entry.
    pub fn label(self) -> (label: &'static str)
        ensures
            label@ == match self {
                LegendEntry::Gated => "Gated"@,
                LegendEntry::Notch => "Notch"@,
                LegendEntry::Click => "Click"@,
                LegendEntry::Region => "Region"@,
                LegendEntry::Transient => "Transient"@,
                LegendEntry::Removed => "Removed"@,
                LegendEntry::After => "After"@,
            },
    {
        match self {
            LegendEntry::Gated => "Gated",
            LegendEntry::Notch => "Notch",
            LegendEntry::Click => "Click",
            LegendEntry::Region => "Region",
            LegendEntry::Transient => "Transient",
            LegendEntry::Removed => "Removed",
            LegendEntry::After => "After",
        }
    }
}

/// The legend of the canvas: what the module draws, then transients, then the
/// comparison.
pub open spec fn legend_of<T, S>(surface: RepairSurface<T, S>, transient_count: nat) -> Seq<
    LegendEntry,
> {
    let own: Seq<LegendEntry> = match surface.module {
        AudioRepairModule::Denoise => if surface.mask is Some {
            seq![LegendEntry::Gated]
        } else {
            Seq::empty()
        },
        AudioRepairModule::DeHum => seq![LegendEntry::Notch],
        AudioRepairModule::DeClick => seq![LegendEntry::Click],
        AudioRepairModule::SpectralRepair => seq![LegendEntry::Region],
        _ => Seq::empty(),
    };
    let transients: Seq<LegendEntry> = if surface.show_transients && transient_count > 0 {
        seq![LegendEntry::Transient]
    } else {
        Seq::empty()
    };
    let compared: Seq<LegendEntry> = if surface.diff is Some && !surface.diff->0.blank() {
        seq![LegendEntry::Removed, LegendEntry::After]
    } else {
        Seq::empty()
    };
    own + transients + compared
}

impl<T: Copy, S> RepairSurface<T, S> {
    /// The legend of the canvas.
    pub fn repair_legend(&self, transient_count: usize) -> (entries: Vec<LegendEntry>)
        ensures
            entries@ == legend_of(*self, transient_count as nat),
    {
        let mut entries: Vec<LegendEntry> = Vec::new();
        match self.module {
            AudioRepairModule::Denoise => {
                if self.mask.is_some() {
                    entries.push(LegendEntry::Gated);
                }
            },
            AudioRepairModule::DeHum => {
                entries.push(LegendEntry::Notch);
            },
            AudioRepairModule::DeClick => {
                entries.push(LegendEntry::Click);
            },
            AudioRepairModule::SpectralRepair => {
                entries.push(LegendEntry::Region);
            },
            _ => {},
        }
        if self.show_transients && transient_count > 0 {
            entries.push(LegendEntry::Transient);
        }
        let compared = match &self.diff {
            Some(diff) => !diff.is_empty(),
            None => false,
        };
        if compared {
            entries.push(LegendEntry::Removed);
            entries.push(LegendEntry::After);
        }
        proof {
            assert(entries@ =~= legend_of(*self, transient_count as nat));
        }
        entries
    }

    /// What the active module contributes to the canvas; `width_frames` is how
    /// wide a transient is drawn.
    pub fn repair_overlays(
        &self,
        transients: &Vec<TransientMarker<T>>,
        window_start: u64,
        width_frames: u32,
    ) -> (overlays: CanvasOverlays<T>)
        ensures
            overlays.mask == (self.module == AudioRepairModule::Denoise && self.mask is Some),
            overlays.bands == (self.module == AudioRepairModule::DeHum),
            overlays.events@ == if self.module == AudioRepairModule::DeClick {
                click_events(self.clicks@)
            } else {
                Seq::empty()
            },
            overlays.event_tone == EventTone::Repair,
            overlays.selected_event == if self.module == AudioRepairModule::DeClick
                && self.clicks@.len() > 0 {
                Some(kept_click(self.selected_click, self.clicks@.len()))
            } else {
                None
            },
            overlays.transients@ == if self.show_transients {
                transient_events(transients@, window_start, width_frames)
            } else {
                Seq::empty()
            },
            overlays.region == self.region,
            overlays.region_gain == (self.module == AudioRepairModule::SpectralRepair),
    {
        let clicking = self.module == AudioRepairModule::DeClick;
        let count: usize = self.clicks.len();
        CanvasOverlays {
            mask: self.module == AudioRepairModule::Denoise && self.mask.is_some(),
            bands: self.module == AudioRepairModule::DeHum,
            events: if clicking {
                mark_clicks(&self.clicks)
            } else {
                Vec::new()
            },
            event_tone: EventTone::Repair,
            selected_event: if clicking && count > 0 {
                Some(
                    if self.selected_click < count {
                        self.selected_click
                    } else {
                        count - 1
                    },
                )
            } else {
                None
            },
            transients: if self.show_transients {
                mark_transients(transients, window_start, width_frames)
            } else {
                Vec::new()
            },
            region: self.region,
            region_gain: self.module == AudioRepairModule::SpectralRepair,
        }
    }
}

// ------------------------------------------------------------------ labels

/// What the inspector says of the noise profile; `seconds` is how much it was
/// learned from.
pub fn profile_label(learned: bool, seconds: &str) -> (label: String)
    ensures
        label@ == if learned {
            "Learned from "@ + seconds@ + " s"@
        } else {
            "No profile learned"@
        },
{
    if learned {
        "Learned from ".to_owned().concat(seconds).concat(" s")
    } else {
        "No profile learned".to_owned()
    }
}

/// What the inspector says while no region is drawn; `spectral` tells a module
/// that works on a band of frequencies.
pub fn region_hint(spectral: bool) -> (hint: &'static str)
    ensures
        hint@ == if spectral {
            "Drag on the canvas to target a band."@
        } else {
            "Whole window. Drag on the canvas to narrow it."@
        },
{
    if spectral {
        "Drag on the canvas to target a band."
    } else {
        "Whole window. Drag on the canvas to narrow it."
    }
}

/// What the inspector says of the selected click; `seconds` is where it lies.
pub open spec fn event_text(selected: usize, count: nat, seconds: Seq<char>) -> Seq<char> {
    if count == 0 {
        "No events detected"@
    } else {
        "Event "@ + crate::text::decimal((kept_click(selected, count) + 1) as nat) + " of "@
            + crate::text::decimal(count) + " · "@ + seconds + " s"@
    }
}

impl<T: Copy, S> RepairSurface<T, S> {
    /// What the inspector says of the selected click.
    pub fn event_label(&self, seconds: &str) -> (label: String)
        ensures
            label@ == event_text(self.selected_click, self.clicks@.len(), seconds@),
    {
        let count: usize = self.clicks.len();
        if count == 0 {
            return "No events detected".to_owned();
        }
        let selected: usize = if self.selected_click < count { self.selected_click } else { count - 1 };
        "Event ".to_owned().concat(&decimal_text(selected as u64 + 1)).concat(" of ").concat(
            &decimal_text(count as u64),
        ).concat(" · ").concat(seconds).concat(" s")
    }

    /// How many events the preview repaired, if any.
    pub fn repaired_label(&self) -> (label: Option<String>)
        ensures
            match self.stats {
                Some(stats) if stats.events > 0 => label matches Some(text) && text@
                    == crate::text::decimal(stats.events as nat) + " events"@,
                _ => label is None,
            },
    {
        match self.stats {
            Some(stats) => if stats.events > 0 {
                Some(decimal_text(stats.events as u64).concat(" events"))
            } else {
                None
            },
            None => None,
        }
    }
}

// ------------------------------------------------------------------- laws

/// At most one pass runs at a time, and a change only waits while one is
/// running.
pub proof fn law_one_pass_at_a_time<T, S>(
    surface: RepairSurface<T, S>,
    generation: u64,
    result: PreviewResult<T>,
    range: Option<(usize, usize)>,
)
    requires
        surface.disciplined(),
    ensures
        surface.preview_busy ==> surface.invalidated(range).1 is None,
        surface.invalidated(range).0.disciplined(),
        surface.invalidated(range).1 is Some ==> surface.invalidated(range).0.preview_busy,
        range is Some ==> surface.landed(generation, result, range).0.disciplined(),
{
}

/// A pass in flight is never overtaken: whatever changes meanwhile, its result
/// is current when it lands.
pub proof fn law_a_pass_in_flight_stays_current<T, S>(
    surface: RepairSurface<T, S>,
    range: Option<(usize, usize)>,
)
    requires
        surface.preview_busy,
    ensures
        surface.invalidated(range).0.preview_generation == surface.preview_generation,
        surface.invalidated(range).0.preview_busy,
{
}

/// A change during a pass is not lost: the next pass starts when it lands.
pub proof fn law_a_change_during_a_pass_is_not_lost<T, S>(
    surface: RepairSurface<T, S>,
    result: PreviewResult<T>,
    before: Option<(usize, usize)>,
    range: (usize, usize),
)
    requires
        surface.preview_busy,
    ensures
        ({
            let changed = surface.invalidated(before).0;
            changed.landed(surface.preview_generation, result, Some(range)).1 is Some
        }),
{
}

/// Whatever is compared on the canvas is marked as out of date by a change.
pub proof fn law_a_change_ages_the_comparison<T, S>(
    surface: RepairSurface<T, S>,
    range: Option<(usize, usize)>,
)
    ensures
        surface.invalidated(range).0.diff matches Some(diff) ==> diff.stale,
        surface.invalidated(range).0.diff is Some == surface.diff is Some,
{
}

/// A stale result changes nothing that is shown.
pub proof fn law_a_stale_result_is_dropped<T, S>(
    surface: RepairSurface<T, S>,
    generation: u64,
    result: PreviewResult<T>,
    range: Option<(usize, usize)>,
)
    requires
        generation != surface.preview_generation,
    ensures
        ({
            let next = surface.landed(generation, result, range).0;
            &&& next.diff == surface.diff
            &&& next.mask == surface.mask
            &&& next.clicks == surface.clicks
            &&& next.selected_click == surface.selected_click
            &&& next.stats == surface.stats
        }),
{
}

/// After a pass lands, the selected click exists whenever there are clicks.
pub proof fn law_the_selected_click_exists<T, S>(
    surface: RepairSurface<T, S>,
    result: PreviewResult<T>,
    range: Option<(usize, usize)>,
)
    requires
        result.clicks@.len() > 0,
    ensures
        surface.landed(surface.preview_generation, result, range).0.selected_click
            < result.clicks@.len(),
{
}

/// A preview pass stays inside the window, covers something, and is bounded.
pub proof fn law_preview_passes_are_bounded(total: nat, start: nat, end: nat)
    ensures
        preview_frames(total, start, end) matches Some((from, until)) ==> {
            &&& from == start
            &&& from < until <= total
            &&& until - from <= PREVIEW_MAX_FRAMES
        },
        preview_frames(total, start, end) is None == (start >= total),
{
}

/// What a preview shows follows from the module: a comparison if and only if the
/// module has what it needs, an attenuation map only of noise reduction, clicks
/// only of click removal. Without a comparison the levels have not changed.
pub proof fn law_a_preview_follows_from_its_module<T>(
    module: AudioRepairModule,
    has_profile: bool,
    region: Option<CanvasRegion<T>>,
    window_start: u64,
    start: usize,
    end: usize,
    before: RangeLevels<T>,
    outcome: PreviewOutcome<T>,
    result: PreviewResult<T>,
)
    requires
        outcome.comes_of(work_of(module, has_profile, region, window_start, start)),
        reports(result, start, end, before, outcome),
    ensures
        result.diff is Some <==> module is DeClick || module is DeHum || (module is Denoise
            && has_profile) || (module is SpectralRepair && region is Some),
        result.diff matches Some(diff) ==> diff.start_frame == start && diff.end_frame == end
            && !diff.stale,
        result.diff is None ==> result.stats.after == result.stats.before,
        result.mask is Some ==> module is Denoise && has_profile,
        result.stats.coverage is Some ==> module is Denoise && has_profile,
        result.stats.events == result.clicks@.len(),
        result.clicks@.len() > 0 ==> module is DeClick,
{
}

/// A region runs forwards whichever way it was drawn, and covers the same
/// frames.
pub proof fn law_regions_run_forwards<T>(a: i64, b: i64, band: (T, T))
    ensures
        region_between(a, b, band).start_frame <= region_between(a, b, band).end_frame,
        region_between(a, b, band) == region_between(b, a, band),
{
}

/// Whether a result compares what a processor got with what it made of it: the
/// source's envelope before, the processed one after, over the frames of the
/// pass, and the levels of each.
pub open spec fn compares<T>(
    result: PreviewResult<T>,
    start: usize,
    end: usize,
    before: RangeLevels<T>,
    processed: Processed<T>,
) -> bool {
    &&& result.diff matches Some(diff) && diff.before@ == processed.before@ && diff.after@
        == processed.after@ && diff.start_frame == start && diff.end_frame == end && !diff.stale
    &&& result.stats.before == before
    &&& result.stats.after == processed.levels
}

/// The comparison shows the source before and the processed range after, never
/// the other way round, whatever was processed.
pub proof fn law_the_comparison_goes_from_source_to_result<T>(
    start: usize,
    end: usize,
    before: RangeLevels<T>,
    outcome: PreviewOutcome<T>,
    result: PreviewResult<T>,
)
    requires
        reports(result, start, end, before, outcome),
    ensures
        match outcome {
            PreviewOutcome::Denoised { processed, .. } => {
                &&& result.diff matches Some(diff) && diff.before@ == processed.before@
                    && diff.after@ == processed.after@
                &&& compares(result, start, end, before, processed)
            },
            PreviewOutcome::Declicked { processed, .. } => {
                &&& result.diff matches Some(diff) && diff.before@ == processed.before@
                    && diff.after@ == processed.after@
                &&& compares(result, start, end, before, processed)
            },
            PreviewOutcome::Dehummed { processed } => {
                &&& result.diff matches Some(diff) && diff.before@ == processed.before@
                    && diff.after@ == processed.after@
                &&& compares(result, start, end, before, processed)
            },
            PreviewOutcome::Shaped { processed } => {
                &&& result.diff matches Some(diff) && diff.before@ == processed.before@
                    && diff.after@ == processed.after@
                &&& compares(result, start, end, before, processed)
            },
            PreviewOutcome::Nothing => result.diff is None && result.stats.before == before
                && result.stats.after == before,
        },
        result.start_frame == start,
        result.end_frame == end,
{
}

/// The clicks that were found are the clicks that are shown and counted, and the
/// share and the picture of what a noise gate closes are those that were
/// measured, over the frames of the pass.
pub proof fn law_what_was_found_is_shown<T>(
    start: usize,
    end: usize,
    before: RangeLevels<T>,
    outcome: PreviewOutcome<T>,
    result: PreviewResult<T>,
)
    requires
        reports(result, start, end, before, outcome),
    ensures
        outcome matches PreviewOutcome::Declicked { clicks, .. } ==> result.clicks@ == clicks@
            && result.stats.events == clicks@.len(),
        outcome matches PreviewOutcome::Denoised { gate, .. } ==> {
            &&& gate matches Some(closed) ==> {
                &&& result.stats.coverage == Some(closed.coverage)
                &&& closed.image is None ==> result.mask is None
                &&& closed.image matches Some(image) ==> result.mask matches Some(mask) && mask.image
                    == image && mask.start_frame == start && mask.end_frame == end
            }
            &&& gate is None ==> result.stats.coverage is None && result.mask is None
        },
{
}

/// A spectral repair works on the frames of the region, counted from where the
/// pass starts, and on none before it.
pub proof fn law_a_region_is_counted_from_the_pass<T>(
    region: CanvasRegion<T>,
    has_profile: bool,
    window_start: u64,
    start: usize,
)
    requires
        window_start + start <= u64::MAX,
    ensures
        work_of(
            AudioRepairModule::SpectralRepair,
            has_profile,
            Some(region),
            window_start,
            start,
        ) matches PreviewWork::SpectralGain { start_frame, end_frame } && {
            let origin = window_start + start;
            &&& region.start_frame >= origin ==> origin + start_frame == region.start_frame
            &&& region.start_frame < origin ==> start_frame == 0
            &&& region.end_frame >= origin ==> origin + end_frame == region.end_frame
            &&& region.end_frame < origin ==> end_frame == 0
        },
{
}

/// What a module runs is its own processor: each work belongs to one module.
pub proof fn law_each_module_runs_its_own_processor<T>(
    module: AudioRepairModule,
    has_profile: bool,
    region: Option<CanvasRegion<T>>,
    window_start: u64,
    start: usize,
)
    ensures
        ({
            let work = work_of(module, has_profile, region, window_start, start);
            &&& work is Denoise <==> module is Denoise && has_profile
            &&& work is DeClick <==> module is DeClick
            &&& work is DeHum <==> module is DeHum
            &&& work is SpectralGain <==> module is SpectralRepair && region is Some
        }),
{
}

/// A change starts a pass over the given frames when none is running, and the
/// result of that pass is shown when it lands.
pub proof fn law_a_started_pass_is_shown_when_it_lands<T, S>(
    surface: RepairSurface<T, S>,
    start: usize,
    end: usize,
    result: PreviewResult<T>,
    range: Option<(usize, usize)>,
)
    requires
        !surface.preview_busy,
    ensures
        ({
            let (running, job) = surface.invalidated(Some((start, end)));
            &&& running.preview_busy && !running.preview_dirty
            &&& job matches Some(job) && job.start == start && job.end == end && {
                let (shown, next) = running.landed(job.generation, result, range);
                &&& shown.diff == result.diff
                &&& shown.mask == result.mask
                &&& shown.clicks == result.clicks
                &&& shown.stats == Some(result.stats)
                &&& !shown.preview_busy
                &&& next is None
            }
        }),
{
}

/// Where there is nothing to preview, a change starts no pass.
pub proof fn law_without_frames_no_pass_starts<T, S>(surface: RepairSurface<T, S>)
    ensures
        surface.invalidated(None).1 is None,
        surface.invalidated(None).0.preview_busy == surface.preview_busy,
{
}

/// The pass that a waiting change starts covers what is in view when the one
/// before it lands, and is told from it by its generation.
pub proof fn law_the_next_pass_covers_the_view<T, S>(
    surface: RepairSurface<T, S>,
    generation: u64,
    result: PreviewResult<T>,
    start: usize,
    end: usize,
)
    requires
        surface.preview_dirty,
    ensures
        ({
            let (next, job) = surface.landed(generation, result, Some((start, end)));
            &&& job matches Some(job) && job.start == start && job.end == end && job.generation
                == next.preview_generation && job.generation != surface.preview_generation
            &&& next.preview_busy && !next.preview_dirty
        }),
{
}

/// Starting and landing a pass leave the module, the view and the drawn region
/// alone, and ageing a comparison keeps what it compares.
pub proof fn law_passes_leave_the_controls_alone<T, S>(
    surface: RepairSurface<T, S>,
    generation: u64,
    result: PreviewResult<T>,
    range: Option<(usize, usize)>,
)
    ensures
        ({
            let aged_one = surface.invalidated(range).0;
            let landed_one = surface.landed(generation, result, range).0;
            &&& aged_one.module == surface.module && landed_one.module == surface.module
            &&& aged_one.view == surface.view && landed_one.view == surface.view
            &&& aged_one.region == surface.region && landed_one.region == surface.region
            &&& aged_one.frequency_scale == surface.frequency_scale && landed_one.frequency_scale
                == surface.frequency_scale
            &&& aged_one.show_transients == surface.show_transients && landed_one.show_transients
                == surface.show_transients
            &&& aged_one.show_spectrum == surface.show_spectrum && landed_one.show_spectrum
                == surface.show_spectrum
            &&& aged_one.clicks == surface.clicks && aged_one.mask == surface.mask
            &&& aged_one.stats == surface.stats && aged_one.selected_click
                == surface.selected_click
            &&& aged_one.profile_frames == surface.profile_frames && landed_one.profile_frames
                == surface.profile_frames
            &&& surface.diff matches Some(diff) ==> aged_one.diff matches Some(old_one)
                && old_one.before == diff.before && old_one.after == diff.after
                && old_one.start_frame == diff.start_frame && old_one.end_frame == diff.end_frame
        }),
{
}

/// The selected click stays selected while it exists; after that the last one
/// is.
pub proof fn law_a_selected_click_stays_selected(selected: usize, count: nat)
    requires
        count <= usize::MAX,
    ensures
        selected < count ==> kept_click(selected, count) == selected,
        0 < count <= selected ==> kept_click(selected, count) == count - 1,
{
}

/// A region is bounded by the two frames it was drawn between, and by its band.
pub proof fn law_a_region_lies_between_its_corners<T>(a: i64, b: i64, band: (T, T))
    ensures
        ({
            let region = region_between(a, b, band);
            &&& (region.start_frame == a && region.end_frame == b) || (region.start_frame == b
                && region.end_frame == a)
            &&& region.min_hz == band.0
            &&& region.max_hz == band.1
        }),
{
}

/// A preview pass covers every frame in view, up to the most that one covers,
/// and none beyond, except that it covers one at least.
pub proof fn law_a_pass_covers_the_frames_in_view(total: nat, start: nat, end: nat, frame: nat)
    requires
        start < total,
    ensures
        preview_frames(total, start, end) matches Some((from, until)) && {
            &&& start <= frame < end && frame < total && frame < start + 1_920_000 ==> from
                <= frame < until
            &&& from <= frame < until ==> start <= frame && (frame < end || frame == start)
        },
{
}

/// The edited window starts where the selection does, and with the source where
/// there is none.
pub proof fn law_the_window_starts_with_the_selection(selection: Option<AudioRangeSelection>)
    ensures
        selection is None ==> window_origin(selection) == 0,
        selection matches Some(range) ==> {
            &&& range.start_frame >= 0 ==> window_origin(selection) == range.start_frame
            &&& range.start_frame < 0 ==> window_origin(selection) == 0
        },
{
}

/// Every click has a mark, at its frame and with its strength, in order.
pub proof fn law_every_click_has_a_mark<T>(clicks: Seq<ClickEvent<T>>, i: int)
    requires
        0 <= i < clicks.len(),
    ensures
        click_events(clicks).len() == clicks.len(),
        click_events(clicks)[i].frame == clicks[i].frame,
        clicks[i].width <= u32::MAX ==> click_events(clicks)[i].width_frames == clicks[i].width,
        click_events(clicks)[i].strength == clicks[i].strength,
{
}

/// Every transient in the window has a mark, as far from the window's start as
/// it is in the source.
pub proof fn law_every_transient_in_the_window_has_a_mark<T>(
    markers: Seq<TransientMarker<T>>,
    window_start: u64,
    width_frames: u32,
    i: int,
)
    requires
        0 <= i < markers.len(),
        markers[i].source_frame >= window_start,
    ensures
        exists|k: int|
            0 <= k < transient_events(markers, window_start, width_frames).len() && (
            #[trigger] transient_events(markers, window_start, width_frames)[k]).frame
                + window_start == markers[i].source_frame && transient_events(
                markers,
                window_start,
                width_frames,
            )[k].strength == markers[i].strength,
    decreases markers.len(),
{
    let events = transient_events(markers, window_start, width_frames);
    let front = transient_events(markers.drop_last(), window_start, width_frames);
    if i < markers.len() - 1 {
        law_every_transient_in_the_window_has_a_mark(
            markers.drop_last(),
            window_start,
            width_frames,
            i,
        );
        let k = choose|k: int|
            0 <= k < front.len() && (#[trigger] front[k]).frame + window_start
                == markers[i].source_frame && front[k].strength == markers[i].strength;
        assert(events[k] == front[k]);
    } else {
        assert(events[events.len() - 1].frame + window_start == markers[i].source_frame);
    }
}

/// Every mark stands for a transient of the window, and is as wide as it is to
/// be drawn; there are never more marks than transients.
pub proof fn law_every_mark_stands_for_a_transient<T>(
    markers: Seq<TransientMarker<T>>,
    window_start: u64,
    width_frames: u32,
    k: int,
)
    requires
        0 <= k < transient_events(markers, window_start, width_frames).len(),
    ensures
        transient_events(markers, window_start, width_frames).len() <= markers.len(),
        transient_events(markers, window_start, width_frames)[k].width_frames == width_frames,
        exists|i: int|
            0 <= i < markers.len() && (#[trigger] markers[i]).source_frame == transient_events(
                markers,
                window_start,
                width_frames,
            )[k].frame + window_start,
    decreases markers.len(),
{
    let events = transient_events(markers, window_start, width_frames);
    let fewer = markers.drop_last();
    let front = transient_events(fewer, window_start, width_frames);
    if front.len() > 0 {
        law_every_mark_stands_for_a_transient(fewer, window_start, width_frames, 0);
    }
    if k < front.len() {
        law_every_mark_stands_for_a_transient(fewer, window_start, width_frames, k);
        assert(events[k] == front[k]);
        let i = choose|i: int|
            0 <= i < fewer.len() && (#[trigger] fewer[i]).source_frame == front[k].frame
                + window_start;
        assert(markers[i].source_frame == events[k].frame + window_start);
    } else {
        assert(markers[markers.len() - 1].source_frame == events[k].frame + window_start);
    }
}

/// The legend names what is drawn on the canvas, and only that.
pub proof fn law_the_legend_names_what_is_drawn<T, S>(
    surface: RepairSurface<T, S>,
    transient_count: nat,
)
    ensures
        ({
            let legend = legend_of(surface, transient_count);
            let compared = surface.diff matches Some(diff) && diff.before@.len() > 0
                && diff.after@.len() > 0;
            &&& legend.contains(LegendEntry::Gated) <==> surface.module is Denoise
                && surface.mask is Some
            &&& legend.contains(LegendEntry::Notch) <==> surface.module is DeHum
            &&& legend.contains(LegendEntry::Click) <==> surface.module is DeClick
            &&& legend.contains(LegendEntry::Region) <==> surface.module is SpectralRepair
            &&& legend.contains(LegendEntry::Transient) <==> surface.show_transients
                && transient_count > 0
            &&& legend.contains(LegendEntry::Removed) <==> compared
            &&& legend.contains(LegendEntry::After) <==> compared
            &&& legend.len() <= 4
        }),
{
    let legend = legend_of(surface, transient_count);
    let n = legend.len() as int;
    if surface.diff matches Some(diff) && diff.before@.len() > 0 && diff.after@.len() > 0 {
        assert(legend[n - 1] == LegendEntry::After);
        assert(legend[n - 2] == LegendEntry::Removed);
        if surface.show_transients && transient_count > 0 {
            assert(legend[n - 3] == LegendEntry::Transient);
        }
    } else if surface.show_transients && transient_count > 0 {
        assert(legend[n - 1] == LegendEntry::Transient);
    }
    if surface.module is DeHum || surface.module is DeClick || surface.module is SpectralRepair || (
    surface.module is Denoise && surface.mask is Some) {
        assert(legend[0] is Gated || legend[0] is Notch || legend[0] is Click
            || legend[0] is Region);
    }
}

/// The inspector counts the clicks from one, up to as many as there are.
pub proof fn law_clicks_are_counted_from_one(selected: usize, count: nat, seconds: Seq<char>)
    requires
        selected < count,
    ensures
        event_text(selected, count, seconds) == "Event "@ + crate::text::decimal(
            (selected + 1) as nat,
        ) + " of "@ + crate::text::decimal(count) + " · "@ + seconds + " s"@,
{
}

/// A pass covers at most forty seconds at 48 kHz.
pub proof fn law_a_pass_is_bounded()
    ensures
        PREVIEW_MAX_FRAMES == 40 * 48_000,
{
}

} // verus!
