//! The Audio Processing Canvas: what it shows of the source and of the active
//! module.

use std::sync::Arc;

use vstd::prelude::*;

use crate::mask::FrameList;
use crate::text::decimal_text;

verus! {

/// Which source representation the canvas shows.
#[derive(Clone, Copy, PartialEq, Eq, Structural, Debug)]
pub enum CanvasView {
    Waveform,
    Spectrogram,
    Overlay,
}

impl CanvasView {
    /// The representations, in the order they are offered.
    pub const ALL: [CanvasView; 3] = [
        CanvasView::Waveform,
        CanvasView::Spectrogram,
        CanvasView::Overlay,
    ];

    /// The name of the representation.
    pub open spec fn name(self) -> Seq<char> {
        match self {
            CanvasView::Waveform => "Wave"@,
            CanvasView::Spectrogram => "Spectro"@,
            CanvasView::Overlay => "Both"@,
        }
    }

    /// The name of the representation.
    pub fn label(self) -> (label: &'static str)
        ensures
            label@ == self.name(),
    {
        match self {
            CanvasView::Waveform => "Wave",
            CanvasView::Spectrogram => "Spectro",
            CanvasView::Overlay => "Both",
        }
    }

    /// Whether the waveform is drawn.
    pub fn shows_waveform(self) -> (shown: bool)
        ensures
            shown == (self == CanvasView::Waveform || self == CanvasView::Overlay),
    {
        match self {
            CanvasView::Spectrogram => false,
            _ => true,
        }
    }

    /// Whether the spectrogram is drawn.
    pub fn shows_spectrogram(self) -> (shown: bool)
        ensures
            shown == (self == CanvasView::Spectrogram || self == CanvasView::Overlay),
    {
        match self {
            CanvasView::Waveform => false,
            _ => true,
        }
    }
}

impl Default for CanvasView {
    fn default() -> (view: CanvasView)
        ensures
            view == CanvasView::Overlay,
    {
        CanvasView::Overlay
    }
}

/// What a mark on the canvas stands for.
#[derive(Clone, Copy, PartialEq, Eq, Structural, Debug)]
pub enum EventTone {
    Repair,
    Neutral,
}

impl Default for EventTone {
    fn default() -> (tone: EventTone)
        ensures
            tone == EventTone::Repair,
    {
        EventTone::Repair
    }
}

/// A time-domain event drawn as a vertical mark.
#[derive(Clone, Copy)]
pub struct CanvasEvent<T> {
    /// Frame counted from the start of the edited window.
    pub frame: u64,
    pub width_frames: u32,
    pub strength: T,
}

/// A horizontal frequency band.
#[derive(Clone, Copy)]
pub struct CanvasBand<T> {
    pub center_hz: T,
    pub half_width_hz: T,
    pub depth_db: T,
}

/// A time-frequency region, in absolute source frames.
#[derive(Clone, Copy)]
pub struct CanvasRegion<T> {
    pub start_frame: i64,
    pub end_frame: i64,
    pub min_hz: T,
    pub max_hz: T,
}

/// The before/after lane under the time-frequency plane.
pub struct CanvasDiff<T> {
    /// Level envelope of the source over the previewed range.
    pub before: Vec<T>,
    /// Level envelope after the active processor ran over the same range.
    pub after: Vec<T>,
    pub start_frame: u64,
    pub end_frame: u64,
    pub stale: bool,
}

impl<T> CanvasDiff<T> {
    /// Whether there is nothing to compare.
    pub open spec fn blank(self) -> bool {
        self.before@.len() == 0 || self.after@.len() == 0
    }

    /// Whether there is nothing to compare.
    pub fn is_empty(&self) -> (empty: bool)
        ensures
            empty == self.blank(),
    {
        self.before.len() == 0 || self.after.len() == 0
    }
}

/// A rendered attenuation map and the frames it covers.
pub struct CanvasMask {
    pub image: FrameList,
    pub start_frame: u64,
    pub end_frame: u64,
}

// ----------------------------------------------------------------- layers

/// What is drawn on the canvas.
#[derive(Clone, Copy, PartialEq, Eq, Structural, Debug)]
pub struct CanvasLayers {
    pub waveform: bool,
    pub tiles: bool,
    pub mask: bool,
    /// The vertical axis shows frequencies rather than levels.
    pub frequency_axis: bool,
    /// The before/after lane takes part of the height.
    pub diff_lane: bool,
}

/// What is drawn on the canvas, by what there is to draw.
pub fn canvas_layers<T>(
    view: CanvasView,
    peak_frames: Option<usize>,
    tile_count: usize,
    has_mask: bool,
    diff: &Option<CanvasDiff<T>>,
) -> (layers: CanvasLayers)
    ensures
        layers.waveform == (view != CanvasView::Spectrogram && peak_frames is Some
            && peak_frames->0 > 0),
        layers.tiles == (view != CanvasView::Waveform && tile_count > 0),
        layers.mask == (view != CanvasView::Waveform && has_mask),
        layers.frequency_axis == (view != CanvasView::Waveform),
        layers.diff_lane == (*diff is Some && !diff->0.blank()),
{
    let spectral = view.shows_spectrogram();
    CanvasLayers {
        waveform: view.shows_waveform() && match peak_frames {
            Some(frames) => frames > 0,
            None => false,
        },
        tiles: spectral && tile_count > 0,
        mask: spectral && has_mask,
        frequency_axis: spectral,
        diff_lane: match diff {
            Some(diff) => !diff.is_empty(),
            None => false,
        },
    }
}

/// The frames in view: from where the view starts to where it ends, inside the
/// edited window.
pub open spec fn frames_in_view(start: u64, end: u64, window_frames: u64) -> (u64, u64) {
    let until = if end < window_frames {
        end
    } else {
        window_frames
    };
    (
        if start < until {
            start
        } else {
            until
        },
        until,
    )
}

/// The frames in view: from where the view starts to where it ends, inside the
/// edited window.
pub fn visible_range(start: u64, end: u64, window_frames: u64) -> (range: (u64, u64))
    ensures
        range == frames_in_view(start, end, window_frames),
{
    let end: u64 = if end < window_frames { end } else { window_frames };
    (
        if start < end {
            start
        } else {
            end
        },
        end,
    )
}

/// The marks of the frequency axis, in hertz.
pub open spec fn ruler_hz() -> Seq<u32> {
    seq![20u32, 100, 500, 1_000, 5_000, 10_000, 20_000]
}

/// The label of a mark of the frequency axis.
pub open spec fn hz_text(hz: u32) -> Seq<char> {
    if hz >= 1000 {
        crate::text::decimal((hz / 1000) as nat) + "k"@
    } else {
        crate::text::decimal(hz as nat)
    }
}

/// How many marks of the frequency axis lie below half the sample rate.
pub open spec fn ruler_count(sample_rate: u32) -> nat {
    if sample_rate < 40 {
        0
    } else if sample_rate < 200 {
        1
    } else if sample_rate < 1_000 {
        2
    } else if sample_rate < 2_000 {
        3
    } else if sample_rate < 10_000 {
        4
    } else if sample_rate < 20_000 {
        5
    } else if sample_rate < 40_000 {
        6
    } else {
        7
    }
}

/// The marks of the frequency axis up to half the sample rate, with labels.
pub fn frequency_marks(sample_rate: u32) -> (marks: Vec<(u32, String)>)
    ensures
        marks@.len() == ruler_count(sample_rate),
        forall|i: int|
            0 <= i < marks@.len() ==> (#[trigger] marks@[i]).0 == ruler_hz()[i] && marks@[i].1@
                == hz_text(ruler_hz()[i]),
{
    let table: [u32; 7] = [20, 100, 500, 1_000, 5_000, 10_000, 20_000];
    let mut marks: Vec<(u32, String)> = Vec::new();
    let mut i: usize = 0;
    proof {
        assert(table@ =~= ruler_hz());
    }
    while i < 7
        invariant
            table@ == ruler_hz(),
            i <= 7,
            marks@.len() == if i < ruler_count(sample_rate) {
                i as nat
            } else {
                ruler_count(sample_rate)
            },
            forall|j: int|
                0 <= j < marks@.len() ==> (#[trigger] marks@[j]).0 == ruler_hz()[j]
                    && marks@[j].1@ == hz_text(ruler_hz()[j]),
        decreases 7 - i,
    {
        let hz: u32 = table[i];
        if hz <= sample_rate / 2 {
            let label = if hz >= 1000 {
                decimal_text((hz / 1000) as u64).concat("k")
            } else {
                decimal_text(hz as u64)
            };
            marks.push((hz, label));
        }
        i += 1;
    }
    marks
}

// ------------------------------------------------------------------ peaks

/// Most buckets of the peak overview.
pub const MIP_BUCKETS: usize = 65_536;

/// Lowest sample of a range, silence counted in.
pub open spec fn lowest(samples: Seq<i32>, start: int, end: int) -> i32
    decreases end - start,
{
    if end <= start {
        0
    } else {
        let rest = lowest(samples, start, end - 1);
        if samples[end - 1] < rest {
            samples[end - 1]
        } else {
            rest
        }
    }
}

/// Highest sample of a range, silence counted in.
pub open spec fn highest(samples: Seq<i32>, start: int, end: int) -> i32
    decreases end - start,
{
    if end <= start {
        0
    } else {
        let rest = highest(samples, start, end - 1);
        if samples[end - 1] > rest {
            samples[end - 1]
        } else {
            rest
        }
    }
}

/// The sample that a frame starts with, or the end of the samples.
pub open spec fn sample_of(frame: int, channels: int, len: int) -> int {
    if frame * channels < len {
        frame * channels
    } else {
        len
    }
}

/// Lowest and highest sample of a range of frames.
pub open spec fn frame_extrema(samples: Seq<i32>, channels: int, start: int, end: int) -> (
    i32,
    i32,
) {
    let len = samples.len() as int;
    let from = sample_of(start, channels, len);
    let until = sample_of(end, channels, len);
    (lowest(samples, from, until), highest(samples, from, until))
}

/// Lowest low and highest high of a range of buckets.
pub open spec fn bucket_extrema(mip: Seq<(i32, i32)>, start: int, end: int) -> (i32, i32)
    decreases end - start,
{
    if end <= start {
        (0, 0)
    } else {
        let rest = bucket_extrema(mip, start, end - 1);
        (
            if mip[end - 1].0 < rest.0 {
                mip[end - 1].0
            } else {
                rest.0
            },
            if mip[end - 1].1 > rest.1 {
                mip[end - 1].1
            } else {
                rest.1
            },
        )
    }
}

fn sample_start(frame: usize, channels: usize, len: usize) -> (at: usize)
    ensures
        at == sample_of(frame as int, channels as int, len as int),
{
    match frame.checked_mul(channels) {
        Some(at) => if at < len {
            at
        } else {
            len
        },
        None => len,
    }
}

/// Lowest and highest sample of a range of frames of interleaved samples.
pub fn extrema(samples: &Vec<i32>, channels: usize, start_frame: usize, end_frame: usize) -> (range: (
    i32,
    i32,
))
    ensures
        range == frame_extrema(samples@, channels as int, start_frame as int, end_frame as int),
{
    let start: usize = sample_start(start_frame, channels, samples.len());
    let end: usize = sample_start(end_frame, channels, samples.len());
    let mut low: i32 = 0;
    let mut high: i32 = 0;
    let mut i: usize = start;
    while i < end
        invariant
            end <= samples@.len(),
            start <= i,
            i <= end || i == start,
            low == lowest(samples@, start as int, i as int),
            high == highest(samples@, start as int, i as int),
        decreases end - i,
    {
        if samples[i] < low {
            low = samples[i];
        }
        if samples[i] > high {
            high = samples[i];
        }
        i += 1;
    }
    (low, high)
}

/// What a pixel column reads its peaks from.
#[derive(Clone, Copy, PartialEq, Eq, Structural, Debug)]
pub enum ColumnSpan {
    /// The samples themselves, by frames.
    Frames { start: usize, end: usize },
    /// The overview, by buckets.
    Buckets { start: usize, end: usize },
}

/// Level peaks of the edited window, over the interleaved samples they came
/// from. Levels are integers that order as the samples do, with silence at
/// zero.
pub struct WaveformPeaks {
    pub samples: Arc<Vec<i32>>,
    pub channels: usize,
    pub frames: usize,
    pub mip: Arc<Vec<(i32, i32)>>,
}

/// How many buckets the overview of a window has.
pub open spec fn buckets(frames: int) -> int {
    if frames <= 0 {
        1
    } else if frames < MIP_BUCKETS {
        frames
    } else {
        MIP_BUCKETS as int
    }
}

/// Frames that the buckets share out evenly: those of the window, or one.
pub open spec fn shared_frames(frames: int) -> int {
    if frames <= 0 {
        1
    } else {
        frames
    }
}

/// First frame of a bucket: its share of the window, rounded down.
pub open spec fn bucket_start(bucket: int, frames: int) -> int {
    bucket * shared_frames(frames) / buckets(frames)
}

/// Frame after the last of a bucket: where the next bucket's share starts,
/// rounded up, inside the window.
pub open spec fn bucket_end(bucket: int, frames: int) -> int {
    let end = ((bucket + 1) * shared_frames(frames) + buckets(frames) - 1) / buckets(frames);
    if end < frames {
        end
    } else {
        frames
    }
}

/// How many buckets the overview of a window has.
pub fn bucket_count(frames: usize) -> (count: usize)
    ensures
        count == buckets(frames as int),
{
    let wanted: usize = if frames > 1 { frames } else { 1 };
    if wanted < MIP_BUCKETS {
        wanted
    } else {
        MIP_BUCKETS
    }
}

/// First frame of a bucket, and the frame after its last.
fn bucket_bounds(bucket: usize, frames: usize) -> (bounds: (usize, usize))
    requires
        bucket < buckets(frames as int),
    ensures
        bounds.0 == bucket_start(bucket as int, frames as int),
        bounds.1 == bucket_end(bucket as int, frames as int),
{
    let count: u128 = bucket_count(frames) as u128;
    let shared: u128 = if frames > 1 { frames as u128 } else { 1 };
    proof {
        lemma_bucket(bucket as int, frames as int);
        assert(0 <= bucket * shared <= (bucket + 1) * shared <= 65_536 * shared)
            by (nonlinear_arith)
            requires
                0 <= bucket < 65_536,
                shared >= 1,
        ;
    }
    let start: usize = (bucket as u128 * shared / count) as usize;
    let end: u128 = ((bucket as u128 + 1) * shared + count - 1) / count;
    (
        start,
        if end < frames as u128 {
            end as usize
        } else {
            frames
        },
    )
}

proof fn lemma_bucket(bucket: int, frames: int)
    requires
        0 <= bucket < buckets(frames),
        frames >= 0,
    ensures
        0 <= bucket_start(bucket, frames) <= bucket_end(bucket, frames) <= frames,
        bucket + 1 < buckets(frames) ==> bucket_start(bucket, frames) <= bucket_start(
            bucket + 1,
            frames,
        ) <= bucket_end(bucket, frames) <= bucket_end(bucket + 1, frames),
{
    let shared = shared_frames(frames);
    let count = buckets(frames);
    let here = bucket * shared;
    let next = (bucket + 1) * shared;
    let after = (bucket + 2) * shared;
    assert(0 <= here && next == here + shared && after == next + shared) by (nonlinear_arith)
        requires
            here == bucket * shared,
            next == (bucket + 1) * shared,
            after == (bucket + 2) * shared,
            bucket >= 0,
            shared >= 1,
    ;
    assert(next <= count * shared) by (nonlinear_arith)
        requires
            next == (bucket + 1) * shared,
            bucket + 1 <= count,
            shared >= 1,
    ;
    lemma_div_order(here, next, count);
    lemma_div_order(next, next + count - 1, count);
    lemma_div_order(next + count - 1, after + count - 1, count);
    assert(here / count < shared) by (nonlinear_arith)
        requires
            0 <= here,
            here + shared <= count * shared,
            count >= 1,
            shared >= 1,
    ;
    if bucket + 1 < buckets(frames) {
        assert(after <= count * shared) by (nonlinear_arith)
            requires
                after == (bucket + 2) * shared,
                bucket + 2 <= count,
                shared >= 1,
        ;
        assert(next / count < shared) by (nonlinear_arith)
            requires
                0 <= next,
                next + shared <= count * shared,
                count >= 1,
                shared >= 1,
        ;
    }
}

proof fn lemma_div_order(a: int, b: int, count: int)
    requires
        0 <= a <= b,
        count >= 1,
    ensures
        0 <= a / count <= b / count,
{
    vstd::arithmetic::div_mod::lemma_div_is_ordered(a, b, count);
    vstd::arithmetic::div_mod::lemma_div_pos_is_pos(a, count);
}

impl WaveformPeaks {
    /// Whether the overview holds the peaks of the samples, bucket by bucket.
    pub open spec fn wf(self) -> bool {
        &&& self.channels > 0
        &&& self.frames == self.samples@.len() / self.channels as nat
        &&& self.mip@.len() == buckets(self.frames as int)
        &&& forall|b: int|
            0 <= b < self.mip@.len() ==> (#[trigger] self.mip@[b]) == frame_extrema(
                self.samples@,
                self.channels as int,
                bucket_start(b, self.frames as int),
                bucket_end(b, self.frames as int),
            )
    }

    /// The peaks that a pixel column shows.
    pub open spec fn column(self, span: ColumnSpan) -> (i32, i32) {
        match span {
            ColumnSpan::Frames { start, end } => {
                let from = if start < self.frames {
                    start as int
                } else {
                    self.frames as int
                };
                let wanted = if end > from + 1 {
                    end as int
                } else {
                    from + 1
                };
                let until = if wanted < self.frames {
                    wanted
                } else {
                    self.frames as int
                };
                frame_extrema(self.samples@, self.channels as int, from, until)
            },
            ColumnSpan::Buckets { start, end } => {
                let len = self.mip@.len() as int;
                let wanted = if end > start + 1 {
                    end as int
                } else {
                    start + 1
                };
                bucket_extrema(
                    self.mip@,
                    if start < len {
                        start as int
                    } else {
                        len
                    },
                    if wanted < len {
                        wanted
                    } else {
                        len
                    },
                )
            },
        }
    }

    /// Builds the overview of interleaved samples.
    pub fn build(samples: Arc<Vec<i32>>, channels: usize) -> (peaks: WaveformPeaks)
        ensures
            peaks.samples == samples,
            peaks.channels == if channels > 1 {
                channels
            } else {
                1
            },
            peaks.wf(),
    {
        let channels: usize = if channels > 1 { channels } else { 1 };
        let frames: usize = samples.len() / channels;
        let count: usize = bucket_count(frames);
        let mut mip: Vec<(i32, i32)> = Vec::new();
        let mut b: usize = 0;
        while b < count
            invariant
                b <= count,
                count == buckets(frames as int),
                mip@.len() == b,
                forall|j: int|
                    0 <= j < b ==> (#[trigger] mip@[j]) == frame_extrema(
                        samples@,
                        channels as int,
                        bucket_start(j, frames as int),
                        bucket_end(j, frames as int),
                    ),
            decreases count - b,
        {
            let (start, end) = bucket_bounds(b, frames);
            mip.push(extrema(&samples, channels, start, end));
            b += 1;
        }
        WaveformPeaks { samples, channels, frames, mip: Arc::new(mip) }
    }

    /// Whether the window has no frames.
    pub fn is_empty(&self) -> (empty: bool)
        ensures
            empty == (self.frames == 0),
    {
        self.frames == 0
    }

    /// How many frames the window has.
    pub fn frames(&self) -> (frames: usize)
        ensures
            frames == self.frames,
    {
        self.frames
    }

    fn one_column(&self, span: ColumnSpan) -> (range: (i32, i32))
        ensures
            range == self.column(span),
    {
        match span {
            ColumnSpan::Frames { start, end } => {
                let from: usize = if start < self.frames { start } else { self.frames };
                let until: usize = if from < self.frames {
                    let wanted: usize = if end > from + 1 { end } else { from + 1 };
                    if wanted < self.frames {
                        wanted
                    } else {
                        self.frames
                    }
                } else {
                    self.frames
                };
                extrema(&self.samples, self.channels, from, until)
            },
            ColumnSpan::Buckets { start, end } => {
                let len: usize = self.mip.len();
                if start >= len {
                    return (0, 0);
                }
                let wanted: usize = if end > start + 1 { end } else { start + 1 };
                let until: usize = if wanted < len { wanted } else { len };
                let mut low: i32 = 0;
                let mut high: i32 = 0;
                let mut b: usize = start;
                while b < until
                    invariant
                        start <= b <= until <= self.mip@.len(),
                        (low, high) == bucket_extrema(self.mip@, start as int, b as int),
                    decreases until - b,
                {
                    let (bucket_low, bucket_high) = self.mip[b];
                    if bucket_low < low {
                        low = bucket_low;
                    }
                    if bucket_high > high {
                        high = bucket_high;
                    }
                    b += 1;
                }
                (low, high)
            },
        }
    }

    /// One low/high pair per pixel column.
    pub fn columns(&self, spans: &Vec<ColumnSpan>) -> (columns: Vec<(i32, i32)>)
        ensures
            columns@.len() == spans@.len(),
            forall|x: int|
                0 <= x < spans@.len() ==> (#[trigger] columns@[x]) == self.column(spans@[x]),
    {
        let mut columns: Vec<(i32, i32)> = Vec::new();
        let mut x: usize = 0;
        while x < spans.len()
            invariant
                x <= spans@.len(),
                columns@.len() == x,
                forall|j: int|
                    0 <= j < x ==> (#[trigger] columns@[j]) == self.column(spans@[j]),
            decreases spans@.len() - x,
        {
            columns.push(self.one_column(spans[x]));
            x += 1;
        }
        columns
    }
}

// ------------------------------------------------------------------- laws

/// A column's low never lies above silence, nor its high below.
pub proof fn law_peaks_enclose_silence(samples: Seq<i32>, start: int, end: int)
    ensures
        lowest(samples, start, end) <= 0 <= highest(samples, start, end),
    decreases end - start,
{
    if start < end {
        law_peaks_enclose_silence(samples, start, end - 1);
    }
}

/// Every sample of a range lies between its low and its high.
pub proof fn law_peaks_enclose_every_sample(samples: Seq<i32>, start: int, end: int, i: int)
    requires
        start <= i < end,
    ensures
        lowest(samples, start, end) <= samples[i] <= highest(samples, start, end),
    decreases end - start,
{
    if i < end - 1 {
        law_peaks_enclose_every_sample(samples, start, end - 1, i);
    }
}

/// The low and the high of a range are samples of it, or silence.
pub proof fn law_peaks_are_samples_or_silence(samples: Seq<i32>, start: int, end: int)
    ensures
        lowest(samples, start, end) == 0 || exists|i: int|
            start <= i < end && #[trigger] samples[i] == lowest(samples, start, end),
        highest(samples, start, end) == 0 || exists|i: int|
            start <= i < end && #[trigger] samples[i] == highest(samples, start, end),
    decreases end - start,
{
    if start < end {
        law_peaks_are_samples_or_silence(samples, start, end - 1);
        let last = end - 1;
        assert(samples[last] == samples[end - 1]);
    }
}

/// A wider range never has lower peaks.
pub proof fn law_wider_ranges_have_wider_peaks(
    samples: Seq<i32>,
    start: int,
    end: int,
    inner_start: int,
    inner_end: int,
)
    requires
        start <= inner_start,
        inner_end <= end,
    ensures
        lowest(samples, start, end) <= lowest(samples, inner_start, inner_end),
        highest(samples, inner_start, inner_end) <= highest(samples, start, end),
    decreases inner_end - inner_start,
{
    law_peaks_enclose_silence(samples, start, end);
    if inner_start < inner_end {
        law_wider_ranges_have_wider_peaks(samples, start, end, inner_start, inner_end - 1);
        law_peaks_enclose_every_sample(samples, start, end, inner_end - 1);
    }
}

proof fn lemma_joined_range(samples: Seq<i32>, start: int, a: int, b: int, end: int)
    requires
        start <= b <= a <= end,
    ensures
        lowest(samples, start, end) == if lowest(samples, start, a) < lowest(samples, b, end) {
            lowest(samples, start, a)
        } else {
            lowest(samples, b, end)
        },
        highest(samples, start, end) == if highest(samples, start, a) > highest(samples, b, end) {
            highest(samples, start, a)
        } else {
            highest(samples, b, end)
        },
    decreases end - a,
{
    law_wider_ranges_have_wider_peaks(samples, start, a, b, a);
    if a < end {
        lemma_joined_range(samples, start, a, b, end - 1);
    }
}

/// Read from the overview, a column shows exactly the peaks of the samples
/// that its buckets cover.
pub proof fn law_the_overview_agrees_with_the_samples(peaks: WaveformPeaks, start: int, end: int)
    requires
        peaks.wf(),
        0 <= start < end <= peaks.mip@.len(),
    ensures
        bucket_extrema(peaks.mip@, start, end) == frame_extrema(
            peaks.samples@,
            peaks.channels as int,
            bucket_start(start, peaks.frames as int),
            bucket_end(end - 1, peaks.frames as int),
        ),
    decreases end - start,
{
    let samples = peaks.samples@;
    let channels = peaks.channels as int;
    let frames = peaks.frames as int;
    let len = samples.len() as int;
    let last = end - 1;
    let here = bucket_start(last, frames);
    let until = bucket_end(last, frames);
    lemma_bucket(last, frames);
    assert(peaks.mip@[last] == frame_extrema(samples, channels, here, until));
    law_peaks_enclose_silence(
        samples,
        sample_of(here, channels, len),
        sample_of(until, channels, len),
    );
    if start < last {
        law_the_overview_agrees_with_the_samples(peaks, start, last);
        lemma_starts_grow(frames, start, last);
        lemma_bucket(last - 1, frames);
        let first = bucket_start(start, frames);
        let before = bucket_end(last - 1, frames);
        assert(first * channels <= here * channels <= before * channels <= until * channels)
            by (nonlinear_arith)
            requires
                first <= here <= before <= until,
                channels > 0,
        ;
        lemma_joined_range(
            samples,
            sample_of(first, channels, len),
            sample_of(before, channels, len),
            sample_of(here, channels, len),
            sample_of(until, channels, len),
        );
    } else {
        assert(bucket_extrema(peaks.mip@, start, start) == (0i32, 0i32));
    }
}

proof fn lemma_starts_grow(frames: int, start: int, last: int)
    requires
        0 <= start <= last < buckets(frames),
        frames >= 0,
    ensures
        bucket_start(start, frames) <= bucket_start(last, frames),
    decreases last - start,
{
    if start < last {
        lemma_starts_grow(frames, start, last - 1);
        lemma_bucket(last - 1, frames);
    }
}

/// The buckets cover the window without a gap: the first starts with it, the
/// last ends with it, and none starts after the one before it ends.
pub proof fn law_the_buckets_cover_the_window(frames: int, bucket: int)
    requires
        frames >= 0,
        0 <= bucket < buckets(frames),
    ensures
        bucket_start(0, frames) == 0,
        bucket_end(buckets(frames) - 1, frames) == frames,
        0 <= bucket_start(bucket, frames) <= bucket_end(bucket, frames) <= frames,
        bucket + 1 < buckets(frames) ==> bucket_start(bucket + 1, frames) <= bucket_end(
            bucket,
            frames,
        ),
{
    let shared = shared_frames(frames);
    let count = buckets(frames);
    lemma_bucket(bucket, frames);
    assert(0 * shared == 0 && 0int / count == 0) by (nonlinear_arith)
        requires
            count >= 1,
    ;
    assert((count * shared + count - 1) / count >= shared) by (nonlinear_arith)
        requires
            count >= 1,
            shared >= 1,
    ;
}

/// At every zoom a column's low lies at or below its high: both a column read
/// from the samples and one read from the overview enclose silence.
pub proof fn law_a_column_never_runs_upside_down(peaks: WaveformPeaks, span: ColumnSpan)
    requires
        peaks.wf(),
    ensures
        peaks.column(span).0 <= 0 <= peaks.column(span).1,
{
    match span {
        ColumnSpan::Frames { start, end } => {
            let len = peaks.samples@.len() as int;
            let channels = peaks.channels as int;
            let from = if start < peaks.frames {
                start as int
            } else {
                peaks.frames as int
            };
            let wanted = if end > from + 1 {
                end as int
            } else {
                from + 1
            };
            let until = if wanted < peaks.frames {
                wanted
            } else {
                peaks.frames as int
            };
            law_peaks_enclose_silence(
                peaks.samples@,
                sample_of(from, channels, len),
                sample_of(until, channels, len),
            );
        },
        ColumnSpan::Buckets { start, end } => {
            let len = peaks.mip@.len() as int;
            let wanted = if end > start + 1 {
                end as int
            } else {
                start + 1
            };
            lemma_buckets_enclose_silence(
                peaks.mip@,
                if start < len {
                    start as int
                } else {
                    len
                },
                if wanted < len {
                    wanted
                } else {
                    len
                },
            );
        },
    }
}

proof fn lemma_buckets_enclose_silence(mip: Seq<(i32, i32)>, start: int, end: int)
    ensures
        bucket_extrema(mip, start, end).0 <= 0 <= bucket_extrema(mip, start, end).1,
    decreases end - start,
{
    if start < end {
        lemma_buckets_enclose_silence(mip, start, end - 1);
    }
}

/// A column read from the samples encloses every sample of the frames it spans,
/// of every channel; one that spans no frame shows the frame it starts at.
pub proof fn law_a_column_encloses_its_frames(
    peaks: WaveformPeaks,
    start: usize,
    end: usize,
    frame: int,
    channel: int,
)
    requires
        peaks.wf(),
        start <= frame < end || start == frame,
        frame < peaks.frames,
        0 <= channel < peaks.channels,
    ensures
        ({
            let column = peaks.column(ColumnSpan::Frames { start, end });
            let sample = peaks.samples@[frame * peaks.channels + channel];
            column.0 <= sample <= column.1
        }),
{
    let channels = peaks.channels as int;
    let frames = peaks.frames as int;
    let len = peaks.samples@.len() as int;
    let until: int = if end > start + 1 {
        end as int
    } else {
        start + 1
    };
    let stop = if until < frames {
        until
    } else {
        frames
    };
    lemma_frames_fit(peaks);
    assert(start * channels <= frame * channels && frame * channels + channels <= stop * channels
        && stop * channels <= frames * channels) by (nonlinear_arith)
        requires
            start <= frame < stop <= frames,
            channels > 0,
    ;
    law_peaks_enclose_every_sample(
        peaks.samples@,
        start * channels,
        stop * channels,
        frame * channels + channel,
    );
}

/// The low and the high of a column read from the samples are silence, or
/// samples of the frames that the column spans.
pub proof fn law_a_column_shows_samples_of_its_frames(
    peaks: WaveformPeaks,
    start: usize,
    end: usize,
)
    requires
        peaks.wf(),
        start < end,
    ensures
        ({
            let column = peaks.column(ColumnSpan::Frames { start, end });
            let shown = |value: i32|
                value == 0 || exists|i: int|
                    start * peaks.channels <= i < end * peaks.channels && i < peaks.frames
                        * peaks.channels && #[trigger] peaks.samples@[i] == value;
            shown(column.0) && shown(column.1)
        }),
{
    let channels = peaks.channels as int;
    let frames = peaks.frames as int;
    lemma_frames_fit(peaks);
    let from: int = if start < frames {
        start as int
    } else {
        frames
    };
    let stop: int = if end < frames {
        end as int
    } else {
        frames
    };
    assert(from * channels <= frames * channels && stop * channels <= frames * channels && stop
        * channels <= end * channels && (from == start || from * channels == stop * channels))
        by (nonlinear_arith)
        requires
            from <= frames,
            stop <= frames,
            stop <= end,
            from == start || from == stop,
            channels > 0,
    ;
    law_peaks_are_samples_or_silence(peaks.samples@, from * channels, stop * channels);
}

/// The frames of the window are the whole frames that its samples make up.
proof fn lemma_frames_fit(peaks: WaveformPeaks)
    requires
        peaks.wf(),
    ensures
        peaks.frames * peaks.channels <= peaks.samples@.len() < (peaks.frames + 1)
            * peaks.channels,
{
    let len = peaks.samples@.len() as int;
    let channels = peaks.channels as int;
    vstd::arithmetic::div_mod::lemma_fundamental_div_mod(len, channels);
    vstd::arithmetic::div_mod::lemma_mod_bound(len, channels);
    assert(channels * (len / channels) == (len / channels) * channels) by (nonlinear_arith);
    assert((len / channels + 1) * channels == (len / channels) * channels + channels)
        by (nonlinear_arith);
}

/// The window has as many frames as its samples make up, none left over.
pub proof fn law_the_window_has_its_frames(peaks: WaveformPeaks)
    requires
        peaks.wf(),
    ensures
        peaks.frames * peaks.channels <= peaks.samples@.len() < (peaks.frames + 1)
            * peaks.channels,
        peaks.mip@.len() >= 1,
        peaks.mip@.len() <= MIP_BUCKETS,
        1 <= peaks.frames <= MIP_BUCKETS ==> peaks.mip@.len() == peaks.frames,
        peaks.frames > MIP_BUCKETS ==> peaks.mip@.len() == MIP_BUCKETS,
{
    lemma_frames_fit(peaks);
}

/// A column read from the overview encloses every sample of the frames whose
/// share of the window falls into its buckets, of every channel.
pub proof fn law_a_column_encloses_its_buckets(
    peaks: WaveformPeaks,
    start: usize,
    end: usize,
    frame: int,
    channel: int,
)
    requires
        peaks.wf(),
        start < end <= peaks.mip@.len(),
        0 <= frame < peaks.frames,
        start * peaks.frames <= frame * peaks.mip@.len() < end * peaks.frames,
        0 <= channel < peaks.channels,
    ensures
        ({
            let column = peaks.column(ColumnSpan::Buckets { start, end });
            let sample = peaks.samples@[frame * peaks.channels + channel];
            column.0 <= sample <= column.1
        }),
{
    let channels = peaks.channels as int;
    let frames = peaks.frames as int;
    let count = peaks.mip@.len() as int;
    let len = peaks.samples@.len() as int;
    law_the_overview_agrees_with_the_samples(peaks, start as int, end as int);
    lemma_frames_fit(peaks);
    let first = bucket_start(start as int, frames);
    let stop = bucket_end(end - 1, frames);
    assert(first == start * frames / count);
    assert(first <= frame) by {
        vstd::arithmetic::div_mod::lemma_div_is_ordered(start * frames, frame * count, count);
        vstd::arithmetic::div_mod::lemma_div_by_multiple(frame, count);
    }
    assert(frame < stop) by {
        let wanted = end * frames;
        assert((end - 1 + 1) * frames == wanted) by (nonlinear_arith)
            requires
                wanted == end * frames,
        ;
        let rounded = (wanted + count - 1) / count;
        assert(frame * count + count <= wanted + count - 1);
        assert((frame + 1) * count == frame * count + count) by (nonlinear_arith);
        vstd::arithmetic::div_mod::lemma_div_is_ordered(
            (frame + 1) * count,
            wanted + count - 1,
            count,
        );
        vstd::arithmetic::div_mod::lemma_div_by_multiple(frame + 1, count);
    }
    lemma_bucket(start as int, frames);
    lemma_bucket(end - 1, frames);
    assert(first * channels <= frame * channels && frame * channels + channels <= stop * channels
        && stop * channels <= frames * channels) by (nonlinear_arith)
        requires
            first <= frame < stop <= frames,
            channels > 0,
    ;
    law_peaks_enclose_every_sample(
        peaks.samples@,
        first * channels,
        stop * channels,
        frame * channels + channel,
    );
}

/// The low and the high of a column read from the overview are silence, or
/// samples of the window.
pub proof fn law_an_overview_column_shows_samples(
    peaks: WaveformPeaks,
    start: usize,
    end: usize,
)
    requires
        peaks.wf(),
        start < end <= peaks.mip@.len(),
    ensures
        ({
            let column = peaks.column(ColumnSpan::Buckets { start, end });
            let shown = |value: i32|
                value == 0 || exists|i: int|
                    0 <= i < peaks.samples@.len() && (i / peaks.channels as int)
                        * peaks.mip@.len() < end * peaks.frames && #[trigger] peaks.samples@[i]
                        == value;
            shown(column.0) && shown(column.1)
        }),
{
    let channels = peaks.channels as int;
    let frames = peaks.frames as int;
    let count = peaks.mip@.len() as int;
    let samples = peaks.samples@;
    let len = samples.len() as int;
    law_the_overview_agrees_with_the_samples(peaks, start as int, end as int);
    lemma_frames_fit(peaks);
    lemma_bucket(start as int, frames);
    lemma_bucket(end - 1, frames);
    let first = bucket_start(start as int, frames);
    let stop = bucket_end(end - 1, frames);
    let from = sample_of(first, channels, len);
    let until = sample_of(stop, channels, len);
    assert(0 <= first * channels && stop * channels <= frames * channels) by (nonlinear_arith)
        requires
            0 <= first,
            stop <= frames,
            channels > 0,
    ;
    law_peaks_are_samples_or_silence(samples, from, until);
    assert forall|i: int| #![trigger samples[i]] from <= i < until implies 0 <= i < len && (i / channels) * count < end
        * frames by {
        assert(i / channels < stop) by (nonlinear_arith)
            requires
                0 <= i < stop * channels,
                channels > 0,
        ;
        lemma_bucket_stop(i / channels, end as int, frames, count);
    }
}

proof fn lemma_bucket_stop(frame: int, end: int, frames: int, count: int)
    requires
        frames >= 0,
        count == buckets(frames),
        0 < end <= count,
        0 <= frame < bucket_end(end - 1, frames),
    ensures
        frame * count < end * frames,
{
    let shared = shared_frames(frames);
    let wanted = end * shared;
    assert((end - 1 + 1) * shared == wanted) by (nonlinear_arith)
        requires
            wanted == end * shared,
    ;
    let rounded = (wanted + count - 1) / count;
    assert(frame < rounded);
    vstd::arithmetic::div_mod::lemma_fundamental_div_mod(wanted + count - 1, count);
    vstd::arithmetic::div_mod::lemma_mod_bound(wanted + count - 1, count);
    assert((frame + 1) * count <= count * rounded) by (nonlinear_arith)
        requires
            frame + 1 <= rounded,
            count > 0,
    ;
    assert((frame + 1) * count == frame * count + count) by (nonlinear_arith);
}

/// A frame is in view if and only if it lies inside the window and between the
/// edges of the view.
pub proof fn law_the_view_shows_the_frames_between_its_edges(
    start: u64,
    end: u64,
    window: u64,
    frame: int,
)
    ensures
        ({
            let (from, until) = frames_in_view(start, end, window);
            from <= frame < until <==> start <= frame < end && frame < window
        }),
{
}

/// The marks of the frequency axis climb through what can be heard, from 20 Hz
/// to 20 kHz.
pub proof fn law_the_marks_climb_through_what_can_be_heard(i: int, j: int)
    requires
        0 <= i < j < ruler_hz().len(),
    ensures
        20 <= ruler_hz()[i] < ruler_hz()[j] <= 20_000,
        ruler_hz()[0] == 20,
        ruler_hz()[ruler_hz().len() - 1] == 20_000,
{
}

/// A mark is labelled with its hertz, or with its thousands and a `k`.
pub proof fn law_a_mark_says_its_frequency(hz: u32)
    ensures
        hz < 1_000 ==> crate::text::number(hz_text(hz)) == hz,
        hz >= 1_000 ==> hz_text(hz).len() > 0 && hz_text(hz).last() == 'k'
            && crate::text::number(hz_text(hz).drop_last()) == hz / 1_000,
{
    reveal_strlit("k");
    crate::text::law_a_number_is_read_back(hz as nat);
    crate::text::law_a_number_is_read_back((hz / 1_000) as nat);
    if hz >= 1_000 {
        assert(hz_text(hz).drop_last() =~= crate::text::decimal((hz / 1_000) as nat));
    }
}

/// The representations of the source are told apart by their names.
pub proof fn law_views_have_names_of_their_own(a: CanvasView, b: CanvasView)
    requires
        a != b,
    ensures
        a.name() != b.name(),
{
    reveal_strlit("Wave");
    reveal_strlit("Spectro");
    reveal_strlit("Both");
    assert("Wave"@[0] == 'W' && "Both"@[0] == 'B' && "Spectro"@.len() == 7);
}

/// The view never reaches past the edited window, and never runs backwards.
pub proof fn law_the_view_stays_inside_the_window(start: u64, end: u64, window: u64)
    ensures
        frames_in_view(start, end, window).0 <= frames_in_view(start, end, window).1 <= window,
{
}

/// A mark of the frequency axis is shown if and only if half the sample rate
/// reaches it.
pub proof fn law_marks_stop_at_half_the_sample_rate(sample_rate: u32, i: int)
    requires
        0 <= i < ruler_hz().len(),
    ensures
        (i < ruler_count(sample_rate)) == (2 * ruler_hz()[i] <= sample_rate),
{
}

/// The overview has at most as many buckets as sixteen bits count.
pub proof fn law_the_overview_is_bounded()
    ensures
        MIP_BUCKETS == 256 * 256,
{
}

} // verus!
