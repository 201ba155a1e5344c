//! Which frames an offline render reads, processes and writes back.

use vstd::prelude::*;

use crate::target::{AudioRangeSelection, AudioToolKind};
use crate::timeline::{AudioClipStretchState, TimelineState};

verus! {

/// The source frames that a clip plays.
pub open spec fn stretch_window<T>(stretch: AudioClipStretchState<T>) -> (u64, u64) {
    (
        stretch.source_start_samples,
        if stretch.source_end_samples > stretch.source_start_samples {
            stretch.source_end_samples
        } else {
            stretch.original_duration_samples
        },
    )
}

/// The source frames that a clip plays; none when there is no such clip.
pub fn clip_source_window<T>(timeline: &TimelineState<T>, clip_id: &str) -> (window: (u64, u64))
    ensures
        window == match timeline.place_of(clip_id@) {
            Some(place) => stretch_window(timeline.clip_at(place).stretch),
            None => (0u64, 0u64),
        },
{
    match timeline.find_clip(clip_id) {
        Some((_, clip)) => {
            let start: u64 = clip.stretch.source_start_samples;
            let end: u64 = if clip.stretch.source_end_samples > start {
                clip.stretch.source_end_samples
            } else {
                clip.stretch.original_duration_samples
            };
            (start, end)
        },
        None => (0, 0),
    }
}

/// The frames of a file that a render reads: the clip's window, cut to the
/// file, or the rest of the file when the window has no end.
pub open spec fn audible_window(source_start: u64, source_end: u64, total_frames: u64) -> (
    u64,
    u64,
) {
    let start = if source_start < total_frames {
        source_start
    } else {
        total_frames
    };
    (
        start,
        if source_end > start && source_end < total_frames {
            source_end
        } else {
            total_frames
        },
    )
}

/// The frames of a file that a render reads.
///
/// Only the clip's own window is rendered: a source shared by other clips must
/// not be cropped for them.
pub fn render_window(source_start: u64, source_end: u64, total_frames: u64) -> (window: (u64, u64))
    ensures
        window == audible_window(source_start, source_end, total_frames),
{
    let start: u64 = if source_start < total_frames { source_start } else { total_frames };
    let end: u64 = if source_end > start {
        if source_end < total_frames {
            source_end
        } else {
            total_frames
        }
    } else {
        total_frames
    };
    (start, end)
}

/// How much of the window is processed.
#[derive(Clone, Copy, PartialEq, Eq, Structural, Debug)]
pub enum RenderRegion {
    /// All of it.
    Whole,
    /// The frames from `start` to `end`, counted from the window's start; the
    /// rest stays as it is.
    Part { start: u64, end: u64 },
}

/// Whether a tool always processes the whole clip.
pub open spec fn whole_clip_tool(kind: AudioToolKind) -> bool {
    kind == AudioToolKind::TimePitch || kind == AudioToolKind::Resample || kind
        == AudioToolKind::SpectralProcessor
}

/// Frames after the window's start, or none before it.
pub open spec fn frames_after(frame: i64, window_start: u64) -> int {
    if frame > window_start {
        frame - window_start
    } else {
        0
    }
}

/// Frames after the window's start, or none before it.
pub fn local_frame(frame: i64, window_start: u64) -> (local: u64)
    ensures
        local == frames_after(frame, window_start),
        local <= i64::MAX,
{
    if frame <= 0 {
        return 0;
    }
    (frame as u64).saturating_sub(window_start)
}

/// How much of the window a tool processes.
pub fn render_region(
    kind: AudioToolKind,
    selection: Option<AudioRangeSelection>,
    window_start: u64,
) -> (region: RenderRegion)
    ensures
        region == match selection {
            Some(selection) if !whole_clip_tool(kind) => {
                let start = frames_after(selection.start_frame, window_start);
                let end = frames_after(selection.end_frame, window_start);
                RenderRegion::Part {
                    start: start as u64,
                    end: (if end > start {
                        end
                    } else {
                        start
                    }) as u64,
                }
            },
            _ => RenderRegion::Whole,
        },
{
    match kind {
        AudioToolKind::TimePitch | AudioToolKind::Resample | AudioToolKind::SpectralProcessor => {
            return RenderRegion::Whole;
        },
        _ => {},
    }
    match selection {
        Some(selection) => {
            let start: u64 = local_frame(selection.start_frame, window_start);
            let end: u64 = local_frame(selection.end_frame, window_start);
            RenderRegion::Part {
                start,
                end: if end > start {
                    end
                } else {
                    start
                },
            }
        },
        None => RenderRegion::Whole,
    }
}

/// What a render does with the samples it has cut out.
#[derive(Clone, Copy, PartialEq, Eq, Structural, Debug)]
pub enum RenderStep {
    /// The window is processed.
    ProcessWindow,
    /// The region is processed and put back from this frame of the window on.
    ProcessRegion { start: u64 },
    /// The window stays as it is.
    Keep,
}

/// What a render does with the samples it has cut out: those of the window and,
/// where only a part of it is to be processed, those of the region. There has to
/// be something in the window; a region without samples leaves it as it is.
pub fn render_step(
    window_samples: usize,
    region: RenderRegion,
    region_samples: usize,
) -> (step: Result<RenderStep, String>)
    ensures
        match step {
            Ok(step) => window_samples > 0 && step == match region {
                RenderRegion::Whole => RenderStep::ProcessWindow,
                RenderRegion::Part { start, .. } => if region_samples > 0 {
                    RenderStep::ProcessRegion { start }
                } else {
                    RenderStep::Keep
                },
            },
            Err(error) => window_samples == 0 && error@ == "clip source window is empty"@,
        },
{
    if window_samples == 0 {
        return Err("clip source window is empty".to_owned());
    }
    Ok(
        match region {
            RenderRegion::Whole => RenderStep::ProcessWindow,
            RenderRegion::Part { start, .. } => if region_samples > 0 {
                RenderStep::ProcessRegion { start }
            } else {
                RenderStep::Keep
            },
        },
    )
}

/// Frequency bins over which a spectral gain fades in and out at the edges of
/// its band.
pub const SPECTRAL_FADE_BINS: usize = 4;

/// The frames of a spectral selection inside the window: all of it when there
/// is no selection.
pub fn spectral_frames(selection: Option<(i64, i64)>, window_start: u64) -> (frames: (i64, i64))
    ensures
        frames == match selection {
            Some((start, end)) => (
                frames_after(start, window_start) as i64,
                frames_after(end, window_start) as i64,
            ),
            None => (0i64, i64::MAX),
        },
{
    match selection {
        Some((start, end)) => (
            local_frame(start, window_start) as i64,
            local_frame(end, window_start) as i64,
        ),
        None => (0, i64::MAX),
    }
}

/// Frames of a buffer of interleaved samples.
pub fn frame_count(samples: usize, channels: usize) -> (frames: u64)
    ensures
        frames == samples as nat / if channels > 1 {
            channels as nat
        } else {
            1
        },
{
    let channels: usize = if channels > 1 { channels } else { 1 };
    (samples / channels) as u64
}

/// One channel spread over all of them, interleaved.
pub open spec fn spread<T>(mono: Seq<T>, channels: nat) -> Seq<T> {
    Seq::new(mono.len() * channels, |i: int| mono[i / channels as int])
}

/// One channel spread over all of them, interleaved.
pub fn spread_mono<T: Copy>(mono: &Vec<T>, channels: usize) -> (out: Vec<T>)
    requires
        mono@.len() * channels <= usize::MAX,
    ensures
        out@ == spread(
            mono@,
            if channels > 1 {
                channels as nat
            } else {
                1
            },
        ),
{
    let channels: usize = if channels > 1 { channels } else { 1 };
    let ghost width = channels as nat;
    let mut out: Vec<T> = Vec::new();
    let mut i: usize = 0;
    while i < mono.len()
        invariant
            width == channels,
            channels >= 1,
            i <= mono@.len(),
            out@ == spread(mono@.take(i as int), width),
        decreases mono@.len() - i,
    {
        let sample = mono[i];
        let ghost before = out@;
        let mut c: usize = 0;
        while c < channels
            invariant
                c <= channels,
                out@ == before + Seq::new(c as nat, |j: int| sample),
            decreases channels - c,
        {
            out.push(sample);
            proof {
                assert(out@ =~= before + Seq::new((c + 1) as nat, |j: int| sample));
            }
            c += 1;
        }
        proof {
            lemma_spread_step(mono@, i as int, width);
        }
        i += 1;
    }
    proof {
        assert(mono@.take(i as int) =~= mono@);
    }
    out
}

proof fn lemma_spread_step<T>(mono: Seq<T>, i: int, width: nat)
    requires
        0 <= i < mono.len(),
        width >= 1,
    ensures
        spread(mono.take(i + 1), width) == spread(mono.take(i), width) + Seq::new(
            width,
            |j: int| mono[i],
        ),
{
    let next = spread(mono.take(i + 1), width);
    let before = spread(mono.take(i), width);
    let added = Seq::new(width, |j: int| mono[i]);
    assert((i + 1) * width == i * width + width) by (nonlinear_arith);
    assert(mono.take(i + 1).len() == i + 1);
    assert(mono.take(i).len() == i);
    assert(next.len() == before.len() + width);
    assert forall|k: int| 0 <= k < next.len() implies next[k] == (before + added)[k] by {
        if k < before.len() {
            assert(k / width as int <= i - 1 && k / width as int >= 0) by (nonlinear_arith)
                requires
                    0 <= k < i * width,
                    width >= 1,
            ;
        } else {
            assert(k / width as int == i) by (nonlinear_arith)
                requires
                    i * width <= k < i * width + width,
                    width >= 1,
            ;
        }
    }
    assert(next =~= before + added);
}

// ------------------------------------------------------------------- laws

/// A render never reads outside the file, and reads something whenever the
/// clip starts inside it.
pub proof fn law_a_render_stays_inside_the_file(start: u64, end: u64, total: u64)
    ensures
        audible_window(start, end, total).0 <= audible_window(start, end, total).1 <= total,
        start < total ==> audible_window(start, end, total).0 < audible_window(
            start,
            end,
            total,
        ).1,
{
}

/// A render reads no frame outside the clip's own window, where it has one.
pub proof fn law_a_render_stays_inside_the_clip(start: u64, end: u64, total: u64)
    requires
        start < end,
        start < total,
    ensures
        audible_window(start, end, total).0 == start,
        audible_window(start, end, total).1 <= end,
{
}

/// Spread over all channels, each channel of each frame holds the mono sample.
pub proof fn law_every_channel_holds_the_mono_sample<T>(
    mono: Seq<T>,
    channels: nat,
    frame: int,
    channel: int,
)
    requires
        0 <= frame < mono.len(),
        0 <= channel < channels,
    ensures
        spread(mono, channels).len() == mono.len() * channels,
        frame * channels + channel < spread(mono, channels).len(),
        spread(mono, channels)[frame * channels + channel] == mono[frame],
{
    let i = frame * channels + channel;
    assert(i / channels as int == frame) by (nonlinear_arith)
        requires
            i == frame * channels + channel,
            0 <= channel < channels,
    ;
    assert(0 <= i < mono.len() * channels) by (nonlinear_arith)
        requires
            i == frame * channels + channel,
            0 <= frame < mono.len(),
            0 <= channel < channels,
    ;
}

/// A render reads a frame if and only if the file has it and the clip plays it;
/// a clip without an end plays to the end of the file.
pub proof fn law_a_render_reads_the_clip(start: u64, end: u64, total: u64, frame: int)
    ensures
        ({
            let (from, until) = audible_window(start, end, total);
            let endless = end <= start || end <= total && total <= start;
            from <= frame < until <==> start <= frame < total && (endless || frame < end)
        }),
{
}

/// What a clip plays starts at its trim, and ends at its trim or with its
/// source.
pub proof fn law_a_clip_plays_between_its_trims<T>(stretch: AudioClipStretchState<T>)
    ensures
        stretch_window(stretch).0 == stretch.source_start_samples,
        stretch.source_start_samples < stretch.source_end_samples ==> stretch_window(stretch).1
            == stretch.source_end_samples,
        stretch.source_end_samples <= stretch.source_start_samples ==> stretch_window(stretch).1
            == stretch.original_duration_samples,
{
}

/// Frames are counted from the window's start, and none lies before it.
pub proof fn law_frames_are_counted_from_the_window(frame: i64, window_start: u64)
    ensures
        frames_after(frame, window_start) >= 0,
        frame >= window_start ==> window_start + frames_after(frame, window_start) == frame,
        frame < window_start ==> frames_after(frame, window_start) == 0,
{
}

/// What is processed of a selection lies in it: every frame of the region, put
/// back where it stands in the source, is a selected one, and every selected
/// frame from the window's start on is in the region.
pub proof fn law_a_region_is_what_is_selected(
    selection: AudioRangeSelection,
    window_start: u64,
    frame: int,
)
    requires
        frame >= 0,
    ensures
        frames_after(selection.start_frame, window_start) <= frame < frames_after(
            selection.end_frame,
            window_start,
        ) <==> selection.start_frame <= window_start + frame < selection.end_frame,
{
}

/// The tools that change a clip's length or work on its spectrum take all of it,
/// and the others keep to the selection.
pub proof fn law_some_tools_take_the_whole_clip(kind: AudioToolKind)
    ensures
        whole_clip_tool(kind) <==> kind is TimePitch || kind is Resample
            || kind is SpectralProcessor,
{
}

/// A spectral gain fades over four bins.
pub proof fn law_a_spectral_gain_fades_over_four_bins()
    ensures
        SPECTRAL_FADE_BINS == 2 * 2,
{
}

} // verus!
