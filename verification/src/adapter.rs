//! Turns the arrangement and the peak cache into what the audio editor draws.

use vstd::prelude::*;

use crate::text::decimal_text;
use crate::timeline::{AudioImportState, ClipState, ClipType, TimelineState, TrackState};

verus! {

/// Fewest peak columns drawn across the visible part of a clip.
pub const MIN_EDITOR_COLUMNS: usize = 16;

/// Most peak columns drawn across the visible part of a clip.
pub const MAX_EDITOR_COLUMNS: usize = 2048;

/// Most samples drawn one by one.
pub const MAX_SAMPLE_POINTS: usize = 4096;

/// Widest range of frames that is drawn sample by sample.
pub const MAX_SAMPLE_VIEW_FRAMES: u64 = 32768;

// ---------------------------------------------------------- import status

/// Percent shown while peaks are being built.
pub open spec fn shown_percent(percent: u32) -> nat {
    if percent > 100 {
        100
    } else {
        percent as nat
    }
}

/// The label of an import, whether it failed, and whether progress is shown.
pub open spec fn import_status(import: AudioImportState) -> (Seq<char>, bool, bool) {
    match import {
        AudioImportState::Pending => ("Queued"@, false, true),
        AudioImportState::Probing => ("Probing metadata…"@, false, true),
        AudioImportState::Decoding => ("Preparing waveform…"@, false, true),
        AudioImportState::GeneratingPeaks { percent } => (
            "Building waveform… "@ + crate::text::decimal(shown_percent(percent)) + "%"@,
            false,
            true,
        ),
        AudioImportState::Ready => ("Ready"@, false, false),
        AudioImportState::Failed { message } => (message@, true, false),
    }
}

/// The label of an import, whether it failed, and whether progress is shown.
pub fn import_status_label(import: &AudioImportState) -> (status: (String, bool, bool))
    ensures
        (status.0@, status.1, status.2) == import_status(*import),
{
    match import {
        AudioImportState::Pending => ("Queued".to_owned(), false, true),
        AudioImportState::Probing => ("Probing metadata…".to_owned(), false, true),
        AudioImportState::Decoding => ("Preparing waveform…".to_owned(), false, true),
        AudioImportState::GeneratingPeaks { percent } => {
            let shown: u64 = if *percent > 100 { 100 } else { *percent as u64 };
            let label = "Building waveform… ".to_owned().concat(&decimal_text(shown)).concat("%");
            (label, false, true)
        },
        AudioImportState::Ready => ("Ready".to_owned(), false, false),
        AudioImportState::Failed { message } => (message.clone(), true, false),
    }
}

// -------------------------------------------------------------- selection

/// The first selected clip that plays audio, and its track.
///
/// The selection is ordered: a MIDI clip selected together with an audio clip
/// leaves the audio clip as the target.
pub fn selected_audio_clip<T>(state: &TimelineState<T>) -> (found: Option<
    (&TrackState<T>, &ClipState<T>),
>)
    ensures
        match found {
            Some((track, clip)) => state.selected_place() matches Some(place) && {
                &&& *track == state.tracks@[place.0]
                &&& *clip == state.clip_at(place)
                &&& clip.clip_type.audio()
                &&& state.clip_is_first(clip.id@, place.0, place.1)
            },
            None => state.selected_place() is None,
        },
{
    let ids = &state.selection.selected_clip_ids;
    let mut i: usize = 0;
    while i < ids.len()
        invariant
            *ids == state.selection.selected_clip_ids,
            i <= ids@.len(),
            forall|j: int| 0 <= j < i ==> !#[trigger] state.selects_audio(j),
        decreases ids@.len() - i,
    {
        if let Some((track, clip)) = state.find_clip(&ids[i]) {
            if clip.clip_type.is_audio() {
                proof {
                    assert(state.selects_audio_first(i as int));
                    let index = choose|index: int| state.selects_audio_first(index);
                    assert(index == i) by {
                        if index < i {
                            assert(!state.selects_audio(index));
                        } else if i < index {
                            assert(!state.selects_audio(i as int));
                        }
                    }
                }
                return Some((track, clip));
            }
        }
        i += 1;
    }
    proof {
        assert forall|index: int| !state.selects_audio_first(index) by {
            if 0 <= index < ids@.len() {
                assert(!state.selects_audio(index));
            }
        }
    }
    None
}

/// Which editor suits the first selected clip.
#[derive(Clone, Copy, PartialEq, Eq, Structural, Debug)]
pub enum ClipTypeHint {
    Audio,
    Midi,
}

/// The editor that suits a clip; a reference video has none.
pub open spec fn hint_for(clip_type: ClipType) -> Option<ClipTypeHint> {
    match clip_type {
        ClipType::Audio { .. } => Some(ClipTypeHint::Audio),
        ClipType::Midi => Some(ClipTypeHint::Midi),
        ClipType::Video => None,
    }
}

/// Which editor suits the first selected clip, whatever it plays.
pub fn clip_type_hint_for_selection<T>(state: &TimelineState<T>) -> (hint: Option<ClipTypeHint>)
    ensures
        hint == if state.selection.selected_clip_ids@.len() == 0 {
            None
        } else {
            match state.place_of(state.selection.selected_clip_ids@[0]@) {
                Some(place) => hint_for(state.clip_at(place).clip_type),
                None => None,
            }
        },
{
    let ids = &state.selection.selected_clip_ids;
    if ids.len() == 0 {
        return None;
    }
    match state.find_clip(&ids[0]) {
        Some((_, clip)) => match clip.clip_type {
            ClipType::Audio { .. } => Some(ClipTypeHint::Audio),
            ClipType::Midi => Some(ClipTypeHint::Midi),
            ClipType::Video => None,
        },
        None => None,
    }
}

// --------------------------------------------------------------- waveform

/// How much of a source's peaks the cache can show.
pub enum WaveformDisplayStatus {
    Ready,
    Partial,
    Pending,
    Error { message: String },
}

/// What the waveform lane shows.
pub struct WaveformViewModel<C, S> {
    pub columns: Vec<C>,
    pub samples: Vec<S>,
    pub ready: bool,
    pub status_label: String,
    pub is_error: bool,
    pub show_progress: bool,
}

/// What the cache and the import say about the waveform lane.
pub enum WaveformStep<C, S> {
    /// Nothing can be drawn; the lane says so.
    Show { model: WaveformViewModel<C, S> },
    /// The cache gave up.
    Failed { message: String },
    /// Peaks are there: draw them.
    Draw,
}

/// Where a clip's peaks come from.
pub enum WaveformSource<'a> {
    Missing { label: &'static str },
    Found { asset_key: &'a String, source_path: &'a String },
}

/// The asset and file behind a clip's waveform, or what is missing.
pub fn waveform_source<'a, T>(clip: &'a ClipState<T>) -> (source: WaveformSource<'a>)
    ensures
        match source {
            WaveformSource::Missing { label } => if clip.clip_type matches ClipType::Audio {
                source_path: Some(_),
            } {
                clip.asset_key is None && label@ == "No source asset"@
            } else {
                label@ == "No source file"@
            },
            WaveformSource::Found { asset_key, source_path } => {
                &&& clip.asset_key == Some(*asset_key)
                &&& clip.clip_type == ClipType::Audio { source_path: Some(*source_path) }
            },
        },
{
    let path = match &clip.clip_type {
        ClipType::Audio { source_path: Some(path) } => path,
        _ => {
            return WaveformSource::Missing { label: "No source file" };
        },
    };
    match &clip.asset_key {
        Some(asset_key) => WaveformSource::Found { asset_key, source_path: path },
        None => WaveformSource::Missing { label: "No source asset" },
    }
}

/// What to do about the waveform lane, given what the cache holds.
pub fn waveform_step<C, S>(
    import: &AudioImportState,
    entry: Option<WaveformDisplayStatus>,
) -> (step: WaveformStep<C, S>)
    ensures
        ({
            let (label, is_error, show_progress) = import_status(*import);
            match entry {
                Some(WaveformDisplayStatus::Ready) => step is Draw,
                Some(WaveformDisplayStatus::Partial) => step is Draw,
                Some(WaveformDisplayStatus::Error { message }) => step == (
                WaveformStep::<C, S>::Failed { message }),
                Some(WaveformDisplayStatus::Pending) => step matches WaveformStep::Show { model }
                    && {
                    &&& model.columns@.len() == 0
                    &&& model.samples@.len() == 0
                    &&& !model.ready
                    &&& model.status_label@ == label
                    &&& !model.is_error
                    &&& model.show_progress
                },
                None => step matches WaveformStep::Show { model } && {
                    &&& model.columns@.len() == 0
                    &&& model.samples@.len() == 0
                    &&& !model.ready
                    &&& model.status_label@ == label
                    &&& model.is_error == is_error
                    &&& model.show_progress == show_progress
                },
            }
        }),
{
    let (label, is_error, show_progress) = import_status_label(import);
    match entry {
        Some(WaveformDisplayStatus::Ready) => WaveformStep::Draw,
        Some(WaveformDisplayStatus::Partial) => WaveformStep::Draw,
        Some(WaveformDisplayStatus::Error { message }) => WaveformStep::Failed { message },
        Some(WaveformDisplayStatus::Pending) => WaveformStep::Show {
            model: WaveformViewModel {
                columns: Vec::new(),
                samples: Vec::new(),
                ready: false,
                status_label: label,
                is_error: false,
                show_progress: true,
            },
        },
        None => WaveformStep::Show {
            model: WaveformViewModel {
                columns: Vec::new(),
                samples: Vec::new(),
                ready: false,
                status_label: label,
                is_error,
                show_progress,
            },
        },
    }
}

/// The waveform lane once columns and samples have been drawn.
pub fn drawn_waveform<C, S>(
    import: &AudioImportState,
    columns: Vec<C>,
    samples: Vec<S>,
) -> (model: WaveformViewModel<C, S>)
    ensures
        model.columns == columns,
        model.samples == samples,
        model.ready == (columns@.len() > 0 || samples@.len() > 0),
        model.status_label@ == if model.ready {
            Seq::<char>::empty()
        } else {
            import_status(*import).0
        },
        !model.is_error,
        model.show_progress == (!model.ready && import_status(*import).2),
{
    let (label, _, show_progress) = import_status_label(import);
    let ready = columns.len() > 0 || samples.len() > 0;
    WaveformViewModel {
        ready,
        columns,
        samples,
        status_label: if ready {
            String::new()
        } else {
            label
        },
        is_error: false,
        show_progress: !ready && show_progress,
    }
}

// ------------------------------------------------------------------ peaks

/// How many peak columns are drawn across a number of visible pixels.
pub fn column_count(visible_pixels: usize) -> (columns: usize)
    ensures
        columns == if visible_pixels < MIN_EDITOR_COLUMNS {
            MIN_EDITOR_COLUMNS
        } else if visible_pixels > MAX_EDITOR_COLUMNS {
            MAX_EDITOR_COLUMNS
        } else {
            visible_pixels
        },
{
    if visible_pixels < MIN_EDITOR_COLUMNS {
        MIN_EDITOR_COLUMNS
    } else if visible_pixels > MAX_EDITOR_COLUMNS {
        MAX_EDITOR_COLUMNS
    } else {
        visible_pixels
    }
}

/// The peak that a source sample falls into.
pub open spec fn peak_index(sample: usize, samples_per_peak: usize) -> usize {
    if samples_per_peak < 1 {
        sample
    } else {
        sample / samples_per_peak
    }
}

/// The peak that a source sample falls into.
pub fn sample_to_peak_index(sample: usize, samples_per_peak: usize) -> (index: usize)
    ensures
        index == peak_index(sample, samples_per_peak),
        index <= sample,
{
    if samples_per_peak < 1 {
        return sample;
    }
    proof {
        vstd::arithmetic::div_mod::lemma_div_is_ordered_by_denominator(
            sample as int,
            1,
            samples_per_peak as int,
        );
    }
    sample / samples_per_peak
}

/// The peaks between two source samples, given in either order.
pub fn peak_range(a: usize, b: usize, samples_per_peak: usize) -> (range: (usize, usize))
    requires
        a < usize::MAX,
        b < usize::MAX,
    ensures
        range.0 == peak_index(if a < b { a } else { b }, samples_per_peak),
        range.1 == peak_index(if a < b { b } else { a }, samples_per_peak) + 1,
        range.0 < range.1,
{
    let low: usize = if a < b { a } else { b };
    let high: usize = if a < b { b } else { a };
    let first: usize = sample_to_peak_index(low, samples_per_peak);
    let last: usize = sample_to_peak_index(high, samples_per_peak);
    proof {
        if samples_per_peak >= 1 {
            vstd::arithmetic::div_mod::lemma_div_is_ordered(
                low as int,
                high as int,
                samples_per_peak as int,
            );
        }
    }
    (first, last + 1)
}

// ---------------------------------------------------------------- samples

/// The frames between two source positions, given in either order, when they
/// are few enough to be drawn one by one.
pub fn sample_range(a: u64, b: u64) -> (range: Option<(u64, u64)>)
    requires
        a < u64::MAX,
        b < u64::MAX,
    ensures
        ({
            let first = if a < b { a } else { b };
            let high = if a < b { b } else { a };
            let last = if high > first { high as int } else { first + 1 };
            range == if last - first > MAX_SAMPLE_VIEW_FRAMES {
                None
            } else {
                Some((first, last as u64))
            }
        }),
{
    let first: u64 = if a < b { a } else { b };
    let high: u64 = if a < b { b } else { a };
    let last: u64 = if high > first { high } else { first + 1 };
    if last - first > MAX_SAMPLE_VIEW_FRAMES {
        None
    } else {
        Some((first, last))
    }
}

/// A sample that may be drawn.
#[derive(Clone, Copy)]
pub struct SampleCandidate<T> {
    pub frame: u64,
    /// Frames from where the clip starts to sound.
    pub source_offset: u64,
    pub value: T,
}

/// Frames from where a clip starts to sound to a frame of its source.
pub open spec fn frames_from_start(frame: u64, reverse: bool, start: u64, end: u64) -> u64 {
    let distance = if reverse {
        end - frame - 1
    } else {
        frame - start
    };
    if distance < 0 {
        0
    } else {
        distance as u64
    }
}

/// The first frame of a window that lies in a range.
pub open spec fn first_in_window(window_start: u64, first: u64) -> int {
    if window_start < first {
        first as int
    } else {
        window_start as int
    }
}

/// The samples of a window that lie in `[first, last)`, in order.
pub fn sample_candidates<T: Copy>(
    window_start: u64,
    mono: &Vec<T>,
    first: u64,
    last: u64,
    reverse: bool,
    source_start: u64,
    source_end: u64,
) -> (candidates: Vec<SampleCandidate<T>>)
    requires
        window_start + mono@.len() <= u64::MAX,
    ensures
        ({
            let from = first_in_window(window_start, first);
            let end = window_start + mono@.len();
            let until = if last < end { last as int } else { end };
            candidates@ == Seq::new(
                if until > from { (until - from) as nat } else { 0 },
                |i: int| SampleCandidate {
                    frame: (from + i) as u64,
                    source_offset: frames_from_start(
                        (from + i) as u64,
                        reverse,
                        source_start,
                        source_end,
                    ),
                    value: mono@[from + i - window_start],
                },
            )
        }),
{
    let mut candidates: Vec<SampleCandidate<T>> = Vec::new();
    let ghost from = first_in_window(window_start, first);
    let mut offset: usize = 0;
    while offset < mono.len()
        invariant
            window_start + mono@.len() <= u64::MAX,
            from == first_in_window(window_start, first),
            offset <= mono@.len(),
            ({
                let end = window_start + offset;
                let until = if last < end { last as int } else { end };
                candidates@ == Seq::new(
                    if until > from { (until - from) as nat } else { 0 },
                    |i: int| SampleCandidate {
                        frame: (from + i) as u64,
                        source_offset: frames_from_start(
                            (from + i) as u64,
                            reverse,
                            source_start,
                            source_end,
                        ),
                        value: mono@[from + i - window_start],
                    },
                )
            }),
        decreases mono@.len() - offset,
    {
        let frame: u64 = window_start + offset as u64;
        if frame >= first && frame < last {
            let source_offset: u64 = if reverse {
                source_end.saturating_sub(frame).saturating_sub(1)
            } else {
                frame.saturating_sub(source_start)
            };
            candidates.push(SampleCandidate { frame, source_offset, value: mono[offset] });
        }
        offset += 1;
    }
    candidates
}

/// The values that are there, in order.
pub open spec fn present<P>(places: Seq<Option<P>>) -> Seq<P>
    decreases places.len(),
{
    if places.len() == 0 {
        Seq::empty()
    } else {
        match places.last() {
            Some(point) => present(places.drop_last()).push(point),
            None => present(places.drop_last()),
        }
    }
}

proof fn lemma_present_grows<P>(places: Seq<Option<P>>, i: int)
    requires
        0 <= i <= places.len(),
    ensures
        present(places).len() >= present(places.take(i)).len(),
        present(places).take(present(places.take(i)).len() as int) == present(places.take(i)),
    decreases places.len(),
{
    if i == places.len() {
        assert(places.take(i) =~= places);
        assert(present(places).take(present(places).len() as int) =~= present(places));
    } else {
        let front = places.drop_last();
        lemma_present_grows(front, i);
        assert(front.take(i) =~= places.take(i));
        let n = present(places.take(i)).len() as int;
        assert(present(places).take(n) =~= present(front).take(n));
    }
}

/// The first points that landed in view, as many as are drawn one by one.
pub fn first_visible<P: Copy>(places: &Vec<Option<P>>) -> (points: Vec<P>)
    ensures
        points@ == if present(places@).len() > MAX_SAMPLE_POINTS {
            present(places@).take(MAX_SAMPLE_POINTS as int)
        } else {
            present(places@)
        },
{
    let mut points: Vec<P> = Vec::new();
    let mut i: usize = 0;
    while i < places.len()
        invariant
            i <= places@.len(),
            points@ == present(places@.take(i as int)),
            points@.len() < MAX_SAMPLE_POINTS,
        decreases places@.len() - i,
    {
        proof {
            assert(places@.take(i as int + 1).drop_last() =~= places@.take(i as int));
        }
        if let Some(point) = places[i] {
            points.push(point);
        }
        i += 1;
        if points.len() >= MAX_SAMPLE_POINTS {
            proof {
                lemma_present_grows(places@, i as int);
                assert(points@ == present(places@.take(i as int)));
                if present(places@).len() == MAX_SAMPLE_POINTS {
                    assert(present(places@).take(MAX_SAMPLE_POINTS as int) =~= present(places@));
                }
            }
            return points;
        }
    }
    proof {
        assert(places@.take(i as int) =~= places@);
    }
    points
}

// ------------------------------------------------------------------- laws

/// Whatever else is selected, the editor's target is an audio clip of the
/// arrangement whenever a selected id names one.
pub proof fn law_the_target_is_a_selected_audio_clip<T>(state: TimelineState<T>)
    ensures
        state.selected_place() is Some == exists|index: int| #[trigger] state.selects_audio(index),
        state.selected_place() matches Some(place) ==> state.clip_at(place).clip_type.audio(),
{
    if exists|index: int| #[trigger] state.selects_audio(index) {
        let index = choose|index: int| #[trigger] state.selects_audio(index);
        lemma_first_selected(state, index);
    }
}

proof fn lemma_first_selected<T>(state: TimelineState<T>, index: int)
    requires
        state.selects_audio(index),
    ensures
        exists|first: int| state.selects_audio_first(first),
    decreases index,
{
    if forall|i: int| 0 <= i < index ==> !#[trigger] state.selects_audio(i) {
        assert(state.selects_audio_first(index));
    } else {
        let earlier = choose|i: int| 0 <= i < index && #[trigger] state.selects_audio(i);
        lemma_first_selected(state, earlier);
    }
}

/// A clip in front of the first audio clip in the selection does not change
/// the target.
pub proof fn law_earlier_selections_without_audio_are_skipped<T>(
    state: TimelineState<T>,
    index: int,
)
    requires
        state.selects_audio(index),
        forall|i: int| 0 <= i < index ==> !#[trigger] state.selects_audio(i),
    ensures
        state.selected_place() == state.place_of(state.selection.selected_clip_ids@[index]@),
{
    assert(state.selects_audio_first(index));
    let first = choose|i: int| state.selects_audio_first(i);
    if first < index {
        assert(!state.selects_audio(first));
    } else if index < first {
        assert(!state.selects_audio(index));
    }
}

/// Counted forwards and counted backwards, a frame's distances from the two
/// ends of the clip add up to the clip.
pub proof fn law_frames_of_a_reversed_clip_run_backwards(frame: u64, start: u64, end: u64)
    requires
        start <= frame < end,
    ensures
        frames_from_start(frame, false, start, end) + frames_from_start(frame, true, start, end)
            == end - start - 1,
{
}

/// An import shows progress until it is ready or has failed, and only a failed
/// one says so, by its message.
pub proof fn law_an_import_shows_how_it_stands(import: AudioImportState)
    ensures
        import_status(import).1 <==> import is Failed,
        import_status(import).2 <==> !(import is Failed) && !(import is Ready),
        import matches AudioImportState::Failed { message } ==> import_status(import).0
            == message@,
        import matches AudioImportState::GeneratingPeaks { percent } ==> import_status(import).0
            == "Building waveform… "@ + crate::text::decimal(
            if percent < 100 {
                percent as nat
            } else {
                100
            },
        ) + "%"@,
{
}

/// Audio and notes have an editor of their own kind, and video has none.
pub proof fn law_each_kind_of_clip_has_its_editor(clip_type: ClipType)
    ensures
        hint_for(clip_type) == Some(ClipTypeHint::Audio) <==> clip_type is Audio,
        hint_for(clip_type) == Some(ClipTypeHint::Midi) <==> clip_type is Midi,
        hint_for(clip_type) is None <==> clip_type is Video,
{
}

/// A sample lies in the peak it falls into: no earlier and no later one holds
/// it.
pub proof fn law_a_sample_lies_in_its_peak(sample: usize, samples_per_peak: usize)
    requires
        samples_per_peak > 0,
    ensures
        peak_index(sample, samples_per_peak) * samples_per_peak <= sample < (peak_index(
            sample,
            samples_per_peak,
        ) + 1) * samples_per_peak,
{
    let n = sample as int;
    let d = samples_per_peak as int;
    vstd::arithmetic::div_mod::lemma_fundamental_div_mod(n, d);
    vstd::arithmetic::div_mod::lemma_mod_bound(n, d);
    assert(d * (n / d) == (n / d) * d) by (nonlinear_arith);
    assert((n / d + 1) * d == (n / d) * d + d) by (nonlinear_arith);
}

/// A frame is as far from where its clip starts to sound as it is from the
/// clip's start, or, played backwards, from its last frame; outside the clip it
/// is no distance away.
pub proof fn law_a_frame_has_its_distance(frame: u64, start: u64, end: u64)
    ensures
        start <= frame ==> start + frames_from_start(frame, false, start, end) == frame,
        frame < start ==> frames_from_start(frame, false, start, end) == 0,
        frame < end ==> frame + frames_from_start(frame, true, start, end) == end - 1,
        end <= frame ==> frames_from_start(frame, true, start, end) == 0,
{
}

/// The first frame of a window in a range lies in both, and none before it does.
pub proof fn law_the_first_frame_lies_in_window_and_range(
    window_start: u64,
    first: u64,
    frame: int,
)
    ensures
        first_in_window(window_start, first) >= window_start,
        first_in_window(window_start, first) >= first,
        frame < first_in_window(window_start, first) ==> frame < window_start || frame < first,
{
}

/// What is there is kept, and nothing else: every value that is there, in order.
pub proof fn law_what_is_there_is_kept<P>(places: Seq<Option<P>>, i: int)
    requires
        0 <= i < places.len(),
    ensures
        places[i] matches Some(point) ==> present(places).contains(point),
        present(places).len() <= places.len(),
        forall|k: int|
            0 <= k < present(places).len() ==> places.contains(Some(#[trigger] present(places)[k])),
    decreases places.len(),
{
    let front = places.drop_last();
    let before = present(front);
    let now = present(places);
    if front.len() > 0 {
        law_what_is_there_is_kept(
            front,
            if i < front.len() {
                i
            } else {
                0
            },
        );
    }
    if places[i] is Some {
        if i < front.len() {
            assert(front[i] == places[i]);
            let k = choose|k: int| 0 <= k < before.len() && before[k] == places[i]->0;
            assert(now[k] == places[i]->0);
        } else {
            assert(now[now.len() - 1] == places[i]->0);
        }
    }
    assert forall|k: int| 0 <= k < now.len() implies places.contains(Some(#[trigger] now[k])) by {
        if k < before.len() {
            assert(now[k] == before[k]);
            assert(front.contains(Some(before[k])));
            let j = choose|j: int| 0 <= j < front.len() && front[j] == Some(before[k]);
            assert(places[j] == Some(now[k]));
        } else {
            assert(places[places.len() - 1] == Some(now[k]));
        }
    }
}

/// The target of the editor is selected: its id is among the selected ones, it
/// plays audio, and no audio clip was selected before it.
pub proof fn law_the_target_is_the_first_selected<T>(state: TimelineState<T>)
    ensures
        state.selected_place() matches Some(place) ==> exists|index: int|
            0 <= index < state.selection.selected_clip_ids@.len()
                && #[trigger] state.selection.selected_clip_ids@[index]@ == state.clip_at(
                place,
            ).id@ && state.clip_at(place).clip_type is Audio && forall|i: int|
                0 <= i < index ==> !#[trigger] state.selects_audio(i),
{
    if state.selected_place() is Some {
        let index = choose|index: int| state.selects_audio_first(index);
        let id = state.selection.selected_clip_ids@[index]@;
        state.law_every_clip_is_found(id);
        let place = state.selected_place()->0;
        assert(state.clip_is(id, place.0, place.1));
        assert(state.selection.selected_clip_ids@[index]@ == state.clip_at(place).id@);
    }
}

/// A clip is drawn with 16 to 2048 columns, and sample by sample up to 4096
/// samples, from ranges of at most eight times as many.
pub proof fn law_drawing_is_bounded()
    ensures
        MIN_EDITOR_COLUMNS == 16,
        MAX_EDITOR_COLUMNS == 128 * MIN_EDITOR_COLUMNS,
        MAX_SAMPLE_POINTS == 2 * MAX_EDITOR_COLUMNS,
        MAX_SAMPLE_VIEW_FRAMES == 8 * MAX_SAMPLE_POINTS,
{
}

} // verus!
