//! Edits of a clip's stretch, fade, envelope and warp settings.

use vstd::prelude::*;

use crate::timeline::{
    AudioClipStretchState, BeatPosition, EnvelopeCurve, EnvelopePoint, StretchAlgorithm,
    StretchMode, WarpMarker,
};

verus! {

/// An end of a clip that fades.
#[derive(Clone, Copy, PartialEq, Eq, Structural, Debug)]
pub enum AudioFadeSide {
    In,
    Out,
}

// ------------------------------------------------------------------- ids

/// The largest id of an envelope, or zero.
pub open spec fn max_point_id<T>(points: Seq<EnvelopePoint<T>>) -> u64
    decreases points.len(),
{
    if points.len() == 0 {
        0
    } else {
        let rest = max_point_id(points.drop_last());
        if points.last().id > rest {
            points.last().id
        } else {
            rest
        }
    }
}

/// The largest id of a list of warp markers, or zero.
pub open spec fn max_marker_id<T>(markers: Seq<WarpMarker<T>>) -> u64
    decreases markers.len(),
{
    if markers.len() == 0 {
        0
    } else {
        let rest = max_marker_id(markers.drop_last());
        if markers.last().id > rest {
            markers.last().id
        } else {
            rest
        }
    }
}

proof fn lemma_max_point_id<T>(points: Seq<EnvelopePoint<T>>, i: int)
    requires
        0 <= i < points.len(),
    ensures
        points[i].id <= max_point_id(points),
    decreases points.len(),
{
    if i < points.len() - 1 {
        lemma_max_point_id(points.drop_last(), i);
    }
}

proof fn lemma_max_marker_id<T>(markers: Seq<WarpMarker<T>>, i: int)
    requires
        0 <= i < markers.len(),
    ensures
        markers[i].id <= max_marker_id(markers),
    decreases markers.len(),
{
    if i < markers.len() - 1 {
        lemma_max_marker_id(markers.drop_last(), i);
    }
}

/// Whether the first point with an id stands at `index`.
pub open spec fn point_at<T>(points: Seq<EnvelopePoint<T>>, id: u64, index: int) -> bool {
    &&& 0 <= index < points.len()
    &&& points[index].id == id
    &&& forall|i: int| 0 <= i < index ==> (#[trigger] points[i]).id != id
}

/// Whether a point has an id.
pub open spec fn has_point<T>(points: Seq<EnvelopePoint<T>>, id: u64) -> bool {
    exists|i: int| 0 <= i < points.len() && (#[trigger] points[i]).id == id
}

/// Whether the first marker with an id stands at `index`.
pub open spec fn marker_at<T>(markers: Seq<WarpMarker<T>>, id: u64, index: int) -> bool {
    &&& 0 <= index < markers.len()
    &&& markers[index].id == id
    &&& forall|i: int| 0 <= i < index ==> (#[trigger] markers[i]).id != id
}

/// Whether a marker has an id.
pub open spec fn has_marker<T>(markers: Seq<WarpMarker<T>>, id: u64) -> bool {
    exists|i: int| 0 <= i < markers.len() && (#[trigger] markers[i]).id == id
}

/// The id for a new envelope point: one past the largest in use.
pub fn next_point_id<T: Copy>(points: &Vec<EnvelopePoint<T>>) -> (id: u64)
    ensures
        id == if max_point_id(points@) == u64::MAX {
            u64::MAX
        } else {
            (max_point_id(points@) + 1) as u64
        },
{
    let mut largest: u64 = 0;
    let mut i: usize = 0;
    while i < points.len()
        invariant
            i <= points@.len(),
            largest == max_point_id(points@.take(i as int)),
        decreases points@.len() - i,
    {
        proof {
            assert(points@.take(i as int + 1).drop_last() =~= points@.take(i as int));
        }
        if points[i].id > largest {
            largest = points[i].id;
        }
        i += 1;
    }
    proof {
        assert(points@.take(i as int) =~= points@);
    }
    largest.saturating_add(1)
}

fn largest_marker_id<T: Copy>(markers: &Vec<WarpMarker<T>>) -> (id: u64)
    ensures
        id == max_marker_id(markers@),
{
    let mut largest: u64 = 0;
    let mut i: usize = 0;
    while i < markers.len()
        invariant
            i <= markers@.len(),
            largest == max_marker_id(markers@.take(i as int)),
        decreases markers@.len() - i,
    {
        proof {
            assert(markers@.take(i as int + 1).drop_last() =~= markers@.take(i as int));
        }
        if markers[i].id > largest {
            largest = markers[i].id;
        }
        i += 1;
    }
    proof {
        assert(markers@.take(i as int) =~= markers@);
    }
    largest
}

fn find_point<T: Copy>(points: &Vec<EnvelopePoint<T>>, id: u64) -> (found: Option<usize>)
    ensures
        match found {
            Some(i) => point_at(points@, id, i as int),
            None => !has_point(points@, id),
        },
{
    let mut i: usize = 0;
    while i < points.len()
        invariant
            i <= points@.len(),
            forall|j: int| 0 <= j < i ==> (#[trigger] points@[j]).id != id,
        decreases points@.len() - i,
    {
        if points[i].id == id {
            return Some(i);
        }
        i += 1;
    }
    None
}

fn find_marker<T: Copy>(markers: &Vec<WarpMarker<T>>, id: u64) -> (found: Option<usize>)
    ensures
        match found {
            Some(i) => marker_at(markers@, id, i as int),
            None => !has_marker(markers@, id),
        },
{
    let mut i: usize = 0;
    while i < markers.len()
        invariant
            i <= markers@.len(),
            forall|j: int| 0 <= j < i ==> (#[trigger] markers@[j]).id != id,
        decreases markers@.len() - i,
    {
        if markers[i].id == id {
            return Some(i);
        }
        i += 1;
    }
    None
}

/// Whether `index` is the first hit among `count` things.
pub open spec fn first_hit(hits: Seq<bool>, count: int, index: int) -> bool {
    &&& 0 <= index < hits.len()
    &&& index < count
    &&& hits[index]
    &&& forall|i: int| 0 <= i < index ==> !#[trigger] hits[i]
}

/// Whether nothing among `count` things was hit.
pub open spec fn no_hit(hits: Seq<bool>, count: int) -> bool {
    forall|i: int| 0 <= i < hits.len() && i < count ==> !#[trigger] hits[i]
}

/// The first hit among `count` things.
pub fn first_hit_index(hits: &Vec<bool>, count: usize) -> (found: Option<usize>)
    ensures
        match found {
            Some(i) => first_hit(hits@, count as int, i as int),
            None => no_hit(hits@, count as int),
        },
{
    let mut i: usize = 0;
    while i < hits.len() && i < count
        invariant
            i <= hits@.len(),
            i <= count,
            forall|j: int| 0 <= j < i ==> !#[trigger] hits@[j],
        decreases hits@.len() - i,
    {
        if hits[i] {
            return Some(i);
        }
        i += 1;
    }
    None
}

// ------------------------------------------------------------------ sort

/// Whether markers stand in the order of their beats.
pub open spec fn in_beat_order<T>(markers: Seq<WarpMarker<T>>) -> bool {
    forall|i: int, j: int|
        0 <= i < j < markers.len() ==> (#[trigger] markers[i]).timeline_beat.rank <= (
        #[trigger] markers[j]).timeline_beat.rank
}

/// The markers on one beat.
pub open spec fn on_beat<T>(rank: i64) -> spec_fn(WarpMarker<T>) -> bool {
    |marker: WarpMarker<T>| marker.timeline_beat.rank == rank
}

/// Whether `sorted` holds the markers of `markers` in beat order, those on one
/// beat in their old order.
pub open spec fn sorted_by_beat<T>(markers: Seq<WarpMarker<T>>, sorted: Seq<WarpMarker<T>>) -> bool {
    &&& in_beat_order(sorted)
    &&& forall|rank: i64| #[trigger]
        sorted.filter(on_beat(rank)) == markers.filter(on_beat(rank))
}

proof fn lemma_filter_none<T>(markers: Seq<WarpMarker<T>>, rank: i64)
    requires
        forall|i: int| 0 <= i < markers.len() ==> (#[trigger] markers[i]).timeline_beat.rank != rank,
    ensures
        markers.filter(on_beat(rank)).len() == 0,
    decreases markers.len(),
{
    reveal_with_fuel(Seq::filter, 1);
    if markers.len() > 0 {
        lemma_filter_none(markers.drop_last(), rank);
    }
}

proof fn lemma_insert_filter<T>(sorted: Seq<WarpMarker<T>>, at: int, marker: WarpMarker<T>, rank: i64)
    requires
        0 <= at <= sorted.len(),
        forall|i: int|
            at <= i < sorted.len() ==> (#[trigger] sorted[i]).timeline_beat.rank
                > marker.timeline_beat.rank,
    ensures
        sorted.insert(at, marker).filter(on_beat(rank)) == sorted.push(marker).filter(on_beat(rank)),
{
    let head = sorted.take(at);
    let tail = sorted.skip(at);
    let keep = on_beat::<T>(rank);
    assert(sorted.insert(at, marker) =~= head.push(marker) + tail);
    assert(sorted.push(marker) =~= (head + tail).push(marker));
    Seq::filter_distributes_over_add(head.push(marker), tail, keep);
    Seq::filter_distributes_over_add(head, tail, keep);
    head.lemma_filter_push(marker, keep);
    (head + tail).lemma_filter_push(marker, keep);
    if keep(marker) {
        lemma_filter_none(tail, rank);
        assert(tail.filter(keep) =~= Seq::empty());
    }
    assert(sorted.insert(at, marker).filter(keep) =~= sorted.push(marker).filter(keep));
}

/// The markers in beat order, those on one beat in their old order.
fn sort_by_beat<T: Copy>(markers: &Vec<WarpMarker<T>>) -> (sorted: Vec<WarpMarker<T>>)
    ensures
        sorted_by_beat(markers@, sorted@),
{
    let mut sorted: Vec<WarpMarker<T>> = Vec::new();
    let mut i: usize = 0;
    proof {
        assert(markers@.take(0) =~= sorted@);
    }
    while i < markers.len()
        invariant
            i <= markers@.len(),
            sorted_by_beat(markers@.take(i as int), sorted@),
        decreases markers@.len() - i,
    {
        let marker = markers[i];
        let mut at: usize = sorted.len();
        while at > 0 && sorted[at - 1].timeline_beat.rank > marker.timeline_beat.rank
            invariant
                at <= sorted@.len(),
                in_beat_order(sorted@),
                forall|j: int|
                    at <= j < sorted@.len() ==> (#[trigger] sorted@[j]).timeline_beat.rank
                        > marker.timeline_beat.rank,
            decreases at,
        {
            at -= 1;
        }
        let ghost before = sorted@;
        sorted.insert(at, marker);
        proof {
            assert forall|a: int, b: int| 0 <= a < b < sorted@.len() implies (
            #[trigger] sorted@[a]).timeline_beat.rank <= (
            #[trigger] sorted@[b]).timeline_beat.rank by {
                if at > 0 {
                    assert(before[at - 1].timeline_beat.rank <= marker.timeline_beat.rank);
                }
                let a2 = if a < at { a } else { a - 1 };
                let b2 = if b < at { b } else { b - 1 };
                if a != at && b != at {
                    assert(sorted@[a] == before[a2] && sorted@[b] == before[b2]);
                } else if a == at {
                    assert(sorted@[b] == before[b2]);
                } else {
                    assert(sorted@[a] == before[a2]);
                    if a2 < at - 1 {
                        assert(before[a2].timeline_beat.rank <= before[at - 1].timeline_beat.rank);
                    }
                }
            }
            assert forall|rank: i64| #[trigger]
                sorted@.filter(on_beat(rank)) == markers@.take(i as int + 1).filter(
                    on_beat(rank),
                ) by {
                lemma_insert_filter(before, at as int, marker, rank);
                let front = markers@.take(i as int);
                assert(before.filter(on_beat(rank)) == front.filter(on_beat(rank)));
                before.lemma_filter_push(marker, on_beat(rank));
                front.lemma_filter_push(marker, on_beat(rank));
                assert(markers@.take(i as int + 1) =~= front.push(marker));
            }
        }
        i += 1;
    }
    proof {
        assert(markers@.take(i as int) =~= markers@);
    }
    sorted
}

// ----------------------------------------------------------------- edits

/// Room to move a warp marker.
#[derive(Clone, Copy)]
pub enum WarpMove<T> {
    /// No marker has the id.
    Missing,
    Locked,
    /// The marker may move between its neighbours, where it has any.
    Between { lower: Option<BeatPosition<T>>, upper: Option<BeatPosition<T>> },
}

impl<T: Copy> AudioClipStretchState<T> {
    /// Follow the project tempo, or go back to a fixed ratio.
    ///
    /// The ratio of a clip that starts to follow is set afterwards, by whoever
    /// knows the tempo.
    pub fn set_follow_tempo(&mut self, enabled: bool)
        ensures
            *final(self) == if enabled {
                AudioClipStretchState {
                    mode: StretchMode::TempoSync,
                    algorithm: StretchAlgorithm::PhaseVocoder,
                    preserve_pitch: true,
                    dirty: true,
                    ..*old(self)
                }
            } else {
                AudioClipStretchState {
                    mode: StretchMode::Manual,
                    bpm_target: None,
                    dirty: true,
                    ..*old(self)
                }
            },
    {
        if enabled {
            self.mode = StretchMode::TempoSync;
            self.algorithm = StretchAlgorithm::PhaseVocoder;
            self.preserve_pitch = true;
        } else {
            self.mode = StretchMode::Manual;
            self.bpm_target = None;
        }
        self.dirty = true;
    }

    /// Play the source backwards, or forwards again.
    pub fn set_reverse(&mut self, enabled: bool)
        ensures
            *final(self) == (AudioClipStretchState { reverse: enabled, dirty: true, ..*old(self) }),
    {
        self.reverse = enabled;
        self.dirty = true;
    }

    /// Set the strength of the noise reduction.
    pub fn set_denoise_amount(&mut self, amount: T)
        ensures
            *final(self) == (AudioClipStretchState {
                denoise_amount: amount,
                dirty: true,
                ..*old(self)
            }),
    {
        self.denoise_amount = amount;
        self.dirty = true;
    }

    /// Set how the source's channels are routed.
    pub fn set_channel_transform(&mut self, tag: u32)
        ensures
            *final(self) == (AudioClipStretchState {
                channel_transform: tag,
                dirty: true,
                ..*old(self)
            }),
    {
        self.channel_transform = tag;
        self.dirty = true;
    }

    /// Set the length of a fade.
    pub fn set_fade(&mut self, side: AudioFadeSide, milliseconds: T)
        ensures
            *final(self) == match side {
                AudioFadeSide::In => AudioClipStretchState {
                    fade_in_ms: milliseconds,
                    dirty: true,
                    ..*old(self)
                },
                AudioFadeSide::Out => AudioClipStretchState {
                    fade_out_ms: milliseconds,
                    dirty: true,
                    ..*old(self)
                },
            },
    {
        match side {
            AudioFadeSide::In => {
                self.fade_in_ms = milliseconds;
            },
            AudioFadeSide::Out => {
                self.fade_out_ms = milliseconds;
            },
        }
        self.dirty = true;
    }

    /// Put an envelope point down: move the point with the id, or add one.
    pub fn draw_envelope_point(&mut self, id: u64, time: T, value_db: T)
        ensures
            *final(self) == (AudioClipStretchState {
                gain_envelope: final(self).gain_envelope,
                ..*old(self)
            }),
            forall|i: int| #[trigger]
                point_at(old(self).gain_envelope@, id, i) ==> final(self).gain_envelope@ == old(
                    self,
                ).gain_envelope@.update(
                    i,
                    EnvelopePoint { time, value_db, ..old(self).gain_envelope@[i] },
                ),
            !has_point(old(self).gain_envelope@, id) ==> final(self).gain_envelope@ == old(
                self,
            ).gain_envelope@.push(
                EnvelopePoint { id, time, value_db, curve: EnvelopeCurve::Linear },
            ),
    {
        match find_point(&self.gain_envelope, id) {
            Some(i) => {
                let curve = self.gain_envelope[i].curve;
                self.gain_envelope.set(i, EnvelopePoint { id, time, value_db, curve });
            },
            None => {
                self.gain_envelope.push(
                    EnvelopePoint { id, time, value_db, curve: EnvelopeCurve::Linear },
                );
            },
        }
    }

    /// Move an envelope point; says whether there is one with the id.
    pub fn move_envelope_point(&mut self, id: u64, time: T, value_db: T) -> (moved: bool)
        ensures
            moved == has_point(old(self).gain_envelope@, id),
            !moved ==> *final(self) == *old(self),
            moved ==> *final(self) == (AudioClipStretchState {
                gain_envelope: final(self).gain_envelope,
                dirty: true,
                ..*old(self)
            }),
            forall|i: int| #[trigger]
                point_at(old(self).gain_envelope@, id, i) ==> final(self).gain_envelope@ == old(
                    self,
                ).gain_envelope@.update(
                    i,
                    EnvelopePoint { time, value_db, ..old(self).gain_envelope@[i] },
                ),
    {
        match find_point(&self.gain_envelope, id) {
            Some(i) => {
                let curve = self.gain_envelope[i].curve;
                self.gain_envelope.set(i, EnvelopePoint { id, time, value_db, curve });
                self.dirty = true;
                true
            },
            None => false,
        }
    }

    /// Add a warp marker and switch the clip to warping.
    pub fn add_warp_marker(&mut self, source_sample: u64, timeline_beat: BeatPosition<T>)
        requires
            max_marker_id(old(self).warp_markers@) < u64::MAX,
        ensures
            *final(self) == (AudioClipStretchState {
                warp_markers: final(self).warp_markers,
                mode: StretchMode::Warp,
                dirty: true,
                ..*old(self)
            }),
            sorted_by_beat(
                old(self).warp_markers@.push(
                    WarpMarker {
                        id: (max_marker_id(old(self).warp_markers@) + 1) as u64,
                        source_sample,
                        timeline_beat,
                        locked: false,
                    },
                ),
                final(self).warp_markers@,
            ),
    {
        let id: u64 = largest_marker_id(&self.warp_markers) + 1;
        self.warp_markers.push(WarpMarker { id, source_sample, timeline_beat, locked: false });
        self.warp_markers = sort_by_beat(&self.warp_markers);
        self.mode = StretchMode::Warp;
        self.dirty = true;
    }

    /// How far a warp marker may move.
    pub fn warp_move(&self, id: u64) -> (room: WarpMove<T>)
        ensures
            !has_marker(self.warp_markers@, id) ==> room is Missing,
            forall|i: int| #[trigger]
                marker_at(self.warp_markers@, id, i) ==> room == if self.warp_markers@[i].locked {
                    WarpMove::Locked
                } else {
                    WarpMove::Between {
                        lower: if i == 0 {
                            None
                        } else {
                            Some(self.warp_markers@[i - 1].timeline_beat)
                        },
                        upper: if i + 1 >= self.warp_markers@.len() {
                            None
                        } else {
                            Some(self.warp_markers@[i + 1].timeline_beat)
                        },
                    }
                },
    {
        match find_marker(&self.warp_markers, id) {
            None => WarpMove::Missing,
            Some(i) => {
                if self.warp_markers[i].locked {
                    return WarpMove::Locked;
                }
                let lower = if i == 0 {
                    None
                } else {
                    Some(self.warp_markers[i - 1].timeline_beat)
                };
                let count: usize = self.warp_markers.len();
                let upper = if i + 1 >= count {
                    None
                } else {
                    Some(self.warp_markers[i + 1].timeline_beat)
                };
                WarpMove::Between { lower, upper }
            },
        }
    }

    /// Move a warp marker to a beat; a missing or locked one stays.
    pub fn place_warp_marker(&mut self, id: u64, timeline_beat: BeatPosition<T>) -> (moved: bool)
        ensures
            moved ==> has_marker(old(self).warp_markers@, id),
            !moved ==> *final(self) == *old(self),
            moved ==> *final(self) == (AudioClipStretchState {
                warp_markers: final(self).warp_markers,
                dirty: true,
                ..*old(self)
            }),
            forall|i: int| #[trigger]
                marker_at(old(self).warp_markers@, id, i) ==> {
                    &&& moved == !old(self).warp_markers@[i].locked
                    &&& moved ==> final(self).warp_markers@ == old(self).warp_markers@.update(
                        i,
                        WarpMarker { timeline_beat, ..old(self).warp_markers@[i] },
                    )
                },
    {
        match find_marker(&self.warp_markers, id) {
            None => false,
            Some(i) => {
                let marker = self.warp_markers[i];
                if marker.locked {
                    return false;
                }
                self.warp_markers.set(
                    i,
                    WarpMarker {
                        id: marker.id,
                        source_sample: marker.source_sample,
                        timeline_beat,
                        locked: marker.locked,
                    },
                );
                self.dirty = true;
                true
            },
        }
    }
}

// ------------------------------------------------------------------- laws

/// A new warp marker's id is not in use yet.
pub proof fn law_a_new_warp_marker_has_a_fresh_id<T>(markers: Seq<WarpMarker<T>>, i: int)
    requires
        max_marker_id(markers) < u64::MAX,
        0 <= i < markers.len(),
    ensures
        markers[i].id != max_marker_id(markers) + 1,
{
    lemma_max_marker_id(markers, i);
}

/// A new envelope point's id is not in use yet, unless the ids have run out.
pub proof fn law_a_new_envelope_point_has_a_fresh_id<T>(points: Seq<EnvelopePoint<T>>, i: int)
    requires
        max_point_id(points) < u64::MAX,
        0 <= i < points.len(),
    ensures
        points[i].id != max_point_id(points) + 1,
{
    lemma_max_point_id(points, i);
}

/// The largest id of an envelope is at least as large as each.
pub proof fn law_no_id_is_above_the_largest<T>(points: Seq<EnvelopePoint<T>>, i: int)
    requires
        0 <= i < points.len(),
    ensures
        points[i].id <= max_point_id(points),
{
    lemma_max_point_id(points, i);
}

/// The largest id of an envelope or of a list of warp markers is the id of one
/// of them, or zero.
pub proof fn law_the_largest_id_is_in_use<T>(
    points: Seq<EnvelopePoint<T>>,
    markers: Seq<WarpMarker<T>>,
)
    ensures
        max_point_id(points) == 0 || exists|i: int|
            0 <= i < points.len() && (#[trigger] points[i]).id == max_point_id(points),
        max_marker_id(markers) == 0 || exists|i: int|
            0 <= i < markers.len() && (#[trigger] markers[i]).id == max_marker_id(markers),
    decreases points.len() + markers.len(),
{
    if points.len() > 0 {
        let front = points.drop_last();
        law_the_largest_id_is_in_use(front, markers);
        if max_point_id(points) == points.last().id {
            assert(points[points.len() - 1].id == max_point_id(points));
        } else if max_point_id(points) != 0 {
            let i = choose|i: int|
                0 <= i < front.len() && (#[trigger] front[i]).id == max_point_id(front);
            assert(points[i].id == max_point_id(points));
        }
    } else if markers.len() > 0 {
        let front = markers.drop_last();
        law_the_largest_id_is_in_use(points, front);
        if max_marker_id(markers) == markers.last().id {
            assert(markers[markers.len() - 1].id == max_marker_id(markers));
        } else if max_marker_id(markers) != 0 {
            let i = choose|i: int|
                0 <= i < front.len() && (#[trigger] front[i]).id == max_marker_id(front);
            assert(markers[i].id == max_marker_id(markers));
        }
    }
}

/// Of several points with one id the first is meant, and one is meant whenever
/// there is any; the same of warp markers.
pub proof fn law_an_id_means_the_first_that_has_it<T>(
    points: Seq<EnvelopePoint<T>>,
    markers: Seq<WarpMarker<T>>,
    id: u64,
    i: int,
    k: int,
)
    ensures
        point_at(points, id, i) && 0 <= k < points.len() && points[k].id == id ==> i <= k
            && points[i].id == id,
        marker_at(markers, id, i) && 0 <= k < markers.len() && markers[k].id == id ==> i <= k
            && markers[i].id == id,
        0 <= k < points.len() && points[k].id == id ==> has_point(points, id) && exists|j: int|
            0 <= j <= k && #[trigger] point_at(points, id, j),
        0 <= k < markers.len() && markers[k].id == id ==> has_marker(markers, id) && exists|j: int|
            0 <= j <= k && #[trigger] marker_at(markers, id, j),
        has_point(points, id) ==> exists|j: int|
            0 <= j < points.len() && (#[trigger] points[j]).id == id,
        has_marker(markers, id) ==> exists|j: int|
            0 <= j < markers.len() && (#[trigger] markers[j]).id == id,
{
    if 0 <= k < points.len() && points[k].id == id {
        lemma_first_point(points, id, k);
    }
    if 0 <= k < markers.len() && markers[k].id == id {
        lemma_first_marker(markers, id, k);
    }
}

proof fn lemma_first_point<T>(points: Seq<EnvelopePoint<T>>, id: u64, k: int)
    requires
        0 <= k < points.len(),
        points[k].id == id,
    ensures
        exists|j: int| 0 <= j <= k && #[trigger] point_at(points, id, j),
    decreases k,
{
    if forall|i: int| 0 <= i < k ==> (#[trigger] points[i]).id != id {
        assert(point_at(points, id, k));
    } else {
        let i = choose|i: int| 0 <= i < k && (#[trigger] points[i]).id == id;
        lemma_first_point(points, id, i);
    }
}

proof fn lemma_first_marker<T>(markers: Seq<WarpMarker<T>>, id: u64, k: int)
    requires
        0 <= k < markers.len(),
        markers[k].id == id,
    ensures
        exists|j: int| 0 <= j <= k && #[trigger] marker_at(markers, id, j),
    decreases k,
{
    if forall|i: int| 0 <= i < k ==> (#[trigger] markers[i]).id != id {
        assert(marker_at(markers, id, k));
    } else {
        let i = choose|i: int| 0 <= i < k && (#[trigger] markers[i]).id == id;
        lemma_first_marker(markers, id, i);
    }
}

/// Sorted markers never go back in time, and those on one beat stay in the
/// order they had.
pub proof fn law_sorted_markers_run_forwards<T>(
    markers: Seq<WarpMarker<T>>,
    sorted: Seq<WarpMarker<T>>,
    i: int,
    j: int,
    rank: i64,
)
    requires
        sorted_by_beat(markers, sorted),
    ensures
        0 <= i <= j < sorted.len() ==> sorted[i].timeline_beat.rank
            <= sorted[j].timeline_beat.rank,
        sorted.len() == markers.len(),
        sorted.filter(|marker: WarpMarker<T>| marker.timeline_beat.rank == rank) == markers.filter(
            |marker: WarpMarker<T>| marker.timeline_beat.rank == rank,
        ),
{
    law_sorting_keeps_every_marker(markers, sorted);
    broadcast use vstd::seq_lib::group_to_multiset_ensures;

    assert(sorted.len() == sorted.to_multiset().len());
    assert(on_beat::<T>(rank) =~= (|marker: WarpMarker<T>| marker.timeline_beat.rank == rank));
    assert(sorted.filter(on_beat(rank)) == markers.filter(on_beat(rank)));
}

/// What was hit first was hit, and nothing before it was; and where nothing was
/// hit first, nothing was hit.
pub proof fn law_the_first_hit_is_the_first(hits: Seq<bool>, count: int, i: int, k: int)
    requires
        0 <= k < hits.len(),
        k < count,
        hits[k],
    ensures
        first_hit(hits, count, i) ==> 0 <= i <= k && hits[i],
        !no_hit(hits, count),
{
}

/// Sorting loses no marker, makes up none and keeps how often each occurs.
pub proof fn law_sorting_keeps_every_marker<T>(
    markers: Seq<WarpMarker<T>>,
    sorted: Seq<WarpMarker<T>>,
)
    requires
        sorted_by_beat(markers, sorted),
    ensures
        sorted.to_multiset() == markers.to_multiset(),
{
    assert forall|marker: WarpMarker<T>| #[trigger]
        sorted.to_multiset().count(marker) == markers.to_multiset().count(marker) by {
        let keep = on_beat::<T>(marker.timeline_beat.rank);
        lemma_filter_count(sorted, keep, marker);
        lemma_filter_count(markers, keep, marker);
        assert(sorted.filter(keep) == markers.filter(keep));
    }
    assert(sorted.to_multiset() =~= markers.to_multiset());
}

proof fn lemma_filter_count<A>(s: Seq<A>, keep: spec_fn(A) -> bool, x: A)
    requires
        keep(x),
    ensures
        s.filter(keep).to_multiset().count(x) == s.to_multiset().count(x),
    decreases s.len(),
{
    broadcast use vstd::seq_lib::group_to_multiset_ensures;

    reveal_with_fuel(Seq::filter, 1);
    if s.len() > 0 {
        let front = s.drop_last();
        assert(s =~= front.push(s.last()));
        front.lemma_filter_push(s.last(), keep);
        lemma_filter_count(front, keep, x);
    }
}

/// Moving a marker between its neighbours keeps the markers in beat order.
pub proof fn law_a_marker_moved_between_its_neighbours_keeps_the_order<T>(
    markers: Seq<WarpMarker<T>>,
    i: int,
    moved: WarpMarker<T>,
)
    requires
        in_beat_order(markers),
        0 <= i < markers.len(),
        i > 0 ==> markers[i - 1].timeline_beat.rank <= moved.timeline_beat.rank,
        i + 1 < markers.len() ==> moved.timeline_beat.rank <= markers[i + 1].timeline_beat.rank,
    ensures
        in_beat_order(markers.update(i, moved)),
{
    let next = markers.update(i, moved);
    assert forall|a: int, b: int| 0 <= a < b < next.len() implies (
    #[trigger] next[a]).timeline_beat.rank <= (#[trigger] next[b]).timeline_beat.rank by {
        if a == i && b > i + 1 {
            assert(markers[i + 1].timeline_beat.rank <= markers[b].timeline_beat.rank);
        }
        if b == i && a < i - 1 {
            assert(markers[a].timeline_beat.rank <= markers[i - 1].timeline_beat.rank);
        }
        if a != i && b != i {
            assert(markers[a].timeline_beat.rank <= markers[b].timeline_beat.rank);
        }
    }
}

} // verus!
