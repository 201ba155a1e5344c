//! On-demand decoded PCM windows for sample-accurate editor views.
//!
//! Peaks stop being useful once a pixel covers only a few source frames. The
//! registry below decides which window of a source is worth decoding, keeps a
//! bounded number of decoded windows, and answers look-ups from the painter.
//! Decoding itself happens on a worker outside this module: it receives the
//! requests handed out here and reports back through `install` or `forget`.

use std::collections::VecDeque;
use std::sync::Arc;

use vstd::prelude::*;

use crate::text::chars_of;

verus! {

/// Requested windows start on a multiple of this many frames.
pub const ALIGN_FRAMES: u64 = 256;

/// Upper bound on the frames of one decoded window.
pub const MAX_WINDOW_FRAMES: usize = 8192;

/// Upper bound on the windows kept resident.
pub const MAX_RESIDENT: usize = 24;

/// Whether a character has the Unicode property `White_Space`.
pub open spec fn white_space(ch: char) -> bool {
    ||| '\u{9}' <= ch <= '\u{d}'
    ||| ch == '\u{20}'
    ||| ch == '\u{85}'
    ||| ch == '\u{a0}'
    ||| ch == '\u{1680}'
    ||| '\u{2000}' <= ch <= '\u{200a}'
    ||| ch == '\u{2028}'
    ||| ch == '\u{2029}'
    ||| ch == '\u{202f}'
    ||| ch == '\u{205f}'
    ||| ch == '\u{3000}'
}

/// `char::is_whitespace`: whether a character has the Unicode property
/// `White_Space`.
pub assume_specification[ char::is_whitespace ](ch: char) -> (white: bool)
    ensures
        white == white_space(ch),
;

/// What identifies a window: its asset and the range asked for.
pub struct WindowKey {
    pub cache_key: String,
    pub start_frame: u64,
    pub frame_count: u32,
}

/// A window key as plain values: asset, first frame, number of frames.
pub type KeyView = (Seq<char>, u64, u32);

impl View for WindowKey {
    type V = KeyView;

    open spec fn view(&self) -> KeyView {
        (self.cache_key@, self.start_frame, self.frame_count)
    }
}

/// One decoded window of a source.
pub struct SampleWindow<T> {
    pub start_frame: u64,
    pub mono: Arc<Vec<T>>,
    pub left: Arc<Vec<T>>,
    pub right: Arc<Vec<T>>,
}

impl<T> SampleWindow<T> {
    /// The frame after the last one of the window.
    pub open spec fn end(self) -> int {
        self.start_frame + self.mono@.len()
    }
}

/// A shared look at a resident window.
pub struct SampleWindowView<T> {
    pub start_frame: u64,
    pub mono: Arc<Vec<T>>,
    pub left: Arc<Vec<T>>,
    pub right: Arc<Vec<T>>,
}

/// What a look-up hands out of a resident window.
pub open spec fn shares<T>(view: SampleWindowView<T>, window: SampleWindow<T>) -> bool {
    &&& view.start_frame == window.start_frame
    &&& view.mono == window.mono
    &&& view.left == window.left
    &&& view.right == window.right
}

/// A request for the decoding worker.
pub struct SampleRequest {
    pub key: WindowKey,
    pub path: String,
}

impl WindowKey {
    /// A copy of the key.
    pub fn copy_key(&self) -> (key: WindowKey)
        ensures
            key == *self,
    {
        WindowKey {
            cache_key: self.cache_key.clone(),
            start_frame: self.start_frame,
            frame_count: self.frame_count,
        }
    }

    /// Whether two keys name the same window.
    pub fn same_key(&self, other: &WindowKey) -> (same: bool)
        ensures
            same == (self@ == other@),
    {
        self.start_frame == other.start_frame && self.frame_count == other.frame_count
            && self.cache_key == other.cache_key
    }
}

// ------------------------------------------------------------------ model

/// Which windows were asked for, and which decoded ones are queued for
/// eviction, oldest first.
#[verifier::ext_equal]
pub struct RegistryView<T> {
    /// Known windows: `None` while decoding is pending, the window afterwards.
    pub known: Map<KeyView, Option<SampleWindow<T>>>,
    pub order: Seq<KeyView>,
}

impl<T> RegistryView<T> {
    /// A window is resident once it has been decoded.
    pub open spec fn resident(self, key: KeyView) -> bool {
        self.known.contains_key(key) && self.known[key] is Some
    }

    /// Decoded windows are queued for eviction, the queue is bounded, and no
    /// decoded window reaches past the last frame number.
    pub open spec fn bounded(self) -> bool {
        &&& self.order.len() <= MAX_RESIDENT
        &&& forall|key: KeyView| #[trigger] self.resident(key) ==> self.order.contains(key)
        &&& forall|key: KeyView| #[trigger]
            self.resident(key) ==> self.known[key]->0.end() <= u64::MAX
    }

    /// Nothing known yet.
    pub open spec fn empty() -> Self {
        RegistryView { known: Map::empty(), order: Seq::empty() }
    }

    /// A decoded window arrives; the oldest one leaves when there are too many.
    pub open spec fn after_install(self, key: KeyView, window: SampleWindow<T>) -> Self {
        let known = self.known.insert(key, Some(window));
        let order = self.order.push(key);
        if order.len() > MAX_RESIDENT {
            RegistryView {
                known: known.remove(order[0]),
                order: order.subrange(1, order.len() as int),
            }
        } else {
            RegistryView { known, order }
        }
    }

    /// One window is dropped.
    pub open spec fn after_forget(self, key: KeyView) -> Self {
        RegistryView {
            known: self.known.remove(key),
            order: self.order.filter(other_than(key)),
        }
    }

    /// Every window of an asset is dropped.
    pub open spec fn after_forget_asset(self, cache_key: Seq<char>) -> Self {
        RegistryView {
            known: self.known.remove_keys(Set::new(|k: KeyView| k.0 == cache_key)),
            order: self.order.filter(|k: KeyView| k.0 != cache_key),
        }
    }

    /// A window is marked as asked for.
    pub open spec fn after_request(self, key: KeyView) -> Self {
        RegistryView { known: self.known.insert(key, None), order: self.order }
    }
}

/// Every window but one.
pub open spec fn other_than(key: KeyView) -> spec_fn(KeyView) -> bool {
    |k: KeyView| k != key
}

/// The aligned frame at or before `frame`.
pub open spec fn aligned(frame: u64) -> u64 {
    (frame / ALIGN_FRAMES * ALIGN_FRAMES) as u64
}

/// Frames to ask for so that `[first, last)` of a source with `total` frames
/// is covered from its aligned start: at least one, at most a full window.
pub open spec fn needed_count(first: u64, last: u64, total: u64) -> u32 {
    let end = if last < total { last } else { total };
    let span = end - aligned(first);
    if span < 1 {
        1
    } else if span > MAX_WINDOW_FRAMES {
        MAX_WINDOW_FRAMES as u32
    } else {
        span as u32
    }
}

/// The window that covers `[first, last)` of an asset.
pub open spec fn needed_key(cache_key: Seq<char>, first: u64, last: u64, total: u64) -> KeyView {
    (cache_key, aligned(first), needed_count(first, last, total))
}

/// Whether a text holds nothing but white space.
pub open spec fn blank(text: Seq<char>) -> bool {
    forall|i: int| 0 <= i < text.len() ==> white_space(#[trigger] text[i])
}

/// Whether a range of a source can be decoded at all.
pub open spec fn worth_asking(path: Seq<char>, first: u64, last: u64, total: u64) -> bool {
    !blank(path) && total != 0 && first < last
}

/// Whether a window reaches from `first`'s aligned start to the frame needed.
pub open spec fn covers<T>(window: SampleWindow<T>, first: u64, last: u64) -> bool {
    let from = aligned(first);
    let until: int = if last < from + 1 { last as int } else { from + 1 };
    window.start_frame <= from && window.end() >= until
}

/// Whether a known window answers a look-up.
pub open spec fn answers<T>(
    view: RegistryView<T>,
    key: KeyView,
    cache_key: Seq<char>,
    first: u64,
    last: u64,
) -> bool {
    view.resident(key) && key.0 == cache_key && covers(view.known[key]->0, first, last)
}

/// Frames a decode pass reads, or `None` when the range holds none.
pub open spec fn decode_span(total: u64, start: u64, count: u32) -> Option<u64> {
    if start >= total || count == 0 {
        None
    } else {
        let room = total - start;
        let wanted: int = if count < MAX_WINDOW_FRAMES { count as int } else { MAX_WINDOW_FRAMES as int };
        Some((if wanted < room { wanted } else { room }) as u64)
    }
}

// --------------------------------------------------------------- registry

/// The bounded set of decoded windows and pending requests.
pub struct Registry<T> {
    known: Vec<(WindowKey, Option<SampleWindow<T>>)>,
    order: VecDeque<WindowKey>,
}

spec fn has_entry<T>(known: Seq<(WindowKey, Option<SampleWindow<T>>)>, key: KeyView) -> bool {
    exists|i: int| 0 <= i < known.len() && (#[trigger] known[i]).0@ == key
}

spec fn entry_of<T>(known: Seq<(WindowKey, Option<SampleWindow<T>>)>, key: KeyView) -> int {
    choose|i: int| 0 <= i < known.len() && (#[trigger] known[i]).0@ == key
}

spec fn known_map<T>(known: Seq<(WindowKey, Option<SampleWindow<T>>)>) -> Map<
    KeyView,
    Option<SampleWindow<T>>,
> {
    Map::new(|key: KeyView| has_entry(known, key), |key: KeyView| known[entry_of(known, key)].1)
}

spec fn distinct_keys<T>(known: Seq<(WindowKey, Option<SampleWindow<T>>)>) -> bool {
    forall|i: int, j: int|
        0 <= i < j < known.len() ==> (#[trigger] known[i]).0@ != (#[trigger] known[j]).0@
}

spec fn key_views(order: Seq<WindowKey>) -> Seq<KeyView> {
    order.map_values(|key: WindowKey| key@)
}

impl<T> View for Registry<T> {
    type V = RegistryView<T>;

    closed spec fn view(&self) -> RegistryView<T> {
        RegistryView { known: known_map(self.known@), order: key_views(self.order@) }
    }
}

proof fn lemma_entry<T>(known: Seq<(WindowKey, Option<SampleWindow<T>>)>, i: int)
    requires
        distinct_keys(known),
        0 <= i < known.len(),
    ensures
        has_entry(known, known[i].0@),
        known_map(known).contains_key(known[i].0@),
        known_map(known)[known[i].0@] == known[i].1,
{
    let j = entry_of(known, known[i].0@);
    assert(0 <= j < known.len() && known[j].0@ == known[i].0@);
    if j < i {
        assert(known[j].0@ != known[i].0@);
    } else if i < j {
        assert(known[i].0@ != known[j].0@);
    }
}

/// Dropping the entry at `i` drops its key from the map.
proof fn lemma_entry_removed<T>(known: Seq<(WindowKey, Option<SampleWindow<T>>)>, i: int)
    requires
        distinct_keys(known),
        0 <= i < known.len(),
    ensures
        distinct_keys(known.remove(i)),
        known_map(known.remove(i)) == known_map(known).remove(known[i].0@),
{
    let less = known.remove(i);
    let key = known[i].0@;
    assert forall|a: int, b: int| 0 <= a < b < less.len() implies (#[trigger] less[a]).0@ != (
    #[trigger] less[b]).0@ by {
        let a2 = if a < i { a } else { a + 1 };
        let b2 = if b < i { b } else { b + 1 };
        assert(less[a] == known[a2] && less[b] == known[b2]);
    }
    assert(known_map(less) =~= known_map(known).remove(key)) by {
        assert forall|k: KeyView| has_entry(less, k) == (has_entry(known, k) && k != key) by {
            if has_entry(less, k) {
                let a = entry_of(less, k);
                let a2 = if a < i { a } else { a + 1 };
                assert(known[a2] == less[a]);
                if a2 < i {
                    assert(known[a2].0@ != known[i].0@);
                } else {
                    assert(known[i].0@ != known[a2].0@);
                }
            }
            if has_entry(known, k) && k != key {
                let b = entry_of(known, k);
                let b2 = if b < i { b } else { b - 1 };
                assert(less[b2] == known[b]);
            }
        }
        assert forall|k: KeyView| has_entry(less, k) implies known_map(less)[k] == known_map(
            known,
        )[k] by {
            let a = entry_of(less, k);
            let a2 = if a < i { a } else { a + 1 };
            assert(known[a2] == less[a]);
            lemma_entry(less, a);
            lemma_entry(known, a2);
        }
    }
}

/// Replacing the slot of the entry at `i` replaces the value of its key.
proof fn lemma_entry_replaced<T>(
    known: Seq<(WindowKey, Option<SampleWindow<T>>)>,
    i: int,
    entry: (WindowKey, Option<SampleWindow<T>>),
)
    requires
        distinct_keys(known),
        0 <= i < known.len(),
        entry.0@ == known[i].0@,
    ensures
        distinct_keys(known.update(i, entry)),
        known_map(known.update(i, entry)) == known_map(known).insert(entry.0@, entry.1),
{
    let next = known.update(i, entry);
    assert forall|a: int, b: int| 0 <= a < b < next.len() implies (#[trigger] next[a]).0@ != (
    #[trigger] next[b]).0@ by {
        assert(next[a].0@ == known[a].0@ && next[b].0@ == known[b].0@);
    }
    assert(known_map(next) =~= known_map(known).insert(entry.0@, entry.1)) by {
        assert forall|k: KeyView| has_entry(next, k) == (has_entry(known, k)) by {
            if has_entry(next, k) {
                let a = entry_of(next, k);
                assert(known[a].0@ == k);
            }
            if has_entry(known, k) {
                let b = entry_of(known, k);
                assert(next[b].0@ == k);
            }
        }
        lemma_entry(next, i);
        lemma_entry(known, i);
        assert forall|k: KeyView| has_entry(next, k) && k != entry.0@ implies known_map(next)[k]
            == known_map(known)[k] by {
            let a = entry_of(next, k);
            assert(next[a] == known[a]);
            lemma_entry(next, a);
            lemma_entry(known, a);
        }
    }
}

/// Adding an entry under a new key adds it to the map.
proof fn lemma_entry_added<T>(
    known: Seq<(WindowKey, Option<SampleWindow<T>>)>,
    entry: (WindowKey, Option<SampleWindow<T>>),
)
    requires
        distinct_keys(known),
        !has_entry(known, entry.0@),
    ensures
        distinct_keys(known.push(entry)),
        known_map(known.push(entry)) == known_map(known).insert(entry.0@, entry.1),
{
    let next = known.push(entry);
    assert forall|a: int, b: int| 0 <= a < b < next.len() implies (#[trigger] next[a]).0@ != (
    #[trigger] next[b]).0@ by {
        assert(next[a] == known[a]);
        if b < known.len() {
            assert(next[b] == known[b]);
        }
    }
    assert(known_map(next) =~= known_map(known).insert(entry.0@, entry.1)) by {
        assert forall|k: KeyView|
            has_entry(next, k) == (has_entry(known, k) || k == entry.0@) by {
            if has_entry(next, k) {
                let a = entry_of(next, k);
                if a < known.len() {
                    assert(known[a].0@ == k);
                }
            }
            if has_entry(known, k) {
                let b = entry_of(known, k);
                assert(next[b].0@ == k);
            }
            assert(next[known.len() as int].0@ == entry.0@);
        }
        lemma_entry(next, known.len() as int);
        assert forall|k: KeyView| has_entry(known, k) implies known_map(next)[k] == known_map(
            known,
        )[k] by {
            let a = entry_of(known, k);
            assert(next[a] == known[a]);
            lemma_entry(next, a);
            lemma_entry(known, a);
        }
    }
}

impl<T> Registry<T> {
    /// No key is registered twice.
    pub closed spec fn keys_distinct(self) -> bool {
        distinct_keys(self.known@)
    }

    /// Keys are distinct, and what is resident stays bounded.
    pub open spec fn wf(self) -> bool {
        self.keys_distinct() && self@.bounded()
    }

    /// A registry that knows no window.
    pub fn new() -> (registry: Self)
        ensures
            registry.wf(),
            registry@ == RegistryView::<T>::empty(),
    {
        let registry = Registry { known: Vec::new(), order: VecDeque::new() };
        proof {
            assert(known_map(registry.known@) =~= Map::empty());
            assert(key_views(registry.order@) =~= Seq::empty());
        }
        registry
    }

    fn position(&self, key: &WindowKey) -> (found: Option<usize>)
        ensures
            match found {
                Some(i) => i < self.known@.len() && self.known@[i as int].0@ == key@,
                None => !has_entry(self.known@, key@),
            },
    {
        let mut i: usize = 0;
        while i < self.known.len()
            invariant
                i <= self.known@.len(),
                forall|j: int| 0 <= j < i ==> (#[trigger] self.known@[j]).0@ != key@,
            decreases self.known@.len() - i,
        {
            if self.known[i].0.same_key(key) {
                return Some(i);
            }
            i += 1;
        }
        None
    }

    fn put(&mut self, key: WindowKey, slot: Option<SampleWindow<T>>)
        requires
            distinct_keys(old(self).known@),
        ensures
            distinct_keys(final(self).known@),
            final(self)@.known == old(self)@.known.insert(key@, slot),
            final(self).order == old(self).order,
    {
        match self.position(&key) {
            Some(i) => {
                let entry = (key, slot);
                proof {
                    lemma_entry_replaced(self.known@, i as int, entry);
                }
                self.known.set(i, entry);
            },
            None => {
                let entry = (key, slot);
                proof {
                    lemma_entry_added(self.known@, entry);
                }
                self.known.push(entry);
            },
        }
    }

    fn drop_known(&mut self, key: &WindowKey)
        requires
            distinct_keys(old(self).known@),
        ensures
            distinct_keys(final(self).known@),
            final(self)@.known == old(self)@.known.remove(key@),
            final(self).order == old(self).order,
    {
        match self.position(key) {
            Some(i) => {
                proof {
                    lemma_entry_removed(self.known@, i as int);
                }
                let _dropped = self.known.remove(i);
            },
            None => {
                proof {
                    assert(known_map(self.known@).remove(key@) =~= known_map(self.known@));
                }
            },
        }
    }

    /// Drops the queued keys of an asset, or only those of one range of it.
    fn drop_queued(&mut self, cache_key: &str, range: Option<(u64, u32)>)
        ensures
            final(self).known == old(self).known,
            final(self)@.order == old(self)@.order.filter(|k: KeyView| !queued_under(k, cache_key@, range)),
    {
        let ghost before = self@.order;
        let ghost keep = |k: KeyView| !queued_under(k, cache_key@, range);
        let ghost mut seen: int = 0;
        let mut i: usize = 0;
        proof {
            assert(before.take(0) =~= Seq::empty());
            assert(before.take(0).filter(keep) =~= Seq::empty()) by {
                before.take(0).lemma_filter_len(keep);
            }
            assert(before.take(0).filter(keep) + before.skip(0) =~= before);
        }
        while i < self.order.len()
            invariant
                self.known == old(self).known,
                keep == (|k: KeyView| !queued_under(k, cache_key@, range)),
                0 <= seen <= before.len(),
                i == before.take(seen).filter(keep).len(),
                self.order@.len() == i + (before.len() - seen),
                key_views(self.order@) == before.take(seen).filter(keep) + before.skip(seen),
            decreases self.order@.len() - i,
        {
            let ghost kept = before.take(seen).filter(keep);
            let ghost views = key_views(self.order@);
            let ghost rest = before.skip(seen);
            proof {
                assert(views[i as int] == rest[0]);
                assert(rest[0] == before[seen]);
                assert(self.order@[i as int]@ == views[i as int]);
                assert(before.take(seen + 1) =~= before.take(seen).push(before[seen]));
                before.take(seen).lemma_filter_push(before[seen], keep);
                assert(before.skip(seen + 1) =~= rest.skip(1));
            }
            let candidate = &self.order[i];
            let mut leaves = crate::text::same_text(&candidate.cache_key, cache_key);
            if let Some((start_frame, frame_count)) = range {
                leaves = leaves && candidate.start_frame == start_frame && candidate.frame_count
                    == frame_count;
            }
            if leaves {
                let _dropped = self.order.remove(i);
                proof {
                    assert(key_views(self.order@) =~= views.remove(i as int));
                    assert(views.remove(i as int) =~= kept + before.skip(seen + 1));
                }
            } else {
                i += 1;
                proof {
                    assert(views =~= kept.push(before[seen]) + before.skip(seen + 1));
                }
            }
            proof {
                seen = seen + 1;
            }
        }
        proof {
            assert(seen == before.len());
            assert(before.take(seen) =~= before);
            assert(before.skip(seen) =~= Seq::empty());
            assert(key_views(self.order@) =~= before.filter(keep));
        }
    }

    /// Keeps a decoded window and lets the oldest one go when there are too
    /// many.
    pub fn install(&mut self, key: WindowKey, window: SampleWindow<T>)
        requires
            old(self).wf(),
            window.end() <= u64::MAX,
        ensures
            final(self).wf(),
            final(self)@ == old(self)@.after_install(key@, window),
    {
        let ghost before = self@;
        let ghost key_view = key@;
        self.put(key.copy_key(), Some(window));
        self.order.push_back(key);
        proof {
            assert(key_views(self.order@) =~= before.order.push(key_view));
        }
        if self.order.len() > MAX_RESIDENT {
            let ghost full = self@;
            if let Some(oldest) = self.order.pop_front() {
                proof {
                    assert(key_views(self.order@) =~= full.order.subrange(1, full.order.len() as int));
                    assert(oldest@ == full.order[0]);
                }
                self.drop_known(&oldest);
            }
        }
        proof {
            assert(self@ =~= before.after_install(key_view, window));
            lemma_install_bounded(before, key_view, window);
        }
    }

    /// Drops a window, whether it is pending or decoded.
    pub fn forget(&mut self, key: &WindowKey)
        requires
            old(self).wf(),
        ensures
            final(self).wf(),
            final(self)@ == old(self)@.after_forget(key@),
    {
        let ghost before = self@;
        self.drop_known(key);
        self.drop_queued(&key.cache_key, Some((key.start_frame, key.frame_count)));
        proof {
            let keep = other_than(key@);
            let kept = |k: KeyView| !queued_under(k, key.cache_key@, Some((key.start_frame, key.frame_count)));
            assert(keep =~= kept);
            assert(self@ =~= before.after_forget(key@));
            lemma_forget_bounded(before, key@);
        }
    }
}

/// Whether a queued key belongs to an asset, and to the range when one is given.
pub open spec fn queued_under(key: KeyView, cache_key: Seq<char>, range: Option<(u64, u32)>) -> bool {
    key.0 == cache_key && match range {
        Some(r) => key.1 == r.0 && key.2 == r.1,
        None => true,
    }
}

/// Drop cached PCM for an asset after the source is rewritten.
pub fn forget_asset<T>(registry: &mut Registry<T>, cache_key: &str)
    requires
        old(registry).wf(),
    ensures
        final(registry).wf(),
        final(registry)@ == old(registry)@.after_forget_asset(cache_key@),
{
    let ghost before = registry@;
    let ghost gone = Set::new(|k: KeyView| k.0 == cache_key@);
    let mut i: usize = 0;
    while i < registry.known.len()
        invariant
            gone == Set::new(|k: KeyView| k.0 == cache_key@),
            distinct_keys(registry.known@),
            i <= registry.known@.len(),
            registry@.order == before.order,
            registry@.known.remove_keys(gone) == before.known.remove_keys(gone),
            forall|j: int| 0 <= j < i ==> (#[trigger] registry.known@[j]).0@.0 != cache_key@,
        decreases registry.known@.len() - i,
    {
        let ghost entries = registry.known@;
        if crate::text::same_text(&registry.known[i].0.cache_key, cache_key) {
            proof {
                lemma_entry_removed(entries, i as int);
                let key = entries[i as int].0@;
                assert(known_map(entries).remove(key).remove_keys(gone) =~= known_map(
                    entries,
                ).remove_keys(gone));
            }
            let _dropped = registry.known.remove(i);
        } else {
            i += 1;
        }
    }
    registry.drop_queued(cache_key, None);
    proof {
        assert forall|k: KeyView| has_entry(registry.known@, k) implies k.0 != cache_key@ by {
            let j = entry_of(registry.known@, k);
            assert(registry.known@[j].0@ == k);
        }
        assert(registry@.known =~= registry@.known.remove_keys(gone));
        let keep = |k: KeyView| k.0 != cache_key@;
        let kept = |k: KeyView| !queued_under(k, cache_key@, None);
        assert(keep =~= kept);
        assert(registry@ =~= before.after_forget_asset(cache_key@));
        lemma_forget_asset_bounded(before, cache_key@);
    }
}

proof fn lemma_install_bounded<T>(view: RegistryView<T>, key: KeyView, window: SampleWindow<T>)
    requires
        view.bounded(),
        window.end() <= u64::MAX,
    ensures
        view.after_install(key, window).bounded(),
{
    let next = view.after_install(key, window);
    let queue = view.order.push(key);
    assert forall|k: KeyView| #[trigger] next.resident(k) implies next.order.contains(k)
        && next.known[k]->0.end() <= u64::MAX by {
        if k == key {
            assert(queue[queue.len() - 1] == key);
            if queue.len() > MAX_RESIDENT {
                assert(next.order[next.order.len() - 1] == key);
            }
        } else {
            assert(view.resident(k));
            let i = choose|i: int| 0 <= i < view.order.len() && view.order[i] == k;
            assert(queue[i] == k);
            if queue.len() > MAX_RESIDENT {
                assert(i != 0);
                assert(next.order[i - 1] == k);
            }
        }
    }
}

proof fn lemma_forget_bounded<T>(view: RegistryView<T>, key: KeyView)
    requires
        view.bounded(),
    ensures
        view.after_forget(key).bounded(),
{
    let next = view.after_forget(key);
    let keep = other_than(key);
    broadcast use vstd::seq_lib::group_filter_ensures;

    assert forall|k: KeyView| #[trigger] next.resident(k) implies next.order.contains(k)
        && next.known[k]->0.end() <= u64::MAX by {
        assert(view.resident(k));
        let i = choose|i: int| 0 <= i < view.order.len() && view.order[i] == k;
        assert(keep(view.order[i]));
    }
}

proof fn lemma_forget_asset_bounded<T>(view: RegistryView<T>, cache_key: Seq<char>)
    requires
        view.bounded(),
    ensures
        view.after_forget_asset(cache_key).bounded(),
{
    let next = view.after_forget_asset(cache_key);
    let keep = |k: KeyView| k.0 != cache_key;
    broadcast use vstd::seq_lib::group_filter_ensures;

    assert forall|k: KeyView| #[trigger] next.resident(k) implies next.order.contains(k)
        && next.known[k]->0.end() <= u64::MAX by {
        assert(view.resident(k));
        let i = choose|i: int| 0 <= i < view.order.len() && view.order[i] == k;
        assert(keep(view.order[i]));
    }
}

/// Whether a text holds nothing but white space.
fn is_blank(text: &str) -> (white: bool)
    ensures
        white == blank(text@),
{
    let chars = chars_of(text);
    let mut i: usize = 0;
    while i < chars.len()
        invariant
            chars@ == text@,
            i <= chars@.len(),
            forall|j: int| 0 <= j < i ==> white_space(#[trigger] text@[j]),
        decreases chars@.len() - i,
    {
        if !chars[i].is_whitespace() {
            return false;
        }
        i += 1;
    }
    true
}

/// Ask for the PCM covering source frames `[first_frame, last_frame)`.
///
/// The request, if there is one, is for the worker's bounded queue. When the
/// queue refuses it, `forget` takes the pending mark back.
pub fn note_needed<T>(
    registry: &mut Registry<T>,
    cache_key: &str,
    source_path: &str,
    first_frame: u64,
    last_frame: u64,
    total_frames: u64,
) -> (request: Option<SampleRequest>)
    requires
        old(registry).wf(),
    ensures
        final(registry).wf(),
        ({
            let key = needed_key(cache_key@, first_frame, last_frame, total_frames);
            if worth_asking(source_path@, first_frame, last_frame, total_frames)
                && !old(registry)@.known.contains_key(key) {
                &&& final(registry)@ == old(registry)@.after_request(key)
                &&& request matches Some(r) && r.key@ == key && r.path@ == source_path@
            } else {
                final(registry)@ == old(registry)@ && request is None
            }
        }),
{
    if is_blank(source_path) || total_frames == 0 || last_frame <= first_frame {
        return None;
    }
    let start_frame: u64 = first_frame / ALIGN_FRAMES * ALIGN_FRAMES;
    let end: u64 = if last_frame < total_frames { last_frame } else { total_frames };
    let span: u64 = end.saturating_sub(start_frame);
    let frame_count: u32 = if span < 1 {
        1
    } else if span > MAX_WINDOW_FRAMES as u64 {
        MAX_WINDOW_FRAMES as u32
    } else {
        span as u32
    };
    let key = WindowKey { cache_key: cache_key.to_owned(), start_frame, frame_count };
    match registry.position(&key) {
        Some(i) => {
            proof {
                lemma_entry(registry.known@, i as int);
            }
            None
        },
        None => {
            let ghost before = registry@;
            registry.put(key.copy_key(), None);
            proof {
                assert(registry@ =~= before.after_request(key@));
                assert forall|k: KeyView| #[trigger] registry@.resident(k) implies before.resident(
                    k,
                ) && registry@.known[k] == before.known[k] by {}
            }
            Some(SampleRequest { key, path: source_path.to_owned() })
        },
    }
}

/// A resident window of the asset that reaches the range, if there is one.
///
/// When several do, any of them may be handed out.
pub fn get_window<T>(
    registry: &Registry<T>,
    cache_key: &str,
    first_frame: u64,
    last_frame: u64,
) -> (found: Option<SampleWindowView<T>>)
    requires
        registry.wf(),
    ensures
        match found {
            Some(view) => exists|key: KeyView| #[trigger]
                answers(registry@, key, cache_key@, first_frame, last_frame) && shares(
                    view,
                    registry@.known[key]->0,
                ),
            None => forall|key: KeyView| !#[trigger]
                answers(registry@, key, cache_key@, first_frame, last_frame),
        },
{
    let start: u64 = first_frame / ALIGN_FRAMES * ALIGN_FRAMES;
    let until: u64 = if last_frame < start + 1 { last_frame } else { start + 1 };
    let mut i: usize = 0;
    while i < registry.known.len()
        invariant
            registry.wf(),
            start == aligned(first_frame),
            start < u64::MAX,
            until == if last_frame < start + 1 { last_frame as int } else { start + 1 },
            i <= registry.known@.len(),
            forall|j: int|
                0 <= j < i ==> !answers(
                    registry@,
                    (#[trigger] registry.known@[j]).0@,
                    cache_key@,
                    first_frame,
                    last_frame,
                ),
        decreases registry.known@.len() - i,
    {
        let entry = &registry.known[i];
        proof {
            lemma_entry(registry.known@, i as int);
            assert(registry@.known[entry.0@] == entry.1);
        }
        if crate::text::same_text(&entry.0.cache_key, cache_key) {
            if let Some(window) = &entry.1 {
                proof {
                    assert(registry@.resident(entry.0@));
                    assert(window.end() <= u64::MAX);
                }
                let end: u64 = window.start_frame + window.mono.len() as u64;
                if window.start_frame <= start && end >= until {
                    let view = SampleWindowView {
                        start_frame: window.start_frame,
                        mono: Arc::clone(&window.mono),
                        left: Arc::clone(&window.left),
                        right: Arc::clone(&window.right),
                    };
                    proof {
                        assert(answers(registry@, entry.0@, cache_key@, first_frame, last_frame));
                        assert(shares(view, registry@.known[entry.0@]->0));
                    }
                    return Some(view);
                }
            }
        }
        i += 1;
    }
    proof {
        assert forall|key: KeyView| !#[trigger]
            answers(registry@, key, cache_key@, first_frame, last_frame) by {
            if has_entry(registry.known@, key) {
                let j = entry_of(registry.known@, key);
                assert(registry.known@[j].0@ == key);
            }
        }
    }
    None
}

/// How many frames to decode for a request, or `None` when there are none.
pub fn decode_count(total_frames: u64, start_frame: u64, frame_count: u32) -> (count: Option<u64>)
    ensures
        count == decode_span(total_frames, start_frame, frame_count),
{
    if start_frame >= total_frames || frame_count == 0 {
        return None;
    }
    let room: u64 = total_frames - start_frame;
    let wanted: u64 = if (frame_count as u64) < MAX_WINDOW_FRAMES as u64 {
        frame_count as u64
    } else {
        MAX_WINDOW_FRAMES as u64
    };
    Some(if wanted < room { wanted } else { room })
}

/// Whether the worker has to open another source for a request.
pub fn needs_reopen(open_path: &Option<String>, path: &str) -> (reopen: bool)
    ensures
        reopen == !(*open_path is Some && open_path->0@ == path@),
{
    match open_path {
        Some(open_path) => !crate::text::same_text(open_path, path),
        None => true,
    }
}

/// A decoded frame: both channels and their mean.
#[derive(Clone, Copy)]
pub struct DecodedFrame<T> {
    pub left: T,
    pub right: T,
    pub mono: T,
}

/// The window made of decoded frames.
pub fn window_of<T: Copy>(start_frame: u64, frames: &Vec<DecodedFrame<T>>) -> (window: SampleWindow<T>)
    ensures
        window.start_frame == start_frame,
        window.mono@ == frames@.map_values(|frame: DecodedFrame<T>| frame.mono),
        window.left@ == frames@.map_values(|frame: DecodedFrame<T>| frame.left),
        window.right@ == frames@.map_values(|frame: DecodedFrame<T>| frame.right),
        window.end() == start_frame + frames@.len(),
{
    let mut mono: Vec<T> = Vec::new();
    let mut left: Vec<T> = Vec::new();
    let mut right: Vec<T> = Vec::new();
    let mut i: usize = 0;
    while i < frames.len()
        invariant
            i <= frames@.len(),
            mono@ == frames@.take(i as int).map_values(|frame: DecodedFrame<T>| frame.mono),
            left@ == frames@.take(i as int).map_values(|frame: DecodedFrame<T>| frame.left),
            right@ == frames@.take(i as int).map_values(|frame: DecodedFrame<T>| frame.right),
        decreases frames@.len() - i,
    {
        let frame = frames[i];
        mono.push(frame.mono);
        left.push(frame.left);
        right.push(frame.right);
        proof {
            let next = frames@.take(i as int + 1);
            assert(mono@ =~= next.map_values(|frame: DecodedFrame<T>| frame.mono));
            assert(left@ =~= next.map_values(|frame: DecodedFrame<T>| frame.left));
            assert(right@ =~= next.map_values(|frame: DecodedFrame<T>| frame.right));
        }
        i += 1;
    }
    proof {
        assert(frames@.take(i as int) =~= frames@);
    }
    SampleWindow {
        start_frame,
        mono: Arc::new(mono),
        left: Arc::new(left),
        right: Arc::new(right),
    }
}

/// Settles a request: a decoded window is kept, a failed one is taken back.
pub fn settle_request<T>(registry: &mut Registry<T>, key: WindowKey, decoded: Option<SampleWindow<T>>)
    requires
        old(registry).wf(),
        decoded matches Some(window) ==> window.end() <= u64::MAX,
    ensures
        final(registry).wf(),
        final(registry)@ == match decoded {
            Some(window) => old(registry)@.after_install(key@, window),
            None => old(registry)@.after_forget(key@),
        },
{
    match decoded {
        Some(window) => registry.install(key, window),
        None => registry.forget(&key),
    }
}

// ------------------------------------------------------------------- laws

/// However many windows are decoded, at most `MAX_RESIDENT` stay resident.
pub proof fn law_resident_windows_are_bounded<T>(view: RegistryView<T>)
    requires
        view.bounded(),
    ensures
        Set::new(|key: KeyView| view.resident(key)).finite(),
        Set::new(|key: KeyView| view.resident(key)).len() <= MAX_RESIDENT,
{
    let residents = Set::new(|key: KeyView| view.resident(key));
    let queued = view.order.to_set();
    vstd::seq_lib::seq_to_set_is_finite(view.order);
    assert(residents.subset_of(queued)) by {
        assert forall|key: KeyView| residents.contains(key) implies queued.contains(key) by {
            assert(view.resident(key));
        }
    }
    vstd::set_lib::lemma_len_subset(residents, queued);
    view.order.lemma_cardinality_of_set();
}

/// Every operation keeps the bound: installing, forgetting, forgetting an
/// asset and asking for a window.
pub proof fn law_every_operation_keeps_the_bound<T>(
    view: RegistryView<T>,
    key: KeyView,
    window: SampleWindow<T>,
    cache_key: Seq<char>,
)
    requires
        view.bounded(),
        window.end() <= u64::MAX,
    ensures
        RegistryView::<T>::empty().bounded(),
        view.after_install(key, window).bounded(),
        view.after_forget(key).bounded(),
        view.after_forget_asset(cache_key).bounded(),
        view.after_request(key).bounded(),
{
    lemma_install_bounded(view, key, window);
    lemma_forget_bounded(view, key);
    lemma_forget_asset_bounded(view, cache_key);
    let next = view.after_request(key);
    assert forall|k: KeyView| #[trigger] next.resident(k) implies next.order.contains(k)
        && next.known[k]->0.end() <= u64::MAX by {
        assert(view.resident(k));
    }
}

/// A requested window starts aligned, at or before the first frame asked for,
/// and its size stays between one frame and a full window.
pub proof fn law_requests_are_aligned_and_bounded(
    cache_key: Seq<char>,
    first: u64,
    last: u64,
    total: u64,
)
    ensures
        ({
            let key = needed_key(cache_key, first, last, total);
            &&& key.1 % ALIGN_FRAMES == 0
            &&& key.1 <= first < key.1 + ALIGN_FRAMES
            &&& 1 <= key.2 <= MAX_WINDOW_FRAMES
        }),
{
}

/// A pending or decoded window is not asked for a second time.
pub proof fn law_a_window_is_asked_for_once<T>(view: RegistryView<T>, key: KeyView)
    ensures
        view.after_request(key).known.contains_key(key),
        view.after_request(key).after_request(key) == view.after_request(key),
{
    assert(view.after_request(key).after_request(key) =~= view.after_request(key));
}

/// Taking back a request that the worker's queue refused leaves the registry
/// as it was, when the window was neither known nor queued before.
pub proof fn law_a_refused_request_leaves_no_trace<T>(view: RegistryView<T>, key: KeyView)
    requires
        !view.known.contains_key(key),
        !view.order.contains(key),
    ensures
        view.after_request(key).after_forget(key) == view,
{
    let asked = view.after_request(key);
    lemma_filter_keeps_all(asked.order, other_than(key));
    assert(asked.after_forget(key).known =~= view.known);
}

proof fn lemma_filter_keeps_all(order: Seq<KeyView>, keep: spec_fn(KeyView) -> bool)
    requires
        forall|i: int| 0 <= i < order.len() ==> keep(#[trigger] order[i]),
    ensures
        order.filter(keep) == order,
    decreases order.len(),
{
    if order.len() > 0 {
        let front = order.drop_last();
        assert forall|i: int| 0 <= i < front.len() implies keep(#[trigger] front[i]) by {
            assert(front[i] == order[i]);
        }
        lemma_filter_keeps_all(front, keep);
        assert(order =~= front.push(order.last()));
        front.lemma_filter_push(order.last(), keep);
    } else {
        order.lemma_filter_len(keep);
        assert(order.filter(keep) =~= order);
    }
}

/// A freshly decoded window answers the look-up it was decoded for, unless its
/// own key was the oldest in a full queue.
pub proof fn law_a_decoded_window_is_found<T>(
    view: RegistryView<T>,
    cache_key: Seq<char>,
    first: u64,
    last: u64,
    total: u64,
    window: SampleWindow<T>,
)
    requires
        view.bounded(),
        first < last,
        first < total,
        window.start_frame == aligned(first),
        window.mono@.len() >= 1,
        window.end() <= u64::MAX,
        view.order.len() == MAX_RESIDENT ==> view.order[0] != needed_key(cache_key, first, last, total),
    ensures
        answers(
            view.after_install(needed_key(cache_key, first, last, total), window),
            needed_key(cache_key, first, last, total),
            cache_key,
            first,
            last,
        ),
{
}

/// After an asset is forgotten no look-up finds a window of it.
pub proof fn law_a_forgotten_asset_has_no_windows<T>(
    view: RegistryView<T>,
    cache_key: Seq<char>,
    key: KeyView,
    first: u64,
    last: u64,
)
    ensures
        !answers(view.after_forget_asset(cache_key), key, cache_key, first, last),
{
}

/// Forgetting an asset leaves what is known of every other asset alone.
pub proof fn law_forgetting_an_asset_spares_the_others<T>(
    view: RegistryView<T>,
    cache_key: Seq<char>,
    other: Seq<char>,
    key: KeyView,
    first: u64,
    last: u64,
)
    requires
        other != cache_key,
    ensures
        answers(view.after_forget_asset(cache_key), key, other, first, last) == answers(
            view,
            key,
            other,
            first,
            last,
        ),
        key.0 == other && view.known.contains_key(key) ==> {
            &&& view.after_forget_asset(cache_key).known.contains_key(key)
            &&& view.after_forget_asset(cache_key).known[key] == view.known[key]
        },
{
}

/// A decode pass never reads past the end of the source, nor more than a full
/// window, and reads at least one frame when it reads at all.
pub proof fn law_decoding_stays_inside_the_source(total: u64, start: u64, count: u32)
    ensures
        decode_span(total, start, count) matches Some(n) ==> {
            &&& 1 <= n <= MAX_WINDOW_FRAMES
            &&& n <= count
            &&& start + n <= total
        },
{
}

/// A window that answers a look-up belongs to the asset, and holds the frame at
/// which the range starts once it is rounded down to a multiple of 256: one that
/// starts later or ends earlier is never an answer.
pub proof fn law_an_answer_holds_the_start_of_the_range<T>(
    view: RegistryView<T>,
    key: KeyView,
    cache_key: Seq<char>,
    first: u64,
    last: u64,
)
    requires
        first < last,
        answers(view, key, cache_key, first, last),
    ensures
        ({
            let window = view.known[key]->0;
            let from = first - first % 256;
            &&& key.0 == cache_key
            &&& view.known.contains_key(key) && view.known[key] is Some
            &&& window.start_frame <= from < window.start_frame + window.mono@.len()
        }),
{
}

/// Every decoded window of the asset that holds the start of the range answers a
/// look-up: none is passed over.
pub proof fn law_a_window_that_holds_the_start_is_an_answer<T>(
    view: RegistryView<T>,
    key: KeyView,
    first: u64,
    last: u64,
)
    requires
        first < last,
        view.known.contains_key(key),
        view.known[key] is Some,
        ({
            let window = view.known[key]->0;
            let from = first - first % 256;
            window.start_frame <= from < window.start_frame + window.mono@.len()
        }),
    ensures
        answers(view, key, key.0, first, last),
{
}

/// What a look-up hands out is the window: its place and all of its channels.
pub proof fn law_a_look_shows_the_window<T>(view: SampleWindowView<T>, window: SampleWindow<T>)
    requires
        shares(view, window),
    ensures
        view.start_frame == window.start_frame,
        view.mono@ == window.mono@,
        view.left@ == window.left@,
        view.right@ == window.right@,
{
}

/// A requested window reaches the end of the range, or of the source, or is as
/// large as a window gets; and it reaches no further.
pub proof fn law_a_request_reaches_the_end_of_the_range(
    cache_key: Seq<char>,
    first: u64,
    last: u64,
    total: u64,
)
    requires
        first < last,
        first < total,
    ensures
        ({
            let key = needed_key(cache_key, first, last, total);
            let until = if last < total {
                last
            } else {
                total
            };
            &&& key.0 == cache_key
            &&& key.1 == first - first % 256
            &&& key.1 + key.2 <= until
            &&& key.1 + key.2 == until || key.2 == 8_192
        }),
{
}

/// Something is asked for if and only if there is a source, something in it, and
/// something of it to show.
pub proof fn law_nothing_is_asked_for_in_vain(path: Seq<char>, first: u64, last: u64, total: u64)
    ensures
        worth_asking(path, first, last, total) <==> total > 0 && first < last && exists|i: int|
            0 <= i < path.len() && !white_space(#[trigger] path[i]),
{
}

/// A request is known and pending from then on, and touches no other window.
pub proof fn law_a_request_is_pending<T>(view: RegistryView<T>, key: KeyView, other: KeyView)
    requires
        other != key,
    ensures
        ({
            let next = view.after_request(key);
            &&& next.known.contains_key(key) && next.known[key] is None
            &&& next.known.contains_key(other) == view.known.contains_key(other)
            &&& view.known.contains_key(other) ==> next.known[other] == view.known[other]
            &&& next.order == view.order
        }),
{
}

/// A decoded window is kept as it was decoded, at the end of the queue; while
/// there is room, every other window stays.
pub proof fn law_a_decoded_window_is_kept<T>(
    view: RegistryView<T>,
    key: KeyView,
    window: SampleWindow<T>,
    other: KeyView,
)
    requires
        view.order.len() < 24,
        other != key,
    ensures
        ({
            let next = view.after_install(key, window);
            &&& next.known.contains_key(key) && next.known[key] == Some(window)
            &&& next.known.contains_key(other) == view.known.contains_key(other)
            &&& view.known.contains_key(other) ==> next.known[other] == view.known[other]
            &&& next.order.len() == view.order.len() + 1
            &&& next.order.last() == key
            &&& next.order.drop_last() == view.order
        }),
{
    assert(view.after_install(key, window).order.drop_last() =~= view.order);
}

/// When the queue is full, the window that was decoded longest ago leaves, and
/// no other.
pub proof fn law_the_oldest_window_leaves<T>(
    view: RegistryView<T>,
    key: KeyView,
    window: SampleWindow<T>,
    other: KeyView,
)
    requires
        view.order.len() == 24,
        view.order[0] != key,
        other != key,
        other != view.order[0],
    ensures
        ({
            let next = view.after_install(key, window);
            &&& !next.known.contains_key(view.order[0])
            &&& next.known.contains_key(key) && next.known[key] == Some(window)
            &&& next.known.contains_key(other) == view.known.contains_key(other)
            &&& view.known.contains_key(other) ==> next.known[other] == view.known[other]
            &&& next.order == view.order.skip(1).push(key)
        }),
{
    assert(view.after_install(key, window).order =~= view.order.skip(1).push(key));
}

/// A dropped window is neither known nor queued any more, and every other one is
/// as it was.
pub proof fn law_a_dropped_window_is_gone<T>(view: RegistryView<T>, key: KeyView, other: KeyView)
    requires
        other != key,
    ensures
        ({
            let next = view.after_forget(key);
            &&& !next.known.contains_key(key)
            &&& !next.order.contains(key)
            &&& next.known.contains_key(other) == view.known.contains_key(other)
            &&& view.known.contains_key(other) ==> next.known[other] == view.known[other]
            &&& next.order.contains(other) == view.order.contains(other)
        }),
{
    broadcast use vstd::seq_lib::group_filter_ensures;

    let keep = other_than(key);
    let next = view.after_forget(key);
    if next.order.contains(key) {
        let i = choose|i: int| 0 <= i < next.order.len() && next.order[i] == key;
        assert(keep(next.order[i]));
    }
    if view.order.contains(other) {
        let i = choose|i: int| 0 <= i < view.order.len() && view.order[i] == other;
        assert(keep(view.order[i]));
    }
    if next.order.contains(other) {
        let i = choose|i: int| 0 <= i < next.order.len() && next.order[i] == other;
        view.order.lemma_filter_contains_rev(keep, next.order[i]);
    }
}

/// A forgotten asset has no window left, pending or decoded, known or queued.
pub proof fn law_a_forgotten_asset_is_gone<T>(
    view: RegistryView<T>,
    cache_key: Seq<char>,
    key: KeyView,
)
    requires
        key.0 == cache_key,
    ensures
        !view.after_forget_asset(cache_key).known.contains_key(key),
        !view.after_forget_asset(cache_key).order.contains(key),
{
    broadcast use vstd::seq_lib::group_filter_ensures;

    let keep = |k: KeyView| k.0 != cache_key;
    let next = view.after_forget_asset(cache_key);
    if next.order.contains(key) {
        let i = choose|i: int| 0 <= i < next.order.len() && next.order[i] == key;
        assert(keep(next.order[i]));
    }
}

/// A new registry knows nothing, so no look-up finds anything in it.
pub proof fn law_a_new_registry_answers_nothing<T>(
    key: KeyView,
    cache_key: Seq<char>,
    first: u64,
    last: u64,
)
    ensures
        !answers(RegistryView::<T>::empty(), key, cache_key, first, last),
        !RegistryView::<T>::empty().known.contains_key(key),
{
}

/// A decode pass reads as many frames as were asked for, or as a window holds,
/// or as the source has left; and nothing only where nothing is left or asked
/// for.
pub proof fn law_decoding_reads_what_there_is(total: u64, start: u64, count: u32)
    ensures
        decode_span(total, start, count) is Some <==> start < total && count > 0,
        decode_span(total, start, count) matches Some(n) ==> n == count || n == 8_192 || start + n
            == total,
{
}

/// The window ends behind its last frame.
pub proof fn law_a_window_ends_behind_its_last_frame<T>(window: SampleWindow<T>)
    ensures
        window.end() - window.start_frame == window.mono@.len(),
{
}

/// Windows start on multiples of 256 frames, hold at most 32 times as many, and
/// at most 24 of them are kept.
pub proof fn law_windows_are_bounded()
    ensures
        ALIGN_FRAMES == 256,
        MAX_WINDOW_FRAMES == 32 * ALIGN_FRAMES,
        MAX_RESIDENT == 24,
{
}

} // verus!
