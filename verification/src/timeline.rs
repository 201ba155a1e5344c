//! The part of the arrangement that the audio editor and its tools read.
//!
//! Positions, gains and ratios are carried as opaque values of type `T`: the
//! decisions in this crate never look inside them.

use vstd::prelude::*;

verus! {

/// How far the import of a clip's source has come.
pub enum AudioImportState {
    Pending,
    Probing,
    Decoding,
    /// Building peaks; the share done, in whole percent.
    GeneratingPeaks { percent: u32 },
    Ready,
    Failed { message: String },
}

/// What a clip plays.
pub enum ClipType {
    Audio { source_path: Option<String> },
    Midi,
    Video,
}

/// How a clip's length follows the project.
#[derive(Clone, Copy, PartialEq, Eq, Structural, Debug)]
pub enum StretchMode {
    Off,
    Resample,
    TempoSync,
    Manual,
    Warp,
}

/// The renderer behind a stretched clip.
#[derive(Clone, Copy, PartialEq, Eq, Structural, Debug)]
pub enum StretchAlgorithm {
    PhaseVocoder,
    Other { tag: u32 },
}

/// The interpolation after an envelope point.
#[derive(Clone, Copy, PartialEq, Eq, Structural, Debug)]
pub enum EnvelopeCurve {
    Linear,
    Other { tag: u32 },
}

/// One point of the gain envelope.
#[derive(Clone, Copy)]
pub struct EnvelopePoint<T> {
    pub id: u64,
    pub time: T,
    pub value_db: T,
    pub curve: EnvelopeCurve,
}

/// A beat, together with its rank in the total order of beats.
#[derive(Clone, Copy)]
pub struct BeatPosition<T> {
    pub beat: T,
    pub rank: i64,
}

/// A source sample pinned to a beat.
#[derive(Clone, Copy)]
pub struct WarpMarker<T> {
    pub id: u64,
    pub source_sample: u64,
    pub timeline_beat: BeatPosition<T>,
    pub locked: bool,
}

/// How a clip's source is stretched, faded and shaped.
pub struct AudioClipStretchState<T> {
    pub mode: StretchMode,
    pub algorithm: StretchAlgorithm,
    pub preserve_pitch: bool,
    pub bpm_source: Option<T>,
    pub bpm_target: Option<T>,
    pub time_ratio: T,
    pub reverse: bool,
    pub denoise_amount: T,
    pub channel_transform: u32,
    pub fade_in_ms: T,
    pub fade_out_ms: T,
    pub gain_envelope: Vec<EnvelopePoint<T>>,
    pub warp_markers: Vec<WarpMarker<T>>,
    pub source_start_samples: u64,
    pub source_end_samples: u64,
    pub original_duration_samples: u64,
    pub original_sample_rate: u32,
    pub dirty: bool,
}

/// A clip on a track.
pub struct ClipState<T> {
    pub id: String,
    pub name: String,
    pub clip_type: ClipType,
    /// The stable identity of the clip's source, if it has one.
    pub asset_key: Option<String>,
    pub audio_import: AudioImportState,
    pub start_beat: T,
    pub duration_beats: T,
    pub offset_beats: T,
    pub gain: T,
    pub stretch: AudioClipStretchState<T>,
}

/// A track and its clips.
pub struct TrackState<T> {
    pub color: u32,
    pub clips: Vec<ClipState<T>>,
}

/// What is selected in the arrangement, in the order of selection.
pub struct TimelineSelection {
    pub selected_clip_ids: Vec<String>,
}

/// The arrangement.
pub struct TimelineState<T> {
    pub tracks: Vec<TrackState<T>>,
    pub selection: TimelineSelection,
}

impl ClipType {
    /// Whether the clip plays audio.
    pub open spec fn audio(self) -> bool {
        self is Audio
    }

    /// Whether the clip plays audio.
    pub fn is_audio(&self) -> (audio: bool)
        ensures
            audio == self.audio(),
    {
        match self {
            ClipType::Audio { .. } => true,
            _ => false,
        }
    }
}

impl<T> TimelineState<T> {
    /// Whether the clip at a place has an id.
    pub open spec fn clip_is(self, id: Seq<char>, track: int, clip: int) -> bool {
        &&& 0 <= track < self.tracks@.len()
        &&& 0 <= clip < self.tracks@[track].clips@.len()
        &&& self.tracks@[track].clips@[clip].id@ == id
    }

    /// Whether a place holds the first clip with an id, in track order.
    pub open spec fn clip_is_first(self, id: Seq<char>, track: int, clip: int) -> bool {
        &&& self.clip_is(id, track, clip)
        &&& forall|t: int, c: int| #[trigger]
            self.clip_is(id, t, c) ==> track < t || (track == t && clip <= c)
    }

    /// The place of the first clip with an id.
    pub open spec fn place_of(self, id: Seq<char>) -> Option<(int, int)> {
        if exists|t: int, c: int| self.clip_is_first(id, t, c) {
            Some(choose|p: (int, int)| #[trigger] self.clip_is_first(id, p.0, p.1))
        } else {
            None
        }
    }

    /// The clip at a place.
    pub open spec fn clip_at(self, place: (int, int)) -> ClipState<T> {
        self.tracks@[place.0].clips@[place.1]
    }

    /// Whether the selected id at `index` names an audio clip.
    pub open spec fn selects_audio(self, index: int) -> bool {
        &&& 0 <= index < self.selection.selected_clip_ids@.len()
        &&& self.place_of(self.selection.selected_clip_ids@[index]@) matches Some(place)
            && self.clip_at(place).clip_type.audio()
    }

    /// Whether the selected id at `index` is the first that names an audio clip.
    pub open spec fn selects_audio_first(self, index: int) -> bool {
        &&& self.selects_audio(index)
        &&& forall|i: int| 0 <= i < index ==> !#[trigger] self.selects_audio(i)
    }

    /// The place of the first selected audio clip.
    pub open spec fn selected_place(self) -> Option<(int, int)> {
        if exists|index: int| self.selects_audio_first(index) {
            let index = choose|index: int| self.selects_audio_first(index);
            self.place_of(self.selection.selected_clip_ids@[index]@)
        } else {
            None
        }
    }

    /// The place that holds the first clip with an id is the place of that id.
    pub proof fn lemma_place_of(self, id: Seq<char>, track: int, clip: int)
        requires
            self.clip_is_first(id, track, clip),
        ensures
            self.place_of(id) == Some((track, clip)),
    {
        let found = (track, clip);
        assert(self.clip_is_first(id, found.0, found.1));
        let place = choose|p: (int, int)| #[trigger] self.clip_is_first(id, p.0, p.1);
        assert(self.clip_is(id, place.0, place.1));
    }

    /// An id has a place exactly when some clip has it, and the first clip with
    /// the id stands there.
    pub proof fn law_every_clip_is_found(self, id: Seq<char>)
        ensures
            self.place_of(id) is Some == exists|t: int, c: int| self.clip_is(id, t, c),
            self.place_of(id) matches Some(place) ==> self.clip_is_first(id, place.0, place.1),
    {
        if exists|t: int, c: int| self.clip_is(id, t, c) {
            let (t, c) = choose|t: int, c: int| self.clip_is(id, t, c);
            self.lemma_first_exists(id, t, c);
            let (first_t, first_c) = choose|t: int, c: int| self.clip_is_first(id, t, c);
            self.lemma_place_of(id, first_t, first_c);
        }
    }

    proof fn lemma_first_exists(self, id: Seq<char>, track: int, clip: int)
        requires
            self.clip_is(id, track, clip),
        ensures
            exists|t: int, c: int| self.clip_is_first(id, t, c),
        decreases track, clip,
    {
        if !self.clip_is_first(id, track, clip) {
            let (t, c) = choose|t: int, c: int| #[trigger]
                self.clip_is(id, t, c) && !(track < t || (track == t && clip <= c));
            self.lemma_first_exists(id, t, c);
        }
    }

    /// The first clip with an id, in track order, and its track.
    pub fn find_clip(&self, id: &str) -> (found: Option<(&TrackState<T>, &ClipState<T>)>)
        ensures
            match found {
                Some((track, clip)) => self.place_of(id@) matches Some(place) && {
                    &&& self.clip_is_first(id@, place.0, place.1)
                    &&& *track == self.tracks@[place.0]
                    &&& *clip == self.clip_at(place)
                },
                None => self.place_of(id@) is None,
            },
    {
        let mut t: usize = 0;
        while t < self.tracks.len()
            invariant
                t <= self.tracks@.len(),
                forall|a: int, c: int| #[trigger] self.clip_is(id@, a, c) ==> a >= t,
            decreases self.tracks@.len() - t,
        {
            let track = &self.tracks[t];
            let mut c: usize = 0;
            while c < track.clips.len()
                invariant
                    t < self.tracks@.len(),
                    *track == self.tracks@[t as int],
                    c <= track.clips@.len(),
                    forall|a: int, b: int| #[trigger]
                        self.clip_is(id@, a, b) ==> a > t || (a == t && b >= c),
                decreases track.clips@.len() - c,
            {
                let clip = &track.clips[c];
                if crate::text::same_text(&clip.id, id) {
                    proof {
                        assert(self.clip_is_first(id@, t as int, c as int));
                        self.lemma_place_of(id@, t as int, c as int);
                    }
                    return Some((track, clip));
                }
                c += 1;
            }
            t += 1;
        }
        proof {
            assert forall|a: int, b: int| !self.clip_is(id@, a, b) by {}
        }
        None
    }
}

} // verus!
