//! What a gesture of the pointer, a key and a control of the editor bring about.

use vstd::prelude::*;

use crate::editor::{
    AudioEditorDrag, AudioEditorEvent, AudioEditorSnap, AudioEditorTool, ClipEdge, FrequencyScale,
    HostEffect, KeyAction, PointerReading, StretchEdit,
};
use crate::host::{Audition, AudioEditorHost, SourceFacts};
use crate::stretch::AudioFadeSide;
use crate::target::{AudioRangeSelection, AudioToolKind, WaveformFileMeta};
use crate::timeline::{ClipState, ClipType};

verus! {

// ---------------------------------------------------------------- selecting

/// A spectral selection is the box under the pointer from the press on: every
/// move draws it anew, whatever it was before, and the release keeps the box it
/// ends on, unless that is empty. The time selection is left alone.
pub proof fn law_a_spectral_selection_follows_the_pointer<T, R>(
    host: AudioEditorHost<T, R>,
    clip: ClipState<T>,
    press: PointerReading<T>,
    pass: PointerReading<T>,
    release: PointerReading<T>,
)
    requires
        host.state.active_tool == AudioEditorTool::SpectralRange,
    ensures
        ({
            let pressed = host.after_event(AudioEditorEvent::PointerDown, Some(clip), press).0;
            let moved = pressed.after_event(AudioEditorEvent::PointerMove, Some(clip), pass).0;
            let released = moved.after_event(AudioEditorEvent::PointerUp, Some(clip), release).0;
            &&& pressed.state.spectral_selection == Some(press.spectral)
            &&& moved.state.spectral_selection == Some(pass.spectral)
            &&& release.drawn_spectral_empty ==> released.state.spectral_selection is None
            &&& !release.drawn_spectral_empty ==> released.state.spectral_selection == Some(
                release.spectral,
            )
            &&& released.state.selection_range == host.state.selection_range
        }),
{
}

/// While a spectral range is being selected, a move makes the selection the box
/// read at the pointer, and the gesture goes on.
pub proof fn law_a_move_draws_the_spectral_box<T, R>(
    host: AudioEditorHost<T, R>,
    clip: ClipState<T>,
    at: PointerReading<T>,
)
    requires
        host.state.drag is SelectingSpectralRange,
    ensures
        ({
            let (moved, effects) = host.after_event(
                AudioEditorEvent::PointerMove,
                Some(clip),
                at,
            );
            &&& moved.state.spectral_selection == Some(at.spectral)
            &&& moved.state.drag == host.state.drag
            &&& effects.contains(HostEffect::Notify)
        }),
{
    let effects = host.after_event(AudioEditorEvent::PointerMove, Some(clip), at).1;
    assert(effects[0] == HostEffect::<T>::Notify);
}

/// A time selection runs from where the pointer went down to where it is, and
/// the release keeps it, unless it is empty. The spectral selection is left
/// alone.
pub proof fn law_a_range_runs_from_the_press_to_the_pointer<T, R>(
    host: AudioEditorHost<T, R>,
    clip: ClipState<T>,
    press: PointerReading<T>,
    pass: PointerReading<T>,
    release: PointerReading<T>,
)
    requires
        host.state.active_tool == AudioEditorTool::Range,
    ensures
        ({
            let pressed = host.after_event(AudioEditorEvent::PointerDown, Some(clip), press).0;
            let moved = pressed.after_event(AudioEditorEvent::PointerMove, Some(clip), pass).0;
            let released = moved.after_event(AudioEditorEvent::PointerUp, Some(clip), release).0;
            &&& pressed.state.selection_range == Some((press.rel_beat, press.rel_beat))
            &&& moved.state.selection_range == Some((press.rel_beat, pass.rel_beat))
            &&& release.drawn_range_empty ==> released.state.selection_range is None
            &&& !release.drawn_range_empty ==> released.state.selection_range == Some(
                (press.rel_beat, release.rel_beat),
            )
            &&& released.state.spectral_selection == host.state.spectral_selection
        }),
{
}

/// Where the pointer is released without a clip, a selection stays as it was
/// drawn, unless it is empty; and a release drops nothing that was not being
/// selected.
pub proof fn law_a_release_without_a_clip_keeps_the_selection<T, R>(
    host: AudioEditorHost<T, R>,
    at: PointerReading<T>,
)
    ensures
        ({
            let released = host.after_event(AudioEditorEvent::PointerUp, None, at).0;
            &&& released.state.selection_range == if host.state.drag is SelectingRange
                && at.kept_range_empty {
                None
            } else {
                host.state.selection_range
            }
            &&& released.state.spectral_selection == if host.state.drag is SelectingSpectralRange
                && at.kept_spectral_empty {
                None
            } else {
                host.state.spectral_selection
            }
        }),
{
}

/// Scrubbing moves the playhead with the pointer, from the press to the release,
/// and draws no selection.
pub proof fn law_scrubbing_moves_the_playhead<T, R>(
    host: AudioEditorHost<T, R>,
    clip: ClipState<T>,
    press: PointerReading<T>,
    pass: PointerReading<T>,
    release: PointerReading<T>,
)
    requires
        host.state.active_tool == AudioEditorTool::Scrub,
    ensures
        ({
            let (pressed, first) = host.after_event(
                AudioEditorEvent::PointerDown,
                Some(clip),
                press,
            );
            let (moved, second) = pressed.after_event(
                AudioEditorEvent::PointerMove,
                Some(clip),
                pass,
            );
            let (released, last) = moved.after_event(
                AudioEditorEvent::PointerUp,
                Some(clip),
                release,
            );
            &&& first == seq![HostEffect::Seek { beat: press.clip_beat }]
            &&& second == seq![HostEffect::Seek { beat: pass.clip_beat }]
            &&& last.len() > 0 && last[0] == (HostEffect::<T>::Seek { beat: release.clip_beat })
            &&& moved.state.selection_range == host.state.selection_range
            &&& moved.state.spectral_selection == host.state.spectral_selection
            &&& !release.kept_range_empty ==> released.state.selection_range
                == host.state.selection_range
        }),
{
}

/// Auditioning plays from the start of the selection, or from the pointer where
/// nothing is selected, and leaves the selection alone while it lasts.
pub proof fn law_auditioning_starts_at_the_selection<T, R>(
    host: AudioEditorHost<T, R>,
    clip: ClipState<T>,
    press: PointerReading<T>,
    pass: PointerReading<T>,
)
    requires
        host.state.active_tool == AudioEditorTool::Audition,
    ensures
        ({
            let (pressed, effects) = host.after_event(
                AudioEditorEvent::PointerDown,
                Some(clip),
                press,
            );
            let moved = pressed.after_event(AudioEditorEvent::PointerMove, Some(clip), pass).0;
            let beat = if host.state.selection_range is Some {
                press.selection_beat
            } else {
                press.clip_beat
            };
            &&& pressed.pending_audition == Some(Audition::Start { beat })
            &&& effects.len() > 0 && effects[0] == (HostEffect::<T>::Seek { beat })
            &&& moved.state.selection_range == host.state.selection_range
            &&& moved.pending_audition == pressed.pending_audition
        }),
{
}

// ------------------------------------------------------------------ editing

/// Whether an effect edits a clip, and which one.
pub open spec fn edited_clip<T>(effect: HostEffect<T>) -> Option<String> {
    match effect {
        HostEffect::ResizeClip { clip_id, .. } => Some(clip_id),
        HostEffect::EditStretch { clip_id, .. } => Some(clip_id),
        HostEffect::ApplyStretch { clip_id, .. } => Some(clip_id),
        HostEffect::SplitClip { clip_id, .. } => Some(clip_id),
        HostEffect::ApplyGain { clip_id, .. } => Some(clip_id),
        HostEffect::ApplyPitch { clip_id, .. } => Some(clip_id),
        HostEffect::ApplyFinePitch { clip_id, .. } => Some(clip_id),
        _ => None,
    }
}

/// Whatever happens, no clip but the active one is edited.
pub proof fn law_only_the_active_clip_is_edited<T, R>(
    host: AudioEditorHost<T, R>,
    event: AudioEditorEvent<T>,
    clip: Option<ClipState<T>>,
    at: PointerReading<T>,
    i: int,
)
    requires
        0 <= i < host.after_event(event, clip, at).1.len(),
        edited_clip(host.after_event(event, clip, at).1[i]) is Some,
    ensures
        clip is Some,
        edited_clip(host.after_event(event, clip, at).1[i]) == Some(clip->0.id),
{
    match event {
        AudioEditorEvent::PointerDown => lemma_a_press_edits_its_clip(host, clip->0, at, i),
        AudioEditorEvent::PointerMove => lemma_a_move_edits_its_clip(host, clip->0, at, i),
        AudioEditorEvent::PointerUp => lemma_a_release_edits_its_clip(host, clip, at, i),
        _ => {},
    }
}

proof fn lemma_a_press_edits_its_clip<T, R>(
    host: AudioEditorHost<T, R>,
    clip: ClipState<T>,
    at: PointerReading<T>,
    i: int,
)
    requires
        0 <= i < host.pressed(clip, at).1.len(),
        edited_clip(host.pressed(clip, at).1[i]) is Some,
    ensures
        edited_clip(host.pressed(clip, at).1[i]) == Some(clip.id),
{
    let begin = crate::host::gesture_effects::<T>(host.active_clip_id, clip.id);
    assert forall|k: int| 0 <= k < begin.len() implies edited_clip(#[trigger] begin[k]) is None by {}
    let effects = host.pressed(clip, at).1;
    if i < begin.len() && effects.len() >= begin.len() {
        assert(effects[i] == begin[i] || edited_clip(effects[i]) is None || edited_clip(effects[i])
            == Some(clip.id));
    }
}

proof fn lemma_a_move_edits_its_clip<T, R>(
    host: AudioEditorHost<T, R>,
    clip: ClipState<T>,
    at: PointerReading<T>,
    i: int,
)
    requires
        0 <= i < host.dragged(clip, at).1.len(),
        edited_clip(host.dragged(clip, at).1[i]) is Some,
    ensures
        edited_clip(host.dragged(clip, at).1[i]) == Some(clip.id),
{
}

proof fn lemma_a_release_edits_its_clip<T, R>(
    host: AudioEditorHost<T, R>,
    clip: Option<ClipState<T>>,
    at: PointerReading<T>,
    i: int,
)
    requires
        0 <= i < host.dropped(clip, at).1.len(),
        edited_clip(host.dropped(clip, at).1[i]) is Some,
    ensures
        clip is Some,
        edited_clip(host.dropped(clip, at).1[i]) == Some(clip->0.id),
{
    if clip is Some {
        let moved = host.dragged(clip->0, at).1;
        if i < moved.len() {
            assert(host.dropped(clip, at).1[i] == moved[i]);
            lemma_a_move_edits_its_clip(host, clip->0, at, i);
        }
    }
}

/// Trimming takes hold of the end of the clip that is under the pointer, the
/// start first, and moves that end, and no other, to the pointer.
pub proof fn law_trimming_moves_the_end_that_was_taken<T, R>(
    host: AudioEditorHost<T, R>,
    clip: ClipState<T>,
    press: PointerReading<T>,
    at: PointerReading<T>,
)
    requires
        host.state.active_tool == AudioEditorTool::Trim || host.state.active_tool
            == AudioEditorTool::Pointer,
        press.at_start || press.at_end,
    ensures
        ({
            let pressed = host.after_event(AudioEditorEvent::PointerDown, Some(clip), press).0;
            let (moved, effects) = pressed.after_event(
                AudioEditorEvent::PointerMove,
                Some(clip),
                at,
            );
            &&& effects == seq![
                HostEffect::<T>::ResizeClip {
                    clip_id: clip.id,
                    edge: if press.at_start {
                        ClipEdge::Left
                    } else {
                        ClipEdge::Right
                    },
                    beat: at.clip_beat,
                },
            ]
            &&& moved == pressed
        }),
{
}

/// Away from the ends of the clip the pointer moves the playhead, and the trim
/// tool does nothing at all.
pub proof fn law_away_from_the_ends_nothing_is_trimmed<T, R>(
    host: AudioEditorHost<T, R>,
    clip: ClipState<T>,
    at: PointerReading<T>,
)
    requires
        !at.at_start && !at.at_end,
    ensures
        host.state.active_tool == AudioEditorTool::Trim ==> host.after_event(
            AudioEditorEvent::PointerDown,
            Some(clip),
            at,
        ) == (host, Seq::<HostEffect<T>>::empty()),
        host.state.active_tool == AudioEditorTool::Pointer ==> host.after_event(
            AudioEditorEvent::PointerDown,
            Some(clip),
            at,
        ) == (host, seq![HostEffect::<T>::Seek { beat: at.clip_beat }]),
{
}

/// The fade tool takes hold of the fade under the pointer, the fade-in first,
/// and makes that fade, and no other, as long as the pointer says. Beside the
/// fades it moves the playhead.
pub proof fn law_fading_adjusts_the_fade_that_was_taken<T, R>(
    host: AudioEditorHost<T, R>,
    clip: ClipState<T>,
    press: PointerReading<T>,
    at: PointerReading<T>,
)
    requires
        host.state.active_tool == AudioEditorTool::Fade,
    ensures
        ({
            let (pressed, begun) = host.after_event(
                AudioEditorEvent::PointerDown,
                Some(clip),
                press,
            );
            let effects = pressed.after_event(AudioEditorEvent::PointerMove, Some(clip), at).1;
            &&& press.on_fade_in ==> effects == seq![
                HostEffect::<T>::EditStretch {
                    clip_id: clip.id,
                    edit: StretchEdit::Fade {
                        side: AudioFadeSide::In,
                        milliseconds: at.fade_in_ms,
                    },
                },
            ]
            &&& !press.on_fade_in && press.on_fade_out ==> effects == seq![
                HostEffect::<T>::EditStretch {
                    clip_id: clip.id,
                    edit: StretchEdit::Fade {
                        side: AudioFadeSide::Out,
                        milliseconds: at.fade_out_ms,
                    },
                },
            ]
            &&& press.on_fade_in ==> pressed.state.drag == (AudioEditorDrag::AdjustingFadeIn {
                original_seconds: press.fade_in_seconds,
            })
            &&& !press.on_fade_in && press.on_fade_out ==> pressed.state.drag == (
            AudioEditorDrag::AdjustingFadeOut { original_seconds: press.fade_out_seconds })
            &&& !press.on_fade_in && !press.on_fade_out ==> pressed == host && begun == seq![
                HostEffect::<T>::Seek { beat: press.clip_beat },
            ]
        }),
{
}

/// Drawing on a point of the envelope takes hold of the first point that is hit;
/// that point, and no other, goes where the pointer goes.
pub proof fn law_drawing_moves_the_point_that_was_hit<T, R>(
    host: AudioEditorHost<T, R>,
    clip: ClipState<T>,
    press: PointerReading<T>,
    at: PointerReading<T>,
    hit: int,
)
    requires
        host.state.active_tool == AudioEditorTool::Draw,
        0 <= hit < clip.stretch.gain_envelope@.len(),
        hit < press.point_hits@.len(),
        press.point_hits@[hit],
        forall|i: int| 0 <= i < hit ==> !press.point_hits@[i],
    ensures
        ({
            let point_id = clip.stretch.gain_envelope@[hit].id;
            let (pressed, drawn) = host.after_event(
                AudioEditorEvent::PointerDown,
                Some(clip),
                press,
            );
            let effects = pressed.after_event(AudioEditorEvent::PointerMove, Some(clip), at).1;
            &&& drawn.last() == (HostEffect::<T>::EditStretch {
                clip_id: clip.id,
                edit: StretchEdit::DrawPoint {
                    point_id,
                    time: press.time,
                    value_db: press.value_db,
                },
            })
            &&& effects == seq![
                HostEffect::<T>::EditStretch {
                    clip_id: clip.id,
                    edit: StretchEdit::MovePoint {
                        point_id,
                        time: at.time,
                        value_db: at.value_db,
                    },
                },
            ]
        }),
{
    lemma_first(press.point_hits@, clip.stretch.gain_envelope@.len() as int, hit);
}

/// Drawing beside the points of the envelope draws a new one, under the
/// pointer, whose id is above every other, and takes hold of it.
pub proof fn law_drawing_beside_the_points_draws_a_new_one<T, R>(
    host: AudioEditorHost<T, R>,
    clip: ClipState<T>,
    press: PointerReading<T>,
    at: PointerReading<T>,
    other: int,
)
    requires
        host.state.active_tool == AudioEditorTool::Draw,
        forall|i: int| 0 <= i < press.point_hits@.len() ==> !press.point_hits@[i],
        0 <= other < clip.stretch.gain_envelope@.len(),
        forall|i: int|
            0 <= i < clip.stretch.gain_envelope@.len() ==> (
            #[trigger] clip.stretch.gain_envelope@[i]).id < u64::MAX,
    ensures
        ({
            let (pressed, drawn) = host.after_event(
                AudioEditorEvent::PointerDown,
                Some(clip),
                press,
            );
            let effects = pressed.after_event(AudioEditorEvent::PointerMove, Some(clip), at).1;
            pressed.state.drag matches AudioEditorDrag::MovingEnvelopePoint { point_id } && {
                &&& point_id > clip.stretch.gain_envelope@[other].id
                &&& drawn.last() == (HostEffect::<T>::EditStretch {
                    clip_id: clip.id,
                    edit: StretchEdit::DrawPoint {
                        point_id,
                        time: press.time,
                        value_db: press.value_db,
                    },
                })
                &&& effects == seq![
                    HostEffect::<T>::EditStretch {
                        clip_id: clip.id,
                        edit: StretchEdit::MovePoint {
                            point_id,
                            time: at.time,
                            value_db: at.value_db,
                        },
                    },
                ]
            }
        }),
{
    lemma_largest_is_a_point(clip.stretch.gain_envelope@);
    crate::stretch::law_no_id_is_above_the_largest(clip.stretch.gain_envelope@, other);
}

proof fn lemma_first(hits: Seq<bool>, count: int, hit: int)
    requires
        0 <= hit < count,
        hit < hits.len(),
        hits[hit],
        forall|i: int| 0 <= i < hit ==> !hits[i],
    ensures
        crate::stretch::first_hit(hits, count, hit),
        forall|i: int| crate::stretch::first_hit(hits, count, i) ==> i == hit,
{
    assert forall|i: int| crate::stretch::first_hit(hits, count, i) implies i == hit by {
        if i < hit {
            assert(!hits[i]);
        } else if hit < i {
            assert(!hits[hit]);
        }
    }
}

proof fn lemma_largest_is_a_point<T>(points: Seq<crate::timeline::EnvelopePoint<T>>)
    requires
        points.len() > 0,
        forall|i: int| 0 <= i < points.len() ==> (#[trigger] points[i]).id < u64::MAX,
    ensures
        crate::stretch::max_point_id(points) < u64::MAX,
    decreases points.len(),
{
    if points.len() > 1 {
        let front = points.drop_last();
        assert forall|i: int| 0 <= i < front.len() implies (#[trigger] front[i]).id < u64::MAX by {
            assert(front[i] == points[i]);
        }
        lemma_largest_is_a_point(front);
    } else {
        assert(crate::stretch::max_point_id(points.drop_last()) == 0);
    }
    assert(points.last() == points[points.len() - 1]);
}

/// The warp tool takes hold of the first warp marker that is hit; that marker,
/// and no other, goes where the pointer goes.
pub proof fn law_warping_moves_the_marker_that_was_hit<T, R>(
    host: AudioEditorHost<T, R>,
    clip: ClipState<T>,
    press: PointerReading<T>,
    at: PointerReading<T>,
    hit: int,
)
    requires
        host.state.active_tool == AudioEditorTool::Warp,
        0 <= hit < clip.stretch.warp_markers@.len(),
        hit < press.marker_hits@.len(),
        press.marker_hits@[hit],
        forall|i: int| 0 <= i < hit ==> !press.marker_hits@[i],
    ensures
        ({
            let pressed = host.after_event(AudioEditorEvent::PointerDown, Some(clip), press).0;
            let effects = pressed.after_event(AudioEditorEvent::PointerMove, Some(clip), at).1;
            effects == seq![
                HostEffect::<T>::EditStretch {
                    clip_id: clip.id,
                    edit: StretchEdit::MoveWarpMarker {
                        marker_id: clip.stretch.warp_markers@[hit].id,
                        beat: at.clip_beat,
                    },
                },
            ]
        }),
{
    lemma_first(press.marker_hits@, clip.stretch.warp_markers@.len() as int, hit);
}

/// Beside the warp markers, the warp tool puts a marker under the pointer, where
/// the clip has length, and starts no gesture.
pub proof fn law_warping_beside_the_markers_adds_one<T, R>(
    host: AudioEditorHost<T, R>,
    clip: ClipState<T>,
    at: PointerReading<T>,
)
    requires
        host.state.active_tool == AudioEditorTool::Warp,
        forall|i: int| 0 <= i < at.marker_hits@.len() ==> !at.marker_hits@[i],
    ensures
        ({
            let (pressed, effects) = host.after_event(
                AudioEditorEvent::PointerDown,
                Some(clip),
                at,
            );
            &&& pressed == host
            &&& at.warp matches Some((source_sample, timeline_beat)) ==> effects[0] == (
            HostEffect::<T>::ApplyStretch {
                clip_id: clip.id,
                edit: StretchEdit::AddWarpMarker { source_sample, timeline_beat },
            })
            &&& at.warp is None ==> effects == seq![HostEffect::<T>::Notify]
        }),
{
}

/// The split tool cuts the clip under the pointer, and the marker tool marks the
/// spot: each does that one thing.
pub proof fn law_splitting_and_marking_act_under_the_pointer<T, R>(
    host: AudioEditorHost<T, R>,
    clip: ClipState<T>,
    at: PointerReading<T>,
)
    ensures
        host.state.active_tool == AudioEditorTool::Split ==> host.after_event(
            AudioEditorEvent::PointerDown,
            Some(clip),
            at,
        ) == (host, seq![HostEffect::<T>::SplitClip { clip_id: clip.id, beat: at.abs_beat }]),
        host.state.active_tool == AudioEditorTool::Marker ==> host.after_event(
            AudioEditorEvent::PointerDown,
            Some(clip),
            at,
        ) == (host, seq![HostEffect::<T>::AddMarker { beat: at.clip_beat }]),
{
}

// --------------------------------------------------------------- undo steps

/// Whether an effect opens, closes or rolls back an undo step.
pub open spec fn about_undo<T>(effect: HostEffect<T>) -> bool {
    effect is BeginGesture || effect is CommitGesture || effect is CancelGesture
}

/// An undo step spans the whole gesture: no move opens or ends one.
pub proof fn law_moves_stay_inside_the_undo_step<T, R>(
    host: AudioEditorHost<T, R>,
    clip: Option<ClipState<T>>,
    at: PointerReading<T>,
    i: int,
)
    requires
        0 <= i < host.after_event(AudioEditorEvent::PointerMove, clip, at).1.len(),
    ensures
        !about_undo(host.after_event(AudioEditorEvent::PointerMove, clip, at).1[i]),
        host.after_event(AudioEditorEvent::PointerMove, clip, at).0.active_clip_id
            == host.active_clip_id,
{
}

/// A press on another clip closes the undo step of the clip edited before, and
/// opens its own after that.
pub proof fn law_another_clip_gets_its_own_undo_step<T, R>(
    host: AudioEditorHost<T, R>,
    clip: ClipState<T>,
    at: PointerReading<T>,
)
    requires
        host.state.drag is Idle,
        host.active_clip_id is Some,
        host.active_clip_id->0@ != clip.id@,
        host.after_event(
            AudioEditorEvent::PointerDown,
            Some(clip),
            at,
        ).0.state.drag.edits_clip(),
    ensures
        ({
            let effects = host.after_event(AudioEditorEvent::PointerDown, Some(clip), at).1;
            &&& effects.len() >= 2
            &&& effects[0] == (HostEffect::<T>::CommitGesture {
                clip_id: host.active_clip_id->0,
            })
            &&& effects[1] == (HostEffect::<T>::BeginGesture { clip_id: clip.id })
        }),
{
}

/// A release of the pointer that selected something asks for no undo step.
pub proof fn law_selecting_is_not_undone<T, R>(
    host: AudioEditorHost<T, R>,
    clip: Option<ClipState<T>>,
    at: PointerReading<T>,
    i: int,
)
    requires
        !host.state.drag.edits_clip(),
        0 <= i < host.after_event(AudioEditorEvent::PointerUp, clip, at).1.len(),
    ensures
        !about_undo(host.after_event(AudioEditorEvent::PointerUp, clip, at).1[i]),
{
}

/// The gestures that edit a clip are all but those that select.
pub proof fn law_gestures_edit_or_select<T>(drag: AudioEditorDrag<T>)
    ensures
        drag is TrimmingLeft || drag is TrimmingRight || drag is AdjustingFadeIn
            || drag is AdjustingFadeOut || drag is MovingEnvelopePoint || drag is MovingWarpMarker
            ==> drag.edits_clip(),
        drag is Idle || drag is SelectingRange || drag is SelectingSpectralRange
            ==> !drag.edits_clip(),
{
}

/// The position of the release counts: it does what a move to it would have
/// done, before the gesture ends.
pub proof fn law_a_release_counts_as_a_last_move<T, R>(
    host: AudioEditorHost<T, R>,
    clip: ClipState<T>,
    at: PointerReading<T>,
)
    ensures
        ({
            let moved = host.after_event(AudioEditorEvent::PointerMove, Some(clip), at).1;
            let released = host.after_event(AudioEditorEvent::PointerUp, Some(clip), at).1;
            &&& moved.len() <= released.len()
            &&& released.take(moved.len() as int) == moved
        }),
{
    let moved = host.after_event(AudioEditorEvent::PointerMove, Some(clip), at).1;
    let released = host.after_event(AudioEditorEvent::PointerUp, Some(clip), at).1;
    assert(released.take(moved.len() as int) =~= moved);
}

/// Without a gesture under way, moving and releasing the pointer do nothing.
pub proof fn law_an_idle_pointer_does_nothing<T, R>(
    host: AudioEditorHost<T, R>,
    clip: Option<ClipState<T>>,
    at: PointerReading<T>,
)
    requires
        host.state.drag is Idle,
    ensures
        host.after_event(AudioEditorEvent::PointerMove, clip, at) == (
            host,
            Seq::<HostEffect<T>>::empty(),
        ),
        host.after_event(AudioEditorEvent::PointerUp, clip, at) == (
            host,
            Seq::<HostEffect<T>>::empty(),
        ),
{
    assert(host.with_drag(AudioEditorDrag::Idle) == host);
}

/// The pointer touches the gesture, the selections, the audition and the clip in
/// hand, and nothing else of the editor.
pub proof fn law_the_pointer_leaves_the_settings_alone<T, R>(
    host: AudioEditorHost<T, R>,
    event: AudioEditorEvent<T>,
    clip: Option<ClipState<T>>,
    at: PointerReading<T>,
)
    requires
        event is PointerDown || event is PointerMove || event is PointerUp,
    ensures
        ({
            let next = host.after_event(event, clip, at).0;
            &&& next.state.active_tool == host.state.active_tool
            &&& next.state.snap == host.state.snap
            &&& next.state.zero_crossing_snap == host.state.zero_crossing_snap
            &&& next.state.open_dropdown == host.state.open_dropdown
            &&& next.state.channel_mode == host.state.channel_mode
            &&& next.state.view_mode == host.state.view_mode
            &&& next.state.amplitude_scale == host.state.amplitude_scale
            &&& next.state.frequency_scale == host.state.frequency_scale
            &&& next.state.display_smoothing == host.state.display_smoothing
            &&& next.state.fitted_clip_id == host.state.fitted_clip_id
            &&& next.last_editing_clip == host.last_editing_clip
            &&& next.spectrogram_key == host.spectrogram_key
            &&& next.spectrogram_result == host.spectrogram_result
            &&& next.spectrogram_generation == host.spectrogram_generation
            &&& next.pending_open_tool == host.pending_open_tool
        }),
{
}

// ----------------------------------------------------------------- settings

/// A setting of the panel takes the value that was chosen, closes the dropdown
/// it was chosen from, and is drawn.
pub proof fn law_a_setting_takes_the_chosen_value<T, R>(
    host: AudioEditorHost<T, R>,
    clip: Option<ClipState<T>>,
    at: PointerReading<T>,
    mode: u32,
    snap: AudioEditorSnap,
    scale: FrequencyScale,
    tool: AudioEditorTool,
    event: AudioEditorEvent<T>,
)
    requires
        event == (AudioEditorEvent::<T>::SetTool { tool }) || event == (AudioEditorEvent::<
            T,
        >::SetSnap { snap }) || event == (AudioEditorEvent::<T>::SetChannelMode { mode }) || event
            == (AudioEditorEvent::<T>::SetViewMode { mode }) || event == (AudioEditorEvent::<
            T,
        >::SetAmplitudeScale { scale: mode }) || event == (AudioEditorEvent::<
            T,
        >::SetFrequencyScale { frequency_scale: scale }) || event == (AudioEditorEvent::<
            T,
        >::SetDisplaySmoothing { mode }),
    ensures
        ({
            let (next, effects) = host.after_event(event, clip, at);
            let before = host.state;
            let after = next.state;
            &&& after.open_dropdown is None
            &&& effects.last() == HostEffect::<T>::Notify
            &&& after.active_tool == if event is SetTool {
                tool
            } else {
                before.active_tool
            }
            &&& after.snap == if event is SetSnap {
                snap
            } else {
                before.snap
            }
            &&& after.channel_mode == if event is SetChannelMode {
                mode
            } else {
                before.channel_mode
            }
            &&& after.view_mode == if event is SetViewMode {
                mode
            } else {
                before.view_mode
            }
            &&& after.amplitude_scale == if event is SetAmplitudeScale {
                mode
            } else {
                before.amplitude_scale
            }
            &&& after.frequency_scale == if event is SetFrequencyScale {
                scale
            } else {
                before.frequency_scale
            }
            &&& after.display_smoothing == if event is SetDisplaySmoothing {
                mode
            } else {
                before.display_smoothing
            }
            &&& after.selection_range == before.selection_range
            &&& after.spectral_selection == before.spectral_selection
            &&& !(event is SetTool) ==> after.drag == before.drag
        }),
{
}

/// Choosing a tool from the panel ends the gesture under way and keeps what it
/// has done; choosing one by a key keeps the same, and closes the dropdown.
pub proof fn law_choosing_a_tool_keeps_what_was_done<T, R>(
    host: AudioEditorHost<T, R>,
    tool: AudioEditorTool,
    clip: Option<ClipState<T>>,
    at: PointerReading<T>,
)
    requires
        host.active_clip_id is Some,
    ensures
        ({
            let event = AudioEditorEvent::<T>::SetTool { tool };
            let (next, effects) = host.after_event(event, clip, at);
            let (keyed, key_effects) = host.after_key(KeyAction::SelectTool { tool }, clip);
            let commit = HostEffect::<T>::CommitGesture { clip_id: host.active_clip_id->0 };
            &&& next.state.drag is Idle
            &&& effects == seq![commit, HostEffect::Notify]
            &&& keyed.state.active_tool == tool
            &&& keyed.state.open_dropdown is None
            &&& keyed.state.drag == host.state.drag
            &&& key_effects == seq![commit, HostEffect::Notify]
        }),
{
    let commit = HostEffect::<T>::CommitGesture { clip_id: host.active_clip_id->0 };
    assert(seq![commit].push(HostEffect::Notify) =~= seq![commit, HostEffect::Notify]);
}

/// A change of the clip's own settings from the panel is one edit of the active
/// clip, of just that setting; a switch turns what the clip has around.
pub proof fn law_a_clip_setting_is_one_edit_of_the_clip<T, R>(
    host: AudioEditorHost<T, R>,
    clip: ClipState<T>,
    at: PointerReading<T>,
    enabled: bool,
    amount: T,
    tag: u32,
)
    ensures
        ({
            let edit_of = |event: AudioEditorEvent<T>|
                host.after_event(event, Some(clip), at).1;
            let apply = |edit: StretchEdit<T>|
                seq![HostEffect::<T>::ApplyStretch { clip_id: clip.id, edit }];
            &&& edit_of(AudioEditorEvent::SetFollowTempo { enabled }) == apply(
                StretchEdit::FollowTempo { enabled },
            )
            &&& edit_of(AudioEditorEvent::SetReverse { enabled }) == apply(
                StretchEdit::Reverse { enabled },
            )
            &&& edit_of(AudioEditorEvent::SetDenoiseAmount { amount }) == apply(
                StretchEdit::Denoise { amount },
            )
            &&& edit_of(AudioEditorEvent::SetClipChannel { tag }) == apply(
                StretchEdit::Channel { tag },
            )
            &&& edit_of(AudioEditorEvent::ToggleReverse) == edit_of(
                AudioEditorEvent::SetReverse { enabled: !clip.stretch.reverse },
            )
            &&& edit_of(AudioEditorEvent::ToggleFollowTempo) == edit_of(
                AudioEditorEvent::SetFollowTempo { enabled: !at.follows_tempo },
            )
        }),
{
}

/// Gain and pitch change by what was asked for, on the active clip; the view
/// zooms by what was asked for, fits the clip's length, and a click on the
/// ruler moves the playhead to it.
pub proof fn law_amounts_are_passed_on<T, R>(
    host: AudioEditorHost<T, R>,
    clip: ClipState<T>,
    at: PointerReading<T>,
    amount: T,
    anchor: Option<T>,
)
    ensures
        ({
            let effects_of = |event: AudioEditorEvent<T>|
                host.after_event(event, Some(clip), at).1;
            let clip_id = clip.id;
            &&& effects_of(AudioEditorEvent::AdjustGain { delta_db: amount }) == seq![
                HostEffect::<T>::ApplyGain { clip_id, delta_db: amount },
            ]
            &&& effects_of(AudioEditorEvent::AdjustPitch { delta_semitones: amount }) == seq![
                HostEffect::<T>::ApplyPitch { clip_id, delta_semitones: amount },
            ]
            &&& effects_of(AudioEditorEvent::AdjustFinePitch { delta_cents: amount }) == seq![
                HostEffect::<T>::ApplyFinePitch { clip_id, delta_cents: amount },
            ]
            &&& effects_of(
                AudioEditorEvent::ZoomBy { factor: amount, anchor_x: anchor },
            )[0] == (HostEffect::<T>::ZoomBy { factor: amount, anchor_x: anchor })
            &&& effects_of(AudioEditorEvent::AdjustVerticalZoom { factor: amount })[0] == (
            HostEffect::<T>::AdjustVerticalZoom { factor: amount })
            &&& effects_of(AudioEditorEvent::ResetVerticalZoom)[0]
                == HostEffect::<T>::ResetVerticalZoom
            &&& effects_of(AudioEditorEvent::FitClip)[0] == (HostEffect::<T>::FitClip {
                duration_beats: clip.duration_beats,
            })
            &&& effects_of(AudioEditorEvent::Seek) == seq![
                HostEffect::<T>::Seek { beat: at.abs_beat },
            ]
        }),
{
}

// --------------------------------------------------------------------- keys

/// Each tool has its keys, and no other key chooses it.
pub proof fn law_each_tool_has_its_keys(key: Seq<char>)
    ensures
        ({
            let chooses = |tool: AudioEditorTool|
                crate::host::key_meaning(key) == (KeyAction::SelectTool { tool });
            &&& chooses(AudioEditorTool::Pointer) <==> key =~= seq!['q'] || key =~= seq!['p']
            &&& chooses(AudioEditorTool::Range) <==> key =~= seq!['r']
            &&& chooses(AudioEditorTool::SpectralRange) <==> key =~= seq!['x']
            &&& chooses(AudioEditorTool::Split) <==> key =~= seq!['s']
            &&& chooses(AudioEditorTool::Fade) <==> key =~= seq!['f']
            &&& chooses(AudioEditorTool::Marker) <==> key =~= seq!['m']
            &&& chooses(AudioEditorTool::Trim) <==> key =~= seq!['y']
            &&& chooses(AudioEditorTool::Scrub) <==> key =~= seq!['z']
            &&& chooses(AudioEditorTool::Draw) <==> key =~= seq!['d'] || key =~= seq!['e']
            &&& chooses(AudioEditorTool::Warp) <==> key =~= seq!['w']
            &&& chooses(AudioEditorTool::Audition) <==> key =~= seq!['a']
        }),
{
    lemma_key_names();
}

/// The other keys of the editor: two open a tool window, one gives up, and the
/// rest zoom.
pub proof fn law_the_other_keys_open_and_zoom(key: Seq<char>)
    ensures
        ({
            let means = |action: KeyAction| crate::host::key_meaning(key) == action;
            &&& means(KeyAction::OpenTool { kind: AudioToolKind::TransientDetector }) <==> key
                =~= seq!['t']
            &&& means(KeyAction::OpenTool { kind: AudioToolKind::Normalize }) <==> key =~= seq!['n']
            &&& means(KeyAction::Escape) <==> key =~= seq!['e', 's', 'c', 'a', 'p', 'e']
            &&& means(KeyAction::Fit) <==> key =~= seq!['0']
            &&& means(KeyAction::ZoomIn) <==> key =~= seq!['+'] || key =~= seq!['=']
            &&& means(KeyAction::ZoomOut) <==> key =~= seq!['-'] || key =~= seq!['_']
        }),
{
    lemma_key_names();
}

proof fn lemma_key_names()
    ensures
        "q"@ == seq!['q'] && "p"@ == seq!['p'] && "r"@ == seq!['r'] && "x"@ == seq!['x'],
        "s"@ == seq!['s'] && "f"@ == seq!['f'] && "m"@ == seq!['m'] && "y"@ == seq!['y'],
        "z"@ == seq!['z'] && "d"@ == seq!['d'] && "e"@ == seq!['e'] && "w"@ == seq!['w'],
        "a"@ == seq!['a'] && "t"@ == seq!['t'] && "n"@ == seq!['n'] && "0"@ == seq!['0'],
        "+"@ == seq!['+'] && "="@ == seq!['='] && "-"@ == seq!['-'] && "_"@ == seq!['_'],
        "escape"@ == seq!['e', 's', 'c', 'a', 'p', 'e'],
        forall|a: char, b: char| #![trigger seq![a], seq![b]] seq![a] == seq![b] ==> a == b,
        forall|a: char| (#[trigger] seq![a]).len() == 1,
{
    reveal_strlit("q");
    reveal_strlit("p");
    reveal_strlit("r");
    reveal_strlit("x");
    reveal_strlit("s");
    reveal_strlit("f");
    reveal_strlit("m");
    reveal_strlit("y");
    reveal_strlit("z");
    reveal_strlit("d");
    reveal_strlit("e");
    reveal_strlit("w");
    reveal_strlit("a");
    reveal_strlit("t");
    reveal_strlit("n");
    reveal_strlit("0");
    reveal_strlit("+");
    reveal_strlit("=");
    reveal_strlit("-");
    reveal_strlit("_");
    reveal_strlit("escape");
    assert("q"@ =~= seq!['q'] && "p"@ =~= seq!['p'] && "r"@ =~= seq!['r'] && "x"@ =~= seq!['x']);
    assert("s"@ =~= seq!['s'] && "f"@ =~= seq!['f'] && "m"@ =~= seq!['m'] && "y"@ =~= seq!['y']);
    assert("z"@ =~= seq!['z'] && "d"@ =~= seq!['d'] && "e"@ =~= seq!['e'] && "w"@ =~= seq!['w']);
    assert("a"@ =~= seq!['a'] && "t"@ =~= seq!['t'] && "n"@ =~= seq!['n'] && "0"@ =~= seq!['0']);
    assert("+"@ =~= seq!['+'] && "="@ =~= seq!['='] && "-"@ =~= seq!['-'] && "_"@ =~= seq!['_']);
    assert("escape"@ =~= seq!['e', 's', 'c', 'a', 'p', 'e']);
    assert forall|a: char, b: char| #![trigger seq![a], seq![b]] seq![a] == seq![b] implies a
        == b by {
        assert(seq![a][0] == a && seq![b][0] == b);
    }
}

/// The keys that zoom and fit do so and change nothing else; a key without a
/// meaning does nothing.
pub proof fn law_keys_zoom_and_fit<T, R>(host: AudioEditorHost<T, R>, clip: ClipState<T>)
    ensures
        host.after_key(KeyAction::ZoomIn, Some(clip)) == (
            host,
            seq![HostEffect::<T>::ZoomIn, HostEffect::Notify],
        ),
        host.after_key(KeyAction::ZoomOut, Some(clip)) == (
            host,
            seq![HostEffect::<T>::ZoomOut, HostEffect::Notify],
        ),
        host.after_key(KeyAction::Fit, Some(clip)).0 == host,
        host.after_key(KeyAction::Fit, Some(clip)).1[0] == (HostEffect::<T>::FitClip {
            duration_beats: clip.duration_beats,
        }),
        host.after_key(KeyAction::Ignore, Some(clip)) == (host, Seq::<HostEffect<T>>::empty()),
{
}

/// Escape leaves the tool, the settings and the active clip as they are.
pub proof fn law_escape_keeps_the_settings<T, R>(
    host: AudioEditorHost<T, R>,
    clip: Option<ClipState<T>>,
)
    ensures
        ({
            let next = host.after_key(KeyAction::Escape, clip).0;
            &&& next.state.active_tool == host.state.active_tool
            &&& next.state.snap == host.state.snap
            &&& next.state.view_mode == host.state.view_mode
            &&& next.state.frequency_scale == host.state.frequency_scale
            &&& next.active_clip_id == host.active_clip_id
            &&& next.last_editing_clip == host.last_editing_clip
            &&& next.spectrogram_key == host.spectrogram_key
            &&& host.pending_audition is None ==> next.pending_audition is None
            &&& host.pending_audition is Some ==> next.pending_audition == Some(Audition::<T>::Stop)
        }),
{
}

// -------------------------------------------------------------------- tools

/// A tool window opens on the active clip: with its name, its file and what is
/// selected of it.
pub proof fn law_a_tool_opens_on_the_active_clip<T, R>(
    host: AudioEditorHost<T, R>,
    next: AudioEditorHost<T, R>,
    kind: AudioToolKind,
    clip: ClipState<T>,
    facts: SourceFacts,
)
    requires
        host.opens(next, kind, Some(clip), facts),
    ensures
        next.pending_open_tool matches Some((opened, target)) && {
            &&& opened == kind
            &&& target.clip_id == clip.id
            &&& target.clip_name == clip.name
            &&& clip.asset_key matches Some(key) ==> target.source_id == key
            &&& clip.asset_key is None ==> target.source_id == clip.id
            &&& clip.clip_type matches ClipType::Audio { source_path } ==> target.source_path
                == source_path
            &&& target.spectral_selection == host.state.spectral_selection
            &&& target.time_selection is Some <==> host.state.selection_range is Some
            &&& target.time_selection matches Some(selection) ==> selection == (
            AudioRangeSelection {
                start_frame: facts.selected_frames.0,
                end_frame: facts.selected_frames.1,
            })
            &&& facts.meta matches Some(meta) ==> {
                &&& target.sample_rate == meta.sample_rate
                &&& target.channels == meta.channels
                &&& target.source_frames == meta.total_frames as i64
            }
            &&& facts.meta is None ==> target.channels == 2
        },
        next.state == host.state,
        next.active_clip_id == host.active_clip_id,
{
}

/// Without a clip no tool is opened.
pub proof fn law_without_a_clip_no_tool_opens<T, R>(
    host: AudioEditorHost<T, R>,
    next: AudioEditorHost<T, R>,
    kind: AudioToolKind,
    facts: SourceFacts,
)
    requires
        host.opens(next, kind, None, facts),
    ensures
        next == host,
{
}

/// A clip's source ends where the clip is trimmed, and an untrimmed one where
/// the longest of what is known of it ends.
pub proof fn law_a_source_ends_at_the_trim_or_at_its_length<T>(
    clip: ClipState<T>,
    meta: Option<WaveformFileMeta>,
)
    ensures
        ({
            let end = crate::host::source_end(clip, meta);
            let stretch = clip.stretch;
            &&& stretch.source_start_samples < stretch.source_end_samples ==> end
                == stretch.source_end_samples
            &&& stretch.source_end_samples <= stretch.source_start_samples ==> {
                &&& end >= stretch.original_duration_samples
                &&& meta matches Some(meta) ==> end >= meta.total_frames
                &&& end == stretch.original_duration_samples || (meta matches Some(meta) && end
                    == meta.total_frames)
            }
        }),
{
}

/// A clip has as many source frames as its source has, up to its end; where its
/// window is empty, as many as its spectrogram shows.
pub proof fn law_a_clip_has_the_frames_up_to_its_end<T>(clip: ClipState<T>, facts: SourceFacts)
    requires
        crate::host::source_end(clip, facts.meta) <= i64::MAX,
        clip.stretch.source_start_samples <= i64::MAX,
    ensures
        ({
            let end = crate::host::source_end(clip, facts.meta);
            crate::host::source_frames(clip, facts) == if end > clip.stretch.source_start_samples {
                end as int
            } else {
                facts.spectrogram_frames as int
            }
        }),
{
}

/// No two generations are followed by the same one.
pub proof fn law_generations_are_told_apart(one: u64, other: u64)
    requires
        one != other,
    ensures
        crate::host::next_generation(one) != crate::host::next_generation(other),
{
}

/// The selected clip becomes the active one; and when nothing is selected any
/// more, neither is anything active, nor any clip fitted.
pub proof fn law_the_selection_leads<T, R>(
    host: AudioEditorHost<T, R>,
    selected: Option<String>,
)
    ensures
        ({
            let next = host.after_selection(selected).0;
            &&& selected is Some ==> next.active_clip_id == selected
            &&& selected is None && host.last_editing_clip is Some ==> next.active_clip_id is None
                && next.state.fitted_clip_id is None
            &&& selected is Some ==> next.state.fitted_clip_id == host.state.fitted_clip_id
            &&& next.state.selection_range == host.state.selection_range
            &&& next.state.active_tool == host.state.active_tool
        }),
{
}

/// Every key that means something is drawn at last, once what it asks for is
/// done; opening a tool asks for nothing else, and other keys do nothing.
pub proof fn law_a_key_is_drawn_at_last<T, R>(
    host: AudioEditorHost<T, R>,
    action: KeyAction,
    clip: Option<ClipState<T>>,
)
    ensures
        ({
            let (after, effects) = host.after_key(action, clip);
            let n = effects.len();
            &&& action is Ignore ==> n == 0 && after == host
            &&& !(action is Ignore) ==> n > 0 && effects[n - 1] is Notify
            &&& action is OpenTool ==> n == 1 && after == host
            &&& action is ZoomIn || action is ZoomOut || action is Escape ==> n == 2
            &&& action is Fit ==> n == if clip is Some {
                2int
            } else {
                1int
            }
            &&& action is SelectTool ==> n == if host.active_clip_id is Some {
                2int
            } else {
                1int
            }
        }),
{
}

} // verus!
