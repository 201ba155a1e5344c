//! What holds of the editor whatever the user does.

use vstd::prelude::*;

use crate::editor::{
    AudioEditorEvent, AudioEditorSnap, AudioEditorTool, FrequencyScale, HostEffect, KeyAction,
    PointerReading,
};
use crate::host::{Audition, AudioEditorHost};
use crate::timeline::{ClipState, TimelineState};

verus! {

/// A gesture that edits a clip has an undo step open for one.
pub open spec fn gesture_has_clip<T, R>(host: AudioEditorHost<T, R>) -> bool {
    host.state.drag.edits_clip() ==> host.active_clip_id is Some
}

/// The zero-crossing flag follows the snap mode.
pub open spec fn snap_flag_agrees<T, R>(host: AudioEditorHost<T, R>) -> bool {
    host.state.zero_crossing_snap == (host.state.snap == AudioEditorSnap::ZeroCrossing)
}

/// No event leaves an editing gesture without a clip to commit, nor the
/// zero-crossing flag at odds with the snap mode.
pub proof fn law_events_keep_the_editor_sound<T, R>(
    host: AudioEditorHost<T, R>,
    event: AudioEditorEvent<T>,
    clip: Option<ClipState<T>>,
    at: PointerReading<T>,
)
    requires
        gesture_has_clip(host),
        snap_flag_agrees(host),
    ensures
        gesture_has_clip(host.after_event(event, clip, at).0),
        snap_flag_agrees(host.after_event(event, clip, at).0),
{
}

/// The same of key presses and of changes of the selection.
pub proof fn law_keys_and_selections_keep_the_editor_sound<T, R>(
    host: AudioEditorHost<T, R>,
    action: KeyAction,
    clip: Option<ClipState<T>>,
    selected: Option<String>,
)
    requires
        gesture_has_clip(host),
        snap_flag_agrees(host),
    ensures
        gesture_has_clip(host.after_key(action, clip).0),
        snap_flag_agrees(host.after_key(action, clip).0),
        gesture_has_clip(host.after_selection(selected).0),
        snap_flag_agrees(host.after_selection(selected).0),
{
}

/// Releasing the pointer ends every gesture, whether or not there is a clip.
pub proof fn law_a_release_ends_the_gesture<T, R>(
    host: AudioEditorHost<T, R>,
    clip: Option<ClipState<T>>,
    at: PointerReading<T>,
)
    ensures
        host.after_event(AudioEditorEvent::PointerUp, clip, at).0.state.drag is Idle,
{
}

/// Releasing the pointer after an edit closes the undo step of the clip that
/// was being edited, as the last thing it does.
pub proof fn law_a_release_commits_the_edit<T, R>(
    host: AudioEditorHost<T, R>,
    clip: Option<ClipState<T>>,
    at: PointerReading<T>,
)
    requires
        gesture_has_clip(host),
        host.state.drag.edits_clip(),
    ensures
        ({
            let effects = host.after_event(AudioEditorEvent::PointerUp, clip, at).1;
            effects.len() > 0 && effects.last() == (HostEffect::<T>::CommitGesture {
                clip_id: host.active_clip_id->0,
            })
        }),
{
}

/// The press that starts an editing gesture opens an undo step for the clip.
pub proof fn law_an_edit_starts_an_undo_step<T, R>(
    host: AudioEditorHost<T, R>,
    clip: ClipState<T>,
    at: PointerReading<T>,
)
    requires
        host.state.drag is Idle,
        host.pressed(clip, at).0.state.drag.edits_clip(),
    ensures
        host.pressed(clip, at).0.active_clip_id == Some(clip.id),
        host.pressed(clip, at).1.contains(HostEffect::BeginGesture { clip_id: clip.id }),
{
    let effects = host.pressed(clip, at).1;
    let begin = crate::host::gesture_effects::<T>(host.active_clip_id, clip.id);
    let i = begin.len() - 1;
    assert(begin[i] == (HostEffect::<T>::BeginGesture { clip_id: clip.id }));
    assert(effects[i] == begin[i]);
}

/// Escape rolls the gesture back and leaves nothing selected or open.
pub proof fn law_escape_clears_the_editor<T, R>(
    host: AudioEditorHost<T, R>,
    clip: Option<ClipState<T>>,
)
    ensures
        ({
            let (next, effects) = host.after_key(KeyAction::Escape, clip);
            &&& next.state.drag is Idle
            &&& next.state.selection_range is None
            &&& next.state.spectral_selection is None
            &&& next.state.open_dropdown is None
            &&& !(next.pending_audition matches Some(Audition::Start { .. }))
            &&& effects.contains(HostEffect::CancelGesture)
        }),
{
    let effects = host.after_key(KeyAction::Escape, clip).1;
    assert(effects[0] == HostEffect::<T>::CancelGesture);
}

/// Switching to another clip ends the gesture and rolls it back instead of
/// leaving its preview behind.
pub proof fn law_another_selection_rolls_the_gesture_back<T, R>(
    host: AudioEditorHost<T, R>,
    selected: Option<String>,
)
    requires
        !crate::host::same_id(selected, host.last_editing_clip),
    ensures
        ({
            let (next, effects) = host.after_selection(selected);
            &&& next.state.drag is Idle
            &&& effects == seq![HostEffect::<T>::CancelGesture]
            &&& next.last_editing_clip == selected
            &&& next.active_clip_id == selected
        }),
{
}

/// Looking at an unchanged selection again changes nothing.
pub proof fn law_an_unchanged_selection_is_left_alone<T, R>(
    host: AudioEditorHost<T, R>,
    selected: Option<String>,
)
    ensures
        ({
            let (once, _) = host.after_selection(selected);
            once.after_selection(selected) == (once, Seq::<HostEffect<T>>::empty())
        }),
{
}

/// Toggling a dropdown twice leaves none open.
pub proof fn law_a_dropdown_toggled_twice_is_closed<T, R>(
    host: AudioEditorHost<T, R>,
    dropdown: u32,
    clip: Option<ClipState<T>>,
    at: PointerReading<T>,
)
    requires
        host.state.open_dropdown is None,
    ensures
        ({
            let event = AudioEditorEvent::ToggleDropdown { dropdown };
            let once = host.after_event(event, clip, at).0;
            &&& once.state.open_dropdown == Some(dropdown)
            &&& once.after_event(event, clip, at).0 == host
        }),
{
}

/// Auditioning starts with the press and stops with the release.
pub proof fn law_audition_lasts_as_long_as_the_press<T, R>(
    host: AudioEditorHost<T, R>,
    clip: ClipState<T>,
    press: PointerReading<T>,
    release: PointerReading<T>,
)
    requires
        host.state.active_tool == AudioEditorTool::Audition,
    ensures
        ({
            let pressed = host.after_event(AudioEditorEvent::PointerDown, Some(clip), press).0;
            let released = pressed.after_event(AudioEditorEvent::PointerUp, Some(clip), release).0;
            &&& pressed.pending_audition matches Some(Audition::Start { .. })
            &&& released.pending_audition matches Some(Audition::Stop)
        }),
{
}

/// Without a clip to work on, no event touches the arrangement.
pub proof fn law_without_a_clip_nothing_is_edited<T, R>(
    host: AudioEditorHost<T, R>,
    event: AudioEditorEvent<T>,
    at: PointerReading<T>,
    effect: HostEffect<T>,
)
    requires
        host.active_clip_id is None,
        host.after_event(event, None, at).1.contains(effect),
    ensures
        match effect {
            HostEffect::Notify => true,
            HostEffect::ZoomBy { .. } => true,
            HostEffect::AdjustVerticalZoom { .. } => true,
            HostEffect::ResetVerticalZoom => true,
            _ => false,
        },
{
}

/// A selected clip is the active one; while none is selected, an audio clip
/// that was edited last is.
pub proof fn law_the_selected_clip_is_the_active_one<T>(
    timeline: TimelineState<T>,
    active: Option<String>,
)
    ensures
        match (timeline.selected_place(), active) {
            (Some(place), _) => crate::host::active_place(timeline, active) == Some(place),
            (None, Some(id)) => match timeline.place_of(id@) {
                Some(place) if timeline.clip_at(place).clip_type.audio() =>
                    crate::host::active_place(timeline, active) == Some(place),
                _ => crate::host::active_place(timeline, active) is None,
            },
            (None, None) => crate::host::active_place(timeline, active) is None,
        },
{
}

/// A later job or a refresh makes an earlier job's result stale.
pub proof fn law_a_newer_job_makes_an_older_one_stale(generation: u64)
    ensures
        crate::host::next_generation(generation) != generation,
{
}

/// The identity of a spectrogram changes with its direction.
pub proof fn law_direction_changes_the_spectrogram(
    path: Seq<char>,
    scale: FrequencyScale,
    pitch: Seq<char>,
)
    ensures
        crate::host::spectrogram_id(path, scale, pitch, true) != crate::host::spectrogram_id(
            path,
            scale,
            pitch,
            false,
        ),
{
    reveal_strlit("1");
    reveal_strlit("0");
    let forward = crate::host::spectrogram_id(path, scale, pitch, false);
    let backward = crate::host::spectrogram_id(path, scale, pitch, true);
    assert(forward.last() == '0');
    assert(backward.last() == '1');
}

/// The identity of a spectrogram changes with its frequency scale.
pub proof fn law_scale_changes_the_spectrogram(path: Seq<char>, pitch: Seq<char>, reverse: bool)
    ensures
        crate::host::spectrogram_id(path, FrequencyScale::Linear, pitch, reverse)
            != crate::host::spectrogram_id(path, FrequencyScale::Logarithmic, pitch, reverse),
{
    reveal_strlit("Linear");
    reveal_strlit("Logarithmic");
    let linear = crate::host::spectrogram_id(path, FrequencyScale::Linear, pitch, reverse);
    let logarithmic = crate::host::spectrogram_id(
        path,
        FrequencyScale::Logarithmic,
        pitch,
        reverse,
    );
    assert(linear.len() < logarithmic.len());
}

/// The identity of a spectrogram changes with its pitch.
pub proof fn law_pitch_changes_the_spectrogram(
    path: Seq<char>,
    scale: FrequencyScale,
    pitch: Seq<char>,
    other: Seq<char>,
    reverse: bool,
)
    requires
        pitch != other,
    ensures
        crate::host::spectrogram_id(path, scale, pitch, reverse) != crate::host::spectrogram_id(
            path,
            scale,
            other,
            reverse,
        ),
{
    let one = crate::host::spectrogram_id(path, scale, pitch, reverse);
    let two = crate::host::spectrogram_id(path, scale, other, reverse);
    let front = path + "|"@ + crate::host::scale_name(scale) + "|p"@;
    let back = if reverse {
        "1"@
    } else {
        "0"@
    };
    assert(one == front + pitch + "|r"@ + back);
    assert(two == front + other + "|r"@ + back);
    if one == two {
        assert(pitch.len() == other.len());
        assert forall|i: int| 0 <= i < pitch.len() implies pitch[i] == other[i] by {
            assert(one[front.len() + i] == pitch[i]);
            assert(two[front.len() + i] == other[i]);
        }
        assert(pitch =~= other);
    }
}

} // verus!
