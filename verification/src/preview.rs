//! Temporary clip preview overrides. They are never stored with a project.

use vstd::prelude::*;

use crate::text::same_text;

verus! {

/// Settings of the hum filter.
#[derive(Clone, Copy)]
pub struct DehumParams<T> {
    pub base_hz: T,
    pub harmonics: u8,
    pub reduction_db: T,
}

/// A preview laid over a clip without changing the project.
pub struct ClipPreviewOverride<T> {
    pub clip_id: String,
    pub extra_gain: Option<T>,
    pub channel: Option<u32>,
    pub dc_remove: Option<bool>,
    pub dc_left: T,
    pub dc_right: T,
    pub dehum: Option<DehumParams<T>>,
    pub stretch_ratio: Option<T>,
    pub pitch_semitones: Option<T>,
    pub denoise_amount: Option<T>,
    pub bypass: bool,
}

/// The preview's values as the engine takes them: kept in range, and with the
/// pitch as a ratio.
#[derive(Clone, Copy)]
pub struct PreviewLevels<T> {
    pub unity: T,
    pub extra_gain: T,
    pub denoise_amount: T,
    pub pitch_ratio: T,
}

/// How the engine processes a clip.
#[derive(Clone, Copy)]
pub struct EngineClipAudioProcess<T> {
    pub preview_bypass: bool,
    pub extra_gain: T,
    pub channel_transform: u32,
    pub dc_remove: bool,
    pub dc_left: T,
    pub dc_right: T,
    pub dehum_hz: T,
    pub dehum_harmonics: u8,
    pub dehum_reduction_db: T,
    pub denoise_amount: T,
    pub effective_time_ratio: T,
    pub preserve_pitch: bool,
    pub pitch_semitones: T,
    pub pitch_ratio: T,
}

/// A clip of the engine's project.
pub struct EngineClip<T> {
    pub id: String,
    pub audio_process: Option<EngineClipAudioProcess<T>>,
}

/// The engine's picture of the project.
pub struct EngineProjectSnapshot<T> {
    pub clips: Vec<EngineClip<T>>,
}

impl<T: Copy> ClipPreviewOverride<T> {
    /// The preview that changes nothing; `zero` is no offset.
    pub fn identity(clip_id: String, zero: T) -> (preview: ClipPreviewOverride<T>)
        ensures
            preview == (ClipPreviewOverride {
                clip_id,
                extra_gain: None,
                channel: None,
                dc_remove: None,
                dc_left: zero,
                dc_right: zero,
                dehum: None,
                stretch_ratio: None,
                pitch_semitones: None,
                denoise_amount: None,
                bypass: false,
            }),
    {
        ClipPreviewOverride {
            clip_id,
            extra_gain: None,
            channel: None,
            dc_remove: None,
            dc_left: zero,
            dc_right: zero,
            dehum: None,
            stretch_ratio: None,
            pitch_semitones: None,
            denoise_amount: None,
            bypass: false,
        }
    }
}

/// What is taken over where there is something to take over.
pub open spec fn taken<A>(new: Option<A>, old: A) -> A {
    match new {
        Some(value) => value,
        None => old,
    }
}

/// How the engine processes a clip under a preview.
pub open spec fn previewed<T>(
    process: EngineClipAudioProcess<T>,
    preview: ClipPreviewOverride<T>,
    levels: PreviewLevels<T>,
) -> EngineClipAudioProcess<T> {
    if preview.bypass {
        EngineClipAudioProcess { preview_bypass: true, extra_gain: levels.unity, ..process }
    } else {
        EngineClipAudioProcess {
            preview_bypass: false,
            extra_gain: if preview.extra_gain is Some {
                levels.extra_gain
            } else {
                process.extra_gain
            },
            channel_transform: taken(preview.channel, process.channel_transform),
            dc_remove: taken(preview.dc_remove, process.dc_remove),
            dc_left: if preview.dc_remove is Some {
                preview.dc_left
            } else {
                process.dc_left
            },
            dc_right: if preview.dc_remove is Some {
                preview.dc_right
            } else {
                process.dc_right
            },
            dehum_hz: match preview.dehum {
                Some(dehum) => dehum.base_hz,
                None => process.dehum_hz,
            },
            dehum_harmonics: match preview.dehum {
                Some(dehum) => dehum.harmonics,
                None => process.dehum_harmonics,
            },
            dehum_reduction_db: match preview.dehum {
                Some(dehum) => dehum.reduction_db,
                None => process.dehum_reduction_db,
            },
            denoise_amount: if preview.denoise_amount is Some {
                levels.denoise_amount
            } else {
                process.denoise_amount
            },
            effective_time_ratio: taken(preview.stretch_ratio, process.effective_time_ratio),
            preserve_pitch: preview.stretch_ratio is Some || preview.pitch_semitones is Some
                || process.preserve_pitch,
            pitch_semitones: taken(preview.pitch_semitones, process.pitch_semitones),
            pitch_ratio: if preview.pitch_semitones is Some {
                levels.pitch_ratio
            } else {
                process.pitch_ratio
            },
        }
    }
}

/// Lays a preview over a clip's processing.
pub fn apply_preview_to_clip<T: Copy>(
    process: &mut EngineClipAudioProcess<T>,
    preview: &ClipPreviewOverride<T>,
    levels: &PreviewLevels<T>,
)
    ensures
        *final(process) == previewed(*old(process), *preview, *levels),
{
    if preview.bypass {
        process.preview_bypass = true;
        process.extra_gain = levels.unity;
        return;
    }
    process.preview_bypass = false;
    if preview.extra_gain.is_some() {
        process.extra_gain = levels.extra_gain;
    }
    if let Some(channel) = preview.channel {
        process.channel_transform = channel;
    }
    if let Some(remove) = preview.dc_remove {
        process.dc_remove = remove;
        process.dc_left = preview.dc_left;
        process.dc_right = preview.dc_right;
    }
    if let Some(dehum) = preview.dehum {
        process.dehum_hz = dehum.base_hz;
        process.dehum_harmonics = dehum.harmonics;
        process.dehum_reduction_db = dehum.reduction_db;
    }
    if preview.denoise_amount.is_some() {
        process.denoise_amount = levels.denoise_amount;
    }
    if let Some(ratio) = preview.stretch_ratio {
        process.effective_time_ratio = ratio;
        process.preserve_pitch = true;
    }
    if let Some(semitones) = preview.pitch_semitones {
        process.pitch_semitones = semitones;
        process.pitch_ratio = levels.pitch_ratio;
        process.preserve_pitch = true;
    }
}

/// Whether no two previews are for the same clip.
pub open spec fn one_per_clip<T>(previews: Seq<(ClipPreviewOverride<T>, PreviewLevels<T>)>) -> bool {
    forall|i: int, j: int|
        0 <= i < j < previews.len() ==> (#[trigger] previews[i]).0.clip_id@ != (
        #[trigger] previews[j]).0.clip_id@
}

/// Whether a preview is for a clip.
pub open spec fn previews_clip<T>(
    previews: Seq<(ClipPreviewOverride<T>, PreviewLevels<T>)>,
    i: int,
    id: Seq<char>,
) -> bool {
    0 <= i < previews.len() && previews[i].0.clip_id@ == id
}

/// How a clip's processing comes out of the previews.
pub open spec fn process_under<T>(
    before: EngineClip<T>,
    after: EngineClip<T>,
    previews: Seq<(ClipPreviewOverride<T>, PreviewLevels<T>)>,
) -> bool {
    &&& after.id == before.id
    &&& (forall|i: int| !#[trigger] previews_clip(previews, i, before.id@))
        ==> after.audio_process == before.audio_process
    &&& forall|i: int| #[trigger]
        previews_clip(previews, i, before.id@) ==> after.audio_process == match before.audio_process {
            Some(process) => Some(previewed(process, previews[i].0, previews[i].1)),
            None => None,
        }
}

fn find_preview<T>(previews: &Vec<(ClipPreviewOverride<T>, PreviewLevels<T>)>, id: &String) -> (found:
    Option<usize>)
    ensures
        match found {
            Some(i) => previews_clip(previews@, i as int, id@),
            None => forall|i: int| !#[trigger] previews_clip(previews@, i, id@),
        },
{
    let mut i: usize = 0;
    while i < previews.len()
        invariant
            i <= previews@.len(),
            forall|j: int| 0 <= j < i ==> !#[trigger] previews_clip(previews@, j, id@),
        decreases previews@.len() - i,
    {
        if same_text(&previews[i].0.clip_id, id) {
            return Some(i);
        }
        i += 1;
    }
    None
}

/// Lays the previews over the clips of a project.
pub fn apply_previews_to_snapshot<T: Copy>(
    snapshot: &mut EngineProjectSnapshot<T>,
    previews: &Vec<(ClipPreviewOverride<T>, PreviewLevels<T>)>,
)
    requires
        one_per_clip(previews@),
    ensures
        final(snapshot).clips@.len() == old(snapshot).clips@.len(),
        forall|c: int|
            0 <= c < old(snapshot).clips@.len() ==> process_under(
                #[trigger] old(snapshot).clips@[c],
                final(snapshot).clips@[c],
                previews@,
            ),
{
    if previews.len() == 0 {
        return;
    }
    let ghost before = snapshot.clips@;
    let mut c: usize = 0;
    while c < snapshot.clips.len()
        invariant
            one_per_clip(previews@),
            c <= snapshot.clips@.len(),
            snapshot.clips@.len() == before.len(),
            forall|j: int|
                0 <= j < c ==> process_under(#[trigger] before[j], snapshot.clips@[j], previews@),
            forall|j: int| c <= j < before.len() ==> snapshot.clips@[j] == #[trigger] before[j],
        decreases snapshot.clips@.len() - c,
    {
        if let Some(i) = find_preview(previews, &snapshot.clips[c].id) {
            if let Some(process) = snapshot.clips[c].audio_process {
                let mut next = process;
                apply_preview_to_clip(&mut next, &previews[i].0, &previews[i].1);
                snapshot.clips[c].audio_process = Some(next);
            }
            proof {
                assert forall|j: int| #[trigger]
                    previews_clip(previews@, j, before[c as int].id@) implies j == i by {
                    assert(previews@[j].0.clip_id@ == previews@[i as int].0.clip_id@);
                }
            }
        }
        c += 1;
    }
}

// ------------------------------------------------------------------- laws

/// The identity preview only takes a bypass back.
pub proof fn law_the_identity_preview_changes_nothing<T>(
    process: EngineClipAudioProcess<T>,
    preview: ClipPreviewOverride<T>,
    levels: PreviewLevels<T>,
)
    requires
        preview.extra_gain is None,
        preview.channel is None,
        preview.dc_remove is None,
        preview.dehum is None,
        preview.stretch_ratio is None,
        preview.pitch_semitones is None,
        preview.denoise_amount is None,
        !preview.bypass,
    ensures
        previewed(process, preview, levels) == (EngineClipAudioProcess {
            preview_bypass: false,
            ..process
        }),
{
}

/// A bypassed preview leaves every setting of the clip but its gain alone.
pub proof fn law_a_bypassed_preview_keeps_the_clip<T>(
    process: EngineClipAudioProcess<T>,
    preview: ClipPreviewOverride<T>,
    levels: PreviewLevels<T>,
)
    requires
        preview.bypass,
    ensures
        previewed(process, preview, levels) == (EngineClipAudioProcess {
            preview_bypass: true,
            extra_gain: levels.unity,
            ..process
        }),
{
}

/// Laying the same preview over a clip twice is laying it once.
pub proof fn law_previews_do_not_stack<T>(
    process: EngineClipAudioProcess<T>,
    preview: ClipPreviewOverride<T>,
    levels: PreviewLevels<T>,
)
    ensures
        previewed(previewed(process, preview, levels), preview, levels) == previewed(
            process,
            preview,
            levels,
        ),
{
}

/// Each setting that a preview has is heard instead of the clip's own, and each
/// that it does not have is left to the clip.
pub proof fn law_a_preview_is_heard_setting_by_setting<T>(
    process: EngineClipAudioProcess<T>,
    preview: ClipPreviewOverride<T>,
    levels: PreviewLevels<T>,
)
    requires
        !preview.bypass,
    ensures
        ({
            let heard = previewed(process, preview, levels);
            &&& !heard.preview_bypass
            &&& heard.extra_gain == if preview.extra_gain is Some {
                levels.extra_gain
            } else {
                process.extra_gain
            }
            &&& preview.channel matches Some(channel) ==> heard.channel_transform == channel
            &&& preview.channel is None ==> heard.channel_transform == process.channel_transform
            &&& preview.dc_remove matches Some(remove) ==> heard.dc_remove == remove
                && heard.dc_left == preview.dc_left && heard.dc_right == preview.dc_right
            &&& preview.dc_remove is None ==> heard.dc_remove == process.dc_remove && heard.dc_left
                == process.dc_left && heard.dc_right == process.dc_right
            &&& preview.dehum matches Some(dehum) ==> heard.dehum_hz == dehum.base_hz
                && heard.dehum_harmonics == dehum.harmonics && heard.dehum_reduction_db
                == dehum.reduction_db
            &&& preview.dehum is None ==> heard.dehum_hz == process.dehum_hz
                && heard.dehum_harmonics == process.dehum_harmonics && heard.dehum_reduction_db
                == process.dehum_reduction_db
            &&& heard.denoise_amount == if preview.denoise_amount is Some {
                levels.denoise_amount
            } else {
                process.denoise_amount
            }
        }),
{
}

/// A previewed stretch or pitch is heard, and either keeps the other as it
/// should sound.
pub proof fn law_a_previewed_stretch_keeps_the_pitch<T>(
    process: EngineClipAudioProcess<T>,
    preview: ClipPreviewOverride<T>,
    levels: PreviewLevels<T>,
)
    requires
        !preview.bypass,
    ensures
        ({
            let heard = previewed(process, preview, levels);
            &&& preview.stretch_ratio matches Some(ratio) ==> heard.effective_time_ratio == ratio
                && heard.preserve_pitch
            &&& preview.stretch_ratio is None ==> heard.effective_time_ratio
                == process.effective_time_ratio
            &&& preview.pitch_semitones matches Some(semitones) ==> heard.pitch_semitones
                == semitones && heard.pitch_ratio == levels.pitch_ratio && heard.preserve_pitch
            &&& preview.pitch_semitones is None ==> heard.pitch_semitones
                == process.pitch_semitones && heard.pitch_ratio == process.pitch_ratio
            &&& preview.stretch_ratio is None && preview.pitch_semitones is None
                ==> heard.preserve_pitch == process.preserve_pitch
        }),
{
}

/// A clip is heard under the preview that is for it, and a clip without one, or
/// without anything to process, as it is.
pub proof fn law_a_preview_reaches_its_clip_alone<T>(
    before: EngineClip<T>,
    after: EngineClip<T>,
    previews: Seq<(ClipPreviewOverride<T>, PreviewLevels<T>)>,
    i: int,
)
    requires
        process_under(before, after, previews),
    ensures
        after.id == before.id,
        before.audio_process is None && 0 <= i < previews.len() && previews[i].0.clip_id@
            == before.id@ ==> after.audio_process is None,
        (forall|k: int|
            0 <= k < previews.len() ==> (#[trigger] previews[k]).0.clip_id@ != before.id@)
            ==> after.audio_process == before.audio_process,
        0 <= i < previews.len() && previews[i].0.clip_id@ == before.id@ ==> (
        before.audio_process matches Some(process) ==> after.audio_process == Some(
            previewed(process, previews[i].0, previews[i].1),
        )),
{
    if 0 <= i < previews.len() && previews[i].0.clip_id@ == before.id@ {
        assert(previews_clip(previews, i, before.id@));
    }
    assert forall|k: int| #[trigger] previews_clip(previews, k, before.id@) implies 0 <= k
        < previews.len() && previews[k].0.clip_id@ == before.id@ by {}
}

/// Where no two previews are for the same clip, a clip has one at most.
pub proof fn law_a_clip_has_one_preview<T>(
    previews: Seq<(ClipPreviewOverride<T>, PreviewLevels<T>)>,
    i: int,
    j: int,
)
    requires
        one_per_clip(previews),
        0 <= i < previews.len(),
        0 <= j < previews.len(),
        previews[i].0.clip_id@ == previews[j].0.clip_id@,
    ensures
        i == j,
{
}

} // verus!
