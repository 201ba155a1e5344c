//! What the audio editor panel shows of the active clip.

use vstd::prelude::*;

use crate::editor::FrequencyScale;
use crate::host::{file_label, AudioEditorHost};
use crate::target::{SpectralSelection, WaveformFileMeta};
use crate::text::decimal_text;
use crate::timeline::{
    AudioImportState, ClipType, EnvelopePoint, StretchMode, TimelineState, WarpMarker,
};

verus! {

/// A warp marker as the panel shows it.
#[derive(Clone, Copy)]
pub struct WarpMarkerView<T> {
    pub id: u64,
    pub rel_beat: T,
    pub source_sample: u64,
    pub locked: bool,
}

/// What the spectrogram lane shows.
pub enum SpectrogramPane<'a, R> {
    Ready { rendered: &'a R },
    Failed { message: &'a String },
    Loading { label: &'static str },
}

/// Whether the spectrogram lane shows how the analysis stands.
pub open spec fn pane_shows<R>(
    pane: SpectrogramPane<'_, R>,
    result: Option<Result<R, String>>,
) -> bool {
    match result {
        Some(Ok(rendered)) => pane matches SpectrogramPane::Ready { rendered: shown } && *shown
            == rendered,
        Some(Err(message)) => pane matches SpectrogramPane::Failed { message: shown } && *shown
            == message,
        None => pane matches SpectrogramPane::Loading { label } && label@
            == "Preparing spectrogram…"@,
    }
}

/// Measures of the active clip, in the units that the panel shows.
#[derive(Clone, Copy)]
pub struct ViewMeasures<T> {
    pub beats_per_bar: T,
    pub bpm: T,
    pub gain_db: T,
    pub pitch_semitones: T,
    pub fine_cents: T,
    pub stretch_percent: T,
    pub follow_tempo: bool,
    pub fade_in_beats: T,
    pub fade_out_beats: T,
    pub playing: bool,
    /// Position of the playhead in the clip, and whether it is inside.
    pub playhead: T,
    pub playhead_inside: bool,
    /// The arrangement's range, in beats of the clip.
    pub arrangement_range: Option<(T, T)>,
}

/// Labels of the active clip that are made from measures.
pub struct ViewLabels {
    pub selection_start: String,
    pub selection_end: String,
    pub selection_duration: String,
    pub peak: Option<String>,
}

/// What the audio editor panel shows of a clip.
pub struct AudioEditorViewModel<'a, T, R> {
    pub clip_id: String,
    pub clip_name: String,
    pub file_label: Option<String>,
    pub source_path: Option<String>,
    pub source_start_frame: i64,
    pub source_end_frame: i64,
    pub start_beat: T,
    pub duration_beats: T,
    pub offset_beats: T,
    pub track_color: u32,
    pub spectrogram: SpectrogramPane<'a, R>,
    pub view_mode: u32,
    pub amplitude_scale: u32,
    pub frequency_scale: FrequencyScale,
    pub playhead_in_clip: Option<T>,
    pub selection_range: Option<(T, T)>,
    pub spectral_selection: Option<SpectralSelection<T>>,
    pub gain_envelope: Vec<EnvelopePoint<T>>,
    pub original_bpm: Option<T>,
    pub stretch_mode: &'static str,
    pub reverse: bool,
    pub denoise_amount: T,
    pub channel_mode: u32,
    pub warp_markers: Vec<WarpMarkerView<T>>,
    pub clip_channel: u32,
    pub display_smoothing: u32,
    pub sample_rate: u32,
    pub selection_start_label: String,
    pub selection_end_label: String,
    pub selection_duration_label: String,
    pub peak_label: String,
    pub source_summary: String,
    pub measures: ViewMeasures<T>,
}

/// The name of a stretch mode.
pub open spec fn stretch_mode_text(mode: StretchMode) -> Seq<char> {
    match mode {
        StretchMode::Off => "Off"@,
        StretchMode::Resample => "Resample"@,
        StretchMode::TempoSync => "Tempo Sync"@,
        StretchMode::Manual => "Manual"@,
        StretchMode::Warp => "Warp"@,
    }
}

/// The name of a stretch mode.
pub fn stretch_mode_name(mode: StretchMode) -> (name: &'static str)
    ensures
        name@ == stretch_mode_text(mode),
{
    match mode {
        StretchMode::Off => "Off",
        StretchMode::Resample => "Resample",
        StretchMode::TempoSync => "Tempo Sync",
        StretchMode::Manual => "Manual",
        StretchMode::Warp => "Warp",
    }
}

/// What is known of a clip's source.
pub open spec fn source_text(meta: Option<WaveformFileMeta>, import: AudioImportState) -> Seq<char> {
    match meta {
        Some(meta) => crate::text::decimal((meta.sample_rate / 1000) as nat) + " kHz · "@
            + crate::text::decimal(meta.channels as nat) + " ch"@,
        None => match import {
            AudioImportState::Failed { .. } => "Source unavailable"@,
            _ => "Preparing source…"@,
        },
    }
}

/// What is known of a clip's source: rate and channels, or how its import
/// stands.
pub fn source_summary(meta: Option<WaveformFileMeta>, import: &AudioImportState) -> (summary: String)
    ensures
        summary@ == source_text(meta, *import),
{
    match meta {
        Some(meta) => decimal_text((meta.sample_rate / 1000) as u64).concat(" kHz · ").concat(
            &decimal_text(meta.channels as u64),
        ).concat(" ch"),
        None => match import {
            AudioImportState::Failed { .. } => "Source unavailable".to_owned(),
            _ => "Preparing source…".to_owned(),
        },
    }
}

/// The selection shown: the editor's own, or the arrangement's range.
pub open spec fn shown_selection<T>(own: Option<(T, T)>, arrangement: Option<(T, T)>) -> Option<
    (T, T),
> {
    match own {
        Some(_) => own,
        None => arrangement,
    }
}

/// The selection shown: the editor's own, or the arrangement's range.
pub fn selection_in_view<T: Copy>(own: Option<(T, T)>, arrangement: Option<(T, T)>) -> (shown:
    Option<(T, T)>)
    ensures
        shown == shown_selection(own, arrangement),
{
    match own {
        Some(_) => own,
        None => arrangement,
    }
}

/// The warp markers as the panel shows them.
pub open spec fn marker_views<T>(markers: Seq<WarpMarker<T>>, beats: Seq<T>) -> Seq<
    WarpMarkerView<T>,
> {
    Seq::new(
        markers.len(),
        |i: int|
            WarpMarkerView {
                id: markers[i].id,
                rel_beat: beats[i],
                source_sample: markers[i].source_sample,
                locked: markers[i].locked,
            },
    )
}

fn copy_points<T: Copy>(points: &Vec<EnvelopePoint<T>>) -> (copy: Vec<EnvelopePoint<T>>)
    ensures
        copy@ == points@,
{
    let mut copy: Vec<EnvelopePoint<T>> = Vec::new();
    let mut i: usize = 0;
    while i < points.len()
        invariant
            i <= points@.len(),
            copy@ == points@.take(i as int),
        decreases points@.len() - i,
    {
        copy.push(points[i]);
        proof {
            assert(points@.take(i as int + 1) =~= points@.take(i as int).push(points@[i as int]));
        }
        i += 1;
    }
    proof {
        assert(points@.take(i as int) =~= points@);
    }
    copy
}

fn show_markers<T: Copy>(markers: &Vec<WarpMarker<T>>, beats: &Vec<T>) -> (views: Vec<
    WarpMarkerView<T>,
>)
    requires
        markers@.len() == beats@.len(),
    ensures
        views@ == marker_views(markers@, beats@),
{
    let mut views: Vec<WarpMarkerView<T>> = Vec::new();
    let mut i: usize = 0;
    while i < markers.len()
        invariant
            markers@.len() == beats@.len(),
            i <= markers@.len(),
            views@ == marker_views(markers@, beats@).take(i as int),
        decreases markers@.len() - i,
    {
        views.push(
            WarpMarkerView {
                id: markers[i].id,
                rel_beat: beats[i],
                source_sample: markers[i].source_sample,
                locked: markers[i].locked,
            },
        );
        i += 1;
    }
    views
}

fn label_or_dash(label: Option<String>) -> (text: String)
    ensures
        text@ == match label {
            Some(label) => label@,
            None => "—"@,
        },
{
    match label {
        Some(label) => label,
        None => "—".to_owned(),
    }
}

impl<T: Copy, R> AudioEditorHost<T, R> {
    /// What the spectrogram lane shows.
    pub fn spectrogram_pane(&self) -> (pane: SpectrogramPane<'_, R>)
        ensures
            pane_shows(pane, self.spectrogram_result),
    {
        match &self.spectrogram_result {
            Some(Ok(rendered)) => SpectrogramPane::Ready { rendered },
            Some(Err(message)) => SpectrogramPane::Failed { message },
            None => SpectrogramPane::Loading { label: "Preparing spectrogram…" },
        }
    }

    /// What the panel shows of the active clip, if there is one.
    pub fn build_view_model<'a>(
        &'a self,
        timeline: &TimelineState<T>,
        meta: Option<WaveformFileMeta>,
        measures: ViewMeasures<T>,
        marker_beats: &Vec<T>,
        labels: ViewLabels,
    ) -> (model: Option<AudioEditorViewModel<'a, T, R>>)
        requires
            crate::host::active_clip_of(*timeline, self.active_clip_id) matches Some(clip)
                ==> marker_beats@.len() == clip.stretch.warp_markers@.len(),
        ensures
            match crate::host::active_place(*timeline, self.active_clip_id) {
                None => model is None,
                Some(place) => {
                    let clip = timeline.clip_at(place);
                    let shown = shown_selection(
                        self.state.selection_range,
                        measures.arrangement_range,
                    );
                    &&& model is Some
                    &&& model->0.clip_id == clip.id
                    &&& model->0.clip_name == clip.name
                    &&& model->0.source_path == crate::host::clip_path(clip.clip_type)
                    &&& model->0.file_label is Some == model->0.source_path is Some
                    &&& model->0.source_path is Some ==> crate::host::labels_file(
                        model->0.file_label->0@,
                        model->0.source_path->0@,
                    )
                    &&& model->0.source_start_frame == clip.stretch.source_start_samples as i64
                    &&& model->0.source_end_frame == crate::host::source_end(clip, meta) as i64
                    &&& model->0.start_beat == clip.start_beat
                    &&& model->0.duration_beats == clip.duration_beats
                    &&& model->0.offset_beats == clip.offset_beats
                    &&& model->0.track_color == timeline.tracks@[place.0].color
                    &&& pane_shows(model->0.spectrogram, self.spectrogram_result)
                    &&& model->0.view_mode == self.state.view_mode
                    &&& model->0.amplitude_scale == self.state.amplitude_scale
                    &&& model->0.frequency_scale == self.state.frequency_scale
                    &&& model->0.channel_mode == self.state.channel_mode
                    &&& model->0.display_smoothing == self.state.display_smoothing
                    &&& model->0.playhead_in_clip == if measures.playing
                        && measures.playhead_inside {
                        Some(measures.playhead)
                    } else {
                        None
                    }
                    &&& model->0.selection_range == shown
                    &&& model->0.spectral_selection == self.state.spectral_selection
                    &&& model->0.gain_envelope@ == clip.stretch.gain_envelope@
                    &&& model->0.original_bpm == clip.stretch.bpm_source
                    &&& model->0.stretch_mode@ == stretch_mode_text(clip.stretch.mode)
                    &&& model->0.reverse == clip.stretch.reverse
                    &&& model->0.denoise_amount == clip.stretch.denoise_amount
                    &&& model->0.warp_markers@ == marker_views(
                        clip.stretch.warp_markers@,
                        marker_beats@,
                    )
                    &&& model->0.clip_channel == clip.stretch.channel_transform
                    &&& model->0.sample_rate == match meta {
                        Some(meta) => meta.sample_rate,
                        None => 0,
                    }
                    &&& model->0.selection_start_label@ == if shown is Some {
                        labels.selection_start@
                    } else {
                        "—"@
                    }
                    &&& model->0.selection_end_label@ == if shown is Some {
                        labels.selection_end@
                    } else {
                        "—"@
                    }
                    &&& model->0.selection_duration_label@ == if shown is Some {
                        labels.selection_duration@
                    } else {
                        "—"@
                    }
                    &&& model->0.peak_label@ == match labels.peak {
                        Some(peak) if clip.asset_key is Some => peak@,
                        _ => "—"@,
                    }
                    &&& model->0.source_summary@ == source_text(meta, clip.audio_import)
                    &&& model->0.measures == measures
                },
            },
    {
        let (track, clip) = match self.active_clip(timeline) {
            Some(found) => found,
            None => {
                return None;
            },
        };
        let source_path: Option<String> = match &clip.clip_type {
            ClipType::Audio { source_path: Some(path) } => Some(path.clone()),
            _ => None,
        };
        let file_label: Option<String> = match &source_path {
            Some(path) => Some(file_label(path)),
            None => None,
        };
        let selection_range = selection_in_view(
            self.state.selection_range,
            measures.arrangement_range,
        );
        let (start_label, end_label, duration_label) = if selection_range.is_some() {
            (labels.selection_start, labels.selection_end, labels.selection_duration)
        } else {
            ("—".to_owned(), "—".to_owned(), "—".to_owned())
        };
        let peak_label = if clip.asset_key.is_some() {
            label_or_dash(labels.peak)
        } else {
            "—".to_owned()
        };
        Some(
            AudioEditorViewModel {
                clip_id: clip.id.clone(),
                clip_name: clip.name.clone(),
                file_label,
                source_path,
                source_start_frame: clip.stretch.source_start_samples as i64,
                source_end_frame: crate::host::source_end_frame(clip, meta) as i64,
                start_beat: clip.start_beat,
                duration_beats: clip.duration_beats,
                offset_beats: clip.offset_beats,
                track_color: track.color,
                spectrogram: self.spectrogram_pane(),
                view_mode: self.state.view_mode,
                amplitude_scale: self.state.amplitude_scale,
                frequency_scale: self.state.frequency_scale,
                playhead_in_clip: if measures.playing && measures.playhead_inside {
                    Some(measures.playhead)
                } else {
                    None
                },
                selection_range,
                spectral_selection: self.state.spectral_selection,
                gain_envelope: copy_points(&clip.stretch.gain_envelope),
                original_bpm: clip.stretch.bpm_source,
                stretch_mode: stretch_mode_name(clip.stretch.mode),
                reverse: clip.stretch.reverse,
                denoise_amount: clip.stretch.denoise_amount,
                channel_mode: self.state.channel_mode,
                warp_markers: show_markers(&clip.stretch.warp_markers, marker_beats),
                clip_channel: clip.stretch.channel_transform,
                display_smoothing: self.state.display_smoothing,
                sample_rate: match meta {
                    Some(meta) => meta.sample_rate,
                    None => 0,
                },
                selection_start_label: start_label,
                selection_end_label: end_label,
                selection_duration_label: duration_label,
                peak_label,
                source_summary: source_summary(meta, &clip.audio_import),
                measures,
            },
        )
    }
}

// ------------------------------------------------------------------- laws

/// Every warp marker is shown, at its own beat, with its id, its sample and its
/// lock, in order.
pub proof fn law_every_warp_marker_is_shown<T>(markers: Seq<WarpMarker<T>>, beats: Seq<T>, i: int)
    requires
        0 <= i < markers.len(),
    ensures
        marker_views(markers, beats).len() == markers.len(),
        marker_views(markers, beats)[i].id == markers[i].id,
        marker_views(markers, beats)[i].rel_beat == beats[i],
        marker_views(markers, beats)[i].source_sample == markers[i].source_sample,
        marker_views(markers, beats)[i].locked == markers[i].locked,
{
}

/// The editor's own selection is shown before the arrangement's, and one of them
/// wherever there is any.
pub proof fn law_the_own_selection_comes_first<T>(
    own: Option<(T, T)>,
    arrangement: Option<(T, T)>,
)
    ensures
        own is Some ==> shown_selection(own, arrangement) == own,
        own is None ==> shown_selection(own, arrangement) == arrangement,
{
}

/// The spectrogram lane shows the spectrogram where it is there, why there is
/// none where it failed, and that it is on its way otherwise.
pub proof fn law_the_lane_shows_how_the_analysis_stands<R>(
    pane: SpectrogramPane<'_, R>,
    result: Option<Result<R, String>>,
)
    requires
        pane_shows(pane, result),
    ensures
        pane is Ready <==> result matches Some(Ok(_)),
        pane is Failed <==> result matches Some(Err(_)),
        pane is Loading <==> result is None,
        pane matches SpectrogramPane::Ready { rendered } ==> result == Some(
            Ok::<R, String>(*rendered),
        ),
        pane matches SpectrogramPane::Failed { message } ==> result == Some(
            Err::<R, String>(*message),
        ),
{
}

/// The stretch modes are told apart by their names.
pub proof fn law_stretch_modes_have_names_of_their_own(a: StretchMode, b: StretchMode)
    requires
        a != b,
    ensures
        stretch_mode_text(a) != stretch_mode_text(b),
{
    reveal_strlit("Off");
    reveal_strlit("Resample");
    reveal_strlit("Tempo Sync");
    reveal_strlit("Manual");
    reveal_strlit("Warp");
    assert("Off"@.len() == 3 && "Resample"@.len() == 8 && "Tempo Sync"@.len() == 10);
    assert("Manual"@.len() == 6 && "Warp"@.len() == 4);
}

/// A known source is described by its whole kilohertz and its channels, an
/// unknown one by whether it can still be had.
pub proof fn law_a_source_is_described(meta: Option<WaveformFileMeta>, import: AudioImportState)
    ensures
        meta matches Some(known) ==> source_text(meta, import) == crate::text::decimal(
            (known.sample_rate / 1000) as nat,
        ) + " kHz · "@ + crate::text::decimal(known.channels as nat) + " ch"@,
        meta is None && import is Failed ==> source_text(meta, import) == "Source unavailable"@,
        meta is None && !(import is Failed) ==> source_text(meta, import)
            == "Preparing source…"@,
{
}

} // verus!
