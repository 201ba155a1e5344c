//! The header of the repair canvas and the inspector beside it.

use vstd::prelude::*;

use crate::canvas::CanvasView;
use crate::editor::FrequencyScale;
use crate::navigator::AudioRepairModule;
use crate::repair::{profile_label, region_hint, RepairSurface};
use crate::workspace::{segment_position, FbSegment};

verus! {

/// What a control of the repair workspace does.
#[derive(Clone, Copy, PartialEq, Eq, Structural, Debug)]
pub enum RepairAction {
    ShowView { view: CanvasView },
    ToggleFrequencyScale,
    ToggleTransients,
    ToggleSpectrum,
    ZoomOut,
    ZoomIn,
    Fit,
    LearnRegion,
    ClearProfile,
    PreviousClick,
    NextClick,
    HumAt50,
    HumAt60,
    SilenceRegion,
    ClearRegion,
}

/// A value that a slider of the inspector sets.
#[derive(Clone, Copy, PartialEq, Eq, Structural, Debug)]
pub enum RepairParam {
    DenoiseReduction,
    DenoiseThreshold,
    ClickSensitivity,
    ClickWidth,
    HumHarmonics,
    HumReduction,
    SpectralGain,
}

/// The ends of a slider and where a reset puts it, in hundredths.
#[derive(Clone, Copy, PartialEq, Eq, Structural, Debug)]
pub struct SliderRange {
    pub min: i32,
    pub max: i32,
    pub reset: i32,
}

/// The ends of a slider and where a reset puts it, in hundredths.
pub open spec fn range_of(param: RepairParam) -> SliderRange {
    match param {
        RepairParam::DenoiseReduction => SliderRange { min: 0, max: 2_400, reset: 1_200 },
        RepairParam::DenoiseThreshold => SliderRange { min: -8_000i32, max: -1_200i32, reset: -4_800i32 },
        RepairParam::ClickSensitivity => SliderRange { min: 5, max: 100, reset: 65 },
        RepairParam::ClickWidth => SliderRange { min: 200, max: 6_400, reset: 1_200 },
        RepairParam::HumHarmonics => SliderRange { min: 100, max: 1_000, reset: 400 },
        RepairParam::HumReduction => SliderRange { min: 0, max: 4_800, reset: 1_800 },
        RepairParam::SpectralGain => SliderRange { min: -4_800i32, max: 2_400, reset: 0 },
    }
}

/// The ends of a slider and where a reset puts it, in hundredths.
pub fn slider_range(param: RepairParam) -> (range: SliderRange)
    ensures
        range == range_of(param),
{
    match param {
        RepairParam::DenoiseReduction => SliderRange { min: 0, max: 2_400, reset: 1_200 },
        RepairParam::DenoiseThreshold => SliderRange { min: -8_000i32, max: -1_200i32, reset: -4_800i32 },
        RepairParam::ClickSensitivity => SliderRange { min: 5, max: 100, reset: 65 },
        RepairParam::ClickWidth => SliderRange { min: 200, max: 6_400, reset: 1_200 },
        RepairParam::HumHarmonics => SliderRange { min: 100, max: 1_000, reset: 400 },
        RepairParam::HumReduction => SliderRange { min: 0, max: 4_800, reset: 1_800 },
        RepairParam::SpectralGain => SliderRange { min: -4_800i32, max: 2_400, reset: 0 },
    }
}

/// Whether the engine has to be told when a slider moves: only settings that it
/// can audition.
pub fn reaches_engine(param: RepairParam) -> (reaches: bool)
    ensures
        reaches == (param == RepairParam::DenoiseReduction || param == RepairParam::DenoiseThreshold
            || param == RepairParam::HumHarmonics || param == RepairParam::HumReduction),
{
    match param {
        RepairParam::DenoiseReduction => true,
        RepairParam::DenoiseThreshold => true,
        RepairParam::HumHarmonics => true,
        RepairParam::HumReduction => true,
        _ => false,
    }
}

/// An element of the repair workspace.
pub enum InspectorItem {
    Title { label: String },
    Section { label: String },
    Text { text: String, warning: bool },
    Row { label: String, value: String },
    Slider { label: String, value: String, param: RepairParam },
    Button { label: String, action: RepairAction, enabled: bool },
    Latch { label: String, action: RepairAction, active: bool },
    Segment { label: String, action: RepairAction, active: bool, position: FbSegment },
}

/// An element of the repair workspace, with its texts as sequences.
pub enum InspectorView {
    Title { label: Seq<char> },
    Section { label: Seq<char> },
    Text { text: Seq<char>, warning: bool },
    Row { label: Seq<char>, value: Seq<char> },
    Slider { label: Seq<char>, value: Seq<char>, param: RepairParam },
    Button { label: Seq<char>, action: RepairAction, enabled: bool },
    Latch { label: Seq<char>, action: RepairAction, active: bool },
    Segment { label: Seq<char>, action: RepairAction, active: bool, position: FbSegment },
}

impl View for InspectorItem {
    type V = InspectorView;

    open spec fn view(&self) -> InspectorView {
        match *self {
            InspectorItem::Title { label } => InspectorView::Title { label: label@ },
            InspectorItem::Section { label } => InspectorView::Section { label: label@ },
            InspectorItem::Text { text, warning } => InspectorView::Text { text: text@, warning },
            InspectorItem::Row { label, value } => InspectorView::Row {
                label: label@,
                value: value@,
            },
            InspectorItem::Slider { label, value, param } => InspectorView::Slider {
                label: label@,
                value: value@,
                param,
            },
            InspectorItem::Button { label, action, enabled } => InspectorView::Button {
                label: label@,
                action,
                enabled,
            },
            InspectorItem::Latch { label, action, active } => InspectorView::Latch {
                label: label@,
                action,
                active,
            },
            InspectorItem::Segment { label, action, active, position } => InspectorView::Segment {
                label: label@,
                action,
                active,
                position,
            },
        }
    }
}

/// The elements of the workspace, with their texts as sequences.
pub open spec fn shown(items: Seq<InspectorItem>) -> Seq<InspectorView> {
    items.map_values(|item: InspectorItem| item@)
}

fn put(items: &mut Vec<InspectorItem>, item: InspectorItem)
    ensures
        shown(final(items)@) == shown(old(items)@).push(item@),
{
    let ghost before = items@;
    items.push(item);
    proof {
        assert(shown(items@) =~= shown(before).push(item@));
    }
}

fn put_all(items: &mut Vec<InspectorItem>, more: Vec<InspectorItem>)
    ensures
        shown(final(items)@) == shown(old(items)@) + shown(more@),
{
    let ghost before = items@;
    let mut more = more;
    let ghost added = more@;
    items.append(&mut more);
    proof {
        assert(shown(items@) =~= shown(before) + shown(added));
    }
}

fn nothing() -> (items: Vec<InspectorItem>)
    ensures
        shown(items@) == Seq::<InspectorView>::empty(),
{
    let items: Vec<InspectorItem> = Vec::new();
    proof {
        assert(shown(items@) =~= Seq::<InspectorView>::empty());
    }
    items
}

/// A heading.
pub open spec fn section(label: Seq<char>) -> InspectorView {
    InspectorView::Section { label }
}

/// A line of text.
pub open spec fn line(text: Seq<char>, warning: bool) -> InspectorView {
    InspectorView::Text { text, warning }
}

/// A label and a value.
pub open spec fn readout(label: Seq<char>, value: Seq<char>) -> InspectorView {
    InspectorView::Row { label, value }
}

/// A slider under its label and value.
pub open spec fn slider(label: Seq<char>, value: Seq<char>, param: RepairParam) -> InspectorView {
    InspectorView::Slider { label, value, param }
}

/// A small button.
pub open spec fn mini(label: Seq<char>, action: RepairAction, enabled: bool) -> InspectorView {
    InspectorView::Button { label, action, enabled }
}

fn put_section(items: &mut Vec<InspectorItem>, label: &str)
    ensures
        shown(final(items)@) == shown(old(items)@).push(section(label@)),
{
    put(items, InspectorItem::Section { label: label.to_owned() });
}

fn put_line(items: &mut Vec<InspectorItem>, text: &str, warning: bool)
    ensures
        shown(final(items)@) == shown(old(items)@).push(line(text@, warning)),
{
    put(items, InspectorItem::Text { text: text.to_owned(), warning });
}

fn put_readout(items: &mut Vec<InspectorItem>, label: &str, value: &str)
    ensures
        shown(final(items)@) == shown(old(items)@).push(readout(label@, value@)),
{
    put(items, InspectorItem::Row { label: label.to_owned(), value: value.to_owned() });
}

fn put_slider(items: &mut Vec<InspectorItem>, label: &str, value: &str, param: RepairParam)
    ensures
        shown(final(items)@) == shown(old(items)@).push(slider(label@, value@, param)),
{
    put(items, InspectorItem::Slider { label: label.to_owned(), value: value.to_owned(), param });
}

fn put_mini(items: &mut Vec<InspectorItem>, label: &str, action: RepairAction, enabled: bool)
    ensures
        shown(final(items)@) == shown(old(items)@).push(mini(label@, action, enabled)),
{
    put(items, InspectorItem::Button { label: label.to_owned(), action, enabled });
}

fn put_latch(items: &mut Vec<InspectorItem>, label: &str, action: RepairAction, active: bool)
    ensures
        shown(final(items)@) == shown(old(items)@).push(
            (InspectorView::Latch { label: label@, action, active }),
        ),
{
    put(items, InspectorItem::Latch { label: label.to_owned(), action, active });
}

fn put_segment(
    items: &mut Vec<InspectorItem>,
    label: &str,
    action: RepairAction,
    active: bool,
    position: FbSegment,
)
    ensures
        shown(final(items)@) == shown(old(items)@).push(
            (InspectorView::Segment { label: label@, action, active, position }),
        ),
{
    put(items, InspectorItem::Segment { label: label.to_owned(), action, active, position });
}

// ------------------------------------------------------------------ header

/// A segment that switches the canvas to another view.
pub open spec fn view_segment(view: CanvasView, current: CanvasView, position: FbSegment) -> InspectorView {
    InspectorView::Segment {
        label: view.name(),
        action: RepairAction::ShowView { view },
        active: view == current,
        position,
    }
}

/// The header of the canvas.
pub open spec fn header_items<T, S>(surface: RepairSurface<T, S>) -> Seq<InspectorView> {
    seq![
        view_segment(CanvasView::Waveform, surface.view, FbSegment::First),
        view_segment(CanvasView::Spectrogram, surface.view, FbSegment::Middle),
        view_segment(CanvasView::Overlay, surface.view, FbSegment::Last),
        InspectorView::Latch {
            label: "Log Hz"@,
            action: RepairAction::ToggleFrequencyScale,
            active: surface.frequency_scale == FrequencyScale::Logarithmic,
        },
        InspectorView::Latch {
            label: "Transients"@,
            action: RepairAction::ToggleTransients,
            active: surface.show_transients,
        },
        mini("−"@, RepairAction::ZoomOut, true),
        mini("+"@, RepairAction::ZoomIn, true),
        mini("Fit"@, RepairAction::Fit, true),
        InspectorView::Latch {
            label: "Spectrum"@,
            action: RepairAction::ToggleSpectrum,
            active: surface.show_spectrum,
        },
    ]
}

fn put_view<T, S>(
    items: &mut Vec<InspectorItem>,
    surface: &RepairSurface<T, S>,
    view: CanvasView,
    position: FbSegment,
)
    ensures
        shown(final(items)@) == shown(old(items)@).push(
            view_segment(view, surface.view, position),
        ),
{
    put_segment(
        items,
        view.label(),
        RepairAction::ShowView { view },
        view == surface.view,
        position,
    );
}

// --------------------------------------------------------------- inspector

/// The texts that the inspector shows, made from measures.
pub struct InspectorTexts {
    /// What the active module is called, and how it is used.
    pub module_name: String,
    pub module_hint: String,
    pub profile_seconds: String,
    pub denoise_reduction: String,
    pub denoise_threshold: String,
    pub click_sensitivity: String,
    pub click_width: String,
    pub click_seconds: String,
    pub hum_harmonics: String,
    pub hum_reduction: String,
    pub spectral_gain: String,
    pub region_time: String,
    pub region_band: String,
    pub peak: String,
    pub rms: String,
    pub change: String,
    pub gated: String,
}

/// The base frequency that the hum filter is set to.
#[derive(Clone, Copy, PartialEq, Eq, Structural, Debug)]
pub struct HumBase {
    pub at_50: bool,
    pub at_60: bool,
}

/// The controls of the active module.
pub open spec fn module_items<T, S>(
    surface: RepairSurface<T, S>,
    learned: bool,
    source_ready: bool,
    hum: HumBase,
    texts: InspectorTexts,
) -> Seq<InspectorView> {
    match surface.module {
        AudioRepairModule::Denoise => seq![
            section("PROFILE"@),
            line(
                if learned {
                    "Learned from "@ + texts.profile_seconds@ + " s"@
                } else {
                    "No profile learned"@
                },
                !learned,
            ),
            mini("Learn Region"@, RepairAction::LearnRegion, source_ready),
            mini("Clear"@, RepairAction::ClearProfile, learned),
            section("REDUCTION"@),
            slider("Reduction"@, texts.denoise_reduction@, RepairParam::DenoiseReduction),
            slider("Threshold"@, texts.denoise_threshold@, RepairParam::DenoiseThreshold),
        ],
        AudioRepairModule::DeClick => seq![
            section("DETECTION"@),
            slider("Sensitivity"@, texts.click_sensitivity@, RepairParam::ClickSensitivity),
            slider("Max Width"@, texts.click_width@, RepairParam::ClickWidth),
            section("EVENTS"@),
            line(
                crate::repair::event_text(
                    surface.selected_click,
                    surface.clicks@.len(),
                    texts.click_seconds@,
                ),
                false,
            ),
            mini("Previous"@, RepairAction::PreviousClick, surface.clicks@.len() > 0),
            mini("Next"@, RepairAction::NextClick, surface.clicks@.len() > 0),
        ],
        AudioRepairModule::DeHum => seq![
            section("FUNDAMENTAL"@),
            InspectorView::Segment {
                label: "50 Hz"@,
                action: RepairAction::HumAt50,
                active: hum.at_50,
                position: FbSegment::First,
            },
            InspectorView::Segment {
                label: "60 Hz"@,
                action: RepairAction::HumAt60,
                active: hum.at_60,
                position: FbSegment::Last,
            },
            slider("Harmonics"@, texts.hum_harmonics@, RepairParam::HumHarmonics),
            slider("Reduction"@, texts.hum_reduction@, RepairParam::HumReduction),
        ],
        AudioRepairModule::SpectralRepair => seq![
            section("GAIN"@),
            slider("Gain"@, texts.spectral_gain@, RepairParam::SpectralGain),
            mini("Silence Region"@, RepairAction::SilenceRegion, surface.region is Some),
        ],
        _ => Seq::empty(),
    }
}

/// What the inspector says of the region; `spectral` tells a module that works
/// on a band of frequencies.
pub open spec fn region_items<T, S>(
    surface: RepairSurface<T, S>,
    spectral: bool,
    texts: InspectorTexts,
) -> Seq<InspectorView> {
    let described: Seq<InspectorView> = if surface.region is None {
        seq![
            line(
                if spectral {
                    "Drag on the canvas to target a band."@
                } else {
                    "Whole window. Drag on the canvas to narrow it."@
                },
                false,
            ),
        ]
    } else if spectral {
        seq![readout("Time"@, texts.region_time@), readout("Band"@, texts.region_band@)]
    } else {
        seq![readout("Time"@, texts.region_time@)]
    };
    seq![section("REGION"@)] + described + seq![
        mini("Clear Region"@, RepairAction::ClearRegion, surface.region is Some),
    ]
}

/// What the inspector says of the preview: measured figures, never estimates.
pub open spec fn result_items<T, S>(surface: RepairSurface<T, S>, texts: InspectorTexts) -> Seq<
    InspectorView,
> {
    let figures: Seq<InspectorView> = match surface.stats {
        Some(_) => seq![
            readout("Peak"@, texts.peak@),
            readout("RMS"@, texts.rms@),
            readout("Change"@, texts.change@),
        ],
        None => seq![line("No preview yet."@, false)],
    };
    let gated: Seq<InspectorView> = if surface.stats is Some && surface.stats->0.coverage is Some {
        seq![readout("Gated"@, texts.gated@)]
    } else {
        Seq::empty()
    };
    let repaired: Seq<InspectorView> = if surface.stats is Some && surface.stats->0.events > 0 {
        seq![
            readout(
                "Repaired"@,
                crate::text::decimal(surface.stats->0.events as nat) + " events"@,
            ),
        ]
    } else {
        Seq::empty()
    };
    let pending: Seq<InspectorView> = if (surface.diff is Some && surface.diff->0.stale)
        || surface.preview_busy {
        seq![line("Recomputing…"@, false)]
    } else {
        Seq::empty()
    };
    seq![section("BEFORE / AFTER"@)] + figures + gated + repaired + pending
}

/// What stands on top of the inspector: the active module's name and, under it,
/// its hint.
pub open spec fn heading_items(name: Seq<char>, hint: Seq<char>) -> Seq<InspectorView> {
    seq![InspectorView::Title { label: name }, line(hint, false)]
}

/// What stands on top of the inspector: the active module's name and, under it,
/// its hint.
pub fn inspector_heading(name: &str, hint: &str) -> (items: Vec<InspectorItem>)
    ensures
        shown(items@) == heading_items(name@, hint@),
{
    let mut items = nothing();
    put(&mut items, InspectorItem::Title { label: name.to_owned() });
    put_line(&mut items, hint, false);
    proof {
        assert(shown(items@) =~= heading_items(name@, hint@));
    }
    items
}

/// The inspector: the active module's name, its hint and its controls, the
/// region, the result.
pub open spec fn inspector_items<T, S>(
    surface: RepairSurface<T, S>,
    learned: bool,
    source_ready: bool,
    hum: HumBase,
    spectral: bool,
    texts: InspectorTexts,
) -> Seq<InspectorView> {
    heading_items(texts.module_name@, texts.module_hint@) + module_items(
        surface,
        learned,
        source_ready,
        hum,
        texts,
    ) + region_items(surface, spectral, texts) + result_items(surface, texts)
}

impl<T: Copy, S> RepairSurface<T, S> {
    /// The header of the canvas.
    pub fn repair_canvas_header(&self) -> (items: Vec<InspectorItem>)
        ensures
            shown(items@) == header_items(*self),
    {
        let mut items = nothing();
        put_view(&mut items, self, CanvasView::Waveform, segment_position(0, 3));
        put_view(&mut items, self, CanvasView::Spectrogram, segment_position(1, 3));
        put_view(&mut items, self, CanvasView::Overlay, segment_position(2, 3));
        put_latch(
            &mut items,
            "Log Hz",
            RepairAction::ToggleFrequencyScale,
            self.frequency_scale == FrequencyScale::Logarithmic,
        );
        put_latch(&mut items, "Transients", RepairAction::ToggleTransients, self.show_transients);
        put_mini(&mut items, "−", RepairAction::ZoomOut, true);
        put_mini(&mut items, "+", RepairAction::ZoomIn, true);
        put_mini(&mut items, "Fit", RepairAction::Fit, true);
        put_latch(&mut items, "Spectrum", RepairAction::ToggleSpectrum, self.show_spectrum);
        items
    }

    fn module_section(
        &self,
        learned: bool,
        source_ready: bool,
        hum: HumBase,
        texts: &InspectorTexts,
    ) -> (items: Vec<InspectorItem>)
        ensures
            shown(items@) == module_items(*self, learned, source_ready, hum, *texts),
    {
        let mut items = nothing();
        match self.module {
            AudioRepairModule::Denoise => {
                put_section(&mut items, "PROFILE");
                put_line(&mut items, &profile_label(learned, &texts.profile_seconds), !learned);
                put_mini(&mut items, "Learn Region", RepairAction::LearnRegion, source_ready);
                put_mini(&mut items, "Clear", RepairAction::ClearProfile, learned);
                put_section(&mut items, "REDUCTION");
                put_slider(
                    &mut items,
                    "Reduction",
                    &texts.denoise_reduction,
                    RepairParam::DenoiseReduction,
                );
                put_slider(
                    &mut items,
                    "Threshold",
                    &texts.denoise_threshold,
                    RepairParam::DenoiseThreshold,
                );
            },
            AudioRepairModule::DeClick => {
                let found = self.clicks.len() > 0;
                put_section(&mut items, "DETECTION");
                put_slider(
                    &mut items,
                    "Sensitivity",
                    &texts.click_sensitivity,
                    RepairParam::ClickSensitivity,
                );
                put_slider(&mut items, "Max Width", &texts.click_width, RepairParam::ClickWidth);
                put_section(&mut items, "EVENTS");
                put_line(&mut items, &self.event_label(&texts.click_seconds), false);
                put_mini(&mut items, "Previous", RepairAction::PreviousClick, found);
                put_mini(&mut items, "Next", RepairAction::NextClick, found);
            },
            AudioRepairModule::DeHum => {
                put_section(&mut items, "FUNDAMENTAL");
                put_segment(
                    &mut items,
                    "50 Hz",
                    RepairAction::HumAt50,
                    hum.at_50,
                    segment_position(0, 2),
                );
                put_segment(
                    &mut items,
                    "60 Hz",
                    RepairAction::HumAt60,
                    hum.at_60,
                    segment_position(1, 2),
                );
                put_slider(
                    &mut items,
                    "Harmonics",
                    &texts.hum_harmonics,
                    RepairParam::HumHarmonics,
                );
                put_slider(
                    &mut items,
                    "Reduction",
                    &texts.hum_reduction,
                    RepairParam::HumReduction,
                );
            },
            AudioRepairModule::SpectralRepair => {
                put_section(&mut items, "GAIN");
                put_slider(&mut items, "Gain", &texts.spectral_gain, RepairParam::SpectralGain);
                put_mini(
                    &mut items,
                    "Silence Region",
                    RepairAction::SilenceRegion,
                    self.region.is_some(),
                );
            },
            _ => {},
        }
        items
    }

    fn region_section(&self, spectral: bool, texts: &InspectorTexts) -> (items: Vec<InspectorItem>)
        ensures
            shown(items@) == region_items(*self, spectral, *texts),
    {
        let mut items = nothing();
        put_section(&mut items, "REGION");
        let mut described = nothing();
        if self.region.is_some() {
            put_readout(&mut described, "Time", &texts.region_time);
            if spectral {
                put_readout(&mut described, "Band", &texts.region_band);
            }
        } else {
            put_line(&mut described, region_hint(spectral), false);
        }
        put_all(&mut items, described);
        let mut clear = nothing();
        put_mini(&mut clear, "Clear Region", RepairAction::ClearRegion, self.region.is_some());
        put_all(&mut items, clear);
        items
    }

    fn result_section(&self, texts: &InspectorTexts) -> (items: Vec<InspectorItem>)
        ensures
            shown(items@) == result_items(*self, *texts),
    {
        let mut items = nothing();
        put_section(&mut items, "BEFORE / AFTER");
        let mut figures = nothing();
        let mut gated = nothing();
        let mut repaired = nothing();
        let mut pending = nothing();
        match self.stats {
            Some(stats) => {
                put_readout(&mut figures, "Peak", &texts.peak);
                put_readout(&mut figures, "RMS", &texts.rms);
                put_readout(&mut figures, "Change", &texts.change);
                if stats.coverage.is_some() {
                    put_readout(&mut gated, "Gated", &texts.gated);
                }
            },
            None => {
                put_line(&mut figures, "No preview yet.", false);
            },
        }
        if let Some(label) = self.repaired_label() {
            put_readout(&mut repaired, "Repaired", &label);
        }
        if self.result_is_stale() {
            put_line(&mut pending, "Recomputing…", false);
        }
        put_all(&mut items, figures);
        put_all(&mut items, gated);
        put_all(&mut items, repaired);
        put_all(&mut items, pending);
        items
    }

    /// The inspector: the active module's name, its hint and its controls, the
    /// region, the result. `spectral` tells a module that works on a band of frequencies.
    pub fn repair_inspector(
        &self,
        learned: bool,
        source_ready: bool,
        hum: HumBase,
        spectral: bool,
        texts: &InspectorTexts,
    ) -> (items: Vec<InspectorItem>)
        ensures
            shown(items@) == inspector_items(
                *self,
                learned,
                source_ready,
                hum,
                spectral,
                *texts,
            ),
    {
        let mut items = inspector_heading(&texts.module_name, &texts.module_hint);
        put_all(&mut items, self.module_section(learned, source_ready, hum, texts));
        put_all(&mut items, self.region_section(spectral, texts));
        put_all(&mut items, self.result_section(texts));
        items
    }
}

// ------------------------------------------------------------------- laws

/// A reset puts every slider between its ends.
pub proof fn law_resets_lie_between_the_ends(param: RepairParam)
    ensures
        range_of(param).min <= range_of(param).reset <= range_of(param).max,
        range_of(param).min < range_of(param).max,
{
}

/// A view's segment of the header is active if and only if the canvas shows
/// that view.
pub proof fn law_the_shown_view_is_active<T, S>(surface: RepairSurface<T, S>, i: int)
    requires
        0 <= i < 3,
    ensures
        header_items(surface)[i] matches InspectorView::Segment { action, active, .. } && active
            == (action == (RepairAction::ShowView { view: surface.view })),
{
}

/// The inspector shows the module's name and hint, then its controls, the region
/// and the result, and nothing else.
pub proof fn law_the_inspector_shows_everything<T, S>(
    surface: RepairSurface<T, S>,
    learned: bool,
    source_ready: bool,
    hum: HumBase,
    spectral: bool,
    texts: InspectorTexts,
    i: int,
)
    ensures
        ({
            let items = inspector_items(surface, learned, source_ready, hum, spectral, texts);
            let module = module_items(surface, learned, source_ready, hum, texts);
            let region = region_items(surface, spectral, texts);
            let result = result_items(surface, texts);
            &&& items.len() == 2 + module.len() + region.len() + result.len()
            &&& items[0] == (InspectorView::Title { label: texts.module_name@ })
            &&& items[1] == (InspectorView::Text { text: texts.module_hint@, warning: false })
            &&& 0 <= i < module.len() ==> items[2 + i] == module[i]
            &&& 0 <= i < region.len() ==> items[2 + module.len() + i] == region[i]
            &&& 0 <= i < result.len() ==> items[2 + module.len() + region.len() + i] == result[i]
        }),
{
}

/// Each slider of a module stands beside the figure that it sets.
pub proof fn law_sliders_stand_beside_their_figures<T, S>(
    surface: RepairSurface<T, S>,
    learned: bool,
    source_ready: bool,
    hum: HumBase,
    texts: InspectorTexts,
)
    ensures
        ({
            let items = module_items(surface, learned, source_ready, hum, texts);
            &&& surface.module is Denoise ==> items.contains(
                InspectorView::Slider {
                    label: "Reduction"@,
                    value: texts.denoise_reduction@,
                    param: RepairParam::DenoiseReduction,
                },
            ) && items.contains(
                InspectorView::Slider {
                    label: "Threshold"@,
                    value: texts.denoise_threshold@,
                    param: RepairParam::DenoiseThreshold,
                },
            )
            &&& surface.module is DeClick ==> items.contains(
                InspectorView::Slider {
                    label: "Sensitivity"@,
                    value: texts.click_sensitivity@,
                    param: RepairParam::ClickSensitivity,
                },
            ) && items.contains(
                InspectorView::Slider {
                    label: "Max Width"@,
                    value: texts.click_width@,
                    param: RepairParam::ClickWidth,
                },
            )
            &&& surface.module is DeHum ==> items.contains(
                InspectorView::Slider {
                    label: "Harmonics"@,
                    value: texts.hum_harmonics@,
                    param: RepairParam::HumHarmonics,
                },
            ) && items.contains(
                InspectorView::Slider {
                    label: "Reduction"@,
                    value: texts.hum_reduction@,
                    param: RepairParam::HumReduction,
                },
            )
            &&& surface.module is SpectralRepair ==> items.contains(
                InspectorView::Slider {
                    label: "Gain"@,
                    value: texts.spectral_gain@,
                    param: RepairParam::SpectralGain,
                },
            )
        }),
{
    let items = module_items(surface, learned, source_ready, hum, texts);
    if surface.module is Denoise {
        assert(items[5] == slider("Reduction"@, texts.denoise_reduction@, RepairParam::DenoiseReduction));
        assert(items[6] == slider("Threshold"@, texts.denoise_threshold@, RepairParam::DenoiseThreshold));
    } else if surface.module is DeClick {
        assert(items[1] == slider("Sensitivity"@, texts.click_sensitivity@, RepairParam::ClickSensitivity));
        assert(items[2] == slider("Max Width"@, texts.click_width@, RepairParam::ClickWidth));
    } else if surface.module is DeHum {
        assert(items[3] == slider("Harmonics"@, texts.hum_harmonics@, RepairParam::HumHarmonics));
        assert(items[4] == slider("Reduction"@, texts.hum_reduction@, RepairParam::HumReduction));
    } else if surface.module is SpectralRepair {
        assert(items[1] == slider("Gain"@, texts.spectral_gain@, RepairParam::SpectralGain));
    }
}

/// A noise profile that was learned is told by its length and can be cleared; a
/// missing one is a warning. A profile can be learned once the source is there.
pub proof fn law_a_learned_profile_can_be_cleared<T, S>(
    surface: RepairSurface<T, S>,
    learned: bool,
    source_ready: bool,
    hum: HumBase,
    texts: InspectorTexts,
)
    requires
        surface.module is Denoise,
    ensures
        ({
            let items = module_items(surface, learned, source_ready, hum, texts);
            &&& learned ==> items.contains(
                InspectorView::Text {
                    text: "Learned from "@ + texts.profile_seconds@ + " s"@,
                    warning: false,
                },
            )
            &&& !learned ==> items.contains(
                InspectorView::Text { text: "No profile learned"@, warning: true },
            )
            &&& items.contains(
                InspectorView::Button {
                    label: "Learn Region"@,
                    action: RepairAction::LearnRegion,
                    enabled: source_ready,
                },
            )
            &&& items.contains(
                InspectorView::Button {
                    label: "Clear"@,
                    action: RepairAction::ClearProfile,
                    enabled: learned,
                },
            )
        }),
{
    let items = module_items(surface, learned, source_ready, hum, texts);
    assert(items[1] is Text);
    assert(items[2] == mini("Learn Region"@, RepairAction::LearnRegion, source_ready));
    assert(items[3] == mini("Clear"@, RepairAction::ClearProfile, learned));
}

/// The clicks are counted, and can be stepped through once there are any.
pub proof fn law_clicks_can_be_stepped_through<T, S>(
    surface: RepairSurface<T, S>,
    learned: bool,
    source_ready: bool,
    hum: HumBase,
    texts: InspectorTexts,
)
    requires
        surface.module is DeClick,
    ensures
        ({
            let items = module_items(surface, learned, source_ready, hum, texts);
            let any = surface.clicks@.len() > 0;
            &&& items.contains(
                InspectorView::Text {
                    text: crate::repair::event_text(
                        surface.selected_click,
                        surface.clicks@.len(),
                        texts.click_seconds@,
                    ),
                    warning: false,
                },
            )
            &&& items.contains(
                InspectorView::Button {
                    label: "Previous"@,
                    action: RepairAction::PreviousClick,
                    enabled: any,
                },
            )
            &&& items.contains(
                InspectorView::Button {
                    label: "Next"@,
                    action: RepairAction::NextClick,
                    enabled: any,
                },
            )
        }),
{
    let items = module_items(surface, learned, source_ready, hum, texts);
    let any = surface.clicks@.len() > 0;
    assert(items[4] is Text);
    assert(items[5] == mini("Previous"@, RepairAction::PreviousClick, any));
    assert(items[6] == mini("Next"@, RepairAction::NextClick, any));
}

/// The mains frequency in use is the active one, and silencing needs a region.
pub proof fn law_controls_follow_what_is_set<T, S>(
    surface: RepairSurface<T, S>,
    learned: bool,
    source_ready: bool,
    hum: HumBase,
    texts: InspectorTexts,
)
    ensures
        ({
            let items = module_items(surface, learned, source_ready, hum, texts);
            &&& surface.module is DeHum ==> items.contains(
                InspectorView::Segment {
                    label: "50 Hz"@,
                    action: RepairAction::HumAt50,
                    active: hum.at_50,
                    position: FbSegment::First,
                },
            ) && items.contains(
                InspectorView::Segment {
                    label: "60 Hz"@,
                    action: RepairAction::HumAt60,
                    active: hum.at_60,
                    position: FbSegment::Last,
                },
            )
            &&& surface.module is SpectralRepair ==> items.contains(
                InspectorView::Button {
                    label: "Silence Region"@,
                    action: RepairAction::SilenceRegion,
                    enabled: surface.region is Some,
                },
            )
        }),
{
    let items = module_items(surface, learned, source_ready, hum, texts);
    if surface.module is DeHum {
        assert(items[1] == (InspectorView::Segment {
            label: "50 Hz"@,
            action: RepairAction::HumAt50,
            active: hum.at_50,
            position: FbSegment::First,
        }));
        assert(items[2] == (InspectorView::Segment {
            label: "60 Hz"@,
            action: RepairAction::HumAt60,
            active: hum.at_60,
            position: FbSegment::Last,
        }));
    } else if surface.module is SpectralRepair {
        assert(items[2] == mini("Silence Region"@, RepairAction::SilenceRegion, surface.region is Some));
    }
}

/// A region is described by its time, in spectral work by its band too; without
/// one the inspector says how to make one. It can be cleared where it is there.
pub proof fn law_a_region_is_described<T, S>(
    surface: RepairSurface<T, S>,
    spectral: bool,
    texts: InspectorTexts,
)
    ensures
        ({
            let items = region_items(surface, spectral, texts);
            let time = InspectorView::Row { label: "Time"@, value: texts.region_time@ };
            let band = InspectorView::Row { label: "Band"@, value: texts.region_band@ };
            &&& surface.region is Some ==> items.contains(time)
            &&& surface.region is Some && spectral ==> items.contains(band) && items.len() == 4
            &&& surface.region is Some && !spectral ==> items.len() == 3
            &&& surface.region is None && spectral ==> items.contains(
                InspectorView::Text {
                    text: "Drag on the canvas to target a band."@,
                    warning: false,
                },
            )
            &&& surface.region is None && !spectral ==> items.contains(
                InspectorView::Text {
                    text: "Whole window. Drag on the canvas to narrow it."@,
                    warning: false,
                },
            )
            &&& items[items.len() - 1] == (InspectorView::Button {
                label: "Clear Region"@,
                action: RepairAction::ClearRegion,
                enabled: surface.region is Some,
            })
        }),
{
    let items = region_items(surface, spectral, texts);
    if surface.region is Some {
        assert(items[1] == readout("Time"@, texts.region_time@));
        if spectral {
            assert(items[2] == readout("Band"@, texts.region_band@));
        }
    } else {
        assert(items[1] is Text);
    }
}

/// The result shows the measured figures where there is a preview, how much was
/// gated where that was measured, what was repaired where something was, and
/// that it is being computed again while it is.
pub proof fn law_the_result_shows_what_was_measured<T, S>(
    surface: RepairSurface<T, S>,
    texts: InspectorTexts,
)
    ensures
        ({
            let items = result_items(surface, texts);
            let gated = InspectorView::Row { label: "Gated"@, value: texts.gated@ };
            let again = InspectorView::Text { text: "Recomputing…"@, warning: false };
            let pending = (surface.diff is Some && surface.diff->0.stale) || surface.preview_busy;
            &&& surface.stats is None ==> items.contains(
                InspectorView::Text { text: "No preview yet."@, warning: false },
            ) && items.len() == if pending {
                3int
            } else {
                2int
            }
            &&& surface.stats matches Some(stats) ==> {
                &&& items.contains(InspectorView::Row { label: "Peak"@, value: texts.peak@ })
                &&& items.contains(InspectorView::Row { label: "RMS"@, value: texts.rms@ })
                &&& items.contains(InspectorView::Row { label: "Change"@, value: texts.change@ })
                &&& stats.coverage is Some ==> items.contains(gated)
                &&& stats.events > 0 ==> items.contains(
                    InspectorView::Row {
                        label: "Repaired"@,
                        value: crate::text::decimal(stats.events as nat) + " events"@,
                    },
                )
                &&& items.len() == 4 + (if stats.coverage is Some {
                    1int
                } else {
                    0
                }) + (if stats.events > 0 {
                    1int
                } else {
                    0
                }) + (if pending {
                    1int
                } else {
                    0
                })
            }
            &&& pending ==> items[items.len() - 1] == again
        }),
{
    let items = result_items(surface, texts);
    if surface.stats is None {
        assert(items[1] == line("No preview yet."@, false));
    } else {
        let stats = surface.stats->0;
        assert(items[1] == readout("Peak"@, texts.peak@));
        assert(items[2] == readout("RMS"@, texts.rms@));
        assert(items[3] == readout("Change"@, texts.change@));
        let repaired = readout("Repaired"@, crate::text::decimal(stats.events as nat) + " events"@);
        if stats.coverage is Some {
            assert(items[4] == readout("Gated"@, texts.gated@));
            if stats.events > 0 {
                assert(items[5] == repaired);
            }
        } else if stats.events > 0 {
            assert(items[4] == repaired);
        }
    }
}

/// The latches of the header are down where what they show is on, and the canvas
/// can always be zoomed.
pub proof fn law_the_header_shows_what_is_on<T, S>(surface: RepairSurface<T, S>)
    ensures
        ({
            let items = header_items(surface);
            &&& items.len() == 9
            &&& items.contains(
                InspectorView::Latch {
                    label: "Log Hz"@,
                    action: RepairAction::ToggleFrequencyScale,
                    active: surface.frequency_scale is Logarithmic,
                },
            )
            &&& items.contains(
                InspectorView::Latch {
                    label: "Transients"@,
                    action: RepairAction::ToggleTransients,
                    active: surface.show_transients,
                },
            )
            &&& items.contains(
                InspectorView::Latch {
                    label: "Spectrum"@,
                    action: RepairAction::ToggleSpectrum,
                    active: surface.show_spectrum,
                },
            )
            &&& items.contains(
                InspectorView::Button {
                    label: "−"@,
                    action: RepairAction::ZoomOut,
                    enabled: true,
                },
            )
            &&& items.contains(
                InspectorView::Button { label: "+"@, action: RepairAction::ZoomIn, enabled: true },
            )
            &&& items.contains(
                InspectorView::Button { label: "Fit"@, action: RepairAction::Fit, enabled: true },
            )
        }),
{
    let items = header_items(surface);
    assert(items[3] is Latch && items[4] is Latch && items[8] is Latch);
    assert(items[5] == mini("−"@, RepairAction::ZoomOut, true));
    assert(items[6] == mini("+"@, RepairAction::ZoomIn, true));
    assert(items[7] == mini("Fit"@, RepairAction::Fit, true));
}

/// Every view of the canvas has its segment, under its own name.
pub proof fn law_every_view_has_its_segment<T, S>(surface: RepairSurface<T, S>, view: CanvasView)
    ensures
        exists|i: int|
            0 <= i < 3 && (#[trigger] header_items(surface)[i] matches InspectorView::Segment {
                label,
                action,
                active,
                ..
            } && label == view.name() && action == (RepairAction::ShowView { view }) && active == (
            view == surface.view)),
{
    let i: int = match view {
        CanvasView::Waveform => 0,
        CanvasView::Spectrogram => 1,
        CanvasView::Overlay => 2,
    };
    assert(header_items(surface)[i] is Segment);
}

/// Each slider runs over the range that its setting has: reductions up from
/// nothing, the threshold below full scale, counts from one, the gain both ways.
pub proof fn law_sliders_run_over_their_ranges()
    ensures
        range_of(RepairParam::DenoiseReduction) == (SliderRange { min: 0, max: 2_400, reset: 1_200 }),
        range_of(RepairParam::HumReduction).min == 0,
        range_of(RepairParam::HumReduction).max == 2 * range_of(RepairParam::DenoiseReduction).max,
        range_of(RepairParam::HumReduction).reset == 1_800,
        range_of(RepairParam::DenoiseThreshold).max == -range_of(RepairParam::DenoiseReduction).reset,
        range_of(RepairParam::DenoiseThreshold).min == -8_000,
        range_of(RepairParam::DenoiseThreshold).reset == -4_800,
        range_of(RepairParam::ClickSensitivity) == (SliderRange { min: 5, max: 100, reset: 65 }),
        range_of(RepairParam::ClickWidth) == (SliderRange { min: 200, max: 6_400, reset: 1_200 }),
        range_of(RepairParam::HumHarmonics) == (SliderRange { min: 100, max: 1_000, reset: 400 }),
        range_of(RepairParam::SpectralGain).min == -range_of(RepairParam::HumReduction).max,
        range_of(RepairParam::SpectralGain).max == range_of(RepairParam::DenoiseReduction).max,
        range_of(RepairParam::SpectralGain).reset == 0,
{
}

} // verus!
