//! What the controls of the repair workspace do when they are used.

use vstd::prelude::*;

use crate::canvas::CanvasView;
use crate::editor::FrequencyScale;
use crate::host::SpectrogramJob;
use crate::inspector::{
    header_items, inspector_items, module_items, reaches_engine, region_items, result_items,
    HumBase, InspectorTexts, InspectorView, RepairAction, RepairParam,
};
use crate::navigator::AudioRepairModule;
use crate::repair::RepairSurface;

verus! {

/// What the repair workspace asks for when a control is used, in order.
pub enum RepairEffect {
    /// Draw the workspace again.
    Notify,
    /// The preview on the canvas is out of date.
    Invalidate,
    BuildSpectrogram { job: SpectrogramJob },
    DetectTransients,
    /// Half the zoom.
    ZoomOut,
    /// Twice the zoom.
    ZoomIn,
    /// Show the whole window.
    Fit,
    /// Put a frame in the middle of the view.
    Center { frame: usize },
    LearnNoise,
    ForgetNoise,
    /// Set the frequency of the hum, in hertz.
    SetHumBase { hz: u32 },
    /// Set the gain of the region to silence.
    Silence,
    /// Bring the engine's preview up to date.
    EmitPreview,
    /// The same, where the engine can audition the module.
    EmitRepairPreview,
}

/// What is known when a control of the workspace is used.
pub struct WorkspaceFacts {
    pub source_path: Option<String>,
    /// The source has been decoded.
    pub source_ready: bool,
    /// A noise profile was learned.
    pub learned: bool,
    pub transient_count: usize,
}

/// Whether a control of the workspace can be used.
pub open spec fn available<T, S>(
    surface: RepairSurface<T, S>,
    action: RepairAction,
    facts: WorkspaceFacts,
) -> bool {
    match action {
        RepairAction::LearnRegion => facts.source_ready,
        RepairAction::ClearProfile => facts.learned,
        RepairAction::PreviousClick | RepairAction::NextClick => surface.clicks@.len() > 0,
        RepairAction::SilenceRegion | RepairAction::ClearRegion => surface.region is Some,
        _ => true,
    }
}

/// The click that is selected after a step.
pub open spec fn stepped_click(selected: usize, delta: int, count: nat) -> int {
    if selected + delta < 0 {
        0
    } else if selected + delta > count - 1 {
        count - 1
    } else {
        selected + delta
    }
}

/// The workspace after a control that can be used was used, but for what it
/// says of the spectrogram.
pub open spec fn operated<T, S>(
    surface: RepairSurface<T, S>,
    action: RepairAction,
    facts: WorkspaceFacts,
) -> RepairSurface<T, S> {
    match action {
        RepairAction::ShowView { view } => RepairSurface { view, ..surface },
        RepairAction::ToggleFrequencyScale => RepairSurface {
            frequency_scale: if surface.frequency_scale == FrequencyScale::Logarithmic {
                FrequencyScale::Linear
            } else {
                FrequencyScale::Logarithmic
            },
            spectrogram_generation: if facts.source_path is Some {
                crate::host::next_generation(surface.spectrogram_generation)
            } else {
                surface.spectrogram_generation
            },
            ..surface
        },
        RepairAction::ToggleTransients => RepairSurface {
            show_transients: !surface.show_transients,
            ..surface
        },
        RepairAction::ToggleSpectrum => RepairSurface {
            show_spectrum: !surface.show_spectrum,
            ..surface
        },
        RepairAction::ClearProfile => RepairSurface { profile_frames: 0, mask: None, ..surface },
        RepairAction::PreviousClick => RepairSurface {
            selected_click: stepped_click(
                surface.selected_click,
                -1,
                surface.clicks@.len(),
            ) as usize,
            ..surface
        },
        RepairAction::NextClick => RepairSurface {
            selected_click: stepped_click(
                surface.selected_click,
                1,
                surface.clicks@.len(),
            ) as usize,
            ..surface
        },
        RepairAction::ClearRegion => RepairSurface { region: None, ..surface },
        _ => surface,
    }
}

/// What using a control that can be used asks for; `next` is the workspace
/// afterwards.
pub open spec fn workspace_effects<T, S>(
    next: RepairSurface<T, S>,
    action: RepairAction,
    facts: WorkspaceFacts,
) -> Seq<RepairEffect> {
    match action {
        RepairAction::ShowView { .. } | RepairAction::ToggleSpectrum => seq![RepairEffect::Notify],
        RepairAction::ToggleFrequencyScale => match facts.source_path {
            Some(path) => seq![
                RepairEffect::BuildSpectrogram {
                    job: SpectrogramJob {
                        path,
                        frequency_scale: next.frequency_scale,
                        reverse: false,
                        generation: next.spectrogram_generation,
                    },
                },
                RepairEffect::Invalidate,
                RepairEffect::Notify,
            ],
            None => seq![RepairEffect::Invalidate, RepairEffect::Notify],
        },
        RepairAction::ToggleTransients => if next.show_transients && facts.transient_count == 0 {
            seq![RepairEffect::DetectTransients, RepairEffect::Notify]
        } else {
            seq![RepairEffect::Notify]
        },
        RepairAction::ZoomOut => seq![
            RepairEffect::ZoomOut,
            RepairEffect::Invalidate,
            RepairEffect::Notify,
        ],
        RepairAction::ZoomIn => seq![
            RepairEffect::ZoomIn,
            RepairEffect::Invalidate,
            RepairEffect::Notify,
        ],
        RepairAction::Fit => seq![
            RepairEffect::Fit,
            RepairEffect::Invalidate,
            RepairEffect::Notify,
        ],
        RepairAction::LearnRegion => seq![RepairEffect::LearnNoise],
        RepairAction::ClearProfile => seq![
            RepairEffect::ForgetNoise,
            RepairEffect::Invalidate,
            RepairEffect::Notify,
        ],
        RepairAction::PreviousClick | RepairAction::NextClick => seq![
            RepairEffect::Center { frame: next.clicks@[next.selected_click as int].frame },
            RepairEffect::Invalidate,
            RepairEffect::Notify,
        ],
        RepairAction::HumAt50 => seq![
            RepairEffect::SetHumBase { hz: 50 },
            RepairEffect::EmitRepairPreview,
            RepairEffect::Invalidate,
            RepairEffect::Notify,
        ],
        RepairAction::HumAt60 => seq![
            RepairEffect::SetHumBase { hz: 60 },
            RepairEffect::EmitRepairPreview,
            RepairEffect::Invalidate,
            RepairEffect::Notify,
        ],
        RepairAction::SilenceRegion => seq![
            RepairEffect::Silence,
            RepairEffect::Invalidate,
            RepairEffect::Notify,
        ],
        RepairAction::ClearRegion => seq![RepairEffect::Invalidate, RepairEffect::Notify],
    }
}

/// What the workspace says of the spectrogram after a control was used.
pub open spec fn spectrogram_text<T, S>(
    surface: RepairSurface<T, S>,
    action: RepairAction,
    facts: WorkspaceFacts,
) -> Option<Seq<char>> {
    if action == RepairAction::ToggleFrequencyScale {
        if facts.source_path is Some {
            Some("Building spectrogram…"@)
        } else {
            Some("Clip has no source file"@)
        }
    } else {
        match surface.spectrogram_status {
            Some(text) => Some(text@),
            None => None,
        }
    }
}

/// Whether what the workspace says of the spectrogram is a text.
pub open spec fn says(status: Option<String>, text: Option<Seq<char>>) -> bool {
    match (status, text) {
        (Some(status), Some(text)) => status@ == text,
        (None, None) => true,
        _ => false,
    }
}

/// Whether using a control led from one workspace to another, with these
/// effects.
pub open spec fn performed<T, S>(
    before: RepairSurface<T, S>,
    after: RepairSurface<T, S>,
    action: RepairAction,
    facts: WorkspaceFacts,
    effects: Seq<RepairEffect>,
) -> bool {
    &&& says(after.spectrogram_status, spectrogram_text(before, action, facts))
    &&& after == (RepairSurface {
        spectrogram_status: after.spectrogram_status,
        ..operated(before, action, facts)
    })
    &&& effects =~= workspace_effects(after, action, facts)
}

/// What moving a slider asks for: the engine hears of it where it can, and the
/// preview on the canvas is out of date.
pub open spec fn slider_effects(param: RepairParam) -> Seq<RepairEffect> {
    if param == RepairParam::DenoiseReduction || param == RepairParam::DenoiseThreshold || param
        == RepairParam::HumHarmonics || param == RepairParam::HumReduction {
        seq![RepairEffect::EmitRepairPreview, RepairEffect::Invalidate, RepairEffect::Notify]
    } else {
        seq![RepairEffect::Invalidate, RepairEffect::Notify]
    }
}

/// What moving a slider asks for.
pub fn move_slider(param: RepairParam) -> (effects: Vec<RepairEffect>)
    ensures
        effects@ == slider_effects(param),
{
    let mut effects: Vec<RepairEffect> = Vec::new();
    if reaches_engine(param) {
        effects.push(RepairEffect::EmitRepairPreview);
    }
    effects.push(RepairEffect::Invalidate);
    effects.push(RepairEffect::Notify);
    effects
}

fn refreshed(first: RepairEffect) -> (effects: Vec<RepairEffect>)
    ensures
        effects@ == seq![first, RepairEffect::Invalidate, RepairEffect::Notify],
{
    let mut effects: Vec<RepairEffect> = Vec::new();
    effects.push(first);
    effects.push(RepairEffect::Invalidate);
    effects.push(RepairEffect::Notify);
    effects
}

impl<T: Copy, S> RepairSurface<T, S> {
    fn is_available(&self, action: RepairAction, facts: &WorkspaceFacts) -> (yes: bool)
        ensures
            yes == available(*self, action, *facts),
    {
        match action {
            RepairAction::LearnRegion => facts.source_ready,
            RepairAction::ClearProfile => facts.learned,
            RepairAction::PreviousClick => self.clicks.len() > 0,
            RepairAction::NextClick => self.clicks.len() > 0,
            RepairAction::SilenceRegion => self.region.is_some(),
            RepairAction::ClearRegion => self.region.is_some(),
            _ => true,
        }
    }

    fn use_frequency_scale(&mut self, facts: &WorkspaceFacts) -> (effects: Vec<RepairEffect>)
        ensures
            performed(
                *old(self),
                *final(self),
                RepairAction::ToggleFrequencyScale,
                *facts,
                effects@,
            ),
    {
        self.toggle_frequency_scale();
        let mut effects: Vec<RepairEffect> = Vec::new();
        if let Some(job) = self.spawn_repair_spectrogram(&facts.source_path) {
            effects.push(RepairEffect::BuildSpectrogram { job });
        }
        effects.push(RepairEffect::Invalidate);
        effects.push(RepairEffect::Notify);
        effects
    }

    fn use_click_step(&mut self, action: RepairAction, facts: &WorkspaceFacts) -> (effects: Vec<
        RepairEffect,
    >)
        requires
            action == RepairAction::PreviousClick || action == RepairAction::NextClick,
            old(self).clicks@.len() > 0,
            old(self).selected_click < i32::MAX,
        ensures
            performed(*old(self), *final(self), action, *facts, effects@),
    {
        let delta: i32 = if action == RepairAction::NextClick { 1 } else { -1 };
        match self.step_click(delta) {
            Some(frame) => refreshed(RepairEffect::Center { frame }),
            None => Vec::new(),
        }
    }

    fn use_hum_base(&self, action: RepairAction, facts: &WorkspaceFacts) -> (effects: Vec<
        RepairEffect,
    >)
        requires
            action == RepairAction::HumAt50 || action == RepairAction::HumAt60,
        ensures
            performed(*self, *self, action, *facts, effects@),
    {
        let hz: u32 = if action == RepairAction::HumAt50 { 50 } else { 60 };
        let mut effects: Vec<RepairEffect> = Vec::new();
        effects.push(RepairEffect::SetHumBase { hz });
        effects.push(RepairEffect::EmitRepairPreview);
        effects.push(RepairEffect::Invalidate);
        effects.push(RepairEffect::Notify);
        effects
    }

    fn use_transients(&mut self, facts: &WorkspaceFacts) -> (effects: Vec<RepairEffect>)
        ensures
            performed(
                *old(self),
                *final(self),
                RepairAction::ToggleTransients,
                *facts,
                effects@,
            ),
    {
        let mut effects: Vec<RepairEffect> = Vec::new();
        if self.toggle_transients(facts.transient_count) {
            effects.push(RepairEffect::DetectTransients);
        }
        effects.push(RepairEffect::Notify);
        effects
    }

    fn use_view(&mut self, view: CanvasView, facts: &WorkspaceFacts) -> (effects: Vec<RepairEffect>)
        ensures
            performed(
                *old(self),
                *final(self),
                (RepairAction::ShowView { view }),
                *facts,
                effects@,
            ),
    {
        self.view = view;
        let mut effects: Vec<RepairEffect> = Vec::new();
        effects.push(RepairEffect::Notify);
        effects
    }

    fn use_spectrum(&mut self, facts: &WorkspaceFacts) -> (effects: Vec<RepairEffect>)
        ensures
            performed(
                *old(self),
                *final(self),
                RepairAction::ToggleSpectrum,
                *facts,
                effects@,
            ),
    {
        self.show_spectrum = !self.show_spectrum;
        let mut effects: Vec<RepairEffect> = Vec::new();
        effects.push(RepairEffect::Notify);
        effects
    }

    fn use_clearing(&mut self, action: RepairAction, facts: &WorkspaceFacts) -> (effects: Vec<
        RepairEffect,
    >)
        requires
            action == RepairAction::ClearProfile || action == RepairAction::ClearRegion,
        ensures
            performed(*old(self), *final(self), action, *facts, effects@),
    {
        if action == RepairAction::ClearProfile {
            self.clear_profile();
            return refreshed(RepairEffect::ForgetNoise);
        }
        self.clear_region();
        let mut effects: Vec<RepairEffect> = Vec::new();
        effects.push(RepairEffect::Invalidate);
        effects.push(RepairEffect::Notify);
        effects
    }

    /// Uses a control of the workspace. One that cannot be used does nothing.
    pub fn perform(&mut self, action: RepairAction, facts: &WorkspaceFacts) -> (effects: Vec<
        RepairEffect,
    >)
        requires
            action == RepairAction::PreviousClick || action == RepairAction::NextClick ==> old(
                self,
            ).selected_click < i32::MAX,
        ensures
            !available(*old(self), action, *facts) ==> *final(self) == *old(self) && effects@.len()
                == 0,
            available(*old(self), action, *facts) ==> performed(
                *old(self),
                *final(self),
                action,
                *facts,
                effects@,
            ),
    {
        if !self.is_available(action, facts) {
            return Vec::new();
        }
        match action {
            RepairAction::ShowView { view } => self.use_view(view, facts),
            RepairAction::ToggleFrequencyScale => self.use_frequency_scale(facts),
            RepairAction::ToggleTransients => self.use_transients(facts),
            RepairAction::ToggleSpectrum => self.use_spectrum(facts),
            RepairAction::ZoomOut => refreshed(RepairEffect::ZoomOut),
            RepairAction::ZoomIn => refreshed(RepairEffect::ZoomIn),
            RepairAction::Fit => refreshed(RepairEffect::Fit),
            RepairAction::LearnRegion => {
                let mut effects: Vec<RepairEffect> = Vec::new();
                effects.push(RepairEffect::LearnNoise);
                effects
            },
            RepairAction::SilenceRegion => refreshed(RepairEffect::Silence),
            RepairAction::PreviousClick | RepairAction::NextClick => self.use_click_step(
                action,
                facts,
            ),
            RepairAction::HumAt50 | RepairAction::HumAt60 => self.use_hum_base(action, facts),
            RepairAction::ClearProfile | RepairAction::ClearRegion => self.use_clearing(
                action,
                facts,
            ),
        }
    }

    /// Switches to a module, with what that asks for: the engine hears the new
    /// module, and the preview is computed anew.
    pub fn choose_module(&mut self, module: AudioRepairModule) -> (effects: Vec<RepairEffect>)
        ensures
            old(self).module == module ==> *final(self) == *old(self) && effects@.len() == 0,
            old(self).module != module ==> {
                &&& final(self).clicks@.len() == 0
                &&& *final(self) == (RepairSurface {
                    module,
                    mask: None,
                    clicks: final(self).clicks,
                    stats: None,
                    diff: None,
                    ..*old(self)
                })
                &&& effects@ == seq![
                    RepairEffect::EmitPreview,
                    RepairEffect::Invalidate,
                    RepairEffect::Notify,
                ]
            },
    {
        if self.activate_repair_module(module) {
            refreshed(RepairEffect::EmitPreview)
        } else {
            Vec::new()
        }
    }
}

// ------------------------------------------------------------------- laws

/// Every control that changes what the module would do leaves the preview out
/// of date; only the controls of the view, and learning, do not.
pub proof fn law_changes_invalidate_the_preview<T, S>(
    next: RepairSurface<T, S>,
    action: RepairAction,
    facts: WorkspaceFacts,
)
    ensures
        workspace_effects(next, action, facts).contains(RepairEffect::Invalidate) == !(
        action is ShowView || action == RepairAction::ToggleTransients || action
            == RepairAction::ToggleSpectrum || action == RepairAction::LearnRegion),
{
    let effects = workspace_effects(next, action, facts);
    let n = effects.len();
    if n >= 2 {
        assert(effects[n - 2] == RepairEffect::Invalidate || action
            == RepairAction::ToggleTransients);
    }
}

/// No control of the workspace switches the module.
pub proof fn law_controls_keep_the_module<T, S>(
    surface: RepairSurface<T, S>,
    action: RepairAction,
    facts: WorkspaceFacts,
)
    ensures
        operated(surface, action, facts).module == surface.module,
{
}

/// A step from click to click always lands on one.
pub proof fn law_a_step_lands_on_a_click(selected: usize, delta: int, count: nat)
    requires
        count > 0,
    ensures
        0 <= stepped_click(selected, delta, count) < count,
{
}

/// A step forwards and one back lead to the same click, away from the ends.
pub proof fn law_a_step_back_undoes_a_step<T, S>(
    surface: RepairSurface<T, S>,
    facts: WorkspaceFacts,
)
    requires
        surface.selected_click + 1 < surface.clicks@.len() <= usize::MAX,
    ensures
        ({
            let ahead = operated(surface, RepairAction::NextClick, facts);
            operated(ahead, RepairAction::PreviousClick, facts) == surface
        }),
{
}

/// Whether an element of the workspace is enabled just when its control can be
/// used. Latches and segments are always enabled.
pub open spec fn tells_the_truth<T, S>(
    item: InspectorView,
    surface: RepairSurface<T, S>,
    facts: WorkspaceFacts,
) -> bool {
    match item {
        InspectorView::Button { action, enabled, .. } => enabled == available(
            surface,
            action,
            facts,
        ),
        InspectorView::Latch { action, .. } => available(surface, action, facts),
        InspectorView::Segment { action, .. } => available(surface, action, facts),
        _ => true,
    }
}

spec fn all_true<T, S>(
    items: Seq<InspectorView>,
    surface: RepairSurface<T, S>,
    facts: WorkspaceFacts,
) -> bool {
    forall|i: int| 0 <= i < items.len() ==> tells_the_truth(#[trigger] items[i], surface, facts)
}

proof fn lemma_joined<T, S>(
    a: Seq<InspectorView>,
    b: Seq<InspectorView>,
    surface: RepairSurface<T, S>,
    facts: WorkspaceFacts,
)
    requires
        all_true(a, surface, facts),
        all_true(b, surface, facts),
    ensures
        all_true(a + b, surface, facts),
{
    assert forall|i: int| 0 <= i < (a + b).len() implies tells_the_truth(
        #[trigger] (a + b)[i],
        surface,
        facts,
    ) by {
        if i < a.len() {
            assert((a + b)[i] == a[i]);
        } else {
            assert((a + b)[i] == b[i - a.len()]);
        }
    }
}

proof fn lemma_result<T, S>(
    surface: RepairSurface<T, S>,
    facts: WorkspaceFacts,
    texts: InspectorTexts,
)
    ensures
        all_true(result_items(surface, texts), surface, facts),
{
    let items = result_items(surface, texts);
    assert forall|i: int| 0 <= i < items.len() implies tells_the_truth(
        #[trigger] items[i],
        surface,
        facts,
    ) by {
        assert(items[i] is Section || items[i] is Row || items[i] is Text);
    }
}

/// A control of the canvas's header or of the inspector is enabled if and only
/// if using it does something.
pub proof fn law_a_control_is_enabled_when_it_can_be_used<T, S>(
    surface: RepairSurface<T, S>,
    facts: WorkspaceFacts,
    hum: HumBase,
    spectral: bool,
    texts: InspectorTexts,
)
    ensures
        forall|i: int|
            0 <= i < header_items(surface).len() ==> tells_the_truth(
                #[trigger] header_items(surface)[i],
                surface,
                facts,
            ),
        forall|i: int|
            0 <= i < inspector_items(
                surface,
                facts.learned,
                facts.source_ready,
                hum,
                spectral,
                texts,
            ).len() ==> tells_the_truth(
                #[trigger] inspector_items(
                    surface,
                    facts.learned,
                    facts.source_ready,
                    hum,
                    spectral,
                    texts,
                )[i],
                surface,
                facts,
            ),
{
    let module = module_items(surface, facts.learned, facts.source_ready, hum, texts);
    let region = region_items(surface, spectral, texts);
    assert(all_true(module, surface, facts));
    assert(all_true(region, surface, facts));
    lemma_result(surface, facts, texts);
    lemma_joined(module, region, surface, facts);
    lemma_joined(module + region, result_items(surface, texts), surface, facts);
}

/// A control of the workspace does what it says: it shows the view, turns its
/// switch around, drops the profile or the region, or steps to the next click.
pub proof fn law_a_control_does_what_it_says<T, S>(
    surface: RepairSurface<T, S>,
    facts: WorkspaceFacts,
    view: CanvasView,
)
    requires
        surface.clicks@.len() <= usize::MAX,
    ensures
        operated(surface, RepairAction::ShowView { view }, facts).view == view,
        operated(surface, RepairAction::ToggleFrequencyScale, facts).frequency_scale
            != surface.frequency_scale,
        operated(surface, RepairAction::ToggleTransients, facts).show_transients
            == !surface.show_transients,
        operated(surface, RepairAction::ToggleSpectrum, facts).show_spectrum
            == !surface.show_spectrum,
        operated(surface, RepairAction::ClearProfile, facts).profile_frames == 0,
        operated(surface, RepairAction::ClearProfile, facts).mask is None,
        operated(surface, RepairAction::ClearRegion, facts).region is None,
        surface.selected_click + 1 < surface.clicks@.len() ==> operated(
            surface,
            RepairAction::NextClick,
            facts,
        ).selected_click == surface.selected_click + 1,
        0 < surface.selected_click < surface.clicks@.len() ==> operated(
            surface,
            RepairAction::PreviousClick,
            facts,
        ).selected_click == surface.selected_click - 1,
        surface.clicks@.len() > 0 && surface.selected_click + 1 >= surface.clicks@.len()
            ==> operated(surface, RepairAction::NextClick, facts).selected_click
            == surface.clicks@.len() - 1,
        surface.selected_click == 0 && surface.clicks@.len() > 0 ==> operated(
            surface,
            RepairAction::PreviousClick,
            facts,
        ).selected_click == 0,
{
}

/// A control of the workspace changes nothing that is not its own.
pub proof fn law_a_control_changes_only_its_own<T, S>(
    surface: RepairSurface<T, S>,
    action: RepairAction,
    facts: WorkspaceFacts,
)
    ensures
        ({
            let next = operated(surface, action, facts);
            &&& !(action is ShowView) ==> next.view == surface.view
            &&& !(action is ToggleFrequencyScale) ==> next.frequency_scale
                == surface.frequency_scale && next.spectrogram_generation
                == surface.spectrogram_generation
            &&& !(action is ToggleTransients) ==> next.show_transients == surface.show_transients
            &&& !(action is ToggleSpectrum) ==> next.show_spectrum == surface.show_spectrum
            &&& !(action is ClearProfile) ==> next.profile_frames == surface.profile_frames
                && next.mask == surface.mask
            &&& !(action is ClearRegion) ==> next.region == surface.region
            &&& !(action is PreviousClick || action is NextClick) ==> next.selected_click
                == surface.selected_click
            &&& next.clicks == surface.clicks
            &&& next.diff == surface.diff
            &&& next.stats == surface.stats
            &&& next.peaks == surface.peaks
            &&& next.preview_busy == surface.preview_busy
            &&& next.preview_dirty == surface.preview_dirty
            &&& next.preview_generation == surface.preview_generation
        }),
{
}

/// A step to a click puts that click in the middle of the view.
pub proof fn law_a_step_centres_the_click<T, S>(
    before: RepairSurface<T, S>,
    after: RepairSurface<T, S>,
    action: RepairAction,
    facts: WorkspaceFacts,
    effects: Seq<RepairEffect>,
)
    requires
        performed(before, after, action, facts, effects),
        action is NextClick || action is PreviousClick,
    ensures
        effects.len() > 0 && effects[0] == (RepairEffect::Center {
            frame: before.clicks@[after.selected_click as int].frame,
        }),
{
}

/// Another frequency scale is drawn from a new spectrogram of the same file,
/// which makes an older one stale.
pub proof fn law_another_scale_needs_another_spectrogram<T, S>(
    before: RepairSurface<T, S>,
    after: RepairSurface<T, S>,
    facts: WorkspaceFacts,
    effects: Seq<RepairEffect>,
)
    requires
        performed(before, after, RepairAction::ToggleFrequencyScale, facts, effects),
    ensures
        facts.source_path matches Some(path) ==> effects.len() > 0 && (
        effects[0] matches RepairEffect::BuildSpectrogram { job } && job.path == path
            && job.frequency_scale == after.frequency_scale && !job.reverse && job.generation
            == after.spectrogram_generation) && after.spectrogram_generation
            != before.spectrogram_generation && (after.spectrogram_status matches Some(status)
            && status@ == "Building spectrogram…"@),
        facts.source_path is None ==> (after.spectrogram_status matches Some(status) && status@
            == "Clip has no source file"@) && !(effects[0] is BuildSpectrogram),
{
}

/// What a control asks for besides: the zoom of the view, a noise profile to be
/// learned or forgotten, the hum of the mains it names, silence, and transients
/// to be found when they are shown for the first time.
pub proof fn law_a_control_asks_for_its_work<T, S>(
    next: RepairSurface<T, S>,
    facts: WorkspaceFacts,
)
    ensures
        workspace_effects(next, RepairAction::ZoomIn, facts)[0] is ZoomIn,
        workspace_effects(next, RepairAction::ZoomOut, facts)[0] is ZoomOut,
        workspace_effects(next, RepairAction::Fit, facts)[0] is Fit,
        workspace_effects(next, RepairAction::LearnRegion, facts)[0] is LearnNoise,
        workspace_effects(next, RepairAction::ClearProfile, facts)[0] is ForgetNoise,
        workspace_effects(next, RepairAction::HumAt50, facts)[0] == (RepairEffect::SetHumBase {
            hz: 50,
        }),
        workspace_effects(next, RepairAction::HumAt60, facts)[0] == (RepairEffect::SetHumBase {
            hz: 60,
        }),
        workspace_effects(next, RepairAction::HumAt50, facts)[1] is EmitRepairPreview,
        workspace_effects(next, RepairAction::HumAt60, facts)[1] is EmitRepairPreview,
        workspace_effects(next, RepairAction::SilenceRegion, facts)[0] is Silence,
        workspace_effects(next, RepairAction::ToggleTransients, facts)[0] is DetectTransients
            <==> next.show_transients && facts.transient_count == 0,
{
}

/// A control of the workspace can be used where it has something to work on.
pub proof fn law_a_control_is_usable_where_it_has_something<T, S>(
    surface: RepairSurface<T, S>,
    action: RepairAction,
    facts: WorkspaceFacts,
)
    ensures
        action is LearnRegion ==> (available(surface, action, facts) <==> facts.source_ready),
        action is ClearProfile ==> (available(surface, action, facts) <==> facts.learned),
        action is PreviousClick || action is NextClick ==> (available(surface, action, facts)
            <==> surface.clicks@.len() > 0),
        action is SilenceRegion || action is ClearRegion ==> (available(surface, action, facts)
            <==> surface.region is Some),
        action is ShowView || action is ZoomIn || action is ZoomOut || action is Fit
            || action is ToggleFrequencyScale || action is ToggleTransients
            || action is ToggleSpectrum || action is HumAt50 || action is HumAt60 ==> available(
            surface,
            action,
            facts,
        ),
{
}

/// A slider that moved leaves the preview out of date and is drawn; the engine
/// hears of noise reduction and hum, which it can audition, and of nothing else.
pub proof fn law_a_slider_is_heard_where_it_can_be(param: RepairParam)
    ensures
        slider_effects(param).contains(RepairEffect::Invalidate),
        slider_effects(param).contains(RepairEffect::Notify),
        slider_effects(param).contains(RepairEffect::EmitRepairPreview) <==> param
            is DenoiseReduction || param is DenoiseThreshold || param is HumHarmonics || param
            is HumReduction,
{
    let effects = slider_effects(param);
    let n = effects.len();
    assert(effects[n - 1] is Notify && effects[n - 2] is Invalidate);
    if n == 3 {
        assert(effects[0] is EmitRepairPreview);
    }
}

/// Whatever a control changes is drawn at last, except what a noise profile
/// brings once it is learned; and whatever moves the view, the region or a
/// setting puts the preview out of date just before.
pub proof fn law_a_change_is_drawn<T, S>(
    next: RepairSurface<T, S>,
    action: RepairAction,
    facts: WorkspaceFacts,
)
    ensures
        ({
            let effects = workspace_effects(next, action, facts);
            let n = effects.len();
            let looks = action is ShowView || action is ToggleSpectrum || action
                is ToggleTransients;
            &&& action is LearnRegion ==> n == 1
            &&& !(action is LearnRegion) ==> n >= 1 && effects[n - 1] is Notify
            &&& !(action is LearnRegion) && !looks ==> n >= 2 && effects[n - 2] is Invalidate
            &&& action is ShowView || action is ToggleSpectrum ==> n == 1
            &&& action is ToggleTransients ==> n <= 2
            &&& action is ClearRegion ==> n == 2
            &&& action is HumAt50 || action is HumAt60 ==> n == 4
            &&& action is ZoomIn || action is ZoomOut || action is Fit || action is ClearProfile
                || action is PreviousClick || action is NextClick || action is SilenceRegion
                ==> n == 3
        }),
{
}

} // verus!
