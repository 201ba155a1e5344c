//! What the controls of a tool window do when they are used.

use vstd::prelude::*;

use crate::navigator::AvailableModules;
use crate::panel::ToolAction;
use crate::preview::DehumParams;
use crate::timeline::TimelineState;
use crate::tool_window::Cycle;
use crate::tools::{
    AnalysisJob, ApplyStep, AudioToolCommand, AudioToolSession, AudioToolWindow, PreviewValues,
    RenderJob, TimePitchMode, TransientMarker,
};

verus! {

/// What a tool window asks for when a control is used, in order.
pub enum ToolEffect<T> {
    /// Draw the window again.
    Notify,
    Analyze { job: AnalysisJob },
    LearnNoise,
    Render { job: RenderJob },
    Send { command: AudioToolCommand<T> },
    CloseWindow,
}

/// What is known when a control is used. Values that the control itself
/// changes are given as they are afterwards.
pub struct PressInputs<T> {
    pub values: PreviewValues<T>,
    /// Frequency of the hum.
    pub hum_base: T,
    /// Where the transients fall, as markers and as cuts.
    pub marker_beats: Vec<T>,
    pub slice_beats: Vec<T>,
    /// Where a tempo goes when the clip is gone.
    pub origin: T,
    pub denoise_amount: T,
    /// The time and pitch controls leave the clip as it is.
    pub unchanged: bool,
    pub available: AvailableModules,
}

/// Whether a control can be used.
pub open spec fn offered<T>(
    window: AudioToolWindow<T>,
    action: ToolAction,
    available: AvailableModules,
) -> bool {
    match action {
        ToolAction::AddMarkers | ToolAction::CreateWarpMarkers | ToolAction::Slice =>
            window.transients@.len() > 0,
        ToolAction::UseOriginalBpm | ToolAction::AddTempoMarker => window.bpm@.len() > 0,
        ToolAction::Quantize => false,
        ToolAction::SelectModule { module } => available.has(module),
        ToolAction::ToggleBypass => window.session.preview_enabled,
        _ => true,
    }
}

/// The window after a control that can be used was used, but for its status.
pub open spec fn used<T>(window: AudioToolWindow<T>, action: ToolAction, inputs: PressInputs<T>) -> AudioToolWindow<
    T,
> {
    let session = window.session;
    match action {
        ToolAction::Analyze => AudioToolWindow {
            session: AudioToolSession { analyzing: true, ..session },
            ..window
        },
        ToolAction::Cycle { control } => crate::tool_window::cycled_window(window, control),
        ToolAction::SetNormalizeMode { mode } => AudioToolWindow { normalize_mode: mode, ..window },
        ToolAction::TimeOff => AudioToolWindow { time_mode: TimePitchMode::Off, ..window },
        ToolAction::TimeStretch => AudioToolWindow { time_mode: TimePitchMode::Stretch, ..window },
        ToolAction::SetChannel { tag } => AudioToolWindow { channel: tag, ..window },
        ToolAction::SelectModule { module } => AudioToolWindow { repair_module: module, ..window },
        ToolAction::CycleHumBase => AudioToolWindow {
            dehum: DehumParams { base_hz: inputs.hum_base, ..window.dehum },
            ..window
        },
        ToolAction::ToggleFollow => AudioToolWindow {
            session: crate::tools::follow_toggled(session),
            ..window
        },
        ToolAction::TogglePin => AudioToolWindow {
            session: crate::tools::pin_toggled(session),
            ..window
        },
        ToolAction::TogglePreview => AudioToolWindow {
            session: AudioToolSession { preview_enabled: !session.preview_enabled, ..session },
            ..window
        },
        ToolAction::ToggleBypass => AudioToolWindow {
            session: AudioToolSession { preview_bypassed: !session.preview_bypassed, ..session },
            ..window
        },
        ToolAction::Cancel => crate::tool_window::laid_down(window),
        ToolAction::Apply => if crate::tool_window::refusal(window, inputs.unchanged) is None
            && crate::tool_window::render_tool(window, inputs.unchanged) is None {
            crate::tool_window::laid_down(window)
        } else {
            window
        },
        _ => window,
    }
}

/// The status after a control that can be used was used.
pub open spec fn status_after<T>(window: AudioToolWindow<T>, action: ToolAction, unchanged: bool) -> Seq<
    char,
> {
    match action {
        ToolAction::Analyze => "Analyzing…"@,
        ToolAction::LearnNoise => "Learning noise profile…"@,
        ToolAction::Apply => match crate::tool_window::refusal(window, unchanged) {
            Some(reason) => reason,
            None => if crate::tool_window::render_tool(window, unchanged) is Some {
                "Rendering…"@
            } else {
                window.status@
            },
        },
        _ => window.status@,
    }
}

/// Whether using a control brings the preview up to date.
pub open spec fn previews(action: ToolAction) -> bool {
    match action {
        ToolAction::TimeOff => true,
        ToolAction::TimeStretch => true,
        ToolAction::PitchUp => true,
        ToolAction::PitchDown => true,
        ToolAction::SetChannel { .. } => true,
        ToolAction::DenoiseLess => true,
        ToolAction::DenoiseMore => true,
        ToolAction::CycleHumBase => true,
        ToolAction::TogglePreview => true,
        ToolAction::ToggleBypass => true,
        _ => false,
    }
}

/// A command that is sent.
pub open spec fn sent<T>(command: AudioToolCommand<T>) -> ToolEffect<T> {
    ToolEffect::Send { command }
}

/// Whether the effects send the transients as warp markers of a clip.
pub open spec fn warps<T>(
    effects: Seq<ToolEffect<T>>,
    clip_id: String,
    transients: Seq<TransientMarker<T>>,
) -> bool {
    &&& effects.len() == 1
    &&& effects[0] matches ToolEffect::Send { command } && command
        matches AudioToolCommand::AddWarpMarkers { clip_id: warped, frames } && warped == clip_id
        && frames@ == transients.map_values(|marker: TransientMarker<T>| marker.source_frame)
}

/// What using a control asks for, other than warp markers; `next` is the window
/// afterwards.
pub open spec fn effects_of<T>(
    window: AudioToolWindow<T>,
    next: AudioToolWindow<T>,
    action: ToolAction,
    inputs: PressInputs<T>,
    timeline: TimelineState<T>,
) -> Seq<ToolEffect<T>> {
    let clip_id = window.session.target.clip_id;
    match action {
        ToolAction::Analyze => seq![
            ToolEffect::Analyze {
                job: AnalysisJob {
                    work: crate::tool_window::work_of(
                        window.session.tool_kind,
                        window.spectrum_mode,
                    ),
                    source_path: window.session.target.source_path,
                    selection: window.session.target.time_selection,
                },
            },
        ],
        ToolAction::AddMarkers => seq![
            sent(
                AudioToolCommand::AddMarkers {
                    beats: inputs.marker_beats,
                    label: "Add Transient Markers",
                },
            ),
        ],
        ToolAction::Slice => seq![
            sent(AudioToolCommand::SliceClip { clip_id, beats: inputs.slice_beats }),
        ],
        ToolAction::UseOriginalBpm => seq![
            sent(AudioToolCommand::UseOriginalBpm { clip_id, bpm: window.bpm@[0].bpm }),
        ],
        ToolAction::AddTempoMarker => seq![
            sent(
                AudioToolCommand::AddTempoPoint {
                    beat: match timeline.place_of(clip_id@) {
                        Some(place) => timeline.clip_at(place).start_beat,
                        None => inputs.origin,
                    },
                    bpm: window.bpm@[0].bpm,
                },
            ),
        ],
        ToolAction::LearnNoise => seq![ToolEffect::LearnNoise],
        ToolAction::Close => seq![ToolEffect::CloseWindow],
        ToolAction::Cancel => seq![
            sent(AudioToolCommand::ClearPreview { clip_id }),
            ToolEffect::CloseWindow,
        ],
        ToolAction::Apply => match (
            crate::tool_window::refusal(window, inputs.unchanged),
            crate::tool_window::render_tool(window, inputs.unchanged),
        ) {
            (Some(_), _) => seq![ToolEffect::Notify],
            (None, Some(tool)) => seq![
                ToolEffect::Render { job: crate::tool_window::render_job(window, tool, timeline) },
                ToolEffect::Notify,
            ],
            (None, None) => sends(
                crate::tool_window::apply_commands(window, inputs.denoise_amount),
            ).push(ToolEffect::Notify),
        },
        _ => if previews(action) {
            seq![
                sent(crate::tool_window::preview_command(next, inputs.values)),
                ToolEffect::Notify,
            ]
        } else {
            seq![ToolEffect::Notify]
        },
    }
}

/// Commands that are sent, in order.
pub open spec fn sends<T>(commands: Seq<AudioToolCommand<T>>) -> Seq<ToolEffect<T>> {
    Seq::new(commands.len(), |i: int| sent(commands[i]))
}

/// Whether a control sends what was found.
pub open spec fn commands(action: ToolAction) -> bool {
    match action {
        ToolAction::AddMarkers => true,
        ToolAction::CreateWarpMarkers => true,
        ToolAction::Slice => true,
        ToolAction::UseOriginalBpm => true,
        ToolAction::AddTempoMarker => true,
        _ => false,
    }
}

/// Whether a control starts work or closes the window.
pub open spec fn steps(action: ToolAction) -> bool {
    match action {
        ToolAction::Analyze => true,
        ToolAction::LearnNoise => true,
        ToolAction::Close => true,
        ToolAction::Cancel => true,
        _ => false,
    }
}

/// Whether using a control led from one window to another, with these effects.
pub open spec fn carried_out<T>(
    before: AudioToolWindow<T>,
    after: AudioToolWindow<T>,
    action: ToolAction,
    inputs: PressInputs<T>,
    timeline: TimelineState<T>,
    effects: Seq<ToolEffect<T>>,
) -> bool {
    &&& after.status@ == status_after(before, action, inputs.unchanged)
    &&& after == (AudioToolWindow { status: after.status, ..used(before, action, inputs) })
    &&& if action == ToolAction::CreateWarpMarkers {
        warps(effects, before.session.target.clip_id, before.transients@)
    } else {
        effects =~= effects_of(before, after, action, inputs, timeline)
    }
}

fn step_effects<T>(step: ApplyStep<T>) -> (effects: Vec<ToolEffect<T>>)
    ensures
        match step {
            ApplyStep::Refused => effects@ == seq![ToolEffect::<T>::Notify],
            ApplyStep::Render { job } => effects@ == seq![
                ToolEffect::<T>::Render { job },
                ToolEffect::<T>::Notify,
            ],
            ApplyStep::Dispatch { commands } => effects@ == sends(commands@).push(
                ToolEffect::<T>::Notify,
            ),
        },
{
    let mut effects: Vec<ToolEffect<T>> = Vec::new();
    match step {
        ApplyStep::Refused => {},
        ApplyStep::Render { job } => {
            effects.push(ToolEffect::Render { job });
        },
        ApplyStep::Dispatch { commands } => {
            effects = send_all(commands);
        },
    }
    effects.push(ToolEffect::Notify);
    effects
}

proof fn lemma_apply<T>(
    window: AudioToolWindow<T>,
    next: AudioToolWindow<T>,
    inputs: PressInputs<T>,
    timeline: TimelineState<T>,
)
    ensures
        effects_of(window, next, ToolAction::Apply, inputs, timeline) == match (
            crate::tool_window::refusal(window, inputs.unchanged),
            crate::tool_window::render_tool(window, inputs.unchanged),
        ) {
            (Some(_), _) => seq![ToolEffect::<T>::Notify],
            (None, Some(tool)) => seq![
                ToolEffect::Render { job: crate::tool_window::render_job(window, tool, timeline) },
                ToolEffect::Notify,
            ],
            (None, None) => sends(
                crate::tool_window::apply_commands(window, inputs.denoise_amount),
            ).push(ToolEffect::Notify),
        },
{
}

proof fn lemma_setting<T>(
    window: AudioToolWindow<T>,
    action: ToolAction,
    inputs: PressInputs<T>,
    timeline: TimelineState<T>,
)
    requires
        previews(action),
    ensures
        used(window, action, inputs).status == window.status,
        status_after(window, action, inputs.unchanged) == window.status@,
        effects_of(window, used(window, action, inputs), action, inputs, timeline) == seq![
            sent(
                crate::tool_window::preview_command(used(window, action, inputs), inputs.values),
            ),
            ToolEffect::<T>::Notify,
        ],
{
}

fn send_all<T>(commands: Vec<AudioToolCommand<T>>) -> (effects: Vec<ToolEffect<T>>)
    ensures
        effects@ == sends(commands@),
{
    let ghost all = commands@;
    let mut left = commands;
    let mut effects: Vec<ToolEffect<T>> = Vec::new();
    while left.len() > 0
        invariant
            effects@.len() + left@.len() == all.len(),
            left@ == all.skip(effects@.len() as int),
            effects@ == sends(all).take(effects@.len() as int),
        decreases left@.len(),
    {
        let ghost done = effects@.len() as int;
        let command = left.remove(0);
        effects.push(ToolEffect::Send { command });
        proof {
            assert(command == all[done]);
            assert(left@ =~= all.skip(done + 1));
            assert(effects@ =~= sends(all).take(done + 1));
        }
    }
    proof {
        assert(sends(all).take(effects@.len() as int) =~= sends(all));
    }
    effects
}

impl<T: Copy> AudioToolWindow<T> {
    fn is_offered(&self, action: ToolAction, available: &AvailableModules) -> (yes: bool)
        ensures
            yes == offered(*self, action, *available),
    {
        match action {
            ToolAction::AddMarkers => self.transients.len() > 0,
            ToolAction::CreateWarpMarkers => self.transients.len() > 0,
            ToolAction::Slice => self.transients.len() > 0,
            ToolAction::UseOriginalBpm => self.bpm.len() > 0,
            ToolAction::AddTempoMarker => self.bpm.len() > 0,
            ToolAction::Quantize => false,
            ToolAction::SelectModule { module } => available.is_available(module),
            ToolAction::ToggleBypass => self.session.preview_enabled,
            _ => true,
        }
    }

    fn previewed_effects(&self, values: &PreviewValues<T>) -> (effects: Vec<ToolEffect<T>>)
        ensures
            effects@ == seq![
                sent(crate::tool_window::preview_command(*self, *values)),
                ToolEffect::<T>::Notify,
            ],
    {
        let mut effects: Vec<ToolEffect<T>> = Vec::new();
        effects.push(ToolEffect::Send { command: self.emit_preview(values) });
        effects.push(ToolEffect::Notify);
        effects
    }

    fn press_apply(&mut self, inputs: &PressInputs<T>, timeline: &TimelineState<T>) -> (effects: Vec<
        ToolEffect<T>,
    >)
        ensures
            carried_out(
                *old(self),
                *final(self),
                ToolAction::Apply,
                *inputs,
                *timeline,
                effects@,
            ),
    {
        let step = self.apply(timeline, inputs.denoise_amount, inputs.unchanged);
        proof {
            lemma_apply(*old(self), *self, *inputs, *timeline);
        }
        step_effects(step)
    }

    fn change_setting(&mut self, action: ToolAction, inputs: &PressInputs<T>)
        requires
            previews(action),
        ensures
            *final(self) == used(*old(self), action, *inputs),
    {
        match action {
            ToolAction::TimeOff => {
                self.time_mode = TimePitchMode::Off;
            },
            ToolAction::TimeStretch => {
                self.time_mode = TimePitchMode::Stretch;
            },
            ToolAction::SetChannel { tag } => {
                self.channel = tag;
            },
            ToolAction::CycleHumBase => {
                self.dehum.base_hz = inputs.hum_base;
            },
            ToolAction::TogglePreview => {
                self.session.preview_enabled = !self.session.preview_enabled;
            },
            ToolAction::ToggleBypass => {
                self.session.preview_bypassed = !self.session.preview_bypassed;
            },
            _ => {},
        }
    }

    /// Uses a setting: it changes the window, and the preview with it.
    fn press_setting(&mut self, action: ToolAction, inputs: &PressInputs<T>, timeline: &TimelineState<T>) -> (effects:
        Vec<ToolEffect<T>>)
        requires
            previews(action),
        ensures
            carried_out(*old(self), *final(self), action, *inputs, *timeline, effects@),
    {
        self.change_setting(action, inputs);
        let effects = self.previewed_effects(&inputs.values);
        proof {
            lemma_setting(*old(self), action, *inputs, *timeline);
        }
        effects
    }

    /// Uses a control that changes nothing but the window.
    fn press_plain(&mut self, action: ToolAction, inputs: &PressInputs<T>, timeline: &TimelineState<T>) -> (effects:
        Vec<ToolEffect<T>>)
        requires
            !previews(action),
            !commands(action),
            !steps(action),
            action != ToolAction::Apply,
        ensures
            carried_out(*old(self), *final(self), action, *inputs, *timeline, effects@),
    {
        match action {
            ToolAction::Cycle { control } => {
                self.cycle(control);
            },
            ToolAction::SetNormalizeMode { mode } => {
                self.normalize_mode = mode;
            },
            ToolAction::SelectModule { module } => {
                self.repair_module = module;
            },
            ToolAction::ToggleFollow => {
                self.session.toggle_follow();
            },
            ToolAction::TogglePin => {
                self.session.toggle_pin();
            },
            _ => {},
        }
        let mut effects: Vec<ToolEffect<T>> = Vec::new();
        effects.push(ToolEffect::Notify);
        effects
    }

    /// Uses a control that sends what was found.
    fn press_command(&self, action: ToolAction, inputs: PressInputs<T>, timeline: &TimelineState<T>) -> (effects:
        Vec<ToolEffect<T>>)
        requires
            offered(*self, action, inputs.available),
            commands(action),
        ensures
            carried_out(*self, *self, action, inputs, *timeline, effects@),
    {
        let command = match action {
            ToolAction::AddMarkers => self.add_transient_markers(inputs.marker_beats),
            ToolAction::CreateWarpMarkers => self.add_warp_markers(),
            ToolAction::Slice => self.slice_at_transients(inputs.slice_beats),
            ToolAction::UseOriginalBpm => self.use_original_bpm(),
            _ => self.add_tempo_point(timeline, inputs.origin),
        };
        let mut effects: Vec<ToolEffect<T>> = Vec::new();
        if let Some(command) = command {
            effects.push(ToolEffect::Send { command });
        }
        effects
    }

    /// Uses a control that starts work or closes the window.
    fn press_step(&mut self, action: ToolAction, inputs: &PressInputs<T>, timeline: &TimelineState<T>) -> (effects:
        Vec<ToolEffect<T>>)
        requires
            steps(action),
        ensures
            carried_out(*old(self), *final(self), action, *inputs, *timeline, effects@),
    {
        let mut effects: Vec<ToolEffect<T>> = Vec::new();
        match action {
            ToolAction::Analyze => {
                let job = self.begin_analysis();
                effects.push(ToolEffect::Analyze { job });
            },
            ToolAction::LearnNoise => {
                self.begin_learning();
                effects.push(ToolEffect::LearnNoise);
            },
            ToolAction::Cancel => {
                let command = self.cancel();
                effects.push(ToolEffect::Send { command });
                effects.push(ToolEffect::CloseWindow);
            },
            _ => {
                effects.push(ToolEffect::CloseWindow);
            },
        }
        effects
    }

    /// Uses a control. One that is not offered does nothing.
    pub fn press(
        &mut self,
        action: ToolAction,
        inputs: PressInputs<T>,
        timeline: &TimelineState<T>,
    ) -> (effects: Vec<ToolEffect<T>>)
        ensures
            !offered(*old(self), action, inputs.available) ==> *final(self) == *old(self)
                && effects@.len() == 0,
            offered(*old(self), action, inputs.available) ==> carried_out(
                *old(self),
                *final(self),
                action,
                inputs,
                *timeline,
                effects@,
            ),
    {
        if !self.is_offered(action, &inputs.available) {
            return Vec::new();
        }
        match action {
            ToolAction::AddMarkers | ToolAction::CreateWarpMarkers | ToolAction::Slice
            | ToolAction::UseOriginalBpm | ToolAction::AddTempoMarker => self.press_command(
                action,
                inputs,
                timeline,
            ),
            ToolAction::Analyze | ToolAction::LearnNoise | ToolAction::Close | ToolAction::Cancel
            => self.press_step(action, &inputs, timeline),
            ToolAction::Apply => self.press_apply(&inputs, timeline),
            ToolAction::TimeOff | ToolAction::TimeStretch | ToolAction::PitchUp
            | ToolAction::PitchDown | ToolAction::SetChannel { .. } | ToolAction::DenoiseLess
            | ToolAction::DenoiseMore | ToolAction::CycleHumBase | ToolAction::TogglePreview
            | ToolAction::ToggleBypass => self.press_setting(action, &inputs, timeline),
            _ => self.press_plain(action, &inputs, timeline),
        }
    }
}

// ------------------------------------------------------------------- laws

/// No control leaves a module selected that has no processor.
pub proof fn law_only_modules_with_a_processor_are_selected<T>(
    window: AudioToolWindow<T>,
    action: ToolAction,
    inputs: PressInputs<T>,
)
    requires
        offered(window, action, inputs.available),
        inputs.available.has(window.repair_module),
    ensures
        inputs.available.has(used(window, action, inputs).repair_module),
{
}

/// No control changes what the window works on, nor which tool it is.
pub proof fn law_controls_keep_the_target<T>(
    window: AudioToolWindow<T>,
    action: ToolAction,
    inputs: PressInputs<T>,
)
    ensures
        used(window, action, inputs).session.target == window.session.target,
        used(window, action, inputs).session.tool_kind == window.session.tool_kind,
{
}

/// A switch used twice is as it was.
pub proof fn law_switches_used_twice_are_as_before<T>(
    window: AudioToolWindow<T>,
    action: ToolAction,
    inputs: PressInputs<T>,
)
    requires
        action == ToolAction::TogglePreview || action == ToolAction::ToggleBypass || action == (
        ToolAction::Cycle { control: Cycle::PeakHold }) || action == (ToolAction::Cycle {
            control: Cycle::PhaseMode,
        }),
    ensures
        used(used(window, action, inputs), action, inputs) == window,
{
}

/// Switching the preview off takes it back from the engine, and switching it
/// on hands it over.
pub proof fn law_the_preview_switch_reaches_the_engine<T>(
    window: AudioToolWindow<T>,
    inputs: PressInputs<T>,
    timeline: TimelineState<T>,
)
    ensures
        ({
            let next = used(window, ToolAction::TogglePreview, inputs);
            let effects = effects_of(window, next, ToolAction::TogglePreview, inputs, timeline);
            effects[0] == if window.session.preview_enabled {
                sent(
                    AudioToolCommand::ClearPreview { clip_id: window.session.target.clip_id },
                )
            } else {
                sent(
                    AudioToolCommand::Preview {
                        preview: crate::tool_window::preview_of(next, inputs.values),
                    },
                )
            }
        }),
{
}

} // verus!
