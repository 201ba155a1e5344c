//! What using a tool window brings about.

use vstd::prelude::*;

use crate::actions::{
    carried_out, offered, used, PressInputs, ToolEffect,
};
use crate::navigator::{AudioRepairModule, AvailableModules};
use crate::panel::ToolAction;
use crate::target::AudioToolKind;
use crate::timeline::TimelineState;
use crate::tool_window::{
    analysis_status, apply_commands, cycled_window, kept, laid_down, preview_command, preview_of,
    refusal, render_job, render_tool, settled, tick_of, work_of, Cycle,
};
use crate::tools::{
    following_rate, of_other_tools, still_open, AnalysisResult, AnalysisWork, AudioToolCommand,
    AudioToolSession, AudioToolWindow, FftSize, NormalizeMode, OfflineTool, PreviewValues,
    RealtimeTick, SpectrumMode, SpectrumSmoothing, SpectrumWindow,
};

verus! {

// ----------------------------------------------------------------- applying

/// A render is of the target: its clip, its file and its time selection, at its
/// sample rate, or at the chosen one where the tool resamples.
pub proof fn law_a_render_is_of_the_target<T>(
    window: AudioToolWindow<T>,
    tool: OfflineTool,
    timeline: TimelineState<T>,
)
    ensures
        ({
            let job = render_job(window, tool, timeline);
            let target = window.session.target;
            &&& job.selection == target.time_selection
            &&& job.clip_id == target.clip_id
            &&& job.source_path == target.source_path
            &&& job.tool == tool
            &&& job.tool_kind == window.session.tool_kind
            &&& window.session.tool_kind is Resample ==> job.target_rate == window.resample_target
            &&& !(window.session.tool_kind is Resample) ==> job.target_rate == target.sample_rate
        }),
{
}

/// A render reads what the clip plays of its source: from where the clip is
/// trimmed to where it ends, or to where its source ends; and nothing where the
/// clip is gone.
pub proof fn law_a_render_reads_what_the_clip_plays<T>(
    window: AudioToolWindow<T>,
    tool: OfflineTool,
    timeline: TimelineState<T>,
)
    ensures
        ({
            let read = render_job(window, tool, timeline).source_window;
            match timeline.place_of(window.session.target.clip_id@) {
                Some(place) => {
                    let stretch = timeline.clip_at(place).stretch;
                    &&& read.0 == stretch.source_start_samples
                    &&& stretch.source_start_samples < stretch.source_end_samples ==> read.1
                        == stretch.source_end_samples
                    &&& stretch.source_end_samples <= stretch.source_start_samples ==> read.1
                        == stretch.original_duration_samples
                },
                None => read.0 == 0 && read.1 == 0,
            }
        }),
{
}

/// Whatever control is used, a render that it starts takes the target's clip,
/// file and time selection along.
pub proof fn law_every_render_keeps_to_the_selection<T>(
    before: AudioToolWindow<T>,
    after: AudioToolWindow<T>,
    action: ToolAction,
    inputs: PressInputs<T>,
    timeline: TimelineState<T>,
    effects: Seq<ToolEffect<T>>,
    i: int,
)
    requires
        carried_out(before, after, action, inputs, timeline, effects),
        0 <= i < effects.len(),
    ensures
        effects[i] matches ToolEffect::Render { job } ==> {
            &&& action is Apply
            &&& job.selection == before.session.target.time_selection
            &&& job.clip_id == before.session.target.clip_id
            &&& job.source_path == before.session.target.source_path
            &&& job.tool_kind == before.session.tool_kind
        },
        effects[i] matches ToolEffect::Analyze { job } ==> {
            &&& action is Analyze
            &&& job.selection == before.session.target.time_selection
            &&& job.source_path == before.session.target.source_path
        },
{
    if action is Apply && refusal(before, inputs.unchanged) is None && render_tool(
        before,
        inputs.unchanged,
    ) is None {
        assert(!(effects[i] is Render));
    }
}

/// Each tool renders its own pass, once it has what it needs; the tools that
/// only show something render none.
pub proof fn law_each_tool_renders_its_own_pass<T>(window: AudioToolWindow<T>, unchanged: bool)
    ensures
        ({
            let kind = window.session.tool_kind;
            let renders = |tool: OfflineTool| render_tool(window, unchanged) == Some(tool);
            let repairs = kind is AudioRepair;
            &&& renders(OfflineTool::Gain) <==> kind is Normalize && window.required_gain_db is Some
            &&& renders(OfflineTool::Channel) <==> kind is ChannelTools
            &&& renders(OfflineTool::RemoveDc) <==> kind is DcOffset
            &&& renders(OfflineTool::Stretch) <==> kind is TimePitch && !unchanged
            &&& renders(OfflineTool::DeHum) <==> repairs && window.repair_module is DeHum
            &&& renders(OfflineTool::Denoise) <==> repairs && window.repair_module is Denoise
                && window.learned_noise is Some
            &&& renders(OfflineTool::DeClick) <==> repairs && window.repair_module is DeClick
            &&& renders(OfflineTool::SpectralGain) <==> kind is SpectralProcessor
            &&& renders(OfflineTool::Resample) <==> kind is Resample
        }),
{
}

/// A tool is refused where it would do nothing yet: normalising before anything
/// was measured, and a change of time and pitch that changes neither.
pub proof fn law_a_tool_is_refused_where_it_would_do_nothing<T>(
    window: AudioToolWindow<T>,
    unchanged: bool,
)
    ensures
        refusal(window, unchanged) is Some <==> (window.session.tool_kind is Normalize
            && window.required_gain_db is None) || (window.session.tool_kind is TimePitch
            && unchanged),
        window.session.tool_kind is Normalize && window.required_gain_db is None ==> refusal(
            window,
            unchanged,
        ) == Some("Analyze first"@),
        window.session.tool_kind is TimePitch && unchanged ==> refusal(window, unchanged) == Some(
            "Nothing to apply"@,
        ),
{
}

/// Without a render, noise reduction is set on the clip itself, and the preview
/// is taken back last.
pub proof fn law_noise_reduction_is_set_on_the_clip<T>(
    window: AudioToolWindow<T>,
    denoise_amount: T,
)
    ensures
        ({
            let commands = apply_commands(window, denoise_amount);
            let clip_id = window.session.target.clip_id;
            &&& window.session.tool_kind is AudioRepair && window.repair_module is Denoise
                ==> commands.len() == 2 && (commands[0] matches AudioToolCommand::MutateClip {
                clip_id: set,
                denoise_amount: amount,
                label,
            } && set == clip_id && amount == denoise_amount && label@ == "De-Noise"@)
            &&& !(window.session.tool_kind is AudioRepair && window.repair_module is Denoise)
                ==> commands.len() == 1
        }),
{
}

/// Applying without a render leaves nothing to apply; giving up does the same,
/// takes the preview back and closes the window.
pub proof fn law_giving_up_leaves_nothing_to_apply<T>(
    before: AudioToolWindow<T>,
    after: AudioToolWindow<T>,
    inputs: PressInputs<T>,
    timeline: TimelineState<T>,
    effects: Seq<ToolEffect<T>>,
)
    requires
        carried_out(before, after, ToolAction::Cancel, inputs, timeline, effects),
    ensures
        !after.session.preview_enabled,
        !after.session.dirty,
        effects.len() == 2,
        effects[0] == (ToolEffect::<T>::Send {
            command: AudioToolCommand::ClearPreview { clip_id: before.session.target.clip_id },
        }),
        effects[1] is CloseWindow,
{
}

/// A window with nothing left to apply keeps all it has measured and set.
pub proof fn law_laying_down_keeps_the_settings<T>(window: AudioToolWindow<T>)
    ensures
        ({
            let next = laid_down(window);
            &&& !next.session.preview_enabled && !next.session.dirty
            &&& next.session.target == window.session.target
            &&& next.session.preview_bypassed == window.session.preview_bypassed
            &&& next.session.follow_selection == window.session.follow_selection
            &&& next.required_gain_db == window.required_gain_db
            &&& next.learned_noise == window.learned_noise
            &&& next.repair_module == window.repair_module
            &&& next.transients == window.transients
            &&& next.status == window.status
        }),
{
}

/// Applying says what comes of it: why not, or that a render runs.
pub proof fn law_applying_says_what_comes_of_it<T>(
    before: AudioToolWindow<T>,
    after: AudioToolWindow<T>,
    inputs: PressInputs<T>,
    timeline: TimelineState<T>,
    effects: Seq<ToolEffect<T>>,
)
    requires
        carried_out(before, after, ToolAction::Apply, inputs, timeline, effects),
    ensures
        before.session.tool_kind is Normalize && before.required_gain_db is None
            ==> after.status@ == "Analyze first"@ && effects.len() == 1,
        before.session.tool_kind is TimePitch && inputs.unchanged ==> after.status@
            == "Nothing to apply"@ && effects.len() == 1,
        before.session.tool_kind is Normalize && before.required_gain_db is Some
            ==> after.status@ == "Rendering…"@ && effects.len() == 2 && effects[0] is Render,
        before.session.tool_kind is Resample || before.session.tool_kind is ChannelTools
            || before.session.tool_kind is DcOffset || before.session.tool_kind is SpectralProcessor
            ==> after.status@ == "Rendering…"@ && effects.len() == 2 && effects[0] is Render,
        before.session.tool_kind is AudioRepair && before.repair_module is Denoise
            && before.learned_noise is None ==> effects.len() == 3 && effects[0] is Send
            && effects[1] is Send && !after.session.preview_enabled,
{
}

// ---------------------------------------------------------------- analysing

/// Each tool analyses what it is about, and the tools that measure nothing
/// analyse nothing.
pub proof fn law_each_tool_analyses_its_own(kind: AudioToolKind, mode: SpectrumMode)
    ensures
        ({
            let work = work_of(kind, mode);
            &&& work == (AnalysisWork::Spectrum { peak: true }) <==> kind is SpectrumAnalyzer
                && mode is SelectionPeak
            &&& work == (AnalysisWork::Spectrum { peak: false }) <==> kind is SpectrumAnalyzer
                && !(mode is SelectionPeak)
            &&& work is Loudness <==> kind is Loudness || kind is Normalize
            &&& work is DcOffset <==> kind is DcOffset
            &&& work is Tempo <==> kind is BpmAnalysis
            &&& work is Key <==> kind is KeyAnalysis
            &&& work is Transients <==> kind is TransientDetector
            &&& work is Phase <==> kind is PhaseAnalyzer
            &&& work is SpectralRegion <==> kind is SpectralProcessor
        }),
{
}

/// A window keeps what was found where it belongs, and what was not looked for
/// as it was; afterwards it no longer analyses.
pub proof fn law_a_window_keeps_what_was_found<T>(
    window: AudioToolWindow<T>,
    result: Result<AnalysisResult<T>, String>,
    status: String,
)
    ensures
        ({
            let next = settled(kept(window, result), status);
            &&& !next.session.analyzing
            &&& next.status == status
            &&& next.session.target == window.session.target
            &&& next.session.preview_enabled == window.session.preview_enabled
            &&& result matches Ok(AnalysisResult::Loudness { required_gain_db })
                ==> next.required_gain_db == Some(required_gain_db)
            &&& !(result matches Ok(AnalysisResult::Loudness { .. })) ==> next.required_gain_db
                == window.required_gain_db
            &&& result matches Ok(AnalysisResult::DcOffset { dc }) ==> next.dc == dc
            &&& !(result matches Ok(AnalysisResult::DcOffset { .. })) ==> next.dc == window.dc
            &&& result matches Ok(AnalysisResult::Tempo { bpm }) ==> next.bpm == bpm
            &&& !(result matches Ok(AnalysisResult::Tempo { .. })) ==> next.bpm == window.bpm
            &&& result matches Ok(AnalysisResult::Transients { transients }) ==> next.transients
                == transients
            &&& !(result matches Ok(AnalysisResult::Transients { .. })) ==> next.transients
                == window.transients
            &&& next.learned_noise == window.learned_noise
            &&& next.repair_module == window.repair_module
            &&& next.resample_target == window.resample_target
            &&& next.channel == window.channel
        }),
{
}

/// The status after an analysis is the error where it failed, how many
/// transients were found, or the region; otherwise nothing is said.
pub proof fn law_the_status_tells_what_was_found<T>(result: Result<AnalysisResult<T>, String>)
    ensures
        result matches Err(error) ==> analysis_status(result) == error@,
        result matches Ok(AnalysisResult::Transients { transients }) ==> analysis_status(result)
            == crate::text::decimal(transients@.len()) + " transients"@,
        result matches Ok(AnalysisResult::SpectralRegion { text }) ==> analysis_status(result)
            == text@,
        result matches Ok(AnalysisResult::Loudness { .. }) ==> analysis_status(result).len() == 0,
        result matches Ok(AnalysisResult::DcOffset { .. }) ==> analysis_status(result).len() == 0,
        result matches Ok(AnalysisResult::Tempo { .. }) ==> analysis_status(result).len() == 0,
        result matches Ok(AnalysisResult::Plotted) ==> analysis_status(result).len() == 0,
{
}

/// While playback runs, the spectrum reads a block unless one is being measured,
/// at no less than 44.1 kHz; the phase reads its block always; no other tool
/// reads anything.
pub proof fn law_a_tick_reads_a_block<T>(window: AudioToolWindow<T>)
    ensures
        ({
            let tick = tick_of(window);
            let kind = window.session.tool_kind;
            let rate = window.session.target.sample_rate;
            &&& tick is Spectrum <==> kind is SpectrumAnalyzer
                && window.spectrum_mode is RealtimePlayback && !window.spectrum_busy
            &&& tick is Phase <==> kind is PhaseAnalyzer
            &&& tick matches RealtimeTick::Spectrum { samples, sample_rate } ==> {
                &&& samples == window.fft_size.samples()
                &&& sample_rate >= 44_100 && sample_rate >= rate
                &&& sample_rate == rate || sample_rate == 44_100
            }
            &&& tick matches RealtimeTick::Phase { samples } ==> samples == 2048
        }),
{
}

// --------------------------------------------------------------- previewing

/// A preview carries the values of its own tool: the gain once it is known, the
/// channel route, the offsets that were measured, the stretch and the pitch, the
/// hum, the noise reduction.
pub proof fn law_a_preview_carries_the_values_of_its_tool<T>(
    window: AudioToolWindow<T>,
    values: PreviewValues<T>,
)
    ensures
        ({
            let preview = preview_of(window, values);
            let kind = window.session.tool_kind;
            &&& kind is Normalize && window.required_gain_db is Some ==> preview.extra_gain == Some(
                values.gain,
            )
            &&& kind is Normalize && window.required_gain_db is None ==> preview.extra_gain is None
            &&& kind is ChannelTools ==> preview.channel == Some(window.channel)
            &&& kind is DcOffset ==> preview.dc_remove == Some(true) && preview.dc_left
                == window.dc.left && preview.dc_right == window.dc.right
            &&& kind is TimePitch ==> preview.stretch_ratio == Some(values.stretch_ratio)
                && preview.pitch_semitones == Some(values.pitch_semitones)
            &&& kind is AudioRepair && window.repair_module is DeHum ==> preview.dehum == Some(
                window.dehum,
            ) && preview.denoise_amount is None
            &&& kind is AudioRepair && window.repair_module is Denoise ==> preview.denoise_amount
                == Some(values.denoise_amount) && preview.dehum is None
            &&& !(kind is DcOffset) ==> preview.dc_left == values.zero && preview.dc_right
                == values.zero
        }),
{
}

/// The engine is told of a preview if and only if the preview is on; otherwise
/// the preview of the target's clip is taken back.
pub proof fn law_a_preview_is_heard_while_it_is_on<T>(
    window: AudioToolWindow<T>,
    values: PreviewValues<T>,
)
    ensures
        preview_command(window, values) is Preview <==> window.session.preview_enabled,
        preview_command(window, values) matches AudioToolCommand::Preview { preview }
            ==> preview.clip_id == window.session.target.clip_id && preview.bypass
            == window.session.preview_bypassed,
        !window.session.preview_enabled ==> preview_command(window, values) == (
        AudioToolCommand::<T>::ClearPreview { clip_id: window.session.target.clip_id }),
{
}

/// A control that changes what is heard brings the preview up to date with the
/// window as it is afterwards.
pub proof fn law_heard_changes_reach_the_preview<T>(
    before: AudioToolWindow<T>,
    after: AudioToolWindow<T>,
    action: ToolAction,
    inputs: PressInputs<T>,
    timeline: TimelineState<T>,
    effects: Seq<ToolEffect<T>>,
)
    requires
        carried_out(before, after, action, inputs, timeline, effects),
        action is TimeOff || action is TimeStretch || action is PitchUp || action is PitchDown
            || action is SetChannel || action is DenoiseLess || action is DenoiseMore
            || action is CycleHumBase || action is TogglePreview || action is ToggleBypass,
    ensures
        effects.len() == 2,
        effects[1] is Notify,
        effects[0] matches ToolEffect::Send { command } && {
            &&& command is Preview <==> after.session.preview_enabled
            &&& command is ClearPreview <==> !after.session.preview_enabled
            &&& command matches AudioToolCommand::Preview { preview } ==> preview.bypass
                == after.session.preview_bypassed && preview.clip_id
                == before.session.target.clip_id && (after.session.tool_kind is ChannelTools
                ==> preview.channel == Some(after.channel)) && (after.session.tool_kind
                is AudioRepair && after.repair_module is DeHum ==> preview.dehum == Some(
                after.dehum,
            ))
        },
{
}

// ----------------------------------------------------------------- controls

/// A control that was used has set what it sets.
pub proof fn law_a_control_sets_what_it_is_for<T>(
    window: AudioToolWindow<T>,
    inputs: PressInputs<T>,
    mode: NormalizeMode,
    tag: u32,
    module: AudioRepairModule,
)
    ensures
        used(window, ToolAction::SetNormalizeMode { mode }, inputs).normalize_mode == mode,
        used(window, ToolAction::TimeOff, inputs).time_mode is Off,
        used(window, ToolAction::TimeStretch, inputs).time_mode is Stretch,
        used(window, ToolAction::SetChannel { tag }, inputs).channel == tag,
        used(window, ToolAction::SelectModule { module }, inputs).repair_module == module,
        used(window, ToolAction::CycleHumBase, inputs).dehum.base_hz == inputs.hum_base,
        used(window, ToolAction::CycleHumBase, inputs).dehum.harmonics == window.dehum.harmonics,
        used(window, ToolAction::CycleHumBase, inputs).dehum.reduction_db
            == window.dehum.reduction_db,
        used(window, ToolAction::Analyze, inputs).session.analyzing,
        used(window, ToolAction::TogglePreview, inputs).session.preview_enabled
            == !window.session.preview_enabled,
        used(window, ToolAction::ToggleBypass, inputs).session.preview_bypassed
            == !window.session.preview_bypassed,
        used(window, ToolAction::ToggleFollow, inputs).session.follow_selection
            == !window.session.follow_selection,
        used(window, ToolAction::TogglePin, inputs).session.pin_target
            == !window.session.pin_target,
{
}

/// A control leaves the settings of the spectrum, the phase and the resampling
/// alone that are not its own.
pub proof fn law_a_control_leaves_other_choices_alone<T>(
    window: AudioToolWindow<T>,
    action: ToolAction,
    inputs: PressInputs<T>,
)
    ensures
        ({
            let next = used(window, action, inputs);
            let cycles = |control: Cycle| action == (ToolAction::Cycle { control });
            &&& !cycles(Cycle::SpectrumMode) ==> next.spectrum_mode == window.spectrum_mode
            &&& !cycles(Cycle::FftSize) ==> next.fft_size == window.fft_size
            &&& !cycles(Cycle::SpectrumWindow) ==> next.spectrum_window == window.spectrum_window
            &&& !cycles(Cycle::Smoothing) ==> next.smoothing == window.smoothing
            &&& !cycles(Cycle::PeakHold) ==> next.peak_hold == window.peak_hold
            &&& !cycles(Cycle::PhaseMode) ==> next.phase_ms == window.phase_ms
            &&& !cycles(Cycle::ResampleRate) ==> next.resample_target == window.resample_target
        }),
{
    if let ToolAction::Cycle { control } = action {
        match control {
            Cycle::SpectrumMode => {},
            Cycle::FftSize => {},
            Cycle::SpectrumWindow => {},
            Cycle::Smoothing => {},
            Cycle::PeakHold => {},
            Cycle::PhaseMode => {},
            Cycle::ResampleRate => {},
        }
    }
}

/// A control leaves every other setting alone that is not its own.
pub proof fn law_a_control_leaves_other_settings_alone<T>(
    window: AudioToolWindow<T>,
    action: ToolAction,
    inputs: PressInputs<T>,
)
    ensures
        ({
            let next = used(window, action, inputs);
            &&& !(action is SetNormalizeMode) ==> next.normalize_mode == window.normalize_mode
            &&& !(action is TimeOff || action is TimeStretch) ==> next.time_mode == window.time_mode
            &&& !(action is SetChannel) ==> next.channel == window.channel
            &&& !(action is SelectModule) ==> next.repair_module == window.repair_module
            &&& !(action is CycleHumBase) ==> next.dehum == window.dehum
            &&& next.preserve_transients == window.preserve_transients
        }),
{
}

/// No control loses what was measured or learned.
pub proof fn law_a_control_keeps_what_was_found<T>(
    window: AudioToolWindow<T>,
    action: ToolAction,
    inputs: PressInputs<T>,
)
    ensures
        ({
            let next = used(window, action, inputs);
            &&& next.required_gain_db == window.required_gain_db
            &&& next.dc == window.dc
            &&& next.bpm == window.bpm
            &&& next.transients == window.transients
            &&& next.learned_noise == window.learned_noise
            &&& next.spectrum_busy == window.spectrum_busy
        }),
{
}

/// The switches of the session move by their own controls, except that applying
/// and giving up end the preview.
pub proof fn law_switches_move_by_their_own_controls<T>(
    window: AudioToolWindow<T>,
    action: ToolAction,
    inputs: PressInputs<T>,
)
    ensures
        ({
            let next = used(window, action, inputs).session;
            let session = window.session;
            &&& !(action is ToggleBypass) ==> next.preview_bypassed == session.preview_bypassed
            &&& !(action is Analyze) ==> next.analyzing == session.analyzing
            &&& !(action is TogglePreview || action is Cancel || action is Apply)
                ==> next.preview_enabled == session.preview_enabled
            &&& !(action is ToggleFollow || action is TogglePin) ==> next.follow_selection
                == session.follow_selection && next.pin_target == session.pin_target
        }),
{
}

/// A control that goes through its choices moves on, and through all of them.
pub proof fn law_a_cycle_moves_its_own_control<T>(window: AudioToolWindow<T>)
    ensures
        cycled_window(window, Cycle::SpectrumMode).spectrum_mode == window.spectrum_mode.following(),
        cycled_window(window, Cycle::FftSize).fft_size == window.fft_size.following(),
        cycled_window(window, Cycle::SpectrumWindow).spectrum_window
            == window.spectrum_window.following(),
        cycled_window(window, Cycle::Smoothing).smoothing == window.smoothing.following(),
        cycled_window(window, Cycle::PeakHold).peak_hold == !window.peak_hold,
        cycled_window(window, Cycle::PhaseMode).phase_ms == !window.phase_ms,
        cycled_window(window, Cycle::ResampleRate).resample_target == following_rate(
            window.resample_target,
        ),
{
}

/// Blocks double in length until the longest, which the shortest follows; and no
/// list of choices comes round before it has offered them all.
pub proof fn law_cycles_offer_every_choice(
    mode: SpectrumMode,
    size: FftSize,
    shape: SpectrumWindow,
    smoothing: SpectrumSmoothing,
    rate: u32,
)
    ensures
        size.samples() < 16_384 ==> size.following().samples() == 2 * size.samples(),
        size.samples() == 16_384 ==> size.following().samples() == 512,
        512 <= size.samples() <= 16_384,
        mode.following() != mode,
        mode.following().following() != mode,
        mode.following().following().following() != mode,
        shape.following() != shape,
        smoothing.following() != smoothing,
        smoothing.following().following() != smoothing,
        rate == 44_100 || rate == 48_000 || rate == 88_200 ==> following_rate(rate) > rate,
        rate == 96_000 ==> following_rate(rate) == 44_100,
        following_rate(rate) == 44_100 || following_rate(rate) == 48_000 || following_rate(rate)
            == 88_200 || following_rate(rate) == 96_000,
        SpectrumMode::RealtimePlayback.following() is SelectionAverage,
        SpectrumMode::SelectionAverage.following() is SelectionPeak,
        SpectrumSmoothing::Off.following() is SixthOctave,
{
}

/// A control is offered where there is something for it: transients, a tempo, a
/// processor, a preview to bypass; the rest are always offered, but for the one
/// that nothing stands behind.
pub proof fn law_a_control_is_offered_where_it_has_something<T>(
    window: AudioToolWindow<T>,
    action: ToolAction,
    available: AvailableModules,
)
    ensures
        action is AddMarkers || action is CreateWarpMarkers || action is Slice ==> (offered(
            window,
            action,
            available,
        ) <==> window.transients@.len() > 0),
        action is UseOriginalBpm || action is AddTempoMarker ==> (offered(
            window,
            action,
            available,
        ) <==> window.bpm@.len() > 0),
        action is ToggleBypass ==> (offered(window, action, available)
            <==> window.session.preview_enabled),
        action is Quantize ==> !offered(window, action, available),
        action matches ToolAction::SelectModule { module } ==> (offered(window, action, available)
            <==> available.has(module)),
        action is Apply || action is Cancel || action is Close || action is Analyze
            || action is LearnNoise || action is TogglePreview || action is ToggleFollow
            || action is TogglePin || action is Cycle || action is SetChannel ==> offered(
            window,
            action,
            available,
        ),
{
}

/// What was found is sent as it was found: the transients as markers, cuts or
/// warp markers of the clip, the best tempo for the clip or where it starts.
pub proof fn law_what_was_found_is_sent<T>(
    before: AudioToolWindow<T>,
    after: AudioToolWindow<T>,
    action: ToolAction,
    inputs: PressInputs<T>,
    timeline: TimelineState<T>,
    effects: Seq<ToolEffect<T>>,
)
    requires
        carried_out(before, after, action, inputs, timeline, effects),
        action is AddMarkers || action is Slice || action is UseOriginalBpm
            || action is AddTempoMarker || action is CreateWarpMarkers,
    ensures
        effects.len() == 1,
        effects[0] matches ToolEffect::Send { command } && {
            let clip_id = before.session.target.clip_id;
            &&& action is AddMarkers ==> (command matches AudioToolCommand::AddMarkers {
                beats,
                ..
            } && beats == inputs.marker_beats)
            &&& action is Slice ==> command == (AudioToolCommand::<T>::SliceClip {
                clip_id,
                beats: inputs.slice_beats,
            })
            &&& action is UseOriginalBpm ==> command == (AudioToolCommand::<T>::UseOriginalBpm {
                clip_id,
                bpm: before.bpm@[0].bpm,
            })
            &&& action is AddTempoMarker ==> (command matches AudioToolCommand::AddTempoPoint {
                beat,
                bpm,
            } && bpm == before.bpm@[0].bpm && match timeline.place_of(clip_id@) {
                Some(place) => beat == timeline.clip_at(place).start_beat,
                None => beat == inputs.origin,
            })
            &&& action is CreateWarpMarkers ==> (command matches AudioToolCommand::AddWarpMarkers {
                clip_id: warped,
                frames,
            } && warped == clip_id && frames@.len() == before.transients@.len() && forall|i: int|
                0 <= i < frames@.len() ==> #[trigger] frames@[i]
                    == before.transients@[i].source_frame)
        },
{
}

/// Work that a control starts is asked for: learning, analysing, closing.
pub proof fn law_work_is_asked_for<T>(
    before: AudioToolWindow<T>,
    after: AudioToolWindow<T>,
    action: ToolAction,
    inputs: PressInputs<T>,
    timeline: TimelineState<T>,
    effects: Seq<ToolEffect<T>>,
)
    requires
        carried_out(before, after, action, inputs, timeline, effects),
    ensures
        action is LearnNoise ==> effects.len() == 1 && effects[0] is LearnNoise && after.status@
            == "Learning noise profile…"@,
        action is Close ==> effects.len() == 1 && effects[0] is CloseWindow,
        action is Analyze ==> effects.len() == 1 && effects[0] is Analyze && after.status@
            == "Analyzing…"@ && after.session.analyzing,
        !(action is LearnNoise || action is Analyze || action is Apply) ==> after.status@
            == before.status@,
{
}

// ------------------------------------------------------------------ windows

/// A window stays if and only if it is still open, and what stays keeps its
/// order.
pub proof fn law_open_windows_stay<T>(windows: Seq<AudioToolSession<T>>, open: Seq<bool>, i: int)
    requires
        windows.len() == open.len(),
        0 <= i < windows.len(),
        open[i],
    ensures
        still_open(windows, open).contains(windows[i]),
    decreases windows.len(),
{
    let stay = still_open(windows, open);
    let front = still_open(windows.drop_last(), open.drop_last());
    if i == windows.len() - 1 {
        assert(stay[stay.len() - 1] == windows[i]);
    } else {
        law_open_windows_stay(windows.drop_last(), open.drop_last(), i);
        let k = choose|k: int| 0 <= k < front.len() && front[k] == windows.drop_last()[i];
        assert(stay[k] == windows[i]);
    }
}

/// No window stays that was closed: each that stays is one that is open.
pub proof fn law_closed_windows_go<T>(windows: Seq<AudioToolSession<T>>, open: Seq<bool>, k: int)
    requires
        windows.len() == open.len(),
        0 <= k < still_open(windows, open).len(),
    ensures
        exists|i: int|
            k <= i < windows.len() && open[i] && #[trigger] windows[i] == still_open(
                windows,
                open,
            )[k],
    decreases windows.len(),
{
    let stay = still_open(windows, open);
    let fewer = windows.drop_last();
    let front = still_open(fewer, open.drop_last());
    lemma_never_more_stay(fewer, open.drop_last());
    if k < front.len() {
        law_closed_windows_go(fewer, open.drop_last(), k);
        let i = choose|i: int|
            k <= i < fewer.len() && open.drop_last()[i] && #[trigger] fewer[i] == front[k];
        assert(windows[i] == stay[k]);
    } else {
        assert(windows[windows.len() - 1] == stay[k]);
    }
}

proof fn lemma_never_more_stay<T>(windows: Seq<AudioToolSession<T>>, open: Seq<bool>)
    requires
        windows.len() == open.len(),
    ensures
        still_open(windows, open).len() <= windows.len(),
    decreases windows.len(),
{
    if windows.len() > 0 {
        lemma_never_more_stay(windows.drop_last(), open.drop_last());
    }
}

/// A new window of a tool takes the place of the one it had, and of no other.
pub proof fn law_a_new_window_replaces_its_own_tool<T>(
    windows: Seq<AudioToolSession<T>>,
    kind: AudioToolKind,
    i: int,
)
    requires
        0 <= i < windows.len(),
    ensures
        windows[i].tool_kind != kind ==> still_open(
            windows,
            of_other_tools(windows, kind),
        ).contains(windows[i]),
        windows[i].tool_kind == kind ==> !still_open(
            windows,
            of_other_tools(windows, kind),
        ).contains(windows[i]),
{
    let others = of_other_tools(windows, kind);
    let stay = still_open(windows, others);
    if windows[i].tool_kind != kind {
        law_open_windows_stay(windows, others, i);
    } else if stay.contains(windows[i]) {
        let k = choose|k: int| 0 <= k < stay.len() && stay[k] == windows[i];
        law_closed_windows_go(windows, others, k);
        let j = choose|j: int|
            k <= j < windows.len() && others[j] && #[trigger] windows[j] == stay[k];
        assert(windows[j].tool_kind != kind);
    }
}

/// Following and pinning change nothing of a session but the two switches.
pub proof fn law_following_keeps_the_session<T>(session: AudioToolSession<T>)
    ensures
        ({
            let followed = crate::tools::follow_toggled(session);
            let pinned = crate::tools::pin_toggled(session);
            &&& followed.follow_selection == !session.follow_selection
            &&& pinned.pin_target == !session.pin_target
            &&& followed.target == session.target && pinned.target == session.target
            &&& followed.tool_kind == session.tool_kind && pinned.tool_kind == session.tool_kind
            &&& followed.preview_enabled == session.preview_enabled && pinned.preview_enabled
                == session.preview_enabled
            &&& followed.preview_bypassed == session.preview_bypassed && pinned.preview_bypassed
                == session.preview_bypassed
            &&& followed.dirty == session.dirty && pinned.dirty == session.dirty
            &&& followed.analyzing == session.analyzing && pinned.analyzing == session.analyzing
        }),
{
}

/// Resampling starts with the rate next to the source's: up from what is common,
/// down to it from anything above.
pub proof fn law_resampling_starts_with_a_common_rate(rate: u32)
    ensures
        rate <= 44_100 ==> crate::tools::first_resample_rate(rate) == 48_000,
        rate > 44_100 ==> crate::tools::first_resample_rate(rate) == 44_100,
{
}

} // verus!
