//! What a tool window does when it is used.

use vstd::prelude::*;

use crate::navigator::AudioRepairModule;
use crate::preview::{ClipPreviewOverride, DehumParams};
use crate::render::clip_source_window;
use crate::target::AudioToolKind;
use crate::text::decimal_text;
use crate::timeline::TimelineState;
use crate::tools::{
    AnalysisJob, AnalysisResult, AnalysisWork, ApplyStep, AudioToolCommand, AudioToolSession,
    AudioToolWindow, DcOffset, FftSize, NormalizeMode, OfflineTool, PreviewValues, RealtimeTick,
    RenderJob, SpectrumMode, SpectrumSmoothing, SpectrumWindow, TimePitchMode,
    TransientMarker,
};

verus! {

/// A control that goes through its choices one by one.
#[derive(Clone, Copy, PartialEq, Eq, Structural, Debug)]
pub enum Cycle {
    SpectrumMode,
    FftSize,
    SpectrumWindow,
    Smoothing,
    PeakHold,
    PhaseMode,
    ResampleRate,
}

// ------------------------------------------------------------------- model

/// What a tool analyses.
pub open spec fn work_of(kind: AudioToolKind, mode: SpectrumMode) -> AnalysisWork {
    match kind {
        AudioToolKind::SpectrumAnalyzer => AnalysisWork::Spectrum {
            peak: mode == SpectrumMode::SelectionPeak,
        },
        AudioToolKind::Loudness => AnalysisWork::Loudness,
        AudioToolKind::Normalize => AnalysisWork::Loudness,
        AudioToolKind::DcOffset => AnalysisWork::DcOffset,
        AudioToolKind::BpmAnalysis => AnalysisWork::Tempo,
        AudioToolKind::KeyAnalysis => AnalysisWork::Key,
        AudioToolKind::TransientDetector => AnalysisWork::Transients,
        AudioToolKind::PhaseAnalyzer => AnalysisWork::Phase,
        AudioToolKind::SpectralProcessor => AnalysisWork::SpectralRegion,
        _ => AnalysisWork::Nothing,
    }
}

/// The status after an analysis.
pub open spec fn analysis_status<T>(result: Result<AnalysisResult<T>, String>) -> Seq<char> {
    match result {
        Err(error) => error@,
        Ok(AnalysisResult::Transients { transients }) => crate::text::decimal(transients@.len())
            + " transients"@,
        Ok(AnalysisResult::SpectralRegion { text }) => text@,
        Ok(_) => Seq::empty(),
    }
}

/// A window whose analysis has ended.
pub open spec fn settled<T>(window: AudioToolWindow<T>, status: String) -> AudioToolWindow<T> {
    AudioToolWindow {
        session: AudioToolSession { analyzing: false, ..window.session },
        status,
        ..window
    }
}

/// What a window keeps of an analysis.
pub open spec fn kept<T>(
    window: AudioToolWindow<T>,
    result: Result<AnalysisResult<T>, String>,
) -> AudioToolWindow<T> {
    match result {
        Ok(AnalysisResult::Loudness { required_gain_db }) => AudioToolWindow {
            required_gain_db: Some(required_gain_db),
            ..window
        },
        Ok(AnalysisResult::DcOffset { dc }) => AudioToolWindow { dc, ..window },
        Ok(AnalysisResult::Tempo { bpm }) => AudioToolWindow { bpm, ..window },
        Ok(AnalysisResult::Transients { transients }) => AudioToolWindow { transients, ..window },
        _ => window,
    }
}

/// A window with nothing left to apply.
pub open spec fn laid_down<T>(window: AudioToolWindow<T>) -> AudioToolWindow<T> {
    AudioToolWindow {
        session: AudioToolSession { preview_enabled: false, dirty: false, ..window.session },
        ..window
    }
}

/// A window with a control moved on to its next choice.
pub open spec fn cycled_window<T>(window: AudioToolWindow<T>, control: Cycle) -> AudioToolWindow<T> {
    match control {
        Cycle::SpectrumMode => AudioToolWindow {
            spectrum_mode: window.spectrum_mode.following(),
            ..window
        },
        Cycle::FftSize => AudioToolWindow { fft_size: window.fft_size.following(), ..window },
        Cycle::SpectrumWindow => AudioToolWindow {
            spectrum_window: window.spectrum_window.following(),
            ..window
        },
        Cycle::Smoothing => AudioToolWindow { smoothing: window.smoothing.following(), ..window },
        Cycle::PeakHold => AudioToolWindow { peak_hold: !window.peak_hold, ..window },
        Cycle::PhaseMode => AudioToolWindow { phase_ms: !window.phase_ms, ..window },
        Cycle::ResampleRate => AudioToolWindow {
            resample_target: crate::tools::following_rate(window.resample_target),
            ..window
        },
    }
}

/// The pass that applying a window's tool renders, if it renders one.
pub open spec fn render_tool<T>(window: AudioToolWindow<T>, unchanged: bool) -> Option<OfflineTool> {
    match window.session.tool_kind {
        AudioToolKind::Normalize => if window.required_gain_db is Some {
            Some(OfflineTool::Gain)
        } else {
            None
        },
        AudioToolKind::ChannelTools => Some(OfflineTool::Channel),
        AudioToolKind::DcOffset => Some(OfflineTool::RemoveDc),
        AudioToolKind::TimePitch => if unchanged {
            None
        } else {
            Some(OfflineTool::Stretch)
        },
        AudioToolKind::AudioRepair => match window.repair_module {
            AudioRepairModule::DeHum => Some(OfflineTool::DeHum),
            AudioRepairModule::Denoise => if window.learned_noise is Some {
                Some(OfflineTool::Denoise)
            } else {
                None
            },
            AudioRepairModule::DeClick => Some(OfflineTool::DeClick),
            _ => None,
        },
        AudioToolKind::SpectralProcessor => Some(OfflineTool::SpectralGain),
        AudioToolKind::Resample => Some(OfflineTool::Resample),
        _ => None,
    }
}

/// Why a window's tool cannot be applied, if it cannot.
pub open spec fn refusal<T>(window: AudioToolWindow<T>, unchanged: bool) -> Option<Seq<char>> {
    match window.session.tool_kind {
        AudioToolKind::Normalize => if window.required_gain_db is None {
            Some("Analyze first"@)
        } else {
            None
        },
        AudioToolKind::TimePitch => if unchanged {
            Some("Nothing to apply"@)
        } else {
            None
        },
        _ => None,
    }
}

/// The commands that apply a window's tool without a render.
pub open spec fn apply_commands<T>(window: AudioToolWindow<T>, denoise_amount: T) -> Seq<
    AudioToolCommand<T>,
> {
    let clip_id = window.session.target.clip_id;
    let clear = AudioToolCommand::<T>::ClearPreview { clip_id };
    if window.session.tool_kind == AudioToolKind::AudioRepair && window.repair_module
        == AudioRepairModule::Denoise {
        seq![
            AudioToolCommand::MutateClip { clip_id, label: "De-Noise", denoise_amount },
            clear,
        ]
    } else {
        seq![clear]
    }
}

/// The render that applying a window's tool starts.
pub open spec fn render_job<T>(
    window: AudioToolWindow<T>,
    tool: OfflineTool,
    timeline: TimelineState<T>,
) -> RenderJob {
    let target = window.session.target;
    RenderJob {
        tool,
        tool_kind: window.session.tool_kind,
        clip_id: target.clip_id,
        source_path: target.source_path,
        selection: target.time_selection,
        source_window: match timeline.place_of(target.clip_id@) {
            Some(place) => crate::render::stretch_window(timeline.clip_at(place).stretch),
            None => (0u64, 0u64),
        },
        target_rate: if window.session.tool_kind == AudioToolKind::Resample {
            window.resample_target
        } else {
            target.sample_rate
        },
    }
}

/// The preview of a window's controls.
pub open spec fn preview_of<T>(window: AudioToolWindow<T>, values: PreviewValues<T>) -> ClipPreviewOverride<
    T,
> {
    let plain = ClipPreviewOverride {
        clip_id: window.session.target.clip_id,
        extra_gain: None,
        channel: None,
        dc_remove: None,
        dc_left: values.zero,
        dc_right: values.zero,
        dehum: None,
        stretch_ratio: None,
        pitch_semitones: None,
        denoise_amount: None,
        bypass: window.session.preview_bypassed,
    };
    match window.session.tool_kind {
        AudioToolKind::Normalize => ClipPreviewOverride {
            extra_gain: if window.required_gain_db is Some {
                Some(values.gain)
            } else {
                None
            },
            ..plain
        },
        AudioToolKind::ChannelTools => ClipPreviewOverride {
            channel: Some(window.channel),
            ..plain
        },
        AudioToolKind::DcOffset => ClipPreviewOverride {
            dc_remove: Some(true),
            dc_left: window.dc.left,
            dc_right: window.dc.right,
            ..plain
        },
        AudioToolKind::TimePitch => ClipPreviewOverride {
            stretch_ratio: Some(values.stretch_ratio),
            pitch_semitones: Some(values.pitch_semitones),
            ..plain
        },
        AudioToolKind::AudioRepair => match window.repair_module {
            AudioRepairModule::DeHum => ClipPreviewOverride { dehum: Some(window.dehum), ..plain },
            AudioRepairModule::Denoise => ClipPreviewOverride {
                denoise_amount: Some(values.denoise_amount),
                ..plain
            },
            _ => plain,
        },
        _ => plain,
    }
}

/// The command that brings the preview up to date.
pub open spec fn preview_command<T>(window: AudioToolWindow<T>, values: PreviewValues<T>) -> AudioToolCommand<
    T,
> {
    if window.session.preview_enabled {
        AudioToolCommand::Preview { preview: preview_of(window, values) }
    } else {
        AudioToolCommand::ClearPreview { clip_id: window.session.target.clip_id }
    }
}

/// What a realtime tick of a window reads.
pub open spec fn tick_of<T>(window: AudioToolWindow<T>) -> RealtimeTick {
    match window.session.tool_kind {
        AudioToolKind::SpectrumAnalyzer => if window.spectrum_mode == SpectrumMode::RealtimePlayback
            && !window.spectrum_busy {
            RealtimeTick::Spectrum {
                samples: window.fft_size.samples() as usize,
                sample_rate: if window.session.target.sample_rate > 44_100 {
                    window.session.target.sample_rate
                } else {
                    44_100
                },
            }
        } else {
            RealtimeTick::Nothing
        },
        AudioToolKind::PhaseAnalyzer => RealtimeTick::Phase { samples: 2048 },
        _ => RealtimeTick::Nothing,
    }
}

fn copy_optional(text: &Option<String>) -> (copy: Option<String>)
    ensures
        copy == *text,
{
    match text {
        Some(text) => Some(text.clone()),
        None => None,
    }
}

/// The file to read, or what to say when there is none.
pub fn source_or_error(path: Option<String>) -> (source: Result<String, String>)
    ensures
        match path {
            Some(path) => source == Ok::<String, String>(path),
            None => source matches Err(error) && error@ == "clip has no source file"@,
        },
{
    match path {
        Some(path) => Ok(path),
        None => Err("clip has no source file".to_owned()),
    }
}

/// Enough of a realtime block was read to measure a spectrum of it.
pub fn enough_for_spectrum(read: usize, fft_size: FftSize) -> (enough: bool)
    ensures
        enough == (2 * read >= fft_size.samples()),
{
    read >= fft_size.size() / 2
}

/// Enough of a realtime block was read to measure its phase.
pub fn enough_for_phase(read: usize) -> (enough: bool)
    ensures
        enough == (read > 16),
{
    read > 16
}

// ----------------------------------------------------------------- window

impl<T: Copy> AudioToolWindow<T> {
    /// A window that has not analysed anything yet.
    pub fn new(
        session: AudioToolSession<T>,
        normalize_mode: NormalizeMode,
        channel: u32,
        dc: DcOffset<T>,
        dehum: DehumParams<T>,
    ) -> (window: AudioToolWindow<T>)
        ensures
            window.session == session,
            window.status@.len() == 0,
            window.spectrum_mode == SpectrumMode::SelectionAverage,
            window.fft_size == FftSize::N2048,
            window.spectrum_window == SpectrumWindow::Hann,
            window.smoothing == SpectrumSmoothing::Off,
            !window.peak_hold,
            !window.spectrum_busy,
            window.normalize_mode == normalize_mode,
            window.required_gain_db is None,
            window.dc == dc,
            window.bpm@.len() == 0,
            window.transients@.len() == 0,
            window.time_mode == TimePitchMode::Off,
            window.preserve_transients,
            window.channel == channel,
            !window.phase_ms,
            window.resample_target == crate::tools::first_resample_rate(session.target.sample_rate),
            window.repair_module == AudioRepairModule::Denoise,
            window.learned_noise is None,
            window.dehum == dehum,
    {
        let resample_target: u32 = if session.target.sample_rate <= 44_100 { 48_000 } else { 44_100 };
        AudioToolWindow {
            session,
            status: String::new(),
            spectrum_mode: SpectrumMode::SelectionAverage,
            fft_size: FftSize::N2048,
            spectrum_window: SpectrumWindow::Hann,
            smoothing: SpectrumSmoothing::Off,
            peak_hold: false,
            spectrum_busy: false,
            normalize_mode,
            required_gain_db: None,
            dc,
            bpm: Vec::new(),
            transients: Vec::new(),
            time_mode: TimePitchMode::Off,
            preserve_transients: true,
            channel,
            phase_ms: false,
            resample_target,
            repair_module: AudioRepairModule::Denoise,
            learned_noise: None,
            dehum,
        }
    }

    /// What a realtime tick reads.
    pub fn tick_realtime(&self) -> (tick: RealtimeTick)
        ensures
            tick == tick_of(*self),
    {
        match self.session.tool_kind {
            AudioToolKind::SpectrumAnalyzer => {
                if self.spectrum_mode == SpectrumMode::RealtimePlayback && !self.spectrum_busy {
                    let rate: u32 = self.session.target.sample_rate;
                    RealtimeTick::Spectrum {
                        samples: self.fft_size.size(),
                        sample_rate: if rate > 44_100 {
                            rate
                        } else {
                            44_100
                        },
                    }
                } else {
                    RealtimeTick::Nothing
                }
            },
            AudioToolKind::PhaseAnalyzer => RealtimeTick::Phase { samples: 2048 },
            _ => RealtimeTick::Nothing,
        }
    }

    /// Starts to measure a realtime spectrum, when enough was read; says
    /// whether it did.
    pub fn begin_spectrum(&mut self, read: usize) -> (begun: bool)
        ensures
            begun == (2 * read >= old(self).fft_size.samples()),
            *final(self) == if begun {
                AudioToolWindow { spectrum_busy: true, ..*old(self) }
            } else {
                *old(self)
            },
    {
        if enough_for_spectrum(read, self.fft_size) {
            self.spectrum_busy = true;
            true
        } else {
            false
        }
    }

    /// A realtime spectrum has been measured.
    pub fn finish_spectrum(&mut self)
        ensures
            *final(self) == (AudioToolWindow { spectrum_busy: false, ..*old(self) }),
    {
        self.spectrum_busy = false;
    }

    /// Starts to analyse the target.
    pub fn begin_analysis(&mut self) -> (job: AnalysisJob)
        ensures
            job == (AnalysisJob {
                work: work_of(old(self).session.tool_kind, old(self).spectrum_mode),
                source_path: old(self).session.target.source_path,
                selection: old(self).session.target.time_selection,
            }),
            *final(self) == (AudioToolWindow {
                session: AudioToolSession { analyzing: true, ..old(self).session },
                status: final(self).status,
                ..*old(self)
            }),
            final(self).status@ == "Analyzing…"@,
    {
        let work = match self.session.tool_kind {
            AudioToolKind::SpectrumAnalyzer => AnalysisWork::Spectrum {
                peak: self.spectrum_mode == SpectrumMode::SelectionPeak,
            },
            AudioToolKind::Loudness => AnalysisWork::Loudness,
            AudioToolKind::Normalize => AnalysisWork::Loudness,
            AudioToolKind::DcOffset => AnalysisWork::DcOffset,
            AudioToolKind::BpmAnalysis => AnalysisWork::Tempo,
            AudioToolKind::KeyAnalysis => AnalysisWork::Key,
            AudioToolKind::TransientDetector => AnalysisWork::Transients,
            AudioToolKind::PhaseAnalyzer => AnalysisWork::Phase,
            AudioToolKind::SpectralProcessor => AnalysisWork::SpectralRegion,
            _ => AnalysisWork::Nothing,
        };
        self.session.analyzing = true;
        self.status = "Analyzing…".to_owned();
        AnalysisJob {
            work,
            source_path: copy_optional(&self.session.target.source_path),
            selection: self.session.target.time_selection,
        }
    }

    fn settle(&mut self, status: String)
        ensures
            *final(self) == settled(*old(self), status),
    {
        self.session.analyzing = false;
        self.status = status;
    }

    fn keep(&mut self, found: AnalysisResult<T>) -> (status: String)
        ensures
            status@ == analysis_status(Ok::<AnalysisResult<T>, String>(found)),
            *final(self) == kept(*old(self), Ok::<AnalysisResult<T>, String>(found)),
    {
        match found {
            AnalysisResult::Loudness { required_gain_db } => {
                self.required_gain_db = Some(required_gain_db);
                String::new()
            },
            AnalysisResult::DcOffset { dc } => {
                self.dc = dc;
                String::new()
            },
            AnalysisResult::Tempo { bpm } => {
                self.bpm = bpm;
                String::new()
            },
            AnalysisResult::Transients { transients } => {
                let status = decimal_text(transients.len() as u64).concat(" transients");
                self.transients = transients;
                status
            },
            AnalysisResult::SpectralRegion { text } => text,
            AnalysisResult::Plotted => String::new(),
        }
    }

    /// Takes the result of an analysis.
    pub fn finish_analysis(&mut self, result: Result<AnalysisResult<T>, String>)
        ensures
            final(self).status@ == analysis_status(result),
            *final(self) == settled(kept(*old(self), result), final(self).status),
    {
        match result {
            Ok(found) => {
                let status = self.keep(found);
                self.settle(status);
            },
            Err(error) => {
                self.settle(error);
            },
        }
    }

    /// Starts to learn a noise profile.
    pub fn begin_learning(&mut self)
        ensures
            *final(self) == (AudioToolWindow { status: final(self).status, ..*old(self) }),
            final(self).status@ == "Learning noise profile…"@,
    {
        self.status = "Learning noise profile…".to_owned();
    }

    /// Takes a learned noise profile, or the reason why there is none.
    pub fn finish_learning(&mut self, result: Result<Vec<T>, String>)
        ensures
            match result {
                Ok(profile) => {
                    &&& final(self).status@ == "Noise profile learned"@
                    &&& *final(self) == (AudioToolWindow {
                        learned_noise: Some(profile),
                        status: final(self).status,
                        ..*old(self)
                    })
                },
                Err(error) => *final(self) == (AudioToolWindow { status: error, ..*old(self) }),
            },
    {
        match result {
            Ok(profile) => {
                self.learned_noise = Some(profile);
                self.status = "Noise profile learned".to_owned();
            },
            Err(error) => {
                self.status = error;
            },
        }
    }

    /// The command that brings the preview up to date.
    pub fn emit_preview(&self, values: &PreviewValues<T>) -> (command: AudioToolCommand<T>)
        ensures
            command == preview_command(*self, *values),
    {
        let clip_id = self.session.target.clip_id.clone();
        if !self.session.preview_enabled {
            return AudioToolCommand::ClearPreview { clip_id };
        }
        let mut preview = ClipPreviewOverride::identity(clip_id, values.zero);
        preview.bypass = self.session.preview_bypassed;
        match self.session.tool_kind {
            AudioToolKind::Normalize => {
                if self.required_gain_db.is_some() {
                    preview.extra_gain = Some(values.gain);
                }
            },
            AudioToolKind::ChannelTools => {
                preview.channel = Some(self.channel);
            },
            AudioToolKind::DcOffset => {
                preview.dc_remove = Some(true);
                preview.dc_left = self.dc.left;
                preview.dc_right = self.dc.right;
            },
            AudioToolKind::TimePitch => {
                preview.stretch_ratio = Some(values.stretch_ratio);
                preview.pitch_semitones = Some(values.pitch_semitones);
            },
            AudioToolKind::AudioRepair => {
                match self.repair_module {
                    AudioRepairModule::DeHum => {
                        preview.dehum = Some(self.dehum);
                    },
                    AudioRepairModule::Denoise => {
                        preview.denoise_amount = Some(values.denoise_amount);
                    },
                    _ => {},
                }
            },
            _ => {},
        }
        AudioToolCommand::Preview { preview }
    }

    /// Turns the preview on or off.
    pub fn toggle_preview(&mut self, values: &PreviewValues<T>) -> (command: AudioToolCommand<T>)
        ensures
            *final(self) == (AudioToolWindow {
                session: AudioToolSession {
                    preview_enabled: !old(self).session.preview_enabled,
                    ..old(self).session
                },
                ..*old(self)
            }),
            command == preview_command(*final(self), *values),
    {
        self.session.preview_enabled = !self.session.preview_enabled;
        self.emit_preview(values)
    }

    /// Bypasses the preview, or hears it again.
    pub fn toggle_bypass(&mut self, values: &PreviewValues<T>) -> (command: AudioToolCommand<T>)
        ensures
            *final(self) == (AudioToolWindow {
                session: AudioToolSession {
                    preview_bypassed: !old(self).session.preview_bypassed,
                    ..old(self).session
                },
                ..*old(self)
            }),
            command == preview_command(*final(self), *values),
    {
        self.session.preview_bypassed = !self.session.preview_bypassed;
        self.emit_preview(values)
    }

    fn offline_tool(&self, unchanged: bool) -> (tool: Option<OfflineTool>)
        ensures
            tool == render_tool(*self, unchanged),
    {
        match self.session.tool_kind {
            AudioToolKind::Normalize => if self.required_gain_db.is_some() {
                Some(OfflineTool::Gain)
            } else {
                None
            },
            AudioToolKind::ChannelTools => Some(OfflineTool::Channel),
            AudioToolKind::DcOffset => Some(OfflineTool::RemoveDc),
            AudioToolKind::TimePitch => if unchanged {
                None
            } else {
                Some(OfflineTool::Stretch)
            },
            AudioToolKind::AudioRepair => match self.repair_module {
                AudioRepairModule::DeHum => Some(OfflineTool::DeHum),
                AudioRepairModule::Denoise => if self.learned_noise.is_some() {
                    Some(OfflineTool::Denoise)
                } else {
                    None
                },
                AudioRepairModule::DeClick => Some(OfflineTool::DeClick),
                _ => None,
            },
            AudioToolKind::SpectralProcessor => Some(OfflineTool::SpectralGain),
            AudioToolKind::Resample => Some(OfflineTool::Resample),
            _ => None,
        }
    }

    fn render_job_for(&self, tool: OfflineTool, timeline: &TimelineState<T>) -> (job: RenderJob)
        ensures
            job == render_job(*self, tool, *timeline),
    {
        let target = &self.session.target;
        RenderJob {
            tool,
            tool_kind: self.session.tool_kind,
            clip_id: target.clip_id.clone(),
            source_path: copy_optional(&target.source_path),
            selection: target.time_selection,
            source_window: clip_source_window(timeline, &target.clip_id),
            target_rate: if self.session.tool_kind == AudioToolKind::Resample {
                self.resample_target
            } else {
                target.sample_rate
            },
        }
    }

    fn refusal_text(&self, unchanged: bool) -> (reason: Option<&'static str>)
        ensures
            match reason {
                Some(text) => refusal(*self, unchanged) == Some(text@),
                None => refusal(*self, unchanged) is None,
            },
    {
        match self.session.tool_kind {
            AudioToolKind::Normalize => if self.required_gain_db.is_none() {
                Some("Analyze first")
            } else {
                None
            },
            AudioToolKind::TimePitch => if unchanged {
                Some("Nothing to apply")
            } else {
                None
            },
            _ => None,
        }
    }

    fn lay_down(&mut self)
        ensures
            *final(self) == laid_down(*old(self)),
    {
        self.session.preview_enabled = false;
        self.session.dirty = false;
    }

    fn commands_to_apply(&self, denoise_amount: T) -> (commands: Vec<AudioToolCommand<T>>)
        ensures
            commands@ == apply_commands(*self, denoise_amount),
    {
        let mut commands: Vec<AudioToolCommand<T>> = Vec::new();
        if self.session.tool_kind == AudioToolKind::AudioRepair && self.repair_module
            == AudioRepairModule::Denoise {
            commands.push(
                AudioToolCommand::MutateClip {
                    clip_id: self.session.target.clip_id.clone(),
                    label: "De-Noise",
                    denoise_amount,
                },
            );
        }
        commands.push(
            AudioToolCommand::ClearPreview { clip_id: self.session.target.clip_id.clone() },
        );
        commands
    }

    /// Applies the tool: a render, or commands, or neither when there is
    /// nothing to apply. `unchanged` says whether the time and pitch controls
    /// leave the clip as it is.
    pub fn apply(&mut self, timeline: &TimelineState<T>, denoise_amount: T, unchanged: bool) -> (step:
        ApplyStep<T>)
        ensures
            match (refusal(*old(self), unchanged), render_tool(*old(self), unchanged)) {
                (Some(reason), _) => {
                    &&& step is Refused
                    &&& final(self).status@ == reason
                    &&& *final(self) == (AudioToolWindow { status: final(self).status, ..*old(self) })
                },
                (None, Some(tool)) => {
                    &&& step == (ApplyStep::<T>::Render {
                        job: render_job(*old(self), tool, *timeline),
                    })
                    &&& final(self).status@ == "Rendering…"@
                    &&& *final(self) == (AudioToolWindow { status: final(self).status, ..*old(self) })
                },
                (None, None) => {
                    &&& step matches ApplyStep::Dispatch { commands } && commands@
                        == apply_commands(*old(self), denoise_amount)
                    &&& *final(self) == laid_down(*old(self))
                },
            },
    {
        if let Some(reason) = self.refusal_text(unchanged) {
            self.status = reason.to_owned();
            return ApplyStep::Refused;
        }
        if let Some(tool) = self.offline_tool(unchanged) {
            let job = self.render_job_for(tool, timeline);
            self.status = "Rendering…".to_owned();
            return ApplyStep::Render { job };
        }
        let commands = self.commands_to_apply(denoise_amount);
        self.lay_down();
        ApplyStep::Dispatch { commands }
    }

    /// Takes the result of a render: the file it wrote, or why it failed.
    pub fn finish_render(&mut self, clip_id: String, target_rate: u32, result: Result<
        String,
        String,
    >) -> (commands: Vec<AudioToolCommand<T>>)
        ensures
            match result {
                Ok(path) => {
                    &&& commands@ == seq![
                        AudioToolCommand::<T>::ReplaceSource {
                            clip_id,
                            path,
                            sample_rate: target_rate,
                        },
                        AudioToolCommand::<T>::ClearPreview { clip_id },
                    ]
                    &&& final(self).status@ == "Applied"@
                    &&& *final(self) == (AudioToolWindow { status: final(self).status, ..*old(self) })
                },
                Err(error) => {
                    &&& commands@.len() == 0
                    &&& *final(self) == (AudioToolWindow { status: error, ..*old(self) })
                },
            },
    {
        let mut commands: Vec<AudioToolCommand<T>> = Vec::new();
        match result {
            Ok(path) => {
                commands.push(
                    AudioToolCommand::ReplaceSource {
                        clip_id: clip_id.clone(),
                        path,
                        sample_rate: target_rate,
                    },
                );
                self.status = "Applied".to_owned();
                commands.push(AudioToolCommand::ClearPreview { clip_id });
            },
            Err(error) => {
                self.status = error;
            },
        }
        commands
    }

    /// Gives up: the preview goes, and nothing is left to apply.
    pub fn cancel(&mut self) -> (command: AudioToolCommand<T>)
        ensures
            command == (AudioToolCommand::<T>::ClearPreview {
                clip_id: old(self).session.target.clip_id,
            }),
            *final(self) == laid_down(*old(self)),
    {
        self.lay_down();
        AudioToolCommand::ClearPreview { clip_id: self.session.target.clip_id.clone() }
    }

    /// Moves a control on to its next choice.
    pub fn cycle(&mut self, control: Cycle)
        ensures
            *final(self) == cycled_window(*old(self), control),
    {
        match control {
            Cycle::SpectrumMode => {
                self.spectrum_mode = self.spectrum_mode.cycled();
            },
            Cycle::FftSize => {
                self.fft_size = self.fft_size.cycled();
            },
            Cycle::SpectrumWindow => {
                self.spectrum_window = self.spectrum_window.cycled();
            },
            Cycle::Smoothing => {
                self.smoothing = self.smoothing.cycled();
            },
            Cycle::PeakHold => {
                self.peak_hold = !self.peak_hold;
            },
            Cycle::PhaseMode => {
                self.phase_ms = !self.phase_ms;
            },
            Cycle::ResampleRate => {
                self.resample_target = if self.resample_target == 44_100 {
                    48_000
                } else if self.resample_target == 48_000 {
                    88_200
                } else if self.resample_target == 88_200 {
                    96_000
                } else {
                    44_100
                };
            },
        }
    }

    /// The command that turns the transients into markers; `beats` gives where
    /// they fall.
    pub fn add_transient_markers(&self, beats: Vec<T>) -> (command: Option<AudioToolCommand<T>>)
        ensures
            command == if self.transients@.len() > 0 {
                Some(AudioToolCommand::<T>::AddMarkers { beats, label: "Add Transient Markers" })
            } else {
                None
            },
    {
        if self.transients.len() == 0 {
            return None;
        }
        Some(AudioToolCommand::AddMarkers { beats, label: "Add Transient Markers" })
    }

    /// The command that turns the transients into warp markers.
    pub fn add_warp_markers(&self) -> (command: Option<AudioToolCommand<T>>)
        ensures
            command is Some == (self.transients@.len() > 0),
            command matches Some(command) ==> command matches AudioToolCommand::AddWarpMarkers {
                clip_id,
                frames,
            } && clip_id == self.session.target.clip_id && frames@ == self.transients@.map_values(
                |marker: TransientMarker<T>| marker.source_frame,
            ),
    {
        if self.transients.len() == 0 {
            return None;
        }
        let mut frames: Vec<u64> = Vec::new();
        let mut i: usize = 0;
        while i < self.transients.len()
            invariant
                i <= self.transients@.len(),
                frames@ == self.transients@.take(i as int).map_values(
                    |marker: TransientMarker<T>| marker.source_frame,
                ),
            decreases self.transients@.len() - i,
        {
            frames.push(self.transients[i].source_frame);
            proof {
                assert(frames@ =~= self.transients@.take(i as int + 1).map_values(
                    |marker: TransientMarker<T>| marker.source_frame,
                ));
            }
            i += 1;
        }
        proof {
            assert(self.transients@.take(i as int) =~= self.transients@);
        }
        Some(
            AudioToolCommand::AddWarpMarkers {
                clip_id: self.session.target.clip_id.clone(),
                frames,
            },
        )
    }

    /// The command that cuts the clip at the transients; `beats` gives where
    /// they fall.
    pub fn slice_at_transients(&self, beats: Vec<T>) -> (command: Option<AudioToolCommand<T>>)
        ensures
            command == if self.transients@.len() > 0 {
                Some(
                    AudioToolCommand::<T>::SliceClip {
                        clip_id: self.session.target.clip_id,
                        beats,
                    },
                )
            } else {
                None
            },
    {
        if self.transients.len() == 0 {
            return None;
        }
        Some(
            AudioToolCommand::SliceClip { clip_id: self.session.target.clip_id.clone(), beats },
        )
    }

    /// The command that takes the best tempo over as the clip's own.
    pub fn use_original_bpm(&self) -> (command: Option<AudioToolCommand<T>>)
        ensures
            command == if self.bpm@.len() > 0 {
                Some(
                    AudioToolCommand::<T>::UseOriginalBpm {
                        clip_id: self.session.target.clip_id,
                        bpm: self.bpm@[0].bpm,
                    },
                )
            } else {
                None
            },
    {
        if self.bpm.len() == 0 {
            return None;
        }
        Some(
            AudioToolCommand::UseOriginalBpm {
                clip_id: self.session.target.clip_id.clone(),
                bpm: self.bpm[0].bpm,
            },
        )
    }

    /// The command that puts the best tempo on the tempo track: where the clip
    /// starts, or at `origin` when the clip is gone.
    pub fn add_tempo_point(&self, timeline: &TimelineState<T>, origin: T) -> (command: Option<
        AudioToolCommand<T>,
    >)
        ensures
            command == if self.bpm@.len() > 0 {
                Some(
                    AudioToolCommand::<T>::AddTempoPoint {
                        beat: match timeline.place_of(self.session.target.clip_id@) {
                            Some(place) => timeline.clip_at(place).start_beat,
                            None => origin,
                        },
                        bpm: self.bpm@[0].bpm,
                    },
                )
            } else {
                None
            },
    {
        if self.bpm.len() == 0 {
            return None;
        }
        let beat = match timeline.find_clip(&self.session.target.clip_id) {
            Some((_, clip)) => clip.start_beat,
            None => origin,
        };
        Some(AudioToolCommand::AddTempoPoint { beat, bpm: self.bpm[0].bpm })
    }

    /// Emits an engine preview only for repair modules that the engine can
    /// apply, and only while previews are on.
    pub fn emit_repair_preview(&self, values: &PreviewValues<T>) -> (command: Option<
        AudioToolCommand<T>,
    >)
        ensures
            command == if self.session.preview_enabled && auditioned(self.repair_module) {
                Some(preview_command(*self, *values))
            } else {
                None
            },
    {
        if self.session.preview_enabled && has_engine_audition(self.repair_module) {
            Some(self.emit_preview(values))
        } else {
            None
        }
    }
}

/// Whether the engine can audition a repair module.
pub open spec fn auditioned(module: AudioRepairModule) -> bool {
    module == AudioRepairModule::Denoise || module == AudioRepairModule::DeHum
}

/// Modules that the engine can audition through the realtime clip preview. The
/// others are offline only.
pub fn has_engine_audition(module: AudioRepairModule) -> (auditions: bool)
    ensures
        auditions == auditioned(module),
{
    match module {
        AudioRepairModule::Denoise | AudioRepairModule::DeHum => true,
        _ => false,
    }
}

// ------------------------------------------------------------------- laws

/// After either switch is used, a window follows the selection or pins its
/// target, never both and never neither.
pub proof fn law_following_and_pinning_exclude_each_other<T>(session: AudioToolSession<T>)
    ensures
        crate::tools::follow_toggled(session).follow_selection != crate::tools::follow_toggled(
            session,
        ).pin_target,
        crate::tools::pin_toggled(session).follow_selection != crate::tools::pin_toggled(
            session,
        ).pin_target,
{
}

/// A refused tool renders nothing.
pub proof fn law_a_refused_tool_renders_nothing<T>(window: AudioToolWindow<T>, unchanged: bool)
    ensures
        refusal(window, unchanged) is Some ==> render_tool(window, unchanged) is None,
{
}

/// Whatever a window does without a render, it takes its preview back.
pub proof fn law_applying_takes_the_preview_back<T>(window: AudioToolWindow<T>, denoise_amount: T)
    ensures
        apply_commands(window, denoise_amount).last() == (AudioToolCommand::<T>::ClearPreview {
            clip_id: window.session.target.clip_id,
        }),
{
}

/// A preview is always for the window's own clip, and bypassed when the window
/// says so.
pub proof fn law_a_preview_is_for_the_target<T>(window: AudioToolWindow<T>, values: PreviewValues<T>)
    ensures
        preview_of(window, values).clip_id == window.session.target.clip_id,
        preview_of(window, values).bypass == window.session.preview_bypassed,
{
}

/// A preview touches at most what its own tool is about.
pub proof fn law_a_preview_touches_only_its_tool<T>(
    window: AudioToolWindow<T>,
    values: PreviewValues<T>,
)
    ensures
        ({
            let preview = preview_of(window, values);
            let kind = window.session.tool_kind;
            &&& preview.extra_gain is Some ==> kind == AudioToolKind::Normalize
            &&& preview.channel is Some ==> kind == AudioToolKind::ChannelTools
            &&& preview.dc_remove is Some ==> kind == AudioToolKind::DcOffset
            &&& preview.stretch_ratio is Some ==> kind == AudioToolKind::TimePitch
            &&& preview.pitch_semitones is Some ==> kind == AudioToolKind::TimePitch
            &&& preview.dehum is Some ==> kind == AudioToolKind::AudioRepair
            &&& preview.denoise_amount is Some ==> kind == AudioToolKind::AudioRepair
        }),
{
}

/// The choices of every control come round again.
pub proof fn law_cycles_come_round(
    mode: SpectrumMode,
    size: FftSize,
    shape: SpectrumWindow,
    smoothing: SpectrumSmoothing,
)
    ensures
        mode.following().following().following().following() == mode,
        size.following().following().following().following().following().following() == size,
        shape.following().following() == shape,
        smoothing.following().following().following() == smoothing,
{
}

/// Resampling starts out at another rate than the source's, every rate leads to
/// another, and the rates on offer come round again.
pub proof fn law_resampling_offers_another_rate(rate: u32)
    ensures
        crate::tools::first_resample_rate(rate) != rate,
        crate::tools::following_rate(rate) != rate,
        crate::tools::following_rate(
            crate::tools::following_rate(
                crate::tools::following_rate(crate::tools::following_rate(44_100)),
            ),
        ) == 44_100,
{
}

/// The engine can audition noise reduction and hum removal, and no other module.
pub proof fn law_two_modules_can_be_heard_live(module: AudioRepairModule)
    ensures
        auditioned(module) <==> module is Denoise || module is DeHum,
{
}

} // verus!
