//! What the body of each tool, and the footer of its window, show.

use vstd::prelude::*;

use crate::navigator::{AudioRepairModule, AvailableModules};
use crate::text::decimal_text;
use crate::tool_window::Cycle;
use crate::tools::{AudioToolWindow, NormalizeMode, TimePitchMode};

verus! {

/// What a control of a tool window does.
#[derive(Clone, Copy, PartialEq, Eq, Structural, Debug)]
pub enum ToolAction {
    Analyze,
    Cycle { control: Cycle },
    AddMarkers,
    CreateWarpMarkers,
    Slice,
    Quantize,
    UseOriginalBpm,
    AddTempoMarker,
    SetNormalizeMode { mode: NormalizeMode },
    TimeOff,
    TimeStretch,
    PitchUp,
    PitchDown,
    SetChannel { tag: u32 },
    SelectModule { module: AudioRepairModule },
    DenoiseLess,
    DenoiseMore,
    LearnNoise,
    CycleSensitivity,
    CycleHumBase,
    SpectralLess,
    SpectralMore,
    SpectralSilence,
    ToggleFollow,
    TogglePin,
    TogglePreview,
    ToggleBypass,
    Close,
    Cancel,
    Apply,
}

/// An element of a tool window.
pub enum PanelItem {
    Title { label: String, action: ToolAction },
    Row { label: String, value: String },
    Note { text: String },
    Button { label: String, action: ToolAction, enabled: bool, primary: bool },
    Check { label: String, action: ToolAction, enabled: bool, checked: bool },
}

/// An element of a tool window, with its texts as sequences.
pub enum ItemView {
    Title { label: Seq<char>, action: ToolAction },
    Row { label: Seq<char>, value: Seq<char> },
    Note { text: Seq<char> },
    Button { label: Seq<char>, action: ToolAction, enabled: bool, primary: bool },
    Check { label: Seq<char>, action: ToolAction, enabled: bool, checked: bool },
}

impl View for PanelItem {
    type V = ItemView;

    open spec fn view(&self) -> ItemView {
        match *self {
            PanelItem::Title { label, action } => ItemView::Title { label: label@, action },
            PanelItem::Row { label, value } => ItemView::Row { label: label@, value: value@ },
            PanelItem::Note { text } => ItemView::Note { text: text@ },
            PanelItem::Button { label, action, enabled, primary } => ItemView::Button {
                label: label@,
                action,
                enabled,
                primary,
            },
            PanelItem::Check { label, action, enabled, checked } => ItemView::Check {
                label: label@,
                action,
                enabled,
                checked,
            },
        }
    }
}

/// The elements of a window, with their texts as sequences.
pub open spec fn views(items: Seq<PanelItem>) -> Seq<ItemView> {
    items.map_values(|item: PanelItem| item@)
}

/// A row with a label and a value.
pub open spec fn row(label: Seq<char>, value: Seq<char>) -> ItemView {
    ItemView::Row { label, value }
}

/// A line of text.
pub open spec fn note(text: Seq<char>) -> ItemView {
    ItemView::Note { text }
}

/// A button.
pub open spec fn button(label: Seq<char>, action: ToolAction, enabled: bool, primary: bool) -> ItemView {
    ItemView::Button { label, action, enabled, primary }
}

/// A check box.
pub open spec fn check(label: Seq<char>, action: ToolAction, enabled: bool, checked: bool) -> ItemView {
    ItemView::Check { label, action, enabled, checked }
}

/// On or off, as a word.
pub open spec fn on_off(on: bool) -> Seq<char> {
    if on {
        "On"@
    } else {
        "Off"@
    }
}

/// A value, or a dash where there is none.
pub open spec fn or_dash(value: Option<String>) -> Seq<char> {
    match value {
        Some(text) => text@,
        None => "—"@,
    }
}

pub(crate) fn put(items: &mut Vec<PanelItem>, item: PanelItem)
    ensures
        views(final(items)@) == views(old(items)@).push(item@),
{
    let ghost before = items@;
    items.push(item);
    proof {
        assert(views(items@) =~= views(before).push(item@));
    }
}

pub(crate) fn put_row(items: &mut Vec<PanelItem>, label: &str, value: &str)
    ensures
        views(final(items)@) == views(old(items)@).push(row(label@, value@)),
{
    put(items, PanelItem::Row { label: label.to_owned(), value: value.to_owned() });
}

fn put_optional(items: &mut Vec<PanelItem>, label: &str, value: &Option<String>)
    ensures
        views(final(items)@) == views(old(items)@).push(row(label@, or_dash(*value))),
{
    match value {
        Some(text) => put_row(items, label, text),
        None => put_row(items, label, "—"),
    }
}

fn put_note(items: &mut Vec<PanelItem>, text: &str)
    ensures
        views(final(items)@) == views(old(items)@).push(note(text@)),
{
    put(items, PanelItem::Note { text: text.to_owned() });
}

fn put_button(items: &mut Vec<PanelItem>, label: &str, action: ToolAction, enabled: bool, primary: bool)
    ensures
        views(final(items)@) == views(old(items)@).push(button(label@, action, enabled, primary)),
{
    put(items, PanelItem::Button { label: label.to_owned(), action, enabled, primary });
}

fn put_check(items: &mut Vec<PanelItem>, label: &str, action: ToolAction, enabled: bool, checked: bool)
    ensures
        views(final(items)@) == views(old(items)@).push(check(label@, action, enabled, checked)),
{
    put(items, PanelItem::Check { label: label.to_owned(), action, enabled, checked });
}

fn on_off_text(on: bool) -> (text: &'static str)
    ensures
        text@ == on_off(on),
{
    if on {
        "On"
    } else {
        "Off"
    }
}

pub(crate) fn empty_panel() -> (items: Vec<PanelItem>)
    ensures
        views(items@) == Seq::<ItemView>::empty(),
{
    let items: Vec<PanelItem> = Vec::new();
    proof {
        assert(views(items@) =~= Seq::<ItemView>::empty());
    }
    items
}

// ------------------------------------------------------------------ footer

/// The footer of a window: its status, its switches and its buttons. Tools that
/// only analyse have nothing to preview or apply.
pub open spec fn footer_items<T>(window: AudioToolWindow<T>, analysis: bool, progress: Seq<char>) -> Seq<
    ItemView,
> {
    let session = window.session;
    let shared = seq![
        note(
            if session.analyzing {
                progress
            } else {
                window.status@
            },
        ),
        check("Follow Selection"@, ToolAction::ToggleFollow, true, session.follow_selection),
        check("Pin Target"@, ToolAction::TogglePin, true, session.pin_target),
    ];
    if analysis {
        shared + seq![button("Close"@, ToolAction::Close, true, false)]
    } else {
        shared + seq![
            check("Preview"@, ToolAction::TogglePreview, true, session.preview_enabled),
            check(
                "Bypass"@,
                ToolAction::ToggleBypass,
                session.preview_enabled,
                session.preview_bypassed,
            ),
            button("Cancel"@, ToolAction::Cancel, true, false),
            button("Apply"@, ToolAction::Apply, true, true),
        ]
    }
}

// -------------------------------------------------------------------- bars

/// Most bars of the spectrum.
pub const MAX_BARS: usize = 240;

/// How many bars a spectrum is drawn with.
pub open spec fn bar_count(bins: nat) -> nat {
    if bins < 1 {
        1
    } else if bins < MAX_BARS {
        bins
    } else {
        MAX_BARS as nat
    }
}

/// The bins that the bars of a spectrum show, spread over all of them.
pub fn bar_bins(bins: usize) -> (shown: Vec<usize>)
    requires
        bins * MAX_BARS <= usize::MAX,
    ensures
        shown@ == Seq::new(
            bar_count(bins as nat),
            |i: int| (i * bins / bar_count(bins as nat) as int) as usize,
        ),
{
    let wanted: usize = if bins < MAX_BARS { bins } else { MAX_BARS };
    let count: usize = if wanted < 1 { 1 } else { wanted };
    let mut shown: Vec<usize> = Vec::new();
    let mut i: usize = 0;
    while i < count
        invariant
            bins * MAX_BARS <= usize::MAX,
            count == bar_count(bins as nat),
            1 <= count <= MAX_BARS,
            i <= count,
            shown@ == Seq::new(
                i as nat,
                |j: int| (j * bins / bar_count(bins as nat) as int) as usize,
            ),
        decreases count - i,
    {
        assert(i * bins <= bins * MAX_BARS) by (nonlinear_arith)
            requires
                i < MAX_BARS,
        ;
        shown.push(i * bins / count);
        i += 1;
    }
    shown
}

/// Every bar shows a bin of the spectrum, unless there is none.
pub proof fn law_bars_show_bins_of_the_spectrum(bins: nat, i: int)
    requires
        bins > 0,
        0 <= i < bar_count(bins),
    ensures
        0 <= i * bins / (bar_count(bins) as int),
        i * bins / (bar_count(bins) as int) < bins,
{
    let count = bar_count(bins) as int;
    let n = bins as int;
    assert(0 <= i * n / count && i * n / count < n) by (nonlinear_arith)
        requires
            0 <= i < count,
            n > 0,
    ;
}

// ------------------------------------------------------------------ bodies

/// The name of a time mode.
pub open spec fn time_mode_text(mode: TimePitchMode) -> Seq<char> {
    match mode {
        TimePitchMode::Off => "Off"@,
        TimePitchMode::Stretch => "Stretch"@,
        TimePitchMode::FitDuration => "Fit Duration"@,
        TimePitchMode::FollowTempo => "Follow Tempo"@,
    }
}

/// The name of a time mode.
pub fn time_mode_name(mode: TimePitchMode) -> (name: &'static str)
    ensures
        name@ == time_mode_text(mode),
{
    match mode {
        TimePitchMode::Off => "Off",
        TimePitchMode::Stretch => "Stretch",
        TimePitchMode::FitDuration => "Fit Duration",
        TimePitchMode::FollowTempo => "Follow Tempo",
    }
}

/// A sample rate in hertz.
pub open spec fn rate_text(rate: u32) -> Seq<char> {
    crate::text::decimal(rate as nat) + " Hz"@
}

fn rate_label(rate: u32) -> (label: String)
    ensures
        label@ == rate_text(rate),
{
    decimal_text(rate as u64).concat(" Hz")
}

/// The spectrum analyzer.
pub open spec fn spectrum_items<T>(window: AudioToolWindow<T>, mode: Seq<char>, fft: Seq<char>, shape: Seq<char>, smoothing: Seq<char>) -> Seq<ItemView> {
    seq![
        row("Mode"@, mode),
        row("FFT"@, fft),
        row("Window"@, shape),
        row("Smoothing"@, smoothing),
        row("Peak Hold"@, on_off(window.peak_hold)),
        row("Range"@, "20 Hz → Nyquist"@),
        button("Cycle Mode"@, ToolAction::Cycle { control: Cycle::SpectrumMode }, true, false),
        button("Cycle FFT"@, ToolAction::Cycle { control: Cycle::FftSize }, true, false),
        button("Cycle Window"@, ToolAction::Cycle { control: Cycle::SpectrumWindow }, true, false),
        button("Cycle Smooth"@, ToolAction::Cycle { control: Cycle::Smoothing }, true, false),
        button(if window.peak_hold { "Peak Hold Off"@ } else { "Peak Hold On"@ }, ToolAction::Cycle { control: Cycle::PeakHold }, true, false),
        button("Analyze"@, ToolAction::Analyze, true, false),
    ]
}

/// The loudness meter.
pub open spec fn loudness_items(momentary: Option<String>, shortterm: Option<String>, integrated: Option<String>, range: Option<String>, true_peak: Option<String>, peak: Option<String>) -> Seq<ItemView> {
    seq![
        row("Momentary"@, or_dash(momentary)),
        row("Short-Term"@, or_dash(shortterm)),
        row("Integrated"@, or_dash(integrated)),
        row("LRA"@, or_dash(range)),
        row("True Peak"@, or_dash(true_peak)),
        row("Peak"@, or_dash(peak)),
        button("Analyze"@, ToolAction::Analyze, true, false),
    ]
}

/// The normaliser.
pub open spec fn normalize_items<T>(window: AudioToolWindow<T>, mode: Seq<char>, peak_target: Seq<char>, true_peak_target: Seq<char>, loudness_target: Seq<char>, peak: Option<String>, lufs: Option<String>, true_peak: Option<String>, gain: Option<String>) -> Seq<ItemView> {
    seq![
        row("Mode"@, mode),
        row("Peak target"@, peak_target),
        row("True Peak target"@, true_peak_target),
        row("Loudness target"@, loudness_target),
        row("Current Peak"@, or_dash(peak)),
        row("LUFS-I"@, or_dash(lufs)),
        row("True Peak"@, or_dash(true_peak)),
        row("Required Gain"@, or_dash(gain)),
        button("Peak"@, ToolAction::SetNormalizeMode { mode: NormalizeMode::Peak }, true, window.normalize_mode == NormalizeMode::Peak),
        button("True Peak"@, ToolAction::SetNormalizeMode { mode: NormalizeMode::TruePeak }, true, window.normalize_mode == NormalizeMode::TruePeak),
        button("Loudness"@, ToolAction::SetNormalizeMode { mode: NormalizeMode::Loudness }, true, window.normalize_mode == NormalizeMode::Loudness),
        button("Analyze"@, ToolAction::Analyze, true, false),
    ]
}

/// The transient detector: its commands need transients, and quantising is not offered yet.
pub open spec fn transient_items<T>(window: AudioToolWindow<T>, sensitivity: Seq<char>, gap: Seq<char>, focus: Seq<char>) -> Seq<ItemView> {
    seq![
        row("Sensitivity"@, sensitivity),
        row("Minimum Gap"@, gap),
        row("Frequency Focus"@, focus),
        row("Results"@, crate::text::decimal(window.transients@.len()) + " transients"@),
        button("Analyze"@, ToolAction::Analyze, true, false),
        button("Add Markers"@, ToolAction::AddMarkers, window.transients@.len() > 0, false),
        button("Create Warp Markers"@, ToolAction::CreateWarpMarkers, window.transients@.len() > 0, false),
        button("Slice"@, ToolAction::Slice, window.transients@.len() > 0, false),
        button("Quantize"@, ToolAction::Quantize, false, false),
    ]
}

/// Time and pitch.
pub open spec fn time_pitch_items<T>(window: AudioToolWindow<T>, ratio: Seq<char>, duration: Seq<char>, original_bpm: Option<String>, semitones: Seq<char>, cents: Seq<char>) -> Seq<ItemView> {
    seq![
        row("Time mode"@, time_mode_text(window.time_mode)),
        row("Ratio"@, ratio),
        row("Target Duration"@, duration),
        row("Original BPM"@, or_dash(original_bpm)),
        row("Semitones"@, semitones),
        row("Cents"@, cents),
        row("Formant"@, "Neutral"@),
        row("Preserve Transients"@, on_off(window.preserve_transients)),
        row("Quality"@, "High"@),
        button("Off"@, ToolAction::TimeOff, true, false),
        button("Stretch"@, ToolAction::TimeStretch, true, false),
        button("+1 st"@, ToolAction::PitchUp, true, false),
        button("−1 st"@, ToolAction::PitchDown, true, false),
    ]
}

/// The resampler.
pub open spec fn resample_items<T>(window: AudioToolWindow<T>) -> Seq<ItemView> {
    seq![
        row("Current"@, rate_text(window.session.target.sample_rate)),
        row("Target"@, rate_text(window.resample_target)),
        row("Quality"@, "High"@),
        row("Mode"@, "Offline Render"@),
        button("Cycle Target Rate"@, ToolAction::Cycle { control: Cycle::ResampleRate }, true, false),
    ]
}

/// The phase analyzer.
pub open spec fn phase_items<T>(window: AudioToolWindow<T>, correlation: Seq<char>) -> Seq<ItemView> {
    seq![
        row("Mode"@, if window.phase_ms { "M/S"@ } else { "L/R"@ }),
        row("Correlation"@, correlation),
        note("−1 ← 0 → +1"@),
        button(if window.phase_ms { "Use L/R"@ } else { "Use M/S"@ }, ToolAction::Cycle { control: Cycle::PhaseMode }, true, false),
    ]
}

/// The offset meter.
pub open spec fn dc_items(left: Seq<char>, right: Seq<char>) -> Seq<ItemView> {
    seq![
        row("Left"@, left),
        row("Right"@, right),
        button("Analyze"@, ToolAction::Analyze, true, false),
    ]
}

/// The spectral processor.
pub open spec fn spectral_items(frames: Option<String>, band: Option<String>, gain: Seq<char>) -> Seq<ItemView> {
    seq![
        row("Time"@, match frames { Some(text) => text@, None => "entire clip"@ }),
        row("Frequency"@, match band { Some(text) => text@, None => "full band"@ }),
        row("Gain"@, gain),
        note("Apply writes a derived WAV via STFT gain."@),
        button("−3 dB"@, ToolAction::SpectralLess, true, false),
        button("+3 dB"@, ToolAction::SpectralMore, true, false),
        button("Silence"@, ToolAction::SpectralSilence, true, false),
    ]
}

/// The spectrogram settings.
pub open spec fn spectrogram_settings_items(fft: Seq<char>, shape: Seq<char>) -> Seq<ItemView> {
    seq![
        row("FFT"@, fft),
        row("Window"@, shape),
        note("These settings drive the Spectrum Analyzer FFT."@),
        button("Cycle FFT"@, ToolAction::Cycle { control: Cycle::FftSize }, true, false),
    ]
}

/// The controls of noise reduction.
pub open spec fn denoise_items<T>(window: AudioToolWindow<T>, reduction: Seq<char>, threshold: Seq<char>) -> Seq<ItemView> {
    seq![
        row("Reduction"@, reduction),
        row("Threshold"@, threshold),
        row("Noise profile"@, if window.learned_noise is Some { "Learned"@ } else { "None"@ }),
        button("−3 dB"@, ToolAction::DenoiseLess, true, false),
        button("+3 dB"@, ToolAction::DenoiseMore, true, false),
        button("Learn Noise Profile"@, ToolAction::LearnNoise, true, false),
    ]
}

/// The controls of click removal.
pub open spec fn declick_items(sensitivity: Seq<char>, width: Seq<char>) -> Seq<ItemView> {
    seq![
        row("Sensitivity"@, sensitivity),
        row("Max Click Width"@, width),
        button("Cycle Sensitivity"@, ToolAction::CycleSensitivity, true, false),
    ]
}

/// The controls of hum removal.
pub open spec fn dehum_items<T>(window: AudioToolWindow<T>, base: Seq<char>, reduction: Seq<char>) -> Seq<ItemView> {
    seq![
        row("Base"@, base),
        row("Harmonics"@, crate::text::decimal(window.dehum.harmonics as nat)),
        row("Reduction"@, reduction),
        button("Cycle 50/60 Hz"@, ToolAction::CycleHumBase, true, false),
    ]
}

/// The modules in the order that the repair panel lists them.
pub open spec fn repair_order() -> Seq<AudioRepairModule> {
    seq![
        AudioRepairModule::Denoise,
        AudioRepairModule::DeClick,
        AudioRepairModule::DeHum,
        AudioRepairModule::DeReverb,
        AudioRepairModule::DeBleed,
        AudioRepairModule::DeFeedback,
        AudioRepairModule::DrumSilencer,
        AudioRepairModule::SpectralRepair,
    ]
}

/// What the buttons of the repair panel call a module.
pub open spec fn module_text(name: Seq<char>, available: bool) -> Seq<char> {
    if available {
        name
    } else {
        name + " (unavailable)"@
    }
}

/// The button of a module; `names` gives what the modules are called, by row,
/// and `available` says whether this one has a processor.
pub open spec fn module_button(
    module: AudioRepairModule,
    selected: AudioRepairModule,
    names: Seq<String>,
    available: bool,
) -> ItemView {
    button(
        module_text(names[crate::navigator::module_row(module)]@, available),
        ToolAction::SelectModule { module },
        available,
        module == selected,
    )
}

/// The texts of the selected repair module's controls.
pub struct RepairTexts {
    pub denoise_reduction: String,
    pub denoise_threshold: String,
    pub click_sensitivity: String,
    pub click_width: String,
    pub hum_base: String,
    pub hum_reduction: String,
}

/// The repair panel: a button per module, then the selected one's controls.
pub open spec fn repair_items<T>(
    window: AudioToolWindow<T>,
    names: Seq<String>,
    available: AvailableModules,
    texts: RepairTexts,
) -> Seq<ItemView> {
    let modules = repair_order().map_values(
        |module: AudioRepairModule|
            module_button(module, window.repair_module, names, available.has(module)),
    );
    modules + match window.repair_module {
        AudioRepairModule::Denoise => denoise_items(
            window,
            texts.denoise_reduction@,
            texts.denoise_threshold@,
        ),
        AudioRepairModule::DeClick => declick_items(
            texts.click_sensitivity@,
            texts.click_width@,
        ),
        AudioRepairModule::DeHum => dehum_items(window, texts.hum_base@, texts.hum_reduction@),
        AudioRepairModule::SpectralRepair => seq![
            note("Use Spectral Processing with a spectral selection."@),
        ],
        _ => seq![note("This module is not available yet."@)],
    }
}

/// The tempo candidates shown: at most three.
pub open spec fn candidate_rows(candidates: Seq<String>) -> Seq<ItemView> {
    let shown = if candidates.len() < 3 {
        candidates.len()
    } else {
        3
    };
    Seq::new(shown, |i: int| row("Candidate"@, candidates[i]@))
}

/// The tempo analysis.
pub open spec fn bpm_items<T>(
    window: AudioToolWindow<T>,
    minimum: Seq<char>,
    maximum: Seq<char>,
    candidates: Seq<String>,
) -> Seq<ItemView> {
    seq![row("Minimum BPM"@, minimum), row("Maximum BPM"@, maximum)] + candidate_rows(candidates)
        + seq![
        button("Analyze"@, ToolAction::Analyze, true, false),
        button(
            "Use as Original BPM"@,
            ToolAction::UseOriginalBpm,
            window.bpm@.len() > 0,
            false,
        ),
        button("Add Tempo Marker"@, ToolAction::AddTempoMarker, window.bpm@.len() > 0, false),
    ]
}

/// The keys shown behind the detected one: at most two.
pub open spec fn alternate_rows(keys: Seq<String>) -> Seq<ItemView> {
    let shown: nat = if keys.len() < 2 {
        0
    } else if keys.len() < 3 {
        1
    } else {
        2
    };
    Seq::new(shown, |i: int| row("Alternate"@, keys[i + 1]@))
}

/// The key analysis; `keys` are the detected keys, the likeliest first.
pub open spec fn key_items(keys: Seq<String>, confidence: Option<String>, user_key: Option<String>) -> Seq<
    ItemView,
> {
    seq![
        row(
            "Detected"@,
            if keys.len() > 0 {
                keys[0]@
            } else {
                "—"@
            },
        ),
        row(
            "Confidence"@,
            if keys.len() > 0 {
                or_dash(confidence)
            } else {
                "—"@
            },
        ),
        row("User key"@, or_dash(user_key)),
    ] + alternate_rows(keys) + seq![button("Analyze"@, ToolAction::Analyze, true, false)]
}

fn put_module(
    items: &mut Vec<PanelItem>,
    module: AudioRepairModule,
    selected: AudioRepairModule,
    names: &Vec<String>,
    available: &AvailableModules,
)
    requires
        names@.len() == crate::navigator::MODULE_COUNT,
    ensures
        views(final(items)@) == views(old(items)@).push(
            module_button(module, selected, names@, available.has(module)),
        ),
{
    let name = &names[crate::navigator::index_of(module)];
    if available.is_available(module) {
        put_button(items, name, ToolAction::SelectModule { module }, true, module == selected);
    } else {
        let label = name.clone().concat(" (unavailable)");
        put_button(items, &label, ToolAction::SelectModule { module }, false, module == selected);
    }
}

/// The items of one list behind those of another.
pub(crate) fn put_all(items: &mut Vec<PanelItem>, more: Vec<PanelItem>)
    ensures
        views(final(items)@) == views(old(items)@) + views(more@),
{
    let ghost before = items@;
    let mut more = more;
    let ghost added = more@;
    items.append(&mut more);
    proof {
        assert(views(items@) =~= views(before) + views(added));
    }
}

impl<T: Copy> AudioToolWindow<T> {
    /// The spectrum analyzer.
    pub fn spectrum_body(&self, mode: &str, fft: &str, shape: &str, smoothing: &str) -> (items: Vec<PanelItem>)
        ensures
            views(items@) == spectrum_items(*self, mode@, fft@, shape@, smoothing@),
    {
        let mut items = empty_panel();
        put_row(&mut items, "Mode", mode);
        put_row(&mut items, "FFT", fft);
        put_row(&mut items, "Window", shape);
        put_row(&mut items, "Smoothing", smoothing);
        put_row(&mut items, "Peak Hold", on_off_text(self.peak_hold));
        put_row(&mut items, "Range", "20 Hz → Nyquist");
        put_button(&mut items, "Cycle Mode", ToolAction::Cycle { control: Cycle::SpectrumMode }, true, false);
        put_button(&mut items, "Cycle FFT", ToolAction::Cycle { control: Cycle::FftSize }, true, false);
        put_button(&mut items, "Cycle Window", ToolAction::Cycle { control: Cycle::SpectrumWindow }, true, false);
        put_button(&mut items, "Cycle Smooth", ToolAction::Cycle { control: Cycle::Smoothing }, true, false);
        put_button(&mut items, if self.peak_hold { "Peak Hold Off" } else { "Peak Hold On" }, ToolAction::Cycle { control: Cycle::PeakHold }, true, false);
        put_button(&mut items, "Analyze", ToolAction::Analyze, true, false);
        items
    }

    /// The loudness meter.
    pub fn loudness_body(&self, momentary: &Option<String>, shortterm: &Option<String>, integrated: &Option<String>, range: &Option<String>, true_peak: &Option<String>, peak: &Option<String>) -> (items: Vec<PanelItem>)
        ensures
            views(items@) == loudness_items(*momentary, *shortterm, *integrated, *range, *true_peak, *peak),
    {
        let mut items = empty_panel();
        put_optional(&mut items, "Momentary", momentary);
        put_optional(&mut items, "Short-Term", shortterm);
        put_optional(&mut items, "Integrated", integrated);
        put_optional(&mut items, "LRA", range);
        put_optional(&mut items, "True Peak", true_peak);
        put_optional(&mut items, "Peak", peak);
        put_button(&mut items, "Analyze", ToolAction::Analyze, true, false);
        items
    }

    /// The normaliser.
    pub fn normalize_body(&self, mode: &str, peak_target: &str, true_peak_target: &str, loudness_target: &str, peak: &Option<String>, lufs: &Option<String>, true_peak: &Option<String>, gain: &Option<String>) -> (items: Vec<PanelItem>)
        ensures
            views(items@) == normalize_items(*self, mode@, peak_target@, true_peak_target@, loudness_target@, *peak, *lufs, *true_peak, *gain),
    {
        let mut items = empty_panel();
        put_row(&mut items, "Mode", mode);
        put_row(&mut items, "Peak target", peak_target);
        put_row(&mut items, "True Peak target", true_peak_target);
        put_row(&mut items, "Loudness target", loudness_target);
        put_optional(&mut items, "Current Peak", peak);
        put_optional(&mut items, "LUFS-I", lufs);
        put_optional(&mut items, "True Peak", true_peak);
        put_optional(&mut items, "Required Gain", gain);
        put_button(&mut items, "Peak", ToolAction::SetNormalizeMode { mode: NormalizeMode::Peak }, true, self.normalize_mode == NormalizeMode::Peak);
        put_button(&mut items, "True Peak", ToolAction::SetNormalizeMode { mode: NormalizeMode::TruePeak }, true, self.normalize_mode == NormalizeMode::TruePeak);
        put_button(&mut items, "Loudness", ToolAction::SetNormalizeMode { mode: NormalizeMode::Loudness }, true, self.normalize_mode == NormalizeMode::Loudness);
        put_button(&mut items, "Analyze", ToolAction::Analyze, true, false);
        items
    }

    /// The transient detector: its commands need transients, and quantising is not offered yet.
    pub fn transient_body(&self, sensitivity: &str, gap: &str, focus: &str) -> (items: Vec<PanelItem>)
        ensures
            views(items@) == transient_items(*self, sensitivity@, gap@, focus@),
    {
        let mut items = empty_panel();
        put_row(&mut items, "Sensitivity", sensitivity);
        put_row(&mut items, "Minimum Gap", gap);
        put_row(&mut items, "Frequency Focus", focus);
        put_row(&mut items, "Results", &decimal_text(self.transients.len() as u64).concat(" transients"));
        put_button(&mut items, "Analyze", ToolAction::Analyze, true, false);
        put_button(&mut items, "Add Markers", ToolAction::AddMarkers, self.transients.len() > 0, false);
        put_button(&mut items, "Create Warp Markers", ToolAction::CreateWarpMarkers, self.transients.len() > 0, false);
        put_button(&mut items, "Slice", ToolAction::Slice, self.transients.len() > 0, false);
        put_button(&mut items, "Quantize", ToolAction::Quantize, false, false);
        items
    }

    /// Time and pitch.
    pub fn time_pitch_body(&self, ratio: &str, duration: &str, original_bpm: &Option<String>, semitones: &str, cents: &str) -> (items: Vec<PanelItem>)
        ensures
            views(items@) == time_pitch_items(*self, ratio@, duration@, *original_bpm, semitones@, cents@),
    {
        let mut items = empty_panel();
        put_row(&mut items, "Time mode", time_mode_name(self.time_mode));
        put_row(&mut items, "Ratio", ratio);
        put_row(&mut items, "Target Duration", duration);
        put_optional(&mut items, "Original BPM", original_bpm);
        put_row(&mut items, "Semitones", semitones);
        put_row(&mut items, "Cents", cents);
        put_row(&mut items, "Formant", "Neutral");
        put_row(&mut items, "Preserve Transients", on_off_text(self.preserve_transients));
        put_row(&mut items, "Quality", "High");
        put_button(&mut items, "Off", ToolAction::TimeOff, true, false);
        put_button(&mut items, "Stretch", ToolAction::TimeStretch, true, false);
        put_button(&mut items, "+1 st", ToolAction::PitchUp, true, false);
        put_button(&mut items, "−1 st", ToolAction::PitchDown, true, false);
        items
    }

    /// The resampler.
    pub fn resample_body(&self) -> (items: Vec<PanelItem>)
        ensures
            views(items@) == resample_items(*self),
    {
        let mut items = empty_panel();
        put_row(&mut items, "Current", &rate_label(self.session.target.sample_rate));
        put_row(&mut items, "Target", &rate_label(self.resample_target));
        put_row(&mut items, "Quality", "High");
        put_row(&mut items, "Mode", "Offline Render");
        put_button(&mut items, "Cycle Target Rate", ToolAction::Cycle { control: Cycle::ResampleRate }, true, false);
        items
    }

    /// The phase analyzer.
    pub fn phase_body(&self, correlation: &str) -> (items: Vec<PanelItem>)
        ensures
            views(items@) == phase_items(*self, correlation@),
    {
        let mut items = empty_panel();
        put_row(&mut items, "Mode", if self.phase_ms { "M/S" } else { "L/R" });
        put_row(&mut items, "Correlation", correlation);
        put_note(&mut items, "−1 ← 0 → +1");
        put_button(&mut items, if self.phase_ms { "Use L/R" } else { "Use M/S" }, ToolAction::Cycle { control: Cycle::PhaseMode }, true, false);
        items
    }

    /// The offset meter.
    pub fn dc_body(&self, left: &str, right: &str) -> (items: Vec<PanelItem>)
        ensures
            views(items@) == dc_items(left@, right@),
    {
        let mut items = empty_panel();
        put_row(&mut items, "Left", left);
        put_row(&mut items, "Right", right);
        put_button(&mut items, "Analyze", ToolAction::Analyze, true, false);
        items
    }

    /// The spectral processor.
    pub fn spectral_body(&self, frames: &Option<String>, band: &Option<String>, gain: &str) -> (items: Vec<PanelItem>)
        ensures
            views(items@) == spectral_items(*frames, *band, gain@),
    {
        let mut items = empty_panel();
        put_row(&mut items, "Time", match frames { Some(text) => text, None => "entire clip" });
        put_row(&mut items, "Frequency", match band { Some(text) => text, None => "full band" });
        put_row(&mut items, "Gain", gain);
        put_note(&mut items, "Apply writes a derived WAV via STFT gain.");
        put_button(&mut items, "−3 dB", ToolAction::SpectralLess, true, false);
        put_button(&mut items, "+3 dB", ToolAction::SpectralMore, true, false);
        put_button(&mut items, "Silence", ToolAction::SpectralSilence, true, false);
        items
    }

    /// The spectrogram settings.
    pub fn spectrogram_settings_body(&self, fft: &str, shape: &str) -> (items: Vec<PanelItem>)
        ensures
            views(items@) == spectrogram_settings_items(fft@, shape@),
    {
        let mut items = empty_panel();
        put_row(&mut items, "FFT", fft);
        put_row(&mut items, "Window", shape);
        put_note(&mut items, "These settings drive the Spectrum Analyzer FFT.");
        put_button(&mut items, "Cycle FFT", ToolAction::Cycle { control: Cycle::FftSize }, true, false);
        items
    }

    /// The controls of noise reduction.
    pub fn denoise_body(&self, reduction: &str, threshold: &str) -> (items: Vec<PanelItem>)
        ensures
            views(items@) == denoise_items(*self, reduction@, threshold@),
    {
        let mut items = empty_panel();
        put_row(&mut items, "Reduction", reduction);
        put_row(&mut items, "Threshold", threshold);
        put_row(&mut items, "Noise profile", if self.learned_noise.is_some() { "Learned" } else { "None" });
        put_button(&mut items, "−3 dB", ToolAction::DenoiseLess, true, false);
        put_button(&mut items, "+3 dB", ToolAction::DenoiseMore, true, false);
        put_button(&mut items, "Learn Noise Profile", ToolAction::LearnNoise, true, false);
        items
    }

    /// The controls of click removal.
    pub fn declick_body(&self, sensitivity: &str, width: &str) -> (items: Vec<PanelItem>)
        ensures
            views(items@) == declick_items(sensitivity@, width@),
    {
        let mut items = empty_panel();
        put_row(&mut items, "Sensitivity", sensitivity);
        put_row(&mut items, "Max Click Width", width);
        put_button(&mut items, "Cycle Sensitivity", ToolAction::CycleSensitivity, true, false);
        items
    }

    /// The controls of hum removal.
    pub fn dehum_body(&self, base: &str, reduction: &str) -> (items: Vec<PanelItem>)
        ensures
            views(items@) == dehum_items(*self, base@, reduction@),
    {
        let mut items = empty_panel();
        put_row(&mut items, "Base", base);
        put_row(&mut items, "Harmonics", &decimal_text(self.dehum.harmonics as u64));
        put_row(&mut items, "Reduction", reduction);
        put_button(&mut items, "Cycle 50/60 Hz", ToolAction::CycleHumBase, true, false);
        items
    }

    /// The repair panel: a button per module, then the selected one's controls.
    pub fn repair_body(
        &self,
        names: &Vec<String>,
        available: &AvailableModules,
        texts: &RepairTexts,
    ) -> (items: Vec<PanelItem>)
        requires
            names@.len() == crate::navigator::MODULE_COUNT,
        ensures
            views(items@) == repair_items(*self, names@, *available, *texts),
    {
        let mut items = empty_panel();
        let selected = self.repair_module;
        put_module(&mut items, AudioRepairModule::Denoise, selected, names, available);
        put_module(&mut items, AudioRepairModule::DeClick, selected, names, available);
        put_module(&mut items, AudioRepairModule::DeHum, selected, names, available);
        put_module(&mut items, AudioRepairModule::DeReverb, selected, names, available);
        put_module(&mut items, AudioRepairModule::DeBleed, selected, names, available);
        put_module(&mut items, AudioRepairModule::DeFeedback, selected, names, available);
        put_module(&mut items, AudioRepairModule::DrumSilencer, selected, names, available);
        put_module(&mut items, AudioRepairModule::SpectralRepair, selected, names, available);
        proof {
            assert(views(items@) =~= repair_order().map_values(
                |module: AudioRepairModule|
                    module_button(module, selected, names@, available.has(module)),
            ));
        }
        let mut controls = empty_panel();
        match selected {
            AudioRepairModule::Denoise => {
                controls = self.denoise_body(&texts.denoise_reduction, &texts.denoise_threshold);
            },
            AudioRepairModule::DeClick => {
                controls = self.declick_body(&texts.click_sensitivity, &texts.click_width);
            },
            AudioRepairModule::DeHum => {
                controls = self.dehum_body(&texts.hum_base, &texts.hum_reduction);
            },
            AudioRepairModule::SpectralRepair => {
                put_note(&mut controls, "Use Spectral Processing with a spectral selection.");
            },
            _ => {
                put_note(&mut controls, "This module is not available yet.");
            },
        }
        put_all(&mut items, controls);
        items
    }

    /// The tempo analysis; `candidates` are the found tempos, the likeliest
    /// first.
    pub fn bpm_body(&self, minimum: &str, maximum: &str, candidates: &Vec<String>) -> (items: Vec<
        PanelItem,
    >)
        ensures
            views(items@) == bpm_items(*self, minimum@, maximum@, candidates@),
    {
        let mut items = empty_panel();
        put_row(&mut items, "Minimum BPM", minimum);
        put_row(&mut items, "Maximum BPM", maximum);
        let ghost head = views(items@);
        let mut i: usize = 0;
        proof {
            assert(head + candidate_rows(candidates@).take(0) =~= head);
        }
        while i < candidates.len() && i < 3
            invariant
                i <= candidates@.len(),
                i <= 3,
                views(items@) == head + candidate_rows(candidates@).take(i as int),
            decreases 3 - i,
        {
            put_row(&mut items, "Candidate", &candidates[i]);
            proof {
                let rows = candidate_rows(candidates@);
                assert(rows.take(i as int + 1) =~= rows.take(i as int).push(rows[i as int]));
                assert(views(items@) =~= head + rows.take(i as int + 1));
            }
            i += 1;
        }
        proof {
            assert(candidate_rows(candidates@).take(i as int) =~= candidate_rows(candidates@));
        }
        let found = self.bpm.len() > 0;
        let mut buttons = empty_panel();
        put_button(&mut buttons, "Analyze", ToolAction::Analyze, true, false);
        put_button(&mut buttons, "Use as Original BPM", ToolAction::UseOriginalBpm, found, false);
        put_button(&mut buttons, "Add Tempo Marker", ToolAction::AddTempoMarker, found, false);
        put_all(&mut items, buttons);
        items
    }

    /// The key analysis; `keys` are the detected keys, the likeliest first.
    pub fn key_body(&self, keys: &Vec<String>, confidence: &Option<String>, user_key: &Option<String>) -> (items:
        Vec<PanelItem>)
        ensures
            views(items@) == key_items(keys@, *confidence, *user_key),
    {
        let mut items = empty_panel();
        if keys.len() > 0 {
            put_row(&mut items, "Detected", &keys[0]);
            put_optional(&mut items, "Confidence", confidence);
        } else {
            put_row(&mut items, "Detected", "—");
            put_row(&mut items, "Confidence", "—");
        }
        put_optional(&mut items, "User key", user_key);
        let ghost head = views(items@);
        let mut alternates = empty_panel();
        if keys.len() > 1 {
            put_row(&mut alternates, "Alternate", &keys[1]);
        }
        if keys.len() > 2 {
            put_row(&mut alternates, "Alternate", &keys[2]);
        }
        proof {
            assert(views(alternates@) =~= alternate_rows(keys@));
        }
        put_all(&mut items, alternates);
        let mut buttons = empty_panel();
        put_button(&mut buttons, "Analyze", ToolAction::Analyze, true, false);
        put_all(&mut items, buttons);
        items
    }

    /// The footer of a window; `progress` is what is said during an analysis.
    pub fn footer(&self, analysis: bool, progress: &str) -> (items: Vec<PanelItem>)
        ensures
            views(items@) == footer_items(*self, analysis, progress@),
    {
        let session = &self.session;
        let mut items = empty_panel();
        if session.analyzing {
            put_note(&mut items, progress);
        } else {
            put_note(&mut items, &self.status);
        }
        put_check(
            &mut items,
            "Follow Selection",
            ToolAction::ToggleFollow,
            true,
            session.follow_selection,
        );
        put_check(&mut items, "Pin Target", ToolAction::TogglePin, true, session.pin_target);
        let mut rest = empty_panel();
        if analysis {
            put_button(&mut rest, "Close", ToolAction::Close, true, false);
        } else {
            put_check(
                &mut rest,
                "Preview",
                ToolAction::TogglePreview,
                true,
                session.preview_enabled,
            );
            put_check(
                &mut rest,
                "Bypass",
                ToolAction::ToggleBypass,
                session.preview_enabled,
                session.preview_bypassed,
            );
            put_button(&mut rest, "Cancel", ToolAction::Cancel, true, false);
            put_button(&mut rest, "Apply", ToolAction::Apply, true, true);
        }
        put_all(&mut items, rest);
        items
    }
}

/// The channel routes as buttons: the chosen one stands out.
pub open spec fn channel_items(chosen: u32, routes: Seq<(u32, String)>) -> Seq<ItemView> {
    Seq::new(
        routes.len(),
        |i: int|
            button(
                routes[i].1@,
                ToolAction::SetChannel { tag: routes[i].0 },
                true,
                routes[i].0 == chosen,
            ),
    )
}

/// The channel routes as buttons: the chosen one stands out.
pub fn channel_body(chosen: u32, routes: &Vec<(u32, String)>) -> (items: Vec<PanelItem>)
    ensures
        views(items@) == channel_items(chosen, routes@),
{
    let mut items = empty_panel();
    let ghost expected = channel_items(chosen, routes@);
    let mut i: usize = 0;
    proof {
        assert(expected.take(0) =~= Seq::<ItemView>::empty());
    }
    while i < routes.len()
        invariant
            i <= routes@.len(),
            expected == channel_items(chosen, routes@),
            views(items@) == expected.take(i as int),
        decreases routes@.len() - i,
    {
        let tag: u32 = routes[i].0;
        put_button(&mut items, &routes[i].1, ToolAction::SetChannel { tag }, true, tag == chosen);
        proof {
            assert(expected.take(i as int + 1) =~= expected.take(i as int).push(
                expected[i as int],
            ));
        }
        i += 1;
    }
    proof {
        assert(expected.take(i as int) =~= expected);
    }
    items
}

// ------------------------------------------------------------------- laws

/// A repair module can be selected if and only if it has a processor, and the
/// selected one is the one that stands out.
pub proof fn law_modules_without_a_processor_cannot_be_selected(
    module: AudioRepairModule,
    selected: AudioRepairModule,
    names: Seq<String>,
    available: AvailableModules,
)
    ensures
        module_button(module, selected, names, available.has(module)) matches ItemView::Button {
            enabled,
            primary,
            ..
        } && enabled == available.has(module) && primary == (module == selected),
{
}

/// Every module has its button in the repair panel.
pub proof fn law_the_repair_panel_lists_every_module(module: AudioRepairModule)
    ensures
        repair_order().len() == crate::navigator::MODULE_COUNT,
        repair_order().contains(module),
{
    let order = repair_order();
    assert(order[0] == AudioRepairModule::Denoise);
    assert(order[1] == AudioRepairModule::DeClick);
    assert(order[2] == AudioRepairModule::DeHum);
    assert(order[3] == AudioRepairModule::DeReverb);
    assert(order[4] == AudioRepairModule::DeBleed);
    assert(order[5] == AudioRepairModule::DeFeedback);
    assert(order[6] == AudioRepairModule::DrumSilencer);
    assert(order[7] == AudioRepairModule::SpectralRepair);
}

/// A window that only analyses offers nothing to apply.
pub proof fn law_analysis_windows_have_nothing_to_apply<T>(
    window: AudioToolWindow<T>,
    progress: Seq<char>,
    i: int,
)
    requires
        0 <= i < footer_items(window, true, progress).len(),
    ensures
        footer_items(window, true, progress)[i] matches ItemView::Button { action, .. } ==> action
            != ToolAction::Apply && action != ToolAction::Cancel,
        footer_items(window, true, progress)[i] matches ItemView::Check { action, .. } ==> action
            != ToolAction::TogglePreview && action != ToolAction::ToggleBypass,
{
}

} // verus!
