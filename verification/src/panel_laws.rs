//! What the windows of the tools promise to show.

use vstd::prelude::*;

use crate::navigator::AudioRepairModule;
use crate::panel::{
    bar_count, footer_items, module_button, on_off, or_dash, rate_text, time_mode_text, ItemView,
    ToolAction,
};
use crate::tool_window::Cycle;
use crate::tools::{AudioToolWindow, NormalizeMode, TimePitchMode};
use crate::window_items::{body_items, header_items, window_items, ToolTexts};

verus! {

/// Whether a value stands beside a label.
pub open spec fn beside(items: Seq<ItemView>, label: Seq<char>, value: Seq<char>) -> bool {
    items.contains(ItemView::Row { label, value })
}

/// Whether a control is offered under a label, for use or not, and stands out or
/// not.
pub open spec fn under(
    items: Seq<ItemView>,
    label: Seq<char>,
    action: ToolAction,
    enabled: bool,
    primary: bool,
) -> bool {
    items.contains(ItemView::Button { label, action, enabled, primary })
}

/// Whether a switch stands under a label, on or off, and can be used or not.
pub open spec fn switched(
    items: Seq<ItemView>,
    label: Seq<char>,
    action: ToolAction,
    enabled: bool,
    checked: bool,
) -> bool {
    items.contains(ItemView::Check { label, action, enabled, checked })
}

/// The spectrum analyzer shows its settings and offers each to be changed.
pub proof fn law_the_spectrum_analyzer_shows_its_settings<T>(window: AudioToolWindow<T>, texts: ToolTexts)
    requires
        window.session.tool_kind is SpectrumAnalyzer,
    ensures
        ({
            let items = body_items(window, texts);
            &&& items.len() == 12
            &&& beside(items, "Mode"@, texts.spectrum_mode@)
            &&& beside(items, "FFT"@, texts.fft_size@)
            &&& beside(items, "Window"@, texts.spectrum_window@)
            &&& beside(items, "Smoothing"@, texts.smoothing@)
            &&& beside(items, "Peak Hold"@, on_off(window.peak_hold))
            &&& beside(items, "Range"@, "20 Hz → Nyquist"@)
            &&& under(items, "Cycle Mode"@, ToolAction::Cycle { control: Cycle::SpectrumMode }, true, false)
            &&& under(items, "Cycle FFT"@, ToolAction::Cycle { control: Cycle::FftSize }, true, false)
            &&& under(items, "Cycle Window"@, ToolAction::Cycle { control: Cycle::SpectrumWindow }, true, false)
            &&& under(items, "Cycle Smooth"@, ToolAction::Cycle { control: Cycle::Smoothing }, true, false)
            &&& under(items, if window.peak_hold { "Peak Hold Off"@ } else { "Peak Hold On"@ }, ToolAction::Cycle { control: Cycle::PeakHold }, true, false)
            &&& under(items, "Analyze"@, ToolAction::Analyze, true, false)
        }),
{
    let items = body_items(window, texts);
    assert(items[0] == (ItemView::Row { label: "Mode"@, value: texts.spectrum_mode@ }));
    assert(items[1] == (ItemView::Row { label: "FFT"@, value: texts.fft_size@ }));
    assert(items[2] == (ItemView::Row { label: "Window"@, value: texts.spectrum_window@ }));
    assert(items[3] == (ItemView::Row { label: "Smoothing"@, value: texts.smoothing@ }));
    assert(items[4] == (ItemView::Row { label: "Peak Hold"@, value: on_off(window.peak_hold) }));
    assert(items[5] == (ItemView::Row { label: "Range"@, value: "20 Hz → Nyquist"@ }));
    assert(items[6] == (ItemView::Button {
        label: "Cycle Mode"@,
        action: ToolAction::Cycle { control: Cycle::SpectrumMode },
        enabled: true,
        primary: false,
    }));
    assert(items[7] == (ItemView::Button {
        label: "Cycle FFT"@,
        action: ToolAction::Cycle { control: Cycle::FftSize },
        enabled: true,
        primary: false,
    }));
    assert(items[8] == (ItemView::Button {
        label: "Cycle Window"@,
        action: ToolAction::Cycle { control: Cycle::SpectrumWindow },
        enabled: true,
        primary: false,
    }));
    assert(items[9] == (ItemView::Button {
        label: "Cycle Smooth"@,
        action: ToolAction::Cycle { control: Cycle::Smoothing },
        enabled: true,
        primary: false,
    }));
    assert(items[10] == (ItemView::Button {
        label: if window.peak_hold { "Peak Hold Off"@ } else { "Peak Hold On"@ },
        action: ToolAction::Cycle { control: Cycle::PeakHold },
        enabled: true,
        primary: false,
    }));
    assert(items[11] == (ItemView::Button {
        label: "Analyze"@,
        action: ToolAction::Analyze,
        enabled: true,
        primary: false,
    }));
}

/// The loudness meter shows each measured level under its name.
pub proof fn law_the_meter_shows_the_measured_levels<T>(window: AudioToolWindow<T>, texts: ToolTexts)
    requires
        window.session.tool_kind is Loudness,
    ensures
        ({
            let items = body_items(window, texts);
            &&& items.len() == 7
            &&& beside(items, "Momentary"@, or_dash(texts.loudness.momentary))
            &&& beside(items, "Short-Term"@, or_dash(texts.loudness.shortterm))
            &&& beside(items, "Integrated"@, or_dash(texts.loudness.integrated))
            &&& beside(items, "LRA"@, or_dash(texts.loudness.range))
            &&& beside(items, "True Peak"@, or_dash(texts.loudness.true_peak))
            &&& beside(items, "Peak"@, or_dash(texts.loudness.peak))
            &&& under(items, "Analyze"@, ToolAction::Analyze, true, false)
        }),
{
    let items = body_items(window, texts);
    assert(items[0] == (ItemView::Row { label: "Momentary"@, value: or_dash(texts.loudness.momentary) }));
    assert(items[1] == (ItemView::Row { label: "Short-Term"@, value: or_dash(texts.loudness.shortterm) }));
    assert(items[2] == (ItemView::Row { label: "Integrated"@, value: or_dash(texts.loudness.integrated) }));
    assert(items[3] == (ItemView::Row { label: "LRA"@, value: or_dash(texts.loudness.range) }));
    assert(items[4] == (ItemView::Row { label: "True Peak"@, value: or_dash(texts.loudness.true_peak) }));
    assert(items[5] == (ItemView::Row { label: "Peak"@, value: or_dash(texts.loudness.peak) }));
    assert(items[6] == (ItemView::Button {
        label: "Analyze"@,
        action: ToolAction::Analyze,
        enabled: true,
        primary: false,
    }));
}

/// The normaliser shows what is aimed at and what was measured; the mode in use
/// stands out.
pub proof fn law_the_normaliser_shows_its_aims<T>(window: AudioToolWindow<T>, texts: ToolTexts)
    requires
        window.session.tool_kind is Normalize,
    ensures
        ({
            let items = body_items(window, texts);
            &&& items.len() == 12
            &&& beside(items, "Mode"@, texts.normalize.mode@)
            &&& beside(items, "Peak target"@, texts.normalize.peak_target@)
            &&& beside(items, "True Peak target"@, texts.normalize.true_peak_target@)
            &&& beside(items, "Loudness target"@, texts.normalize.loudness_target@)
            &&& beside(items, "Current Peak"@, or_dash(texts.normalize.peak))
            &&& beside(items, "LUFS-I"@, or_dash(texts.normalize.lufs))
            &&& beside(items, "True Peak"@, or_dash(texts.normalize.true_peak))
            &&& beside(items, "Required Gain"@, or_dash(texts.normalize.gain))
            &&& under(items, "Peak"@, ToolAction::SetNormalizeMode { mode: NormalizeMode::Peak }, true, window.normalize_mode is Peak)
            &&& under(items, "True Peak"@, ToolAction::SetNormalizeMode { mode: NormalizeMode::TruePeak }, true, window.normalize_mode is TruePeak)
            &&& under(items, "Loudness"@, ToolAction::SetNormalizeMode { mode: NormalizeMode::Loudness }, true, window.normalize_mode is Loudness)
            &&& under(items, "Analyze"@, ToolAction::Analyze, true, false)
        }),
{
    let items = body_items(window, texts);
    assert(items[0] == (ItemView::Row { label: "Mode"@, value: texts.normalize.mode@ }));
    assert(items[1] == (ItemView::Row { label: "Peak target"@, value: texts.normalize.peak_target@ }));
    assert(items[2] == (ItemView::Row { label: "True Peak target"@, value: texts.normalize.true_peak_target@ }));
    assert(items[3] == (ItemView::Row { label: "Loudness target"@, value: texts.normalize.loudness_target@ }));
    assert(items[4] == (ItemView::Row { label: "Current Peak"@, value: or_dash(texts.normalize.peak) }));
    assert(items[5] == (ItemView::Row { label: "LUFS-I"@, value: or_dash(texts.normalize.lufs) }));
    assert(items[6] == (ItemView::Row { label: "True Peak"@, value: or_dash(texts.normalize.true_peak) }));
    assert(items[7] == (ItemView::Row { label: "Required Gain"@, value: or_dash(texts.normalize.gain) }));
    assert(items[8] == (ItemView::Button {
        label: "Peak"@,
        action: ToolAction::SetNormalizeMode { mode: NormalizeMode::Peak },
        enabled: true,
        primary: window.normalize_mode is Peak,
    }));
    assert(items[9] == (ItemView::Button {
        label: "True Peak"@,
        action: ToolAction::SetNormalizeMode { mode: NormalizeMode::TruePeak },
        enabled: true,
        primary: window.normalize_mode is TruePeak,
    }));
    assert(items[10] == (ItemView::Button {
        label: "Loudness"@,
        action: ToolAction::SetNormalizeMode { mode: NormalizeMode::Loudness },
        enabled: true,
        primary: window.normalize_mode is Loudness,
    }));
    assert(items[11] == (ItemView::Button {
        label: "Analyze"@,
        action: ToolAction::Analyze,
        enabled: true,
        primary: false,
    }));
}

/// The transient detector says how many were found, and what is made of them
/// can be used once there are any.
pub proof fn law_the_detector_counts_the_transients<T>(window: AudioToolWindow<T>, texts: ToolTexts)
    requires
        window.session.tool_kind is TransientDetector,
    ensures
        ({
            let items = body_items(window, texts);
            &&& items.len() == 9
            &&& beside(items, "Sensitivity"@, texts.sensitivity@)
            &&& beside(items, "Minimum Gap"@, texts.gap@)
            &&& beside(items, "Frequency Focus"@, texts.focus@)
            &&& beside(items, "Results"@, crate::text::decimal(window.transients@.len()) + " transients"@)
            &&& under(items, "Analyze"@, ToolAction::Analyze, true, false)
            &&& under(items, "Add Markers"@, ToolAction::AddMarkers, window.transients@.len() > 0, false)
            &&& under(items, "Create Warp Markers"@, ToolAction::CreateWarpMarkers, window.transients@.len() > 0, false)
            &&& under(items, "Slice"@, ToolAction::Slice, window.transients@.len() > 0, false)
            &&& under(items, "Quantize"@, ToolAction::Quantize, false, false)
        }),
{
    let items = body_items(window, texts);
    assert(items[0] == (ItemView::Row { label: "Sensitivity"@, value: texts.sensitivity@ }));
    assert(items[1] == (ItemView::Row { label: "Minimum Gap"@, value: texts.gap@ }));
    assert(items[2] == (ItemView::Row { label: "Frequency Focus"@, value: texts.focus@ }));
    assert(items[3] == (ItemView::Row { label: "Results"@, value: crate::text::decimal(window.transients@.len()) + " transients"@ }));
    assert(items[4] == (ItemView::Button {
        label: "Analyze"@,
        action: ToolAction::Analyze,
        enabled: true,
        primary: false,
    }));
    assert(items[5] == (ItemView::Button {
        label: "Add Markers"@,
        action: ToolAction::AddMarkers,
        enabled: window.transients@.len() > 0,
        primary: false,
    }));
    assert(items[6] == (ItemView::Button {
        label: "Create Warp Markers"@,
        action: ToolAction::CreateWarpMarkers,
        enabled: window.transients@.len() > 0,
        primary: false,
    }));
    assert(items[7] == (ItemView::Button {
        label: "Slice"@,
        action: ToolAction::Slice,
        enabled: window.transients@.len() > 0,
        primary: false,
    }));
    assert(items[8] == (ItemView::Button {
        label: "Quantize"@,
        action: ToolAction::Quantize,
        enabled: false,
        primary: false,
    }));
}

/// Time and pitch shows how the clip is stretched and shifted.
pub proof fn law_time_and_pitch_shows_its_values<T>(window: AudioToolWindow<T>, texts: ToolTexts)
    requires
        window.session.tool_kind is TimePitch,
    ensures
        ({
            let items = body_items(window, texts);
            &&& items.len() == 13
            &&& beside(items, "Time mode"@, time_mode_text(window.time_mode))
            &&& beside(items, "Ratio"@, texts.ratio@)
            &&& beside(items, "Target Duration"@, texts.duration@)
            &&& beside(items, "Original BPM"@, or_dash(texts.original_bpm))
            &&& beside(items, "Semitones"@, texts.semitones@)
            &&& beside(items, "Cents"@, texts.cents@)
            &&& beside(items, "Formant"@, "Neutral"@)
            &&& beside(items, "Preserve Transients"@, on_off(window.preserve_transients))
            &&& beside(items, "Quality"@, "High"@)
            &&& under(items, "Off"@, ToolAction::TimeOff, true, false)
            &&& under(items, "Stretch"@, ToolAction::TimeStretch, true, false)
            &&& under(items, "+1 st"@, ToolAction::PitchUp, true, false)
            &&& under(items, "−1 st"@, ToolAction::PitchDown, true, false)
        }),
{
    let items = body_items(window, texts);
    assert(items[0] == (ItemView::Row { label: "Time mode"@, value: time_mode_text(window.time_mode) }));
    assert(items[1] == (ItemView::Row { label: "Ratio"@, value: texts.ratio@ }));
    assert(items[2] == (ItemView::Row { label: "Target Duration"@, value: texts.duration@ }));
    assert(items[3] == (ItemView::Row { label: "Original BPM"@, value: or_dash(texts.original_bpm) }));
    assert(items[4] == (ItemView::Row { label: "Semitones"@, value: texts.semitones@ }));
    assert(items[5] == (ItemView::Row { label: "Cents"@, value: texts.cents@ }));
    assert(items[6] == (ItemView::Row { label: "Formant"@, value: "Neutral"@ }));
    assert(items[7] == (ItemView::Row { label: "Preserve Transients"@, value: on_off(window.preserve_transients) }));
    assert(items[8] == (ItemView::Row { label: "Quality"@, value: "High"@ }));
    assert(items[9] == (ItemView::Button {
        label: "Off"@,
        action: ToolAction::TimeOff,
        enabled: true,
        primary: false,
    }));
    assert(items[10] == (ItemView::Button {
        label: "Stretch"@,
        action: ToolAction::TimeStretch,
        enabled: true,
        primary: false,
    }));
    assert(items[11] == (ItemView::Button {
        label: "+1 st"@,
        action: ToolAction::PitchUp,
        enabled: true,
        primary: false,
    }));
    assert(items[12] == (ItemView::Button {
        label: "−1 st"@,
        action: ToolAction::PitchDown,
        enabled: true,
        primary: false,
    }));
}

/// The resampler shows the rate that the clip has and the one that it gets.
pub proof fn law_the_resampler_shows_both_rates<T>(window: AudioToolWindow<T>, texts: ToolTexts)
    requires
        window.session.tool_kind is Resample,
    ensures
        ({
            let items = body_items(window, texts);
            &&& items.len() == 5
            &&& beside(items, "Current"@, rate_text(window.session.target.sample_rate))
            &&& beside(items, "Target"@, rate_text(window.resample_target))
            &&& beside(items, "Quality"@, "High"@)
            &&& beside(items, "Mode"@, "Offline Render"@)
            &&& under(items, "Cycle Target Rate"@, ToolAction::Cycle { control: Cycle::ResampleRate }, true, false)
        }),
{
    let items = body_items(window, texts);
    assert(items[0] == (ItemView::Row { label: "Current"@, value: rate_text(window.session.target.sample_rate) }));
    assert(items[1] == (ItemView::Row { label: "Target"@, value: rate_text(window.resample_target) }));
    assert(items[2] == (ItemView::Row { label: "Quality"@, value: "High"@ }));
    assert(items[3] == (ItemView::Row { label: "Mode"@, value: "Offline Render"@ }));
    assert(items[4] == (ItemView::Button {
        label: "Cycle Target Rate"@,
        action: ToolAction::Cycle { control: Cycle::ResampleRate },
        enabled: true,
        primary: false,
    }));
}

/// The phase analyzer says which pair it correlates and offers the other one.
pub proof fn law_the_phase_analyzer_offers_the_other_pair<T>(window: AudioToolWindow<T>, texts: ToolTexts)
    requires
        window.session.tool_kind is PhaseAnalyzer,
    ensures
        ({
            let items = body_items(window, texts);
            &&& items.len() == 4
            &&& beside(items, "Mode"@, if window.phase_ms { "M/S"@ } else { "L/R"@ })
            &&& beside(items, "Correlation"@, texts.correlation@)
            &&& items.contains(ItemView::Note { text: "−1 ← 0 → +1"@ })
            &&& under(items, if window.phase_ms { "Use L/R"@ } else { "Use M/S"@ }, ToolAction::Cycle { control: Cycle::PhaseMode }, true, false)
        }),
{
    let items = body_items(window, texts);
    assert(items[0] == (ItemView::Row { label: "Mode"@, value: if window.phase_ms { "M/S"@ } else { "L/R"@ } }));
    assert(items[1] == (ItemView::Row { label: "Correlation"@, value: texts.correlation@ }));
    assert(items[2] == (ItemView::Note { text: "−1 ← 0 → +1"@ }));
    assert(items[3] == (ItemView::Button {
        label: if window.phase_ms { "Use L/R"@ } else { "Use M/S"@ },
        action: ToolAction::Cycle { control: Cycle::PhaseMode },
        enabled: true,
        primary: false,
    }));
}

/// The offset meter shows each side's own offset.
pub proof fn law_the_offset_meter_shows_both_sides<T>(window: AudioToolWindow<T>, texts: ToolTexts)
    requires
        window.session.tool_kind is DcOffset,
    ensures
        ({
            let items = body_items(window, texts);
            &&& items.len() == 3
            &&& beside(items, "Left"@, texts.dc_left@)
            &&& beside(items, "Right"@, texts.dc_right@)
            &&& under(items, "Analyze"@, ToolAction::Analyze, true, false)
        }),
{
    let items = body_items(window, texts);
    assert(items[0] == (ItemView::Row { label: "Left"@, value: texts.dc_left@ }));
    assert(items[1] == (ItemView::Row { label: "Right"@, value: texts.dc_right@ }));
    assert(items[2] == (ItemView::Button {
        label: "Analyze"@,
        action: ToolAction::Analyze,
        enabled: true,
        primary: false,
    }));
}

/// The spectral processor says what it works on: a stretch of time or the whole
/// clip, a band or all of it.
pub proof fn law_the_spectral_processor_says_what_it_works_on<T>(window: AudioToolWindow<T>, texts: ToolTexts)
    requires
        window.session.tool_kind is SpectralProcessor,
    ensures
        ({
            let items = body_items(window, texts);
            &&& items.len() == 7
            &&& beside(items, "Time"@, match texts.spectral_frames { Some(text) => text@, None => "entire clip"@ })
            &&& beside(items, "Frequency"@, match texts.spectral_band { Some(text) => text@, None => "full band"@ })
            &&& beside(items, "Gain"@, texts.spectral_gain@)
            &&& items.contains(ItemView::Note { text: "Apply writes a derived WAV via STFT gain."@ })
            &&& under(items, "−3 dB"@, ToolAction::SpectralLess, true, false)
            &&& under(items, "+3 dB"@, ToolAction::SpectralMore, true, false)
            &&& under(items, "Silence"@, ToolAction::SpectralSilence, true, false)
        }),
{
    let items = body_items(window, texts);
    assert(items[0] == (ItemView::Row { label: "Time"@, value: match texts.spectral_frames { Some(text) => text@, None => "entire clip"@ } }));
    assert(items[1] == (ItemView::Row { label: "Frequency"@, value: match texts.spectral_band { Some(text) => text@, None => "full band"@ } }));
    assert(items[2] == (ItemView::Row { label: "Gain"@, value: texts.spectral_gain@ }));
    assert(items[3] == (ItemView::Note { text: "Apply writes a derived WAV via STFT gain."@ }));
    assert(items[4] == (ItemView::Button {
        label: "−3 dB"@,
        action: ToolAction::SpectralLess,
        enabled: true,
        primary: false,
    }));
    assert(items[5] == (ItemView::Button {
        label: "+3 dB"@,
        action: ToolAction::SpectralMore,
        enabled: true,
        primary: false,
    }));
    assert(items[6] == (ItemView::Button {
        label: "Silence"@,
        action: ToolAction::SpectralSilence,
        enabled: true,
        primary: false,
    }));
}

/// The spectrogram settings show the transform that is used.
pub proof fn law_the_spectrogram_settings_show_the_transform<T>(window: AudioToolWindow<T>, texts: ToolTexts)
    requires
        window.session.tool_kind is SpectrogramSettings,
    ensures
        ({
            let items = body_items(window, texts);
            &&& items.len() == 4
            &&& beside(items, "FFT"@, texts.fft_size@)
            &&& beside(items, "Window"@, texts.spectrum_window@)
            &&& items.contains(ItemView::Note { text: "These settings drive the Spectrum Analyzer FFT."@ })
            &&& under(items, "Cycle FFT"@, ToolAction::Cycle { control: Cycle::FftSize }, true, false)
        }),
{
    let items = body_items(window, texts);
    assert(items[0] == (ItemView::Row { label: "FFT"@, value: texts.fft_size@ }));
    assert(items[1] == (ItemView::Row { label: "Window"@, value: texts.spectrum_window@ }));
    assert(items[2] == (ItemView::Note { text: "These settings drive the Spectrum Analyzer FFT."@ }));
    assert(items[3] == (ItemView::Button {
        label: "Cycle FFT"@,
        action: ToolAction::Cycle { control: Cycle::FftSize },
        enabled: true,
        primary: false,
    }));
}

/// The noise reduction shows its depth, and whether a profile was learned.
pub proof fn law_noise_reduction_shows_its_profile<T>(window: AudioToolWindow<T>, texts: ToolTexts)
    requires
        window.session.tool_kind is AudioRepair,
        window.repair_module is Denoise,
    ensures
        ({
            let items = body_items(window, texts);
            &&& items.len() == 14
            &&& beside(items, "Reduction"@, texts.repair.denoise_reduction@)
            &&& beside(items, "Threshold"@, texts.repair.denoise_threshold@)
            &&& beside(items, "Noise profile"@, if window.learned_noise is Some { "Learned"@ } else { "None"@ })
            &&& under(items, "−3 dB"@, ToolAction::DenoiseLess, true, false)
            &&& under(items, "+3 dB"@, ToolAction::DenoiseMore, true, false)
            &&& under(items, "Learn Noise Profile"@, ToolAction::LearnNoise, true, false)
        }),
{
    let items = body_items(window, texts);
    assert(items[8] == (ItemView::Row { label: "Reduction"@, value: texts.repair.denoise_reduction@ }));
    assert(items[9] == (ItemView::Row { label: "Threshold"@, value: texts.repair.denoise_threshold@ }));
    assert(items[10] == (ItemView::Row { label: "Noise profile"@, value: if window.learned_noise is Some { "Learned"@ } else { "None"@ } }));
    assert(items[11] == (ItemView::Button {
        label: "−3 dB"@,
        action: ToolAction::DenoiseLess,
        enabled: true,
        primary: false,
    }));
    assert(items[12] == (ItemView::Button {
        label: "+3 dB"@,
        action: ToolAction::DenoiseMore,
        enabled: true,
        primary: false,
    }));
    assert(items[13] == (ItemView::Button {
        label: "Learn Noise Profile"@,
        action: ToolAction::LearnNoise,
        enabled: true,
        primary: false,
    }));
}

/// The click removal shows what counts as a click.
pub proof fn law_click_removal_shows_what_is_a_click<T>(window: AudioToolWindow<T>, texts: ToolTexts)
    requires
        window.session.tool_kind is AudioRepair,
        window.repair_module is DeClick,
    ensures
        ({
            let items = body_items(window, texts);
            &&& items.len() == 11
            &&& beside(items, "Sensitivity"@, texts.repair.click_sensitivity@)
            &&& beside(items, "Max Click Width"@, texts.repair.click_width@)
            &&& under(items, "Cycle Sensitivity"@, ToolAction::CycleSensitivity, true, false)
        }),
{
    let items = body_items(window, texts);
    assert(items[8] == (ItemView::Row { label: "Sensitivity"@, value: texts.repair.click_sensitivity@ }));
    assert(items[9] == (ItemView::Row { label: "Max Click Width"@, value: texts.repair.click_width@ }));
    assert(items[10] == (ItemView::Button {
        label: "Cycle Sensitivity"@,
        action: ToolAction::CycleSensitivity,
        enabled: true,
        primary: false,
    }));
}

/// The hum removal shows where the hum lies and how far up it is followed.
pub proof fn law_hum_removal_shows_where_the_hum_lies<T>(window: AudioToolWindow<T>, texts: ToolTexts)
    requires
        window.session.tool_kind is AudioRepair,
        window.repair_module is DeHum,
    ensures
        ({
            let items = body_items(window, texts);
            &&& items.len() == 12
            &&& beside(items, "Base"@, texts.repair.hum_base@)
            &&& beside(items, "Harmonics"@, crate::text::decimal(window.dehum.harmonics as nat))
            &&& beside(items, "Reduction"@, texts.repair.hum_reduction@)
            &&& under(items, "Cycle 50/60 Hz"@, ToolAction::CycleHumBase, true, false)
        }),
{
    let items = body_items(window, texts);
    assert(items[8] == (ItemView::Row { label: "Base"@, value: texts.repair.hum_base@ }));
    assert(items[9] == (ItemView::Row { label: "Harmonics"@, value: crate::text::decimal(window.dehum.harmonics as nat) }));
    assert(items[10] == (ItemView::Row { label: "Reduction"@, value: texts.repair.hum_reduction@ }));
    assert(items[11] == (ItemView::Button {
        label: "Cycle 50/60 Hz"@,
        action: ToolAction::CycleHumBase,
        enabled: true,
        primary: false,
    }));
}

/// Modules without controls of their own say so.
pub proof fn law_other_modules_show_a_note<T>(window: AudioToolWindow<T>, texts: ToolTexts)
    requires
        window.session.tool_kind is AudioRepair,
        !(window.repair_module is Denoise),
        !(window.repair_module is DeClick),
        !(window.repair_module is DeHum),
    ensures
        body_items(window, texts).len() == 9,
        window.repair_module is SpectralRepair ==> body_items(window, texts)[8] == (
        ItemView::Note { text: "Use Spectral Processing with a spectral selection."@ }),
        !(window.repair_module is SpectralRepair) ==> body_items(window, texts)[8] == (
        ItemView::Note { text: "This module is not available yet."@ }),
{
}

/// The repair panel names every module, and marks those that cannot be used.
pub proof fn law_the_repair_panel_offers_every_module<T>(
    window: AudioToolWindow<T>,
    texts: ToolTexts,
    module: AudioRepairModule,
)
    requires
        window.session.tool_kind is AudioRepair,
    ensures
        ({
            let name = texts.modules@[crate::navigator::module_row(module)]@;
            let items = body_items(window, texts);
            &&& texts.available.has(module) ==> under(
                items,
                name,
                ToolAction::SelectModule { module },
                true,
                module == window.repair_module,
            )
            &&& !texts.available.has(module) ==> under(
                items,
                name + " (unavailable)"@,
                ToolAction::SelectModule { module },
                false,
                module == window.repair_module,
            )
        }),
{
    crate::panel::law_the_repair_panel_lists_every_module(module);
    let order = crate::panel::repair_order();
    let k = choose|k: int| 0 <= k < order.len() && order[k] == module;
    let items = body_items(window, texts);
    assert(items[k] == module_button(
        module,
        window.repair_module,
        texts.modules@,
        texts.available.has(module),
    ));
}

/// The first tempos that were found are shown, up to three of them, each once
/// and in order, and what is made of a tempo can be used once there is one.
pub proof fn law_the_likeliest_tempos_are_shown<T>(
    window: AudioToolWindow<T>,
    texts: ToolTexts,
    i: int,
)
    requires
        window.session.tool_kind is BpmAnalysis,
    ensures
        ({
            let items = body_items(window, texts);
            let found = texts.tempos@.len();
            &&& items.len() == 5 + found || (found > 3 && items.len() == 8)
            &&& items[0] == (ItemView::Row { label: "Minimum BPM"@, value: texts.bpm_minimum@ })
            &&& items[1] == (ItemView::Row { label: "Maximum BPM"@, value: texts.bpm_maximum@ })
            &&& 0 <= i < 3 && i < found ==> items[2 + i] == (ItemView::Row {
                label: "Candidate"@,
                value: texts.tempos@[i]@,
            })
            &&& under(items, "Analyze"@, ToolAction::Analyze, true, false)
            &&& under(
                items,
                "Use as Original BPM"@,
                ToolAction::UseOriginalBpm,
                window.bpm@.len() > 0,
                false,
            )
            &&& under(
                items,
                "Add Tempo Marker"@,
                ToolAction::AddTempoMarker,
                window.bpm@.len() > 0,
                false,
            )
        }),
{
    let items = body_items(window, texts);
    let n = items.len() as int;
    assert(items[n - 3] == (ItemView::Button {
        label: "Analyze"@,
        action: ToolAction::Analyze,
        enabled: true,
        primary: false,
    }));
    assert(items[n - 2] == (ItemView::Button {
        label: "Use as Original BPM"@,
        action: ToolAction::UseOriginalBpm,
        enabled: window.bpm@.len() > 0,
        primary: false,
    }));
    assert(items[n - 1] == (ItemView::Button {
        label: "Add Tempo Marker"@,
        action: ToolAction::AddTempoMarker,
        enabled: window.bpm@.len() > 0,
        primary: false,
    }));
}

/// The likeliest key is shown as the detected one, the two behind it as
/// alternates.
pub proof fn law_the_likeliest_key_is_shown<T>(
    window: AudioToolWindow<T>,
    texts: ToolTexts,
    i: int,
)
    requires
        window.session.tool_kind is KeyAnalysis,
    ensures
        ({
            let items = body_items(window, texts);
            let keys = texts.keys@;
            &&& keys.len() == 0 ==> items.len() == 4 && items[0] == (ItemView::Row {
                label: "Detected"@,
                value: "—"@,
            }) && items[1] == (ItemView::Row { label: "Confidence"@, value: "—"@ })
            &&& keys.len() > 0 ==> items[0] == (ItemView::Row {
                label: "Detected"@,
                value: keys[0]@,
            }) && items[1] == (ItemView::Row {
                label: "Confidence"@,
                value: or_dash(texts.key_confidence),
            })
            &&& items[2] == (ItemView::Row {
                label: "User key"@,
                value: or_dash(texts.user_key),
            })
            &&& 1 <= keys.len() <= 3 ==> items.len() == 3 + keys.len()
            &&& keys.len() > 3 ==> items.len() == 6
            &&& 1 <= i <= 2 && i < keys.len() ==> items[2 + i] == (ItemView::Row {
                label: "Alternate"@,
                value: keys[i]@,
            })
            &&& items[items.len() - 1] == (ItemView::Button {
                label: "Analyze"@,
                action: ToolAction::Analyze,
                enabled: true,
                primary: false,
            })
        }),
{
}

/// Every channel route has its button, and only the chosen one stands out.
pub proof fn law_the_chosen_route_stands_out<T>(
    window: AudioToolWindow<T>,
    texts: ToolTexts,
    i: int,
)
    requires
        window.session.tool_kind is ChannelTools,
        0 <= i < texts.routes@.len(),
    ensures
        body_items(window, texts).len() == texts.routes@.len(),
        body_items(window, texts)[i] == (ItemView::Button {
            label: texts.routes@[i].1@,
            action: ToolAction::SetChannel { tag: texts.routes@[i].0 },
            enabled: true,
            primary: texts.routes@[i].0 == window.channel,
        }),
{
}

/// A window shows its title, which closes it, the clip and its source, and
/// between them and the footer all that its tool shows.
pub proof fn law_a_window_shows_its_clip_and_its_tool<T>(
    window: AudioToolWindow<T>,
    title: Seq<char>,
    target: Seq<char>,
    source: Seq<char>,
    texts: ToolTexts,
    analysis: bool,
    progress: Seq<char>,
    i: int,
)
    ensures
        ({
            let items = window_items(window, title, target, source, texts, analysis, progress);
            let body = body_items(window, texts);
            let footer = footer_items(window, analysis, progress);
            &&& items[0] == (ItemView::Title { label: title, action: ToolAction::Close })
            &&& items[1] == (ItemView::Row { label: "Target"@, value: target })
            &&& items[2] == (ItemView::Row { label: "Source"@, value: source })
            &&& items.len() == 3 + body.len() + footer.len()
            &&& 0 <= i < body.len() ==> items[3 + i] == body[i]
            &&& 0 <= i < footer.len() ==> items[3 + body.len() + i] == footer[i]
        }),
{
    assert(header_items(title, target, source).len() == 3);
}

/// The footer tells how the work goes, its switches stand as they are set, and a
/// window that changes audio can be previewed, cancelled and applied.
pub proof fn law_the_footer_shows_the_session<T>(
    window: AudioToolWindow<T>,
    analysis: bool,
    progress: Seq<char>,
)
    ensures
        ({
            let items = footer_items(window, analysis, progress);
            let session = window.session;
            &&& session.analyzing ==> items.contains(ItemView::Note { text: progress })
            &&& !session.analyzing ==> items.contains(ItemView::Note { text: window.status@ })
            &&& switched(
                items,
                "Follow Selection"@,
                ToolAction::ToggleFollow,
                true,
                session.follow_selection,
            )
            &&& switched(items, "Pin Target"@, ToolAction::TogglePin, true, session.pin_target)
            &&& analysis ==> items.len() == 4 && under(
                items,
                "Close"@,
                ToolAction::Close,
                true,
                false,
            )
            &&& !analysis ==> items.len() == 7 && switched(
                items,
                "Preview"@,
                ToolAction::TogglePreview,
                true,
                session.preview_enabled,
            ) && switched(
                items,
                "Bypass"@,
                ToolAction::ToggleBypass,
                session.preview_enabled,
                session.preview_bypassed,
            ) && under(items, "Cancel"@, ToolAction::Cancel, true, false) && under(
                items,
                "Apply"@,
                ToolAction::Apply,
                true,
                true,
            )
        }),
{
    let items = footer_items(window, analysis, progress);
    let session = window.session;
    assert(items[0] is Note);
    assert(items[1] == (ItemView::Check {
        label: "Follow Selection"@,
        action: ToolAction::ToggleFollow,
        enabled: true,
        checked: session.follow_selection,
    }));
    assert(items[2] == (ItemView::Check {
        label: "Pin Target"@,
        action: ToolAction::TogglePin,
        enabled: true,
        checked: session.pin_target,
    }));
    if analysis {
        assert(items[3] == (ItemView::Button {
            label: "Close"@,
            action: ToolAction::Close,
            enabled: true,
            primary: false,
        }));
    } else {
        assert(items[3] == (ItemView::Check {
            label: "Preview"@,
            action: ToolAction::TogglePreview,
            enabled: true,
            checked: session.preview_enabled,
        }));
        assert(items[4] == (ItemView::Check {
            label: "Bypass"@,
            action: ToolAction::ToggleBypass,
            enabled: session.preview_enabled,
            checked: session.preview_bypassed,
        }));
        assert(items[5] == (ItemView::Button {
            label: "Cancel"@,
            action: ToolAction::Cancel,
            enabled: true,
            primary: false,
        }));
        assert(items[6] == (ItemView::Button {
            label: "Apply"@,
            action: ToolAction::Apply,
            enabled: true,
            primary: true,
        }));
    }
}

/// A figure is shown as it was measured, and a dash where nothing was.
pub proof fn law_a_missing_figure_is_a_dash(value: Option<String>, on: bool)
    ensures
        value matches Some(text) ==> or_dash(value) == text@,
        value is None ==> or_dash(value) == "—"@,
        on ==> on_off(on) == "On"@,
        !on ==> on_off(on) == "Off"@,
{
}

/// The time modes are told apart by their names.
pub proof fn law_time_modes_have_names_of_their_own(a: TimePitchMode, b: TimePitchMode)
    requires
        a != b,
    ensures
        time_mode_text(a) != time_mode_text(b),
        time_mode_text(TimePitchMode::Off) == "Off"@,
        time_mode_text(TimePitchMode::Stretch) == "Stretch"@,
        time_mode_text(TimePitchMode::FollowTempo) == "Follow Tempo"@,
{
    reveal_strlit("Off");
    reveal_strlit("Stretch");
    reveal_strlit("Fit Duration");
    reveal_strlit("Follow Tempo");
    assert("Off"@.len() == 3 && "Stretch"@.len() == 7);
    assert("Fit Duration"@[1] == 'i' && "Follow Tempo"@[1] == 'o');
    assert("Fit Duration"@.len() == 12 && "Follow Tempo"@.len() == 12);
}

/// A rate is shown as its hertz.
pub proof fn law_a_rate_is_shown_in_hertz(rate: u32)
    ensures
        rate_text(rate).len() > 3,
        crate::text::number(rate_text(rate).take(rate_text(rate).len() - 3)) == rate,
        rate_text(rate).skip(rate_text(rate).len() - 3) == " Hz"@,
{
    reveal_strlit(" Hz");
    crate::text::law_a_number_is_read_back(rate as nat);
    let digits = crate::text::decimal(rate as nat);
    assert(digits.len() > 0);
    assert(rate_text(rate).take(rate_text(rate).len() - 3) =~= digits);
    assert(rate_text(rate).skip(rate_text(rate).len() - 3) =~= " Hz"@);
}

/// A spectrum has a bar for each of its bins, up to 240 bars, and always one.
pub proof fn law_a_spectrum_has_its_bars(bins: nat)
    ensures
        1 <= bins <= 240 ==> bar_count(bins) == bins,
        bins > 240 ==> bar_count(bins) == 240,
        bins == 0 ==> bar_count(bins) == 1,
{
}

} // verus!
