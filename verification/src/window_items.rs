//! A tool window as a whole: its header, the body of its tool, its footer.

use vstd::prelude::*;

use crate::actions::offered;
use crate::navigator::{AudioRepairModule, AvailableModules};
use crate::panel::{
    alternate_rows, bpm_items, candidate_rows, channel_body, channel_items, dc_items,
    declick_items, dehum_items, denoise_items, empty_panel, footer_items, key_items,
    loudness_items, module_button, normalize_items, phase_items, put, put_all, put_row,
    repair_items, repair_order, resample_items, row, spectral_items, spectrogram_settings_items, spectrum_items,
    time_pitch_items, transient_items, views, ItemView, PanelItem, RepairTexts, ToolAction,
};
use crate::target::AudioToolKind;
use crate::tools::AudioToolWindow;

verus! {

/// Measured levels, where there are any.
pub struct LoudnessTexts {
    pub momentary: Option<String>,
    pub shortterm: Option<String>,
    pub integrated: Option<String>,
    pub range: Option<String>,
    pub true_peak: Option<String>,
    pub peak: Option<String>,
}

/// What a clip is normalised to, and what was measured of it.
pub struct NormalizeTexts {
    pub mode: String,
    pub peak_target: String,
    pub true_peak_target: String,
    pub loudness_target: String,
    pub peak: Option<String>,
    pub lufs: Option<String>,
    pub true_peak: Option<String>,
    pub gain: Option<String>,
}

/// Every figure and name that the body of a tool may show.
pub struct ToolTexts {
    pub spectrum_mode: String,
    pub fft_size: String,
    pub spectrum_window: String,
    pub smoothing: String,
    pub loudness: LoudnessTexts,
    pub normalize: NormalizeTexts,
    pub sensitivity: String,
    pub gap: String,
    pub focus: String,
    pub ratio: String,
    pub duration: String,
    pub original_bpm: Option<String>,
    pub semitones: String,
    pub cents: String,
    /// The channel routes, by tag.
    pub routes: Vec<(u32, String)>,
    pub correlation: String,
    pub dc_left: String,
    pub dc_right: String,
    pub bpm_minimum: String,
    pub bpm_maximum: String,
    /// The found tempos, the likeliest first.
    pub tempos: Vec<String>,
    /// The found keys, the likeliest first.
    pub keys: Vec<String>,
    pub key_confidence: Option<String>,
    pub user_key: Option<String>,
    /// What the repair modules are called, by row.
    pub modules: Vec<String>,
    /// Which of them have a processor.
    pub available: AvailableModules,
    pub repair: RepairTexts,
    pub spectral_frames: Option<String>,
    pub spectral_band: Option<String>,
    pub spectral_gain: String,
}

/// The body of a window: what its tool shows.
pub open spec fn body_items<T>(window: AudioToolWindow<T>, texts: ToolTexts) -> Seq<ItemView> {
    match window.session.tool_kind {
        AudioToolKind::SpectrumAnalyzer => spectrum_items(
            window,
            texts.spectrum_mode@,
            texts.fft_size@,
            texts.spectrum_window@,
            texts.smoothing@,
        ),
        AudioToolKind::Loudness => loudness_items(
            texts.loudness.momentary,
            texts.loudness.shortterm,
            texts.loudness.integrated,
            texts.loudness.range,
            texts.loudness.true_peak,
            texts.loudness.peak,
        ),
        AudioToolKind::Normalize => normalize_items(
            window,
            texts.normalize.mode@,
            texts.normalize.peak_target@,
            texts.normalize.true_peak_target@,
            texts.normalize.loudness_target@,
            texts.normalize.peak,
            texts.normalize.lufs,
            texts.normalize.true_peak,
            texts.normalize.gain,
        ),
        AudioToolKind::TransientDetector => transient_items(
            window,
            texts.sensitivity@,
            texts.gap@,
            texts.focus@,
        ),
        AudioToolKind::TimePitch => time_pitch_items(
            window,
            texts.ratio@,
            texts.duration@,
            texts.original_bpm,
            texts.semitones@,
            texts.cents@,
        ),
        AudioToolKind::Resample => resample_items(window),
        AudioToolKind::ChannelTools => channel_items(window.channel, texts.routes@),
        AudioToolKind::PhaseAnalyzer => phase_items(window, texts.correlation@),
        AudioToolKind::DcOffset => dc_items(texts.dc_left@, texts.dc_right@),
        AudioToolKind::BpmAnalysis => bpm_items(
            window,
            texts.bpm_minimum@,
            texts.bpm_maximum@,
            texts.tempos@,
        ),
        AudioToolKind::KeyAnalysis => key_items(
            texts.keys@,
            texts.key_confidence,
            texts.user_key,
        ),
        AudioToolKind::AudioRepair => repair_items(
            window,
            texts.modules@,
            texts.available,
            texts.repair,
        ),
        AudioToolKind::SpectralProcessor => spectral_items(
            texts.spectral_frames,
            texts.spectral_band,
            texts.spectral_gain@,
        ),
        AudioToolKind::SpectrogramSettings => spectrogram_settings_items(
            texts.fft_size@,
            texts.spectrum_window@,
        ),
    }
}

/// The header of a window: its title, which closes it, the clip it is about and
/// where its audio comes from.
pub open spec fn header_items(title: Seq<char>, target: Seq<char>, source: Seq<char>) -> Seq<
    ItemView,
> {
    seq![
        ItemView::Title { label: title, action: ToolAction::Close },
        row("Target"@, target),
        row("Source"@, source),
    ]
}

/// A window from top to bottom.
pub open spec fn window_items<T>(
    window: AudioToolWindow<T>,
    title: Seq<char>,
    target: Seq<char>,
    source: Seq<char>,
    texts: ToolTexts,
    analysis: bool,
    progress: Seq<char>,
) -> Seq<ItemView> {
    header_items(title, target, source) + body_items(window, texts) + footer_items(
        window,
        analysis,
        progress,
    )
}

impl<T: Copy> AudioToolWindow<T> {
    /// The body of a window: what its tool shows.
    pub fn tool_body(&self, texts: &ToolTexts) -> (items: Vec<PanelItem>)
        requires
            texts.modules@.len() == crate::navigator::MODULE_COUNT,
        ensures
            views(items@) == body_items(*self, *texts),
    {
        match self.session.tool_kind {
            AudioToolKind::SpectrumAnalyzer => self.spectrum_body(
                &texts.spectrum_mode,
                &texts.fft_size,
                &texts.spectrum_window,
                &texts.smoothing,
            ),
            AudioToolKind::Loudness => self.loudness_body(
                &texts.loudness.momentary,
                &texts.loudness.shortterm,
                &texts.loudness.integrated,
                &texts.loudness.range,
                &texts.loudness.true_peak,
                &texts.loudness.peak,
            ),
            AudioToolKind::Normalize => self.normalize_body(
                &texts.normalize.mode,
                &texts.normalize.peak_target,
                &texts.normalize.true_peak_target,
                &texts.normalize.loudness_target,
                &texts.normalize.peak,
                &texts.normalize.lufs,
                &texts.normalize.true_peak,
                &texts.normalize.gain,
            ),
            AudioToolKind::TransientDetector => self.transient_body(
                &texts.sensitivity,
                &texts.gap,
                &texts.focus,
            ),
            AudioToolKind::TimePitch => self.time_pitch_body(
                &texts.ratio,
                &texts.duration,
                &texts.original_bpm,
                &texts.semitones,
                &texts.cents,
            ),
            AudioToolKind::Resample => self.resample_body(),
            AudioToolKind::ChannelTools => channel_body(self.channel, &texts.routes),
            AudioToolKind::PhaseAnalyzer => self.phase_body(&texts.correlation),
            AudioToolKind::DcOffset => self.dc_body(&texts.dc_left, &texts.dc_right),
            AudioToolKind::BpmAnalysis => self.bpm_body(
                &texts.bpm_minimum,
                &texts.bpm_maximum,
                &texts.tempos,
            ),
            AudioToolKind::KeyAnalysis => self.key_body(
                &texts.keys,
                &texts.key_confidence,
                &texts.user_key,
            ),
            AudioToolKind::AudioRepair => self.repair_body(
                &texts.modules,
                &texts.available,
                &texts.repair,
            ),
            AudioToolKind::SpectralProcessor => self.spectral_body(
                &texts.spectral_frames,
                &texts.spectral_band,
                &texts.spectral_gain,
            ),
            AudioToolKind::SpectrogramSettings => self.spectrogram_settings_body(
                &texts.fft_size,
                &texts.spectrum_window,
            ),
        }
    }

    /// A window from top to bottom. `analysis` tells a tool that only
    /// analyses; `progress` is what is said during an analysis.
    pub fn render(
        &self,
        title: &str,
        target: &str,
        source: &str,
        texts: &ToolTexts,
        analysis: bool,
        progress: &str,
    ) -> (items: Vec<PanelItem>)
        requires
            texts.modules@.len() == crate::navigator::MODULE_COUNT,
        ensures
            views(items@) == window_items(
                *self,
                title@,
                target@,
                source@,
                *texts,
                analysis,
                progress@,
            ),
    {
        let mut items = empty_panel();
        put(&mut items, PanelItem::Title { label: title.to_owned(), action: ToolAction::Close });
        put_row(&mut items, "Target", target);
        put_row(&mut items, "Source", source);
        proof {
            assert(views(items@) =~= header_items(title@, target@, source@));
        }
        put_all(&mut items, self.tool_body(texts));
        put_all(&mut items, self.footer(analysis, progress));
        items
    }
}

// -------------------------------------------------------------------- laws

/// Whether an element is enabled just when its control can be used.
pub open spec fn tells_the_truth<T>(
    item: ItemView,
    window: AudioToolWindow<T>,
    available: AvailableModules,
) -> bool {
    match item {
        ItemView::Title { action, .. } => offered(window, action, available),
        ItemView::Button { action, enabled, .. } => enabled == offered(window, action, available),
        ItemView::Check { action, enabled, .. } => enabled == offered(window, action, available),
        _ => true,
    }
}

spec fn all_true<T>(
    items: Seq<ItemView>,
    window: AudioToolWindow<T>,
    available: AvailableModules,
) -> bool {
    forall|i: int| 0 <= i < items.len() ==> tells_the_truth(
        #[trigger] items[i],
        window,
        available,
    )
}

proof fn lemma_joined<T>(
    a: Seq<ItemView>,
    b: Seq<ItemView>,
    window: AudioToolWindow<T>,
    available: AvailableModules,
)
    requires
        all_true(a, window, available),
        all_true(b, window, available),
    ensures
        all_true(a + b, window, available),
{
    assert forall|i: int| 0 <= i < (a + b).len() implies tells_the_truth(
        #[trigger] (a + b)[i],
        window,
        available,
    ) by {
        if i < a.len() {
            assert((a + b)[i] == a[i]);
        } else {
            assert((a + b)[i] == b[i - a.len()]);
        }
    }
}

proof fn lemma_repair<T>(
    window: AudioToolWindow<T>,
    names: Seq<String>,
    available: AvailableModules,
    texts: RepairTexts,
)
    ensures
        all_true(repair_items(window, names, available, texts), window, available),
{
    let modules = repair_order().map_values(
        |module: AudioRepairModule|
            module_button(module, window.repair_module, names, available.has(module)),
    );
    assert forall|i: int| 0 <= i < modules.len() implies tells_the_truth(
        #[trigger] modules[i],
        window,
        available,
    ) by {
        let module = repair_order()[i];
        assert(modules[i] == module_button(
            module,
            window.repair_module,
            names,
            available.has(module),
        ));
    }
    let controls = repair_items(window, names, available, texts).skip(modules.len() as int);
    assert(repair_items(window, names, available, texts) =~= modules + controls);
    match window.repair_module {
        AudioRepairModule::Denoise => {
            assert(controls =~= denoise_items(
                window,
                texts.denoise_reduction@,
                texts.denoise_threshold@,
            ));
        },
        AudioRepairModule::DeClick => {
            assert(controls =~= declick_items(texts.click_sensitivity@, texts.click_width@));
        },
        AudioRepairModule::DeHum => {
            assert(controls =~= dehum_items(window, texts.hum_base@, texts.hum_reduction@));
        },
        _ => {
            assert(controls.len() == 1);
            assert(controls[0] is Note);
        },
    }
    assert(all_true(controls, window, available));
    lemma_joined(modules, controls, window, available);
}

proof fn lemma_tempo<T>(window: AudioToolWindow<T>, texts: ToolTexts)
    ensures
        all_true(
            bpm_items(window, texts.bpm_minimum@, texts.bpm_maximum@, texts.tempos@),
            window,
            texts.available,
        ),
{
    let available = texts.available;
    let items = bpm_items(window, texts.bpm_minimum@, texts.bpm_maximum@, texts.tempos@);
    let shown = candidate_rows(texts.tempos@).len() as int;
    assert forall|i: int| 0 <= i < items.len() implies tells_the_truth(
        #[trigger] items[i],
        window,
        available,
    ) by {
        if i >= 2 && i < 2 + shown {
            assert(items[i] == candidate_rows(texts.tempos@)[i - 2]);
        }
    }
}

proof fn lemma_keys<T>(window: AudioToolWindow<T>, texts: ToolTexts)
    ensures
        all_true(
            key_items(texts.keys@, texts.key_confidence, texts.user_key),
            window,
            texts.available,
        ),
{
    let available = texts.available;
    let items = key_items(texts.keys@, texts.key_confidence, texts.user_key);
    let shown = alternate_rows(texts.keys@).len() as int;
    assert forall|i: int| 0 <= i < items.len() implies tells_the_truth(
        #[trigger] items[i],
        window,
        available,
    ) by {
        if i >= 3 && i < 3 + shown {
            assert(items[i] == alternate_rows(texts.keys@)[i - 3]);
        }
    }
}

proof fn lemma_body<T>(window: AudioToolWindow<T>, texts: ToolTexts)
    ensures
        all_true(body_items(window, texts), window, texts.available),
{
    match window.session.tool_kind {
        AudioToolKind::AudioRepair => lemma_repair(
            window,
            texts.modules@,
            texts.available,
            texts.repair,
        ),
        AudioToolKind::BpmAnalysis => lemma_tempo(window, texts),
        AudioToolKind::KeyAnalysis => lemma_keys(window, texts),
        _ => {},
    }
}

/// A control of a window is enabled if and only if using it does something.
pub proof fn law_a_control_is_enabled_when_it_can_be_used<T>(
    window: AudioToolWindow<T>,
    title: Seq<char>,
    target: Seq<char>,
    source: Seq<char>,
    texts: ToolTexts,
    analysis: bool,
    progress: Seq<char>,
    i: int,
)
    requires
        0 <= i < window_items(window, title, target, source, texts, analysis, progress).len(),
    ensures
        tells_the_truth(
            window_items(window, title, target, source, texts, analysis, progress)[i],
            window,
            texts.available,
        ),
{
    let available = texts.available;
    let header = header_items(title, target, source);
    let body = body_items(window, texts);
    let footer = footer_items(window, analysis, progress);
    lemma_body(window, texts);
    lemma_joined(header, body, window, available);
    assert(all_true(footer, window, available));
    lemma_joined(header + body, footer, window, available);
}

} // verus!
