//! What a tool window works on.

use vstd::prelude::*;

verus! {

/// The floating tools of the audio editor.
#[derive(Clone, Copy, PartialEq, Eq, Structural, Debug)]
pub enum AudioToolKind {
    SpectrumAnalyzer,
    Loudness,
    Normalize,
    TransientDetector,
    TimePitch,
    Resample,
    ChannelTools,
    PhaseAnalyzer,
    DcOffset,
    BpmAnalysis,
    KeyAnalysis,
    AudioRepair,
    SpectralProcessor,
    SpectrogramSettings,
}

/// A range of source frames.
#[derive(Clone, Copy, PartialEq, Eq, Structural, Debug)]
pub struct AudioRangeSelection {
    pub start_frame: i64,
    pub end_frame: i64,
}

/// A range of source frames and a band of frequencies.
#[derive(Clone, Copy)]
pub struct SpectralSelection<T> {
    pub start_frame: i64,
    pub end_frame: i64,
    pub min_hz: T,
    pub max_hz: T,
}

/// The clip that a tool works on, and the selection it was opened with.
pub struct AudioToolTarget<T> {
    pub clip_id: String,
    pub source_id: String,
    pub clip_name: String,
    pub file_label: String,
    pub source_path: Option<String>,
    pub sample_rate: u32,
    pub channels: u32,
    pub source_frames: i64,
    pub time_selection: Option<AudioRangeSelection>,
    pub spectral_selection: Option<SpectralSelection<T>>,
}

impl<T: Copy> AudioToolTarget<T> {
    /// A copy of the target.
    pub fn copy_target(&self) -> (target: AudioToolTarget<T>)
        ensures
            target == *self,
    {
        AudioToolTarget {
            clip_id: self.clip_id.clone(),
            source_id: self.source_id.clone(),
            clip_name: self.clip_name.clone(),
            file_label: self.file_label.clone(),
            source_path: match &self.source_path {
                Some(path) => Some(path.clone()),
                None => None,
            },
            sample_rate: self.sample_rate,
            channels: self.channels,
            source_frames: self.source_frames,
            time_selection: self.time_selection,
            spectral_selection: self.spectral_selection,
        }
    }
}

/// What the decoder knows of a source file.
#[derive(Clone, Copy, PartialEq, Eq, Structural, Debug)]
pub struct WaveformFileMeta {
    pub sample_rate: u32,
    pub channels: u32,
    pub total_frames: u64,
}

} // verus!
