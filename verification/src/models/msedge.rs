//! The MS Edge Read Aloud backend.
//!
//! The engine is reached over the network by the caller; this module holds the
//! speech configuration, the rate normalization applied before encoding or
//! playing, and the normalization of the engine's raw byte output into
//! [`SynthesizedAudio`](crate::models::SynthesizedAudio).

use vstd::prelude::*;
use crate::models::{Spec, SynthesizedAudio};

verus! {

/// Synthesis parameters handed to the MS Edge engine.
#[derive(Debug)]
pub struct SpeechConfig {
    pub voice_name: String,
    pub audio_format: String,
    pub pitch: i32,
    pub rate: i32,
    pub volume: i32,
}

/// One metadata record attached to an MS Edge synthesis response.
#[derive(Clone, Debug)]
pub struct AudioMetadata {
    pub metadata_type: Option<String>,
    pub offset: u64,
    pub duration: u64,
    pub text: Option<String>,
    pub length: u64,
    pub boundary_type: Option<String>,
}

impl Clone for SpeechConfig {
    fn clone(&self) -> (r: Self)
        ensures
            r == *self,
    {
        SpeechConfig {
            voice_name: self.voice_name.clone(),
            audio_format: self.audio_format.clone(),
            pitch: self.pitch,
            rate: self.rate,
            volume: self.volume,
        }
    }
}

/// The MS Edge backend: a speech configuration for the remote engine.
#[derive(Clone, Debug)]
pub struct MSEdgeModel {
    config: SpeechConfig,
}

/// The sample rate assumed when the configuration does not name a positive one.
pub const FALLBACK_RATE: u32 = 16000;

impl MSEdgeModel {
    pub fn new(config: SpeechConfig) -> (r: Self)
        ensures
            r.spec_config() == config,
    {
        Self { config }
    }

    /// The speech configuration this backend was built with.
    pub fn config(&self) -> (r: &SpeechConfig)
        ensures
            r == self.spec_config(),
    {
        &self.config
    }

    pub closed spec fn spec_config(&self) -> SpeechConfig {
        self.config
    }

    /// The rate a configuration yields for encoding and playback.
    pub closed spec fn spec_effective_rate(&self) -> u32 {
        if self.config.rate <= 0 {
            FALLBACK_RATE
        } else {
            self.config.rate as u32
        }
    }

    /// The sample rate used when encoding or playing this backend's output:
    /// the configured rate, or a fallback when the configured one is not positive.
    pub fn effective_rate(&self) -> (r: u32)
        ensures
            r == self.spec_effective_rate(),
    {
        if self.config.rate <= 0 {
            FALLBACK_RATE
        } else {
            self.config.rate as u32
        }
    }
}

impl Default for MSEdgeModel {
    /// A configuration mirroring what the engine suggests for its first
    /// English voice, with neutral pitch, rate and volume.
    fn default() -> (r: Self)
        ensures
            r.spec_config().voice_name@ == "Microsoft Server Speech Text to Speech Voice (en-US, AriaNeural)"@,
            r.spec_config().audio_format@ == "audio-24khz-48kbitrate-mono-mp3"@,
            r.spec_config().pitch == 0,
            r.spec_config().rate == 0,
            r.spec_config().volume == 0,
    {
        Self {
            config: SpeechConfig {
                voice_name: "Microsoft Server Speech Text to Speech Voice (en-US, AriaNeural)".to_owned(),
                audio_format: "audio-24khz-48kbitrate-mono-mp3".to_owned(),
                pitch: 0,
                rate: 0,
                volume: 0,
            },
        }
    }
}

/// Normalizes a raw MS Edge synthesis response into an audio payload: each
/// response byte becomes one sample, and the engine's format name and
/// metadata are kept opaquely rather than read as a PCM description.
pub fn normalize_msedge(
    audio_bytes: &Vec<u8>,
    audio_format: String,
    metadata: Vec<AudioMetadata>,
) -> (r: SynthesizedAudio<i32>)
    ensures
        r.data@.len() == audio_bytes@.len(),
        forall|i: int| 0 <= i < r.data@.len() ==> r.data@[i] == audio_bytes@[i] as i32,
        r.spec matches Spec::Synthesized(f, m) && f == audio_format && m == metadata,
        r.duration is None,
{
    let mut data: Vec<i32> = Vec::new();
    let mut idx: usize = 0;
    while idx < audio_bytes.len()
        invariant
            idx <= audio_bytes@.len(),
            data@.len() == idx,
            forall|i: int| 0 <= i < idx ==> data@[i] == audio_bytes@[i] as i32,
        decreases audio_bytes@.len() - idx,
    {
        data.push(audio_bytes[idx] as i32);
        idx = idx + 1;
    }
    SynthesizedAudio::new(data, Spec::Synthesized(audio_format, metadata), None)
}

} // verus!
