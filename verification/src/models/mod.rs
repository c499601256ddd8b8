//! Shared backend types: the audio payload produced by synthesis, the
//! playback-handle kinds, the per-backend request values that facade
//! operations prepare, and the save confirmation step.

pub mod coqui;
pub mod gtts;
pub mod meta;
pub mod msedge;
pub mod parler;
pub mod tts_rs;

use vstd::prelude::*;
use crate::TtsError;
use crate::models::msedge::{AudioMetadata, SpeechConfig};

verus! {

/// An ownership token for in-progress playback.
///
/// A streaming sink can be stopped and resumed by the caller; the opaque
/// marker stands for an utterance whose playback the OS speech engine
/// manages itself.
#[derive(Clone, Copy, Debug, PartialEq, Eq, Structural)]
pub enum AudioHandler {
    /// A stoppable, resumable streaming sink.
    Sink,
    /// The OS speech engine manages its own playback.
    Tts,
}

/// Whether a sample is stored as a signed integer or as a float.
#[derive(Clone, Copy, Debug, PartialEq, Eq, Structural)]
pub enum SampleFormat {
    Int,
    Float,
}

/// The format descriptor of an uncompressed audio container.
#[derive(Clone, Copy, Debug, PartialEq, Eq, Structural)]
pub struct WavSpec {
    pub channels: u16,
    pub sample_rate: u32,
    pub bits_per_sample: u16,
    pub sample_format: SampleFormat,
}

/// The format attached to a synthesis result.
///
/// Outputs are either a known PCM container description, an opaque
/// engine-specific stream (format name plus metadata records, not to be
/// read as PCM), or unknown.
#[derive(Clone, Debug)]
pub enum Spec {
    Wav(WavSpec),
    Synthesized(String, Vec<AudioMetadata>),
    Unknown,
}

/// A normalized synthesis result: samples, their format, and an optional
/// duration in sample frames.
#[derive(Clone, Debug)]
pub struct SynthesizedAudio<T> {
    pub spec: Spec,
    pub data: Vec<T>,
    pub duration: Option<i32>,
}

impl<T> SynthesizedAudio<T> {
    pub fn new(data: Vec<T>, spec: Spec, duration: Option<i32>) -> (r: Self)
        ensures
            r.data == data,
            r.spec == spec,
            r.duration == duration,
    {
        Self { data, spec, duration }
    }
}

/// Confirms a save: the caller reports whether the written file could be
/// opened for reading afterwards.  A backend that claimed success but left
/// no readable file surfaces an error rather than success.
pub fn did_save(file_readable: bool) -> (r: Result<(), TtsError>)
    ensures
        r is Ok <==> file_readable,
        !file_readable ==> r == Result::<(), TtsError>::Err(TtsError::NotSaved),
{
    if file_readable {
        Ok(())
    } else {
        Err(TtsError::NotSaved)
    }
}

/// A prepared save operation: everything a backend engine needs to render
/// the message to an audio file at the requested path.  The caller performs
/// the engine work and then confirms with [`did_save`].
#[derive(Clone, Debug)]
pub enum SaveRequest {
    /// Fetch the URL and write the response body to the file at the path.
    Gtts { url: String, path: String },
    /// The Coqui engine renders the file itself at the path.
    Coqui { model_name: String, device: String, message: String, path: String },
    /// The MS Edge engine yields raw audio bytes; encode them as a
    /// single-channel container at the rate and write them at the path.
    MsEdge { config: SpeechConfig, message: String, rate: u32, path: String },
    /// The Metavoice engine yields PCM samples; encode them at the rate
    /// and write them at the path.
    Meta {
        repo_path: String,
        seed: u64,
        max_tokens: u64,
        encodec_ntokens: u32,
        spk_emb: Option<String>,
        message: String,
        rate: u32,
        path: String,
    },
    /// The Parler engine yields PCM samples; encode them at the rate its
    /// own configuration names and write them at the path.
    Parler { description: String, model_name: String, seed: u64, message: String, path: String },
}

/// A prepared synthesis operation: how to obtain in-memory samples for the
/// message without audible playback.
#[derive(Clone, Debug)]
pub enum SynthRequest {
    /// Perform the save, then read the produced file's bytes back and
    /// decode them with [`crate::utils::decode_wav`].
    ViaFile(SaveRequest),
    /// The MS Edge engine returns raw bytes directly; normalize them with
    /// [`crate::models::msedge::normalize_msedge`].
    MsEdge { config: SpeechConfig, message: String },
    /// The Metavoice engine returns PCM samples directly.
    Meta {
        repo_path: String,
        seed: u64,
        max_tokens: u64,
        encodec_ntokens: u32,
        spk_emb: Option<String>,
        message: String,
    },
    /// The Parler engine returns PCM samples directly.
    Parler { description: String, model_name: String, seed: u64, message: String },
}

/// A prepared playback operation, and which handle kind it yields.
#[derive(Clone, Debug)]
pub enum StartRequest {
    /// Perform the save, then play the produced file on the default output;
    /// the resulting handle is a streaming sink.
    PlayFile(SaveRequest),
    /// The MS Edge engine yields raw bytes; play them as samples at the
    /// rate; the resulting handle is a streaming sink.
    MsEdge { config: SpeechConfig, message: String, rate: u32 },
    /// Ask the OS speech engine whether it is speaking, then follow
    /// [`crate::models::tts_rs::TtsModel::plan_speak`]; the resulting handle
    /// is the opaque engine marker.
    Tts { message: String },
}

impl StartRequest {
    /// The playback-handle kind this request yields on success.
    pub open spec fn spec_handle(&self) -> AudioHandler {
        match self {
            StartRequest::Tts { .. } => AudioHandler::Tts,
            _ => AudioHandler::Sink,
        }
    }

    /// The playback-handle kind this request yields on success: a streaming
    /// sink, except for the OS speech engine's opaque marker.
    pub fn handle_kind(&self) -> (r: AudioHandler)
        ensures
            r == self.spec_handle(),
    {
        match self {
            StartRequest::Tts { .. } => AudioHandler::Tts,
            _ => AudioHandler::Sink,
        }
    }
}

} // verus!
