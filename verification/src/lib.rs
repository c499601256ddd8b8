//! A unifying facade over heterogeneous text-to-speech backends.
//!
//! The library holds one optional slot per backend kind, a selected default
//! backend, and an optional playback handle.  Each public operation routes to
//! the selected backend, or fails with a named error when no backend is
//! selected or the selected slot is empty.  Work that needs an engine, the
//! network or an audio device is described by a request value that the caller
//! carries out; everything the library decides is stated in contracts.

pub mod models;
pub mod utils;

use vstd::prelude::*;
use vstd::utf8::encode_utf8;
use crate::models::coqui::CoquiModel;
use crate::models::gtts::{gtts_url, GttsModel, MAX_TEXT_LEN};
use crate::models::meta::{MetaModel, META_SAMPLE_RATE};
use crate::models::msedge::MSEdgeModel;
use crate::models::parler::ParlerModel;
use crate::models::tts_rs::TtsModel;
use crate::models::{AudioHandler, SaveRequest, StartRequest, SynthRequest};

verus! {

/// Identifies which backend kind is authoritative for facade operations.
#[derive(Clone, Copy, Debug, PartialEq, Eq, Structural)]
pub enum Model {
    Coqui,
    Parler,
    TTS,
    MSEdge,
    Meta,
    Gtts,
}

impl Default for Model {
    /// The default backend kind is the Google translate backend.
    fn default() -> (r: Self)
        ensures
            r == Model::Gtts,
    {
        Model::Gtts
    }
}

/// The error taxonomy of the facade.
#[derive(Clone, Copy, Debug, PartialEq, Eq, Structural)]
pub enum TtsError {
    /// The operation is valid for the facade but not for this backend or handle kind.
    NotSupported,
    /// A generic failure reported by an engine.
    OperationFailed,
    /// The selected backend slot is empty, or no playback handle is active.
    NotLoaded,
    /// A save reported success but left no readable file.
    NotSaved,
    /// No default backend is selected.
    NoDefaultModel,
    /// A tensor computation failed in a neural backend.
    Tensor,
    /// A tokenizer resource was missing in a neural backend.
    NoTokenizerKey,
    /// Configuration data could not be parsed.
    Json,
}

impl TtsError {
    /// The human-readable description of each error.
    pub open spec fn message_spec(&self) -> Seq<char> {
        match self {
            TtsError::NotSupported => "Not Supported"@,
            TtsError::OperationFailed => "Operation failed"@,
            TtsError::NotLoaded => "Model Not Loaded"@,
            TtsError::NotSaved => "Didn't Save"@,
            TtsError::NoDefaultModel => "Default model not set"@,
            TtsError::Tensor => "Tensor Error"@,
            TtsError::NoTokenizerKey => "No Tokenizer Key"@,
            TtsError::Json => "Json Error"@,
        }
    }

    /// A human-readable description of the error.
    pub fn message(&self) -> (r: String)
        ensures
            r@ == self.message_spec(),
    {
        match self {
            TtsError::NotSupported => "Not Supported".to_owned(),
            TtsError::OperationFailed => "Operation failed".to_owned(),
            TtsError::NotLoaded => "Model Not Loaded".to_owned(),
            TtsError::NotSaved => "Didn't Save".to_owned(),
            TtsError::NoDefaultModel => "Default model not set".to_owned(),
            TtsError::Tensor => "Tensor Error".to_owned(),
            TtsError::NoTokenizerKey => "No Tokenizer Key".to_owned(),
            TtsError::Json => "Json Error".to_owned(),
        }
    }
}

/// An error surfaced at the facade boundary: either one of the named
/// facade errors, or a message from a backend, preserved verbatim.
#[derive(Clone, Debug, PartialEq, Eq)]
pub enum NaturalError {
    /// One of the facade's named errors.
    Tts(TtsError),
    /// A backend failure, with its original message preserved.
    Msg(String),
}

/// What the caller must stop when a playback handle is released.
#[derive(Clone, Copy, Debug, PartialEq, Eq, Structural)]
pub enum StopTarget {
    /// Stop the streaming sink.
    Sink,
    /// Ask the OS speech engine to stop its utterance.
    Engine,
}

/// The facade: one optional slot per backend kind, the selected default
/// backend, and the current playback handle.
#[derive(Clone, Debug)]
pub struct NaturalTts {
    pub default_model: Option<Model>,
    pub audio_handler: Option<AudioHandler>,
    pub tts_model: Option<TtsModel>,
    pub parler_model: Option<ParlerModel>,
    pub coqui_model: Option<CoquiModel>,
    pub gtts_model: Option<GttsModel>,
    pub msedge_model: Option<MSEdgeModel>,
    pub meta_model: Option<MetaModel>,
}

impl NaturalTts {
    /// Whether the slot for a backend kind holds an instance.
    pub open spec fn slot_loaded(&self, m: Model) -> bool {
        match m {
            Model::Coqui => self.coqui_model is Some,
            Model::Parler => self.parler_model is Some,
            Model::TTS => self.tts_model is Some,
            Model::MSEdge => self.msedge_model is Some,
            Model::Meta => self.meta_model is Some,
            Model::Gtts => self.gtts_model is Some,
        }
    }

    /// The routing every operation performs first: no selected backend
    /// fails with the no-default error, a selected backend whose slot is
    /// empty fails as not loaded, anything else routes to the selection.
    pub open spec fn route_spec(&self) -> Result<Model, TtsError> {
        match self.default_model {
            None => Err(TtsError::NoDefaultModel),
            Some(m) => if self.slot_loaded(m) {
                Ok(m)
            } else {
                Err(TtsError::NotLoaded)
            },
        }
    }

    /// Routes to the selected backend kind, or reports why that fails.
    pub fn route(&self) -> (r: Result<Model, TtsError>)
        ensures
            r == self.route_spec(),
    {
        match &self.default_model {
            None => Err(TtsError::NoDefaultModel),
            Some(m) => {
                let loaded = match m {
                    Model::Coqui => self.coqui_model.is_some(),
                    Model::Parler => self.parler_model.is_some(),
                    Model::TTS => self.tts_model.is_some(),
                    Model::MSEdge => self.msedge_model.is_some(),
                    Model::Meta => self.meta_model.is_some(),
                    Model::Gtts => self.gtts_model.is_some(),
                };
                if loaded {
                    Ok(*m)
                } else {
                    Err(TtsError::NotLoaded)
                }
            },
        }
    }

    /// Prepares a save: renders the message to an audio file at the path.
    /// Routing failures surface as the named errors; the OS speech backend
    /// cannot produce a file; the Google translate backend rejects a
    /// message over the provider's ceiling locally, with its message
    /// preserved, and otherwise yields exactly the request URL.
    pub fn save(&mut self, message: String, path: String) -> (r: Result<SaveRequest, NaturalError>)
        ensures
            *final(self) == *old(self),
            old(self).route_spec() matches Err(e) ==> r == Result::<
                SaveRequest,
                NaturalError,
            >::Err(NaturalError::Tts(e)),
            old(self).route_spec() == Ok::<Model, TtsError>(Model::TTS) ==> r == Result::<
                SaveRequest,
                NaturalError,
            >::Err(NaturalError::Tts(TtsError::NotSupported)),
            old(self).route_spec() == Ok::<Model, TtsError>(Model::Gtts) ==> {
                &&& gtts_reject_post(message@, r)
                &&& gtts_msg_ok(message@) ==> (r matches Ok(req) && gtts_save_req(
                    old(self).gtts_model->Some_0,
                    message@,
                    path@,
                    req,
                ))
            },
            old(self).route_spec() == Ok::<Model, TtsError>(Model::Coqui) ==> (r matches Ok(req)
                && coqui_save_req(old(self).coqui_model->Some_0, message@, path@, req)),
            old(self).route_spec() == Ok::<Model, TtsError>(Model::MSEdge) ==> (r matches Ok(req)
                && msedge_save_req(old(self).msedge_model->Some_0, message@, path@, req)),
            old(self).route_spec() == Ok::<Model, TtsError>(Model::Meta) ==> (r matches Ok(req)
                && meta_save_req(old(self).meta_model->Some_0, message@, path@, req)),
            old(self).route_spec() == Ok::<Model, TtsError>(Model::Parler) ==> (r matches Ok(req)
                && parler_save_req(old(self).parler_model->Some_0, message@, path@, req)),
    {
        let model = match &self.default_model {
            None => {
                return Err(NaturalError::Tts(TtsError::NoDefaultModel));
            },
            Some(m) => *m,
        };
        match model {
            Model::Coqui => match &self.coqui_model {
                Some(x) => Ok(
                    SaveRequest::Coqui {
                        model_name: x.model_name().clone(),
                        device: x.device().clone(),
                        message,
                        path,
                    },
                ),
                None => Err(NaturalError::Tts(TtsError::NotLoaded)),
            },
            Model::Parler => match &self.parler_model {
                Some(x) => Ok(
                    SaveRequest::Parler {
                        description: x.description().clone(),
                        model_name: x.model_name().clone(),
                        seed: x.seed(),
                        message,
                        path,
                    },
                ),
                None => Err(NaturalError::Tts(TtsError::NotLoaded)),
            },
            Model::TTS => match &self.tts_model {
                Some(_) => Err(NaturalError::Tts(TtsError::NotSupported)),
                None => Err(NaturalError::Tts(TtsError::NotLoaded)),
            },
            Model::MSEdge => match &self.msedge_model {
                Some(x) => Ok(
                    SaveRequest::MsEdge {
                        config: x.config().clone(),
                        message,
                        rate: x.effective_rate(),
                        path,
                    },
                ),
                None => Err(NaturalError::Tts(TtsError::NotLoaded)),
            },
            Model::Meta => match &self.meta_model {
                Some(x) => {
                    let spk_emb = match x.spk_emb() {
                        Some(s) => Some(s.clone()),
                        None => None,
                    };
                    Ok(
                        SaveRequest::Meta {
                            repo_path: x.repo_path().clone(),
                            seed: x.seed(),
                            max_tokens: x.max_tokens(),
                            encodec_ntokens: x.encodec_ntokens(),
                            spk_emb,
                            message,
                            rate: META_SAMPLE_RATE,
                            path,
                        },
                    )
                },
                None => Err(NaturalError::Tts(TtsError::NotLoaded)),
            },
            Model::Gtts => match &self.gtts_model {
                Some(x) => match x.generate(message.as_str()) {
                    Ok(url) => Ok(SaveRequest::Gtts { url, path }),
                    Err(e) => Err(NaturalError::Msg(e)),
                },
                None => Err(NaturalError::Tts(TtsError::NotLoaded)),
            },
        }
    }

    /// Prepares a synthesis: in-memory samples for the message, without
    /// audible playback.  File-rendering backends go through the generic
    /// fallback — save to the path, then decode the produced file; engines
    /// that yield samples or bytes directly are asked directly.  The OS
    /// speech backend supports no synthesis.
    pub fn synthesize(&mut self, message: String, path: String) -> (r: Result<
        SynthRequest,
        NaturalError,
    >)
        ensures
            *final(self) == *old(self),
            old(self).route_spec() matches Err(e) ==> r == Result::<
                SynthRequest,
                NaturalError,
            >::Err(NaturalError::Tts(e)),
            old(self).route_spec() == Ok::<Model, TtsError>(Model::TTS) ==> r == Result::<
                SynthRequest,
                NaturalError,
            >::Err(NaturalError::Tts(TtsError::NotSupported)),
            old(self).route_spec() == Ok::<Model, TtsError>(Model::Gtts) ==> {
                &&& gtts_reject_post(message@, r)
                &&& gtts_msg_ok(message@) ==> (r matches Ok(SynthRequest::ViaFile(req))
                    && gtts_save_req(old(self).gtts_model->Some_0, message@, path@, req))
            },
            old(self).route_spec() == Ok::<Model, TtsError>(Model::Coqui) ==> (r matches Ok(
                SynthRequest::ViaFile(req),
            ) && coqui_save_req(old(self).coqui_model->Some_0, message@, path@, req)),
            old(self).route_spec() == Ok::<Model, TtsError>(Model::MSEdge) ==> (r matches Ok(
                SynthRequest::MsEdge { config, message: m },
            ) && config == old(self).msedge_model->Some_0.spec_config() && m@ == message@),
            old(self).route_spec() == Ok::<Model, TtsError>(Model::Meta) ==> (r matches Ok(
                SynthRequest::Meta { repo_path, seed, max_tokens, encodec_ntokens, spk_emb, message: m },
            ) && repo_path@ == old(self).meta_model->Some_0.spec_repo_path() && seed == old(
                self,
            ).meta_model->Some_0.spec_seed() && max_tokens == old(
                self,
            ).meta_model->Some_0.spec_max_tokens() && encodec_ntokens == old(
                self,
            ).meta_model->Some_0.spec_encodec_ntokens() && spk_emb == old(
                self,
            ).meta_model->Some_0.spec_spk_emb() && m@ == message@),
            old(self).route_spec() == Ok::<Model, TtsError>(Model::Parler) ==> (r matches Ok(
                SynthRequest::Parler { description, model_name, seed, message: m },
            ) && description@ == old(self).parler_model->Some_0.spec_description() && model_name@
                == old(self).parler_model->Some_0.spec_model_name() && seed == old(
                self,
            ).parler_model->Some_0.spec_seed() && m@ == message@),
    {
        let model = match &self.default_model {
            None => {
                return Err(NaturalError::Tts(TtsError::NoDefaultModel));
            },
            Some(m) => *m,
        };
        match model {
            Model::Coqui => match &self.coqui_model {
                Some(x) => Ok(
                    SynthRequest::ViaFile(
                        SaveRequest::Coqui {
                            model_name: x.model_name().clone(),
                            device: x.device().clone(),
                            message,
                            path,
                        },
                    ),
                ),
                None => Err(NaturalError::Tts(TtsError::NotLoaded)),
            },
            Model::Parler => match &self.parler_model {
                Some(x) => Ok(
                    SynthRequest::Parler {
                        description: x.description().clone(),
                        model_name: x.model_name().clone(),
                        seed: x.seed(),
                        message,
                    },
                ),
                None => Err(NaturalError::Tts(TtsError::NotLoaded)),
            },
            Model::TTS => match &self.tts_model {
                Some(_) => Err(NaturalError::Tts(TtsError::NotSupported)),
                None => Err(NaturalError::Tts(TtsError::NotLoaded)),
            },
            Model::MSEdge => match &self.msedge_model {
                Some(x) => Ok(SynthRequest::MsEdge { config: x.config().clone(), message }),
                None => Err(NaturalError::Tts(TtsError::NotLoaded)),
            },
            Model::Meta => match &self.meta_model {
                Some(x) => {
                    let spk_emb = match x.spk_emb() {
                        Some(s) => Some(s.clone()),
                        None => None,
                    };
                    Ok(
                        SynthRequest::Meta {
                            repo_path: x.repo_path().clone(),
                            seed: x.seed(),
                            max_tokens: x.max_tokens(),
                            encodec_ntokens: x.encodec_ntokens(),
                            spk_emb,
                            message,
                        },
                    )
                },
                None => Err(NaturalError::Tts(TtsError::NotLoaded)),
            },
            Model::Gtts => match &self.gtts_model {
                Some(x) => match x.generate(message.as_str()) {
                    Ok(url) => Ok(SynthRequest::ViaFile(SaveRequest::Gtts { url, path })),
                    Err(e) => Err(NaturalError::Msg(e)),
                },
                None => Err(NaturalError::Tts(TtsError::NotLoaded)),
            },
        }
    }

    /// Prepares a playback start.  File-rendering backends save at the
    /// path and play the produced file through a streaming sink; the MS
    /// Edge engine's bytes are played directly; the OS speech engine
    /// speaks by itself behind an opaque handle, after the idempotence
    /// decision.  On success the caller performs the request and records
    /// the resulting handle with [`NaturalTts::finish_start`].
    pub fn start(&mut self, message: String, path: String) -> (r: Result<
        StartRequest,
        NaturalError,
    >)
        ensures
            *final(self) == *old(self),
            start_post(*old(self), message@, path@, r),
    {
        let model = match &self.default_model {
            None => {
                return Err(NaturalError::Tts(TtsError::NoDefaultModel));
            },
            Some(m) => *m,
        };
        match model {
            Model::Coqui => match &self.coqui_model {
                Some(x) => Ok(
                    StartRequest::PlayFile(
                        SaveRequest::Coqui {
                            model_name: x.model_name().clone(),
                            device: x.device().clone(),
                            message,
                            path,
                        },
                    ),
                ),
                None => Err(NaturalError::Tts(TtsError::NotLoaded)),
            },
            Model::Parler => match &self.parler_model {
                Some(x) => Ok(
                    StartRequest::PlayFile(
                        SaveRequest::Parler {
                            description: x.description().clone(),
                            model_name: x.model_name().clone(),
                            seed: x.seed(),
                            message,
                            path,
                        },
                    ),
                ),
                None => Err(NaturalError::Tts(TtsError::NotLoaded)),
            },
            Model::TTS => match &self.tts_model {
                Some(_) => Ok(StartRequest::Tts { message }),
                None => Err(NaturalError::Tts(TtsError::NotLoaded)),
            },
            Model::MSEdge => match &self.msedge_model {
                Some(x) => Ok(
                    StartRequest::MsEdge {
                        config: x.config().clone(),
                        message,
                        rate: x.effective_rate(),
                    },
                ),
                None => Err(NaturalError::Tts(TtsError::NotLoaded)),
            },
            Model::Meta => match &self.meta_model {
                Some(x) => {
                    let spk_emb = match x.spk_emb() {
                        Some(s) => Some(s.clone()),
                        None => None,
                    };
                    Ok(
                        StartRequest::PlayFile(
                            SaveRequest::Meta {
                                repo_path: x.repo_path().clone(),
                                seed: x.seed(),
                                max_tokens: x.max_tokens(),
                                encodec_ntokens: x.encodec_ntokens(),
                                spk_emb,
                                message,
                                rate: META_SAMPLE_RATE,
                                path,
                            },
                        ),
                    )
                },
                None => Err(NaturalError::Tts(TtsError::NotLoaded)),
            },
            Model::Gtts => match &self.gtts_model {
                Some(x) => match x.generate(message.as_str()) {
                    Ok(url) => Ok(StartRequest::PlayFile(SaveRequest::Gtts { url, path })),
                    Err(e) => Err(NaturalError::Msg(e)),
                },
                None => Err(NaturalError::Tts(TtsError::NotLoaded)),
            },
        }
    }

    /// Produces audible output for the message, fire-and-forget: the same
    /// preparation as [`NaturalTts::start`], but the caller discards the
    /// handle instead of recording it.  For file-rendering backends the
    /// path names where the temporary file goes.  Whether the call waits
    /// for playback to finish is the caller's policy: the facade prepares
    /// the utterance and does not block on the engine.
    pub fn say(&mut self, message: String, path: String) -> (r: Result<
        StartRequest,
        NaturalError,
    >)
        ensures
            *final(self) == *old(self),
            start_post(*old(self), message@, path@, r),
    {
        self.start(message, path)
    }

    /// Records the handle a performed start request yielded; the previous
    /// handle, if any, is replaced.  Nothing else changes.
    pub fn finish_start(&mut self, handle: AudioHandler)
        ensures
            final(self).audio_handler == Some(handle),
            final(self).default_model == old(self).default_model,
            final(self).tts_model == old(self).tts_model,
            final(self).parler_model == old(self).parler_model,
            final(self).coqui_model == old(self).coqui_model,
            final(self).gtts_model == old(self).gtts_model,
            final(self).msedge_model == old(self).msedge_model,
            final(self).meta_model == old(self).meta_model,
    {
        self.audio_handler = Some(handle);
    }

    /// Resumes the current playback.  Only a streaming sink can resume:
    /// with no handle the facade reports nothing loaded, and the opaque
    /// OS speech handle does not support resuming.  On success the caller
    /// resumes its sink.
    pub fn resume(&mut self) -> (r: Result<(), NaturalError>)
        ensures
            *final(self) == *old(self),
            old(self).audio_handler is None ==> r == Result::<(), NaturalError>::Err(
                NaturalError::Tts(TtsError::NotLoaded),
            ),
            old(self).audio_handler == Some(AudioHandler::Tts) ==> r == Result::<
                (),
                NaturalError,
            >::Err(NaturalError::Tts(TtsError::NotSupported)),
            old(self).audio_handler == Some(AudioHandler::Sink) ==> r == Result::<
                (),
                NaturalError,
            >::Ok(()),
    {
        match &self.audio_handler {
            Some(AudioHandler::Sink) => Ok(()),
            Some(AudioHandler::Tts) => Err(NaturalError::Tts(TtsError::NotSupported)),
            None => Err(NaturalError::Tts(TtsError::NotLoaded)),
        }
    }

    /// Stops the current playback, saying what the caller must stop: its
    /// sink, or the OS speech engine's own utterance — the latter only
    /// when that backend is loaded.  With no handle the facade reports
    /// nothing loaded.  The handle itself stays, so a stopped sink can be
    /// resumed.
    pub fn stop(&mut self) -> (r: Result<StopTarget, NaturalError>)
        ensures
            *final(self) == *old(self),
            old(self).audio_handler is None ==> r == Result::<StopTarget, NaturalError>::Err(
                NaturalError::Tts(TtsError::NotLoaded),
            ),
            old(self).audio_handler == Some(AudioHandler::Sink) ==> r == Result::<
                StopTarget,
                NaturalError,
            >::Ok(StopTarget::Sink),
            old(self).audio_handler == Some(AudioHandler::Tts) && old(self).tts_model is Some
                ==> r == Result::<StopTarget, NaturalError>::Ok(StopTarget::Engine),
            old(self).audio_handler == Some(AudioHandler::Tts) && old(self).tts_model is None
                ==> r == Result::<StopTarget, NaturalError>::Err(
                NaturalError::Tts(TtsError::NotSupported),
            ),
    {
        match &self.audio_handler {
            Some(AudioHandler::Sink) => Ok(StopTarget::Sink),
            Some(AudioHandler::Tts) => match &self.tts_model {
                Some(_) => Ok(StopTarget::Engine),
                None => Err(NaturalError::Tts(TtsError::NotSupported)),
            },
            None => Err(NaturalError::Tts(TtsError::NotLoaded)),
        }
    }
}

impl Default for NaturalTts {
    /// A facade with nothing selected, nothing loaded and no playback.
    fn default() -> (r: Self)
        ensures
            r.default_model is None,
            r.audio_handler is None,
            r.tts_model is None,
            r.parler_model is None,
            r.coqui_model is None,
            r.gtts_model is None,
            r.msedge_model is None,
            r.meta_model is None,
    {
        NaturalTts {
            default_model: None,
            audio_handler: None,
            tts_model: None,
            parler_model: None,
            coqui_model: None,
            gtts_model: None,
            msedge_model: None,
            meta_model: None,
        }
    }
}

/// Whether a message fits the Google translate provider: not empty and
/// within the byte-length ceiling.
pub open spec fn gtts_msg_ok(message: Seq<char>) -> bool {
    0 < encode_utf8(message).len() <= MAX_TEXT_LEN
}

/// The local rejections of the Google translate backend, with their
/// messages preserved: one over the ceiling, one for empty text.
pub open spec fn gtts_reject_post<T>(message: Seq<char>, r: Result<T, NaturalError>) -> bool {
    let bs = encode_utf8(message);
    &&& bs.len() > MAX_TEXT_LEN ==> (r matches Err(NaturalError::Msg(m)) && m@
        == "The text is too long. Max length is 100"@)
    &&& bs.len() == 0 ==> (r matches Err(NaturalError::Msg(m)) && m@ == "Empty text"@)
}

/// A prepared Google translate save: exactly the request URL for the
/// message, beside the requested path.
pub open spec fn gtts_save_req(
    g: GttsModel,
    message: Seq<char>,
    path: Seq<char>,
    req: SaveRequest,
) -> bool {
    req matches SaveRequest::Gtts { url, path: p } && url@ == gtts_url(
        g.tld@,
        g.language.spec_code(),
        encode_utf8(message),
    ) && p@ == path
}

/// A prepared Coqui save: the backend's model and processor, the message,
/// and the requested path.
pub open spec fn coqui_save_req(
    c: CoquiModel,
    message: Seq<char>,
    path: Seq<char>,
    req: SaveRequest,
) -> bool {
    req matches SaveRequest::Coqui { model_name, device, message: m, path: p } && model_name@
        == c.spec_model_name() && device@ == c.spec_device() && m@ == message && p@ == path
}

/// A prepared MS Edge save: the backend's configuration, the message, the
/// normalized rate, and the requested path.
pub open spec fn msedge_save_req(
    x: MSEdgeModel,
    message: Seq<char>,
    path: Seq<char>,
    req: SaveRequest,
) -> bool {
    req matches SaveRequest::MsEdge { config, message: m, rate, path: p } && config
        == x.spec_config() && m@ == message && rate == x.spec_effective_rate() && p@ == path
}

/// A prepared Metavoice save: the backend's parameters, the message, the
/// engine's fixed output rate, and the requested path.
pub open spec fn meta_save_req(
    x: MetaModel,
    message: Seq<char>,
    path: Seq<char>,
    req: SaveRequest,
) -> bool {
    req matches SaveRequest::Meta {
        repo_path,
        seed,
        max_tokens,
        encodec_ntokens,
        spk_emb,
        message: m,
        rate,
        path: p,
    } && repo_path@ == x.spec_repo_path() && seed == x.spec_seed() && max_tokens
        == x.spec_max_tokens() && encodec_ntokens == x.spec_encodec_ntokens() && spk_emb
        == x.spec_spk_emb() && m@ == message && rate == META_SAMPLE_RATE && p@ == path
}

/// A prepared Parler save: the backend's parameters, the message, and the
/// requested path; the encoding rate is the engine's own.
pub open spec fn parler_save_req(
    x: ParlerModel,
    message: Seq<char>,
    path: Seq<char>,
    req: SaveRequest,
) -> bool {
    req matches SaveRequest::Parler { description, model_name, seed, message: m, path: p }
        && description@ == x.spec_description() && model_name@ == x.spec_model_name() && seed
        == x.spec_seed() && m@ == message && p@ == path
}

/// Everything a prepared start guarantees, for each routing outcome.
pub open spec fn start_post(
    t: NaturalTts,
    message: Seq<char>,
    path: Seq<char>,
    r: Result<StartRequest, NaturalError>,
) -> bool {
    &&& t.route_spec() matches Err(e) ==> r == Result::<StartRequest, NaturalError>::Err(
        NaturalError::Tts(e),
    )
    &&& t.route_spec() == Ok::<Model, TtsError>(Model::TTS) ==> (r matches Ok(
        StartRequest::Tts { message: m },
    ) && m@ == message)
    &&& t.route_spec() == Ok::<Model, TtsError>(Model::Gtts) ==> {
        &&& gtts_reject_post(message, r)
        &&& gtts_msg_ok(message) ==> (r matches Ok(StartRequest::PlayFile(req)) && gtts_save_req(
            t.gtts_model->Some_0,
            message,
            path,
            req,
        ))
    }
    &&& t.route_spec() == Ok::<Model, TtsError>(Model::Coqui) ==> (r matches Ok(
        StartRequest::PlayFile(req),
    ) && coqui_save_req(t.coqui_model->Some_0, message, path, req))
    &&& t.route_spec() == Ok::<Model, TtsError>(Model::MSEdge) ==> (r matches Ok(
        StartRequest::MsEdge { config, message: m, rate },
    ) && config == t.msedge_model->Some_0.spec_config() && m@ == message && rate
        == t.msedge_model->Some_0.spec_effective_rate())
    &&& t.route_spec() == Ok::<Model, TtsError>(Model::Meta) ==> (r matches Ok(
        StartRequest::PlayFile(req),
    ) && meta_save_req(t.meta_model->Some_0, message, path, req))
    &&& t.route_spec() == Ok::<Model, TtsError>(Model::Parler) ==> (r matches Ok(
        StartRequest::PlayFile(req),
    ) && parler_save_req(t.parler_model->Some_0, message, path, req))
}

/// Builds a facade field by field; any slot left out stays empty, and
/// building without a selected default backend is an error, as the
/// builder cannot guess one.
#[derive(Debug)]
pub struct NaturalTtsBuilder {
    pub default_model: Option<Model>,
    pub audio_handler: Option<AudioHandler>,
    pub tts_model: Option<TtsModel>,
    pub parler_model: Option<ParlerModel>,
    pub coqui_model: Option<CoquiModel>,
    pub gtts_model: Option<GttsModel>,
    pub msedge_model: Option<MSEdgeModel>,
    pub meta_model: Option<MetaModel>,
}

impl NaturalTtsBuilder {
    /// Selects the default backend kind.
    pub fn default_model(self, value: Model) -> (r: Self)
        ensures
            r == (NaturalTtsBuilder { default_model: Some(value), ..self }),
    {
        NaturalTtsBuilder { default_model: Some(value), ..self }
    }

    /// Sets the initial playback handle.
    pub fn audio_handler(self, value: AudioHandler) -> (r: Self)
        ensures
            r == (NaturalTtsBuilder { audio_handler: Some(value), ..self }),
    {
        NaturalTtsBuilder { audio_handler: Some(value), ..self }
    }

    /// Loads the OS speech backend.
    pub fn tts_model(self, value: TtsModel) -> (r: Self)
        ensures
            r == (NaturalTtsBuilder { tts_model: Some(value), ..self }),
    {
        NaturalTtsBuilder { tts_model: Some(value), ..self }
    }

    /// Loads the Parler backend.
    pub fn parler_model(self, value: ParlerModel) -> (r: Self)
        ensures
            r == (NaturalTtsBuilder { parler_model: Some(value), ..self }),
    {
        NaturalTtsBuilder { parler_model: Some(value), ..self }
    }

    /// Loads the Coqui backend.
    pub fn coqui_model(self, value: CoquiModel) -> (r: Self)
        ensures
            r == (NaturalTtsBuilder { coqui_model: Some(value), ..self }),
    {
        NaturalTtsBuilder { coqui_model: Some(value), ..self }
    }

    /// Loads the Google translate backend.
    pub fn gtts_model(self, value: GttsModel) -> (r: Self)
        ensures
            r == (NaturalTtsBuilder { gtts_model: Some(value), ..self }),
    {
        NaturalTtsBuilder { gtts_model: Some(value), ..self }
    }

    /// Loads the MS Edge backend.
    pub fn msedge_model(self, value: MSEdgeModel) -> (r: Self)
        ensures
            r == (NaturalTtsBuilder { msedge_model: Some(value), ..self }),
    {
        NaturalTtsBuilder { msedge_model: Some(value), ..self }
    }

    /// Loads the Metavoice backend.
    pub fn meta_model(self, value: MetaModel) -> (r: Self)
        ensures
            r == (NaturalTtsBuilder { meta_model: Some(value), ..self }),
    {
        NaturalTtsBuilder { meta_model: Some(value), ..self }
    }

    /// Builds the facade.  Every field carries over; a builder whose
    /// default backend was never selected is rejected by name.
    pub fn build(self) -> (r: Result<NaturalTts, String>)
        ensures
            self.default_model is Some ==> (r matches Ok(t) && t.default_model
                == self.default_model && t.audio_handler == self.audio_handler && t.tts_model
                == self.tts_model && t.parler_model == self.parler_model && t.coqui_model
                == self.coqui_model && t.gtts_model == self.gtts_model && t.msedge_model
                == self.msedge_model && t.meta_model == self.meta_model),
            self.default_model is None ==> (r matches Err(m) && m@
                == "`default_model` must be initialized"@),
    {
        if self.default_model.is_none() {
            return Err("`default_model` must be initialized".to_owned());
        }
        Ok(
            NaturalTts {
                default_model: self.default_model,
                audio_handler: self.audio_handler,
                tts_model: self.tts_model,
                parler_model: self.parler_model,
                coqui_model: self.coqui_model,
                gtts_model: self.gtts_model,
                msedge_model: self.msedge_model,
                meta_model: self.meta_model,
            },
        )
    }
}

impl Default for NaturalTtsBuilder {
    /// A builder with nothing selected and nothing loaded.
    fn default() -> (r: Self)
        ensures
            r.default_model is None,
            r.audio_handler is None,
            r.tts_model is None,
            r.parler_model is None,
            r.coqui_model is None,
            r.gtts_model is None,
            r.msedge_model is None,
            r.meta_model is None,
    {
        NaturalTtsBuilder {
            default_model: None,
            audio_handler: None,
            tts_model: None,
            parler_model: None,
            coqui_model: None,
            gtts_model: None,
            msedge_model: None,
            meta_model: None,
        }
    }
}

/// With no backend selected, routing fails with the no-default error —
/// so every operation on such a facade returns it, as each operation's
/// contract propagates the routing failure verbatim.
pub proof fn lemma_unset_selector_rejects(t: NaturalTts)
    requires
        t.default_model is None,
    ensures
        t.route_spec() == Err::<Model, TtsError>(TtsError::NoDefaultModel),
{
}

/// With a backend selected whose slot is empty, routing fails as not
/// loaded — so every operation on such a facade returns that error, as
/// each operation's contract propagates the routing failure verbatim.
pub proof fn lemma_empty_slot_rejects(t: NaturalTts, m: Model)
    requires
        t.default_model == Some(m),
        !t.slot_loaded(m),
    ensures
        t.route_spec() == Err::<Model, TtsError>(TtsError::NotLoaded),
{
}

} // verus!
