//! The Metavoice backend.
//!
//! A neural model run by the caller's engine; the library holds the plain
//! parameters the engine is driven with, and the fixed rate its output is
//! encoded at when saved.

use vstd::prelude::*;
use crate::NaturalError;

verus! {

/// The sample rate the engine's output is rendered at when saved.
pub const META_SAMPLE_RATE: u32 = 24000;

/// Construction parameters for the Metavoice backend.
#[derive(Clone, Debug)]
pub struct MetaModelOptions {
    /// Run on the plain processor even when an accelerator is available.
    pub cpu: bool,
    /// The model repository the engine loads.
    pub model_name: String,
    /// Emit an engine trace while generating.
    pub tracing: bool,
    /// A speaker-embedding file, when not the repository's default.
    pub spk_emb: Option<String>,
    /// The codebook size of the audio codec stage.
    pub encodec_ntokens: u32,
    /// The sampling seed.
    pub seed: u64,
    /// How many tokens the first stage may generate.
    pub max_tokens: u64,
}

impl Default for MetaModelOptions {
    /// The stock repository with its published decoding parameters.
    fn default() -> (r: Self)
        ensures
            r.cpu == false,
            r.model_name@ == "lmz/candle-metavoice"@,
            r.tracing == false,
            r.spk_emb is None,
            r.encodec_ntokens == 1024,
            r.seed == 299792458,
            r.max_tokens == 8,
    {
        Self {
            cpu: false,
            model_name: "lmz/candle-metavoice".to_owned(),
            tracing: false,
            spk_emb: None,
            encodec_ntokens: 1024,
            seed: 299792458,
            max_tokens: 8,
        }
    }
}

/// The Metavoice backend: what the caller's engine generates with.
#[derive(Clone, Debug)]
pub struct MetaModel {
    repo_path: String,
    seed: u64,
    max_tokens: u64,
    spk_emb: Option<String>,
    encodec_ntokens: u32,
}

impl MetaModel {
    /// Builds the backend from its options; construction itself cannot
    /// fail locally, the engine is loaded by the caller.
    pub fn new(options: MetaModelOptions) -> (r: Result<Self, NaturalError>)
        ensures
            r matches Ok(m) && m.spec_repo_path() == options.model_name@ && m.spec_seed()
                == options.seed && m.spec_max_tokens() == options.max_tokens && m.spec_spk_emb()
                == options.spk_emb && m.spec_encodec_ntokens() == options.encodec_ntokens,
    {
        Ok(
            Self {
                repo_path: options.model_name,
                seed: options.seed,
                max_tokens: options.max_tokens,
                spk_emb: options.spk_emb,
                encodec_ntokens: options.encodec_ntokens,
            },
        )
    }

    pub closed spec fn spec_repo_path(&self) -> Seq<char> {
        self.repo_path@
    }

    pub closed spec fn spec_seed(&self) -> u64 {
        self.seed
    }

    pub closed spec fn spec_max_tokens(&self) -> u64 {
        self.max_tokens
    }

    pub closed spec fn spec_spk_emb(&self) -> Option<String> {
        self.spk_emb
    }

    pub closed spec fn spec_encodec_ntokens(&self) -> u32 {
        self.encodec_ntokens
    }

    /// The model repository the engine loads.
    pub fn repo_path(&self) -> (r: &String)
        ensures
            r@ == self.spec_repo_path(),
    {
        &self.repo_path
    }

    /// The sampling seed.
    pub fn seed(&self) -> (r: u64)
        ensures
            r == self.spec_seed(),
    {
        self.seed
    }

    /// How many tokens the first stage may generate.
    pub fn max_tokens(&self) -> (r: u64)
        ensures
            r == self.spec_max_tokens(),
    {
        self.max_tokens
    }

    /// A speaker-embedding file, when not the repository's default.
    pub fn spk_emb(&self) -> (r: &Option<String>)
        ensures
            r == self.spec_spk_emb(),
    {
        &self.spk_emb
    }

    /// The codebook size of the audio codec stage.
    pub fn encodec_ntokens(&self) -> (r: u32)
        ensures
            r == self.spec_encodec_ntokens(),
    {
        self.encodec_ntokens
    }
}

impl Default for MetaModel {
    /// The stock repository with its published decoding parameters.
    fn default() -> (r: Self)
        ensures
            r.spec_repo_path() == "lmz/candle-metavoice"@,
            r.spec_seed() == 299792458,
            r.spec_max_tokens() == 8,
            r.spec_spk_emb() is None,
            r.spec_encodec_ntokens() == 1024,
    {
        Self {
            repo_path: "lmz/candle-metavoice".to_owned(),
            seed: 299792458,
            max_tokens: 8,
            spk_emb: None,
            encodec_ntokens: 1024,
        }
    }
}

} // verus!
