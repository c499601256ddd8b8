//! The Parler backend.
//!
//! A neural model run by the caller's engine; the library holds the plain
//! parameters the engine is driven with: the voice description, the model
//! name, and the sampling seed.

use vstd::prelude::*;
use crate::NaturalError;

verus! {

/// Construction parameters for the Parler backend.
#[derive(Clone, Debug)]
pub struct ParlerModelOptions {
    /// Run on the plain processor even when an accelerator is available.
    pub cpu: bool,
    /// The description of the voice to generate.
    pub description: String,
    /// Emit an engine trace while generating.
    pub tracing: bool,
    /// The sampling seed.
    pub seed: u64,
    /// The model the engine loads.
    pub model_name: String,
}

impl Default for ParlerModelOptions {
    /// The stock model, no description, a fixed seed.
    fn default() -> (r: Self)
        ensures
            r.cpu == false,
            r.description@ == ""@,
            r.tracing == false,
            r.seed == 299792458,
            r.model_name@ == "parler-tts/parler-tts-mini-v1"@,
    {
        Self {
            cpu: false,
            description: "".to_owned(),
            tracing: false,
            seed: 299792458,
            model_name: "parler-tts/parler-tts-mini-v1".to_owned(),
        }
    }
}

/// The Parler backend: what the caller's engine generates with.
#[derive(Clone, Debug)]
pub struct ParlerModel {
    description: String,
    model_name: String,
    seed: u64,
}

impl ParlerModel {
    /// Builds the backend from its options; construction itself cannot
    /// fail locally, the engine is loaded by the caller.
    pub fn new(options: ParlerModelOptions) -> (r: Result<Self, NaturalError>)
        ensures
            r matches Ok(m) && m.spec_description() == options.description@ && m.spec_model_name()
                == options.model_name@ && m.spec_seed() == options.seed,
    {
        Ok(
            Self {
                description: options.description,
                model_name: options.model_name,
                seed: options.seed,
            },
        )
    }

    pub closed spec fn spec_description(&self) -> Seq<char> {
        self.description@
    }

    pub closed spec fn spec_model_name(&self) -> Seq<char> {
        self.model_name@
    }

    pub closed spec fn spec_seed(&self) -> u64 {
        self.seed
    }

    /// The description of the voice to generate.
    pub fn description(&self) -> (r: &String)
        ensures
            r@ == self.spec_description(),
    {
        &self.description
    }

    /// The model the engine loads.
    pub fn model_name(&self) -> (r: &String)
        ensures
            r@ == self.spec_model_name(),
    {
        &self.model_name
    }

    /// The sampling seed.
    pub fn seed(&self) -> (r: u64)
        ensures
            r == self.spec_seed(),
    {
        self.seed
    }
}

impl Default for ParlerModel {
    /// The expressive stock model with a calm female voice.
    fn default() -> (r: Self)
        ensures
            r.spec_description() == "A female speaker in fast calming voice in a quiet environment"@,
            r.spec_model_name() == "parler-tts/parler-tts-mini-expresso"@,
            r.spec_seed() == 299792458,
    {
        Self {
            description: "A female speaker in fast calming voice in a quiet environment".to_owned(),
            model_name: "parler-tts/parler-tts-mini-expresso".to_owned(),
            seed: 299792458,
        }
    }
}

} // verus!
