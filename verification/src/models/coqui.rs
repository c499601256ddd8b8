//! The Coqui backend.
//!
//! The engine runs through an embedded interpreter owned by the caller;
//! the library holds the model name and the processor choice, and makes the
//! processor decision from the engine's report on accelerator availability.

use vstd::prelude::*;
use crate::NaturalError;

verus! {

/// The processor a backend runs on, given whether the caller asked for the
/// accelerator and whether the engine reports one available.
pub open spec fn spec_pick_device(use_gpu: bool, cuda_available: bool) -> Seq<char> {
    if use_gpu && cuda_available {
        "cuda:0"@
    } else {
        "cpu"@
    }
}

/// Picks the processor: the first accelerator when it was asked for and is
/// available, the plain processor otherwise.
pub fn pick_device(use_gpu: bool, cuda_available: bool) -> (r: String)
    ensures
        r@ == spec_pick_device(use_gpu, cuda_available),
{
    if use_gpu && cuda_available {
        "cuda:0".to_owned()
    } else {
        "cpu".to_owned()
    }
}

/// The Coqui backend: the model to load and the processor to run it on.
#[derive(Clone, Debug)]
pub struct CoquiModel {
    model_name: String,
    device: String,
}

impl CoquiModel {
    /// Builds the backend for a model.  `cuda_available` is the engine's
    /// report on whether an accelerator is present; construction itself
    /// cannot fail locally.
    pub fn new(model_name: String, use_gpu: bool, cuda_available: bool) -> (r: Result<
        Self,
        NaturalError,
    >)
        ensures
            r matches Ok(m) && m.spec_model_name() == model_name@ && m.spec_device()
                == spec_pick_device(use_gpu, cuda_available),
    {
        let device = pick_device(use_gpu, cuda_available);
        Ok(Self { model_name, device })
    }

    pub closed spec fn spec_model_name(&self) -> Seq<char> {
        self.model_name@
    }

    pub closed spec fn spec_device(&self) -> Seq<char> {
        self.device@
    }

    /// The name of the model the engine loads.
    pub fn model_name(&self) -> (r: &String)
        ensures
            r@ == self.spec_model_name(),
    {
        &self.model_name
    }

    /// The processor the engine runs on.
    pub fn device(&self) -> (r: &String)
        ensures
            r@ == self.spec_device(),
    {
        &self.device
    }
}

impl Default for CoquiModel {
    /// The stock English voice, on the plain processor: without an engine
    /// report no accelerator is assumed.
    fn default() -> (r: Self)
        ensures
            r.spec_model_name() == "tts_models/en/ljspeech/vits"@,
            r.spec_device() == "cpu"@,
    {
        Self {
            model_name: "tts_models/en/ljspeech/vits".to_owned(),
            device: pick_device(true, false),
        }
    }
}

} // verus!
