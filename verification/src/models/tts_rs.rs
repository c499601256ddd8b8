//! The OS speech backend.
//!
//! The engine speaks through the operating system and manages its own
//! playback; it produces no file and no in-memory samples.  The one
//! decision this backend makes — whether a new utterance may start while
//! one is in progress — is taken here.

use vstd::prelude::*;
use crate::TtsError;

verus! {

/// The OS speech backend.  The engine itself is process state owned by the
/// caller; the facade only needs to know the backend is loaded.
#[derive(Clone, Copy, Debug, PartialEq, Eq, Structural)]
pub struct TtsModel {
}

/// The decision taken before speaking: whether to issue a new utterance.
#[derive(Clone, Copy, Debug, PartialEq, Eq, Structural)]
pub struct SpeakPlan {
    /// Issue a new utterance; when false, the call is a silent no-op
    /// because the engine is already speaking.
    pub speak: bool,
}

/// Whether a speak decision issues an utterance, given the engine's
/// report on whether it is currently speaking.
pub open spec fn spec_plan_speak(is_speaking: Option<bool>) -> bool {
    is_speaking != Some(true)
}

/// Saying something while the engine reports it is already speaking is a
/// silent no-op: the decision never errs, and no second overlapping
/// utterance is issued; in every other case the utterance is issued.
pub proof fn lemma_say_while_speaking_is_noop()
    ensures
        !spec_plan_speak(Some(true)),
        spec_plan_speak(Some(false)),
        spec_plan_speak(None::<bool>),
{
}

impl TtsModel {
    /// Constructing the backend cannot fail locally; the engine is brought
    /// up by the caller.
    pub fn new() -> (r: Result<Self, TtsError>)
        ensures
            r == Result::<TtsModel, TtsError>::Ok((TtsModel {  })),
    {
        Ok(TtsModel {  })
    }

    /// This backend cannot render a file.
    pub fn save(&self, _message: &str, _path: &str) -> (r: Result<(), TtsError>)
        ensures
            r == Result::<(), TtsError>::Err(TtsError::NotSupported),
    {
        Err(TtsError::NotSupported)
    }

    /// This backend cannot produce in-memory samples.
    pub fn synthesize(&self, _message: &str) -> (r: Result<(), TtsError>)
        ensures
            r == Result::<(), TtsError>::Err(TtsError::NotSupported),
    {
        Err(TtsError::NotSupported)
    }

    /// Decides whether to speak, given the engine's report on whether it is
    /// currently speaking (or no report, when the engine could not say).
    /// A call while the engine is already speaking is a silent no-op, never
    /// an error and never a second overlapping utterance.
    pub fn plan_speak(&self, is_speaking: Option<bool>) -> (r: SpeakPlan)
        ensures
            r.speak == spec_plan_speak(is_speaking),
    {
        match is_speaking {
            Some(true) => SpeakPlan { speak: false },
            _ => SpeakPlan { speak: true },
        }
    }
}

impl Default for TtsModel {
    fn default() -> (r: Self)
        ensures
            r == (TtsModel {  }),
    {
        TtsModel {  }
    }
}

} // verus!
