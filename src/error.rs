//! The errors of opening an engine and of running a generation call.
use vstd::prelude::*;
use crate::options::OptionField;

verus! {

/// Why open-time settings were refused before the engine was asked.
#[derive(Clone, Copy, Debug, PartialEq, Eq, Structural)]
pub enum SettingsIssue {
    /// A thread count that must be positive is zero.
    ZeroThreads,
    /// A device index is negative.
    NegativeDeviceIndex,
}

/// An error of the engine or of a call to it.
#[derive(Debug, PartialEq, Eq)]
pub enum EngineError {
    /// The model could not be loaded (path, format or precision).
    Load(String),
    /// A requested device is not available.
    Device(String),
    /// Open-time settings are malformed.
    Configuration(SettingsIssue),
    /// The decoding options of a call break an invariant.
    InvalidConfiguration(OptionField),
    /// Admission refused: the queue bound is reached.
    Overloaded,
    /// Decoding failed inside the engine; nothing can be resumed.
    Failure(String),
}

/// What a caller should do about an error.
#[derive(Clone, Copy, Debug, PartialEq, Eq, Structural)]
pub enum Remedy {
    /// Correct the input or the settings, then call again.
    FixInput,
    /// The engine is busy: retry later or shed load.
    RetryLater,
    /// Unrecoverable: do not retry.
    GiveUp,
}

pub open spec fn remedy_of(e: EngineError) -> Remedy {
    match e {
        EngineError::Configuration(_) | EngineError::InvalidConfiguration(_) => Remedy::FixInput,
        EngineError::Overloaded => Remedy::RetryLater,
        EngineError::Load(_) | EngineError::Device(_) | EngineError::Failure(_) => Remedy::GiveUp,
    }
}

impl EngineError {
    pub fn remedy(&self) -> (r: Remedy)
        ensures
            r == remedy_of(*self),
    {
        match self {
            EngineError::Configuration(_) | EngineError::InvalidConfiguration(_) => Remedy::FixInput,
            EngineError::Overloaded => Remedy::RetryLater,
            EngineError::Load(_) | EngineError::Device(_) | EngineError::Failure(_) => Remedy::GiveUp,
        }
    }
}

} // verus!
