//! The errors that the engine reports.

use vstd::prelude::*;

verus! {

/// What can go wrong in selecting a device, starting a run or stopping it.
#[derive(Clone, Copy, Debug, PartialEq, Eq, Structural)]
pub enum EngineError {
    /// No available device of the class reports the requested name, or the
    /// devices could not be enumerated.
    DeviceNotFound,
    /// A run was requested before both a capture and a render endpoint were
    /// selected.
    EndpointMissing,
    /// A stream could not be opened or started; the run has ended.
    StreamSetupFailed,
    /// The run did not confirm that it ended within the allowed wait. Whether
    /// it is still running is unknown: retry the stop or abandon the run.
    StopTimeout,
    /// The engine's state could not be locked.
    LockContention,
}

impl EngineError {
    /// The text of the error, for callers that report errors as strings.
    pub open spec fn spec_message(self) -> Seq<char> {
        match self {
            EngineError::DeviceNotFound => "device not found"@,
            EngineError::EndpointMissing => "input or output device is not selected"@,
            EngineError::StreamSetupFailed => "failed to open or start a stream"@,
            EngineError::StopTimeout => "stream thread couldn't stop"@,
            EngineError::LockContention => "failed to lock audio manager"@,
        }
    }

    /// The text of the error, for callers that report errors as strings.
    pub fn message(&self) -> (text: String)
        ensures
            text@ == self.spec_message(),
    {
        match self {
            EngineError::DeviceNotFound => "device not found".to_owned(),
            EngineError::EndpointMissing => "input or output device is not selected".to_owned(),
            EngineError::StreamSetupFailed => "failed to open or start a stream".to_owned(),
            EngineError::StopTimeout => "stream thread couldn't stop".to_owned(),
            EngineError::LockContention => "failed to lock audio manager".to_owned(),
        }
    }
}

} // verus!
