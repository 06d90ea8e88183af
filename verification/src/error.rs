use vstd::prelude::*;
use vstd::string::StringExecFns;

verus! {

/// The ways a run can fail. Every failure is fatal: the caller reports the
/// message and stops, nothing is retried or recovered.
#[derive(Debug)]
pub enum StepError {
    /// A required configuration variable was absent from the environment.
    MissingConfig { variable: String },
    /// The output directory could not be created.
    DirectoryCreateFailure,
    /// A page of results could not be fetched from the platform.
    PageFetchFailure,
    /// Accumulated records could not be serialized to JSON.
    SerializationFailure,
    /// An output file could not be written.
    FileWriteFailure,
}

impl StepError {
    /// The message that describes this failure, as a sequence of characters.
    pub open spec fn message_spec(self) -> Seq<char> {
        match self {
            StepError::MissingConfig { variable } => variable@ + " must be set in the environment."@,
            StepError::DirectoryCreateFailure => "failed to create the output directory."@,
            StepError::PageFetchFailure => "failed to fetch a page of results."@,
            StepError::SerializationFailure => "failed to serialize records to JSON."@,
            StepError::FileWriteFailure => "failed to write an output file."@,
        }
    }

    /// A human-readable description of the failed step.
    pub fn message(&self) -> (r: String)
        ensures
            r@ == self.message_spec(),
    {
        match self {
            StepError::MissingConfig { variable } => variable.clone().concat(
                " must be set in the environment.",
            ),
            StepError::DirectoryCreateFailure => "failed to create the output directory.".to_owned(),
            StepError::PageFetchFailure => "failed to fetch a page of results.".to_owned(),
            StepError::SerializationFailure => "failed to serialize records to JSON.".to_owned(),
            StepError::FileWriteFailure => "failed to write an output file.".to_owned(),
        }
    }
}

} // verus!
