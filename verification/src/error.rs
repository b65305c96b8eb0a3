//! The failure taxonomy shared by every layer of the crate.

use vstd::prelude::*;

verus! {

/// Broad families of failure, as a caller would act on them.
#[derive(Clone, Copy, Debug, PartialEq, Eq, Structural)]
pub enum ErrorClass {
    /// The caller handed over something unusable.
    Input,
    /// The shared instance was not in a state to serve the call.
    State,
    /// The tokenizer rejected the text.
    Tokenization,
    /// The model could not be loaded, fed or read.
    Model,
}

/// Every way an operation of this crate can fail.
#[derive(Clone, Copy, Debug, PartialEq, Eq, Structural)]
pub enum EmbedError {
    /// A required argument was absent.
    NullPointer,
    /// The model path was not valid UTF-8.
    InvalidModelPath,
    /// The tokenizer name was not valid UTF-8.
    InvalidTokenizerName,
    /// The text to embed was not valid UTF-8.
    InvalidText,
    /// The guard around the shared instance was poisoned.
    LockPoisoned,
    /// No instance has been installed yet.
    NotInitialized,
    /// The tokenizer failed on the text.
    Tokenization,
    /// The session or the tokenizer could not be constructed.
    ModelLoad,
    /// The run failed, or its output was absent or not a 32-bit float tensor
    /// of the expected layout.
    Inference,
    /// Input sequences or tensors disagree in length, or a tensor would be
    /// empty.
    Shape,
}

impl EmbedError {
    /// The family this failure belongs to.
    pub open spec fn class_spec(self) -> ErrorClass {
        match self {
            EmbedError::NullPointer
            | EmbedError::InvalidModelPath
            | EmbedError::InvalidTokenizerName
            | EmbedError::InvalidText => ErrorClass::Input,
            EmbedError::LockPoisoned | EmbedError::NotInitialized => ErrorClass::State,
            EmbedError::Tokenization => ErrorClass::Tokenization,
            EmbedError::ModelLoad | EmbedError::Inference | EmbedError::Shape => ErrorClass::Model,
        }
    }

    /// The family this failure belongs to.
    pub fn class(&self) -> (c: ErrorClass)
        ensures
            c == self.class_spec(),
    {
        match self {
            EmbedError::NullPointer => ErrorClass::Input,
            EmbedError::InvalidModelPath => ErrorClass::Input,
            EmbedError::InvalidTokenizerName => ErrorClass::Input,
            EmbedError::InvalidText => ErrorClass::Input,
            EmbedError::LockPoisoned => ErrorClass::State,
            EmbedError::NotInitialized => ErrorClass::State,
            EmbedError::Tokenization => ErrorClass::Tokenization,
            EmbedError::ModelLoad => ErrorClass::Model,
            EmbedError::Inference => ErrorClass::Model,
            EmbedError::Shape => ErrorClass::Model,
        }
    }

    /// True for the failures that arise inside the embedding pipeline
    /// itself, after the arguments and the registry have been accepted.
    pub open spec fn is_pipeline_failure(self) -> bool {
        self.class_spec() == ErrorClass::Tokenization || self.class_spec() == ErrorClass::Model
    }
}

} // verus!
