//! The protocol of the foreign-call boundary, free of pointers: arguments
//! arrive as optional byte strings, outcomes leave as integer status codes
//! and a length.

use vstd::prelude::*;
use vstd::string::StringSliceAdditionalSpecFns;
use vstd::utf8::valid_utf8;
use crate::error::EmbedError;
use crate::registry::Registry;

verus! {

/// Width of the embeddings of the reference model.
pub const EMBEDDING_DIM: usize = 384;

/// Status of a call that succeeded.
pub const STATUS_OK: i32 = 0;

/// Status of either call when an argument is a null pointer.
pub const STATUS_NULL_POINTER: i32 = -1;

/// Status of an initialization whose model path is not valid UTF-8.
pub const INIT_INVALID_MODEL_PATH: i32 = -2;

/// Status of an initialization whose tokenizer name is not valid UTF-8.
pub const INIT_INVALID_TOKENIZER_NAME: i32 = -3;

/// Status of an initialization that found the lock poisoned.
pub const INIT_LOCK_POISONED: i32 = -4;

/// Status of an initialization whose model or tokenizer could not be built.
pub const INIT_FAILED: i32 = -5;

/// Status of an embedding whose text is not valid UTF-8.
pub const EMBED_INVALID_TEXT: i32 = -2;

/// Status of an embedding that found the lock poisoned.
pub const EMBED_LOCK_POISONED: i32 = -3;

/// Status of an embedding asked for before any initialization succeeded.
pub const EMBED_NOT_INITIALIZED: i32 = -4;

/// Status of an embedding whose pipeline failed.
pub const EMBED_FAILED: i32 = -5;

/// Reports the embedding width of the configured model.
pub fn arrow_embed_dimension() -> (d: usize)
    ensures
        d == EMBEDDING_DIM,
        d == 384,
{
    EMBEDDING_DIM
}

/// `core::str::from_utf8`, with the error dropped: the bytes as a string
/// slice when they are valid UTF-8, `None` when they are not.
#[verifier::external_body]
pub(crate) fn from_utf8<'a>(bytes: &'a [u8]) -> (r: Option<&'a str>)
    ensures
        r is Some <==> valid_utf8(bytes@),
        r matches Some(s) ==> s.spec_bytes() == bytes@,
{
    core::str::from_utf8(bytes).ok()
}

/// Reads one text argument: `None` stands for a null pointer.
///
/// Fails with `NullPointer` exactly when the argument is absent, and with
/// `invalid` exactly when it is present but not valid UTF-8. On success the
/// text has the bytes that were passed.
pub fn text_argument<'a>(raw: Option<&'a [u8]>, invalid: EmbedError) -> (r: Result<
    &'a str,
    EmbedError,
>)
    ensures
        r is Ok <==> raw is Some && valid_utf8(raw->0@),
        r matches Ok(s) ==> s.spec_bytes() == raw->0@,
        raw is None ==> r == Err::<&str, EmbedError>(EmbedError::NullPointer),
        raw is Some && !valid_utf8(raw->0@) ==> r == Err::<&str, EmbedError>(invalid),
{
    match raw {
        None => Err(EmbedError::NullPointer),
        Some(bytes) => match from_utf8(bytes) {
            Some(s) => Ok(s),
            None => Err(invalid),
        },
    }
}

/// What the argument check of an initialization yields.
pub open spec fn init_arguments_spec(
    model_path: Option<Seq<u8>>,
    tokenizer_name: Option<Seq<u8>>,
) -> Result<(), EmbedError> {
    if model_path is None || tokenizer_name is None {
        Err(EmbedError::NullPointer)
    } else if !valid_utf8(model_path->0) {
        Err(EmbedError::InvalidModelPath)
    } else if !valid_utf8(tokenizer_name->0) {
        Err(EmbedError::InvalidTokenizerName)
    } else {
        Ok(())
    }
}

/// The bytes behind an optional argument.
pub open spec fn bytes_of(raw: Option<&[u8]>) -> Option<Seq<u8>> {
    match raw {
        Some(b) => Some(b@),
        None => None,
    }
}

/// Checks the two arguments of an initialization, in the order the
/// protocol fixes: both must be present, then the model path must be valid
/// UTF-8, then the tokenizer name.
pub fn init_arguments<'a>(model_path: Option<&'a [u8]>, tokenizer_name: Option<&'a [u8]>) -> (r:
    Result<(&'a str, &'a str), EmbedError>)
    ensures
        r is Ok <==> init_arguments_spec(bytes_of(model_path), bytes_of(tokenizer_name)) is Ok,
        r matches Err(e) ==> init_arguments_spec(bytes_of(model_path), bytes_of(tokenizer_name))
            == Err::<(), EmbedError>(e),
        r matches Ok(pair) ==> pair.0.spec_bytes() == model_path->0@ && pair.1.spec_bytes()
            == tokenizer_name->0@,
{
    if model_path.is_none() || tokenizer_name.is_none() {
        return Err(EmbedError::NullPointer);
    }
    let path = match text_argument(model_path, EmbedError::InvalidModelPath) {
        Ok(s) => s,
        Err(e) => {
            return Err(e);
        },
    };
    let name = match text_argument(tokenizer_name, EmbedError::InvalidTokenizerName) {
        Ok(s) => s,
        Err(e) => {
            return Err(e);
        },
    };
    Ok((path, name))
}

/// Checks the argument of an embedding call: it must be present and valid
/// UTF-8.
pub fn embed_argument<'a>(text: Option<&'a [u8]>) -> (r: Result<&'a str, EmbedError>)
    ensures
        r is Ok <==> text is Some && valid_utf8(text->0@),
        r matches Ok(s) ==> s.spec_bytes() == text->0@,
        text is None ==> r == Err::<&str, EmbedError>(EmbedError::NullPointer),
        text is Some && !valid_utf8(text->0@) ==> r == Err::<&str, EmbedError>(
            EmbedError::InvalidText,
        ),
{
    text_argument(text, EmbedError::InvalidText)
}

/// The status code of an initialization: 0 on success, -1 for an absent
/// argument, -2 and -3 for a model path or tokenizer name that is not
/// valid UTF-8, -4 for a poisoned lock, -5 for everything else, which is a
/// model or tokenizer that could not be constructed.
pub open spec fn init_code(outcome: Result<(), EmbedError>) -> i32 {
    match outcome {
        Ok(_) => STATUS_OK,
        Err(EmbedError::NullPointer) => STATUS_NULL_POINTER,
        Err(EmbedError::InvalidModelPath) => INIT_INVALID_MODEL_PATH,
        Err(EmbedError::InvalidTokenizerName) => INIT_INVALID_TOKENIZER_NAME,
        Err(EmbedError::LockPoisoned) => INIT_LOCK_POISONED,
        Err(_) => INIT_FAILED,
    }
}

/// The status code of a failed embedding: -1 for an absent text, -2 for
/// one that is not valid UTF-8, -3 for a poisoned lock, -4 before any
/// successful initialization, -5 for a failure of the pipeline itself.
pub open spec fn embed_code(e: EmbedError) -> i32 {
    match e {
        EmbedError::NullPointer => STATUS_NULL_POINTER,
        EmbedError::InvalidText => EMBED_INVALID_TEXT,
        EmbedError::InvalidModelPath => EMBED_INVALID_TEXT,
        EmbedError::InvalidTokenizerName => EMBED_INVALID_TEXT,
        EmbedError::LockPoisoned => EMBED_LOCK_POISONED,
        EmbedError::NotInitialized => EMBED_NOT_INITIALIZED,
        EmbedError::Tokenization => EMBED_FAILED,
        EmbedError::ModelLoad => EMBED_FAILED,
        EmbedError::Inference => EMBED_FAILED,
        EmbedError::Shape => EMBED_FAILED,
    }
}

/// Computes the status code of an initialization.
pub fn init_status(outcome: &Result<(), EmbedError>) -> (code: i32)
    ensures
        code == init_code(*outcome),
        code == STATUS_OK <==> *outcome is Ok,
        -5 <= code <= 0,
{
    match outcome {
        Ok(_) => STATUS_OK,
        Err(EmbedError::NullPointer) => STATUS_NULL_POINTER,
        Err(EmbedError::InvalidModelPath) => INIT_INVALID_MODEL_PATH,
        Err(EmbedError::InvalidTokenizerName) => INIT_INVALID_TOKENIZER_NAME,
        Err(EmbedError::LockPoisoned) => INIT_LOCK_POISONED,
        Err(_) => INIT_FAILED,
    }
}

/// Computes the status code of a failed embedding.
pub fn embed_status(e: EmbedError) -> (code: i32)
    ensures
        code == embed_code(e),
        -5 <= code <= -1,
        code == -5 <==> e.is_pipeline_failure(),
{
    match e {
        EmbedError::NullPointer => STATUS_NULL_POINTER,
        EmbedError::InvalidText => EMBED_INVALID_TEXT,
        EmbedError::InvalidModelPath => EMBED_INVALID_TEXT,
        EmbedError::InvalidTokenizerName => EMBED_INVALID_TEXT,
        EmbedError::LockPoisoned => EMBED_LOCK_POISONED,
        EmbedError::NotInitialized => EMBED_NOT_INITIALIZED,
        EmbedError::Tokenization => EMBED_FAILED,
        EmbedError::ModelLoad => EMBED_FAILED,
        EmbedError::Inference => EMBED_FAILED,
        EmbedError::Shape => EMBED_FAILED,
    }
}

/// What an embedding call reports besides the buffer itself: the number of
/// values handed over and the status.
#[derive(Clone, Copy, Debug, PartialEq, Eq, Structural)]
pub struct ResultHeader {
    /// Number of values in the buffer; 0 on failure.
    pub len: usize,
    /// 0 on success, a negative code on failure.
    pub error_code: i32,
}

impl ResultHeader {
    /// The header of an outcome: a success reports the length of its
    /// vector and status 0, a failure length 0 and its code.
    pub open spec fn of(outcome: Result<usize, EmbedError>) -> ResultHeader {
        match outcome {
            Ok(len) => ResultHeader { len, error_code: STATUS_OK },
            Err(e) => ResultHeader { len: 0, error_code: embed_code(e) },
        }
    }

    /// True when the call hands a buffer to the caller, who then owes one
    /// release.
    pub open spec fn owns_buffer(self) -> bool {
        self.error_code == 0
    }

    /// Builds the header of an outcome, given the length of the vector on
    /// success.
    pub fn from_outcome(outcome: Result<usize, EmbedError>) -> (r: ResultHeader)
        ensures
            r == Self::of(outcome),
            r.owns_buffer() <==> outcome is Ok,
            !r.owns_buffer() ==> r.len == 0,
    {
        match outcome {
            Ok(len) => ResultHeader { len, error_code: STATUS_OK },
            Err(e) => ResultHeader { len: 0, error_code: embed_status(e) },
        }
    }

    /// Whether the call handed a buffer over.
    pub fn is_success(&self) -> (b: bool)
        ensures
            b == self.owns_buffer(),
    {
        self.error_code == STATUS_OK
    }
}

/// Decides whether a release has memory to give back: only a result with a
/// buffer pointer and at least one value does; anything else is a no-op.
pub fn must_release(has_buffer: bool, len: usize) -> (b: bool)
    ensures
        b == (has_buffer && len > 0),
{
    has_buffer && len > 0
}

/// An embedding call made before any initialization has succeeded reports
/// status -4 and length 0, and hands no buffer over.
pub proof fn lemma_embed_before_init<T>(failures: Seq<Result<T, EmbedError>>)
    requires
        forall|i: int| 0 <= i < failures.len() ==> failures[i] is Err,
    ensures
        Registry::<T>::empty().after_inits(failures).lookup() == Err::<T, EmbedError>(
            EmbedError::NotInitialized,
        ),
        ResultHeader::of(Err(EmbedError::NotInitialized)) == (ResultHeader {
            len: 0,
            error_code: EMBED_NOT_INITIALIZED,
        }),
        !ResultHeader::of(Err(EmbedError::NotInitialized)).owns_buffer(),
{
    crate::registry::lemma_uninitialized_until_success(failures);
}

/// Every successful embedding reports the width of the model's hidden
/// states as its length; for a model as wide as the reference model that
/// is the reported dimension.
pub proof fn lemma_success_length(hidden_dim: usize)
    ensures
        ResultHeader::of(Ok(hidden_dim)).len == hidden_dim,
        ResultHeader::of(Ok(hidden_dim)).owns_buffer(),
        hidden_dim == EMBEDDING_DIM ==> ResultHeader::of(Ok(hidden_dim)).len == 384,
{
}

} // verus!
