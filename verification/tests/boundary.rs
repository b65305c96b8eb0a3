use arrow_embed::boundary::{
    arrow_embed_dimension, embed_argument, embed_status, init_arguments, init_status,
    must_release, text_argument, ResultHeader, EMBEDDING_DIM, STATUS_OK,
};
use arrow_embed::error::{EmbedError, ErrorClass};
use arrow_embed::registry::Registry;

#[test]
fn dimension_is_that_of_the_reference_model() {
    assert_eq!(arrow_embed_dimension(), 384);
    assert_eq!(EMBEDDING_DIM, 384);
}

#[test]
fn text_argument_reads_valid_text() {
    assert_eq!(text_argument(Some(b"hello world"), EmbedError::InvalidText), Ok("hello world"));
    assert_eq!(text_argument(Some(b""), EmbedError::InvalidText), Ok(""));
    let snowman = [0xe2u8, 0x98, 0x83];
    assert_eq!(text_argument(Some(&snowman), EmbedError::InvalidText), Ok("\u{2603}"));
}

#[test]
fn text_argument_rejects_a_null_pointer() {
    assert_eq!(text_argument(None, EmbedError::InvalidText), Err(EmbedError::NullPointer));
}

#[test]
fn text_argument_rejects_invalid_utf8_with_the_given_error() {
    let lone_continuation = [0x68u8, 0x80, 0x69];
    assert_eq!(
        text_argument(Some(&lone_continuation), EmbedError::InvalidText),
        Err(EmbedError::InvalidText)
    );
    let truncated = [0xe2u8, 0x98];
    assert_eq!(
        text_argument(Some(&truncated), EmbedError::InvalidModelPath),
        Err(EmbedError::InvalidModelPath)
    );
    let surrogate = [0xedu8, 0xa0, 0x80];
    assert_eq!(
        text_argument(Some(&surrogate), EmbedError::InvalidText),
        Err(EmbedError::InvalidText)
    );
}

#[test]
fn embed_argument_follows_the_protocol() {
    assert_eq!(embed_argument(Some(b"a sentence")), Ok("a sentence"));
    assert_eq!(embed_argument(None), Err(EmbedError::NullPointer));
    assert_eq!(embed_argument(Some(&[0xffu8])), Err(EmbedError::InvalidText));
}

#[test]
fn init_arguments_accepts_two_texts() {
    assert_eq!(
        init_arguments(Some(b"models/all-MiniLM-L6-v2.onnx"), Some(b"bert-base-cased")),
        Ok(("models/all-MiniLM-L6-v2.onnx", "bert-base-cased"))
    );
}

#[test]
fn init_arguments_reports_null_before_anything_else() {
    assert_eq!(init_arguments(None, Some(b"name")), Err(EmbedError::NullPointer));
    assert_eq!(init_arguments(Some(b"path"), None), Err(EmbedError::NullPointer));
    assert_eq!(init_arguments(None, None), Err(EmbedError::NullPointer));
    assert_eq!(init_arguments(Some(&[0xffu8]), None), Err(EmbedError::NullPointer));
    assert_eq!(init_arguments(None, Some(&[0xffu8])), Err(EmbedError::NullPointer));
}

#[test]
fn init_arguments_reports_the_model_path_before_the_tokenizer_name() {
    assert_eq!(init_arguments(Some(&[0xffu8]), Some(b"name")), Err(EmbedError::InvalidModelPath));
    assert_eq!(
        init_arguments(Some(&[0xffu8]), Some(&[0xfeu8])),
        Err(EmbedError::InvalidModelPath)
    );
    assert_eq!(
        init_arguments(Some(b"path"), Some(&[0xfeu8])),
        Err(EmbedError::InvalidTokenizerName)
    );
}

#[test]
fn init_status_codes() {
    assert_eq!(init_status(&Ok(())), 0);
    assert_eq!(init_status(&Ok(())), STATUS_OK);
    assert_eq!(init_status(&Err(EmbedError::NullPointer)), -1);
    assert_eq!(init_status(&Err(EmbedError::InvalidModelPath)), -2);
    assert_eq!(init_status(&Err(EmbedError::InvalidTokenizerName)), -3);
    assert_eq!(init_status(&Err(EmbedError::LockPoisoned)), -4);
    assert_eq!(init_status(&Err(EmbedError::ModelLoad)), -5);
    assert_eq!(init_status(&Err(EmbedError::Tokenization)), -5);
}

#[test]
fn embed_status_codes() {
    assert_eq!(embed_status(EmbedError::NullPointer), -1);
    assert_eq!(embed_status(EmbedError::InvalidText), -2);
    assert_eq!(embed_status(EmbedError::LockPoisoned), -3);
    assert_eq!(embed_status(EmbedError::NotInitialized), -4);
    assert_eq!(embed_status(EmbedError::Tokenization), -5);
    assert_eq!(embed_status(EmbedError::Inference), -5);
    assert_eq!(embed_status(EmbedError::Shape), -5);
    assert_eq!(embed_status(EmbedError::ModelLoad), -5);
}

#[test]
fn a_successful_result_reports_its_length() {
    let header = ResultHeader::from_outcome(Ok(384));
    assert_eq!(header, ResultHeader { len: 384, error_code: 0 });
    assert!(header.is_success());
    assert_eq!(header.len, arrow_embed_dimension());
}

#[test]
fn a_failed_result_has_no_length() {
    let header = ResultHeader::from_outcome(Err(EmbedError::Inference));
    assert_eq!(header, ResultHeader { len: 0, error_code: -5 });
    assert!(!header.is_success());
}

#[test]
fn embedding_before_initialization_reports_not_initialized() {
    let mut registry: Registry<u32> = Registry::new();
    let outcome = registry.instance_mut().map(|_| 384usize);
    let header = ResultHeader::from_outcome(outcome);
    assert_eq!(header, ResultHeader { len: 0, error_code: -4 });
    assert!(!header.is_success());
    assert!(!must_release(false, header.len));
}

#[test]
fn release_frees_only_what_was_handed_over() {
    assert!(must_release(true, 384));
    assert!(must_release(true, 1));
    assert!(!must_release(true, 0));
    assert!(!must_release(false, 0));
    assert!(!must_release(false, 384));
}

#[test]
fn errors_fall_into_four_classes() {
    assert_eq!(EmbedError::NullPointer.class(), ErrorClass::Input);
    assert_eq!(EmbedError::InvalidModelPath.class(), ErrorClass::Input);
    assert_eq!(EmbedError::InvalidTokenizerName.class(), ErrorClass::Input);
    assert_eq!(EmbedError::InvalidText.class(), ErrorClass::Input);
    assert_eq!(EmbedError::LockPoisoned.class(), ErrorClass::State);
    assert_eq!(EmbedError::NotInitialized.class(), ErrorClass::State);
    assert_eq!(EmbedError::Tokenization.class(), ErrorClass::Tokenization);
    assert_eq!(EmbedError::ModelLoad.class(), ErrorClass::Model);
    assert_eq!(EmbedError::Inference.class(), ErrorClass::Model);
    assert_eq!(EmbedError::Shape.class(), ErrorClass::Model);
}
