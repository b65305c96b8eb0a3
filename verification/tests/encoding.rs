use arrow_embed::encoding::{tokenize, widen, TokenEncoding};
use arrow_embed::error::EmbedError;
use tokenizers::models::wordlevel::WordLevel;
use tokenizers::pre_tokenizers::whitespace::Whitespace;
use tokenizers::{Encoding, Tokenizer};

fn word_tokenizer() -> Tokenizer {
    let vocab = [("[UNK]", 0u32), ("hello", 1), ("world", 2), ("again", 7)]
        .iter()
        .map(|(word, id)| (word.to_string(), *id))
        .collect();
    let model = WordLevel::builder()
        .vocab(vocab)
        .unk_token("[UNK]".to_string())
        .build()
        .unwrap();
    let mut tokenizer = Tokenizer::new(model);
    tokenizer.with_pre_tokenizer(Some(Whitespace {}));
    tokenizer
}

fn raw_encoding(ids: Vec<u32>, type_ids: Vec<u32>, attention_mask: Vec<u32>) -> Encoding {
    Encoding::new(
        ids,
        type_ids,
        Vec::new(),
        Vec::new(),
        Vec::new(),
        Vec::new(),
        attention_mask,
        Vec::new(),
        Default::default(),
    )
}

#[test]
fn widen_keeps_each_value() {
    assert_eq!(widen(&[0, 1, 101, u32::MAX]), vec![0i64, 1, 101, 4294967295]);
    assert_eq!(widen(&[]), Vec::<i64>::new());
}

#[test]
fn new_accepts_equal_lengths() {
    let e = TokenEncoding::new(vec![5, 6, 7], vec![1, 1, 0], vec![0, 0, 0]).unwrap();
    assert_eq!(e.len(), 3);
    assert_eq!(e.ids(), &vec![5, 6, 7]);
    assert_eq!(e.attention_mask(), &vec![1, 1, 0]);
    assert_eq!(e.token_type_ids(), &vec![0, 0, 0]);
    let (ids, mask, types) = e.into_parts();
    assert_eq!((ids, mask, types), (vec![5, 6, 7], vec![1, 1, 0], vec![0, 0, 0]));
}

#[test]
fn new_accepts_the_empty_encoding() {
    let e = TokenEncoding::new(Vec::new(), Vec::new(), Vec::new()).unwrap();
    assert_eq!(e.len(), 0);
}

#[test]
fn new_rejects_a_short_mask() {
    let r = TokenEncoding::new(vec![5, 6, 7], vec![1, 1], vec![0, 0, 0]);
    assert_eq!(r.err(), Some(EmbedError::Shape));
}

#[test]
fn new_rejects_long_type_ids() {
    let r = TokenEncoding::new(vec![5, 6], vec![1, 1], vec![0, 0, 0]);
    assert_eq!(r.err(), Some(EmbedError::Shape));
}

#[test]
fn from_encoding_reads_the_three_sequences() {
    let raw = raw_encoding(vec![101, 7592, 102], vec![0, 0, 1], vec![1, 1, 0]);
    let e = TokenEncoding::from_encoding(&raw).unwrap();
    assert_eq!(e.ids(), &vec![101i64, 7592, 102]);
    assert_eq!(e.token_type_ids(), &vec![0i64, 0, 1]);
    assert_eq!(e.attention_mask(), &vec![1i64, 1, 0]);
}

#[test]
fn from_encoding_rejects_unequal_lengths() {
    let raw = raw_encoding(vec![101, 102], vec![0, 0], vec![1]);
    assert_eq!(TokenEncoding::from_encoding(&raw).err(), Some(EmbedError::Shape));
}

#[test]
fn tokenize_maps_words_to_ids() {
    let tokenizer = word_tokenizer();
    let e = tokenize(&tokenizer, "hello world again").unwrap();
    assert_eq!(e.ids(), &vec![1i64, 2, 7]);
    assert_eq!(e.attention_mask(), &vec![1i64, 1, 1]);
    assert_eq!(e.token_type_ids(), &vec![0i64, 0, 0]);
}

#[test]
fn tokenize_maps_unknown_words_to_the_unknown_id() {
    let tokenizer = word_tokenizer();
    let e = tokenize(&tokenizer, "hello there").unwrap();
    assert_eq!(e.ids(), &vec![1i64, 0]);
}

#[test]
fn tokenize_of_the_empty_text_is_empty() {
    let tokenizer = word_tokenizer();
    let e = tokenize(&tokenizer, "").unwrap();
    assert_eq!(e.len(), 0);
}

#[test]
fn tokenize_fails_without_an_unknown_token() {
    let vocab = [("hello", 1u32)].iter().map(|(w, id)| (w.to_string(), *id)).collect();
    let model = WordLevel::builder()
        .vocab(vocab)
        .unk_token("[UNK]".to_string())
        .build()
        .unwrap();
    let mut tokenizer = Tokenizer::new(model);
    tokenizer.with_pre_tokenizer(Some(Whitespace {}));
    assert_eq!(tokenize(&tokenizer, "goodbye").err(), Some(EmbedError::Tokenization));
}

#[test]
fn tokenize_gives_three_unsigned_sequences_of_one_length() {
    let tokenizer = word_tokenizer();
    let e = tokenize(&tokenizer, "hello hello world unknown again").unwrap();
    assert_eq!(e.len(), 5);
    assert_eq!(e.attention_mask().len(), 5);
    assert_eq!(e.token_type_ids().len(), 5);
    for values in [e.ids(), e.attention_mask(), e.token_type_ids()] {
        assert!(values.iter().all(|v| 0 <= *v && *v <= u32::MAX as i64));
    }
}

fn truncating_tokenizer(max_length: usize, stride: usize) -> Tokenizer {
    let mut tokenizer = word_tokenizer();
    let params = tokenizers::TruncationParams {
        direction: tokenizers::TruncationDirection::Right,
        max_length,
        strategy: tokenizers::TruncationStrategy::LongestFirst,
        stride,
    };
    assert!(tokenizer.with_truncation(Some(params)).is_ok());
    tokenizer
}

#[test]
fn tokenize_truncates_to_the_maximum_length() {
    let tokenizer = truncating_tokenizer(2, 0);
    let e = tokenize(&tokenizer, "hello world again").unwrap();
    assert_eq!(e.ids(), &vec![1i64, 2]);
    assert_eq!(e.attention_mask(), &vec![1i64, 1]);
}

#[test]
fn tokenize_truncates_with_a_stride_below_the_maximum_length() {
    let tokenizer = truncating_tokenizer(2, 1);
    let e = tokenize(&tokenizer, "hello world again").unwrap();
    assert_eq!(e.ids(), &vec![1i64, 2]);
}

#[test]
fn tokenize_with_maximum_length_zero_gives_the_empty_encoding() {
    let tokenizer = truncating_tokenizer(0, 0);
    let e = tokenize(&tokenizer, "hello world again").unwrap();
    assert_eq!(e.len(), 0);
}

#[test]
fn tokenize_refuses_a_stride_equal_to_the_maximum_length() {
    let tokenizer = truncating_tokenizer(2, 2);
    assert_eq!(tokenize(&tokenizer, "hello world again").err(), Some(EmbedError::Tokenization));
    assert_eq!(tokenize(&tokenizer, "hello").err(), Some(EmbedError::Tokenization));
}
