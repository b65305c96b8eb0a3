use arrow_embed::encoding::TokenEncoding;
use arrow_embed::error::EmbedError;
use arrow_embed::pipeline::copy_mask;

#[test]
fn copy_mask_is_an_equal_sequence() {
    assert_eq!(copy_mask(&vec![1, 1, 0, 0]), vec![1, 1, 0, 0]);
    assert_eq!(copy_mask(&Vec::new()), Vec::<i64>::new());
}

#[test]
fn unequal_sequences_never_reach_the_model_inputs() {
    let r = TokenEncoding::new(vec![1, 2, 3], vec![1, 1], vec![0, 0, 0]);
    assert_eq!(r.err(), Some(EmbedError::Shape));
}
