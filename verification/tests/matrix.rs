use arrow_embed::error::EmbedError;
use arrow_embed::matrix::IndexMatrix;

#[test]
fn single_row_has_one_row_of_the_given_width() {
    let m = IndexMatrix::single_row(4, vec![101, 2023, 2003, 102]).unwrap();
    let (dims, data) = m.into_parts();
    assert_eq!(dims, vec![1, 4]);
    assert_eq!(data, vec![101, 2023, 2003, 102]);
}

#[test]
fn single_row_keeps_the_order_of_its_elements() {
    let values: Vec<i64> = (0..1000).map(|x| 999 - x).collect();
    let m = IndexMatrix::single_row(1000, values.clone()).unwrap();
    let (dims, data) = m.into_parts();
    assert_eq!(dims, vec![1, 1000]);
    assert_eq!(data, values);
}

#[test]
fn single_row_may_be_empty() {
    let m = IndexMatrix::single_row(0, Vec::new()).unwrap();
    let (dims, data) = m.into_parts();
    assert_eq!(dims, vec![1, 0]);
    assert_eq!(data, Vec::<i64>::new());
}

#[test]
fn single_row_rejects_too_few_elements() {
    let r = IndexMatrix::single_row(3, vec![1, 2]);
    assert_eq!(r.err(), Some(EmbedError::Shape));
}

#[test]
fn single_row_rejects_too_many_elements() {
    let r = IndexMatrix::single_row(1, vec![1, 2]);
    assert_eq!(r.err(), Some(EmbedError::Shape));
}

#[test]
fn single_row_rejects_a_width_beyond_any_array() {
    let r = IndexMatrix::single_row(usize::MAX, Vec::new());
    assert_eq!(r.err(), Some(EmbedError::Shape));
}
