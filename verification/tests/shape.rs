use arrow_embed::shape::HiddenShape;

#[test]
fn hidden_shape_records_both_lengths() {
    let shape = HiddenShape::new(6, 384).unwrap();
    assert_eq!(shape.seq_len(), 6);
    assert_eq!(shape.hidden_dim(), 384);
    assert_eq!(shape.len(), 2304);
}

#[test]
fn hidden_shape_rejects_empty_buffers() {
    assert!(HiddenShape::new(0, 384).is_none());
    assert!(HiddenShape::new(6, 0).is_none());
    assert!(HiddenShape::new(0, 0).is_none());
}

#[test]
fn hidden_shape_rejects_unaddressable_buffers() {
    assert!(HiddenShape::new(usize::MAX, 2).is_none());
    assert!(HiddenShape::new(2, usize::MAX).is_none());
    assert!(HiddenShape::new(1, usize::MAX).is_some());
}

#[test]
fn offset_walks_the_buffer_row_by_row() {
    let shape = HiddenShape::new(2, 3).unwrap();
    let mut seen = Vec::new();
    for s in 0..2 {
        for h in 0..3 {
            seen.push(shape.offset(s, h));
        }
    }
    assert_eq!(seen, vec![0, 1, 2, 3, 4, 5]);
}

#[test]
fn offset_of_the_last_value_is_the_last_index() {
    let shape = HiddenShape::new(128, 384).unwrap();
    assert_eq!(shape.offset(0, 0), 0);
    assert_eq!(shape.offset(1, 0), 384);
    assert_eq!(shape.offset(5, 17), 1937);
    assert_eq!(shape.offset(127, 383), shape.len() - 1);
}
