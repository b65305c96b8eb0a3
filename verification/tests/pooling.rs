use arrow_embed::pooling::{attended_positions, attention_weight};

#[test]
fn full_mask_attends_to_every_position() {
    assert_eq!(attended_positions(&vec![1, 1]), vec![0, 1]);
    assert_eq!(attention_weight(&vec![1, 1]), 2);
}

#[test]
fn padded_positions_are_left_out() {
    assert_eq!(attended_positions(&vec![1, 0]), vec![0]);
    assert_eq!(attention_weight(&vec![1, 0]), 1);
    assert_eq!(attended_positions(&vec![1, 1, 1, 0, 0, 1, 0]), vec![0, 1, 2, 5]);
    assert_eq!(attention_weight(&vec![1, 1, 1, 0, 0, 1, 0]), 4);
}

#[test]
fn zero_mask_attends_to_nothing() {
    assert_eq!(attended_positions(&vec![0, 0, 0]), Vec::<usize>::new());
    assert_eq!(attention_weight(&vec![0, 0, 0]), 0);
}

#[test]
fn empty_mask_attends_to_nothing() {
    assert_eq!(attended_positions(&vec![]), Vec::<usize>::new());
    assert_eq!(attention_weight(&vec![]), 0);
}

#[test]
fn negative_values_do_not_attend() {
    assert_eq!(attended_positions(&vec![-1, 2, -3, 4]), vec![1, 3]);
    assert_eq!(attention_weight(&vec![-1, 2, -3, 4]), 6);
}

#[test]
fn weights_add_up_beyond_one_word() {
    let mask = vec![i64::MAX, i64::MAX, 0, i64::MAX];
    assert_eq!(attended_positions(&mask), vec![0, 1, 3]);
    assert_eq!(attention_weight(&mask), 3 * (i64::MAX as i128));
}

fn pool(hidden: &[f32], seq_len: usize, hidden_dim: usize, mask: &Vec<i64>) -> Vec<f32> {
    let shape = arrow_embed::shape::HiddenShape::new(seq_len, hidden_dim).unwrap();
    let positions = attended_positions(mask);
    let count = attention_weight(mask) as f32;
    let mut pooled = vec![0.0f32; shape.hidden_dim()];
    if count > 0.0 {
        for h in 0..shape.hidden_dim() {
            let mut sum = 0.0f32;
            for &s in &positions {
                sum += hidden[shape.offset(s, h)] * mask[s] as f32;
            }
            pooled[h] = sum / count;
        }
    }
    pooled
}

#[test]
fn pooling_under_a_full_mask_averages_all_positions() {
    assert_eq!(pool(&[1.0, 2.0, 3.0, 4.0], 2, 2, &vec![1, 1]), vec![2.0, 3.0]);
}

#[test]
fn pooling_under_a_padded_mask_ignores_the_padding() {
    assert_eq!(pool(&[1.0, 2.0, 3.0, 4.0], 2, 2, &vec![1, 0]), vec![1.0, 2.0]);
}

#[test]
fn pooling_under_a_zero_mask_is_all_zero() {
    assert_eq!(pool(&[1.0, 2.0, 3.0, 4.0], 2, 2, &vec![0, 0]), vec![0.0, 0.0]);
}
