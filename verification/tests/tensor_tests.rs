use bert_encoder::tensor::{
    merge_heads, permute_021, split_heads, BoolMask, LogitsMask, Tensor, TokenIds,
};

#[test]
fn head_split_and_merge_round_trip_shape() {
    // Splitting [2, 9, 768] over 12 heads of size 64 and merging again
    // reconstructs the original last-dimension width.
    let t = Tensor { dims: vec![2, 9, 768], requires_grad: true };
    let split = split_heads(&t, 12, 64);
    assert_eq!(split.dims, vec![2, 12, 9, 64]);
    let merged = merge_heads(&split, 768);
    assert_eq!(merged.dims, t.dims);
}

#[test]
fn internal_transpose_is_invertible() {
    let t = Tensor { dims: vec![2, 9, 768], requires_grad: false };
    let internal = permute_021(&t);
    assert_eq!(internal.dims, vec![2, 768, 9]);
    let back = permute_021(&internal);
    assert_eq!(back.dims, t.dims);
    assert!(!back.requires_grad);
}

#[test]
fn detach_clears_the_gradient_mark_only() {
    let t = Tensor { dims: vec![1, 9, 768], requires_grad: true };
    let d = t.detach();
    assert_eq!(d.dims, vec![1, 9, 768]);
    assert!(!d.requires_grad);
}

#[test]
fn logits_mask_marks_exactly_the_inactive_keys() {
    let mask = BoolMask { rows: vec![vec![true, true, false, true], vec![false, true, true, true]] };
    let lm = LogitsMask::from_bool_mask(&mask);
    assert_eq!(lm.batch_size(), 2);
    assert_eq!(lm.seq_len(), 4);
    for b in 0..2 {
        for k in 0..4 {
            // Masked exactly where the boolean mask forbids attending.
            assert_eq!(!lm.active[b][k], !mask.rows[b][k]);
        }
    }
}

#[test]
fn token_ids_vocabulary_check() {
    let ids = TokenIds { rows: vec![vec![0, 5, 9], vec![3, 4, 8]] };
    assert_eq!(ids.batch_size(), 2);
    assert_eq!(ids.seq_len(), 3);
    assert!(ids.check_in_vocab(10));
    assert!(!ids.check_in_vocab(9));
    let negative = TokenIds { rows: vec![vec![0, -1, 2]] };
    assert!(!negative.check_in_vocab(10));
}
