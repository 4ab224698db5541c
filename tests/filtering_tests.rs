use plot_helper::filtering::{combine_keeps, invert, Mask};

#[test]
fn new_mask_keeps_everything() {
    let m = Mask::new(4);
    assert_eq!(m.len(), 4);
    assert_eq!(m.get_mask(), &vec![true, true, true, true]);
    let empty = Mask::new(0);
    assert_eq!(empty.len(), 0);
}

#[test]
fn merge_is_logical_and() {
    let mut m: Mask = vec![true, true, false, false].into();
    m.merge(&vec![true, false, true, false]);
    assert_eq!(m.get_mask(), &vec![true, false, false, false]);
}

#[test]
fn merge_is_commutative() {
    let a = vec![true, false, true, true, false];
    let b = vec![false, false, true, true, true];
    let mut ab = Mask::from(a.clone());
    ab.merge(&b);
    let mut ba = Mask::from(b.clone());
    ba.merge(&a);
    assert_eq!(ab.get_mask(), ba.get_mask());
}

#[test]
fn merge_with_all_true_is_identity() {
    let a = vec![true, false, true, false];
    let mut m = Mask::from(a.clone());
    m.merge(Mask::new(4).get_mask());
    assert_eq!(m.get_mask(), &a);
    m.merge(&a);
    assert_eq!(m.get_mask(), &a);
}

#[test]
fn apply_keeps_selected_in_order() {
    let m: Mask = vec![true, false, true, false, true].into();
    let data = vec![10, 20, 30, 40, 50];
    assert_eq!(m.apply(&data), vec![10, 30, 50]);
    let words = vec!["a".to_string(), "b".to_string(), "c".to_string(), "d".to_string(), "e".to_string()];
    assert_eq!(m.apply(&words), vec!["a".to_string(), "c".to_string(), "e".to_string()]);
}

#[test]
fn apply_all_true_returns_input() {
    let data = vec![3.5f32, -1.0, 2.25, 7.0];
    let m = Mask::new(data.len());
    assert_eq!(m.apply(&data), data);
    let empty: Vec<f32> = Vec::new();
    assert_eq!(Mask::new(0).apply(&empty), empty);
}

#[test]
fn all_pass_filter_round_trip() {
    let column = vec![1.0f32, 2.0, 3.0, 4.0];
    let keep: Vec<bool> = column.iter().map(|_| true).collect();
    let mut m = Mask::new(column.len());
    m.merge(&keep);
    let filtered = m.apply(&column);
    assert_eq!(filtered.len(), column.len());
    for (a, b) in filtered.iter().zip(column.iter()) {
        assert_eq!(a, b);
    }
}

#[test]
fn invert_and_merge_inverted_drop_flagged() {
    assert_eq!(invert(&vec![true, false, false]), vec![false, true, true]);
    let mut m = Mask::new(3);
    m.merge_inverted(&vec![false, true, false]);
    assert_eq!(m.get_mask(), &vec![true, false, true]);
    assert!(m.is_kept(0));
    assert!(!m.is_kept(1));
}

#[test]
fn combine_keeps_is_conjunction() {
    let keeps = vec![vec![true, true, false, true], vec![true, false, false, true], vec![true, true, true, false]];
    let m = combine_keeps(4, &keeps);
    assert_eq!(m.get_mask(), &vec![true, false, false, false]);
    let none: Vec<Vec<bool>> = Vec::new();
    assert_eq!(combine_keeps(2, &none).get_mask(), &vec![true, true]);
}
