use plot_helper::stats::{median_indices, pick_median_pair, pick_quartiles, quartile_indices, run_starts, MetricName};

#[test]
fn quartile_indices_of_ten() {
    assert_eq!(quartile_indices(10), (2, 7));
}

#[test]
fn quartile_indices_small_sizes() {
    assert_eq!(quartile_indices(1), (0, 0));
    assert_eq!(quartile_indices(2), (0, 1));
    assert_eq!(quartile_indices(3), (0, 2));
    assert_eq!(quartile_indices(4), (0, 2));
    assert_eq!(quartile_indices(5), (1, 3));
    assert_eq!(quartile_indices(8), (1, 5));
}

#[test]
fn quartiles_of_one_to_ten() {
    let sorted: Vec<i32> = (1..=10).collect();
    let (q1, q3) = pick_quartiles(&sorted).unwrap();
    assert_eq!((q1, q3), (3, 8));
    let iqr = q3 - q1;
    assert_eq!(iqr, 5);
    let data: Vec<f32> = (1..=10).map(|v| v as f32).collect();
    let (q1, q3) = pick_quartiles(&data).unwrap();
    let lower = q1 - 1.5 * (q3 - q1);
    let upper = q3 + 1.5 * (q3 - q1);
    assert_eq!((lower, upper), (-4.5, 15.5));
    assert!(data.iter().all(|d| *d >= lower && *d <= upper));
}

#[test]
fn quartiles_of_empty_column() {
    let empty: Vec<f32> = Vec::new();
    assert!(pick_quartiles(&empty).is_none());
    assert!(pick_median_pair(&empty).is_none());
}

#[test]
fn median_pair_even_and_odd() {
    assert_eq!(median_indices(8), (3, 4));
    assert_eq!(median_indices(7), (3, 3));
    let sorted = vec![2, 4, 4, 4, 5, 5, 7, 9];
    assert_eq!(pick_median_pair(&sorted), Some((4, 5)));
    let (a, b) = pick_median_pair(&vec![2.0f64, 4.0, 4.0, 4.0, 5.0, 5.0, 7.0, 9.0]).unwrap();
    assert_eq!((a + b) / 2.0, 4.5);
    assert_eq!(pick_median_pair(&vec![1, 3, 8]), Some((3, 3)));
}

#[test]
fn metric_names() {
    assert_eq!(MetricName::Mean.get_name(), "mean");
    assert_eq!(MetricName::Median.get_name(), "median");
    assert!(MetricName::Mean < MetricName::Median);
}

#[test]
fn run_starts_split_equal_keys() {
    let xs = vec![1.0f32, 1.0, 2.0, 3.0, 3.0, 3.0];
    let keys: Vec<u32> = xs.iter().map(|x| x.to_bits()).collect();
    assert_eq!(run_starts(&keys), vec![0, 2, 3]);
    assert_eq!(run_starts(&Vec::new()), Vec::<usize>::new());
    assert_eq!(run_starts(&vec![7, 7, 7]), vec![0]);
}
