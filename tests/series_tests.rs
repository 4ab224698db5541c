use plot_helper::aggregate::group_kept;
use plot_helper::filtering::{invert, Mask};
use plot_helper::binning::{assign_bins, cell_slot, SERIE_DIVISION};
use plot_helper::layout::Layout;
use plot_helper::plot_data::PlotSeries;

#[test]
fn grouping_by_legend_keeps_insertion_order() {
    let points = vec![(1.0f32, 2.0f32), (5.0, 1.0), (1.0, 4.0), (2.0, 0.5)];
    let legends = vec!["a".to_string(), "b".to_string(), "a".to_string(), "a".to_string()];
    let series = PlotSeries::group(&points, &legends);
    assert_eq!(series.len(), 2);
    assert_eq!(series.get(&"a".to_string()), Some(&vec![(1.0, 2.0), (1.0, 4.0), (2.0, 0.5)]));
    assert_eq!(series.get(&"b".to_string()), Some(&vec![(5.0, 1.0)]));
    assert_eq!(series.get(&"c".to_string()), None);
    let data = series.get_data();
    assert_eq!(data[0].0, "a");
    assert_eq!(data[1].0, "b");
}

#[test]
fn add_opens_and_extends_buckets() {
    let mut series: PlotSeries<(f32, f32)> = PlotSeries::new();
    assert_eq!(series.len(), 0);
    series.add("x".to_string(), (1.0, 1.0));
    series.add("y".to_string(), (2.0, 2.0));
    series.add("x".to_string(), (3.0, 3.0));
    assert_eq!(series.len(), 2);
    assert_eq!(series.get(&"x".to_string()), Some(&vec![(1.0, 1.0), (3.0, 3.0)]));
}

#[test]
fn bins_of_empty_input() {
    let r = assign_bins(&Vec::new());
    assert_eq!(r.n_bins, 0);
    assert!(r.group_of.is_empty());
}

#[test]
fn bins_of_single_point() {
    let r = assign_bins(&vec![(250, 250)]);
    assert_eq!(r.n_bins, 1);
    assert_eq!(r.group_of, vec![0]);
}

#[test]
fn bins_share_only_equal_cells() {
    let r = assign_bins(&vec![(1, 1), (9, 9), (1, 1), (1, 2)]);
    assert_eq!(r.n_bins, 3);
    assert_eq!(r.group_of, vec![0, 1, 0, 2]);
}

#[test]
fn bins_of_large_dataset_are_bounded() {
    let n = 2 * SERIE_DIVISION * SERIE_DIVISION;
    let cells: Vec<(usize, usize)> = (0..n).map(|i| ((i * 7) % SERIE_DIVISION, (i * 13 / 3) % SERIE_DIVISION)).collect();
    let r = assign_bins(&cells);
    assert!(r.n_bins <= SERIE_DIVISION * SERIE_DIVISION);
    assert_eq!(r.group_of.len(), n);
    let ten: Vec<(usize, usize)> = (0..n).map(|i| ((i % 10) * 50, (i % 10) * 50)).collect();
    assert_eq!(assign_bins(&ten).n_bins, 10);
}

#[test]
fn slot_is_row_major() {
    assert_eq!(cell_slot((0, 0)), 0);
    assert_eq!(cell_slot((1, 2)), SERIE_DIVISION + 2);
    assert_eq!(cell_slot((SERIE_DIVISION - 1, SERIE_DIVISION - 1)), SERIE_DIVISION * SERIE_DIVISION - 1);
}

#[test]
fn layout_counts_subplots() {
    let l = Layout::new(3, 2);
    assert_eq!(l.get_plotter_layout(), (2, 3));
    assert_eq!(l.get_nb_of_subplots(), 6);
    assert_eq!(l.width, 3);
    assert_eq!(l.height, 2);
}

#[test]
fn group_kept_filters_then_groups() {
    let points = vec![(1.0f32, 2.0f32), (1.0, 4.0), (2.0, 9.0), (3.0, 1.0), (3.0, 5.0)];
    let legends: Vec<String> = ["a", "a", "b", "a", "b"].iter().map(|s| s.to_string()).collect();
    let filter = vec![true, true, true, false, true];
    let outliers = vec![false, false, true, false, false];
    let series = group_kept(&points, &legends, &vec![filter, invert(&outliers)]);
    assert_eq!(series.len(), 2);
    assert_eq!(series.get(&"a".to_string()), Some(&vec![(1.0, 2.0), (1.0, 4.0)]));
    assert_eq!(series.get(&"b".to_string()), Some(&vec![(3.0, 5.0)]));
    let none = group_kept(&points, &legends, &vec![vec![false; 5]]);
    assert_eq!(none.len(), 0);
    let all = group_kept(&points, &legends, &Vec::new());
    assert_eq!(all.get(&"a".to_string()).map(|v| v.len()), Some(3));
    let m: Mask = vec![false, true, true, false, false].into();
    assert_eq!(m.apply_copied(&points), vec![(1.0, 4.0), (2.0, 9.0)]);
}
