use blog_api::admin::admin_gate;
use blog_api::admin::order_counts;
use blog_api::admin::sort_pairs_desc;
use blog_api::admin::take_top;
use blog_api::admin::user_stats_of;
use blog_api::admin::AdminGate;

#[test]
fn the_gate_checks_key_then_role() {
    assert_eq!(admin_gate(false, "ADMIN"), AdminGate::Unauthorized);
    assert_eq!(admin_gate(true, "USER"), AdminGate::Forbidden);
    assert_eq!(admin_gate(true, "ADMIN"), AdminGate::Allowed);
}

#[test]
fn stats_over_an_empty_table_are_zero() {
    let stats = user_stats_of(&vec![]);
    assert_eq!(stats.total_users, 0);
    assert_eq!(stats.total_ink_points, 0);
    assert_eq!(stats.average_ink_points, 0);
    assert_eq!(stats.admin_count, 0);
}

#[test]
fn stats_sum_count_and_round() {
    let stats = user_stats_of(&vec![(10, false), (20, true), (31, false)]);
    assert_eq!(stats.total_users, 3);
    assert_eq!(stats.total_ink_points, 61);
    // 61 / 3 = 20.33..., rounded to 20
    assert_eq!(stats.average_ink_points, 20);
    assert_eq!(stats.admin_count, 1);
}

#[test]
fn the_average_rounds_ties_away_from_zero() {
    let stats = user_stats_of(&vec![(1, false), (2, false)]);
    assert_eq!(stats.average_ink_points, 2);
    let stats = user_stats_of(&vec![(-1, false), (-2, false)]);
    assert_eq!(stats.total_ink_points, -3);
    assert_eq!(stats.average_ink_points, -2);
}

#[test]
fn ranking_orders_by_key_descending() {
    let pairs = vec![(5i64, 0usize), (9, 1), (1, 2), (9, 3), (7, 4)];
    let sorted = sort_pairs_desc(&pairs);
    let keys: Vec<i64> = sorted.iter().map(|p| p.0).collect();
    assert_eq!(keys, vec![9, 9, 7, 5, 1]);
    let mut entries = sorted.clone();
    entries.sort();
    let mut expected = pairs.clone();
    expected.sort();
    assert_eq!(entries, expected);
}

#[test]
fn rankings_are_cut_to_a_page() {
    let sorted = sort_pairs_desc(&vec![(3i64, 0usize), (2, 1), (1, 2)]);
    let top2 = take_top(sorted.clone(), 2);
    assert_eq!(top2, vec![(3, 0), (2, 1)]);
    let all = take_top(sorted, 10);
    assert_eq!(all.len(), 3);
}

#[test]
fn orders_are_counted_per_row() {
    let counts = order_counts(4, &vec![0usize, 2, 2, 0, 2]);
    assert_eq!(counts, vec![2, 0, 3, 0]);
    let none = order_counts(2, &vec![]);
    assert_eq!(none, vec![0, 0]);
}
