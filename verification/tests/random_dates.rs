use nouislider::random::gen_random_dates;
use nouislider::random::sort_values;

#[test]
fn sort_orders_and_keeps_every_entry() {
    assert_eq!(sort_values(&vec![3, 1, 2, 1]), vec![1, 1, 2, 3]);
    assert_eq!(sort_values(&vec![]), Vec::<i64>::new());
    assert_eq!(sort_values(&vec![7]), vec![7]);
    assert_eq!(sort_values(&vec![5, 4, 3, 2, 1]), vec![1, 2, 3, 4, 5]);
}

#[test]
fn random_dates_are_sorted_bounded_and_include_both_ends() {
    let dates = gen_random_dates(100, 200, 10);
    assert_eq!(dates.len(), 10);
    for w in dates.windows(2) {
        assert!(w[0] <= w[1]);
    }
    for d in &dates {
        assert!(100 <= *d && *d <= 200);
    }
    assert!(dates.contains(&100));
    assert!(dates.contains(&200));
}

#[test]
fn two_random_dates_are_exactly_the_bounds() {
    assert_eq!(gen_random_dates(100, 200, 2), vec![100, 200]);
}
