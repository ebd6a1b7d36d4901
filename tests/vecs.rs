use capnp_conv::vecs::drain_filter;

#[test]
fn drain_filter_removes_matching_items_in_order() {
    let mut v = vec![1, 2, 3, 4, 5, 6, 7];
    drain_filter(&mut v, |x: &i32| *x % 2 == 0);
    assert_eq!(v, vec![1, 3, 5, 7]);
}

#[test]
fn drain_filter_edge_cases() {
    let mut empty: Vec<i32> = vec![];
    drain_filter(&mut empty, |_: &i32| true);
    assert!(empty.is_empty());
    let mut all = vec![2, 2, 2];
    drain_filter(&mut all, |x: &i32| *x == 2);
    assert!(all.is_empty());
    let mut none = vec!["a".to_string(), "b".to_string()];
    drain_filter(&mut none, |s: &String| s.is_empty());
    assert_eq!(none, vec!["a".to_string(), "b".to_string()]);
}
