use mixhash::first_twin;

#[test]
fn twins_first_pair_in_scan_order() {
    // The scan visits (0,1), (0,2), ... so (0,4) is found before (1,3).
    let values = vec![1u32, 2, 3, 2, 1];
    assert_eq!(first_twin(&values), Some((0, 4)));

    let values = vec![5u32, 6, 6];
    assert_eq!(first_twin(&values), Some((1, 2)));
}

#[test]
fn twins_none_when_all_distinct() {
    let values = vec![1u32, 2, 3, 4];
    assert_eq!(first_twin(&values), None);
    assert_eq!(first_twin(&Vec::new()), None);
    assert_eq!(first_twin(&vec![7u32]), None);
}
