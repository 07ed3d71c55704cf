use tikv_client::workload::{
    push_decimal, reports_progress, workload_continues, workload_key, workload_value, WORKLOAD_END,
};

#[test]
fn key_matches_debug_head_and_count() {
    assert_eq!(workload_key(1), format!("{:?}-{}", "abczyh", 1).into_bytes());
    assert_eq!(workload_key(9999999), b"\"abczyh\"-9999999".to_vec());
}

#[test]
fn value_carries_count() {
    assert_eq!(workload_value(42), b"zyhzyhzyhzyhzyzhyzhzyzhyzhyzhzyzhyzh-42".to_vec());
}

#[test]
fn decimal_of_zero_and_tens() {
    let mut v = vec![b'x'];
    push_decimal(&mut v, 0);
    push_decimal(&mut v, 100);
    assert_eq!(v, b"x0100".to_vec());
}

#[test]
fn workload_stops_at_end() {
    assert_eq!(WORKLOAD_END, 10000000);
    assert!(workload_continues(2));
    assert!(!workload_continues(10000000));
}

#[test]
fn only_first_worker_reports() {
    assert!(reports_progress(0, 20000));
    assert!(!reports_progress(1, 20000));
    assert!(!reports_progress(0, 20001));
}
