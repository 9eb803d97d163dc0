use wallclock::balbird::balbird_status;
use wallclock::balbird::max_table_age;
use wallclock::balbird::TableStatus;

fn table(name: &str, age: Option<u64>) -> TableStatus {
    TableStatus { name: name.to_string(), size_bytes: 1, age_seconds: age }
}

#[test]
fn healthy_when_watched_tables_are_fresh() {
    let t = vec![table("prices", Some(10)), table("transactions", Some(9999)), table("orders", Some(59))];
    assert_eq!(max_table_age(&t), Some(59));
    assert!(balbird_status(&t).is_healthy);
}

#[test]
fn stale_when_a_watched_table_is_old() {
    let t = vec![table("prices", Some(10)), table("orders", Some(60))];
    assert_eq!(max_table_age(&t), Some(60));
    assert!(!balbird_status(&t).is_healthy);
}

#[test]
fn not_healthy_without_ages() {
    let t = vec![table("prices", None), table("transactions", Some(1))];
    assert_eq!(max_table_age(&t), None);
    assert!(!balbird_status(&t).is_healthy);
    assert!(!balbird_status(&vec![]).is_healthy);
}
