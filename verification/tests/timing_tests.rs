use gitlab_safe_push::timing::elapsed_seconds_at;

// 2024-01-01T00:00:00Z as epoch seconds.
const BASE: i64 = 1704067200;

#[test]
fn elapsed_measures_from_start_timestamp() {
    let started = Some(String::from("2024-01-01T00:00:00Z"));
    let created = String::from("2023-12-31T23:00:00Z");
    assert_eq!(elapsed_seconds_at(BASE + 20, &started, &created), Some(20));
}

#[test]
fn elapsed_falls_back_to_creation_timestamp() {
    let created = String::from("2024-01-01T00:00:00Z");
    assert_eq!(elapsed_seconds_at(BASE + 100, &None, &created), Some(100));
}

#[test]
fn elapsed_with_malformed_start_uses_creation() {
    let started = Some(String::from("not-a-timestamp"));
    let created = String::from("2024-01-01T00:00:00Z");
    assert_eq!(elapsed_seconds_at(BASE + 7, &started, &created), Some(7));
}

#[test]
fn elapsed_with_nothing_parseable_is_none() {
    let started = Some(String::from("not-a-timestamp"));
    let created = String::from("also-not-a-timestamp");
    assert_eq!(elapsed_seconds_at(BASE, &started, &created), None);
}

#[test]
fn elapsed_with_start_after_now_is_zero() {
    // Clock skew: the CI server stamped a start the local clock has not
    // reached yet.  Elapsed is held at zero, never negative or wrapped.
    let started = Some(String::from("2024-01-01T00:01:00Z"));
    let created = String::from("2023-12-31T23:00:00Z");
    assert_eq!(elapsed_seconds_at(BASE + 30, &started, &created), Some(0));
}

#[test]
fn elapsed_honours_numeric_offsets() {
    // The same instant as BASE, written with a +01:00 offset.
    let started = Some(String::from("2024-01-01T01:00:00+01:00"));
    let created = String::from("bogus");
    assert_eq!(elapsed_seconds_at(BASE + 5, &started, &created), Some(5));
}
