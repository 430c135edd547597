use gavel::aggregator::RatingAggregator;
use gavel::credential::{bytes_match, secrets_match, AdminLogin};
use gavel::gate::{AccessError, StatsGate};

fn busy_aggregator() -> RatingAggregator {
    let mut a = RatingAggregator::new();
    a.record_project_seen(1);
    a.record_project_seen(2);
    assert_eq!(a.record_vote("A", 2), Ok(()));
    assert_eq!(a.record_vote("B", 5), Ok(()));
    a
}

#[test]
fn right_secret_gets_the_snapshot() {
    let a = busy_aggregator();
    let gate = StatsGate::new(String::from("hunter2"));
    let r = gate.request_stats(&AdminLogin { password: "hunter2" }, &a);
    assert_eq!(r, Ok(a.snapshot()));
}

#[test]
fn wrong_secret_is_unauthorized_and_changes_nothing() {
    let a = busy_aggregator();
    let gate = StatsGate::new(String::from("hunter2"));
    let before = gate.request_stats(&AdminLogin { password: "hunter2" }, &a).unwrap();
    for wrong in ["hunter3", "hunter", "hunter22", "", "HUNTER2"] {
        let r = gate.request_stats(&AdminLogin { password: wrong }, &a);
        assert_eq!(r, Err(AccessError::Unauthorized));
    }
    let after = gate.request_stats(&AdminLogin { password: "hunter2" }, &a).unwrap();
    assert_eq!(before, after);
    assert_eq!(after.votes, 2);
    assert_eq!(after.seen, 2);
}

#[test]
fn empty_secret_admits_only_the_empty_password() {
    let a = RatingAggregator::new();
    let gate = StatsGate::new(String::new());
    assert!(gate.request_stats(&AdminLogin { password: "" }, &a).is_ok());
    assert_eq!(gate.request_stats(&AdminLogin { password: "x" }, &a), Err(AccessError::Unauthorized));
}

#[test]
fn secrets_compare_by_content_and_length() {
    assert!(secrets_match("abc", "abc"));
    assert!(secrets_match("", ""));
    assert!(secrets_match("pässwörd", "pässwörd"));
    assert!(!secrets_match("abc", "abd"));
    assert!(!secrets_match("ab", "abc"));
    assert!(!secrets_match("abc", "ab"));
    assert!(!secrets_match("abcabc", "abc"));
    assert!(!secrets_match("", "a"));
    assert!(!secrets_match("a", ""));
}

#[test]
fn bytes_compare_by_content_and_length() {
    assert!(bytes_match(&[1, 2, 3], &[1, 2, 3]));
    assert!(!bytes_match(&[1, 2, 3], &[1, 2, 4]));
    assert!(!bytes_match(&[0, 0], &[0]));
    assert!(!bytes_match(&[], &[0]));
    assert!(bytes_match(&[], &[]));
}

#[test]
fn admits_only_the_secret() {
    let gate = StatsGate::new(String::from("s3cret"));
    assert!(gate.admits(&AdminLogin { password: "s3cret" }));
    assert!(!gate.admits(&AdminLogin { password: "s3cre" }));
    assert!(!gate.admits(&AdminLogin { password: "s3cret!" }));
    assert!(!gate.admits(&AdminLogin { password: "" }));
}
