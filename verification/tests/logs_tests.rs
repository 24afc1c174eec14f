use counter::logs::decimal_string;
use counter::logs::LogEntry;
use counter::logs::LogKind;

#[test]
fn decimal_rendering_matches_std() {
    for n in [0u64, 1, 9, 10, 11, 99, 100, 905, 1000, u64::MAX] {
        assert_eq!(decimal_string(n), n.to_string());
    }
}

#[test]
fn incremented_message_text() {
    let entry = LogEntry {
        kind: LogKind::Incremented,
        count: 42,
    };
    assert_eq!(entry.message(), "Counter incremented! Current count: 42");
}

#[test]
fn message_text_at_the_largest_count() {
    let entry = LogEntry {
        kind: LogKind::Incremented,
        count: u64::MAX,
    };
    assert_eq!(
        entry.message(),
        "Counter incremented! Current count: 18446744073709551615"
    );
}
