use mqtt_core::topic::{split_topic, TopicFilter};

fn matches(pattern: &[u8], topic: &[u8]) -> bool {
    TopicFilter::compile(pattern).matches(topic)
}

#[test]
fn split_plain_levels() {
    let segs = split_topic(b"a/bc/d");
    assert_eq!(segs.len(), 3);
    assert_eq!(segs[0], b"a".to_vec());
    assert_eq!(segs[1], b"bc".to_vec());
    assert_eq!(segs[2], b"d".to_vec());
}

#[test]
fn split_empty_topic_has_one_empty_level() {
    let segs = split_topic(b"");
    assert_eq!(segs.len(), 1);
    assert_eq!(segs[0], Vec::<u8>::new());
}

#[test]
fn split_keeps_empty_levels() {
    let segs = split_topic(b"/a//b/");
    assert_eq!(segs.len(), 5);
    assert_eq!(segs[0], Vec::<u8>::new());
    assert_eq!(segs[1], b"a".to_vec());
    assert_eq!(segs[2], Vec::<u8>::new());
    assert_eq!(segs[3], b"b".to_vec());
    assert_eq!(segs[4], Vec::<u8>::new());
}

#[test]
fn literal_filter_matches_only_itself() {
    assert!(matches(b"sport/tennis", b"sport/tennis"));
    assert!(!matches(b"sport/tennis", b"sport/tenni"));
    assert!(!matches(b"sport/tennis", b"sport/tennis/result"));
    assert!(!matches(b"sport/tennis", b"sport"));
}

#[test]
fn single_level_wildcard_matches_exactly_one_level() {
    assert!(matches(b"sensors/+/temp", b"sensors/3/temp"));
    assert!(matches(b"sensors/+/temp", b"sensors//temp"));
    assert!(!matches(b"sensors/+/temp", b"sensors/3/4/temp"));
    assert!(!matches(b"sensors/+/temp", b"sensors/temp"));
    assert!(matches(b"+", b"anything"));
    assert!(!matches(b"+", b"a/b"));
}

#[test]
fn multi_level_wildcard_matches_any_tail() {
    assert!(matches(b"alerts/#", b"alerts/fire/now"));
    assert!(matches(b"alerts/#", b"alerts/fire"));
    assert!(matches(b"alerts/#", b"alerts"));
    assert!(!matches(b"alerts/#", b"alert"));
    assert!(matches(b"#", b""));
    assert!(matches(b"#", b"a/b/c"));
}

#[test]
fn wildcard_bytes_inside_a_level_are_literal() {
    assert!(matches(b"a+b", b"a+b"));
    assert!(!matches(b"a+b", b"axb"));
    assert!(matches(b"a/#b", b"a/#b"));
    assert!(!matches(b"a/#b", b"a/x"));
}
