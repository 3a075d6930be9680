use backup_tags::catalog::periods;
use backup_tags::evaluate::{evaluate, TagSet};
use backup_tags::tags::Tag;
use backup_tags::wire::{parse_tag_set, serialize_tag_set};

fn tag_set(pairs: &[(&str, &str)]) -> TagSet {
    TagSet {
        tag_set: pairs.iter().map(|(k, v)| Tag::new(k, v)).collect(),
    }
}

#[test]
fn serializes_the_exact_wire_document() {
    let ts = tag_set(&[("standard", "1"), ("nightly", "1")]);
    assert_eq!(
        serialize_tag_set(&ts),
        "{\"TagSet\":[{\"Key\":\"standard\",\"Value\":\"1\"},{\"Key\":\"nightly\",\"Value\":\"1\"}]}"
    );
}

#[test]
fn serializes_the_empty_tag_set() {
    let ts = tag_set(&[]);
    assert_eq!(serialize_tag_set(&ts), "{\"TagSet\":[]}");
}

#[test]
fn round_trip_returns_the_identical_sequence() {
    let ts = tag_set(&[
        ("standard", "1"),
        ("nightly", "1"),
        ("weekly", "1"),
        ("monthly", "1"),
        ("quarterly", "1"),
        ("yearly", "1"),
    ]);
    let doc = serialize_tag_set(&ts);
    let back = parse_tag_set(&doc).unwrap();
    assert_eq!(back, ts);
}

#[test]
fn round_trip_keeps_escaped_characters() {
    let ts = tag_set(&[("qu\"ote", "back\\slash"), ("pla in", "\\\"mix\\\"")]);
    let doc = serialize_tag_set(&ts);
    let back = parse_tag_set(&doc).unwrap();
    assert_eq!(back, ts);
}

#[test]
fn round_trip_of_the_empty_tag_set() {
    let ts = tag_set(&[]);
    let back = parse_tag_set(&serialize_tag_set(&ts)).unwrap();
    assert_eq!(back, ts);
}

#[test]
fn parser_rejects_near_misses() {
    assert!(parse_tag_set("").is_none());
    assert!(parse_tag_set("{}").is_none());
    assert!(parse_tag_set("{\"TagSet\":[]").is_none());
    assert!(parse_tag_set("{\"TagSet\":[{\"Key\":\"a\"}]}").is_none());
    assert!(parse_tag_set("{\"TagSet\":[{\"Key\":\"a\",\"Value\":\"1\"}]} ").is_none());
    assert!(parse_tag_set("{\"tagset\":[]}").is_none());
}

#[test]
fn tags_only_run_prints_a_well_formed_document() {
    // The tag computation alone: no bucket, no endpoint, no external
    // process, and the document is well-formed JSON of the wire shape.
    let now = 1751328000 + 4 * 3600 + 30 * 60;
    let ts = evaluate(now, 20 * 60, &periods(0, 30, 4)).unwrap();
    let doc = serialize_tag_set(&ts);
    let parsed: serde_json::Value = serde_json::from_str(&doc).unwrap();
    let entries = parsed.get("TagSet").unwrap().as_array().unwrap();
    assert_eq!(entries.len(), 2);
    assert_eq!(entries[0].get("Key").unwrap().as_str().unwrap(), "standard");
    assert_eq!(entries[0].get("Value").unwrap().as_str().unwrap(), "1");
    assert_eq!(entries[1].get("Key").unwrap().as_str().unwrap(), "nightly");
    assert_eq!(parse_tag_set(&doc).unwrap(), ts);
}
