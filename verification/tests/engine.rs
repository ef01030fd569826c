use run_scope_backend::simulator::engine::{run_seed, tick_labels};
use run_scope_backend::simulator::stage::{same_text, StageWatch};

fn rolling_hash(text: &str) -> u64 {
    let mut acc: u64 = 0;
    for byte in text.bytes() {
        acc = acc.wrapping_mul(31).wrapping_add(byte as u64);
    }
    acc
}

#[test]
fn seed_of_empty_identifier_is_zero() {
    assert_eq!(run_seed(""), 0);
}

#[test]
fn seed_of_short_identifiers() {
    assert_eq!(run_seed("a"), 97);
    assert_eq!(run_seed("ab"), 97 * 31 + 98);
    assert_eq!(run_seed("test-run"), rolling_hash("test-run"));
}

#[test]
fn seed_wraps_for_long_identifiers() {
    let id = "3f2504e0-4f89-41d3-9a0c-0305e82c3301";
    assert_eq!(run_seed(id), rolling_hash(id));
    assert_ne!(run_seed(id), run_seed("3f2504e0-4f89-41d3-9a0c-0305e82c3302"));
}

#[test]
fn tick_labels_while_running() {
    let labels = tick_labels(false, "Preheat", Some("PowderSpread"));
    assert_eq!(labels.status, "running");
    assert_eq!(labels.stage, "Preheat");
    assert_eq!(labels.next_stage, "PowderSpread");
}

#[test]
fn tick_labels_on_completion() {
    let labels = tick_labels(true, "Cooldown", None);
    assert_eq!(labels.status, "complete");
    assert_eq!(labels.stage, "Complete");
    assert_eq!(labels.next_stage, "Complete");
}

#[test]
fn stage_watch_reports_new_stages() {
    let mut watch = StageWatch::new();
    assert_eq!(watch.current(), None);
    assert!(watch.observe("Inerting"));
    assert_eq!(watch.current(), Some("Inerting"));
    assert!(!watch.observe("Inerting"));
    assert!(watch.observe("Preheat"));
    assert_eq!(watch.current(), Some("Preheat"));
}

#[test]
fn same_text_compares_characters() {
    assert!(same_text("LaserScan", "LaserScan"));
    assert!(!same_text("LaserScan", "laserscan"));
    assert!(!same_text("", "x"));
}
