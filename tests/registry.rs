use command_loader::batch::{command_stem, reload_targets, Batch};
use command_loader::layout::{join_path, log_path, Registry};
use command_loader::staleness::{needs_rebuild, ModTime};

fn s(x: &str) -> String {
    x.to_string()
}

#[test]
fn missing_binary_needs_rebuild() {
    assert!(needs_rebuild(&ModTime::new(100, 0), &None));
}

#[test]
fn source_newer_than_binary_needs_rebuild() {
    assert!(needs_rebuild(&ModTime::new(100, 5), &Some(ModTime::new(100, 4))));
    assert!(needs_rebuild(&ModTime::new(101, 0), &Some(ModTime::new(100, 999_999_999))));
}

#[test]
fn equal_times_are_up_to_date() {
    assert!(!needs_rebuild(&ModTime::new(100, 7), &Some(ModTime::new(100, 7))));
}

#[test]
fn source_older_than_binary_is_up_to_date() {
    assert!(!needs_rebuild(&ModTime::new(99, 999_999_999), &Some(ModTime::new(100, 0))));
    assert!(!needs_rebuild(&ModTime::new(-5, 0), &Some(ModTime::new(-4, 0))));
}

#[test]
fn second_load_without_edit_compiles_nothing() {
    let source = ModTime::new(1_700_000_000, 10);
    assert!(needs_rebuild(&source, &None));
    let built = ModTime::new(1_700_000_003, 0);
    assert!(!needs_rebuild(&source, &Some(built)));
}

#[test]
fn is_before_orders_seconds_then_nanos() {
    assert!(ModTime::new(1, 5).is_before(&ModTime::new(2, 0)));
    assert!(ModTime::new(1, 5).is_before(&ModTime::new(1, 6)));
    assert!(!ModTime::new(2, 0).is_before(&ModTime::new(1, 999_999_999)));
    assert!(!ModTime::new(3, 3).is_before(&ModTime::new(3, 3)));
}

#[test]
fn artifact_paths_follow_layout() {
    let reg = Registry::new(s("/home/u/commands"));
    assert_eq!(reg.source_path("greet"), "/home/u/commands/greet.rs");
    assert_eq!(reg.binary_path("greet"), "/home/u/commands/greet.exe");
    assert_eq!(reg.log_dir(), "/home/u/commands/logs");
    assert_eq!(log_path("/home/u/commands/logs", "abc"), "/home/u/commands/logs/abc.log");
    assert_eq!(join_path("d", "f", ""), "d/f");
}

#[test]
fn command_stem_takes_rust_sources_only() {
    assert_eq!(command_stem("greet.rs"), Some(s("greet")));
    assert_eq!(command_stem("a.b.rs"), Some(s("a.b")));
    assert_eq!(command_stem("x.rs"), Some(s("x")));
    assert_eq!(command_stem(".rs"), None);
    assert_eq!(command_stem("greet.exe"), None);
    assert_eq!(command_stem("logs"), None);
    assert_eq!(command_stem("notes.rsx"), None);
    assert_eq!(command_stem(""), None);
}

#[test]
fn reload_targets_keep_listing_order() {
    let names = vec![s("b.rs"), s("b.exe"), s("logs"), s("a.rs"), s("c.txt"), s("c.rs")];
    assert_eq!(reload_targets(&names), vec![s("b"), s("a"), s("c")]);
    assert_eq!(reload_targets(&Vec::new()), Vec::<String>::new());
}

#[test]
fn batch_with_one_broken_command_tries_all_and_reports_partial_failure() {
    let mut batch = Batch::new(vec![s("one"), s("broken"), s("three")]);
    let mut tried = Vec::new();
    while let Some(name) = batch.current() {
        let ok = name != "broken";
        tried.push(name);
        batch.record(ok);
    }
    assert_eq!(tried, vec![s("one"), s("broken"), s("three")]);
    assert_eq!(batch.next, 3);
    assert_eq!(batch.failures, 1);
    assert!(!batch.all_succeeded());
}

#[test]
fn batch_all_good_reports_success() {
    let mut batch = Batch::new(vec![s("one"), s("two")]);
    batch.record(true);
    batch.record(true);
    assert_eq!(batch.current(), None);
    assert!(batch.all_succeeded());
    let empty = Batch::new(Vec::new());
    assert_eq!(empty.current(), None);
    assert!(empty.all_succeeded());
}
