use command_loader::cli::{parse_invocation, CliError, Invocation, LoadTarget, Usage};
use command_loader::diagnostics::{failure_message, log_query, record_failure, LogQuery};
use command_loader::lifecycle::{
    artifact_paths, conclude_load, editor_program, plan_add, plan_compile, CompilePlan,
};
use command_loader::origin::{default_template, fetch_succeeded, resolve_origin, SourceOrigin};
use command_loader::removal::{confirms_deletion, plan_delete};
use command_loader::layout::Registry;
use command_loader::staleness::ModTime;

fn s(x: &str) -> String {
    x.to_string()
}

fn args(list: &[&str]) -> Vec<String> {
    list.iter().map(|a| a.to_string()).collect()
}

fn is_uuid_v4(id: &str) -> bool {
    let chars: Vec<char> = id.chars().collect();
    chars.len() == 36
        && chars.iter().enumerate().all(|(i, c)| {
            if i == 8 || i == 13 || i == 18 || i == 23 {
                *c == '-'
            } else {
                c.is_ascii_hexdigit() && !c.is_ascii_uppercase()
            }
        })
        && chars[14] == '4'
}

#[test]
fn failure_record_is_filed_under_fresh_uuid() {
    let rec = record_failure("/r/logs", "greet", "error[E0425]: x");
    assert!(is_uuid_v4(&rec.id));
    assert_eq!(rec.path, format!("/r/logs/{}.log", rec.id));
    assert_eq!(rec.text, "Failed to compile command greet: error[E0425]: x");
    let other = record_failure("/r/logs", "greet", "error[E0425]: x");
    assert_ne!(rec.id, other.id);
}

#[test]
fn failure_message_names_command() {
    assert_eq!(failure_message("a", ""), "Failed to compile command a: ");
}

#[test]
fn log_id_from_failure_leads_back_to_record() {
    let rec = record_failure("/r/logs", "broken", "boom");
    match log_query("/r/logs", &rec.id) {
        LogQuery::Record(p) => assert_eq!(p, rec.path),
        LogQuery::Directory(_) => panic!("expected a record"),
    }
    assert!(!rec.text.is_empty());
    assert!(rec.text.contains("broken"));
}

#[test]
fn log_query_zero_shows_directory() {
    match log_query("/r/logs", "0") {
        LogQuery::Directory(d) => assert_eq!(d, "/r/logs"),
        LogQuery::Record(_) => panic!("expected the directory"),
    }
    match log_query("/r/logs", "00") {
        LogQuery::Record(p) => assert_eq!(p, "/r/logs/00.log"),
        LogQuery::Directory(_) => panic!("expected a record"),
    }
}

#[test]
fn origin_resolution() {
    assert!(matches!(resolve_origin(None), SourceOrigin::Template));
    match resolve_origin(Some(s("http://example.com/a.rs"))) {
        SourceOrigin::RemoteFetch(u) => assert_eq!(u, "http://example.com/a.rs"),
        _ => panic!("expected a fetch"),
    }
    match resolve_origin(Some(s("https://example.com/a.rs"))) {
        SourceOrigin::RemoteFetch(u) => assert_eq!(u, "https://example.com/a.rs"),
        _ => panic!("expected a fetch"),
    }
    match resolve_origin(Some(s("/tmp/http://a.rs"))) {
        SourceOrigin::LocalCopy(p) => assert_eq!(p, "/tmp/http://a.rs"),
        _ => panic!("expected a copy"),
    }
    match resolve_origin(Some(s("http:/x"))) {
        SourceOrigin::LocalCopy(p) => assert_eq!(p, "http:/x"),
        _ => panic!("expected a copy"),
    }
}

#[test]
fn add_without_source_scaffolds_greeting() {
    let reg = Registry::new(s("/r"));
    let plan = plan_add(&reg, "hello", None);
    assert_eq!(plan.source_path, "/r/hello.rs");
    assert!(matches!(plan.origin, SourceOrigin::Template));
    let t = default_template();
    assert!(t.contains("fn main()"));
    assert!(t.contains("println!(\"Hello, world!\");"));
}

#[test]
fn add_with_url_fetches() {
    let reg = Registry::new(s("/r"));
    let plan = plan_add(&reg, "w", Some(s("https://h/w.rs")));
    assert_eq!(plan.source_path, "/r/w.rs");
    assert!(matches!(plan.origin, SourceOrigin::RemoteFetch(_)));
}

#[test]
fn fetch_status_classes() {
    assert!(fetch_succeeded(200));
    assert!(fetch_succeeded(204));
    assert!(fetch_succeeded(299));
    assert!(!fetch_succeeded(199));
    assert!(!fetch_succeeded(300));
    assert!(!fetch_succeeded(404));
    assert!(!fetch_succeeded(500));
}

#[test]
fn compile_plans() {
    let t0 = ModTime::new(10, 0);
    let t1 = ModTime::new(11, 0);
    assert_eq!(plan_compile(None, Some(t0)), CompilePlan::MissingSource);
    assert_eq!(plan_compile(Some(t0), None), CompilePlan::Rebuild);
    assert_eq!(plan_compile(Some(t1), Some(t0)), CompilePlan::Rebuild);
    assert_eq!(plan_compile(Some(t0), Some(t0)), CompilePlan::UpToDate);
    assert_eq!(plan_compile(Some(t0), Some(t1)), CompilePlan::UpToDate);
}

#[test]
fn conclude_load_outcomes() {
    let r = conclude_load("/r/logs", "c", CompilePlan::UpToDate, false, "");
    assert!(r.succeeded && r.failure.is_none());
    let r = conclude_load("/r/logs", "c", CompilePlan::Rebuild, true, "");
    assert!(r.succeeded && r.failure.is_none());
    let r = conclude_load("/r/logs", "c", CompilePlan::MissingSource, true, "");
    assert!(!r.succeeded && r.failure.is_none());
    let r = conclude_load("/r/logs", "c", CompilePlan::Rebuild, false, "bad");
    assert!(!r.succeeded);
    let rec = r.failure.expect("a record");
    assert!(is_uuid_v4(&rec.id));
    assert_eq!(rec.text, "Failed to compile command c: bad");
}

#[test]
fn editor_falls_back_to_notepad() {
    assert_eq!(editor_program(None), "notepad");
    assert_eq!(editor_program(Some(s("vim"))), "vim");
}

#[test]
fn confirmation_accepts_only_y() {
    assert!(confirms_deletion("y\n"));
    assert!(confirms_deletion("Y\r\n"));
    assert!(confirms_deletion("  y \t"));
    assert!(!confirms_deletion("n\n"));
    assert!(!confirms_deletion("\n"));
    assert!(!confirms_deletion(""));
    assert!(!confirms_deletion("yes\n"));
    assert!(!confirms_deletion("y y"));
}

#[test]
fn delete_declined_touches_nothing() {
    let reg = Registry::new(s("/r"));
    assert!(plan_delete(&reg, "c", false, Some(s("n\n"))).is_none());
    assert!(plan_delete(&reg, "c", false, Some(s("\n"))).is_none());
    assert!(plan_delete(&reg, "c", false, None).is_none());
}

#[test]
fn delete_forced_or_confirmed_names_both_artifacts() {
    let reg = Registry::new(s("/r"));
    let p = plan_delete(&reg, "c", true, None).expect("forced");
    assert_eq!(p.source, "/r/c.rs");
    assert_eq!(p.binary, "/r/c.exe");
    let p = plan_delete(&reg, "c", false, Some(s("Y\n"))).expect("confirmed");
    assert_eq!(p.source, "/r/c.rs");
    let both = artifact_paths(&reg, "c");
    assert_eq!(both.binary, "/r/c.exe");
}

#[test]
fn parse_requires_operation() {
    assert!(matches!(parse_invocation(&args(&["prog"])), Err(CliError::Usage(Usage::General))));
    assert!(matches!(parse_invocation(&args(&[])), Err(CliError::Usage(Usage::General))));
}

#[test]
fn parse_missing_arguments_give_usage() {
    assert!(matches!(parse_invocation(&args(&["p", "add"])), Err(CliError::Usage(Usage::Add))));
    assert!(matches!(parse_invocation(&args(&["p", "edit"])), Err(CliError::Usage(Usage::Edit))));
    assert!(matches!(parse_invocation(&args(&["p", "load"])), Err(CliError::Usage(Usage::Load))));
    assert!(matches!(parse_invocation(&args(&["p", "reload"])), Err(CliError::Usage(Usage::Load))));
    assert!(matches!(
        parse_invocation(&args(&["p", "showlogs"])),
        Err(CliError::Usage(Usage::ShowLogs))
    ));
    assert!(matches!(
        parse_invocation(&args(&["p", "delete"])),
        Err(CliError::Usage(Usage::Delete))
    ));
}

#[test]
fn parse_unknown_operation() {
    match parse_invocation(&args(&["p", "frob", "x"])) {
        Err(CliError::UnknownOperation(op)) => assert_eq!(op, "frob"),
        _ => panic!("expected an unknown operation"),
    }
}

#[test]
fn parse_operations() {
    match parse_invocation(&args(&["p", "add", "c", "https://h/c.rs"])) {
        Ok(Invocation::Add { name, source }) => {
            assert_eq!(name, "c");
            assert_eq!(source, Some(s("https://h/c.rs")));
        }
        _ => panic!("expected add"),
    }
    match parse_invocation(&args(&["p", "add", "c"])) {
        Ok(Invocation::Add { name, source }) => {
            assert_eq!(name, "c");
            assert_eq!(source, None);
        }
        _ => panic!("expected add"),
    }
    assert!(matches!(
        parse_invocation(&args(&["p", "load", "all"])),
        Ok(Invocation::Load { target: LoadTarget::All })
    ));
    match parse_invocation(&args(&["p", "reload", "c"])) {
        Ok(Invocation::Load { target: LoadTarget::One(n) }) => assert_eq!(n, "c"),
        _ => panic!("expected load"),
    }
    match parse_invocation(&args(&["p", "edit", "c"])) {
        Ok(Invocation::Edit { name }) => assert_eq!(name, "c"),
        _ => panic!("expected edit"),
    }
    match parse_invocation(&args(&["p", "showlogs", "0"])) {
        Ok(Invocation::ShowLogs { id }) => assert_eq!(id, "0"),
        _ => panic!("expected showlogs"),
    }
    match parse_invocation(&args(&["p", "delete", "c", "-y"])) {
        Ok(Invocation::Delete { name, force }) => {
            assert_eq!(name, "c");
            assert!(force);
        }
        _ => panic!("expected delete"),
    }
    match parse_invocation(&args(&["p", "delete", "c", "-n"])) {
        Ok(Invocation::Delete { force, .. }) => assert!(!force),
        _ => panic!("expected delete"),
    }
    match parse_invocation(&args(&["p", "delete", "c"])) {
        Ok(Invocation::Delete { force, .. }) => assert!(!force),
        _ => panic!("expected delete"),
    }
}
