use claude_bridge::command::{build_args, check_verdict, resolve_dir, resume_arg};
use claude_bridge::session::SessionStore;

#[test]
fn fresh_dispatch_builds_base_arguments() {
    let args = build_args("hello", &None);
    assert_eq!(
        args,
        vec!["-p", "hello", "--output-format", "stream-json", "--verbose"]
    );
}

#[test]
fn continued_dispatch_prepends_resume_pair() {
    let args = build_args("hello", &Some("abc123".to_string()));
    assert_eq!(
        args,
        vec![
            "--resume",
            "abc123",
            "-p",
            "hello",
            "--output-format",
            "stream-json",
            "--verbose"
        ]
    );
}

#[test]
fn continuation_defaults_to_the_held_session() {
    let mut store = SessionStore::new();
    store.set("abc123".to_string());
    assert_eq!(resume_arg(&store, None), Some("abc123".to_string()));
    assert_eq!(resume_arg(&store, Some(true)), Some("abc123".to_string()));
    assert_eq!(resume_arg(&store, Some(false)), None);
}

#[test]
fn cleared_session_issues_no_resume_argument() {
    let mut store = SessionStore::new();
    store.set("abc123".to_string());
    store.clear_session();
    let resume = resume_arg(&store, Some(true));
    assert_eq!(resume, None);
    let args = build_args("hello", &resume);
    assert!(!args.iter().any(|a| a == "--resume"));
    assert_eq!(
        args,
        vec!["-p", "hello", "--output-format", "stream-json", "--verbose"]
    );
}

#[test]
fn working_directory_prefers_the_caller() {
    assert_eq!(
        resolve_dir(Some("/work".to_string()), Some("/home/me".to_string())),
        "/work"
    );
    assert_eq!(
        resolve_dir(None, Some("/home/me".to_string())),
        "/home/me"
    );
    assert_eq!(resolve_dir(None, None), ".");
}

#[test]
fn probe_verdict_collapses_absence_to_false() {
    assert!(check_verdict(Some(true)));
    assert!(!check_verdict(Some(false)));
    assert!(!check_verdict(None));
}

#[test]
fn session_store_holds_one_identifier() {
    let mut store = SessionStore::new();
    assert_eq!(store.current(), None);
    store.set("one".to_string());
    assert_eq!(store.current(), Some("one".to_string()));
    store.set("two".to_string());
    assert_eq!(store.current(), Some("two".to_string()));
    store.clear_session();
    assert_eq!(store.current(), None);
}

#[test]
fn working_directory_of_caller_is_kept() {
    assert_eq!(
        claude_bridge::command::resolve_working_dir(Some("/work".to_string())),
        "/work"
    );
}
