use claude_bridge::session::SessionStore;
use claude_bridge::stream::{dispatch_lines, BridgeError, Exchange};

fn lines_of(texts: &[&str]) -> Vec<String> {
    texts.iter().map(|t| t.to_string()).collect()
}

#[test]
fn end_to_end_scenario() {
    let mut store = SessionStore::new();
    let lines = lines_of(&[
        r#"{"type":"assistant","message":{"content":[{"type":"tool_use","name":"Read","input":{"file_path":"/a/b/c.txt"}}]}}"#,
        r#"{"session_id":"abc123"}"#,
        r#"{"type":"result","session_id":"abc123","result":"done!"}"#,
    ]);
    let (events, outcome) = dispatch_lines(&mut store, &lines, true, "exit status: 0".to_string());
    assert_eq!(events.len(), 2);
    assert_eq!(events[0].event, "status");
    assert_eq!(events[0].data, "Reading: c.txt");
    assert_eq!(events[1].event, "done");
    assert_eq!(events[1].data, "done!");
    let resp = outcome.expect("a successful exit yields a response");
    assert_eq!(resp.result, "done!");
    assert_eq!(resp.session_id, Some("abc123".to_string()));
    assert_eq!(store.current(), Some("abc123".to_string()));
}

#[test]
fn malformed_lines_are_ignored() {
    let mut store_noisy = SessionStore::new();
    let noisy = lines_of(&[
        "not json at all",
        r#"{"session_id":"one"}"#,
        r#"{"broken":"#,
        r#"{"type":"result","result":"answer"}"#,
        "",
    ]);
    let (noisy_events, noisy_outcome) =
        dispatch_lines(&mut store_noisy, &noisy, true, String::new());

    let mut store_clean = SessionStore::new();
    let clean = lines_of(&[
        r#"{"session_id":"one"}"#,
        r#"{"type":"result","result":"answer"}"#,
    ]);
    let (clean_events, clean_outcome) =
        dispatch_lines(&mut store_clean, &clean, true, String::new());

    assert_eq!(noisy_events.len(), clean_events.len());
    let noisy_resp = noisy_outcome.unwrap();
    let clean_resp = clean_outcome.unwrap();
    assert_eq!(noisy_resp.result, clean_resp.result);
    assert_eq!(noisy_resp.session_id, clean_resp.session_id);
    assert_eq!(store_noisy.current(), store_clean.current());
    assert_eq!(store_noisy.current(), Some("one".to_string()));
}

#[test]
fn last_session_id_wins_whatever_the_event_type() {
    let mut store = SessionStore::new();
    let lines = lines_of(&[
        r#"{"session_id":"first"}"#,
        r#"{"type":"assistant","session_id":"second","message":{"content":[]}}"#,
        r#"{"type":"system","session_id":"third"}"#,
    ]);
    let (_, outcome) = dispatch_lines(&mut store, &lines, true, String::new());
    let resp = outcome.unwrap();
    assert_eq!(resp.session_id, Some("third".to_string()));
    assert_eq!(store.current(), Some("third".to_string()));
}

#[test]
fn failed_exit_yields_error_and_keeps_store() {
    let mut store = SessionStore::new();
    store.set("earlier".to_string());
    let lines = lines_of(&[
        r#"{"session_id":"newer"}"#,
        r#"{"type":"result","result":"partial"}"#,
    ]);
    let (events, outcome) = dispatch_lines(&mut store, &lines, false, "exit status: 1".to_string());
    assert!(events.is_empty());
    match outcome {
        Err(BridgeError::ExitFailure(text)) => assert_eq!(text, "exit status: 1"),
        _ => panic!("a non-success exit must yield the exit error"),
    }
    assert_eq!(store.current(), Some("earlier".to_string()));
}

#[test]
fn empty_stream_yields_empty_result() {
    let mut store = SessionStore::new();
    let (events, outcome) = dispatch_lines(&mut store, &Vec::new(), true, String::new());
    assert_eq!(events.len(), 1);
    assert_eq!(events[0].event, "done");
    assert_eq!(events[0].data, "");
    let resp = outcome.unwrap();
    assert_eq!(resp.result, "");
    assert_eq!(resp.session_id, None);
    assert_eq!(store.current(), None);
}

#[test]
fn stream_without_session_id_keeps_previous_one() {
    let mut store = SessionStore::new();
    store.set("kept".to_string());
    let lines = lines_of(&[r#"{"type":"result","result":"fine"}"#]);
    let (_, outcome) = dispatch_lines(&mut store, &lines, true, String::new());
    let resp = outcome.unwrap();
    assert_eq!(resp.result, "fine");
    assert_eq!(resp.session_id, None);
    assert_eq!(store.current(), Some("kept".to_string()));
}

#[test]
fn later_result_event_overwrites_earlier_one() {
    let mut store = SessionStore::new();
    let lines = lines_of(&[
        r#"{"type":"result","result":"draft"}"#,
        r#"{"type":"result","result":"final"}"#,
    ]);
    let (_, outcome) = dispatch_lines(&mut store, &lines, true, String::new());
    assert_eq!(outcome.unwrap().result, "final");
}

#[test]
fn result_event_without_text_changes_nothing() {
    let mut store = SessionStore::new();
    let lines = lines_of(&[
        r#"{"type":"result","result":"kept"}"#,
        r#"{"type":"result"}"#,
        r#"{"type":"result","result":7}"#,
    ]);
    let (_, outcome) = dispatch_lines(&mut store, &lines, true, String::new());
    assert_eq!(outcome.unwrap().result, "kept");
}

#[test]
fn process_line_reports_status_events() {
    let mut ex = Exchange::new();
    let ev = ex.process_line(
        r#"{"type":"assistant","message":{"content":[{"type":"tool_use","name":"Grep","input":{}}]}}"#,
    );
    let ev = ev.expect("a tool_use line carries a status");
    assert_eq!(ev.event, "status");
    assert_eq!(ev.data, "Searching in files...");
    assert!(ex.process_line("not json").is_none());
    assert!(ex.process_line(r#"{"type":"result","result":"x"}"#).is_none());
}

#[test]
fn error_messages_name_their_cause() {
    assert_eq!(
        BridgeError::SpawnFailed("No such file or directory".to_string()).message(),
        "Failed to spawn the assistant CLI. Make sure it's installed: No such file or directory"
    );
    assert_eq!(
        BridgeError::ReadFailed("broken pipe".to_string()).message(),
        "broken pipe"
    );
    assert_eq!(
        BridgeError::ExitFailure("exit status: 2".to_string()).message(),
        "The assistant CLI exited with status: exit status: 2"
    );
}
