use gb2idb::error::RunError;

#[test]
fn each_failure_class_has_its_own_exit_code() {
    let errors = [
        RunError::Config("m".to_string()),
        RunError::DatabaseOpen("m".to_string()),
        RunError::QueryPrepare("m".to_string()),
        RunError::QueryExecution("m".to_string()),
        RunError::RowRead("m".to_string()),
        RunError::Format("m".to_string()),
        RunError::PublishHttp("m".to_string()),
        RunError::PublishTransport("m".to_string()),
    ];
    let mut seen: Vec<u8> = Vec::new();
    for e in &errors {
        let code = e.exit_code();
        assert_ne!(code, 0);
        assert!(!seen.contains(&code));
        seen.push(code);
    }
}

#[test]
fn message_returns_the_carried_text() {
    let e = RunError::RowRead("Error reading database row: malformed".to_string());
    assert_eq!(e.message(), "Error reading database row: malformed");
}
