use feverthoth::git::{
    add_args, diff_args, log_args, parse_branches, parse_change_type, parse_log, parse_status,
    status_output_readable, FileChangeType, GitRepository, LOG_FORMAT,
};
use feverthoth::json::JsonValue;
use feverthoth::lsp::{
    read_header_line, read_message, response_outcome, HeaderLine, HeaderReader, LspIncoming, LspServerConfig, ReadStep,
    SimpleDiagnostic, Transport,
};

#[test]
fn change_type_letters() {
    assert_eq!(parse_change_type('A'), FileChangeType::Added);
    assert_eq!(parse_change_type('M'), FileChangeType::Modified);
    assert_eq!(parse_change_type('D'), FileChangeType::Deleted);
    assert_eq!(parse_change_type('R'), FileChangeType::Renamed);
    assert_eq!(parse_change_type('C'), FileChangeType::Copied);
    assert_eq!(parse_change_type('X'), FileChangeType::Modified);
}

#[test]
fn status_sorts_lines() {
    let out = "M  src/a.rs\n M b.rs\n?? new.txt\nAM both.rs\nxx\n D gone.rs\n";
    assert!(status_output_readable(out));
    let st = parse_status(out);
    let staged: Vec<&str> = st.staged.iter().map(|f| f.path.as_str()).collect();
    assert_eq!(staged, vec!["src/a.rs", "both.rs"]);
    assert_eq!(st.staged[1].status, FileChangeType::Added);
    let unstaged: Vec<&str> = st.unstaged.iter().map(|f| f.path.as_str()).collect();
    assert_eq!(unstaged, vec!["b.rs", "both.rs", "gone.rs"]);
    assert_eq!(st.unstaged[2].status, FileChangeType::Deleted);
    assert_eq!(st.untracked, vec!["new.txt".to_string()]);
}

#[test]
fn status_line_split_inside_character_is_unreadable() {
    assert!(!status_output_readable("M é path"));
    assert!(status_output_readable("é"));
    assert!(status_output_readable(""));
}

#[test]
fn branches_current_and_remote() {
    let out = "* main\n  dev\n  remotes/origin/main\n\n";
    let bs = parse_branches(out);
    assert_eq!(bs.len(), 3);
    assert_eq!(bs[0].name, "main");
    assert!(bs[0].is_current && !bs[0].is_remote);
    assert_eq!(bs[1].name, "dev");
    assert!(!bs[1].is_current);
    assert_eq!(bs[2].name, "remotes/origin/main");
    assert!(bs[2].is_remote && !bs[2].is_current);
}

#[test]
fn log_entries_need_four_lines() {
    let out = "abc\nfix bug\nAda\n2024-01-01T00:00:00Z\n---\ndef\n only two\n---";
    let cs = parse_log(out);
    assert_eq!(cs.len(), 1);
    assert_eq!(cs[0].hash, "abc");
    assert_eq!(cs[0].message, "fix bug");
    assert_eq!(cs[0].author, "Ada");
    assert_eq!(cs[0].timestamp, "2024-01-01T00:00:00Z");
}

#[test]
fn git_arguments() {
    assert_eq!(log_args(5), vec!["log".to_string(), "5".to_string(), LOG_FORMAT.to_string()]);
    assert_eq!(diff_args(None), vec!["diff".to_string()]);
    assert_eq!(diff_args(Some("a.rs")), vec!["diff".to_string(), "--".to_string(), "a.rs".to_string()]);
    assert_eq!(
        add_args(&vec!["x".to_string(), "y".to_string()]),
        vec!["add".to_string(), "--".to_string(), "x".to_string(), "y".to_string()]
    );
}

#[test]
fn repository_branch_is_trimmed() {
    let repo = GitRepository::at("/tmp/repo".to_string());
    assert_eq!(repo.path(), "/tmp/repo");
    assert_eq!(GitRepository::current_branch_from("  main\n"), "main");
}

#[test]
fn builtin_servers_in_order() {
    let cs = LspServerConfig::builtin_configs();
    let names: Vec<&str> = cs.iter().map(|c| c.0.as_str()).collect();
    assert_eq!(names, vec!["rust", "typescript", "python", "go", "c"]);
    assert_eq!(cs[0].1.command, "rust-analyzer");
    assert_eq!(cs[1].1.args, vec!["--stdio".to_string()]);
    assert_eq!(cs[3].1.args, vec!["serve".to_string()]);
    assert_eq!(cs[4].1.install_hint, "Install clangd from your system package manager");
}

#[test]
fn server_for_extension() {
    let cs = LspServerConfig::builtin_configs();
    assert_eq!(LspServerConfig::find_for_extension(&cs, "tsx").unwrap().language_id, "typescript");
    assert_eq!(LspServerConfig::find_for_extension(&cs, "hpp").unwrap().command, "clangd");
    assert!(LspServerConfig::find_for_extension(&cs, "java").is_none());
}

#[test]
fn framing_counts_bytes() {
    assert_eq!(Transport::content_length_header("{}"), "Content-Length: 2\r\n\r\n{}");
    assert_eq!(Transport::content_length_header("é"), "Content-Length: 2\r\n\r\né");
    assert_eq!(Transport::content_length_header(""), "Content-Length: 0\r\n\r\n");
}

#[test]
fn header_lines() {
    assert!(matches!(read_header_line("\r\n"), HeaderLine::End));
    assert!(matches!(read_header_line("Content-Length: 42\r\n"), HeaderLine::ContentLength(Some(42))));
    assert!(matches!(read_header_line("Content-Length: abc"), HeaderLine::ContentLength(None)));
    assert!(matches!(read_header_line("Content-Type: x"), HeaderLine::Other));
}

#[test]
fn header_reader_steps() {
    let mut r = HeaderReader::new();
    assert!(matches!(r.on_line("Content-Length: 10\r\n"), ReadStep::NextLine));
    assert!(matches!(r.on_line("Content-Type: json\r\n"), ReadStep::NextLine));
    assert!(matches!(r.on_line("\r\n"), ReadStep::ReadBody(10)));
    assert!(r.content_length.is_none());
    assert!(matches!(r.on_line("\r\n"), ReadStep::SkipMessage));
}

#[test]
fn messages_sorted_out() {
    match read_message("{\"jsonrpc\":\"2.0\",\"id\":3,\"result\":{\"ok\":true}}") {
        Some(LspIncoming::Response { id: 3, error: None, result: Some(JsonValue::Object(es)) }) => {
            assert_eq!(es[0].0, "ok");
        }
        _ => panic!("expected a response"),
    }
    match read_message("{\"id\":4,\"error\":{\"code\":-32601},\"result\":{\"capabilities\":{}}}") {
        Some(LspIncoming::Response { id: 4, error, result }) => {
            assert!(matches!(response_outcome(&error, &result), Err(JsonValue::Object(_))));
            assert!(result.is_some());
        }
        _ => panic!("expected a response"),
    }
    match read_message("{\"id\":5}") {
        Some(LspIncoming::Response { id: 5, error, result }) => {
            assert!(matches!(response_outcome(&error, &result), Ok(None)));
        }
        _ => panic!("expected a response"),
    }
    match read_message("{\"method\":\"window/logMessage\"}") {
        Some(LspIncoming::Notification { method, params: JsonValue::Object(es) }) => {
            assert_eq!(method, "window/logMessage");
            assert!(es.is_empty());
        }
        _ => panic!("expected a notification"),
    }
    assert!(matches!(read_message("{\"id\":\"x\"}"), Some(LspIncoming::Ignored)));
    assert!(read_message("not json").is_none());
}

#[test]
fn diagnostic_severity_names() {
    let d = SimpleDiagnostic::from_parts("oops".to_string(), Some(2), 1, 2, 3, 4, None);
    assert_eq!(d.severity, "warning");
    assert_eq!(d.start_line, 1);
    assert_eq!(d.end_col, 4);
    assert_eq!(SimpleDiagnostic::from_parts(String::new(), Some(1), 0, 0, 0, 0, None).severity, "error");
    assert_eq!(SimpleDiagnostic::from_parts(String::new(), Some(4), 0, 0, 0, 0, None).severity, "hint");
    assert_eq!(SimpleDiagnostic::from_parts(String::new(), None, 0, 0, 0, 0, None).severity, "info");
    assert_eq!(SimpleDiagnostic::from_parts(String::new(), Some(9), 0, 0, 0, 0, None).severity, "info");
}

#[test]
fn framed_message_reads_back() {
    let body = "{\"jsonrpc\":\"2.0\",\"method\":\"initialized\"}";
    let framed = Transport::content_length_header(body);
    let mut reader = HeaderReader::new();
    let mut rest = framed.as_str();
    let mut step = ReadStep::NextLine;
    while let ReadStep::NextLine = step {
        let end = rest.find('\n').unwrap() + 1;
        step = reader.on_line(&rest[..end]);
        rest = &rest[end..];
    }
    match step {
        ReadStep::ReadBody(n) => {
            assert_eq!(n, body.len());
            assert_eq!(&rest[..n], body);
        }
        _ => panic!("expected a body"),
    }
}

#[test]
fn diagnostics_notification_name() {
    assert!(feverthoth::lsp::is_diagnostics_notification("textDocument/publishDiagnostics"));
    assert!(!feverthoth::lsp::is_diagnostics_notification("window/logMessage"));
}
