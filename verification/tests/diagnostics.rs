use mcp_pool::config::{Directories, Platform};
use mcp_pool::diagnostics::{
    init_from_env, is_enabled, log, log_dir, set_enabled, set_stderr_mirror, summarize_log_line,
    Diagnostics, MAX_LOG_LINE_LEN,
};

fn directories(custom_home: Option<&str>) -> Directories {
    Directories {
        platform: Platform::Unix,
        custom_home: custom_home.map(|home| home.to_string()),
        home: None,
        config: None,
        state: None,
        data_local: None,
    }
}

#[test]
fn summarize_keeps_short_lines_unchanged() {
    let line = "upstream_stderr ready on port 1234";
    assert_eq!(summarize_log_line(line), line);
}

#[test]
fn summarize_keeps_boundary_length_line_unchanged() {
    let line = "a".repeat(MAX_LOG_LINE_LEN);
    assert_eq!(summarize_log_line(&line), line);
}

#[test]
fn summarize_truncates_long_lines_with_marker_and_no_full_tail() {
    let body = "x".repeat(10_000);
    let out = summarize_log_line(&body);
    assert!(out.contains("truncated=true"), "marker present: {out:.40}");
    assert!(out.contains("original_len=10000"), "original length recorded");
    assert!(out.len() < body.len(), "output shorter than input");
    // The full payload tail must never appear in the summarized line.
    assert!(!out.contains(&"x".repeat(10_000)));
    assert!(out.starts_with(&"x".repeat(MAX_LOG_LINE_LEN)));
}

#[test]
fn summarize_does_not_split_multibyte_char() {
    // 'é' is two bytes; a string of them around the boundary must not panic
    // and must remain valid UTF-8 after truncation.
    let body = "é".repeat(3000);
    let out = summarize_log_line(&body);
    assert!(out.contains("truncated=true"));
}

#[test]
fn summarize_snaps_down_to_whole_characters() {
    let body = format!("a{}", "é".repeat(3000));
    assert_eq!(
        summarize_log_line(&body),
        format!("a{} truncated=true original_len=6001", "é".repeat(999))
    );
    let wide = format!("{}{}", "a".repeat(1997), "\u{1f600}".repeat(2));
    assert_eq!(
        summarize_log_line(&wide),
        format!("{} truncated=true original_len=2005", "a".repeat(1997))
    );
    let just_over = "a".repeat(MAX_LOG_LINE_LEN + 1);
    assert_eq!(
        summarize_log_line(&just_over),
        format!("{} truncated=true original_len=2001", "a".repeat(2000))
    );
}

#[test]
fn diagnostics_are_switched() {
    let mut diagnostics = Diagnostics::new();
    assert!(!is_enabled(&diagnostics));
    set_enabled(&mut diagnostics, true);
    assert!(is_enabled(&diagnostics));
    set_stderr_mirror(&mut diagnostics, true);
    assert!(diagnostics.stderr_mirror);
    set_enabled(&mut diagnostics, false);
    assert!(!is_enabled(&diagnostics));
    assert!(diagnostics.stderr_mirror);
}

#[test]
fn environment_switches_diagnostics() {
    for value in ["1", "true", "TRUE", "yes"] {
        let mut diagnostics = Diagnostics::new();
        init_from_env(&mut diagnostics, Some(value));
        assert!(is_enabled(&diagnostics));
    }
    for value in ["0", "", "True", "on"] {
        let mut diagnostics = Diagnostics::new();
        set_enabled(&mut diagnostics, true);
        init_from_env(&mut diagnostics, Some(value));
        assert!(!is_enabled(&diagnostics));
    }
    let mut diagnostics = Diagnostics::new();
    set_enabled(&mut diagnostics, true);
    init_from_env(&mut diagnostics, None);
    assert!(is_enabled(&diagnostics));
}

#[test]
fn log_lines_go_where_they_are_wanted() {
    let mut diagnostics = Diagnostics::new();
    let plan = log(&diagnostics, &directories(Some("/x")), "hello");
    assert!(plan.stderr.is_none() && plan.file.is_none());
    set_enabled(&mut diagnostics, true);
    let plan = log(&diagnostics, &directories(Some("/x")), "hello");
    assert!(plan.stderr.is_none());
    let entry = plan.file.unwrap();
    assert_eq!(entry.directory, "/x/state/logs");
    assert_eq!(entry.path, "/x/state/logs/mcp-pool.log");
    assert_eq!(entry.line, "hello\n");
    set_stderr_mirror(&mut diagnostics, true);
    let plan = log(&diagnostics, &directories(None), "hello");
    assert_eq!(plan.stderr.as_deref(), Some("hello\n"));
    assert!(plan.file.is_none());
    assert!(log_dir(&directories(None)).is_none());
}
