use action_hero::excerpt::extract_error_excerpt;

#[test]
fn excerpt_is_first_failure_message() {
    let log = "2024-01-01T00:00:00Z some message\n2024-01-01T00:00:01Z Error: build failed\n";
    assert_eq!(extract_error_excerpt(log), "Error: build failed");
}

#[test]
fn excerpt_is_empty_without_marker() {
    let log = "2024-01-01T00:00:00Z compiling\n2024-01-01T00:00:01Z finished without errors\n";
    assert_eq!(extract_error_excerpt(log), "");
}

#[test]
fn excerpt_is_empty_for_empty_log() {
    assert_eq!(extract_error_excerpt(""), "");
    assert_eq!(extract_error_excerpt("\n\n"), "");
}

#[test]
fn excerpt_keeps_the_case_of_the_log() {
    let log = "t0 all good\nt1 ##[ERROR: x] Process completed with exit code 1.\n";
    assert_eq!(extract_error_excerpt(log), "##[ERROR: x] Process completed with exit code 1.");
}

#[test]
fn excerpt_takes_the_first_of_several() {
    let log = "t0 error: first\nt1 error: second\n";
    assert_eq!(extract_error_excerpt(log), "error: first");
}

#[test]
fn excerpt_passes_over_lines_without_a_space() {
    let log = "error:nospace\nt1 error: real\n";
    assert_eq!(extract_error_excerpt(log), "error: real");
}

#[test]
fn excerpt_ignores_a_marker_in_the_timestamp() {
    let log = "error: message\n";
    assert_eq!(extract_error_excerpt(log), "");
    let log = "error: still error: here\n";
    assert_eq!(extract_error_excerpt(log), "still error: here");
}

#[test]
fn excerpt_drops_carriage_return_before_line_feed() {
    let log = "t0 fine\r\nt1 Error: broke\r\nt2 later\r\n";
    assert_eq!(extract_error_excerpt(log), "Error: broke");
}

#[test]
fn excerpt_reads_an_unterminated_last_line() {
    let log = "t0 fine\nt1 fatal error: no newline at end";
    assert_eq!(extract_error_excerpt(log), "fatal error: no newline at end");
    let log = "t1 error: kept\r";
    assert_eq!(extract_error_excerpt(log), "error: kept\r");
}

#[test]
fn excerpt_needs_the_colon() {
    let log = "t0 0 errors found\nt1 error : spaced\n";
    assert_eq!(extract_error_excerpt(log), "");
}

#[test]
fn excerpt_agrees_with_the_standard_library() {
    let logs = [
        "a b\nc d error: e\n",
        "x\n\n y ERROR:\n",
        "2024 Error: one\r\n2025 error: two",
        "no-space-here\nts msg\n",
        " leading space error: x",
    ];
    for log in logs {
        let expected = log
            .lines()
            .filter_map(|line| line.split_once(' ').map(|(_, message)| message))
            .find(|message| message.to_lowercase().contains("error:"))
            .unwrap_or("");
        assert_eq!(extract_error_excerpt(log), expected);
    }
}
