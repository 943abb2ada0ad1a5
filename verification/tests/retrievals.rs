use action_hero::clock::{TimeOffset, Timestamp};
use action_hero::github::{
    authorization_header, check_status, job_log_url, run_jobs_url, split_repository, user_agent,
    workflow_runs_url, Config, GitHubProblem, WorkflowActor, WorkflowRun,
};
use action_hero::text::{
    chars_of, contains_chars, find_char, push_decimal, push_hex, same_text, string_of, to_signed,
    trim,
};
use action_hero::{
    get_api_token, get_program_start, api_token_source, token_from_file, Settings, TokenSource,
    DEFAULT_COUNT, DEFAULT_PORT, PREFIX,
};

fn config(devel: bool) -> Config {
    Config {
        owner: "octo".to_string(),
        repository: "hello".to_string(),
        workflow: "check.yaml".to_string(),
        devel,
    }
}

#[test]
fn addresses_name_what_is_retrieved() {
    assert_eq!(
        workflow_runs_url(&config(false), 10),
        "https://api.github.com/repos/octo/hello/actions/workflows/check.yaml/runs?per_page=10&page=1"
    );
    assert_eq!(
        run_jobs_url(&config(false), 42),
        "https://api.github.com/repos/octo/hello/actions/runs/42/jobs"
    );
    assert_eq!(
        job_log_url(&config(false), 7),
        "https://api.github.com/repos/octo/hello/actions/jobs/7/logs"
    );
}

#[test]
fn only_success_statuses_pass() {
    for status in [200u16, 201, 204, 299] {
        assert!(check_status(status).is_ok());
    }
    for status in [0u16, 100, 199, 300, 302, 404, 500, u16::MAX] {
        match check_status(status) {
            Err(GitHubProblem::ApiError(code)) => assert_eq!(code, status),
            other => panic!("unexpected outcome {:?}", other),
        }
    }
}

#[test]
fn problems_describe_themselves() {
    assert_eq!(
        GitHubProblem::RemoteFailure("timed out".to_string()).message(),
        "Remote failure: timed out"
    );
    assert_eq!(GitHubProblem::ApiError(404).message(), "Error response from GitHub API: 404 ");
    assert_eq!(
        GitHubProblem::DecodeFailure("missing field `jobs`".to_string()).message(),
        "Decode failure: missing field `jobs`"
    );
}

#[test]
fn normalizing_sets_only_the_offset() {
    let run = WorkflowRun {
        actor: WorkflowActor { login: "mona".to_string() },
        run_id: 42,
        run_number: 17,
        run_attempt: 2,
        head_branch: "main".to_string(),
        name: "Check".to_string(),
        display_title: "Fix".to_string(),
        event: "push".to_string(),
        status: "completed".to_string(),
        conclusion: Some("success".to_string()),
        created_at: Timestamp::from_unix_nanos(1_000).unwrap(),
        updated_at: Timestamp::from_unix_nanos(2_000).unwrap(),
        html_url: "https://example.com".to_string(),
        path: ".github/workflows/check.yaml".to_string(),
        delta: TimeOffset::from_nanos(5).unwrap(),
    };
    let start = Timestamp::from_unix_nanos(1_000_000_000_000).unwrap();
    let plain = run.clone().normalized(false, start);
    assert_eq!(plain.delta.nanos(), 0);
    let rebased = run.clone().normalized(true, start);
    assert_eq!(rebased.delta.nanos(), 1_000_000_000_000 - 1_000 - 600_000_000_000);
    assert_eq!(rebased.run_id, 42);
    assert_eq!(rebased.run_number, 17);
    assert_eq!(rebased.run_attempt, 2);
    assert_eq!(rebased.name, "Check");
    assert_eq!(rebased.conclusion, Some("success".to_string()));
    assert_eq!(rebased.created_at.unix_nanos(), 1_000);
    assert_eq!(rebased.updated_at.unix_nanos(), 2_000);
    assert_eq!(rebased.path, ".github/workflows/check.yaml");
    assert_eq!(rebased.actor.login, "mona");
}

#[test]
fn settings_hand_out_what_they_hold() {
    let settings = Settings {
        api_token: "not-a-real-token".to_string(),
        program_start: Timestamp::from_unix_nanos(77).unwrap(),
    };
    assert_eq!(get_api_token(&settings), "not-a-real-token");
    assert_eq!(get_program_start(&settings).unix_nanos(), 77);
}

fn decimal(n: u64) -> String {
    let mut out = String::new();
    push_decimal(&mut out, n);
    out
}

fn lower_hex(n: u128) -> String {
    let mut out = String::new();
    push_hex(&mut out, n);
    out
}

#[test]
fn numbers_are_written_without_padding() {
    assert_eq!(decimal(0), "0");
    assert_eq!(decimal(9), "9");
    assert_eq!(decimal(10), "10");
    assert_eq!(decimal(u64::MAX), "18446744073709551615");
    assert_eq!(lower_hex(0), "0");
    assert_eq!(lower_hex(0xabcdef), "abcdef");
    assert_eq!(lower_hex(0x1000), "1000");
    for n in [1u64, 42, 99, 100, 12345678901234567890] {
        assert_eq!(decimal(n), format!("{}", n));
        assert_eq!(lower_hex(n as u128), format!("{:x}", n));
    }
    let mut out = "run ".to_string();
    push_decimal(&mut out, 42);
    assert_eq!(out, "run 42");
}

#[test]
fn bits_are_read_as_signed() {
    assert_eq!(to_signed(0), 0);
    assert_eq!(to_signed(42), 42);
    assert_eq!(to_signed(i64::MAX as u64), i64::MAX);
    assert_eq!(to_signed(i64::MAX as u64 + 1), i64::MIN);
    assert_eq!(to_signed(u64::MAX), -1);
}

#[test]
fn texts_are_searched_by_character() {
    let hay = chars_of("héllo wörld");
    assert_eq!(hay.len(), 11);
    assert_eq!(string_of(&hay, 6, 11), "wörld");
    assert_eq!(find_char(&hay, ' ', 0, hay.len()), 5);
    assert_eq!(find_char(&hay, 'z', 0, hay.len()), hay.len());
    assert_eq!(find_char(&hay, 'l', 3, hay.len()), 3);
    assert_eq!(find_char(&hay, 'l', 4, 9), 9);
    assert!(contains_chars(&hay, &chars_of("wör")));
    assert!(contains_chars(&hay, &chars_of("")));
    assert!(contains_chars(&hay, &chars_of("héllo wörld")));
    assert!(!contains_chars(&hay, &chars_of("héllo wörld!")));
    assert!(!contains_chars(&hay, &chars_of("world")));
    assert!(same_text("abc", "abc"));
    assert!(!same_text("abc", "abd"));
    assert!(!same_text("abc", "ab"));
}

#[test]
fn headers_are_formed_from_token_and_version() {
    assert_eq!(authorization_header("abc123"), "Bearer abc123");
    assert_eq!(user_agent("v0.1.0"), "action-hero/v0.1.0");
}

#[test]
fn repository_is_split_at_the_first_slash() {
    assert_eq!(split_repository("octo/hello"), Some(("octo".to_string(), "hello".to_string())));
    assert_eq!(split_repository("octo/hello/more"), Some(("octo".to_string(), "hello/more".to_string())));
    assert_eq!(split_repository("/"), Some((String::new(), String::new())));
    assert_eq!(split_repository("octo"), None);
    assert_eq!(split_repository(""), None);
}

#[test]
fn token_comes_from_the_environment_first() {
    match api_token_source(Some("abc".to_string()), Some("/run/credentials".to_string())) {
        TokenSource::Environment(token) => assert_eq!(token, "abc"),
        other => panic!("unexpected source {:?}", other),
    }
    match api_token_source(None, Some("/run/credentials".to_string())) {
        TokenSource::CredentialsFile(path) => assert_eq!(path, "/run/credentials/github"),
        other => panic!("unexpected source {:?}", other),
    }
    assert!(matches!(api_token_source(None, None), TokenSource::Missing));
}

#[test]
fn token_file_is_trimmed() {
    assert_eq!(token_from_file("abc123\n"), "abc123");
    assert_eq!(token_from_file("  \tabc 123\r\n\n"), "abc 123");
    assert_eq!(token_from_file(""), "");
    assert_eq!(token_from_file(" \n "), "");
    for text in ["x", " x", "x ", "\u{a0}x\u{2003}", "a\nb", "\n\n"] {
        assert_eq!(trim(text), text.trim());
    }
}

#[test]
fn defaults_are_as_documented() {
    assert_eq!(DEFAULT_PORT, 34484);
    assert_eq!(DEFAULT_COUNT, 10);
    assert_eq!(PREFIX, "record");
}
