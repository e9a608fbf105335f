use git_changes::diff::{fetch_diffs, filter_diff, DiffLine, DiffOutcome, INVALID_TEXT};
use git_changes::exclude::{exclude_patterns, invalid_patterns, is_excluded, ChangedFile};
use git_changes::request::{api_url, prompt_text, request_body, request_body_from};
use git_changes::response::{
    extract_message, interpret_response, is_success, ApiError, Candidate, Content, GeminiResponse,
    Part,
};
use git_changes::text::{is_blank, trim};

fn file(old: Option<&str>, new: Option<&str>) -> ChangedFile {
    ChangedFile { old_path: old.map(|s| s.to_string()), new_path: new.map(|s| s.to_string()) }
}

fn modified(path: &str) -> ChangedFile {
    file(Some(path), Some(path))
}

fn line(path: &str, origin: char, text: &str) -> DiffLine {
    DiffLine { file: modified(path), origin, content: text.as_bytes().to_vec() }
}

fn excludes(user: &[&str]) -> Vec<String> {
    exclude_patterns(user.iter().map(|s| s.to_string()).collect())
}

fn response_with_text(text: Option<&str>) -> GeminiResponse {
    GeminiResponse {
        candidates: Some(vec![Candidate {
            content: Some(Content {
                parts: Some(vec![Part { text: text.map(|s| s.to_string()) }]),
            }),
        }]),
    }
}

#[test]
fn default_exclude_comes_first() {
    let ex = excludes(&["*.log", "target/**"]);
    assert_eq!(ex, vec!["Cargo.lock".to_string(), "*.log".to_string(), "target/**".to_string()]);
    assert_eq!(excludes(&[]), vec!["Cargo.lock".to_string()]);
}

#[test]
fn lockfile_is_excluded_by_default() {
    let ex = excludes(&[]);
    assert!(is_excluded(&modified("Cargo.lock"), &ex));
    assert!(!is_excluded(&modified("a.txt"), &ex));
}

#[test]
fn either_path_excludes() {
    let ex = excludes(&["*.log"]);
    assert!(is_excluded(&file(Some("old.log"), Some("new.txt")), &ex));
    assert!(is_excluded(&file(Some("old.txt"), Some("new.log")), &ex));
    assert!(is_excluded(&file(None, Some("dir/added.log")), &ex));
    assert!(is_excluded(&file(Some("gone.log"), None), &ex));
    assert!(!is_excluded(&file(Some("old.txt"), Some("new.txt")), &ex));
    assert!(!is_excluded(&file(None, None), &ex));
}

#[test]
fn recursive_pattern_excludes_directory() {
    let ex = excludes(&["target/**"]);
    assert!(is_excluded(&modified("target/debug/out.txt"), &ex));
    assert!(!is_excluded(&modified("src/target.rs"), &ex));
}

#[test]
fn invalid_pattern_matches_nothing() {
    let ex = excludes(&["a**b", "[abc", "*.md"]);
    assert_eq!(invalid_patterns(&ex), vec!["a**b".to_string(), "[abc".to_string()]);
    assert!(!is_excluded(&modified("a**b"), &ex));
    assert!(!is_excluded(&modified("[abc"), &ex));
    assert!(is_excluded(&modified("README.md"), &ex));
}

#[test]
fn filtering_is_an_ordered_partition() {
    let ex = excludes(&["*.log"]);
    let lines = vec![
        line("a.txt", 'F', "diff a\n"),
        line("x.log", 'F', "diff x\n"),
        line("a.txt", '+', "one\n"),
        line("b.rs", 'F', "diff b\n"),
        line("x.log", '+', "noise\n"),
        line("b.rs", '-', "two\n"),
        line("b.rs", ' ', "three\n"),
    ];
    assert_eq!(filter_diff(&lines, &ex), "diff a\n+one\ndiff b\n-two\n three\n");
    assert_eq!(filter_diff(&lines, &excludes(&["*"])), "");
    assert_eq!(filter_diff(&vec![], &ex), "");
}

#[test]
fn lockfile_hunks_are_dropped() {
    let ex = excludes(&[]);
    let lines = vec![
        line("a.txt", 'F', "diff --git a/a.txt b/a.txt\n"),
        line("a.txt", 'H', "@@ -1 +1 @@\n"),
        line("a.txt", '-', "hello\n"),
        line("a.txt", '+', "world\n"),
        line("Cargo.lock", 'F', "diff --git a/Cargo.lock b/Cargo.lock\n"),
        line("Cargo.lock", '+', "version = 4\n"),
    ];
    let text = filter_diff(&lines, &ex);
    assert_eq!(text, "diff --git a/a.txt b/a.txt\n@@ -1 +1 @@\n-hello\n+world\n");
    assert!(!text.contains("Cargo.lock"));
}

#[test]
fn invalid_utf8_line_gets_marker() {
    let lines = vec![
        DiffLine { file: modified("bin.dat"), origin: '+', content: vec![0x66, 0xff, 0x0a] },
        line("a.txt", ' ', "ok\n"),
    ];
    let text = filter_diff(&lines, &excludes(&[]));
    assert_eq!(text, format!("+{} ok\n", INVALID_TEXT));
    assert_eq!(INVALID_TEXT, "(error: non-utf8 diff content)\n");
}

#[test]
fn unstaged_changes_win() {
    let unstaged = vec![line("a.txt", '+', "a\n")];
    let staged = Some(vec![line("b.txt", '+', "b\n")]);
    match fetch_diffs(&unstaged, &staged, &excludes(&[])) {
        DiffOutcome::Changes(t) => assert_eq!(t, "+a\n"),
        _ => panic!("expected the unstaged diff"),
    }
    match fetch_diffs(&unstaged, &None, &excludes(&[])) {
        DiffOutcome::Changes(t) => assert_eq!(t, "+a\n"),
        _ => panic!("expected the unstaged diff"),
    }
}

#[test]
fn staged_diff_is_the_fallback() {
    let unstaged = vec![line("Cargo.lock", '+', "lock\n")];
    let ex = excludes(&[]);
    assert!(matches!(fetch_diffs(&unstaged, &None, &ex), DiffOutcome::NeedStaged));
    let staged = Some(vec![line("b.txt", '+', "b\n")]);
    match fetch_diffs(&unstaged, &staged, &ex) {
        DiffOutcome::Changes(t) => assert_eq!(t, "+b\n"),
        _ => panic!("expected the staged diff"),
    }
}

#[test]
fn whitespace_only_diff_counts_as_empty() {
    let unstaged = vec![line("a.txt", ' ', "\t\n")];
    let ex = excludes(&[]);
    assert!(matches!(fetch_diffs(&unstaged, &None, &ex), DiffOutcome::NeedStaged));
    let staged = Some(vec![line("b.txt", ' ', "\n")]);
    assert!(matches!(fetch_diffs(&unstaged, &staged, &ex), DiffOutcome::NoChanges));
}

#[test]
fn no_changes_at_all() {
    let ex = excludes(&[]);
    assert!(matches!(fetch_diffs(&vec![], &None, &ex), DiffOutcome::NeedStaged));
    assert!(matches!(fetch_diffs(&vec![], &Some(vec![]), &ex), DiffOutcome::NoChanges));
    let staged_lock = Some(vec![line("Cargo.lock", '+', "lock\n")]);
    assert!(matches!(fetch_diffs(&vec![], &staged_lock, &ex), DiffOutcome::NoChanges));
}

#[test]
fn extracts_trimmed_text() {
    let r = response_with_text(Some("  feat(cli): add flag\n\n- detail\n  "));
    assert_eq!(extract_message(&r), Some("feat(cli): add flag\n\n- detail".to_string()));
}

#[test]
fn missing_levels_give_none() {
    assert_eq!(extract_message(&GeminiResponse { candidates: None }), None);
    assert_eq!(extract_message(&GeminiResponse { candidates: Some(vec![]) }), None);
    let no_content = GeminiResponse { candidates: Some(vec![Candidate { content: None }]) };
    assert_eq!(extract_message(&no_content), None);
    let no_parts = GeminiResponse {
        candidates: Some(vec![Candidate { content: Some(Content { parts: None }) }]),
    };
    assert_eq!(extract_message(&no_parts), None);
    let empty_parts = GeminiResponse {
        candidates: Some(vec![Candidate { content: Some(Content { parts: Some(vec![]) }) }]),
    };
    assert_eq!(extract_message(&empty_parts), None);
    assert_eq!(extract_message(&response_with_text(None)), None);
}

#[test]
fn success_statuses() {
    assert!(!is_success(199));
    assert!(is_success(200));
    assert!(is_success(299));
    assert!(!is_success(300));
    assert!(!is_success(404));
    assert!(!is_success(500));
}

#[test]
fn failed_status_is_reported_with_body() {
    let body = "{\"error\":\"quota\"}".to_string();
    let r = interpret_response(429, body.clone(), Some(response_with_text(Some("msg"))));
    match r {
        Err(e) => {
            assert!(matches!(&e, ApiError::Status { code: 429, .. }));
            let m = e.message();
            assert_eq!(
                m,
                "gemini api returned status 429 Too Many Requests: {\"error\":\"quota\"}"
            );
            assert!(m.contains("429"));
            assert!(m.contains(&body));
        }
        Ok(_) => panic!("expected an error"),
    }
    match interpret_response(500, String::new(), None) {
        Err(e) => assert_eq!(e.message(), "gemini api returned status 500 Internal Server Error: "),
        Ok(_) => panic!("expected an error"),
    }
    match interpret_response(599, "x".to_string(), None) {
        Err(e) => assert_eq!(e.message(), "gemini api returned status 599 <unknown status code>: x"),
        Ok(_) => panic!("expected an error"),
    }
    match interpret_response(42, "x".to_string(), None) {
        Err(e) => assert_eq!(e.message(), "gemini api returned status 42: x"),
        Ok(_) => panic!("expected an error"),
    }
}

#[test]
fn unparsable_body_is_a_parse_error() {
    match interpret_response(200, "not json".to_string(), None) {
        Err(e) => {
            assert!(matches!(&e, ApiError::Parse { .. }));
            assert_eq!(e.message(), "failed to parse json response: not json");
        }
        Ok(_) => panic!("expected an error"),
    }
}

#[test]
fn missing_text_is_an_extraction_error() {
    let body = "{\"candidates\":[]}".to_string();
    match interpret_response(200, body, Some(GeminiResponse { candidates: Some(vec![]) })) {
        Err(e) => {
            assert!(matches!(&e, ApiError::NoMessage { .. }));
            assert_eq!(
                e.message(),
                "could not extract commit message text from response: {\"candidates\":[]}"
            );
        }
        Ok(_) => panic!("expected an error"),
    }
}

#[test]
fn success_returns_trimmed_message() {
    let r = interpret_response(200, "{}".to_string(), Some(response_with_text(Some("\n fix: x \n"))));
    match r {
        Ok(m) => assert_eq!(m, "fix: x"),
        Err(_) => panic!("expected a message"),
    }
}

#[test]
fn prompt_wraps_diff_verbatim() {
    let p = prompt_text("+a\n");
    assert!(p.starts_with("Analyze the following Git diff carefully"));
    assert!(p.ends_with("```diff\n+a\n\n```"));
}

#[test]
fn request_body_is_json_with_escaped_prompt() {
    let body = request_body("+say \"hi\"\n");
    let v: serde_json::Value = serde_json::from_str(&body).expect("valid json");
    let text = v["contents"][0]["parts"][0]["text"].as_str().unwrap();
    assert_eq!(text, prompt_text("+say \"hi\"\n"));
    assert!(body.contains("+say \\\"hi\\\"\\n"));
    assert_eq!(v["contents"][0]["role"], "user");
    assert_eq!(v["generationConfig"]["maxOutputTokens"], 512);
    assert_eq!(v["generationConfig"]["temperature"].as_f64(), Some(0.7));
    assert!(v["systemInstruction"]["parts"][0]["text"].as_str().unwrap().contains("conventional commits"));
    assert_eq!(v["safetySettings"][0]["threshold"], "BLOCK_NONE");
}

#[test]
fn request_body_escapes_control_characters() {
    let body = request_body("a\u{1}\\b\tc\u{7f}");
    assert!(body.contains("a\\u0001\\\\b\\tc\u{7f}"));
    let v: serde_json::Value = serde_json::from_str(&body).expect("valid json");
    assert_eq!(v["contents"][0]["parts"][0]["text"], prompt_text("a\u{1}\\b\tc\u{7f}"));
}

#[test]
fn request_body_from_quoted_prompt() {
    let body = request_body_from("\"p\"");
    let v: serde_json::Value = serde_json::from_str(&body).expect("valid json");
    assert_eq!(v["contents"][0]["parts"][0]["text"], "p");
}

#[test]
fn api_url_carries_key() {
    assert_eq!(
        api_url("k123"),
        "https://generativelanguage.googleapis.com/v1beta/models/gemini-2.0-flash:generateContent?key=k123"
    );
}

#[test]
fn trimming_and_blank_text() {
    assert_eq!(trim("  a b \n"), "a b");
    assert_eq!(trim("\u{3000}x\u{a0}"), "x");
    assert_eq!(trim(""), "");
    assert!(is_blank(" \t\r\n"));
    assert!(is_blank(""));
    assert!(!is_blank(" x "));
}
