use code_reviewer::prompt::{build_prompt, build_request_body};
use code_reviewer::GitDiff;

fn one_change() -> Vec<GitDiff> {
    vec![GitDiff {
        file_path: "a.txt".to_string(),
        content: "-x\n+y\n".to_string(),
    }]
}

#[test]
fn prompt_is_deterministic() {
    let changes = one_change();
    let first = build_prompt(&changes);
    let second = build_prompt(&changes);
    assert_eq!(first, second);
}

#[test]
fn prompt_embeds_each_change_under_its_heading() {
    let changes = vec![
        GitDiff {
            file_path: "a.txt".to_string(),
            content: "-x\n+y\n".to_string(),
        },
        GitDiff {
            file_path: "b.rs".to_string(),
            content: "-old\n+new\n".to_string(),
        },
    ];
    let prompt = build_prompt(&changes);
    assert!(prompt.starts_with("You are a senior code review expert."));
    let a = prompt.find("### File: a.txt\n```diff\n-x\n+y\n\n```\n\n").unwrap();
    let b = prompt.find("### File: b.rs\n```diff\n-old\n+new\n\n```\n\n").unwrap();
    assert!(a < b);
}

#[test]
fn prompt_for_no_changes_is_the_bare_preamble() {
    let prompt = build_prompt(&Vec::new());
    assert!(prompt.ends_with("Here are the diffs to analyze:\n\n"));
    // The only heading is the template's placeholder; no change block follows.
    assert_eq!(prompt.matches("### File:").count(), 1);
    assert!(prompt.contains("### File: [filename]"));
}

#[test]
fn prompt_is_the_preamble_plus_one_block_per_change() {
    let changes = one_change();
    let prompt = build_prompt(&changes);
    let preamble = build_prompt(&Vec::new());
    let expected = format!("{}### File: a.txt\n```diff\n-x\n+y\n\n```\n\n", preamble);
    assert_eq!(prompt, expected);
}

#[test]
fn request_body_escapes_the_prompt() {
    let body = build_request_body("say \"hi\"\\\nplease\ttabbed\u{1}");
    let expected_user = "say \\\"hi\\\"\\\\\\nplease\\ttabbed\\u0001";
    assert!(body.contains(expected_user));
    assert!(body.starts_with("{\"model\":\"kimi-k2-0711-preview\","));
    assert!(body.ends_with("\"}],\"temperature\":0.3}"));
}

#[test]
fn request_body_is_valid_json_with_the_expected_shape() {
    let changes = one_change();
    let prompt = build_prompt(&changes);
    let body = build_request_body(&prompt);
    let v: serde_json::Value = serde_json::from_str(&body).expect("body must parse");
    assert_eq!(v["model"].as_str().unwrap(), "kimi-k2-0711-preview");
    assert_eq!(v["temperature"].as_f64().unwrap(), 0.3);
    let messages = v["messages"].as_array().unwrap();
    assert_eq!(messages.len(), 2);
    assert_eq!(messages[0]["role"].as_str().unwrap(), "system");
    assert_eq!(messages[1]["role"].as_str().unwrap(), "user");
    let user = messages[1]["content"].as_str().unwrap();
    assert_eq!(user, prompt);
    assert!(user.contains("a.txt"));
}
