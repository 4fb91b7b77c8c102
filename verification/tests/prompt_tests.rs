use commit_assistant::prompt::{
    corrective_prompt, default_follow_up, default_template, initial_prompt,
};

#[test]
fn initial_prompt_with_nature() {
    let p = initial_prompt("Write a commit message", "diff --git a/x", Some("bugfix"));
    assert_eq!(
        p,
        "Write a commit message for these changes:\ndiff --git a/x type:bugfix"
    );
}

#[test]
fn initial_prompt_without_nature() {
    let p = initial_prompt("Write a commit message", "diff --git a/x", None);
    assert_eq!(p, "Write a commit message for these changes:\ndiff --git a/x");
}

#[test]
fn corrective_prompt_with_diff() {
    let p = corrective_prompt("Retry.", "Write a commit message", "bad: candidate", Some("diff --git a/x"));
    assert_eq!(
        p,
        "Retry. Write a commit message for these changes:\ndiff --git a/xbad: candidate"
    );
}

#[test]
fn corrective_prompt_without_diff() {
    let p = corrective_prompt("Retry.", "Write a commit message", "bad: candidate", None);
    assert_eq!(p, "Retry. Write a commit messagebad: candidate");
}

#[test]
fn corrective_prompt_ends_with_rejected_candidate() {
    let rejected = "chore: something vague";
    let p = corrective_prompt("Retry.", "Write a commit message", rejected, Some("a diff"));
    assert!(p.ends_with(rejected));
    let q = corrective_prompt("Retry.", "Write a commit message", rejected, None);
    assert!(q.ends_with(rejected));
}

#[test]
fn corrective_prompt_differs_from_initial_prompt() {
    let template = default_template();
    let follow_up = default_follow_up();
    let diff = "diff --git a/x";
    let initial = initial_prompt(template, diff, Some("feature"));
    let corrective = corrective_prompt(follow_up, template, "feat: draft", Some(diff));
    assert_ne!(initial, corrective);
}

#[test]
fn default_texts_start_differently() {
    let template = default_template();
    let follow_up = default_follow_up();
    assert!(template.starts_with("Generate a commit message"));
    assert!(follow_up.starts_with("The previous message was unsatisfactory"));
    assert_ne!(
        template.chars().next().unwrap(),
        follow_up.chars().next().unwrap()
    );
}
