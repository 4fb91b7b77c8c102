use commit_assistant::scope::{diff_args, scope_choices, scope_from_answer, stage_args, ChangeScope};

#[test]
fn stage_args_stage_everything() {
    assert_eq!(stage_args(), vec!["add", "."]);
}

#[test]
fn scope_answers_map_to_scopes() {
    assert_eq!(scope_from_answer("staged"), ChangeScope::Staged);
    assert_eq!(scope_from_answer("unstaged"), ChangeScope::Unstaged);
    assert_eq!(scope_from_answer("combined"), ChangeScope::Combined);
}

#[test]
fn unrecognized_answer_defaults_to_staged() {
    assert_eq!(scope_from_answer(""), ChangeScope::Staged);
    assert_eq!(scope_from_answer("everything"), ChangeScope::Staged);
    assert_eq!(scope_from_answer("Staged"), ChangeScope::Staged);
}

#[test]
fn scope_choices_are_offered_in_order() {
    let choices = scope_choices();
    assert_eq!(choices, vec!["staged", "unstaged", "combined"]);
}

#[test]
fn diff_args_staged_with_exclusion() {
    let exclusions = vec!["Cargo.lock".to_string()];
    let args = diff_args(&ChangeScope::Staged, &exclusions);
    assert_eq!(
        args,
        vec!["diff", "--cached", "--", ".", ":(exclude)Cargo.lock"]
    );
}

#[test]
fn diff_args_unstaged_without_exclusions() {
    let args = diff_args(&ChangeScope::Unstaged, &Vec::new());
    assert_eq!(args, vec!["diff"]);
}

#[test]
fn diff_args_combined_with_two_exclusions() {
    let exclusions = vec!["Cargo.lock".to_string(), "target/out.txt".to_string()];
    let args = diff_args(&ChangeScope::Combined, &exclusions);
    assert_eq!(
        args,
        vec![
            "diff",
            "HEAD",
            "--",
            ".",
            ":(exclude)Cargo.lock",
            ":(exclude)target/out.txt"
        ]
    );
}
