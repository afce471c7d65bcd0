use checkout_ago::command::rev_list_args;
use checkout_ago::orchestrate::checkout_outcome;
use checkout_ago::orchestrate::report_lines;
use checkout_ago::orchestrate::resolve_head;
use checkout_ago::orchestrate::resolve_target;
use checkout_ago::orchestrate::RunError;

#[test]
fn test_resolve_head_success_trims_output() {
    let r = resolve_head(true, Some("abc123\n".to_string()));
    assert_eq!(r, Ok("abc123".to_string()));
}

#[test]
fn test_resolve_head_nonzero_exit() {
    let r = resolve_head(false, Some("abc123\n".to_string()));
    assert_eq!(r, Err(RunError::HeadQueryFailed));
    assert_eq!(RunError::HeadQueryFailed.message(), "git rev-parse failed");
}

#[test]
fn test_resolve_head_undecodable_output() {
    let r = resolve_head(true, None);
    assert_eq!(r, Err(RunError::DecodeFailure));
    assert_eq!(
        RunError::DecodeFailure.message(),
        "process output was not valid text"
    );
}

#[test]
fn test_resolve_target_success_trims_output() {
    let r = resolve_target(true, Some("  def456\n".to_string()));
    assert_eq!(r, Ok("def456".to_string()));
}

#[test]
fn test_resolve_head_trims_unicode_whitespace() {
    let r = resolve_head(true, Some("C1\u{a0}\n".to_string()));
    assert_eq!(r, Ok("C1".to_string()));
}

#[test]
fn test_resolve_target_trims_unicode_whitespace() {
    let r = resolve_target(true, Some("\u{2029}def456\u{a0}".to_string()));
    assert_eq!(r, Ok("def456".to_string()));
}

#[test]
fn test_resolve_target_nonzero_exit() {
    let r = resolve_target(false, None);
    assert_eq!(r, Err(RunError::RevListFailed));
    assert_eq!(RunError::RevListFailed.message(), "git rev-list failed");
}

#[test]
fn test_resolve_target_undecodable_output() {
    let r = resolve_target(true, None);
    assert_eq!(r, Err(RunError::DecodeFailure));
}

#[test]
fn test_resolve_target_blank_output_is_not_found() {
    let r = resolve_target(true, Some("  \n".to_string()));
    assert_eq!(r, Err(RunError::NotFound));
    assert_eq!(
        RunError::NotFound.message(),
        "no commit found before the given time"
    );
}

#[test]
fn test_checkout_outcome() {
    assert_eq!(checkout_outcome(true), Ok(()));
    assert_eq!(checkout_outcome(false), Err(RunError::CheckoutFailed));
    assert_eq!(RunError::CheckoutFailed.message(), "git checkout failed");
}

#[test]
fn test_report_lines_exact() {
    let lines = report_lines("C1", "C2");
    assert_eq!(
        lines,
        vec![
            "Current HEAD: C1",
            "Target commit: C2",
            "To return: git checkout C1"
        ]
    );
}

// Dry-run scenario: the current position resolves, the lookup for "2d" names
// a target, the report references both and the way back, and no checkout
// decision is ever reached.
#[test]
fn test_dry_run_scenario() {
    let print_only = true;
    let mut checkout_invoked = false;

    let head = resolve_head(true, Some("C1\n".to_string())).unwrap();
    assert_eq!(head, "C1");

    let args = rev_list_args("2d");
    assert_eq!(args[3], "--before=2 days ago");
    let target = resolve_target(true, Some("C2\n".to_string())).unwrap();
    assert_eq!(target, "C2");

    let lines = report_lines(&head, &target);
    assert!(lines[0].contains("C1"));
    assert!(lines[1].contains("C2"));
    assert!(lines[2].contains("C1"));

    if !print_only {
        checkout_invoked = true;
    }
    assert!(!checkout_invoked);
}

// Empty lookup output: the run fails with the not-found diagnostic before any
// checkout is attempted.
#[test]
fn test_lookup_empty_scenario() {
    let head = resolve_head(true, Some("C1\n".to_string())).unwrap();
    assert_eq!(head, "C1");

    let outcome = resolve_target(true, Some("".to_string()));
    assert_eq!(outcome, Err(RunError::NotFound));
    let message = outcome.unwrap_err().message();
    assert_eq!(message, "no commit found before the given time");
}

// Failing checkout: the run fails with the execution diagnostic only after
// the report lines were available.
#[test]
fn test_checkout_failure_scenario() {
    let head = resolve_head(true, Some("C1\n".to_string())).unwrap();
    let target = resolve_target(true, Some("C2\n".to_string())).unwrap();

    let lines = report_lines(&head, &target);
    assert_eq!(lines.len(), 3);

    let outcome = checkout_outcome(false);
    assert_eq!(outcome, Err(RunError::CheckoutFailed));
    assert_eq!(outcome.unwrap_err().message(), "git checkout failed");
}
