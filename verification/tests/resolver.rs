use electron_pan_clip::resolver::{
    describe_failure, file_uri, file_uris, resolve_paths, PathAttempt, PathFailure, ResolvePolicy,
};
use electron_pan_clip::ErrorKind;

fn resolved(input: &str, canonical: &str) -> PathAttempt {
    PathAttempt { input: input.to_string(), outcome: Ok(canonical.to_string()) }
}

fn missing(input: &str) -> PathAttempt {
    PathAttempt {
        input: input.to_string(),
        outcome: Err(PathFailure::Canonicalize("No such file or directory (os error 2)".to_string())),
    }
}

#[test]
fn empty_input_resolves_to_nothing_under_either_policy() {
    assert_eq!(resolve_paths(&Vec::new(), ResolvePolicy::Strict), Ok(Vec::new()));
    assert_eq!(resolve_paths(&Vec::new(), ResolvePolicy::BestEffort), Ok(Vec::new()));
}

#[test]
fn resolved_paths_keep_their_order() {
    let attempts = vec![resolved("b.txt", "/tmp/b.txt"), resolved("./a.txt", "/tmp/a.txt")];
    let expected = vec!["/tmp/b.txt".to_string(), "/tmp/a.txt".to_string()];
    assert_eq!(resolve_paths(&attempts, ResolvePolicy::Strict), Ok(expected.clone()));
    assert_eq!(resolve_paths(&attempts, ResolvePolicy::BestEffort), Ok(expected));
}

#[test]
fn strict_policy_rejects_one_failure_and_names_every_failing_path() {
    let attempts = vec![
        missing("/nowhere/one.txt"),
        resolved("a.txt", "/tmp/a.txt"),
        missing("two.txt"),
    ];
    let error = resolve_paths(&attempts, ResolvePolicy::Strict).unwrap_err();
    assert_eq!(error.kind, ErrorKind::InvalidInput);
    assert_eq!(
        error.message,
        "Some paths could not be processed: \
         Failed to canonicalize path '/nowhere/one.txt': No such file or directory (os error 2); \
         Failed to canonicalize path 'two.txt': No such file or directory (os error 2)"
    );
    assert!(error.message.contains("/nowhere/one.txt"));
    assert!(error.message.contains("two.txt"));
}

#[test]
fn best_effort_policy_goes_on_with_what_resolved() {
    let attempts = vec![
        missing("/nowhere/one.txt"),
        resolved("a.txt", "/tmp/a.txt"),
        missing("two.txt"),
    ];
    assert_eq!(
        resolve_paths(&attempts, ResolvePolicy::BestEffort),
        Ok(vec!["/tmp/a.txt".to_string()])
    );
}

#[test]
fn best_effort_policy_rejects_when_nothing_resolved() {
    let attempts = vec![missing("one.txt"), missing("two.txt")];
    let error = resolve_paths(&attempts, ResolvePolicy::BestEffort).unwrap_err();
    assert_eq!(error.kind, ErrorKind::InvalidInput);
    assert_eq!(
        error.message,
        "No valid file URIs could be created from the provided paths. Errors: \
         Failed to canonicalize path 'one.txt': No such file or directory (os error 2); \
         Failed to canonicalize path 'two.txt': No such file or directory (os error 2)"
    );
}

#[test]
fn failures_are_described_by_their_kind() {
    assert_eq!(
        describe_failure("x", &PathFailure::Canonicalize("denied".to_string())),
        "Failed to canonicalize path 'x': denied"
    );
    assert_eq!(
        describe_failure("x", &PathFailure::InvalidUnicode("\"/tmp/\\xFF\"".to_string())),
        "Path contains invalid UTF-8: \"/tmp/\\xFF\""
    );
    let attempts = vec![PathAttempt {
        input: "x".to_string(),
        outcome: Err(PathFailure::InvalidUnicode("\"/tmp/\\xFF\"".to_string())),
    }];
    let error = resolve_paths(&attempts, ResolvePolicy::Strict).unwrap_err();
    assert_eq!(
        error.message,
        "Some paths could not be processed: Path contains invalid UTF-8: \"/tmp/\\xFF\""
    );
}

#[test]
fn file_uris_put_the_scheme_before_the_path() {
    assert_eq!(file_uri("/tmp/a.txt"), "file:///tmp/a.txt");
    assert_eq!(file_uri("/tmp/with space.txt"), "file:///tmp/with space.txt");
    assert_eq!(file_uri(""), "file://");
    assert_eq!(
        file_uris(&vec!["/a".to_string(), "/b c".to_string()]),
        vec!["file:///a".to_string(), "file:///b c".to_string()]
    );
    assert_eq!(file_uris(&Vec::new()), Vec::<String>::new());
}
