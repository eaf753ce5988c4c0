use cli_run::cwd::{get_cli_run_cwd, resolved_cwd};
use cli_run::exit::RunError;

#[test]
fn tilde_override_is_expanded_to_home() {
    assert_eq!(
        get_cli_run_cwd(Some("~/project"), Some("/home/u"), "/work"),
        "/home/u/project"
    );
}

#[test]
fn no_override_means_the_current_directory() {
    assert_eq!(get_cli_run_cwd(None, Some("/home/u"), "/work/dir"), "/work/dir");
    assert_eq!(get_cli_run_cwd(None, None, "/work/dir"), "/work/dir");
    assert_eq!(get_cli_run_cwd(None, Some("/home/u"), "/work/~dir"), "/work/~dir");
    assert_eq!(get_cli_run_cwd(None, Some("/home/u"), "~"), "~");
}

#[test]
fn override_without_tilde_is_taken_as_it_is() {
    assert_eq!(get_cli_run_cwd(Some("/srv/app"), Some("/home/u"), "/work"), "/srv/app");
    assert_eq!(get_cli_run_cwd(Some("relative/dir"), None, "/work"), "relative/dir");
    assert_eq!(get_cli_run_cwd(Some("a/~/b"), Some("/home/u"), "/work"), "a/~/b");
    assert_eq!(get_cli_run_cwd(Some(""), Some("/home/u"), "/work"), "");
}

#[test]
fn bare_tilde_is_the_home_directory() {
    assert_eq!(get_cli_run_cwd(Some("~"), Some("/home/u"), "/work"), "/home/u");
}

#[test]
fn only_the_leading_tilde_is_expanded() {
    assert_eq!(get_cli_run_cwd(Some("~/a~b"), Some("/h"), "/work"), "/h/a~b");
}

#[test]
fn unknown_home_falls_back_to_the_current_directory() {
    assert_eq!(get_cli_run_cwd(Some("~/project"), None, "/work"), "/work");
}

#[test]
fn canonical_directory_is_the_result() {
    let result = resolved_cwd("/home/u/project", Some("/mnt/data/u/project".to_string()));
    assert!(matches!(result, Ok(dir) if dir == "/mnt/data/u/project"));
}

#[test]
fn missing_directory_is_a_path_resolution_error() {
    let result = resolved_cwd("/home/u/project", None);
    assert!(matches!(result, Err(RunError::PathResolution { path }) if path == "/home/u/project"));
}
