use panel_grid::launch::select_policy;
use panel_grid::launch::settle_replace;
use panel_grid::launch::settle_supervised;
use panel_grid::launch::LaunchFailure;
use panel_grid::launch::LaunchPolicy;

#[test]
fn toggle_flag_selects_supervised() {
    assert!(matches!(select_policy(true), LaunchPolicy::Supervised));
    assert!(matches!(select_policy(false), LaunchPolicy::Replace));
}

#[test]
fn supervised_clean_exit_keeps_loop_running() {
    // A supervised command that exits with status 0: no error, and the event
    // loop can process the next activation.
    let r = settle_supervised(Ok(0));
    assert!(r.continue_running);
    assert!(r.surfaced_error.is_none());
}

#[test]
fn supervised_nonzero_exit_is_not_an_error() {
    let r = settle_supervised(Ok(3));
    assert!(r.continue_running);
    assert!(r.surfaced_error.is_none());
}

#[test]
fn supervised_spawn_failure_is_swallowed_not_fatal() {
    // A nonexistent command: an error value is produced, and the application
    // keeps running.
    let f = LaunchFailure { message: "No such file or directory".to_string() };
    let r = settle_supervised(Err(f));
    assert!(r.continue_running);
    let e = r.surfaced_error.expect("a spawn failure must yield an error value");
    assert_eq!(e.message, "No such file or directory");
}

#[test]
fn replace_return_never_passes_silently() {
    // A replace-semantics launch only returns when the replacement did not
    // occur; that failure is always surfaced.
    let f = LaunchFailure { message: "command not found".to_string() };
    let r = settle_replace(f);
    let e = r.surfaced_error.expect("a replace launch that returned must surface its failure");
    assert_eq!(e.message, "command not found");
    assert!(r.continue_running);
}
