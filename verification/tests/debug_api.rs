use rollup_boost::debug_api::{
    set_dry_run, SetDryRunRequest, SetDryRunRequestAction, SetDryRunResponse,
    DEFAULT_DEBUG_API_PORT,
};

#[test]
fn test_debug_client() {
    let mut dry_run = false;

    let result =
        set_dry_run(&mut dry_run, SetDryRunRequest { action: SetDryRunRequestAction::ToggleDryRun });
    assert_eq!(result.dry_run_state, true);
    assert_eq!(result.dry_run_state, dry_run);

    let result =
        set_dry_run(&mut dry_run, SetDryRunRequest { action: SetDryRunRequestAction::ToggleDryRun });
    assert_eq!(result.dry_run_state, false);
    assert_eq!(result.dry_run_state, dry_run);
}

#[test]
fn set_dry_run_sets_the_given_state() {
    let mut dry_run = false;
    let request = SetDryRunRequest { action: SetDryRunRequestAction::SetDryRun(true) };
    assert_eq!(set_dry_run(&mut dry_run, request), SetDryRunResponse { dry_run_state: true });
    assert!(dry_run);
    assert_eq!(set_dry_run(&mut dry_run, request), SetDryRunResponse { dry_run_state: true });
    assert!(dry_run);
    let request = SetDryRunRequest { action: SetDryRunRequestAction::SetDryRun(false) };
    assert_eq!(set_dry_run(&mut dry_run, request), SetDryRunResponse { dry_run_state: false });
    assert!(!dry_run);
}

#[test]
fn default_port() {
    assert_eq!(DEFAULT_DEBUG_API_PORT, 5555);
}
