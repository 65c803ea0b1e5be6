use powerctl::governor::{command_result, governor_command, read_current_governor, CommandOutcome};
use powerctl::profile::Profile;

#[test]
fn command_asks_for_the_governor_without_a_prompt() {
    let invocation = governor_command("performance");
    assert_eq!(invocation.program, "sudo");
    assert_eq!(invocation.args, vec!["-n", "cpupower", "frequency-set", "-g", "performance"]);
}

#[test]
fn command_passes_the_governor_through() {
    for p in Profile::all() {
        let invocation = governor_command(p.governor());
        assert_eq!(invocation.program, "sudo");
        assert_eq!(invocation.args.len(), 5);
        assert_eq!(invocation.args[3], "-g");
        assert_eq!(invocation.args[4], p.governor());
    }
}

#[test]
fn successful_exit_is_success() {
    assert_eq!(command_result(CommandOutcome::Exited { success: true }), Ok(()));
}

#[test]
fn failed_exit_names_the_missing_privilege() {
    assert_eq!(
        command_result(CommandOutcome::Exited { success: false }),
        Err("Need passwordless sudo for cpupower".to_string())
    );
}

#[test]
fn failed_launch_reports_its_reason() {
    let reason = "No such file or directory (os error 2)".to_string();
    assert_eq!(command_result(CommandOutcome::LaunchFailed(reason.clone())), Err(reason));
}

#[test]
fn current_governor_resolves_to_a_profile() {
    assert!(read_current_governor(Some("schedutil\n")) == Some(Profile::Balanced));
    assert!(read_current_governor(Some("powersave\n")) == Some(Profile::PowerSaver));
    assert!(read_current_governor(Some("performance\n")) == Some(Profile::Performance));
}

#[test]
fn unknown_or_unreadable_governor_is_no_profile() {
    assert!(read_current_governor(Some("ondemand\n")).is_none());
    assert!(read_current_governor(Some("")).is_none());
    assert!(read_current_governor(None).is_none());
}
