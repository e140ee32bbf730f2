use powerctl::action::set_gpu_mode;
use powerctl::action::set_gpu_mode_command;
use powerctl::action::set_profile;
use powerctl::action::set_profile_command;
use powerctl::action::ActionOutcome;

#[test]
fn gpu_mode_succeeds_on_success_exit() {
    assert!(set_gpu_mode(ActionOutcome::Exited(true)).is_ok());
}

#[test]
fn gpu_mode_nonzero_exit_gives_the_fixed_error() {
    let r = set_gpu_mode(ActionOutcome::Exited(false));
    assert_eq!(r.unwrap_err(), "Failed to set GPU mode");
}

#[test]
fn gpu_mode_spawn_failure_gives_the_spawn_error() {
    let r = set_gpu_mode(ActionOutcome::SpawnFailed("authorization dismissed".to_string()));
    assert_eq!(r.unwrap_err(), "authorization dismissed");
}

#[test]
fn gpu_mode_command_passes_the_mode_through_unvalidated() {
    for mode in ["integrated", "Hybrid", "no-such-mode"] {
        let c = set_gpu_mode_command(mode);
        assert_eq!(c.program, "pkexec");
        assert_eq!(c.args, ["supergfxctl", "-m", mode]);
    }
}

#[test]
fn profile_succeeds_on_success_exit() {
    assert!(set_profile(ActionOutcome::Exited(true)).is_ok());
}

#[test]
fn profile_nonzero_exit_gives_the_fixed_error() {
    let r = set_profile(ActionOutcome::Exited(false));
    assert_eq!(r.unwrap_err(), "Failed to apply profile");
}

#[test]
fn profile_spawn_failure_gives_the_spawn_error() {
    let r = set_profile(ActionOutcome::SpawnFailed("pkexec missing".to_string()));
    assert_eq!(r.unwrap_err(), "pkexec missing");
}

#[test]
fn profile_command_passes_the_name_through_unvalidated() {
    for name in ["quiet", "balanced", "made-up-profile"] {
        let c = set_profile_command(name);
        assert_eq!(c.program, "pkexec");
        assert_eq!(c.args, ["/usr/local/bin/powerctl-helper", name]);
    }
}
