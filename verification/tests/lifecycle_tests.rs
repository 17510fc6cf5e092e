use lunatic_shim::errors::ShimError;
use lunatic_shim::lifecycle::{DeleteStep, RunState, Wasi, SIGINT, SIGKILL};
use lunatic_shim::rootdir::{Options, OptionsOutcome};

fn instance(id: &str) -> Wasi {
    Wasi {
        id: String::from(id),
        bundle: String::from("/bundles/b"),
        rootdir: String::from("/run/containerd/lunatic/ns1"),
        stdin: String::new(),
        stdout: String::new(),
        stderr: String::new(),
    }
}

#[test]
fn new_resolves_root_under_default() {
    let w = Wasi::new(
        String::from("c1"),
        String::from("/bundles/b"),
        "ns1",
        String::new(),
        String::new(),
        String::new(),
        &OptionsOutcome::Absent,
    )
    .unwrap();
    assert_eq!(w.id, "c1");
    assert_eq!(w.bundle, "/bundles/b");
    assert_eq!(w.rootdir, "/run/containerd/lunatic/ns1");
}

#[test]
fn new_resolves_root_from_descriptor() {
    let opts = OptionsOutcome::Parsed(Options { root: Some(String::from("/custom")) });
    let w = Wasi::new(
        String::from("c2"),
        String::from("/bundles/b"),
        "ns2",
        String::new(),
        String::new(),
        String::new(),
        &opts,
    )
    .unwrap();
    assert_eq!(w.rootdir, "/custom/ns2");
}

#[test]
fn new_fails_when_resolution_fails() {
    let r = Wasi::new(
        String::from("c3"),
        String::from("/bundles/b"),
        "ns1",
        String::new(),
        String::new(),
        String::new(),
        &OptionsOutcome::ReadFailed,
    );
    assert!(matches!(r, Err(ShimError::IoError)));
}

#[test]
fn kill_accepts_only_the_two_signals() {
    let w = instance("c1");
    assert!(w.kill_request(SIGKILL).is_ok());
    assert!(w.kill_request(SIGINT).is_ok());
    assert!(matches!(w.kill_request(15), Err(ShimError::InvalidArgument(_))));
}

#[test]
fn kill_with_arbitrary_value_is_invalid_argument() {
    let w = instance("c1");
    match w.kill_request(9999) {
        Err(ShimError::InvalidArgument(m)) => {
            assert_eq!(m, "only SIGKILL and SIGINT are supported");
        }
        other => panic!("expected InvalidArgument, got {:?}", other.is_ok()),
    }
}

#[test]
fn kill_load_failure_names_the_instance() {
    let w = instance("c1");
    match w.kill_load_failure() {
        ShimError::StateLoadFailure(m) => {
            assert_eq!(m, "could not load state for container c1");
        }
        _ => panic!("expected StateLoadFailure"),
    }
}

#[test]
fn kill_on_stopped_container_is_not_running() {
    let w = instance("c1");
    let e = w.kill_delivery_failed(RunState::Stopped, String::from("unit not found"));
    assert!(matches!(e, ShimError::NotRunning));
    assert_eq!(e.message(), "container not running");
}

#[test]
fn kill_failure_on_live_container_propagates() {
    let w = instance("c1");
    let e = w.kill_delivery_failed(RunState::Running, String::from("delivery refused"));
    match e {
        ShimError::RuntimeFailure(m) => assert_eq!(m, "delivery refused"),
        _ => panic!("expected RuntimeFailure"),
    }
}

#[test]
fn delete_of_absent_state_finishes_successfully() {
    let w = instance("c1");
    match w.delete_probe_step(Some(false)) {
        DeleteStep::Finished(r) => assert!(r.is_ok()),
        _ => panic!("expected immediate success"),
    }
}

#[test]
fn delete_with_failed_probe_finishes_successfully() {
    let w = instance("c1");
    match w.delete_probe_step(None) {
        DeleteStep::Finished(r) => assert!(r.is_ok()),
        _ => panic!("expected immediate success"),
    }
}

#[test]
fn delete_with_failed_load_finishes_successfully() {
    let w = instance("c1");
    match w.delete_load_step(false) {
        DeleteStep::Finished(r) => assert!(r.is_ok()),
        _ => panic!("expected immediate success"),
    }
}

#[test]
fn delete_removal_failure_is_propagated_with_context() {
    let w = instance("c1");
    match w.delete_remove_step(Err(String::from("device busy"))) {
        Err(ShimError::RuntimeFailure(m)) => {
            assert_eq!(m, "failed to delete container c1: device busy");
        }
        _ => panic!("expected RuntimeFailure"),
    }
}

#[test]
fn delete_twice_never_errors_on_the_second_call() {
    let w = instance("c1");
    // First call: state exists, load succeeds, forced removal succeeds.
    assert!(matches!(w.delete_probe_step(Some(true)), DeleteStep::LoadState));
    assert!(matches!(w.delete_load_step(true), DeleteStep::RemoveResources));
    assert!(w.delete_remove_step(Ok(())).is_ok());
    // Second call: the record is gone, so the probe answers false and the
    // operation finishes successfully without touching the runtime.
    match w.delete_probe_step(Some(false)) {
        DeleteStep::Finished(r) => assert!(r.is_ok()),
        _ => panic!("second delete must be a no-op success"),
    }
}
