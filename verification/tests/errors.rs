use utsushot::backend::hyprland;
use utsushot::backend::niri::{move_target_error, NiriBackend, PHANTOM_OUTPUT_NAME};
use utsushot::backend::sway;
use utsushot::backend::{CleanupOnce, OutputId};
use utsushot::capture::{keep_first_failure, require, session_outcome};
use utsushot::error::{exit, Error};

#[test]
fn exit_codes_match_the_documented_contract() {
    let cases = [
        (Error::Usage(String::new()), 2),
        (Error::NoBackend, 3),
        (Error::NoSession(String::new()), 3),
        (Error::Unimplemented("niri", String::new()), 4),
        (Error::MissingDependency("grim", String::new()), 5),
        (Error::Capture(String::new()), 6),
        (Error::Ipc(String::new()), 6),
        (Error::Restore(String::new()), 7),
    ];
    for (err, code) in cases {
        assert_eq!(err.exit_code(), code, "wrong exit code for {err:?}");
    }
}

#[test]
fn every_code_fits_in_a_u8() {
    for code in [
        exit::SUCCESS,
        exit::USAGE,
        exit::NO_BACKEND,
        exit::BACKEND_UNIMPLEMENTED,
        exit::MISSING_DEPENDENCY,
        exit::CAPTURE_FAILED,
        exit::RESTORE_FAILED,
    ] {
        assert!(
            u8::try_from(code).is_ok(),
            "exit code {code} does not fit in u8"
        );
    }
}

#[test]
fn remaining_errors_map_to_capture_failed() {
    assert_eq!(Error::NoPhantomOutput(String::new()).exit_code(), 6);
    let io = std::io::Error::new(std::io::ErrorKind::NotFound, "gone");
    assert_eq!(Error::Io(io).exit_code(), 6);
}

#[test]
fn messages_follow_the_documented_wording() {
    assert_eq!(
        Error::NoBackend.message(),
        "no supported compositor detected (checked niri, sway, hyprland)"
    );
    assert_eq!(Error::Usage("bad".into()).message(), "bad");
    assert_eq!(
        Error::Unimplemented("sway", "soon".into()).message(),
        "backend 'sway' is not implemented yet: soon"
    );
    assert_eq!(
        Error::MissingDependency("grim", "install grim".into()).message(),
        "required program 'grim' not found in PATH: install grim"
    );
    assert_eq!(
        Error::NoPhantomOutput("x".into()).message(),
        "no phantom output configured: x"
    );
    assert_eq!(Error::Ipc("x".into()).message(), "compositor IPC failed: x");
    assert_eq!(Error::Capture("x".into()).message(), "capture failed: x");
    assert_eq!(
        Error::Restore("x".into()).message(),
        "failed to restore session: x"
    );
    let io = std::io::Error::new(std::io::ErrorKind::NotFound, "gone");
    assert_eq!(Error::Io(io).message(), "gone");
}

#[test]
fn hyprland_error_invites_contribution() {
    let msg = hyprland::planned().message();
    assert!(msg.contains("contributions welcome"));
    assert!(msg.contains("headless"));
}

#[test]
fn sway_error_invites_contribution() {
    let msg = sway::planned().message();
    assert!(msg.contains("contributions welcome"));
    assert!(msg.contains("create_output"));
}

#[test]
fn planned_backends_have_stable_names() {
    assert_eq!(sway::SwayBackend::new().name(), "sway");
    assert_eq!(hyprland::HyprlandBackend::new().name(), "hyprland");
    assert_eq!(sway::planned().exit_code(), 4);
}

#[test]
fn name_is_stable() {
    assert_eq!(NiriBackend::new().name(), "niri");
}

#[test]
fn unimplemented_error_points_at_the_docs() {
    let err = NiriBackend::new()
        .create_phantom(5120, 2880)
        .expect_err("phantom creation is not implemented yet");
    let msg = err.message();
    assert!(
        msg.contains(PHANTOM_OUTPUT_NAME),
        "should name the output: {msg}"
    );
    assert!(
        msg.contains("docs/backends/niri.md"),
        "should point at docs: {msg}"
    );
}

#[test]
fn cleanup_is_infallible_on_a_fresh_backend() {
    let mut backend = NiriBackend::new();
    assert!(backend.cleanup().is_ok());
}

#[test]
fn moving_the_target_is_reported_as_unimplemented() {
    let msg = move_target_error().message();
    assert_eq!(
        msg,
        "backend 'niri' is not implemented yet: moving the target is not implemented yet (issue #2)"
    );
}

#[test]
fn require_reports_the_program_and_hint() {
    let err = require("utsushot-nope", "install it somehow", false)
        .expect_err("missing program should be an error");
    let msg = err.message();
    assert!(msg.contains("utsushot-nope"));
    assert!(msg.contains("install it somehow"));
}

#[test]
fn require_passes_a_program_that_was_found() {
    assert!(require("sh", "install a shell", true).is_ok());
}

#[test]
fn output_ids_keep_name_and_display() {
    let plain = OutputId::new("spy-0");
    assert_eq!(plain.as_str(), "spy-0");
    assert_eq!(plain.display, None);
    let nested = OutputId::on_display("winit", "wayland-9");
    assert_eq!(nested.as_str(), "winit");
    assert_eq!(nested.display.as_deref(), Some("wayland-9"));
}

#[test]
fn cleanup_is_handed_out_exactly_once() {
    let mut slot = CleanupOnce::new(OutputId::new("spy-0"));
    assert!(slot.is_armed());
    assert_eq!(slot.peek().map(OutputId::as_str), Some("spy-0"));
    let first = slot.take();
    assert_eq!(first.map(|o| o.name), Some("spy-0".to_string()));
    assert!(!slot.is_armed());
    assert!(slot.take().is_none());
    assert!(slot.peek().is_none());
}

#[test]
fn the_first_failed_restore_step_is_reported() {
    let r = keep_first_failure(Err(Error::Ipc("mode".into())), Err(Error::Ipc("scale".into())));
    assert_eq!(r.unwrap_err().message(), "compositor IPC failed: mode");
    let r = keep_first_failure(Ok(()), Err(Error::Ipc("scale".into())));
    assert_eq!(r.unwrap_err().message(), "compositor IPC failed: scale");
    assert!(keep_first_failure(Ok(()), Ok(())).is_ok());
}

#[test]
fn a_failed_capture_reports_its_own_error() {
    let r = session_outcome(Err(Error::Ipc("gone".into())), Err(Error::Capture("x".into())));
    let err = r.unwrap_err();
    assert_eq!(err.exit_code(), 6);
    assert_eq!(err.message(), "capture failed: x");
    let r = session_outcome(Err(Error::Ipc("gone".into())), Ok(()));
    let err = r.unwrap_err();
    assert_eq!(err.exit_code(), 7);
    assert_eq!(err.message(), "failed to restore session: compositor IPC failed: gone");
    let r = session_outcome(Ok(()), Err(Error::Capture("x".into())));
    assert_eq!(r.unwrap_err().exit_code(), 6);
    assert!(session_outcome(Ok(()), Ok(())).is_ok());
}
