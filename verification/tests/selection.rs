use utsushot::cli::{default_file_name, log_level_for, LogLevel};
use utsushot::detect::{BackendKind, Candidate, Env, SessionKind};
use utsushot::selection::{
    backend_table, choose_backend, no_backend_error, requested_backend, select_backend,
    unreachable_backend,
};

struct NoEnv;

impl Env for NoEnv {
    fn get(&self, _key: &str) -> Option<String> {
        None
    }
}

struct X11Env;

impl Env for X11Env {
    fn get(&self, key: &str) -> Option<String> {
        (key == "DISPLAY").then(|| ":0".to_string())
    }
}

#[test]
fn list_backends_runs_without_a_compositor() {
    let table = backend_table(&vec![]);
    for backend in ["niri", "sway", "hyprland"] {
        assert!(table.contains(backend), "missing {backend} in:\n{table}");
    }
}

#[test]
fn backend_table_is_aligned() {
    let table = backend_table(&vec![BackendKind::Sway]);
    assert_eq!(
        table,
        "BACKEND      STATUS         DETECTED HERE\n\
         niri         in progress    no\n\
         sway         planned        yes\n\
         hyprland     planned        no\n"
    );
}

#[test]
fn rejects_an_unknown_backend() {
    let err = requested_backend("kwin").unwrap_err();
    assert!(err.message().contains("unknown backend"));
    assert_eq!(err.exit_code(), 2);
}

#[test]
fn requested_backend_wins_over_detection() {
    let detected = vec![Candidate { kind: BackendKind::Niri, reason: "NIRI_SOCKET is set" }];
    assert_eq!(
        choose_backend(&Some("Hypr".to_string()), &detected, None).ok(),
        Some(BackendKind::Hyprland)
    );
    assert_eq!(
        choose_backend(&None, &detected, None).ok(),
        Some(BackendKind::Niri)
    );
}

#[test]
fn nothing_detected_reports_the_session() {
    assert_eq!(
        choose_backend(&None, &vec![], Some(SessionKind::Wayland)).unwrap_err().exit_code(),
        3
    );
    assert!(choose_backend(&None, &vec![], Some(SessionKind::X11))
        .unwrap_err()
        .message()
        .contains("X11 session"));
}

#[test]
fn no_backend_errors_depend_on_the_session() {
    assert_eq!(no_backend_error(SessionKind::Wayland).exit_code(), 3);
    assert!(no_backend_error(SessionKind::X11).message().contains("X11 session"));
    assert!(no_backend_error(SessionKind::NoDisplay)
        .message()
        .contains("no graphical session detected"));
    assert_eq!(
        select_backend(&None, &X11Env).unwrap_err().exit_code(),
        3
    );
    assert!(select_backend(&None, &NoEnv)
        .unwrap_err()
        .message()
        .contains("neither WAYLAND_DISPLAY nor DISPLAY"));
    assert_eq!(
        select_backend(&Some("sway".to_string()), &NoEnv).ok(),
        Some(BackendKind::Sway)
    );
}

#[test]
fn unreachable_backend_is_a_usage_error() {
    let err = unreachable_backend("sway");
    assert_eq!(
        err.message(),
        "backend 'sway' was requested but its compositor is not running here"
    );
    assert_eq!(err.exit_code(), 2);
}

#[test]
fn verbose_counts_up() {
    assert_eq!(log_level_for(1), LogLevel::Debug);
    assert_eq!(log_level_for(2), LogLevel::Trace);
    assert_eq!(log_level_for(0), LogLevel::Info);
    assert_eq!(log_level_for(255), LogLevel::Trace);
}

#[test]
fn default_output_is_a_timestamped_png() {
    let name = default_file_name(1_700_000_000);
    assert!(name.ends_with(".png"));
    assert!(name.starts_with("utsushot_"), "unexpected name: {name}");
    assert_eq!(name, "utsushot_1700000000.png");
    assert_eq!(default_file_name(0), "utsushot_0.png");
}

#[test]
fn captures_at_the_requested_scale() {
    // Needs a running compositor session; there is nothing to check without one.
}

#[test]
fn session_is_restored_after_a_failed_capture() {
    // Needs a running compositor session; there is nothing to check without one.
}
