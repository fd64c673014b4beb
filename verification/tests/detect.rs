use std::collections::HashMap;

use utsushot::detect::{
    candidates, candidates_from, session_kind, session_kind_from, BackendKind, Candidate, Env,
    SessionKind,
};

#[derive(Default)]
struct FakeEnv(HashMap<String, String>);

impl FakeEnv {
    fn with(pairs: &[(&str, &str)]) -> Self {
        Self(
            pairs
                .iter()
                .map(|(k, v)| ((*k).to_string(), (*v).to_string()))
                .collect(),
        )
    }
}

impl Env for FakeEnv {
    fn get(&self, key: &str) -> Option<String> {
        self.0.get(key).cloned()
    }
}

fn kinds(env: &FakeEnv) -> Vec<BackendKind> {
    candidates(env).into_iter().map(|c| c.kind).collect()
}

#[test]
fn empty_env_yields_no_candidates() {
    assert!(candidates(&FakeEnv::default()).is_empty());
}

#[test]
fn niri_socket_detected() {
    let env = FakeEnv::with(&[("NIRI_SOCKET", "/run/user/1000/niri.sock")]);
    assert_eq!(kinds(&env), vec![BackendKind::Niri]);
}

#[test]
fn sway_and_hyprland_sockets_detected() {
    let env = FakeEnv::with(&[("SWAYSOCK", "/run/sway.sock")]);
    assert_eq!(kinds(&env), vec![BackendKind::Sway]);

    let env = FakeEnv::with(&[("HYPRLAND_INSTANCE_SIGNATURE", "abc123")]);
    assert_eq!(kinds(&env), vec![BackendKind::Hyprland]);
}

#[test]
fn empty_string_is_not_a_signal() {
    let env = FakeEnv::with(&[("NIRI_SOCKET", "")]);
    assert!(candidates(&env).is_empty());
}

#[test]
fn socket_ranks_above_desktop_name() {
    let env = FakeEnv::with(&[
        ("XDG_CURRENT_DESKTOP", "Hyprland"),
        ("NIRI_SOCKET", "/run/user/1000/niri.sock"),
    ]);
    assert_eq!(kinds(&env), vec![BackendKind::Niri, BackendKind::Hyprland]);
}

#[test]
fn colon_delimited_desktop_is_split() {
    let env = FakeEnv::with(&[("XDG_CURRENT_DESKTOP", "niri:wlroots")]);
    assert_eq!(kinds(&env), vec![BackendKind::Niri]);
}

#[test]
fn desktop_name_matching_is_case_insensitive() {
    let env = FakeEnv::with(&[("XDG_CURRENT_DESKTOP", "Hyprland")]);
    assert_eq!(kinds(&env), vec![BackendKind::Hyprland]);
}

#[test]
fn no_duplicate_when_socket_and_desktop_agree() {
    let env = FakeEnv::with(&[
        ("NIRI_SOCKET", "/run/niri.sock"),
        ("XDG_CURRENT_DESKTOP", "niri"),
    ]);
    assert_eq!(kinds(&env), vec![BackendKind::Niri]);
}

#[test]
fn unknown_desktop_is_ignored() {
    let env = FakeEnv::with(&[("XDG_CURRENT_DESKTOP", "GNOME")]);
    assert!(candidates(&env).is_empty());
}

#[test]
fn session_kinds() {
    assert_eq!(
        session_kind(&FakeEnv::with(&[("WAYLAND_DISPLAY", "wayland-1")])),
        SessionKind::Wayland
    );
    assert_eq!(
        session_kind(&FakeEnv::with(&[("DISPLAY", ":0")])),
        SessionKind::X11
    );
    assert_eq!(session_kind(&FakeEnv::default()), SessionKind::NoDisplay);
}

#[test]
fn wayland_wins_over_x11_when_both_set() {
    let env = FakeEnv::with(&[("WAYLAND_DISPLAY", "wayland-1"), ("DISPLAY", ":0")]);
    assert_eq!(session_kind(&env), SessionKind::Wayland);
}

#[test]
fn parse_roundtrips_all_kinds() {
    for kind in BackendKind::all() {
        assert_eq!(BackendKind::parse(kind.as_str()), Some(kind));
    }
    assert_eq!(BackendKind::parse("kwin"), None);
}

#[test]
fn candidates_carry_their_reasons() {
    let got = candidates_from(
        &Some("/run/niri.sock".to_string()),
        &None,
        &Some("sig".to_string()),
        &Some("sway:niri".to_string()),
    );
    assert_eq!(
        got,
        vec![
            Candidate { kind: BackendKind::Niri, reason: "NIRI_SOCKET is set" },
            Candidate { kind: BackendKind::Hyprland, reason: "HYPRLAND_INSTANCE_SIGNATURE is set" },
            Candidate { kind: BackendKind::Sway, reason: "named in XDG_CURRENT_DESKTOP" },
        ]
    );
}

#[test]
fn desktop_parts_are_trimmed_and_short_hypr_is_accepted() {
    let got = candidates_from(&None, &None, &None, &Some(" HYPR : \tSway\u{a0}".to_string()));
    let kinds: Vec<BackendKind> = got.into_iter().map(|c| c.kind).collect();
    assert_eq!(kinds, vec![BackendKind::Hyprland, BackendKind::Sway]);
}

#[test]
fn empty_desktop_parts_are_ignored() {
    let got = candidates_from(&None, &None, &None, &Some("::".to_string()));
    assert!(got.is_empty());
}

#[test]
fn session_kind_from_ignores_empty_values() {
    assert_eq!(
        session_kind_from(&Some(String::new()), &Some(":0".to_string())),
        SessionKind::X11
    );
    assert_eq!(session_kind_from(&None, &Some(String::new())), SessionKind::NoDisplay);
}

#[test]
fn names_and_implementation_status() {
    assert_eq!(BackendKind::Niri.as_str(), "niri");
    assert_eq!(BackendKind::Sway.as_str(), "sway");
    assert_eq!(BackendKind::Hyprland.as_str(), "hyprland");
    assert!(BackendKind::Niri.is_implemented());
    assert!(!BackendKind::Sway.is_implemented());
    assert!(!BackendKind::Hyprland.is_implemented());
    assert_eq!(BackendKind::parse("NiRi"), Some(BackendKind::Niri));
}

#[test]
fn env_has_needs_a_non_empty_value() {
    let env = FakeEnv::with(&[("A", ""), ("B", "x")]);
    assert!(!env.has("A"));
    assert!(env.has("B"));
    assert!(!env.has("C"));
}
