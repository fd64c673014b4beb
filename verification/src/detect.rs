//! Works out which compositor is running, in order of preference, from the
//! environment variables a session sets.

use vstd::prelude::*;

use crate::text::{
    ascii_lower, chars_eq_str, chars_of, lower_ascii, split_chars, split_on, trim, trim_chars,
};

verus! {

/// The compositors the tool knows about.
#[derive(Debug, Clone, Copy, PartialEq, Eq, Structural, PartialOrd, Ord)]
pub enum BackendKind {
    Niri,
    Sway,
    Hyprland,
}

/// The canonical lower-case name of a backend.
pub open spec fn kind_name(k: BackendKind) -> Seq<char> {
    match k {
        BackendKind::Niri => "niri"@,
        BackendKind::Sway => "sway"@,
        BackendKind::Hyprland => "hyprland"@,
    }
}

/// The backend a name refers to, ignoring ASCII case; "hypr" is accepted as a
/// short form of "hyprland".
pub open spec fn parse_kind(s: Seq<char>) -> Option<BackendKind> {
    let l = ascii_lower(s);
    if l == "niri"@ {
        Some(BackendKind::Niri)
    } else if l == "sway"@ {
        Some(BackendKind::Sway)
    } else if l == "hyprland"@ || l == "hypr"@ {
        Some(BackendKind::Hyprland)
    } else {
        None
    }
}

/// The backend a sequence of characters names.
pub fn parse_chars(s: &Vec<char>) -> (k: Option<BackendKind>)
    ensures
        k == parse_kind(s@),
{
    let l = lower_ascii(s);
    if chars_eq_str(&l, "niri") {
        Some(BackendKind::Niri)
    } else if chars_eq_str(&l, "sway") {
        Some(BackendKind::Sway)
    } else if chars_eq_str(&l, "hyprland") || chars_eq_str(&l, "hypr") {
        Some(BackendKind::Hyprland)
    } else {
        None
    }
}

impl BackendKind {
    /// The canonical name.
    pub fn as_str(self) -> (s: &'static str)
        ensures
            s@ == kind_name(self),
    {
        match self {
            BackendKind::Niri => "niri",
            BackendKind::Sway => "sway",
            BackendKind::Hyprland => "hyprland",
        }
    }

    /// The backend `s` names, ignoring ASCII case.
    pub fn parse(s: &str) -> (k: Option<BackendKind>)
        ensures
            k == parse_kind(s@),
    {
        let chars = chars_of(s);
        parse_chars(&chars)
    }

    /// Every backend, in preference order.
    pub fn all() -> (kinds: [BackendKind; 3])
        ensures
            kinds@ == seq![BackendKind::Niri, BackendKind::Sway, BackendKind::Hyprland],
    {
        [BackendKind::Niri, BackendKind::Sway, BackendKind::Hyprland]
    }

    /// Whether the backend does anything beyond reporting that it is planned.
    pub fn is_implemented(self) -> (b: bool)
        ensures
            b == (self == BackendKind::Niri),
    {
        matches!(self, BackendKind::Niri)
    }
}

/// A backend worth trying, and the signal that suggested it.
#[derive(Debug, Clone, PartialEq, Eq)]
pub struct Candidate {
    pub kind: BackendKind,
    pub reason: &'static str,
}

/// A candidate list as kinds paired with the text of their reasons.
pub open spec fn candidates_view(cs: Seq<Candidate>) -> Seq<(BackendKind, Seq<char>)> {
    cs.map_values(|c: Candidate| (c.kind, c.reason@))
}

/// An optional string taken by its characters.
pub open spec fn opt_view(o: &Option<String>) -> Option<Seq<char>> {
    match o {
        Some(s) => Some(s@),
        None => None,
    }
}

/// A variable counts as set only when it holds a non-empty value: shells export
/// empty variables readily.
pub open spec fn signalled(v: Option<Seq<char>>) -> bool {
    v matches Some(s) && s.len() > 0
}

/// `cs` with `(kind, reason)` appended, unless `kind` is already listed.
pub open spec fn with_candidate(
    cs: Seq<(BackendKind, Seq<char>)>,
    kind: BackendKind,
    reason: Seq<char>,
) -> Seq<(BackendKind, Seq<char>)> {
    if exists|i: int| 0 <= i < cs.len() && cs[i].0 == kind {
        cs
    } else {
        cs.push((kind, reason))
    }
}

/// `cs` extended by every backend named among the parts of the desktop name,
/// each trimmed, in order.
pub open spec fn with_desktop_parts(
    cs: Seq<(BackendKind, Seq<char>)>,
    parts: Seq<Seq<char>>,
) -> Seq<(BackendKind, Seq<char>)>
    decreases parts.len(),
{
    if parts.len() == 0 {
        cs
    } else {
        let prev = with_desktop_parts(cs, parts.drop_last());
        match parse_kind(trim(parts.last())) {
            Some(k) => with_candidate(prev, k, "named in XDG_CURRENT_DESKTOP"@),
            None => prev,
        }
    }
}

/// The candidates that the compositor sockets alone suggest.
pub open spec fn socket_candidates(
    niri_socket: Option<Seq<char>>,
    sway_socket: Option<Seq<char>>,
    hyprland_signature: Option<Seq<char>>,
) -> Seq<(BackendKind, Seq<char>)> {
    let s1 = if signalled(niri_socket) {
        seq![(BackendKind::Niri, "NIRI_SOCKET is set"@)]
    } else {
        Seq::empty()
    };
    let s2 = if signalled(sway_socket) {
        with_candidate(s1, BackendKind::Sway, "SWAYSOCK is set"@)
    } else {
        s1
    };
    if signalled(hyprland_signature) {
        with_candidate(s2, BackendKind::Hyprland, "HYPRLAND_INSTANCE_SIGNATURE is set"@)
    } else {
        s2
    }
}

/// The ordered candidates for the values of `NIRI_SOCKET`, `SWAYSOCK`,
/// `HYPRLAND_INSTANCE_SIGNATURE` and `XDG_CURRENT_DESKTOP`: sockets first,
/// then the colon-separated parts of the desktop name.
pub open spec fn candidates_for(
    niri_socket: Option<Seq<char>>,
    sway_socket: Option<Seq<char>>,
    hyprland_signature: Option<Seq<char>>,
    desktop: Option<Seq<char>>,
) -> Seq<(BackendKind, Seq<char>)> {
    let sockets = socket_candidates(niri_socket, sway_socket, hyprland_signature);
    match desktop {
        Some(d) => with_desktop_parts(sockets, split_on(d, ':')),
        None => sockets,
    }
}

/// No backend is listed twice.
pub open spec fn distinct_kinds(cs: Seq<(BackendKind, Seq<char>)>) -> bool {
    forall|i: int, j: int| 0 <= i < j < cs.len() ==> cs[i].0 != cs[j].0
}

/// Whether an optional value counts as set.
pub fn is_signalled(v: &Option<String>) -> (b: bool)
    ensures
        b == signalled(opt_view(v)),
{
    match v {
        Some(s) => s.unicode_len() > 0,
        None => false,
    }
}

/// Appends a candidate unless its backend is already listed.
fn push_candidate(out: &mut Vec<Candidate>, kind: BackendKind, reason: &'static str)
    ensures
        candidates_view(final(out)@) == with_candidate(candidates_view(old(out)@), kind, reason@),
{
    let ghost before = candidates_view(out@);
    let mut i: usize = 0;
    while i < out.len()
        invariant
            i <= out@.len(),
            before == candidates_view(out@),
            forall|j: int| 0 <= j < i ==> before[j].0 != kind,
        decreases out@.len() - i,
    {
        if out[i].kind == kind {
            assert(before[i as int].0 == kind);
            return;
        }
        i = i + 1;
    }
    out.push(Candidate { kind, reason });
    assert(candidates_view(out@) =~= before.push((kind, reason@)));
}

proof fn lemma_with_candidate_keeps(cs: Seq<(BackendKind, Seq<char>)>, kind: BackendKind, reason: Seq<char>)
    ensures
        cs.is_prefix_of(with_candidate(cs, kind, reason)),
        distinct_kinds(cs) ==> distinct_kinds(with_candidate(cs, kind, reason)),
        exists|i: int|
            0 <= i < with_candidate(cs, kind, reason).len() && with_candidate(cs, kind, reason)[i].0
                == kind,
{
    let r = with_candidate(cs, kind, reason);
    if !(exists|i: int| 0 <= i < cs.len() && cs[i].0 == kind) {
        assert(r[cs.len() as int].0 == kind);
    }
    assert(cs.is_prefix_of(r));
}

proof fn lemma_desktop_parts_keep(cs: Seq<(BackendKind, Seq<char>)>, parts: Seq<Seq<char>>)
    ensures
        cs.is_prefix_of(with_desktop_parts(cs, parts)),
        distinct_kinds(cs) ==> distinct_kinds(with_desktop_parts(cs, parts)),
    decreases parts.len(),
{
    if parts.len() > 0 {
        let prev = with_desktop_parts(cs, parts.drop_last());
        lemma_desktop_parts_keep(cs, parts.drop_last());
        if let Some(k) = parse_kind(trim(parts.last())) {
            lemma_with_candidate_keeps(prev, k, "named in XDG_CURRENT_DESKTOP"@);
        }
    }
}

proof fn lemma_sockets_distinct(
    niri_socket: Option<Seq<char>>,
    sway_socket: Option<Seq<char>>,
    hyprland_signature: Option<Seq<char>>,
)
    ensures
        distinct_kinds(socket_candidates(niri_socket, sway_socket, hyprland_signature)),
{
    let s1 = if signalled(niri_socket) {
        seq![(BackendKind::Niri, "NIRI_SOCKET is set"@)]
    } else {
        Seq::empty()
    };
    let s2 = if signalled(sway_socket) {
        with_candidate(s1, BackendKind::Sway, "SWAYSOCK is set"@)
    } else {
        s1
    };
    lemma_with_candidate_keeps(s1, BackendKind::Sway, "SWAYSOCK is set"@);
    lemma_with_candidate_keeps(s2, BackendKind::Hyprland, "HYPRLAND_INSTANCE_SIGNATURE is set"@);
}

/// Law: no backend is suggested twice, whatever the environment holds.
pub proof fn lemma_candidates_distinct(
    niri_socket: Option<Seq<char>>,
    sway_socket: Option<Seq<char>>,
    hyprland_signature: Option<Seq<char>>,
    desktop: Option<Seq<char>>,
)
    ensures
        distinct_kinds(candidates_for(niri_socket, sway_socket, hyprland_signature, desktop)),
{
    lemma_sockets_distinct(niri_socket, sway_socket, hyprland_signature);
    if let Some(d) = desktop {
        lemma_desktop_parts_keep(
            socket_candidates(niri_socket, sway_socket, hyprland_signature),
            split_on(d, ':'),
        );
    }
}

/// Law: a reachable socket outranks the desktop name. The candidates the
/// sockets suggest come first, in the order niri, sway, Hyprland, whatever
/// `XDG_CURRENT_DESKTOP` says.
pub proof fn lemma_sockets_rank_first(
    niri_socket: Option<Seq<char>>,
    sway_socket: Option<Seq<char>>,
    hyprland_signature: Option<Seq<char>>,
    desktop: Option<Seq<char>>,
)
    ensures
        socket_candidates(niri_socket, sway_socket, hyprland_signature).is_prefix_of(
            candidates_for(niri_socket, sway_socket, hyprland_signature, desktop),
        ),
        signalled(niri_socket) ==> candidates_for(
            niri_socket,
            sway_socket,
            hyprland_signature,
            desktop,
        )[0].0 == BackendKind::Niri,
{
    let sockets = socket_candidates(niri_socket, sway_socket, hyprland_signature);
    if let Some(d) = desktop {
        lemma_desktop_parts_keep(sockets, split_on(d, ':'));
    }
    if signalled(niri_socket) {
        let s1 = seq![(BackendKind::Niri, "NIRI_SOCKET is set"@)];
        let s2 = if signalled(sway_socket) {
            with_candidate(s1, BackendKind::Sway, "SWAYSOCK is set"@)
        } else {
            s1
        };
        lemma_with_candidate_keeps(s1, BackendKind::Sway, "SWAYSOCK is set"@);
        lemma_with_candidate_keeps(
            s2,
            BackendKind::Hyprland,
            "HYPRLAND_INSTANCE_SIGNATURE is set"@,
        );
        assert(sockets[0].0 == BackendKind::Niri);
    }
}

/// The ordered candidates for the values of the four variables that signal a
/// compositor.
pub fn candidates_from(
    niri_socket: &Option<String>,
    sway_socket: &Option<String>,
    hyprland_signature: &Option<String>,
    desktop: &Option<String>,
) -> (out: Vec<Candidate>)
    ensures
        candidates_view(out@) == candidates_for(
            opt_view(niri_socket),
            opt_view(sway_socket),
            opt_view(hyprland_signature),
            opt_view(desktop),
        ),
        distinct_kinds(candidates_view(out@)),
{
    let mut out: Vec<Candidate> = Vec::new();
    if is_signalled(niri_socket) {
        out.push(Candidate { kind: BackendKind::Niri, reason: "NIRI_SOCKET is set" });
        assert(candidates_view(out@) =~= seq![(BackendKind::Niri, "NIRI_SOCKET is set"@)]);
    }
    if is_signalled(sway_socket) {
        push_candidate(&mut out, BackendKind::Sway, "SWAYSOCK is set");
    }
    if is_signalled(hyprland_signature) {
        push_candidate(&mut out, BackendKind::Hyprland, "HYPRLAND_INSTANCE_SIGNATURE is set");
    }
    assert(candidates_view(out@) =~= socket_candidates(
        opt_view(niri_socket),
        opt_view(sway_socket),
        opt_view(hyprland_signature),
    ));
    if let Some(d) = desktop {
        let chars = chars_of(d.as_str());
        let parts = split_chars(&chars, ':');
        let ghost sockets = candidates_view(out@);
        let ghost pv = parts@.map_values(|p: Vec<char>| p@);
        for i in 0..parts.len()
            invariant
                pv == parts@.map_values(|p: Vec<char>| p@),
                candidates_view(out@) == with_desktop_parts(sockets, pv.subrange(0, i as int)),
        {
            assert(pv.subrange(0, (i + 1) as int).drop_last() =~= pv.subrange(0, i as int));
            assert(pv.subrange(0, (i + 1) as int).last() == parts@[i as int]@);
            let part = trim_chars(&parts[i]);
            match parse_chars(&part) {
                Some(kind) => push_candidate(&mut out, kind, "named in XDG_CURRENT_DESKTOP"),
                None => {},
            }
        }
        assert(pv.subrange(0, pv.len() as int) =~= pv);
    }
    proof {
        lemma_candidates_distinct(
            opt_view(niri_socket),
            opt_view(sway_socket),
            opt_view(hyprland_signature),
            opt_view(desktop),
        );
    }
    out
}

/// What kind of graphical session, if any, is running.
#[derive(Debug, Clone, Copy, PartialEq, Eq, Structural)]
pub enum SessionKind {
    Wayland,
    X11,
    NoDisplay,
}

/// The session kind for the values of `WAYLAND_DISPLAY` and `DISPLAY`. A
/// Wayland socket wins, since XWayland sets `DISPLAY` inside Wayland sessions.
pub open spec fn session_kind_for(
    wayland_display: Option<Seq<char>>,
    display: Option<Seq<char>>,
) -> SessionKind {
    if signalled(wayland_display) {
        SessionKind::Wayland
    } else if signalled(display) {
        SessionKind::X11
    } else {
        SessionKind::NoDisplay
    }
}

/// The session kind for the values of `WAYLAND_DISPLAY` and `DISPLAY`.
pub fn session_kind_from(wayland_display: &Option<String>, display: &Option<String>) -> (k:
    SessionKind)
    ensures
        k == session_kind_for(opt_view(wayland_display), opt_view(display)),
{
    if is_signalled(wayland_display) {
        SessionKind::Wayland
    } else if is_signalled(display) {
        SessionKind::X11
    } else {
        SessionKind::NoDisplay
    }
}

/// Read-only access to environment variables, so detection can run against
/// something other than the process environment.
pub trait Env {
    /// Whether the environment can give `value` for variable `key`. Each
    /// environment may say for itself what it holds; one that does not says
    /// nothing of its values. The contracts here use it to say which variables
    /// are read.
    open spec fn reads(&self, key: Seq<char>, value: Option<Seq<char>>) -> bool {
        true
    }

    /// The value of `key`, if it is set.
    fn get(&self, key: &str) -> (r: Option<String>)
        ensures
            self.reads(key@, opt_view(&r)),
    ;

    /// Whether `key` is set to a non-empty value.
    fn has(&self, key: &str) -> (b: bool)
        ensures
            exists|v: Option<Seq<char>>| self.reads(key@, v) && b == signalled(v),
    {
        let v = self.get(key);
        is_signalled(&v)
    }
}

/// Whether `n`, `s`, `h` and `d` are values `env` gives for `NIRI_SOCKET`,
/// `SWAYSOCK`, `HYPRLAND_INSTANCE_SIGNATURE` and `XDG_CURRENT_DESKTOP`.
pub open spec fn reads_detection_vars<E: Env>(
    env: &E,
    n: Option<Seq<char>>,
    s: Option<Seq<char>>,
    h: Option<Seq<char>>,
    d: Option<Seq<char>>,
) -> bool {
    &&& env.reads("NIRI_SOCKET"@, n)
    &&& env.reads("SWAYSOCK"@, s)
    &&& env.reads("HYPRLAND_INSTANCE_SIGNATURE"@, h)
    &&& env.reads("XDG_CURRENT_DESKTOP"@, d)
}

/// Whether `w` is a value `env` gives for `WAYLAND_DISPLAY` and, unless that is
/// set, `x` one it gives for `DISPLAY`.
pub open spec fn reads_session_vars<E: Env>(env: &E, w: Option<Seq<char>>, x: Option<Seq<char>>) -> bool {
    &&& env.reads("WAYLAND_DISPLAY"@, w)
    &&& !signalled(w) ==> env.reads("DISPLAY"@, x)
}

/// The ordered candidate backends for an environment: the list
/// `candidates_for` gives for the values `env` holds for the four variables.
pub fn candidates<E: Env>(env: &E) -> (out: Vec<Candidate>)
    ensures
        exists|n: Option<Seq<char>>, s: Option<Seq<char>>, h: Option<Seq<char>>, d: Option<
            Seq<char>,
        >|
            reads_detection_vars(env, n, s, h, d) && candidates_view(out@) == candidates_for(
                n,
                s,
                h,
                d,
            ),
        distinct_kinds(candidates_view(out@)),
{
    let niri_socket = env.get("NIRI_SOCKET");
    let sway_socket = env.get("SWAYSOCK");
    let hyprland_signature = env.get("HYPRLAND_INSTANCE_SIGNATURE");
    let desktop = env.get("XDG_CURRENT_DESKTOP");
    let out = candidates_from(&niri_socket, &sway_socket, &hyprland_signature, &desktop);
    assert(reads_detection_vars(
        env,
        opt_view(&niri_socket),
        opt_view(&sway_socket),
        opt_view(&hyprland_signature),
        opt_view(&desktop),
    ));
    out
}

/// The session kind of an environment: `WAYLAND_DISPLAY` is read first, and
/// `DISPLAY` only when it is not set.
pub fn session_kind<E: Env>(env: &E) -> (k: SessionKind)
    ensures
        exists|w: Option<Seq<char>>, x: Option<Seq<char>>|
            reads_session_vars(env, w, x) && k == session_kind_for(w, x),
{
    let wayland_display = env.get("WAYLAND_DISPLAY");
    let display = if is_signalled(&wayland_display) {
        None
    } else {
        env.get("DISPLAY")
    };
    let k = session_kind_from(&wayland_display, &display);
    assert(reads_session_vars(env, opt_view(&wayland_display), opt_view(&display)));
    k
}

/// Law: every backend's name parses back to that backend.
pub proof fn lemma_parse_name_roundtrip(k: BackendKind)
    ensures
        parse_kind(kind_name(k)) == Some(k),
{
    reveal_strlit("niri");
    reveal_strlit("sway");
    reveal_strlit("hyprland");
    reveal_strlit("hypr");
    assert(ascii_lower("niri"@) =~= "niri"@);
    assert(ascii_lower("sway"@) =~= "sway"@);
    assert(ascii_lower("hyprland"@) =~= "hyprland"@);
    assert("sway"@ != "niri"@) by {
        assert("sway"@[0] != "niri"@[0]);
    }
    assert("hyprland"@ != "niri"@) by {
        assert("hyprland"@.len() != "niri"@.len());
    }
    assert("hyprland"@ != "sway"@) by {
        assert("hyprland"@.len() != "sway"@.len());
    }
}

/// Law: every spelling of a backend's name that differs only in ASCII case
/// names that backend.
pub proof fn lemma_parse_any_case(s: Seq<char>, k: BackendKind)
    requires
        ascii_lower(s) == kind_name(k),
    ensures
        parse_kind(s) == Some(k),
{
    lemma_parse_name_roundtrip(k);
    lemma_parse_ignores_case(s);
    assert(ascii_lower(ascii_lower(s)) =~= ascii_lower(s));
}

/// Law: names are matched without regard to ASCII case; folding a name to
/// lower case first changes nothing.
pub proof fn lemma_parse_ignores_case(s: Seq<char>)
    ensures
        parse_kind(ascii_lower(s)) == parse_kind(s),
{
    assert(ascii_lower(ascii_lower(s)) =~= ascii_lower(s));
}

} // verus!
