//! Choosing a backend for a run, and the table that lists them all.

use vstd::prelude::*;

use crate::detect::{
    candidates, candidates_for, candidates_view, kind_name, parse_kind, reads_detection_vars,
    reads_session_vars, session_kind, session_kind_for, BackendKind, Candidate, Env, SessionKind,
};
use crate::error::Error;
use crate::text::{pad_right, pad_to};

verus! {

/// The message for a requested backend name that names no backend.
pub open spec fn unknown_backend_message(name: Seq<char>) -> Seq<char> {
    "unknown backend '"@ + name + "'; try one of: niri, sway, hyprland"@
}

/// The message for an X11 session.
pub open spec fn x11_message() -> Seq<char> {
    "this looks like an X11 session. utsushot needs a Wayland compositor that can re-render at a higher scale; X11 has no per-output scaling to exploit."@
}

/// The message when there is no graphical session at all.
pub open spec fn no_display_message() -> Seq<char> {
    "no graphical session detected (neither WAYLAND_DISPLAY nor DISPLAY is set)"@
}

/// Whether `e` is the error for a run where no backend was found in a session
/// of kind `k`: a Wayland session lacks a backend, anything else lacks the
/// kind of session the tool needs.
pub open spec fn is_no_backend_error(e: Error, k: SessionKind) -> bool {
    match k {
        SessionKind::Wayland => e is NoBackend,
        SessionKind::X11 => e matches Error::NoSession(m) && m@ == x11_message(),
        SessionKind::NoDisplay => e matches Error::NoSession(m) && m@ == no_display_message(),
    }
}

/// The error for a run in which no backend was detected.
pub fn no_backend_error(k: SessionKind) -> (e: Error)
    ensures
        is_no_backend_error(e, k),
{
    match k {
        SessionKind::X11 => Error::NoSession(
            String::from_str(
                "this looks like an X11 session. utsushot needs a Wayland compositor that can re-render at a higher scale; X11 has no per-output scaling to exploit.",
            ),
        ),
        SessionKind::NoDisplay => Error::NoSession(
            String::from_str(
                "no graphical session detected (neither WAYLAND_DISPLAY nor DISPLAY is set)",
            ),
        ),
        SessionKind::Wayland => Error::NoBackend,
    }
}

/// Whether `r` is the outcome of explicitly requesting the backend `name`.
pub open spec fn is_requested_outcome(r: Result<BackendKind, Error>, name: Seq<char>) -> bool {
    match parse_kind(name) {
        Some(k) => r == Ok::<BackendKind, Error>(k),
        None => r matches Err(Error::Usage(m)) && m@ == unknown_backend_message(name),
    }
}

/// The backend an explicit `--backend` names, or the usage error for a name
/// that names none.
pub fn requested_backend(name: &str) -> (r: Result<BackendKind, Error>)
    ensures
        is_requested_outcome(r, name@),
{
    match BackendKind::parse(name) {
        Some(k) => Ok(k),
        None => {
            let mut m = String::from_str("unknown backend '");
            m.append(name);
            m.append("'; try one of: niri, sway, hyprland");
            Err(Error::Usage(m))
        },
    }
}

/// Whether `r` is the outcome of autodetection that found the candidates `cs`
/// in a session of kind `k`: the first candidate if there is one, else the
/// error that suits the session.
pub open spec fn is_detected_outcome(
    r: Result<BackendKind, Error>,
    cs: Seq<(BackendKind, Seq<char>)>,
    k: SessionKind,
) -> bool {
    if cs.len() > 0 {
        r == Ok::<BackendKind, Error>(cs[0].0)
    } else {
        r matches Err(e) && is_no_backend_error(e, k)
    }
}

/// The backend to use: the one `requested` names if there is a request,
/// otherwise the best detected candidate. The session kind is needed only
/// when nothing was detected, so it is passed only then.
pub fn choose_backend(
    requested: &Option<String>,
    detected: &Vec<Candidate>,
    session: Option<SessionKind>,
) -> (r: Result<BackendKind, Error>)
    requires
        requested is None && detected@.len() == 0 ==> session is Some,
    ensures
        requested matches Some(name) ==> is_requested_outcome(r, name@),
        requested is None && detected@.len() > 0 ==> r == Ok::<BackendKind, Error>(detected@[0].kind),
        requested is None && detected@.len() == 0 ==> (r matches Err(e) && is_no_backend_error(e, session->0)),
{
    match requested {
        Some(name) => requested_backend(name.as_str()),
        None => {
            if detected.len() > 0 {
                Ok(detected[0].kind)
            } else {
                match session {
                    Some(k) => Err(no_backend_error(k)),
                    None => Err(Error::NoBackend),
                }
            }
        },
    }
}

/// Whether `r` is the outcome of autodetection in `env`: for the values `env`
/// holds for the four detection variables, the first candidate, and when
/// there is none, the error for the session kind that `WAYLAND_DISPLAY` and
/// `DISPLAY` give, read only then.
pub open spec fn is_environment_outcome<E: Env>(r: Result<BackendKind, Error>, env: &E) -> bool {
    exists|
        n: Option<Seq<char>>,
        s: Option<Seq<char>>,
        h: Option<Seq<char>>,
        d: Option<Seq<char>>,
        w: Option<Seq<char>>,
        x: Option<Seq<char>>,
    |
        {
            &&& reads_detection_vars(env, n, s, h, d)
            &&& candidates_for(n, s, h, d).len() == 0 ==> reads_session_vars(env, w, x)
            &&& is_detected_outcome(r, candidates_for(n, s, h, d), session_kind_for(w, x))
        }
}

/// The backend to use for a run in environment `env`. An explicit request is
/// honoured without looking at the environment; otherwise the candidates are
/// read, and the session kind is read only when there are none; both are
/// handed to `choose_backend`.
pub fn select_backend<E: Env>(requested: &Option<String>, env: &E) -> (r: Result<
    BackendKind,
    Error,
>)
    ensures
        requested matches Some(name) ==> is_requested_outcome(r, name@),
        requested is None ==> is_environment_outcome(r, env),
{
    if requested.is_some() {
        return choose_backend(requested, &Vec::new(), None);
    }
    let detected = candidates(env);
    let session = if detected.len() == 0 {
        Some(session_kind(env))
    } else {
        None
    };
    let r = choose_backend(requested, &detected, session);
    proof {
        let (n, s, h, d) = choose|
            n: Option<Seq<char>>,
            s: Option<Seq<char>>,
            h: Option<Seq<char>>,
            d: Option<Seq<char>>,
        | reads_detection_vars(env, n, s, h, d) && candidates_view(detected@) == candidates_for(n, s, h, d);
        if detected@.len() == 0 {
            let k = session->0;
            let (w, x) = choose|w: Option<Seq<char>>, x: Option<Seq<char>>|
                reads_session_vars(env, w, x) && k == session_kind_for(w, x);
            assert(is_detected_outcome(r, candidates_for(n, s, h, d), session_kind_for(w, x)));
            assert(is_environment_outcome(r, env));
        } else {
            let w: Option<Seq<char>> = None;
            assert(candidates_view(detected@)[0].0 == detected@[0].kind);
            assert(is_detected_outcome(r, candidates_for(n, s, h, d), session_kind_for(w, w)));
            assert(is_environment_outcome(r, env));
        }
    }
    r
}

/// The error for an explicitly requested backend whose compositor is not
/// running.
pub fn unreachable_backend(name: &str) -> (e: Error)
    ensures
        e matches Error::Usage(m) && m@ == "backend '"@ + name@
            + "' was requested but its compositor is not running here"@,
{
    let mut m = String::from_str("backend '");
    m.append(name);
    m.append("' was requested but its compositor is not running here");
    Error::Usage(m)
}

/// The status shown for a backend in the listing.
pub open spec fn status_of(k: BackendKind) -> Seq<char> {
    if k == BackendKind::Niri { "in progress"@ } else { "planned"@ }
}

/// One row of the listing: name, status, and whether it was detected here.
pub open spec fn table_row(k: BackendKind, detected: Seq<BackendKind>) -> Seq<char> {
    pad_right(kind_name(k), 12) + " "@ + pad_right(status_of(k), 14) + " "@ + (if detected.contains(
        k,
    ) {
        "yes"@
    } else {
        "no"@
    }) + "\n"@
}

/// The whole listing: a header line, then one row per backend in preference
/// order.
pub open spec fn backend_table_text(detected: Seq<BackendKind>) -> Seq<char> {
    pad_right("BACKEND"@, 12) + " "@ + pad_right("STATUS"@, 14) + " DETECTED HERE\n"@ + table_row(
        BackendKind::Niri,
        detected,
    ) + table_row(BackendKind::Sway, detected) + table_row(BackendKind::Hyprland, detected)
}

fn contains_kind(v: &Vec<BackendKind>, k: BackendKind) -> (b: bool)
    ensures
        b == v@.contains(k),
{
    for i in 0..v.len()
        invariant
            forall|j: int| 0 <= j < i ==> v@[j] != k,
    {
        if v[i] == k {
            return true;
        }
    }
    false
}

fn push_row(out: &mut String, k: BackendKind, detected: &Vec<BackendKind>)
    ensures
        final(out)@ == old(out)@ + table_row(k, detected@),
{
    let ghost s0 = out@;
    let name = k.as_str();
    let mut row = String::from_str(name);
    pad_to(&mut row, name.unicode_len(), 12);
    row.append(" ");
    let status = if k.is_implemented() { "in progress" } else { "planned" };
    let mut cell = String::from_str(status);
    pad_to(&mut cell, status.unicode_len(), 14);
    row.append(cell.as_str());
    row.append(" ");
    if contains_kind(detected, k) {
        row.append("yes");
    } else {
        row.append("no");
    }
    row.append("\n");
    out.append(row.as_str());
    assert(out@ =~= s0 + table_row(k, detected@));
}

/// The listing of every backend, whether it works yet, and whether it was
/// detected in this session.
pub fn backend_table(detected: &Vec<BackendKind>) -> (text: String)
    ensures
        text@ == backend_table_text(detected@),
{
    let mut out = String::from_str("BACKEND");
    pad_to(&mut out, "BACKEND".unicode_len(), 12);
    out.append(" ");
    let mut status = String::from_str("STATUS");
    pad_to(&mut status, "STATUS".unicode_len(), 14);
    out.append(status.as_str());
    out.append(" DETECTED HERE\n");
    push_row(&mut out, BackendKind::Niri, detected);
    push_row(&mut out, BackendKind::Sway, detected);
    push_row(&mut out, BackendKind::Hyprland, detected);
    assert(out@ =~= backend_table_text(detected@));
    out
}

} // verus!
