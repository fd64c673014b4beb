//! Supersampled captures of a single live window: finding the window in the
//! compositor's replies, and the commands that float it, pin its size, and put
//! everything back.
//!
//! The size must be pinned before the output scale is raised: resizing during
//! the boost fights the client's reconfigure and gets clamped.

use vstd::prelude::*;

use crate::error::Error;
use crate::json::{
    as_bool, as_text, as_u64, is_parse_error, items, member, parse_reply, parsed_json, u64_member,
    Json,
};
use crate::text::{decimal, decimal_string, digits_value, lemma_decimal_is_exact};

verus! {

/// The first value in `s` whose `id` member holds `want` (both absent counts
/// as a match, as comparing two `Option`s does).
pub open spec fn first_with_id(s: Seq<Json>, want: Option<u64>) -> Option<Json>
    decreases s.len(),
{
    if s.len() == 0 {
        None
    } else if u64_member(s[0], "id"@) == want {
        Some(s[0])
    } else {
        first_with_id(s.drop_first(), want)
    }
}

/// The elements of `j` when it is an array, and none otherwise.
pub open spec fn elements_or_none(j: Json) -> Seq<Json> {
    match items(j) {
        Some(v) => v,
        None => Seq::empty(),
    }
}

fn first_index_with_id(v: &Vec<Json>, want: Option<u64>) -> (r: Option<usize>)
    ensures
        match r {
            Some(i) => i < v@.len() && first_with_id(v@, want) == Some(v@[i as int]),
            None => first_with_id(v@, want) is None,
        },
{
    let ghost s = v@;
    let mut i: usize = 0;
    assert(s.skip(0) =~= s);
    while i < v.len()
        invariant
            s == v@,
            i <= s.len(),
            first_with_id(s, want) == first_with_id(s.skip(i as int), want),
        decreases s.len() - i,
    {
        assert(s.skip(i as int).drop_first() =~= s.skip((i + 1) as int));
        assert(s.skip(i as int)[0] == s[i as int]);
        if v[i].u64_field("id") == want {
            return Some(i);
        }
        i = i + 1;
    }
    None
}

fn find_by_id<'a>(list: &'a Json, want: Option<u64>) -> (r: Option<&'a Json>)
    ensures
        match r {
            Some(v) => first_with_id(elements_or_none(*list), want) == Some(*v),
            None => first_with_id(elements_or_none(*list), want) is None,
        },
{
    let v = match list.as_array() {
        Some(v) => v,
        None => return None,
    };
    match first_index_with_id(v, want) {
        Some(i) => Some(&v[i]),
        None => None,
    }
}

/// The window with id `id` in the compositor's list of windows.
pub fn find_window<'a>(windows: &'a Json, id: u64) -> (r: Result<&'a Json, Error>)
    ensures
        match first_with_id(elements_or_none(*windows), Some(id)) {
            Some(w) => r matches Ok(v) && *v == w,
            None => r matches Err(Error::Usage(m)) && m@ == "no window with id "@ + decimal(
                id as nat,
            ),
        },
{
    match find_by_id(windows, Some(id)) {
        Some(w) => Ok(w),
        None => {
            let mut m = String::from_str("no window with id ");
            let digits = decimal_string(id);
            m.append(digits.as_str());
            Err(Error::Usage(m))
        },
    }
}

/// The context named when a window reply cannot be parsed: the list of
/// windows when a window is asked for by id, else the focused window.
pub open spec fn window_reply_context(id: Option<u64>) -> Seq<char> {
    if id is Some { "parsing windows"@ } else { "parsing focused-window"@ }
}

/// Whether `r` is the window that the reply `raw` gives: the focused window's
/// description itself when no id is asked for, else the first window in the
/// list with that id, or a usage error when there is none.
pub open spec fn is_window_outcome(r: Result<Json, Error>, raw: Seq<char>, id: Option<u64>) -> bool {
    match parsed_json(raw) {
        None => is_parse_error(r, window_reply_context(id)),
        Some(doc) => match id {
            None => r matches Ok(w) && w == doc,
            Some(i) => match first_with_id(elements_or_none(doc), Some(i)) {
                Some(w) => r matches Ok(x) && x == w,
                None => r matches Err(Error::Usage(m)) && m@ == "no window with id "@ + decimal(
                    i as nat,
                ),
            },
        },
    }
}

/// The window a reply describes: with an id, `raw` is the list of windows and
/// the window is looked up in it; without one, `raw` describes the focused
/// window.
pub fn window_from_reply(raw: &str, id: Option<u64>) -> (r: Result<Json, Error>)
    ensures
        is_window_outcome(r, raw@, id),
{
    let doc = match id {
        Some(_) => parse_reply(raw, "parsing windows")?,
        None => parse_reply(raw, "parsing focused-window")?,
    };
    let want = match id {
        Some(want) => want,
        None => return Ok(doc),
    };
    let found = match doc {
        Json::Array(mut v) => match first_index_with_id(&v, Some(want)) {
            Some(i) => Some(v.remove(i)),
            None => None,
        },
        _ => None,
    };
    match found {
        Some(w) => Ok(w),
        None => {
            let mut m = String::from_str("no window with id ");
            let digits = decimal_string(want);
            m.append(digits.as_str());
            Err(Error::Usage(m))
        },
    }
}

/// What a window's description says about it before its output is known:
/// its id, whether it floats, and the two entries of its size.
pub struct WindowHead<'a> {
    pub id: u64,
    pub was_floating: bool,
    pub size: &'a Vec<Json>,
}

/// The `window_size` array of a window's `layout`, if it has one.
pub open spec fn size_entries(win: Json) -> Option<Seq<Json>> {
    match member(win, "layout"@) {
        Some(l) => match member(l, "window_size"@) {
            Some(s) => items(s),
            None => None,
        },
        None => None,
    }
}

/// Whether a window floats: only an explicit `true` counts.
pub open spec fn floats(win: Json) -> bool {
    match member(win, "is_floating"@) {
        Some(b) => as_bool(b) == Some(true),
        None => false,
    }
}

/// Reads a window's id, floating flag and size entries, in that order of
/// complaint.
pub fn read_window_head<'a>(win: &'a Json) -> (r: Result<WindowHead<'a>, Error>)
    ensures
        u64_member(*win, "id"@) is None ==> (r matches Err(Error::Ipc(m)) && m@
            == "window has no id"@),
        u64_member(*win, "id"@) is Some && size_entries(*win) is None ==> (r matches Err(
            Error::Ipc(m),
        ) && m@ == "window has no size"@),
        (u64_member(*win, "id"@) is Some && size_entries(*win) is Some) ==> (r matches Ok(h)
            && h.id == u64_member(*win, "id"@)->0 && h.was_floating == floats(*win) && h.size@
            == size_entries(*win)->0),
{
    let id = match win.u64_field("id") {
        Some(id) => id,
        None => return Err(Error::Ipc(String::from_str("window has no id"))),
    };
    let was_floating = match win.get("is_floating") {
        Some(b) => match b.as_bool() {
            Some(f) => f,
            None => false,
        },
        None => false,
    };
    let size = match win.get("layout") {
        Some(l) => match l.get("window_size") {
            Some(s) => s.as_array(),
            None => None,
        },
        None => None,
    };
    match size {
        Some(size) => Ok(WindowHead { id, was_floating, size }),
        None => Err(Error::Ipc(String::from_str("window has no size"))),
    }
}

/// Entry `i` of a window's size, when it is a number that fits in `u32`.
pub open spec fn size_dim(size: Seq<Json>, i: int) -> Option<u32> {
    if 0 <= i < size.len() {
        match as_u64(size[i]) {
            Some(v) => if v <= u32::MAX { Some(v as u32) } else { None },
            None => None,
        }
    } else {
        None
    }
}

/// Width (`i == 0`) or height (`i == 1`) of a window.
pub fn window_dim(size: &Vec<Json>, i: usize) -> (r: Result<u32, Error>)
    ensures
        match size_dim(size@, i as int) {
            Some(d) => r == Ok::<u32, Error>(d),
            None => r matches Err(Error::Ipc(m)) && m@ == "window size malformed"@,
        },
{
    if i < size.len() {
        match size[i].as_u64() {
            Some(v) => if v <= u32::MAX as u64 {
                return Ok(v as u32);
            },
            None => {},
        }
    }
    Err(Error::Ipc(String::from_str("window size malformed")))
}

/// The output a window is on: the `output` of the first workspace whose id
/// matches the window's `workspace_id`.
pub open spec fn output_of(win: Json, workspaces: Json) -> Option<Seq<char>> {
    match first_with_id(elements_or_none(workspaces), u64_member(win, "workspace_id"@)) {
        Some(ws) => match member(ws, "output"@) {
            Some(o) => as_text(o),
            None => None,
        },
        None => None,
    }
}

/// The name of the output a window is on.
pub fn window_output(win: &Json, workspaces: &Json) -> (r: Result<String, Error>)
    ensures
        match output_of(*win, *workspaces) {
            Some(o) => r matches Ok(s) && s@ == o,
            None => r matches Err(Error::Ipc(m)) && m@
                == "could not determine the window's output"@,
        },
{
    let ws_id = win.u64_field("workspace_id");
    let found = match find_by_id(workspaces, ws_id) {
        Some(ws) => match ws.get("output") {
            Some(o) => o.as_str(),
            None => None,
        },
        None => None,
    };
    match found {
        Some(o) => Ok(String::from_str(o)),
        None => Err(Error::Ipc(String::from_str("could not determine the window's output"))),
    }
}

/// The name of the output a window is on, given the reply that lists the
/// workspaces.
pub fn window_output_from_reply(win: &Json, raw: &str) -> (r: Result<String, Error>)
    ensures
        match parsed_json(raw@) {
            None => is_parse_error(r, "parsing workspaces"@),
            Some(workspaces) => match output_of(*win, workspaces) {
                Some(o) => r matches Ok(s) && s@ == o,
                None => r matches Err(Error::Ipc(m)) && m@
                    == "could not determine the window's output"@,
            },
        },
{
    let workspaces = parse_reply(raw, "parsing workspaces")?;
    window_output(win, &workspaces)
}

/// A command line as its arguments' characters.
pub open spec fn args_view(v: Seq<String>) -> Seq<Seq<char>> {
    v.map_values(|a: String| a@)
}

/// Several command lines, each as its arguments' characters.
pub open spec fn commands_view(v: Seq<Vec<String>>) -> Seq<Seq<Seq<char>>> {
    v.map_values(|c: Vec<String>| args_view(c@))
}

/// The `niri msg` arguments that get a window ready before the output scale
/// is raised: float it, unless it already floats, so it keeps its logical size
/// when the output's shrinks; then pin its width and height.
pub open spec fn preparation(id: u64, was_floating: bool, width: u32, height: u32) -> Seq<
    Seq<Seq<char>>,
> {
    let pin = seq![
        seq!["action"@, "set-window-width"@, "--id"@, decimal(id as nat), decimal(width as nat)],
        seq!["action"@, "set-window-height"@, "--id"@, decimal(id as nat), decimal(height as nat)],
    ];
    if was_floating {
        pin
    } else {
        seq![seq!["action"@, "move-window-to-floating"@, "--id"@, decimal(id as nat)]] + pin
    }
}

/// Law: a window is made ready by pinning its width, then its height, to the
/// window's own size, whether or not it floats; a tiled window is floated
/// first, and a floating one is not touched otherwise. Every command names the
/// window.
pub proof fn lemma_preparation_pins_the_window_size(
    id: u64,
    was_floating: bool,
    width: u32,
    height: u32,
)
    ensures
        ({
            let p = preparation(id, was_floating, width, height);
            let n = p.len();
            &&& n == if was_floating { 2int } else { 3int }
            &&& p[n - 2].len() == 5 && p[n - 2][1] == "set-window-width"@
            &&& digits_value(p[n - 2][4]) == width
            &&& p[n - 1].len() == 5 && p[n - 1][1] == "set-window-height"@
            &&& digits_value(p[n - 1][4]) == height
            &&& !was_floating ==> p[0] == seq![
                "action"@,
                "move-window-to-floating"@,
                "--id"@,
                decimal(id as nat),
            ]
            &&& forall|i: int| 0 <= i < n ==> #[trigger] p[i][0] == "action"@ && p[i][2] == "--id"@
                && digits_value(p[i][3]) == id
        }),
{
    lemma_decimal_is_exact(id as nat);
    lemma_decimal_is_exact(width as nat);
    lemma_decimal_is_exact(height as nat);
}

/// The `niri msg` arguments that put things back: the output scale first,
/// since a zoomed desktop is the worst thing to leave behind, then the window
/// back into tiling if it was tiled.
pub open spec fn restoration(id: u64, was_floating: bool, output: Seq<char>, scale: Seq<char>) -> Seq<
    Seq<Seq<char>>,
> {
    let rescale = seq![seq!["output"@, output, "scale"@, scale]];
    if was_floating {
        rescale
    } else {
        rescale + seq![seq!["action"@, "move-window-to-tiling"@, "--id"@, decimal(id as nat)]]
    }
}

fn args(parts: &[&str]) -> (v: Vec<String>)
    ensures
        v@.len() == parts@.len(),
        forall|i: int| 0 <= i < parts@.len() ==> #[trigger] v@[i]@ == parts@[i]@,
{
    let mut v: Vec<String> = Vec::new();
    for i in 0..parts.len()
        invariant
            v@.len() == i,
            forall|j: int| 0 <= j < i ==> #[trigger] v@[j]@ == parts@[j]@,
    {
        v.push(String::from_str(parts[i]));
    }
    v
}

fn id_command(action: &str, id: &str) -> (v: Vec<String>)
    ensures
        args_view(v@) == seq!["action"@, action@, "--id"@, id@],
{
    let v = args(&["action", action, "--id", id]);
    assert(args_view(v@) =~= seq!["action"@, action@, "--id"@, id@]);
    v
}

fn pin_command(action: &str, id: &str, value: &str) -> (v: Vec<String>)
    ensures
        args_view(v@) == seq!["action"@, action@, "--id"@, id@, value@],
{
    let v = args(&["action", action, "--id", id, value]);
    assert(args_view(v@) =~= seq!["action"@, action@, "--id"@, id@, value@]);
    v
}

/// The commands that get a window ready for a boosted capture.
pub fn prepare_commands(id: u64, was_floating: bool, width: u32, height: u32) -> (cmds: Vec<
    Vec<String>,
>)
    ensures
        commands_view(cmds@) == preparation(id, was_floating, width, height),
{
    let id_text = decimal_string(id);
    let w = decimal_string(width as u64);
    let h = decimal_string(height as u64);
    let mut cmds: Vec<Vec<String>> = Vec::new();
    if !was_floating {
        cmds.push(id_command("move-window-to-floating", id_text.as_str()));
    }
    cmds.push(pin_command("set-window-width", id_text.as_str(), w.as_str()));
    cmds.push(pin_command("set-window-height", id_text.as_str(), h.as_str()));
    assert(commands_view(cmds@) =~= preparation(id, was_floating, width, height));
    cmds
}

/// The commands that restore the output scale, written as `scale`, and the
/// window's tiling.
pub fn restore_commands(id: u64, was_floating: bool, output: &str, scale: &str) -> (cmds: Vec<
    Vec<String>,
>)
    ensures
        commands_view(cmds@) == restoration(id, was_floating, output@, scale@),
{
    let mut cmds: Vec<Vec<String>> = Vec::new();
    let rescale = args(&["output", output, "scale", scale]);
    assert(args_view(rescale@) =~= seq!["output"@, output@, "scale"@, scale@]);
    cmds.push(rescale);
    if !was_floating {
        let id_text = decimal_string(id);
        cmds.push(id_command("move-window-to-tiling", id_text.as_str()));
    }
    assert(commands_view(cmds@) =~= restoration(id, was_floating, output@, scale@));
    cmds
}

/// The `niri msg` arguments that capture window `id` at full density into the
/// file at `path`.
pub open spec fn screenshot_args(id: u64, path: Seq<char>) -> Seq<Seq<char>> {
    seq![
        "action"@,
        "screenshot-window"@,
        "--id"@,
        decimal(id as nat),
        "--write-to-disk"@,
        "true"@,
        "--path"@,
        path,
    ]
}

/// The command that captures the window.
pub fn screenshot_command(id: u64, path: &str) -> (cmd: Vec<String>)
    ensures
        args_view(cmd@) == screenshot_args(id, path@),
{
    let id_text = decimal_string(id);
    let v = args(
        &[
            "action",
            "screenshot-window",
            "--id",
            id_text.as_str(),
            "--write-to-disk",
            "true",
            "--path",
            path,
        ],
    );
    assert(args_view(v@) =~= screenshot_args(id, path@));
    v
}

/// The result of a window capture once everything has run: a failed restore
/// is reported first, then a failed capture, and a capture whose file never
/// appeared is a failure too.
pub fn window_capture_outcome(
    restored: Result<(), Error>,
    captured: Result<(), Error>,
    size: Option<(u32, u32)>,
) -> (r: Result<(u32, u32), Error>)
    ensures
        restored is Err ==> r == Err::<(u32, u32), Error>(restored->Err_0),
        restored is Ok && captured is Err ==> r == Err::<(u32, u32), Error>(captured->Err_0),
        restored is Ok && captured is Ok ==> match size {
            Some(s) => r == Ok::<(u32, u32), Error>(s),
            None => r matches Err(Error::Capture(m)) && m@
                == "the compositor accepted the capture but never wrote the file"@,
        },
{
    if let Err(e) = restored {
        return Err(e);
    }
    if let Err(e) = captured {
        return Err(e);
    }
    match size {
        Some(s) => Ok(s),
        None => Err(
            Error::Capture(
                String::from_str("the compositor accepted the capture but never wrote the file"),
            ),
        ),
    }
}

} // verus!
