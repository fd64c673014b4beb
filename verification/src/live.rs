//! Capturing the live desktop: display modes, reading them out of the
//! compositor's replies, choosing the best one, and the decisions that decide
//! between a compositor-rendered capture, capturing as-is, and switching mode.

use vstd::prelude::*;

use crate::error::Error;
use crate::json::{
    as_text, element, is_parse_error, items, member, number_text, parse_reply, parsed_json,
    u64_member, Json,
};
use crate::text::{
    decimal, digits_value, lemma_decimal_is_exact, lemma_three_digits_is_exact, push_decimal,
    push_three_digits, three_digits,
};

verus! {

/// A mode the compositor reported for an output.
#[derive(Debug, Clone, Copy, PartialEq, Eq, Structural)]
pub struct Mode {
    pub width: u32,
    pub height: u32,
    /// Millihertz, as niri reports it.
    pub refresh: u32,
}

/// The number of pixels in a mode.
pub open spec fn pixel_count(m: Mode) -> int {
    m.width * m.height
}

/// The argument `niri msg output <name> mode` takes: width, height, and the
/// refresh rate in hertz with exactly three decimals, because niri matches
/// modes exactly and `144` would not select a 144.001 Hz mode.
pub open spec fn mode_arg(m: Mode) -> Seq<char> {
    decimal(m.width as nat) + "x"@ + decimal(m.height as nat) + "@"@ + decimal(
        (m.refresh / 1000) as nat,
    ) + "."@ + three_digits((m.refresh % 1000) as nat)
}

/// The exact product of two `u32`s.
pub fn wide_mul(a: u32, b: u32) -> (p: u64)
    ensures
        p == a * b,
{
    proof {
        vstd::arithmetic::mul::lemma_mul_upper_bound(a as int, u32::MAX as int, b as int, u32::MAX as int);
    }
    (a as u64) * (b as u64)
}

impl Mode {
    /// Formats the mode for `niri msg output <name> mode`.
    pub fn as_arg(self) -> (s: String)
        ensures
            s@ == mode_arg(self),
    {
        let mut s = String::new();
        push_decimal(&mut s, self.width as u64);
        s.append("x");
        push_decimal(&mut s, self.height as u64);
        s.append("@");
        push_decimal(&mut s, (self.refresh / 1000) as u64);
        s.append(".");
        push_three_digits(&mut s, self.refresh % 1000);
        s
    }

    /// The number of pixels.
    pub fn pixels(self) -> (p: u64)
        ensures
            p == pixel_count(self),
    {
        wide_mul(self.width, self.height)
    }
}

/// Law: the refresh rate in a mode argument is exact. The whole hertz and the
/// three decimals together denote the refresh rate in millihertz, so niri,
/// which matches modes exactly, is asked for precisely the advertised mode.
pub proof fn lemma_mode_arg_rate_is_exact(m: Mode)
    ensures
        digits_value(decimal((m.refresh / 1000) as nat)) * 1000 + digits_value(
            three_digits((m.refresh % 1000) as nat),
        ) == m.refresh,
        digits_value(decimal(m.width as nat)) == m.width,
        digits_value(decimal(m.height as nat)) == m.height,
{
    lemma_decimal_is_exact((m.refresh / 1000) as nat);
    lemma_three_digits_is_exact((m.refresh % 1000) as nat);
    lemma_decimal_is_exact(m.width as nat);
    lemma_decimal_is_exact(m.height as nat);
}

/// The mode a JSON object describes with `width`, `height` and
/// `refresh_rate`, when all three are present and fit in `u32`.
pub open spec fn mode_of(v: Json) -> Option<Mode> {
    match (u64_member(v, "width"@), u64_member(v, "height"@), u64_member(v, "refresh_rate"@)) {
        (Some(w), Some(h), Some(r)) => if w <= u32::MAX && h <= u32::MAX && r <= u32::MAX {
            Some(Mode { width: w as u32, height: h as u32, refresh: r as u32 })
        } else {
            None
        },
        _ => None,
    }
}

/// Reads a mode out of the compositor's JSON description of it.
pub fn parse_mode(v: &Json) -> (m: Option<Mode>)
    ensures
        m == mode_of(*v),
{
    let w = match v.u64_field("width") {
        Some(w) => w,
        None => return None,
    };
    let h = match v.u64_field("height") {
        Some(h) => h,
        None => return None,
    };
    let r = match v.u64_field("refresh_rate") {
        Some(r) => r,
        None => return None,
    };
    if w <= u32::MAX as u64 && h <= u32::MAX as u64 && r <= u32::MAX as u64 {
        Some(Mode { width: w as u32, height: h as u32, refresh: r as u32 })
    } else {
        None
    }
}

/// `a` ranks at least as high as `b`: more pixels, or as many pixels and at
/// least the refresh rate. Pixels are what the tool is for.
pub open spec fn ranks_at_least(a: Mode, b: Mode) -> bool {
    pixel_count(a) > pixel_count(b) || (pixel_count(a) == pixel_count(b) && a.refresh >= b.refresh)
}

/// The highest-ranked mode of `s`; among equals, the last one, as
/// `Iterator::max_by_key` picks.
pub open spec fn best_of(s: Seq<Mode>) -> Option<Mode>
    decreases s.len(),
{
    if s.len() == 0 {
        None
    } else {
        match best_of(s.drop_last()) {
            None => Some(s.last()),
            Some(b) => if ranks_at_least(s.last(), b) { Some(s.last()) } else { Some(b) },
        }
    }
}

/// Law: the chosen mode is one of the candidates and ranks at least as high as
/// every one of them; there is a choice exactly when there are candidates.
pub proof fn lemma_best_of_is_maximal(s: Seq<Mode>)
    ensures
        best_of(s) is None <==> s.len() == 0,
        best_of(s) matches Some(b) ==> s.contains(b) && forall|i: int|
            0 <= i < s.len() ==> ranks_at_least(b, #[trigger] s[i]),
    decreases s.len(),
{
    if s.len() > 0 {
        let p = s.drop_last();
        lemma_best_of_is_maximal(p);
        match best_of(p) {
            None => {
                assert(s.contains(s.last()) ) by { assert(s[s.len() - 1] == s.last()); }
                assert forall|i: int| 0 <= i < s.len() implies ranks_at_least(s.last(), #[trigger] s[i]) by {
                    assert(i == s.len() - 1);
                }
            },
            Some(b) => {
                let r = best_of(s).unwrap();
                assert(s.contains(r)) by {
                    if r == b {
                        let k = choose|k: int| 0 <= k < p.len() && p[k] == b;
                        assert(s[k] == b);
                    } else {
                        assert(s[s.len() - 1] == r);
                    }
                }
                assert forall|i: int| 0 <= i < s.len() implies ranks_at_least(r, #[trigger] s[i]) by {
                    if i < s.len() - 1 {
                        assert(p[i] == s[i]);
                    }
                }
            },
        }
    }
}

/// Law: the modes considered are exactly the advertised ones that parse and
/// have the current aspect ratio: each of them has it, and each advertised mode
/// that has it is among them.
pub proof fn lemma_usable_modes_keep_the_shape(descs: Seq<Json>, current: Mode)
    ensures
        forall|i: int|
            0 <= i < usable_modes(descs, current).len() ==> {
                let m = #[trigger] usable_modes(descs, current)[i];
                &&& m.width * current.height == current.width * m.height
                &&& exists|j: int| 0 <= j < descs.len() && mode_of(descs[j]) == Some(m)
            },
        forall|j: int|
            0 <= j < descs.len() && (#[trigger] mode_of(descs[j])) is Some && mode_of(
                descs[j],
            )->0.width * current.height == current.width * mode_of(descs[j])->0.height
                ==> usable_modes(descs, current).contains(mode_of(descs[j])->0),
    decreases descs.len(),
{
    if descs.len() > 0 {
        let p = descs.drop_last();
        lemma_usable_modes_keep_the_shape(p, current);
        let prev = usable_modes(p, current);
        let u = usable_modes(descs, current);
        assert forall|i: int| 0 <= i < u.len() implies {
            let m = #[trigger] u[i];
            &&& m.width * current.height == current.width * m.height
            &&& exists|j: int| 0 <= j < descs.len() && mode_of(descs[j]) == Some(m)
        } by {
            if i < prev.len() {
                assert(u[i] == prev[i]);
                let m = prev[i];
                let j = choose|j: int| 0 <= j < p.len() && mode_of(p[j]) == Some(m);
                assert(descs[j] == p[j]);
            } else {
                assert(mode_of(descs[descs.len() - 1]) == Some(u[i]));
            }
        }
        assert forall|j: int|
            0 <= j < descs.len() && (#[trigger] mode_of(descs[j])) is Some && mode_of(
                descs[j],
            )->0.width * current.height == current.width * mode_of(descs[j])->0.height
            implies u.contains(mode_of(descs[j])->0) by {
            if j < descs.len() - 1 {
                assert(descs[j] == p[j]);
                assert(mode_of(p[j]) == mode_of(descs[j]));
                let k = choose|k: int| 0 <= k < prev.len() && prev[k] == mode_of(descs[j])->0;
                assert(u[k] == prev[k]);
            } else {
                assert(u[u.len() - 1] == mode_of(descs[j])->0);
            }
        }
    }
}

/// Law: the mode chosen for an output has the output's current aspect ratio,
/// and no advertised mode with that aspect ratio ranks above it.
pub proof fn lemma_best_mode_has_the_current_shape(entry: Json, current: Mode)
    ensures
        best_of(usable_modes(advertised(entry), current)) matches Some(b) ==> {
            &&& b.width * current.height == current.width * b.height
            &&& forall|j: int|
                0 <= j < advertised(entry).len() && (#[trigger] mode_of(advertised(entry)[j])) is Some
                    && mode_of(advertised(entry)[j])->0.width * current.height == current.width
                    * mode_of(advertised(entry)[j])->0.height ==> ranks_at_least(
                    b,
                    mode_of(advertised(entry)[j])->0,
                )
        },
{
    let u = usable_modes(advertised(entry), current);
    lemma_usable_modes_keep_the_shape(advertised(entry), current);
    lemma_best_of_is_maximal(u);
    if let Some(b) = best_of(u) {
        let i = choose|i: int| 0 <= i < u.len() && u[i] == b;
        assert(u[i] == b);
        assert forall|j: int|
            0 <= j < advertised(entry).len() && (#[trigger] mode_of(advertised(entry)[j])) is Some
                && mode_of(advertised(entry)[j])->0.width * current.height == current.width
                * mode_of(advertised(entry)[j])->0.height implies ranks_at_least(
                b,
                mode_of(advertised(entry)[j])->0,
            ) by {
            let m = mode_of(advertised(entry)[j])->0;
            assert(u.contains(m));
            let k = choose|k: int| 0 <= k < u.len() && u[k] == m;
            assert(ranks_at_least(b, u[k]));
        }
    }
}

/// `m` has the shape of `current`, so the one scale that keeps the layout can
/// be applied without stretching the desktop.
pub open spec fn same_shape(m: Mode, current: Mode) -> bool {
    m.width * current.height == current.width * m.height
}

/// The modes described in `descs` that parse and have the shape of `current`,
/// in order.
pub open spec fn usable_modes(descs: Seq<Json>, current: Mode) -> Seq<Mode>
    decreases descs.len(),
{
    if descs.len() == 0 {
        Seq::empty()
    } else {
        let prev = usable_modes(descs.drop_last(), current);
        match mode_of(descs.last()) {
            Some(m) => if same_shape(m, current) { prev.push(m) } else { prev },
            None => prev,
        }
    }
}

/// The mode descriptions an output entry lists under `modes`; none when it
/// has no such array.
pub open spec fn advertised(entry: Json) -> Seq<Json> {
    match member(entry, "modes"@) {
        Some(m) => match items(m) {
            Some(v) => v,
            None => Seq::empty(),
        },
        None => Seq::empty(),
    }
}

/// Whether `r` is an error of kind `Ipc` carrying `msg`.
pub open spec fn is_ipc_error<T>(r: Result<T, Error>, msg: Seq<char>) -> bool {
    r matches Err(Error::Ipc(m)) && m@ == msg
}

/// Whether `r` is an error of kind `Usage` carrying `msg`.
pub open spec fn is_usage_error<T>(r: Result<T, Error>, msg: Seq<char>) -> bool {
    r matches Err(Error::Usage(m)) && m@ == msg
}

fn text3(a: &str, b: &str, c: &str) -> (s: String)
    ensures
        s@ == a@ + b@ + c@,
{
    let mut s = String::from_str(a);
    s.append(b);
    s.append(c);
    s
}

fn ranks_at_least_exec(a: Mode, b: Mode) -> (r: bool)
    ensures
        r == ranks_at_least(a, b),
{
    let pa = a.pixels();
    let pb = b.pixels();
    pa > pb || (pa == pb && a.refresh >= b.refresh)
}

/// The largest mode an output entry advertises with the shape of `current`,
/// preferring higher refresh on ties. Only advertised modes count: a panel
/// silently ignores a custom mode beyond what it reports.
pub fn best_mode_in(entry: &Json, name: &str, current: Mode) -> (r: Result<Mode, Error>)
    ensures
        match best_of(usable_modes(advertised(*entry), current)) {
            Some(b) => r == Ok::<Mode, Error>(b),
            None => is_ipc_error(r, "output '"@ + name@ + "' advertises no usable modes"@),
        },
{
    let ghost descs = advertised(*entry);
    let mut best: Option<Mode> = None;
    let empty: Vec<Json> = Vec::new();
    let list: &Vec<Json> = match entry.get("modes") {
        Some(m) => match m.as_array() {
            Some(v) => v,
            None => &empty,
        },
        None => &empty,
    };
    assert(list@ == descs);
    for i in 0..list.len()
        invariant
            list@ == descs,
            best == best_of(usable_modes(descs.subrange(0, i as int), current)),
    {
        let ghost before = usable_modes(descs.subrange(0, i as int), current);
        assert(descs.subrange(0, (i + 1) as int).drop_last() =~= descs.subrange(0, i as int));
        assert(descs.subrange(0, (i + 1) as int).last() == list@[i as int]);
        match parse_mode(&list[i]) {
            Some(m) => {
                let shaped = wide_mul(m.width, current.height) == wide_mul(current.width, m.height);
                if shaped {
                    assert(before.push(m).drop_last() =~= before);
                    best = match best {
                        None => Some(m),
                        Some(b) => if ranks_at_least_exec(m, b) { Some(m) } else { Some(b) },
                    };
                }
            },
            None => {},
        }
    }
    assert(descs.subrange(0, descs.len() as int) =~= descs);
    match best {
        Some(b) => Ok(b),
        None => Err(Error::Ipc(text3("output '", name, "' advertises no usable modes"))),
    }
}

/// The entry for output `name` in the compositor's list of outputs.
pub fn output_entry<'a>(outputs: &'a Json, name: &str) -> (r: Result<&'a Json, Error>)
    ensures
        match member(*outputs, name@) {
            Some(e) => r matches Ok(v) && *v == e,
            None => is_usage_error(r, "no output named '"@ + name@ + "'"@),
        },
{
    match outputs.get(name) {
        Some(e) => Ok(e),
        None => Err(Error::Usage(text3("no output named '", name, "'"))),
    }
}

/// The index of the current mode, as `usize` takes it: an index that does not
/// fit falls back to the first mode.
pub open spec fn mode_index(idx: u64) -> int {
    if idx <= usize::MAX { idx as int } else { 0 }
}

/// The current mode recorded in an output entry, which names it by its index
/// in the entry's `modes`.
pub open spec fn current_mode_of(entry: Json) -> Option<Mode> {
    match (u64_member(entry, "current_mode"@), member(entry, "modes"@)) {
        (Some(idx), Some(ms)) => match element(ms, mode_index(idx)) {
            Some(d) => mode_of(d),
            None => None,
        },
        _ => None,
    }
}

/// The current mode of output `name`, read from its entry.
pub fn current_mode_in(entry: &Json, name: &str) -> (r: Result<Mode, Error>)
    ensures
        u64_member(*entry, "current_mode"@) is None ==> is_ipc_error(
            r,
            "output '"@ + name@ + "' has no current mode"@,
        ),
        u64_member(*entry, "current_mode"@) is Some ==> match current_mode_of(*entry) {
            Some(m) => r == Ok::<Mode, Error>(m),
            None => is_ipc_error(r, "could not read the current mode of '"@ + name@ + "'"@),
        },
{
    let idx = match entry.u64_field("current_mode") {
        Some(i) => i,
        None => return Err(Error::Ipc(text3("output '", name, "' has no current mode"))),
    };
    let index: usize = if idx <= usize::MAX as u64 { idx as usize } else { 0 };
    let mode = match entry.get("modes") {
        Some(ms) => match ms.at(index) {
            Some(d) => parse_mode(d),
            None => None,
        },
        None => None,
    };
    match mode {
        Some(m) => Ok(m),
        None => Err(Error::Ipc(text3("could not read the current mode of '", name, "'"))),
    }
}

/// Whether `r` is what reading the current mode of output `name` out of the
/// list of outputs gives: a usage error for an unknown output, an IPC error
/// when the entry names no current mode or names one that cannot be read, and
/// the mode otherwise.
pub open spec fn is_current_mode_outcome(r: Result<Mode, Error>, outputs: Json, name: Seq<char>) -> bool {
    match member(outputs, name) {
        None => is_usage_error(r, "no output named '"@ + name + "'"@),
        Some(entry) => if u64_member(entry, "current_mode"@) is None {
            is_ipc_error(r, "output '"@ + name + "' has no current mode"@)
        } else {
            match current_mode_of(entry) {
                Some(m) => r == Ok::<Mode, Error>(m),
                None => is_ipc_error(r, "could not read the current mode of '"@ + name + "'"@),
            }
        },
    }
}

/// The current mode of output `name`, from the compositor's list of outputs.
pub fn current_mode(outputs: &Json, name: &str) -> (r: Result<Mode, Error>)
    ensures
        is_current_mode_outcome(r, *outputs, name@),
{
    let entry = output_entry(outputs, name)?;
    current_mode_in(entry, name)
}

/// The text of output `name`'s logical scale, when the list of outputs gives
/// it as a number.
pub open spec fn scale_text_of(outputs: Json, name: Seq<char>) -> Option<Seq<char>> {
    match member(outputs, name) {
        Some(o) => match member(o, "logical"@) {
            Some(l) => match member(l, "scale"@) {
                Some(v) => number_text(v),
                None => None,
            },
            None => None,
        },
        None => None,
    }
}

/// The text of output `name`'s logical scale, if the list of outputs gives one.
pub fn output_scale_text(outputs: &Json, name: &str) -> (r: Option<String>)
    ensures
        match r {
            Some(t) => scale_text_of(*outputs, name@) == Some(t@),
            None => scale_text_of(*outputs, name@) is None,
        },
{
    let o = match outputs.get(name) {
        Some(o) => o,
        None => return None,
    };
    let l = match o.get("logical") {
        Some(l) => l,
        None => return None,
    };
    let v = match l.get("scale") {
        Some(v) => v,
        None => return None,
    };
    match v.as_number_text() {
        Some(t) => Some(String::from_str(t)),
        None => None,
    }
}

/// The compositor's list of outputs, parsed from its reply.
pub fn outputs_from_reply(raw: &str) -> (r: Result<Json, Error>)
    ensures
        match parsed_json(raw@) {
            Some(j) => r matches Ok(v) && v == j,
            None => is_parse_error(r, "could not parse outputs"@),
        },
{
    parse_reply(raw, "could not parse outputs")
}

/// What the list of outputs says of one output: its current mode, and the
/// text of its logical scale when it gives one.
pub struct OutputReading {
    pub mode: Mode,
    pub scale: Option<String>,
}

/// Reads output `name`'s current mode and scale out of the reply to a request
/// for the list of outputs.
pub fn current_state_from_reply(raw: &str, name: &str) -> (r: Result<OutputReading, Error>)
    ensures
        match parsed_json(raw@) {
            None => is_parse_error(r, "could not parse outputs"@),
            Some(outputs) => {
                &&& is_current_mode_outcome(
                    match r {
                        Ok(o) => Ok::<Mode, Error>(o.mode),
                        Err(e) => Err::<Mode, Error>(e),
                    },
                    outputs,
                    name@,
                )
                &&& r matches Ok(o) ==> match o.scale {
                    Some(t) => scale_text_of(outputs, name@) == Some(t@),
                    None => scale_text_of(outputs, name@) is None,
                }
            },
        },
{
    let outputs = outputs_from_reply(raw)?;
    let mode = current_mode(&outputs, name)?;
    let scale = output_scale_text(&outputs, name);
    Ok(OutputReading { mode, scale })
}

/// The name of the focused output, from the compositor's description of it.
pub fn focused_output_name(v: &Json) -> (r: Result<String, Error>)
    ensures
        is_focused_name_outcome(r, *v),
{
    match v.get("name") {
        Some(n) => match n.as_str() {
            Some(t) => Ok(String::from_str(t)),
            None => Err(Error::Ipc(String::from_str("focused output has no name"))),
        },
        None => Err(Error::Ipc(String::from_str("focused output has no name"))),
    }
}

/// Whether `r` is what reading the focused output's name out of its
/// description `v` gives.
pub open spec fn is_focused_name_outcome(r: Result<String, Error>, v: Json) -> bool {
    match member(v, "name"@) {
        Some(n) => match as_text(n) {
            Some(t) => r matches Ok(s) && s@ == t,
            None => is_ipc_error(r, "focused output has no name"@),
        },
        None => is_ipc_error(r, "focused output has no name"@),
    }
}

/// The name of the focused output, from the reply that describes it.
pub fn focused_output_from_reply(raw: &str) -> (r: Result<String, Error>)
    ensures
        match parsed_json(raw@) {
            None => is_parse_error(r, "could not parse focused-output"@),
            Some(v) => is_focused_name_outcome(r, v),
        },
{
    let v = parse_reply(raw, "could not parse focused-output")?;
    focused_output_name(&v)
}

/// The big-endian 32-bit number at `at` in `s`.
pub open spec fn be_u32(s: Seq<u8>, at: int) -> int {
    s[at] * 16777216 + s[at + 1] * 65536 + s[at + 2] * 256 + s[at + 3]
}

/// Whether `s` starts like a PNG file long enough to hold its header: the
/// letters `PNG` at offsets 1 to 3 and at least 24 bytes.
pub open spec fn looks_like_png(s: Seq<u8>) -> bool {
    s.len() >= 24 && s[1] == 0x50 && s[2] == 0x4e && s[3] == 0x47
}

/// Reads width and height out of a PNG file's header: the first two big-endian
/// numbers of the IHDR chunk, at offsets 16 and 20.
pub fn png_dimensions(bytes: &[u8]) -> (r: Option<(u32, u32)>)
    ensures
        r is Some <==> looks_like_png(bytes@),
        r matches Some((w, h)) ==> w == be_u32(bytes@, 16) && h == be_u32(bytes@, 20),
{
    if bytes.len() < 24 || bytes[1] != 0x50 || bytes[2] != 0x4e || bytes[3] != 0x47 {
        return None;
    }
    let w = (bytes[16] as u32) * 16777216 + (bytes[17] as u32) * 65536 + (bytes[18] as u32) * 256
        + (bytes[19] as u32);
    let h = (bytes[20] as u32) * 16777216 + (bytes[21] as u32) * 65536 + (bytes[22] as u32) * 256
        + (bytes[23] as u32);
    Some((w, h))
}

/// Where a live capture stands.
#[derive(Debug, Clone, Copy, PartialEq, Eq, Structural)]
pub enum LivePhase {
    /// Nothing has been tried yet.
    Begin,
    /// The compositor has been asked to render a supersampled screenshot.
    Supersampling,
    /// The best mode the output advertises is being looked up.
    Searching,
    /// The output has been switched to `best`; it must be restored.
    Switched { best: Mode },
    /// The capture is over.
    Finished,
}

/// What the outside world reported back.
#[derive(Debug, Clone, Copy)]
pub enum LiveEvent {
    /// The capture starts: whether a factor above one was asked for, and
    /// whether the output to capture is the focused one.
    Started { supersample_requested: bool, focused: bool },
    /// The compositor was asked to render; the size of the image it wrote, or
    /// nothing if the request failed or the image could not be read.
    Supersampled { written: Option<(u32, u32)> },
    /// The best mode the output advertises.
    BestModeFound { best: Mode },
    /// After switching and settling, the mode the output actually has.
    Settled { applied: Mode },
}

/// What to do next.
#[derive(Debug, Clone, Copy, PartialEq, Eq, Structural)]
pub enum LiveAction {
    /// Ask the compositor to render the screenshot itself, supersampled. Only
    /// the focused output can be served this way.
    RequestSupersample,
    /// Look up the best advertised mode; first delete the file the compositor
    /// wrote, when it was not supersampled, so it cannot pass for success.
    FindBestMode { discard_file: bool },
    /// The compositor honoured the request; the capture is `result`.
    Done { result: Mode },
    /// Nothing is gained by switching: capture the output as it is, and report
    /// `result`. The display is not touched.
    CaptureAsIs { result: Mode },
    /// Switch to `best`, raising the scale by the same factor so the logical
    /// size stays fixed, arm the restore, and let things settle.
    SwitchMode { best: Mode },
    /// Capture, restore the original mode and scale, and report `result`.
    /// `refused` says the panel did not take the requested mode.
    CaptureAndRestore { result: Mode, refused: bool },
}

/// A live capture of an output whose mode was `original` when it started.
#[derive(Debug, Clone, Copy, PartialEq, Eq, Structural)]
pub struct LiveCapture {
    pub original: Mode,
    pub phase: LivePhase,
}

/// Whether event `e` can happen in phase `p`.
pub open spec fn accepts(p: LivePhase, e: LiveEvent) -> bool {
    match (p, e) {
        (LivePhase::Begin, LiveEvent::Started { .. }) => true,
        (LivePhase::Supersampling, LiveEvent::Supersampled { .. }) => true,
        (LivePhase::Searching, LiveEvent::BestModeFound { .. }) => true,
        (LivePhase::Switched { .. }, LiveEvent::Settled { .. }) => true,
        _ => false,
    }
}

/// The transition of a live capture on an accepted event: the next phase and
/// the action to take.
pub open spec fn live_step(c: LiveCapture, e: LiveEvent) -> (LivePhase, LiveAction) {
    match e {
        LiveEvent::Started { supersample_requested, focused } => if supersample_requested
            && focused {
            (LivePhase::Supersampling, LiveAction::RequestSupersample)
        } else {
            (LivePhase::Searching, LiveAction::FindBestMode { discard_file: false })
        },
        LiveEvent::Supersampled { written } => match written {
            Some((w, h)) => if w * h > pixel_count(c.original) {
                (
                    LivePhase::Finished,
                    LiveAction::Done {
                        result: Mode { width: w, height: h, refresh: c.original.refresh },
                    },
                )
            } else {
                (LivePhase::Searching, LiveAction::FindBestMode { discard_file: true })
            },
            None => (LivePhase::Searching, LiveAction::FindBestMode { discard_file: false }),
        },
        LiveEvent::BestModeFound { best } => if pixel_count(best) <= pixel_count(c.original) {
            (LivePhase::Finished, LiveAction::CaptureAsIs { result: c.original })
        } else {
            (LivePhase::Switched { best }, LiveAction::SwitchMode { best })
        },
        LiveEvent::Settled { applied } => {
            let best = match c.phase {
                LivePhase::Switched { best } => best,
                _ => applied,
            };
            (
                LivePhase::Finished,
                LiveAction::CaptureAndRestore {
                    result: applied,
                    refused: pixel_count(applied) < pixel_count(best),
                },
            )
        },
    }
}

impl LiveCapture {
    /// A capture of an output currently in mode `original`.
    pub fn new(original: Mode) -> (c: LiveCapture)
        ensures
            c.original == original,
            c.phase == LivePhase::Begin,
    {
        LiveCapture { original, phase: LivePhase::Begin }
    }

    /// Advances on event `e` and says what to do next.
    pub fn step(&mut self, e: LiveEvent) -> (a: LiveAction)
        requires
            accepts(old(self).phase, e),
        ensures
            final(self).original == old(self).original,
            (final(self).phase, a) == live_step(*old(self), e),
    {
        match e {
            LiveEvent::Started { supersample_requested, focused } => {
                if supersample_requested && focused {
                    self.phase = LivePhase::Supersampling;
                    LiveAction::RequestSupersample
                } else {
                    self.phase = LivePhase::Searching;
                    LiveAction::FindBestMode { discard_file: false }
                }
            },
            LiveEvent::Supersampled { written } => match written {
                Some((w, h)) => {
                    if wide_mul(w, h) > self.original.pixels() {
                        self.phase = LivePhase::Finished;
                        LiveAction::Done {
                            result: Mode { width: w, height: h, refresh: self.original.refresh },
                        }
                    } else {
                        self.phase = LivePhase::Searching;
                        LiveAction::FindBestMode { discard_file: true }
                    }
                },
                None => {
                    self.phase = LivePhase::Searching;
                    LiveAction::FindBestMode { discard_file: false }
                },
            },
            LiveEvent::BestModeFound { best } => {
                if best.pixels() <= self.original.pixels() {
                    self.phase = LivePhase::Finished;
                    LiveAction::CaptureAsIs { result: self.original }
                } else {
                    self.phase = LivePhase::Switched { best };
                    LiveAction::SwitchMode { best }
                }
            },
            LiveEvent::Settled { applied } => {
                let best = match self.phase {
                    LivePhase::Switched { best } => best,
                    _ => applied,
                };
                self.phase = LivePhase::Finished;
                LiveAction::CaptureAndRestore {
                    result: applied,
                    refused: applied.pixels() < best.pixels(),
                }
            },
        }
    }
}

/// Law: the display is switched only when that gains pixels, and a switched
/// display is always restored: the one event a switched capture accepts leads
/// to capturing and restoring.
pub proof fn lemma_switch_only_to_gain_and_always_restore(c: LiveCapture, e: LiveEvent)
    requires
        accepts(c.phase, e),
    ensures
        live_step(c, e).1 matches LiveAction::SwitchMode { best } ==> pixel_count(best)
            > pixel_count(c.original) && live_step(c, e).0 == (LivePhase::Switched { best }),
        c.phase is Switched ==> live_step(c, e).1 is CaptureAndRestore,
        live_step(c, e).0 is Switched ==> live_step(c, e).1 is SwitchMode,
{
}

/// Law: a best mode with more pixels than the output's current mode is always
/// switched to; only a best mode with no more pixels is captured as-is, with
/// the current mode reported.
pub proof fn lemma_gaining_pixels_always_switches(c: LiveCapture, best: Mode)
    requires
        c.phase == LivePhase::Searching,
    ensures
        best.width * best.height > c.original.width * c.original.height ==> live_step(
            c,
            LiveEvent::BestModeFound { best },
        ) == (LivePhase::Switched { best }, LiveAction::SwitchMode { best }),
        best.width * best.height <= c.original.width * c.original.height ==> live_step(
            c,
            LiveEvent::BestModeFound { best },
        ) == (LivePhase::Finished, LiveAction::CaptureAsIs { result: c.original }),
{
}

/// Law: a compositor-rendered image is accepted only when it has more pixels
/// than the output itself; an output-sized one means the request was ignored,
/// and its file is discarded before falling back.
pub proof fn lemma_supersample_accepted_only_when_larger(c: LiveCapture, e: LiveEvent)
    requires
        accepts(c.phase, e),
    ensures
        live_step(c, e).1 matches LiveAction::Done { result } ==> pixel_count(result)
            > pixel_count(c.original) && result.refresh == c.original.refresh,
        (e matches LiveEvent::Supersampled { written: Some((w, h)) } && w * h <= pixel_count(
            c.original,
        )) ==> live_step(c, e).1 == (LiveAction::FindBestMode { discard_file: true }),
{
}

/// Law: a capture is finished after at most four events, because every
/// accepted event moves it strictly forward.
pub open spec fn phase_rank(p: LivePhase) -> nat {
    match p {
        LivePhase::Begin => 0,
        LivePhase::Supersampling => 1,
        LivePhase::Searching => 2,
        LivePhase::Switched { .. } => 3,
        LivePhase::Finished => 4,
    }
}

/// Law: every accepted event moves a live capture strictly forward, so it is
/// finished after at most four events.
pub proof fn lemma_live_capture_progresses(c: LiveCapture, e: LiveEvent)
    requires
        accepts(c.phase, e),
    ensures
        phase_rank(live_step(c, e).0) > phase_rank(c.phase),
{
}

} // verus!
