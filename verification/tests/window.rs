use utsushot::json::Json;
use utsushot::window::{
    find_window, prepare_commands, read_window_head, restore_commands, screenshot_command,
    window_capture_outcome, window_dim, window_from_reply, window_output, window_output_from_reply,
};
use utsushot::error::Error;

fn num(n: u64) -> Json {
    Json::Number(Some(n), n.to_string())
}

fn obj(members: Vec<(&str, Json)>) -> Json {
    Json::Object(members.into_iter().map(|(k, v)| (k.to_string(), v)).collect())
}

fn window(id: u64, floating: bool, w: u64, h: u64, ws: u64) -> Json {
    obj(vec![
        ("id", num(id)),
        ("is_floating", Json::Bool(floating)),
        ("workspace_id", num(ws)),
        ("layout", obj(vec![("window_size", Json::Array(vec![num(w), num(h)]))])),
    ])
}

#[test]
fn windows_are_found_by_id() {
    let windows = Json::Array(vec![window(3, false, 800, 600, 1), window(7, true, 640, 480, 2)]);
    let w = find_window(&windows, 7).unwrap();
    let head = read_window_head(w).unwrap();
    assert_eq!(head.id, 7);
    assert!(head.was_floating);
    assert_eq!(window_dim(head.size, 0).ok(), Some(640));
    assert_eq!(window_dim(head.size, 1).ok(), Some(480));
    assert_eq!(find_window(&windows, 9).unwrap_err().message(), "no window with id 9");
}

#[test]
fn window_head_reports_what_is_missing() {
    let no_id = obj(vec![]);
    assert_eq!(read_window_head(&no_id).err().map(|e| e.message()).as_deref(), Some("compositor IPC failed: window has no id"));
    let no_size = obj(vec![("id", num(1))]);
    let head = read_window_head(&no_size);
    assert_eq!(head.err().map(|e| e.message()).as_deref(), Some("compositor IPC failed: window has no size"));
    let tiled = obj(vec![("id", num(1)), ("layout", obj(vec![("window_size", Json::Array(vec![num(1 << 40)]))]))]);
    let head = read_window_head(&tiled).ok().unwrap();
    assert!(!head.was_floating);
    assert_eq!(window_dim(head.size, 0).err().map(|e| e.message()).as_deref(), Some("compositor IPC failed: window size malformed"));
    assert_eq!(window_dim(head.size, 1).err().map(|e| e.message()).as_deref(), Some("compositor IPC failed: window size malformed"));
}

#[test]
fn window_output_comes_from_its_workspace() {
    let win = window(3, false, 800, 600, 2);
    let workspaces = Json::Array(vec![
        obj(vec![("id", num(1)), ("output", Json::Str("DP-1".into()))]),
        obj(vec![("id", num(2)), ("output", Json::Str("eDP-1".into()))]),
    ]);
    assert_eq!(window_output(&win, &workspaces).ok().as_deref(), Some("eDP-1"));
    let elsewhere = window(3, false, 800, 600, 9);
    assert_eq!(
        window_output(&elsewhere, &workspaces).unwrap_err().message(),
        "compositor IPC failed: could not determine the window's output"
    );
}

#[test]
fn tiled_windows_are_floated_before_their_size_is_pinned() {
    let cmds = prepare_commands(42, false, 800, 600);
    assert_eq!(
        cmds,
        vec![
            vec!["action", "move-window-to-floating", "--id", "42"],
            vec!["action", "set-window-width", "--id", "42", "800"],
            vec!["action", "set-window-height", "--id", "42", "600"],
        ]
    );
    assert_eq!(prepare_commands(42, true, 800, 600).len(), 2);
}

#[test]
fn restore_rescales_first_then_retiles() {
    assert_eq!(
        restore_commands(42, false, "eDP-1", "1.5"),
        vec![
            vec!["output", "eDP-1", "scale", "1.5"],
            vec!["action", "move-window-to-tiling", "--id", "42"],
        ]
    );
    assert_eq!(
        restore_commands(42, true, "eDP-1", "1"),
        vec![vec!["output", "eDP-1", "scale", "1"]]
    );
}

#[test]
fn screenshot_targets_the_window_and_path() {
    assert_eq!(
        screenshot_command(5, "/tmp/w.png"),
        vec!["action", "screenshot-window", "--id", "5", "--write-to-disk", "true", "--path", "/tmp/w.png"]
    );
}

#[test]
fn window_outcome_reports_restore_failures_first() {
    let r = window_capture_outcome(Err(Error::Ipc("scale".into())), Err(Error::Capture("shot".into())), None);
    assert_eq!(r.unwrap_err().exit_code(), 6);
    let r = window_capture_outcome(Ok(()), Err(Error::Capture("shot".into())), Some((1, 1)));
    assert_eq!(r.unwrap_err().message(), "capture failed: shot");
    let r = window_capture_outcome(Ok(()), Ok(()), None);
    assert_eq!(
        r.unwrap_err().message(),
        "capture failed: the compositor accepted the capture but never wrote the file"
    );
    assert_eq!(window_capture_outcome(Ok(()), Ok(()), Some((3, 4))).ok(), Some((3, 4)));
}

#[test]
fn window_replies_are_read() {
    let windows = r#"[{"id":3,"workspace_id":1,"layout":{"window_size":[800,600]}},
                      {"id":7,"is_floating":true,"workspace_id":2,"layout":{"window_size":[640,480]}}]"#;
    let win = window_from_reply(windows, Some(7)).unwrap();
    let head = read_window_head(&win).unwrap();
    assert_eq!((head.id, head.was_floating), (7, true));
    assert_eq!(
        window_from_reply(windows, Some(9)).unwrap_err().message(),
        "no window with id 9"
    );
    let focused = r#"{"id":3,"workspace_id":1,"layout":{"window_size":[800,600]}}"#;
    let win = window_from_reply(focused, None).unwrap();
    assert_eq!(read_window_head(&win).ok().map(|h| h.id), Some(3));
    let workspaces = r#"[{"id":1,"output":"DP-1"},{"id":2,"output":"eDP-1"}]"#;
    assert_eq!(window_output_from_reply(&win, workspaces).ok().as_deref(), Some("DP-1"));
}

#[test]
fn unparsable_window_replies_name_what_was_parsed() {
    let err = window_from_reply("[", Some(1)).unwrap_err();
    assert!(err.message().starts_with("compositor IPC failed: parsing windows: "));
    let err = window_from_reply("", None).unwrap_err();
    assert!(err.message().starts_with("compositor IPC failed: parsing focused-window: "));
    let win = Json::Null;
    let err = window_output_from_reply(&win, "{,}").unwrap_err();
    assert!(err.message().starts_with("compositor IPC failed: parsing workspaces: "));
}
