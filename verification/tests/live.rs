use utsushot::json::Json;
use utsushot::live::{
    best_mode_in, current_mode, current_state_from_reply, focused_output_from_reply,
    focused_output_name, output_scale_text, outputs_from_reply, parse_mode, png_dimensions,
    LiveAction, LiveCapture, LiveEvent, LivePhase, Mode,
};

fn num(n: u64) -> Json {
    Json::Number(Some(n), n.to_string())
}

fn obj(members: Vec<(&str, Json)>) -> Json {
    Json::Object(members.into_iter().map(|(k, v)| (k.to_string(), v)).collect())
}

fn mode_json(w: u64, h: u64, r: u64) -> Json {
    obj(vec![("width", num(w)), ("height", num(h)), ("refresh_rate", num(r))])
}

#[test]
fn mode_arg_keeps_three_decimals() {
    let m = Mode { width: 2560, height: 1440, refresh: 144_001 };
    assert_eq!(m.as_arg(), "2560x1440@144.001");
}

#[test]
fn mode_arg_handles_whole_rates() {
    let m = Mode { width: 1920, height: 1080, refresh: 60_000 };
    assert_eq!(m.as_arg(), "1920x1080@60.000");
}

#[test]
fn mode_arg_pads_small_fractions() {
    let m = Mode { width: 7, height: 0, refresh: 59_940 };
    assert_eq!(m.as_arg(), "7x0@59.940");
    let m = Mode { width: 800, height: 600, refresh: 5 };
    assert_eq!(m.as_arg(), "800x600@0.005");
}

#[test]
fn pixels_multiplies_out() {
    assert_eq!(Mode { width: 3840, height: 2160, refresh: 60_000 }.pixels(), 8_294_400);
    assert_eq!(
        Mode { width: u32::MAX, height: u32::MAX, refresh: 0 }.pixels(),
        (u32::MAX as u64) * (u32::MAX as u64)
    );
}

#[test]
fn parse_mode_reads_niri_json() {
    let v = mode_json(2560, 1440, 144_001);
    assert_eq!(
        parse_mode(&v),
        Some(Mode { width: 2560, height: 1440, refresh: 144_001 })
    );
}

#[test]
fn parse_mode_rejects_incomplete_json() {
    let v = obj(vec![("width", num(2560))]);
    assert_eq!(parse_mode(&v), None);
}

#[test]
fn parse_mode_rejects_values_beyond_u32() {
    let v = mode_json(1 << 32, 1440, 60_000);
    assert_eq!(parse_mode(&v), None);
    let v = obj(vec![("width", Json::Number(None, "1.5".to_string())), ("height", num(1)), ("refresh_rate", num(1))]);
    assert_eq!(parse_mode(&v), None);
}

#[test]
fn best_mode_prefers_area_then_refresh() {
    let entry = obj(vec![(
        "modes",
        Json::Array(vec![
            mode_json(1920, 1080, 144_000),
            mode_json(3840, 2160, 30_000),
            mode_json(2560, 1440, 144_001),
        ]),
    )]);
    let current = Mode { width: 1920, height: 1080, refresh: 60_000 };
    let best = best_mode_in(&entry, "eDP-1", current).unwrap();
    assert_eq!(best.width, 3840);
}

#[test]
fn best_mode_breaks_ties_on_refresh() {
    let entry = obj(vec![(
        "modes",
        Json::Array(vec![mode_json(2560, 1440, 60_000), mode_json(2560, 1440, 144_001)]),
    )]);
    let current = Mode { width: 2560, height: 1440, refresh: 60_000 };
    assert_eq!(
        best_mode_in(&entry, "DP-1", current).ok(),
        Some(Mode { width: 2560, height: 1440, refresh: 144_001 })
    );
}

#[test]
fn best_mode_keeps_the_aspect_ratio() {
    let entry = obj(vec![(
        "modes",
        Json::Array(vec![mode_json(1920, 1080, 60_000), mode_json(2560, 1600, 60_000)]),
    )]);
    let current = Mode { width: 1920, height: 1080, refresh: 60_000 };
    assert_eq!(best_mode_in(&entry, "DP-1", current).ok(), Some(current));
}

#[test]
fn best_mode_without_usable_modes_is_an_ipc_error() {
    let entry = obj(vec![("modes", Json::Null)]);
    let current = Mode { width: 1920, height: 1080, refresh: 60_000 };
    let err = best_mode_in(&entry, "DP-1", current).unwrap_err();
    assert_eq!(err.message(), "compositor IPC failed: output 'DP-1' advertises no usable modes");
}

#[test]
fn current_mode_follows_the_index() {
    let outputs = obj(vec![(
        "DP-1",
        obj(vec![
            ("current_mode", num(1)),
            ("modes", Json::Array(vec![mode_json(1280, 720, 60_000), mode_json(1920, 1080, 60_000)])),
        ]),
    )]);
    assert_eq!(
        current_mode(&outputs, "DP-1").ok(),
        Some(Mode { width: 1920, height: 1080, refresh: 60_000 })
    );
    let err = current_mode(&outputs, "HDMI-A-1").unwrap_err();
    assert_eq!(err.message(), "no output named 'HDMI-A-1'");
    assert_eq!(err.exit_code(), 2);
}

#[test]
fn current_mode_reports_what_is_missing() {
    let outputs = obj(vec![
        ("A", obj(vec![])),
        ("B", obj(vec![("current_mode", num(5)), ("modes", Json::Array(vec![]))])),
    ]);
    assert_eq!(
        current_mode(&outputs, "A").unwrap_err().message(),
        "compositor IPC failed: output 'A' has no current mode"
    );
    assert_eq!(
        current_mode(&outputs, "B").unwrap_err().message(),
        "compositor IPC failed: could not read the current mode of 'B'"
    );
}

#[test]
fn focused_output_is_named() {
    let v = obj(vec![("name", Json::Str("eDP-1".into()))]);
    assert_eq!(focused_output_name(&v).ok().as_deref(), Some("eDP-1"));
    let v = obj(vec![("name", num(3))]);
    assert_eq!(
        focused_output_name(&v).unwrap_err().message(),
        "compositor IPC failed: focused output has no name"
    );
}

#[test]
fn png_header_gives_the_dimensions() {
    let mut bytes = vec![0x89, b'P', b'N', b'G', 0x0d, 0x0a, 0x1a, 0x0a];
    bytes.extend_from_slice(&[0, 0, 0, 13, b'I', b'H', b'D', b'R']);
    bytes.extend_from_slice(&7680u32.to_be_bytes());
    bytes.extend_from_slice(&4320u32.to_be_bytes());
    assert_eq!(png_dimensions(&bytes), Some((7680, 4320)));
    assert_eq!(png_dimensions(&bytes[..23]), None);
    let mut not_png = bytes.clone();
    not_png[2] = b'X';
    assert_eq!(png_dimensions(&not_png), None);
}

#[test]
fn live_capture_prefers_the_compositor_when_it_honours_the_request() {
    let original = Mode { width: 1920, height: 1080, refresh: 60_000 };
    let mut c = LiveCapture::new(original);
    assert_eq!(
        c.step(LiveEvent::Started { supersample_requested: true, focused: true }),
        LiveAction::RequestSupersample
    );
    assert_eq!(
        c.step(LiveEvent::Supersampled { written: Some((7680, 4320)) }),
        LiveAction::Done { result: Mode { width: 7680, height: 4320, refresh: 60_000 } }
    );
    assert_eq!(c.phase, LivePhase::Finished);
}

#[test]
fn live_capture_falls_back_when_the_request_is_ignored() {
    let original = Mode { width: 1920, height: 1080, refresh: 60_000 };
    let mut c = LiveCapture::new(original);
    c.step(LiveEvent::Started { supersample_requested: true, focused: true });
    assert_eq!(
        c.step(LiveEvent::Supersampled { written: Some((1920, 1080)) }),
        LiveAction::FindBestMode { discard_file: true }
    );
    let best = Mode { width: 3840, height: 2160, refresh: 30_000 };
    assert_eq!(c.step(LiveEvent::BestModeFound { best }), LiveAction::SwitchMode { best });
    assert_eq!(
        c.step(LiveEvent::Settled { applied: original }),
        LiveAction::CaptureAndRestore { result: original, refused: true }
    );
}

#[test]
fn live_capture_leaves_a_maxed_out_display_alone() {
    let original = Mode { width: 1920, height: 1080, refresh: 60_000 };
    let mut c = LiveCapture::new(original);
    assert_eq!(
        c.step(LiveEvent::Started { supersample_requested: true, focused: false }),
        LiveAction::FindBestMode { discard_file: false }
    );
    assert_eq!(
        c.step(LiveEvent::BestModeFound { best: original }),
        LiveAction::CaptureAsIs { result: original }
    );
}

#[test]
fn outputs_reply_gives_mode_and_scale() {
    let raw = r#"{"eDP-1":{"current_mode":1,"logical":{"scale":1.5},
        "modes":[{"width":1280,"height":720,"refresh_rate":60000},
                 {"width":2560,"height":1440,"refresh_rate":144001}]}}"#;
    let reading = current_state_from_reply(raw, "eDP-1").unwrap();
    assert_eq!(reading.mode, Mode { width: 2560, height: 1440, refresh: 144_001 });
    assert_eq!(reading.scale.as_deref(), Some("1.5"));
    let outputs = outputs_from_reply(raw).unwrap();
    assert_eq!(output_scale_text(&outputs, "HDMI-A-1"), None);
    assert_eq!(
        current_state_from_reply(raw, "HDMI-A-1").err().map(|e| e.message()).as_deref(),
        Some("no output named 'HDMI-A-1'")
    );
}

#[test]
fn integer_scales_keep_their_text() {
    let raw = r#"{"DP-1":{"current_mode":0,"logical":{"scale":2},
        "modes":[{"width":3840,"height":2160,"refresh_rate":60000}]}}"#;
    let reading = current_state_from_reply(raw, "DP-1").unwrap();
    assert_eq!(reading.scale.as_deref(), Some("2"));
    let raw = r#"{"DP-1":{"current_mode":0,"modes":[{"width":3840,"height":2160,"refresh_rate":60000}]}}"#;
    assert_eq!(current_state_from_reply(raw, "DP-1").unwrap().scale, None);
}

#[test]
fn unparsable_replies_are_ipc_errors() {
    let err = current_state_from_reply("not json", "eDP-1").err().unwrap();
    assert!(err.message().starts_with("compositor IPC failed: could not parse outputs: "));
    assert_eq!(err.exit_code(), 6);
    let err = focused_output_from_reply("{").unwrap_err();
    assert!(err.message().starts_with("compositor IPC failed: could not parse focused-output: "));
}

#[test]
fn focused_output_reply_is_read() {
    assert_eq!(
        focused_output_from_reply(r#"{"name":"eDP-1","make":"x"}"#).ok().as_deref(),
        Some("eDP-1")
    );
    assert_eq!(
        focused_output_from_reply("null").unwrap_err().message(),
        "compositor IPC failed: focused output has no name"
    );
}
