use komokana::channel::{
    reconnect_step, ChannelPhase, ConnectAttempt, ReadEvent, RETRY_INTERVAL_SECS,
    SINK_RESET_CODE, SOURCE_RESET_CODE,
};
use komokana::config::{expand_tilde, Rule};
use komokana::events::{handle_event, Event};
use komokana::protocol::render_change_layer;
use komokana::sink::{sink_step, LayerMirror, SinkFlags, SinkOutcome};
use komokana::source::{source_step, SourceOutcome};

fn plain_rule(exe: &str, layer: &str) -> Rule {
    Rule {
        exe: exe.to_owned(),
        strategy: None,
        target_layer: layer.to_owned(),
        title_overrides: None,
        virtual_key_overrides: None,
        virtual_key_ignores: None,
    }
}

#[test]
fn render_change_layer_frames_plain_name() {
    let r = render_change_layer("base");
    assert_eq!(r, b"{\"ChangeLayer\":{\"new\":\"base\"}}".to_vec());
}

#[test]
fn render_change_layer_escapes_specials() {
    let r = render_change_layer("a\"b\\c\nd");
    assert_eq!(
        r,
        b"{\"ChangeLayer\":{\"new\":\"a\\\"b\\\\c\\u000ad\"}}".to_vec()
    );
}

#[test]
fn handle_event_frames_resolved_layer() {
    let config = vec![plain_rule("a.exe", "base")];
    let r = handle_event(&config, Event::FocusChange, "a.exe", None, None, None, false);
    assert_eq!(r, Some(b"{\"ChangeLayer\":{\"new\":\"base\"}}".to_vec()));
}

#[test]
fn handle_event_gated_while_disconnected() {
    let config = vec![plain_rule("a.exe", "base")];
    let r = handle_event(&config, Event::FocusChange, "a.exe", None, None, None, true);
    assert_eq!(r, None);
}

#[test]
fn source_step_dispatches_matching_notification() {
    let config = vec![plain_rule("a.exe", "base")];
    let notification = "{\"event\":{\"type\":\"FocusChange\",\"content\":[\"x\",{\"exe\":\"a.exe\",\"title\":\"Doc\"}]}}";
    let read = ReadEvent::Data(notification.as_bytes().to_vec());
    let r = source_step(&config, None, None, false, read);
    match r {
        SourceOutcome::Dispatch(bytes) => {
            assert_eq!(bytes, b"{\"ChangeLayer\":{\"new\":\"base\"}}".to_vec());
        }
        other => panic!("expected a dispatch, got {:?}", other),
    }
}

#[test]
fn source_step_uses_default_for_unmatched_focus_change() {
    let config = vec![plain_rule("a.exe", "base")];
    let default = String::from("fallback");
    let notification = "{\"event\":{\"type\":\"FocusChange\",\"content\":[\"x\",{\"exe\":\"b.exe\",\"title\":\"Doc\"}]}}";
    let read = ReadEvent::Data(notification.as_bytes().to_vec());
    let r = source_step(&config, Some(&default), None, false, read);
    match r {
        SourceOutcome::Dispatch(bytes) => {
            assert_eq!(bytes, b"{\"ChangeLayer\":{\"new\":\"fallback\"}}".to_vec());
        }
        other => panic!("expected a dispatch, got {:?}", other),
    }
}

#[test]
fn source_step_ignores_keepalive() {
    let config = vec![plain_rule("a.exe", "base")];
    let r = source_step(&config, None, None, false, ReadEvent::Data(b"\n".to_vec()));
    assert!(matches!(r, SourceOutcome::Ignore));
}

#[test]
fn source_step_discards_truncated_json() {
    let config = vec![plain_rule("a.exe", "base")];
    let read = ReadEvent::Data(b"{\"event\":{\"type\":\"FocusCh".to_vec());
    let r = source_step(&config, None, None, false, read);
    assert!(matches!(r, SourceOutcome::Ignore));
}

#[test]
fn source_step_discards_invalid_utf8() {
    let config = vec![plain_rule("a.exe", "base")];
    let read = ReadEvent::Data(vec![0xff, 0xfe, 0x80]);
    let r = source_step(&config, None, None, false, read);
    assert!(matches!(r, SourceOutcome::Ignore));
}

#[test]
fn source_step_ignores_unhandled_kind() {
    let config = vec![plain_rule("a.exe", "base")];
    let notification = "{\"event\":{\"type\":\"Destroy\",\"content\":[\"x\",{\"exe\":\"a.exe\",\"title\":\"Doc\"}]}}";
    let read = ReadEvent::Data(notification.as_bytes().to_vec());
    let r = source_step(&config, None, None, false, read);
    assert!(matches!(r, SourceOutcome::Ignore));
}

#[test]
fn source_step_ignores_missing_fields() {
    let config = vec![plain_rule("a.exe", "base")];
    let notification = "{\"event\":{\"type\":\"Show\",\"content\":[\"x\",{}]}}";
    let read = ReadEvent::Data(notification.as_bytes().to_vec());
    let r = source_step(&config, None, None, false, read);
    assert!(matches!(r, SourceOutcome::Ignore));
}

#[test]
fn source_step_gated_while_disconnected() {
    let config = vec![plain_rule("a.exe", "base")];
    let notification = "{\"event\":{\"type\":\"FocusChange\",\"content\":[\"x\",{\"exe\":\"a.exe\",\"title\":\"Doc\"}]}}";
    let read = ReadEvent::Data(notification.as_bytes().to_vec());
    let r = source_step(&config, None, None, true, read);
    assert!(matches!(r, SourceOutcome::Ignore));
}

#[test]
fn source_step_classifies_read_errors() {
    let config = vec![plain_rule("a.exe", "base")];
    let r = source_step(
        &config,
        None,
        None,
        false,
        ReadEvent::Failed(Some(SOURCE_RESET_CODE)),
    );
    assert!(matches!(r, SourceOutcome::Reconnect));

    let r2 = source_step(&config, None, None, false, ReadEvent::Failed(Some(5)));
    assert!(matches!(r2, SourceOutcome::Fatal));

    let r3 = source_step(&config, None, None, false, ReadEvent::Failed(None));
    assert!(matches!(r3, SourceOutcome::Fatal));
}

#[test]
fn sink_step_reports_confirmed_layer() {
    let read = ReadEvent::Data(b"{\"LayerChange\":{\"new\":\"qwerty\"}}".to_vec());
    let r = sink_step(read);
    match r {
        SinkOutcome::NewLayer(layer) => assert_eq!(layer, "qwerty"),
        other => panic!("expected a layer confirmation, got {:?}", other),
    }
}

#[test]
fn sink_step_ignores_keepalive_and_unrelated() {
    assert!(matches!(
        sink_step(ReadEvent::Data(b"\n".to_vec())),
        SinkOutcome::Ignore
    ));
    assert!(matches!(
        sink_step(ReadEvent::Data(b"{\"ConfigFileReload\":true}".to_vec())),
        SinkOutcome::Ignore
    ));
}

#[test]
fn sink_step_is_fatal_on_malformed_input() {
    assert!(matches!(
        sink_step(ReadEvent::Data(b"{\"LayerChange\":".to_vec())),
        SinkOutcome::Fatal
    ));
    assert!(matches!(
        sink_step(ReadEvent::Data(vec![0xff, 0x80])),
        SinkOutcome::Fatal
    ));
}

#[test]
fn sink_step_is_fatal_on_non_string_layer() {
    assert!(matches!(
        sink_step(ReadEvent::Data(b"{\"LayerChange\":{\"new\":5}}".to_vec())),
        SinkOutcome::Fatal
    ));
}

#[test]
fn source_step_ignores_non_string_fields() {
    let config = vec![plain_rule("a.exe", "base")];
    let notification =
        "{\"event\":{\"type\":\"Show\",\"content\":[\"x\",{\"exe\":\"a.exe\",\"title\":7}]}}";
    let read = ReadEvent::Data(notification.as_bytes().to_vec());
    let r = source_step(&config, None, None, false, read);
    assert!(matches!(r, SourceOutcome::Ignore));
}

#[test]
fn sink_step_classifies_read_errors() {
    assert!(matches!(
        sink_step(ReadEvent::Failed(Some(SINK_RESET_CODE))),
        SinkOutcome::Reconnect
    ));
    assert!(matches!(
        sink_step(ReadEvent::Failed(Some(3))),
        SinkOutcome::Fatal
    ));
    assert!(matches!(
        sink_step(ReadEvent::Failed(None)),
        SinkOutcome::Fatal
    ));
}

#[test]
fn reconnect_retries_until_success() {
    let mut phase = ChannelPhase::Down;
    for _ in 0..3 {
        let wait = reconnect_step(&mut phase, ConnectAttempt::Failed);
        assert_eq!(wait, Some(RETRY_INTERVAL_SECS));
        assert_eq!(phase, ChannelPhase::Down);
    }
    let wait = reconnect_step(&mut phase, ConnectAttempt::Succeeded);
    assert_eq!(wait, None);
    assert_eq!(phase, ChannelPhase::Up);
}

#[test]
fn sink_flags_transitions() {
    let mut flags = SinkFlags::new();
    assert!(!flags.disconnected);
    assert!(!flags.reconnect_pending);

    flags.on_reader_reset();
    assert!(flags.disconnected);
    assert!(!flags.reconnect_pending);

    flags.on_reader_reconnected();
    assert!(!flags.disconnected);
    assert!(flags.reconnect_pending);

    assert!(flags.writer_takes_reconnect());
    assert!(!flags.reconnect_pending);
    assert!(!flags.writer_takes_reconnect());
}

#[test]
fn layer_mirror_tracks_and_persists() {
    let mut mirror = LayerMirror::new(true);
    assert_eq!(mirror.current, None);
    let persist = mirror.observe(String::from("nav"));
    assert_eq!(persist, Some(String::from("nav")));
    assert_eq!(mirror.current, Some(String::from("nav")));

    let mut quiet = LayerMirror::new(false);
    let persist2 = quiet.observe(String::from("nav"));
    assert_eq!(persist2, None);
    assert_eq!(quiet.current, Some(String::from("nav")));
}

#[test]
fn expand_tilde_prefixes_home() {
    assert_eq!(
        expand_tilde("~/komokana.yaml", "/home/user"),
        "/home/user/komokana.yaml"
    );
    assert_eq!(expand_tilde("/etc/komokana.yaml", "/home/user"), "/etc/komokana.yaml");
    assert_eq!(expand_tilde("", "/home/user"), "");
}
