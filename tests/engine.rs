use overlay_sync::frames::{data_payload, FrameBuffer};
use overlay_sync::link::{Action, Event, Notice, Phase, Supervisor, CANDIDATE_COUNT};
use overlay_sync::overlay::{should_be_visible, OverlayState, AUTO_HIDE_AFTER_MS};
use overlay_sync::pipeline::{accept_chunk, accept_payload, accept_poll_body, apply_notice};
use overlay_sync::status::{decode_status, normalize, AssistantStatus, NormalizedStatus};

fn proposal(text: &str, listening: bool, speaking: bool, wake: bool) -> NormalizedStatus {
    NormalizedStatus {
        status: "Active".to_string(),
        text: text.to_string(),
        is_listening: listening,
        is_speaking: speaking,
        wake_word_detected: wake,
    }
}

fn contacted_port(a: &Action) -> Option<String> {
    match a {
        Action::Probe { port, .. } | Action::OpenStream { port, .. } | Action::Poll { port, .. } => {
            Some(port.clone())
        }
        _ => None,
    }
}

fn probe_port(a: &Action) -> Option<String> {
    match a {
        Action::Probe { port, .. } => Some(port.clone()),
        _ => None,
    }
}

#[test]
fn apply_twice_is_idempotent() {
    let mut s = OverlayState::new(0);
    let p = proposal("hello", true, false, false);
    assert!(s.apply(&p, 100));
    assert_eq!(s.last_activity_time, 100);
    assert!(s.visible);
    assert!(!s.apply(&p, 500));
    assert_eq!(s.last_activity_time, 100);
    assert_eq!(s.text, "hello");
}

#[test]
fn status_alone_is_no_change() {
    let mut s = OverlayState::new(0);
    let mut p = proposal("", false, false, false);
    p.status = "Other".to_string();
    assert!(!s.apply(&p, 10));
    assert_eq!(s.status, "Unknown");
    assert_eq!(s.last_activity_time, 0);
}

#[test]
fn missing_fields_take_defaults() {
    let a = decode_status(b"{}").expect("an empty object is JSON");
    let n = normalize(&a);
    assert_eq!(n.status, "Unknown");
    assert_eq!(n.text, "");
    assert!(!n.is_listening && !n.is_speaking && !n.wake_word_detected);
    let n2 = normalize(&AssistantStatus::empty());
    assert_eq!(n2.status, "Unknown");
    assert_eq!(n2.text, "");
}

#[test]
fn decode_reads_every_field() {
    let a = decode_status(
        br#"{"status":"Speaking","text":"hi","is_listening":true,"is_speaking":true,"wake_word_detected":true}"#,
    )
    .unwrap();
    let n = normalize(&a);
    assert_eq!(n.status, "Speaking");
    assert_eq!(n.text, "hi");
    assert!(n.is_listening && n.is_speaking && n.wake_word_detected);
}

#[test]
fn decode_ignores_fields_of_other_types() {
    let a = decode_status(br#"{"status":3,"text":null,"is_listening":"yes"}"#).unwrap();
    assert!(a.status.is_none());
    assert!(a.text.is_none());
    assert!(a.is_listening.is_none());
}

#[test]
fn decode_rejects_malformed_json() {
    assert!(decode_status(b"{\"status\":").is_none());
    assert!(decode_status(b"not json").is_none());
}

#[test]
fn visibility_truth_table() {
    for bits in 0u8..16 {
        let l = bits & 1 != 0;
        let sp = bits & 2 != 0;
        let w = bits & 4 != 0;
        let text = if bits & 8 != 0 { "x" } else { "" };
        let expected = w || sp || l || !text.is_empty();
        assert_eq!(should_be_visible(&proposal(text, l, sp, w)), expected, "case {}", bits);
    }
}

#[test]
fn auto_hide_after_thirty_seconds() {
    let mut s = OverlayState::new(0);
    s.visible = true;
    s.last_activity_time = 1000;
    assert!(!s.auto_hide(1000 + 29_900));
    assert!(s.visible);
    assert!(!s.auto_hide(1000 + AUTO_HIDE_AFTER_MS));
    assert!(s.visible);
    assert!(s.auto_hide(1000 + 30_001));
    assert!(!s.visible);
}

#[test]
fn activity_blocks_auto_hide() {
    let mut s = OverlayState::new(0);
    s.visible = true;
    s.is_speaking = true;
    assert!(!s.auto_hide(1_000_000));
    assert!(s.visible);
}

#[test]
fn process_auto_hides_idle_overlay() {
    let mut s = OverlayState::new(0);
    s.visible = true;
    let e = s.process(&proposal("", false, false, false), 40_000);
    // the visibility differs, so the change is committed and the timer restarts
    assert!(e.update.is_some());
    assert!(!e.hide_window);
    assert!(!s.visible);
    assert_eq!(s.last_activity_time, 40_000);
}

#[test]
fn probes_never_reach_reserved_port() {
    for configured in [None, Some("8001".to_string()), Some("5000".to_string())] {
        let (mut sup, first) = Supervisor::start(configured);
        let mut probed = vec![probe_port(&first.action).unwrap()];
        let events = [
            Event::ProbeFailed,
            Event::ProbeFailed,
            Event::StreamRefused,
            Event::PollFailed,
            Event::ProbeFailed,
            Event::ProbeFailed,
            Event::Waited,
            Event::PollFailed,
            Event::ProbeAnswered,
            Event::Waited,
            Event::StreamEnded,
            Event::Waited,
        ];
        for e in events {
            let st = sup.step(e);
            if let Some(p) = probe_port(&st.action) {
                probed.push(p);
            }
            if let Some(p) = contacted_port(&st.action) {
                assert_ne!(p, "8001");
            }
        }
        assert!(probed.len() >= 3);
        for p in &probed {
            assert_ne!(p, "8001");
            assert!(p == "5001" || p == "5000");
        }
    }
}

#[test]
fn probing_falls_back_to_configured_port() {
    let (mut sup, first) = Supervisor::start(Some("6001".to_string()));
    assert_eq!(probe_port(&first.action).unwrap(), "5001");
    let st = sup.step(Event::ProbeFailed);
    assert_eq!(probe_port(&st.action).unwrap(), "5000");
    let st = sup.step(Event::ProbeFailed);
    assert!(matches!(st.notice, Notice::Searching));
    match st.action {
        Action::OpenStream { port, timeout_ms } => {
            assert_eq!(port, "6001");
            assert_eq!(timeout_ms, 5000);
        }
        _ => panic!("expected the stream to be opened"),
    }
}

#[test]
fn probing_falls_back_to_default_port() {
    let (mut sup, _) = Supervisor::start(None);
    sup.step(Event::ProbeFailed);
    let st = sup.step(Event::ProbeFailed);
    match st.action {
        Action::OpenStream { port, .. } => assert_eq!(port, "5001"),
        _ => panic!("expected the stream to be opened"),
    }
}

#[test]
fn second_candidate_answers() {
    let (mut sup, _) = Supervisor::start(None);
    sup.step(Event::ProbeFailed);
    let st = sup.step(Event::ProbeAnswered);
    match st.notice {
        Notice::Connected { port } => assert_eq!(port, "5000"),
        _ => panic!("expected a connection notice"),
    }
    let st = sup.step(Event::StreamOpened);
    assert!(matches!(st.action, Action::ReadStream));
    let st = sup.step(Event::StreamEnded);
    assert!(matches!(st.action, Action::Wait { ms: 5000 }));
    let st = sup.step(Event::Waited);
    assert_eq!(probe_port(&st.action).unwrap(), "5001");
    assert!(matches!(sup.phase, Phase::Probing { next: 0 }));
}

#[test]
fn failed_poll_switches_to_answering_candidate() {
    let (mut sup, _) = Supervisor::start(None);
    sup.step(Event::ProbeAnswered);
    sup.step(Event::StreamRefused);
    let st = sup.step(Event::PollFailed);
    assert!(matches!(st.notice, Notice::Unreachable));
    assert_eq!(probe_port(&st.action).unwrap(), "5000");
    let st = sup.step(Event::ProbeAnswered);
    assert!(matches!(st.action, Action::Wait { ms: 10000 }));
    let st = sup.step(Event::Waited);
    match st.action {
        Action::Poll { port, delay_ms, timeout_ms } => {
            assert_eq!(port, "5000");
            assert_eq!(delay_ms, 1000);
            assert_eq!(timeout_ms, 3000);
        }
        _ => panic!("expected a poll"),
    }
    assert_eq!(CANDIDATE_COUNT, 2);
}

#[test]
fn stream_frame_leaves_trailing_bytes() {
    let mut state = OverlayState::new(0);
    let mut frames = FrameBuffer::new();
    let effects = accept_chunk(
        &mut state,
        &mut frames,
        b"data: {\"status\":\"Listening\"}\n\nTRAILING",
        10,
    );
    assert_eq!(frames.pending, b"TRAILING".to_vec());
    assert_eq!(effects.len(), 1);
    // a status alone does not count as a change of the overlay
    assert!(effects[0].update.is_none());

    let mut direct = FrameBuffer::new();
    direct.push_chunk(b"data: {\"status\":\"Listening\"}\n\nTRAILING");
    let payloads = direct.take_payloads();
    assert_eq!(payloads.len(), 1);
    let n = normalize(&decode_status(&payloads[0]).unwrap());
    assert_eq!(n.status, "Listening");
    assert_eq!(n.text, "");
    assert_eq!(direct.pending, b"TRAILING".to_vec());

    let effects = accept_chunk(&mut state, &mut frames, b"\n\n", 20);
    assert!(effects.is_empty());
    assert!(frames.pending.is_empty());
}

#[test]
fn frames_split_across_chunks() {
    let mut frames = FrameBuffer::new();
    frames.push_chunk(b"data: {\"te");
    assert!(frames.next_frame().is_none());
    frames.push_chunk(b"xt\":\"a\"}\n");
    assert!(frames.next_frame().is_none());
    frames.push_chunk(b"\nevent: ping\n\ndata: 1\n\n");
    let got = frames.take_payloads();
    assert_eq!(got, vec![b"{\"text\":\"a\"}".to_vec(), b"1".to_vec()]);
    assert!(frames.pending.is_empty());
}

#[test]
fn data_prefix_is_required() {
    assert_eq!(data_payload(b"data: x"), Some(b"x".to_vec()));
    assert_eq!(data_payload(b"data: "), Some(Vec::new()));
    assert_eq!(data_payload(b"data:x"), None);
    assert_eq!(data_payload(b"event: x"), None);
}

#[test]
fn fallback_to_polling_publishes_update() {
    let mut state = OverlayState::new(0);
    let (mut sup, _) = Supervisor::start(None);
    let st = sup.step(Event::ProbeAnswered);
    apply_notice(&mut state, &st.notice);
    assert_eq!(state.status, "Connected to CLIENT port 5001");
    let st = sup.step(Event::StreamRefused);
    let port = match st.action {
        Action::Poll { port, .. } => port,
        _ => panic!("expected polling"),
    };
    let e = accept_poll_body(&mut state, &port, br#"{"text":"hello","is_listening":true}"#, 1000)
        .expect("the body is JSON");
    let u = e.update.expect("the state changed");
    assert_eq!(u.text, "hello");
    assert!(u.is_listening);
    assert!(e.show_window);
    assert!(state.visible);
    assert_eq!(state.status, "Unknown");
}

#[test]
fn malformed_poll_body_changes_nothing() {
    let mut state = OverlayState::new(0);
    let (mut sup, _) = Supervisor::start(None);
    sup.step(Event::ProbeAnswered);
    sup.step(Event::StreamRefused);
    assert!(accept_poll_body(&mut state, "5001", b"{oops", 1000).is_none());
    assert_eq!(state.status, "Unknown");
    assert_eq!(state.text, "");
    assert!(!state.visible);
    assert_eq!(state.last_activity_time, 0);
    let st = sup.step(Event::PollAnswered);
    match st.action {
        Action::Poll { port, .. } => assert_eq!(port, "5001"),
        _ => panic!("expected polling to go on"),
    }
}

#[test]
fn malformed_stream_payload_is_dropped() {
    let mut state = OverlayState::new(0);
    assert!(accept_payload(&mut state, b"{", 5).is_none());
    assert_eq!(state.status, "Unknown");
    let mut frames = FrameBuffer::new();
    let e = accept_chunk(&mut state, &mut frames, b"data: {\n\ndata: {\"text\":\"t\"}\n\n", 6);
    assert_eq!(e.len(), 1);
    assert_eq!(state.text, "t");
}

#[test]
fn unreachable_notice_sets_waiting_text() {
    let mut state = OverlayState::new(0);
    apply_notice(&mut state, &Notice::Unreachable);
    assert_eq!(state.status, "Waiting for client to start...");
    assert_eq!(state.text, "Start the Gaja client first");
    apply_notice(&mut state, &Notice::Searching);
    assert_eq!(state.status, "Waiting for client...");
}

#[test]
fn manual_commands() {
    let mut s = OverlayState::new(7);
    s.show_overlay();
    assert!(s.visible);
    s.set_manual(&proposal("typed", false, true, false));
    assert_eq!(s.text, "typed");
    assert_eq!(s.status, "Active");
    assert!(s.is_speaking);
    assert_eq!(s.last_activity_time, 7);
    s.hide_overlay();
    assert!(!s.visible);
    let snap = s.snapshot();
    assert_eq!(snap.text, "typed");
    let u = s.status_update();
    assert_eq!(u.status, "Active");
}

#[test]
fn exhausted_reprobe_backs_off_on_same_port() {
    let (mut sup, _) = Supervisor::start(None);
    sup.step(Event::ProbeAnswered);
    sup.step(Event::StreamRefused);
    let st = sup.step(Event::PollFailed);
    assert_eq!(probe_port(&st.action).unwrap(), "5000");
    let st = sup.step(Event::ProbeFailed);
    assert!(matches!(st.notice, Notice::Quiet));
    assert!(matches!(st.action, Action::Wait { ms: 10000 }));
    let st = sup.step(Event::Waited);
    match st.action {
        Action::Poll { port, .. } => assert_eq!(port, "5001"),
        _ => panic!("expected polling to resume"),
    }
}

#[test]
fn unexpected_event_starts_over() {
    let (mut sup, _) = Supervisor::start(None);
    let st = sup.step(Event::StreamEnded);
    assert_eq!(probe_port(&st.action).unwrap(), "5001");
    assert!(matches!(sup.phase, Phase::Probing { next: 0 }));
}

#[test]
fn reserved_configured_port_falls_back_to_default() {
    let (mut sup, _) = Supervisor::start(Some("8001".to_string()));
    sup.step(Event::ProbeFailed);
    let st = sup.step(Event::ProbeFailed);
    assert_eq!(contacted_port(&st.action).unwrap(), "5001");
    let st = sup.step(Event::StreamRefused);
    assert_eq!(contacted_port(&st.action).unwrap(), "5001");
}

#[test]
fn poll_error_status_counts_as_failure() {
    let mut state = OverlayState::new(0);
    let (mut sup, _) = Supervisor::start(None);
    sup.step(Event::ProbeAnswered);
    sup.step(Event::StreamRefused);
    // a non-success status is reported as a failed poll
    let st = sup.step(Event::PollFailed);
    apply_notice(&mut state, &st.notice);
    assert_eq!(state.status, "Waiting for client to start...");
    assert_eq!(state.text, "Start the Gaja client first");
    assert_eq!(probe_port(&st.action).unwrap(), "5000");
}

#[test]
fn new_state_has_defaults() {
    let s = OverlayState::new(3);
    assert!(!s.visible);
    assert_eq!(s.status, "Unknown");
    assert_eq!(s.text, "");
    assert!(!s.is_listening && !s.is_speaking && !s.wake_word_detected);
    assert_eq!(s.last_activity_time, 3);
}
