use cliprelay::address::PeerAddress;
use cliprelay::capture::CaptureAction;
use cliprelay::capture::CaptureEvent;
use cliprelay::capture::CaptureState;
use cliprelay::infer::FailureKind;
use cliprelay::infer::InferAction;
use cliprelay::infer::InferEvent;
use cliprelay::infer::InferState;
use cliprelay::keys::hotkey_pressed;
use cliprelay::keys::Key;
use cliprelay::stream::ReadEvent;
use cliprelay::stream::StepOutcome;
use cliprelay::stream::StreamReader;

fn combo() -> Vec<Key> {
    vec![Key::LeftShift, Key::LeftControl, Key::LeftAlt]
}

#[test]
fn close_completes_immediately() {
    // A true zero-byte read completes at once, with the empty counter at 0
    // and no observations before it.
    let mut r = StreamReader::new();
    assert_eq!(r.empty_count, 0);
    let out = r.step(ReadEvent::Closed);
    assert!(matches!(out, StepOutcome::Complete));
}

#[test]
fn close_completes_despite_high_counter() {
    let mut r = StreamReader::new();
    for _ in 0..5 {
        let out = r.step(ReadEvent::Data(Vec::new()));
        assert!(matches!(out, StepOutcome::Continue));
    }
    let out = r.step(ReadEvent::Closed);
    assert!(matches!(out, StepOutcome::Complete));
}

#[test]
fn four_empty_reads_then_data_resets_counter() {
    let mut r = StreamReader::new();
    for _ in 0..4 {
        let out = r.step(ReadEvent::Data(Vec::new()));
        assert!(matches!(out, StepOutcome::Continue));
    }
    let out = r.step(ReadEvent::Data(b"text".to_vec()));
    match out {
        StepOutcome::Deliver(b) => assert_eq!(b, b"text".to_vec()),
        _ => panic!("expected a delivery"),
    }
    assert_eq!(r.empty_count, 0);
    // The counter was reset: five more empty reads still leave the stream open.
    for _ in 0..5 {
        let out = r.step(ReadEvent::Data(Vec::new()));
        assert!(matches!(out, StepOutcome::Continue));
    }
}

#[test]
fn six_empty_reads_force_completion() {
    let mut r = StreamReader::new();
    for _ in 0..5 {
        let out = r.step(ReadEvent::Data(Vec::new()));
        assert!(matches!(out, StepOutcome::Continue));
    }
    let out = r.step(ReadEvent::Data(Vec::new()));
    assert!(matches!(out, StepOutcome::Complete));
}

#[test]
fn undecodable_read_is_an_empty_observation() {
    // 0xff never occurs in UTF-8, so this read must count as empty, not
    // deliver its bytes.
    let mut r = StreamReader::new();
    let out = r.step(ReadEvent::Data(vec![0xff, 0xfe]));
    assert!(matches!(out, StepOutcome::Continue));
    assert_eq!(r.empty_count, 1);
    // A decodable read still delivers exactly its own bytes.
    let out = r.step(ReadEvent::Data(b"ok".to_vec()));
    match out {
        StepOutcome::Deliver(b) => assert_eq!(b, b"ok".to_vec()),
        _ => panic!("expected a delivery"),
    }
}

#[test]
fn failed_read_is_an_empty_observation() {
    let mut r = StreamReader::new();
    for _ in 0..5 {
        let out = r.step(ReadEvent::Failed);
        assert!(matches!(out, StepOutcome::Continue));
    }
    let out = r.step(ReadEvent::Failed);
    assert!(matches!(out, StepOutcome::Complete));
}

#[test]
fn hotkey_needs_all_three_keys() {
    assert!(hotkey_pressed(&vec![Key::LeftShift, Key::LeftControl, Key::LeftAlt]));
    assert!(hotkey_pressed(&vec![Key::LeftShift, Key::LeftControl, Key::LeftOption]));
    assert!(hotkey_pressed(&vec![
        Key::Other,
        Key::LeftOption,
        Key::LeftControl,
        Key::LeftShift,
    ]));
    assert!(!hotkey_pressed(&vec![Key::LeftShift, Key::LeftControl]));
    assert!(!hotkey_pressed(&vec![Key::LeftShift, Key::LeftAlt]));
    assert!(!hotkey_pressed(&vec![Key::LeftControl, Key::LeftOption]));
    assert!(!hotkey_pressed(&Vec::new()));
}

#[test]
fn poll_without_combo_keeps_waiting() {
    let s = CaptureState::start();
    let (s, a) = s.step(CaptureEvent::Poll {
        keys: vec![Key::LeftShift, Key::Other],
        clipboard: None,
    });
    assert!(matches!(s, CaptureState::WaitingForHotkey));
    assert!(matches!(a, CaptureAction::KeepPolling));
}

#[test]
fn empty_clipboard_gives_empty_prompt() {
    let s = CaptureState::start();
    let (s, a) = s.step(CaptureEvent::Poll { keys: combo(), clipboard: None });
    match &s {
        CaptureState::Sending { prompt } => assert!(prompt.is_empty()),
        _ => panic!("expected the sending state"),
    }
    assert!(matches!(a, CaptureAction::OpenOutbound));
    let (_, a) = s.step(CaptureEvent::Connect { ok: true });
    match a {
        CaptureAction::SendPrompt(p) => assert!(p.is_empty()),
        _ => panic!("expected the prompt to be sent"),
    }
}

#[test]
fn failed_connect_returns_to_waiting() {
    // No listener on the peer: nothing is sent and the node stays ready to
    // retry on the next hotkey press.
    let s = CaptureState::start();
    let (s, _) = s.step(CaptureEvent::Poll {
        keys: combo(),
        clipboard: Some(b"hello".to_vec()),
    });
    let (s, a) = s.step(CaptureEvent::Connect { ok: false });
    assert!(matches!(s, CaptureState::WaitingForHotkey));
    assert!(matches!(a, CaptureAction::ReportConnectFailed));
    // The next hotkey press starts a fresh cycle.
    let (s, a) = s.step(CaptureEvent::Poll {
        keys: combo(),
        clipboard: Some(b"again".to_vec()),
    });
    assert!(matches!(s, CaptureState::Sending { .. }));
    assert!(matches!(a, CaptureAction::OpenOutbound));
}

/// Drive one full session through both machines: the capture node's sent
/// prompt becomes the inference node's reads, a stub collaborator produces
/// the chunks, and the forwarded chunks become the capture node's reads.
/// Returns the texts injected as keystrokes, in order.
fn run_session(clipboard: Option<Vec<u8>>, chunks: Vec<Vec<u8>>) -> Vec<Vec<u8>> {
    let s = CaptureState::start();
    let (s, a) = s.step(CaptureEvent::Poll { keys: combo(), clipboard });
    assert!(matches!(a, CaptureAction::OpenOutbound));
    let (s, a) = s.step(CaptureEvent::Connect { ok: true });
    let sent = match a {
        CaptureAction::SendPrompt(p) => p,
        _ => panic!("expected the prompt to be sent"),
    };

    // Inference side: accept, accumulate the wire bytes, submit.
    let t = InferState::start();
    let (t, a) = t.step(InferEvent::Accepted);
    assert!(matches!(a, InferAction::ReadAgain));
    let mut t = t;
    if !sent.is_empty() {
        let (t2, a) = t.step(InferEvent::Read(ReadEvent::Data(sent.clone())));
        assert!(matches!(a, InferAction::ReadAgain));
        t = t2;
    }
    let (t, a) = t.step(InferEvent::Read(ReadEvent::Closed));
    assert!(matches!(t, InferState::Inferring));
    let prompt = match a {
        InferAction::Submit(p) => p,
        _ => panic!("expected the prompt to be submitted"),
    };
    assert_eq!(prompt, sent);

    // The stub collaborator produces `chunks`; the node forwards each one.
    let (mut t, a) = t.step(InferEvent::Dispatched { connected: true });
    assert!(matches!(a, InferAction::AwaitSignal));
    let mut forwarded: Vec<Vec<u8>> = Vec::new();
    for c in chunks {
        let (t2, a) = t.step(InferEvent::Chunk(c));
        match a {
            InferAction::ForwardChunk(b) => forwarded.push(b),
            _ => panic!("expected the chunk to be forwarded"),
        }
        t = t2;
    }
    let (t, a) = t.step(InferEvent::Done);
    assert!(matches!(t, InferState::Listening));
    assert!(matches!(a, InferAction::FinishSession));

    // Capture side: each forwarded chunk arrives as one read, then the close.
    let mut typed: Vec<Vec<u8>> = Vec::new();
    let mut s = s;
    for b in forwarded {
        let (s2, a) = s.step(CaptureEvent::Read(ReadEvent::Data(b)));
        match a {
            CaptureAction::TypeChunk(text) => typed.push(text),
            _ => panic!("expected the chunk to be typed"),
        }
        s = s2;
    }
    let (s, a) = s.step(CaptureEvent::Read(ReadEvent::Closed));
    assert!(matches!(s, CaptureState::WaitingForHotkey));
    assert!(matches!(a, CaptureAction::FinishSession));
    typed
}

#[test]
fn hello_session_types_both_chunks_in_order() {
    // Hotkey with clipboard "hello"; the collaborator answers "hi", " there".
    let typed = run_session(
        Some(b"hello".to_vec()),
        vec![b"hi".to_vec(), b" there".to_vec()],
    );
    assert_eq!(typed, vec![b"hi".to_vec(), b" there".to_vec()]);
}

#[test]
fn echo_session_types_the_prompt_in_one_call() {
    let typed = run_session(Some(b"hello".to_vec()), vec![b"hello".to_vec()]);
    assert_eq!(typed, vec![b"hello".to_vec()]);
}

#[test]
fn echo_session_with_empty_prompt_types_nothing() {
    // The echo of an empty prompt writes no bytes, so nothing is typed.
    let typed = run_session(None, Vec::new());
    assert_eq!(typed, Vec::<Vec<u8>>::new());
}

#[test]
fn chunks_are_kept_in_order_across_many_reads() {
    let chunks: Vec<Vec<u8>> = (0..9)
        .map(|i| format!("chunk {i} ").into_bytes())
        .collect();
    let typed = run_session(Some(b"list them".to_vec()), chunks.clone());
    assert_eq!(typed, chunks);
}

#[test]
fn failed_dispatch_abandons_the_session() {
    let t = InferState::start();
    let (t, _) = t.step(InferEvent::Accepted);
    let (t, _) = t.step(InferEvent::Read(ReadEvent::Closed));
    let (t, a) = t.step(InferEvent::Dispatched { connected: false });
    assert!(matches!(t, InferState::Listening));
    assert!(matches!(a, InferAction::FinishSession));
}

#[test]
fn model_error_mid_stream_forwards_then_aborts() {
    // The collaborator delivers one chunk, then reports a model error: the
    // chunk is still forwarded, and the node aborts instead of looping on.
    let t = InferState::start();
    let (t, _) = t.step(InferEvent::Accepted);
    let (t, _) = t.step(InferEvent::Read(ReadEvent::Data(b"prompt".to_vec())));
    let (t, _) = t.step(InferEvent::Read(ReadEvent::Closed));
    let (t, _) = t.step(InferEvent::Dispatched { connected: true });
    let (t, a) = t.step(InferEvent::Chunk(b"partial".to_vec()));
    match a {
        InferAction::ForwardChunk(b) => assert_eq!(b, b"partial".to_vec()),
        _ => panic!("expected the chunk to be forwarded"),
    }
    let (t, a) = t.step(InferEvent::Collapsed { kind: FailureKind::Model });
    assert!(matches!(t, InferState::Failed { kind: FailureKind::Model }));
    assert!(matches!(a, InferAction::Abort(FailureKind::Model)));
}

#[test]
fn every_failure_kind_aborts() {
    for kind in [FailureKind::Internal, FailureKind::Validation, FailureKind::Model] {
        let t = InferState::start();
        let (t, _) = t.step(InferEvent::Accepted);
        let (t, _) = t.step(InferEvent::Read(ReadEvent::Closed));
        let (t, _) = t.step(InferEvent::Dispatched { connected: true });
        let (t, a) = t.step(InferEvent::Collapsed { kind });
        assert!(matches!(t, InferState::Failed { .. }));
        match a {
            InferAction::Abort(k) => assert_eq!(k, kind),
            _ => panic!("expected an abort"),
        }
    }
}

#[test]
fn accumulation_joins_fragments_in_order() {
    let t = InferState::start();
    let (t, _) = t.step(InferEvent::Accepted);
    let (t, _) = t.step(InferEvent::Read(ReadEvent::Data(b"he".to_vec())));
    let (t, _) = t.step(InferEvent::Read(ReadEvent::Data(Vec::new())));
    let (t, _) = t.step(InferEvent::Read(ReadEvent::Data(b"llo".to_vec())));
    let (_, a) = t.step(InferEvent::Read(ReadEvent::Closed));
    match a {
        InferAction::Submit(p) => assert_eq!(p, b"hello".to_vec()),
        _ => panic!("expected the prompt to be submitted"),
    }
}

#[test]
fn response_address_takes_observed_host_and_configured_port() {
    let a = PeerAddress::response_address(String::from("10.0.0.81"), 9191);
    assert_eq!(a.host, String::from("10.0.0.81"));
    assert_eq!(a.port, 9191);
}

#[test]
fn configured_address_keeps_its_fields() {
    let a = PeerAddress::new(String::from("10.0.0.81"), 8080);
    assert_eq!(a.host, String::from("10.0.0.81"));
    assert_eq!(a.port, 8080);
}
