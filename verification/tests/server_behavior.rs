use hello_server::acceptor::{
    acceptor_step, listen_addr, startup_line, AcceptOutcome, AcceptorAction, LISTEN_PORT,
};
use hello_server::handler::{handler_start, handler_step, Action, Event, Phase, READ_LIMIT};
use hello_server::response::fixed_response;

fn expected_response() -> Vec<u8> {
    b"HTTP/1.1 200 OK\r\nContent-Type: text/plain\r\nContent-Length: 11\r\n\r\nhelloworld\n"
        .to_vec()
}

/// Drives one handler from start to completion, feeding it the three I/O
/// outcomes, and returns every action it requested, in order.
fn complete_run(read_event: Event, write_event: Event, flush_event: Event) -> Vec<Action> {
    let mut actions = Vec::new();
    let (mut phase, first) = handler_start();
    assert!(matches!(phase, Phase::Reading));
    actions.push(first);
    for event in [read_event, write_event, flush_event] {
        let (next, action) = handler_step(phase, event);
        phase = next;
        actions.push(action);
    }
    assert!(matches!(phase, Phase::Done));
    actions
}

fn write_payloads(actions: &[Action]) -> Vec<Vec<u8>> {
    let mut out = Vec::new();
    for action in actions {
        if let Action::WriteAll(bytes) = action {
            out.push(bytes.clone());
        }
    }
    out
}

#[test]
fn fixed_response_is_the_exact_wire_bytes() {
    assert_eq!(fixed_response(), expected_response());
    assert_eq!(fixed_response().len(), 76);
}

#[test]
fn declared_content_length_matches_body() {
    let response = fixed_response();
    let separator = b"\r\n\r\n";
    let split = response
        .windows(separator.len())
        .position(|w| w == separator)
        .expect("response has a blank line after the headers");
    let headers = &response[..split];
    let body = &response[split + separator.len()..];
    assert_eq!(body, b"helloworld\n");
    assert_eq!(body.len(), 11);
    let header_text = String::from_utf8(headers.to_vec()).unwrap();
    assert!(header_text.contains("Content-Length: 11"));
}

#[test]
fn handler_starts_with_one_bounded_read() {
    let (phase, action) = handler_start();
    assert!(matches!(phase, Phase::Reading));
    assert!(matches!(action, Action::ReadAtMost(1024)));
    assert_eq!(READ_LIMIT, 1024);
}

#[test]
fn handler_never_reads_twice() {
    let actions = complete_run(
        Event::ReadFinished(2048),
        Event::WriteFinished,
        Event::FlushFinished,
    );
    let reads = actions
        .iter()
        .filter(|a| matches!(a, Action::ReadAtMost(_)))
        .count();
    assert_eq!(reads, 1);
    assert!(matches!(actions[0], Action::ReadAtMost(1024)));
}

#[test]
fn full_run_writes_response_once_then_closes() {
    let actions = complete_run(
        Event::ReadFinished(37),
        Event::WriteFinished,
        Event::FlushFinished,
    );
    assert_eq!(actions.len(), 4);
    assert!(matches!(actions[0], Action::ReadAtMost(1024)));
    match &actions[1] {
        Action::WriteAll(bytes) => assert_eq!(bytes, &expected_response()),
        other => panic!("expected a write, got {:?}", other),
    }
    assert!(matches!(actions[2], Action::Flush));
    assert!(matches!(actions[3], Action::Close));
    assert_eq!(write_payloads(&actions).len(), 1);
}

#[test]
fn response_is_request_independent() {
    // The same handler behaviour for a well-formed request, a one-byte
    // request, an empty send and an oversized one.
    let get_len = b"GET / HTTP/1.1\r\nHost: x\r\n\r\n".len();
    let runs = [
        Event::ReadFinished(get_len),
        Event::ReadFinished(1),
        Event::ReadFinished(0),
        Event::ReadFinished(1024),
    ];
    for read_event in runs {
        let actions = complete_run(read_event, Event::WriteFinished, Event::FlushFinished);
        assert_eq!(write_payloads(&actions), vec![expected_response()]);
    }
}

#[test]
fn read_failure_still_gets_the_full_response() {
    // A client that sends nothing and lets the read fail or time out at the
    // transport level is still answered in full.
    let actions = complete_run(Event::ReadFailed, Event::WriteFinished, Event::FlushFinished);
    assert_eq!(write_payloads(&actions), vec![expected_response()]);
}

#[test]
fn write_and_flush_failures_are_discarded() {
    // The run still completes in order and closes; nothing is retried.
    let actions = complete_run(Event::ReadFailed, Event::WriteFailed, Event::FlushFailed);
    assert_eq!(actions.len(), 4);
    assert_eq!(write_payloads(&actions).len(), 1);
    assert!(matches!(actions[3], Action::Close));
}

#[test]
fn concurrent_handlers_are_independent() {
    // Interleave the steps of many handlers round-robin, as a scheduler
    // might, each with its own read outcome: every connection independently
    // receives the full fixed response.
    let n: usize = 16;
    let mut phases = Vec::new();
    let mut payloads: Vec<Vec<Vec<u8>>> = Vec::new();
    for _ in 0..n {
        let (phase, action) = handler_start();
        assert!(matches!(action, Action::ReadAtMost(1024)));
        phases.push(phase);
        payloads.push(Vec::new());
    }
    let rounds: [fn(usize) -> Event; 3] = [
        |i: usize| {
            if i % 3 == 0 {
                Event::ReadFailed
            } else {
                Event::ReadFinished(i)
            }
        },
        |_: usize| Event::WriteFinished,
        |_: usize| Event::FlushFinished,
    ];
    for round in rounds {
        for i in 0..n {
            let (next, action) = handler_step(phases[i], round(i));
            phases[i] = next;
            if let Action::WriteAll(bytes) = action {
                payloads[i].push(bytes);
            }
        }
    }
    for i in 0..n {
        assert!(matches!(phases[i], Phase::Done));
        assert_eq!(payloads[i], vec![expected_response()]);
    }
}

#[test]
fn acceptor_spawns_a_handler_for_each_connection() {
    let decision = acceptor_step(AcceptOutcome::Accepted);
    assert_eq!(decision.action, AcceptorAction::SpawnHandler);
    assert!(decision.keep_listening);
}

#[test]
fn acceptor_logs_a_failed_accept_and_keeps_listening() {
    let decision = acceptor_step(AcceptOutcome::Failed);
    assert_eq!(decision.action, AcceptorAction::LogError);
    assert!(decision.keep_listening);
}

#[test]
fn server_binds_localhost_on_its_fixed_port() {
    assert_eq!(listen_addr(), "127.0.0.1:8082");
    assert_eq!(LISTEN_PORT, 8082);
    assert_eq!(startup_line(), "Rust HTTP server starting on :8082");
}
