use notifyme::config::Config;
use notifyme::dispatch::{handle, ToolCallRequest, ToolCallResult};
use notifyme::args::{Arg, ArgValue, Arguments};
use notifyme::server::StreamingServer;
use notifyme::session::{Session, SessionState};

fn send_request(title: &str, message: &str, request_id: u64) -> ToolCallRequest {
    ToolCallRequest {
        tool_name: "send_notification".to_string(),
        arguments: Arguments {
            fields: vec![
                Arg { name: "title".to_string(), value: ArgValue::Text(title.to_string()) },
                Arg { name: "message".to_string(), value: ArgValue::Text(message.to_string()) },
            ],
        },
        request_id,
    }
}

#[test]
fn concurrent_calls_yield_correlated_results() {
    let mut session = Session::new();
    session.open();
    let requests: Vec<ToolCallRequest> =
        (0..3u64).map(|i| send_request("Build", "Done", 100 + i)).collect();
    for req in &requests {
        assert!(session.accept(req.request_id));
    }
    // a duplicate correlation token is not accepted while in flight
    assert!(!session.accept(100));
    // completions happen in an order different from submission
    let mut envelopes = Vec::new();
    for req in requests.iter().rev() {
        let result = handle(req, Ok(())).unwrap();
        let env = session.finish(req.request_id, result).expect("in-flight dispatch must deliver");
        envelopes.push(env);
    }
    assert_eq!(envelopes.len(), 3);
    let mut ids: Vec<u64> = envelopes.iter().map(|e| e.request_id).collect();
    ids.sort();
    assert_eq!(ids, vec![100, 101, 102]);
    for env in &envelopes {
        match &env.result {
            ToolCallResult::Success { content } => assert_eq!(content[0], "notification sent"),
        }
    }
    // nothing is delivered twice
    let result = handle(&requests[0], Ok(())).unwrap();
    assert!(session.finish(100, result).is_none());
}

#[test]
fn draining_session_rejects_new_calls_but_delivers_in_flight() {
    let mut session = Session::new();
    session.open();
    assert!(session.accept(1));
    session.begin_drain();
    assert_eq!(session.state, SessionState::Draining);
    // no new inbound call is accepted after the shutdown signal
    assert!(!session.accept(2));
    // the dispatch accepted before the drain still completes and delivers
    let req = send_request("Build", "Done", 1);
    let result = handle(&req, Ok(())).unwrap();
    let env = session.finish(1, result).expect("in-flight dispatch must deliver");
    assert_eq!(env.request_id, 1);
    // and only then does the session close
    assert_eq!(session.state, SessionState::Closed);
}

#[test]
fn session_with_nothing_in_flight_closes_at_once() {
    let mut session = Session::new();
    session.open();
    session.begin_drain();
    assert_eq!(session.state, SessionState::Closed);
}

#[test]
fn cancelled_server_accepts_no_connection_and_no_call() {
    let mut server = StreamingServer::new(Config::new(6656));
    let a = server.connect().expect("a running server accepts a connection");
    let b = server.connect().expect("a running server accepts a connection");
    assert!(server.route_inbound(a, 10));
    server.cancel();
    // the listener stops accepting connections
    assert!(server.connect().is_none());
    // no session accepts a new inbound call
    assert!(!server.route_inbound(a, 11));
    assert!(!server.route_inbound(b, 12));
    // the dispatch accepted before cancellation still delivers its result
    let req = send_request("Build", "Done", 10);
    let result = handle(&req, Ok(())).unwrap();
    let env = server.finish_inbound(a, 10, result).expect("in-flight dispatch must deliver");
    assert_eq!(env.request_id, 10);
    assert_eq!(server.sessions[a].state, SessionState::Closed);
    assert_eq!(server.sessions[b].state, SessionState::Closed);
}

#[test]
fn independent_sessions_do_not_share_tokens() {
    let mut server = StreamingServer::new(Config::new(6656));
    let a = server.connect().unwrap();
    let b = server.connect().unwrap();
    // the same correlation token may be in flight on two different sessions
    assert!(server.route_inbound(a, 7));
    assert!(server.route_inbound(b, 7));
    let req = send_request("Build", "Done", 7);
    let result = handle(&req, Ok(())).unwrap();
    assert!(server.finish_inbound(a, 7, result).is_some());
    // finishing on one session does not finish the other's dispatch
    let result = handle(&req, Ok(())).unwrap();
    assert!(server.finish_inbound(b, 7, result).is_some());
}
