use superchan::ReceiverError;
use superchan::WireValue;
use superchan::msg::{Message, Response};
use superchan::registry::ClientRegistry;
use superchan::tcp::{
    AcceptAction, AcceptEvent, ClientReadAction, ConnEnd, ReadEvent, ServerConnAction,
    client_read_step, drive_connection, server_accept_step, server_conn_step,
};

fn frame_of(m: &Message) -> ReadEvent {
    ReadEvent::Frame(m.encode())
}

#[test]
fn server_step_delivers_a_decoded_frame() {
    let a = server_conn_step::<Message>(&frame_of(&Message::Int(42)));
    assert!(matches!(a, ServerConnAction::Deliver(Message::Int(42))));
}

#[test]
fn server_step_retries_on_timeout() {
    assert!(matches!(server_conn_step::<Message>(&ReadEvent::TimedOut), ServerConnAction::Retry));
}

#[test]
fn server_step_disconnects_on_clean_close() {
    assert!(matches!(server_conn_step::<Message>(&ReadEvent::Closed), ServerConnAction::Disconnect));
}

#[test]
fn server_step_treats_transport_failure_as_fatal() {
    assert!(matches!(
        server_conn_step::<Message>(&ReadEvent::Failed),
        ServerConnAction::FailDisconnect(ReceiverError::Io)
    ));
}

#[test]
fn server_step_treats_bad_frame_as_fatal() {
    let a = server_conn_step::<Message>(&ReadEvent::Frame(vec![9, 9]));
    assert!(matches!(a, ServerConnAction::FailDisconnect(ReceiverError::Decoding)));
}

#[test]
fn client_step_publishes_a_decoded_response() {
    let a = client_read_step::<Response>(&ReadEvent::Frame(Response::Okay.encode()));
    assert!(matches!(a, ClientReadAction::Publish(Ok(Response::Okay))));
}

#[test]
fn client_step_publishes_decoding_error_and_goes_on() {
    let a = client_read_step::<Response>(&ReadEvent::Frame(vec![7]));
    assert!(matches!(a, ClientReadAction::Publish(Err(ReceiverError::Decoding))));
}

#[test]
fn client_step_publishes_io_error() {
    let a = client_read_step::<Response>(&ReadEvent::Failed);
    assert!(matches!(a, ClientReadAction::Publish(Err(ReceiverError::Io))));
}

#[test]
fn client_step_retries_and_stops() {
    assert!(matches!(client_read_step::<Response>(&ReadEvent::TimedOut), ClientReadAction::Retry));
    assert!(matches!(client_read_step::<Response>(&ReadEvent::Closed), ClientReadAction::Stop));
}

#[test]
fn accept_loop_decisions() {
    assert!(matches!(server_accept_step(&AcceptEvent::Incoming), AcceptAction::HandleNew));
    assert!(matches!(
        server_accept_step(&AcceptEvent::ListenerClosed),
        AcceptAction::StopAccepting
    ));
    assert!(matches!(
        server_accept_step(&AcceptEvent::ListenerFailed),
        AcceptAction::FailServer
    ));
}

#[test]
fn messages_are_delivered_in_send_order() {
    // m1 is sent before m2 on one connection, so the handler sees m1
    // strictly before m2, timeouts in between notwithstanding.
    let m1 = Message::Int(1);
    let m2 = Message::String(String::from("two"));
    let events = vec![
        frame_of(&m1),
        ReadEvent::TimedOut,
        frame_of(&m2),
        ReadEvent::Closed,
    ];
    let (delivered, end) = drive_connection::<Message>(&events);
    assert_eq!(delivered, vec![m1, m2]);
    assert_eq!(end, ConnEnd::Graceful);
}

#[test]
fn delivery_stops_at_a_fatal_frame() {
    let events = vec![
        frame_of(&Message::Blank),
        ReadEvent::Frame(vec![0xde, 0xad]),
        frame_of(&Message::Int(3)),
    ];
    let (delivered, end) = drive_connection::<Message>(&events);
    assert_eq!(delivered, vec![Message::Blank]);
    assert_eq!(end, ConnEnd::Faulted);
}

#[test]
fn connection_without_terminal_event_stays_open() {
    let events = vec![ReadEvent::TimedOut, frame_of(&Message::Int(5))];
    let (delivered, end) = drive_connection::<Message>(&events);
    assert_eq!(delivered, vec![Message::Int(5)]);
    assert_eq!(end, ConnEnd::StillOpen);
}

#[test]
fn concurrent_clients_outcomes_are_independent() {
    // Two clients send concurrently; each connection's deliveries are a
    // function of its own events alone, so neither sees the other's.
    let e1 = vec![frame_of(&Message::Int(10)), ReadEvent::Closed];
    let e2 = vec![frame_of(&Message::Int(20)), frame_of(&Message::Int(21)), ReadEvent::Closed];
    let (d1, _) = drive_connection::<Message>(&e1);
    let (d2, _) = drive_connection::<Message>(&e2);
    assert_eq!(d1, vec![Message::Int(10)]);
    assert_eq!(d2, vec![Message::Int(20), Message::Int(21)]);
    // replaying one connection is unaffected by the other having run
    let (d1_again, _) = drive_connection::<Message>(&e1);
    assert_eq!(d1_again, d1);
}

#[test]
fn a_server_of_many_clients_keeps_their_runs_apart() {
    let conns = vec![
        vec![frame_of(&Message::Int(1)), ReadEvent::Closed],
        vec![frame_of(&Message::String(String::from("b"))), ReadEvent::Failed],
        vec![ReadEvent::TimedOut],
    ];
    let outcomes = superchan::tcp::drive_connections::<Message>(&conns);
    assert_eq!(outcomes.len(), 3);
    assert_eq!(outcomes[0].0, vec![Message::Int(1)]);
    assert_eq!(outcomes[0].1, ConnEnd::Graceful);
    assert_eq!(outcomes[1].0, vec![Message::String(String::from("b"))]);
    assert_eq!(outcomes[1].1, ConnEnd::Faulted);
    assert_eq!(outcomes[2].0, vec![]);
    assert_eq!(outcomes[2].1, ConnEnd::StillOpen);
}

#[test]
fn scenario_single_client_sends_forty_two() {
    // A server accepts one client, which gets id 1 before any message is
    // handled; the client sends the integer 42; the handler replies with an
    // affirmative response, and the client's receive loop hands exactly
    // that response back.
    let mut reg = ClientRegistry::new();
    let client_id = reg.connect();
    assert_eq!(client_id, 1);

    let events = vec![frame_of(&Message::Int(42)), ReadEvent::Closed];
    let (delivered, end) = drive_connection::<Message>(&events);
    assert_eq!(delivered, vec![Message::Int(42)]);

    // the example handler: an integer message is in order
    let reply = match &delivered[0] {
        Message::Int(_) => Response::Okay,
        _ => Response::NotOkay,
    };
    let a = client_read_step::<Response>(&ReadEvent::Frame(reply.encode()));
    assert!(matches!(a, ClientReadAction::Publish(Ok(Response::Okay))));

    // the clean close disconnects the client exactly once
    assert_eq!(end, ConnEnd::Graceful);
    reg.disconnect(client_id);
    assert!(!reg.is_live(client_id));
}
