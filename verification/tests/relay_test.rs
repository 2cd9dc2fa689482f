use tproxy::relay::{DirAction, DirStatus, ReadEvent, RelayError, Session};

fn forwarded_bytes(act: DirAction) -> Vec<u8> {
    match act {
        DirAction::Forward(bytes) => bytes,
        _ => panic!("expected the bytes to be forwarded"),
    }
}

#[test]
fn ping_round_trip() {
    let mut session = Session::new();
    // The client sends "ping"; the relay forwards it to the server verbatim.
    let to_server = forwarded_bytes(session.on_client_read(ReadEvent::Data(b"ping".to_vec())));
    assert_eq!(to_server, b"ping".to_vec());
    // The echo server sends the same bytes back; the relay forwards them to
    // the client unchanged.
    let to_client = forwarded_bytes(session.on_server_read(ReadEvent::Data(to_server)));
    assert_eq!(to_client, b"ping".to_vec());
    session.on_client_read(ReadEvent::Eof);
    session.on_server_read(ReadEvent::Eof);
    assert!(session.finished());
    assert_eq!(session.outcome(), Ok(()));
}

#[test]
fn bytes_are_relayed_in_order() {
    let mut session = Session::new();
    let first = forwarded_bytes(session.on_client_read(ReadEvent::Data(vec![1, 2, 3])));
    let second = forwarded_bytes(session.on_client_read(ReadEvent::Data(vec![4, 5])));
    let mut all = first;
    all.extend(second);
    assert_eq!(all, vec![1, 2, 3, 4, 5]);
}

#[test]
fn half_close_shuts_down_the_far_write_half() {
    let mut session = Session::new();
    let act = session.on_client_read(ReadEvent::Eof);
    assert!(matches!(act, DirAction::ShutdownWrite));
    assert_eq!(session.client_to_server.status, DirStatus::Closed);
    // The reverse direction is untouched and still flowing.
    assert_eq!(session.server_to_client.status, DirStatus::Streaming);
}

#[test]
fn client_still_receives_after_half_close() {
    let mut session = Session::new();
    session.on_client_read(ReadEvent::Eof);
    // The server keeps sending after the client half-closed; the bytes still
    // reach the client.
    let late = forwarded_bytes(session.on_server_read(ReadEvent::Data(b"tail".to_vec())));
    assert_eq!(late, b"tail".to_vec());
    session.on_server_read(ReadEvent::Eof);
    assert!(session.finished());
    assert_eq!(session.outcome(), Ok(()));
}

#[test]
fn read_error_aborts_and_names_the_direction() {
    let mut session = Session::new();
    let act = session.on_client_read(ReadEvent::ReadError);
    assert!(matches!(act, DirAction::Abort));
    session.on_server_read(ReadEvent::Eof);
    assert!(session.finished());
    assert_eq!(session.outcome(), Err(RelayError::ClientToServer));

    let mut other = Session::new();
    other.on_client_read(ReadEvent::Eof);
    other.on_server_read(ReadEvent::ReadError);
    assert_eq!(other.outcome(), Err(RelayError::ServerToClient));
}

#[test]
fn sessions_do_not_interfere() {
    // Two concurrent sessions relay independently: what one carries never
    // shows up in the other.
    let mut a = Session::new();
    let mut b = Session::new();
    let from_a = forwarded_bytes(a.on_client_read(ReadEvent::Data(b"aaa".to_vec())));
    let from_b = forwarded_bytes(b.on_client_read(ReadEvent::Data(b"bbb".to_vec())));
    assert_eq!(from_a, b"aaa".to_vec());
    assert_eq!(from_b, b"bbb".to_vec());
    a.on_client_read(ReadEvent::ReadError);
    // Session a failed; session b still completes cleanly.
    b.on_client_read(ReadEvent::Eof);
    b.on_server_read(ReadEvent::Eof);
    assert_eq!(b.outcome(), Ok(()));
}
