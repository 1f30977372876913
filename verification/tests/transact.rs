//! End-to-end transactions against a synthetic peer on a loopback socket.
//!
//! The peer is driven from the same thread: the response is written into the
//! socket buffer before the client transacts, which works because a response
//! does not depend on the request bytes.

use std::io::{Read, Write};

use nanonis_rs::{ConnectionConfig, NanonisClient, NanonisError, TypeCode};

fn short_timeouts() -> ConnectionConfig {
    ConnectionConfig {
        connect_timeout_ms: Some(2000),
        read_timeout_ms: Some(100),
        write_timeout_ms: Some(2000),
    }
}

/// A connected client and the socket playing the instrument's side.
fn client_and_peer() -> (NanonisClient, socket2::Socket) {
    let (ours, peer) =
        socket2::Socket::pair(socket2::Domain::UNIX, socket2::Type::STREAM, None).unwrap();
    ours.set_read_timeout(Some(core::time::Duration::from_millis(100))).unwrap();
    ours.set_write_timeout(Some(core::time::Duration::from_millis(2000))).unwrap();
    (NanonisClient::from_socket(ours, short_timeouts()), peer)
}

/// A response: a 40-byte header whose body-length field sits at offset 32,
/// then the body.
fn response_bytes(body: &[u8]) -> Vec<u8> {
    let mut msg = vec![0u8; 32];
    msg.extend_from_slice(&(body.len() as u32).to_be_bytes());
    msg.extend_from_slice(&[0, 0, 0, 0]);
    msg.extend_from_slice(body);
    msg
}

fn prefixed(s: &str) -> Vec<u8> {
    let mut out = (s.len() as u32).to_be_bytes().to_vec();
    out.extend_from_slice(s.as_bytes());
    out
}

#[test]
fn server_error_is_surfaced_without_result_decoding() {
    let (mut client, peer) = client_and_peer();

    // synthetic response: status 7, message "Invalid parameter", no results
    let mut body = 7u32.to_be_bytes().to_vec();
    body.extend_from_slice(&prefixed("Invalid parameter"));
    (&peer).write_all(&response_bytes(&body)).unwrap();

    let r = client.transact(
        "Bias.Get",
        vec![],
        vec![],
        vec![TypeCode::F32],
    );
    match r {
        Err(NanonisError::Server { code, message }) => {
            assert_eq!(code, 7);
            assert_eq!(message, "Invalid parameter");
        }
        other => panic!("expected a server error, got {:?}", other),
    }
}

#[test]
fn version_get_end_to_end() {
    let (mut client, peer) = client_and_peer();

    // status 0, then ("Generic 5", "Nanonis SPM Control Software", 15202, 7801)
    let mut body = 0u32.to_be_bytes().to_vec();
    body.extend_from_slice(&prefixed("Generic 5"));
    body.extend_from_slice(&prefixed("Nanonis SPM Control Software"));
    body.extend_from_slice(&15202u32.to_be_bytes());
    body.extend_from_slice(&7801u32.to_be_bytes());
    (&peer).write_all(&response_bytes(&body)).unwrap();

    let result_codes: Vec<TypeCode> = ["+*c", "+*c", "I", "I"]
        .iter()
        .map(|s| TypeCode::parse(s).unwrap())
        .collect();
    let vals = client
        .transact("Util.VersionGet", vec![], vec![], result_codes)
        .unwrap();
    assert_eq!(vals.len(), 4);
    assert_eq!(vals[0].as_string().unwrap().as_str(), "Generic 5");
    assert_eq!(vals[1].as_string().unwrap().as_str(), "Nanonis SPM Control Software");
    assert_eq!(vals[2].as_u32().unwrap(), 15202);
    assert_eq!(vals[3].as_u32().unwrap(), 7801);

    // the request that went out: 40-byte header, zero-length body
    let mut req = vec![0u8; 40];
    (&peer).read_exact(&mut req).unwrap();
    assert_eq!(&req[0..15], b"Util.VersionGet");
    assert!(req[15..32].iter().all(|b| *b == 0));
    assert_eq!(&req[32..36], &[0, 0, 0, 0]); // empty body
    assert_eq!(&req[36..38], &[0, 1]); // response requested
}

#[test]
fn timeout_is_bounded() {
    let (mut client, _peer) = client_and_peer();

    // the peer never answers: a read deadline of 100ms must fire
    let start = std::time::Instant::now();
    let r = client.transact("Util.SessionPathGet", vec![], vec![], vec![TypeCode::U32]);
    let elapsed = start.elapsed();
    assert!(matches!(r, Err(NanonisError::Timeout(_))), "got {:?}", r);
    assert!(elapsed.as_millis() >= 50, "returned too early: {:?}", elapsed);
    assert!(elapsed.as_millis() < 5000, "returned too late: {:?}", elapsed);
}

#[test]
fn fire_and_forget_awaits_no_response() {
    let (mut client, peer) = client_and_peer();

    // no result codes: the call returns after the write, with no values
    let vals = client
        .transact(
            "BiasSpectr.Stop",
            vec![],
            vec![],
            vec![],
        )
        .unwrap();
    assert_eq!(vals.len(), 0);

    let mut req = vec![0u8; 40];
    (&peer).read_exact(&mut req).unwrap();
    assert_eq!(&req[0..15], b"BiasSpectr.Stop");
    assert_eq!(&req[36..38], &[0, 0]); // no response requested
}

#[test]
fn wrapper_method_end_to_end() {
    let (mut client, peer) = client_and_peer();

    // AtomTrack.StatusGet answers one u16: enabled
    let mut body = 0u32.to_be_bytes().to_vec();
    body.extend_from_slice(&1u16.to_be_bytes());
    (&peer).write_all(&response_bytes(&body)).unwrap();

    let on = client
        .atom_track_status_get(nanonis_rs::client::atom_track::ATControl::Controller)
        .unwrap();
    assert!(on);

    let mut req = vec![0u8; 40 + 2];
    (&peer).read_exact(&mut req).unwrap();
    assert_eq!(&req[0..19], b"AtomTrack.StatusGet");
    assert_eq!(&req[32..36], &[0, 0, 0, 2]); // one u16 argument
    assert_eq!(&req[40..42], &[0, 1]); // ATControl::Controller
}

#[test]
fn oversized_response_message_is_a_protocol_error() {
    let (mut client, peer) = client_and_peer();

    // nonzero status whose message length prefix is negative
    let mut body = 3u32.to_be_bytes().to_vec();
    body.extend_from_slice(&[0x80, 0, 0, 0]);
    (&peer).write_all(&response_bytes(&body)).unwrap();

    let r = client.transact("Scan.Action", vec![], vec![], vec![TypeCode::U16]);
    assert!(matches!(r, Err(NanonisError::Protocol(_))), "got {:?}", r);
}

#[test]
fn non_ip_host_is_rejected() {
    let r = NanonisClient::connect("not-an-address", 6501, short_timeouts());
    assert!(matches!(r, Err(NanonisError::InvalidInput(_))));
}

#[test]
fn closed_peer_is_an_io_error() {
    let (mut client, peer) = client_and_peer();
    drop(peer);
    let r = client.transact("Util.VersionGet", vec![], vec![], vec![TypeCode::U32]);
    assert!(matches!(r, Err(NanonisError::Io(_))), "got {:?}", r);
}
