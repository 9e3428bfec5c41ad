use gio_futures::addr::Endpoint;
use gio_futures::connection::{compose, transfer, RawConnection, SocketConnection};
use gio_futures::error::{AddressError, StreamConversionError};
use gio_futures::stream::{ReadPoll, WritePoll};

fn pollable_raw(local: Option<Endpoint>, remote: Option<Endpoint>) -> RawConnection {
    RawConnection { local, remote, input_pollable: true, output_pollable: true }
}

fn connected_pair() -> (SocketConnection, SocketConnection) {
    let client_end = Endpoint { host: 10, port: 40000 };
    let server_end = Endpoint { host: 11, port: 12345 };
    let a = compose(pollable_raw(Some(client_end), Some(server_end))).unwrap();
    let b = compose(pollable_raw(Some(server_end), Some(client_end))).unwrap();
    (a, b)
}

#[test]
fn composition_requires_both_streams_pollable() {
    let mut raw = pollable_raw(None, None);
    raw.output_pollable = false;
    assert_eq!(compose(raw).unwrap_err(), StreamConversionError::Output);
    let mut raw = pollable_raw(None, None);
    raw.input_pollable = false;
    assert_eq!(compose(raw).unwrap_err(), StreamConversionError::Input);
    assert!(compose(pollable_raw(None, None)).is_ok());
}

#[test]
fn addresses_are_stable_for_the_connection_lifetime() {
    let local = Endpoint { host: 1, port: 2 };
    let remote = Endpoint { host: 3, port: 4 };
    let mut conn = compose(pollable_raw(Some(local), Some(remote))).unwrap();
    assert_eq!(conn.get_local_address(), Ok(local));
    assert_eq!(conn.get_remote_address(), Ok(remote));
    // Driving I/O does not disturb what the queries answer.
    conn.set_write_grant(1);
    let _ = conn.poll_write(&vec![9]);
    let _ = conn.poll_read(4);
    let _ = conn.poll_flush();
    assert_eq!(conn.get_local_address(), Ok(local));
    assert_eq!(conn.get_remote_address(), Ok(remote));
}

#[test]
fn unbound_handles_answer_address_errors() {
    let conn = compose(pollable_raw(None, None)).unwrap();
    assert_eq!(conn.get_local_address(), Err(AddressError {}));
    assert_eq!(conn.get_remote_address(), Err(AddressError {}));
}

#[test]
fn halves_are_independently_drivable() {
    let (mut a, _b) = connected_pair();
    // The write half is made ready while the read half has nothing queued.
    a.set_write_grant(4);
    assert!(matches!(a.poll_read(8), ReadPoll::Pending));
    match a.poll_write(&vec![1, 2, 3]) {
        WritePoll::Ready(n) => assert_eq!(n, 3),
        WritePoll::Pending => panic!("the write half was granted room"),
    }
    // The completed write leaves the read half still pending.
    assert!(matches!(a.poll_read(8), ReadPoll::Pending));
}

#[test]
fn round_trip_sums_partial_writes_and_reads() {
    let (mut a, mut b) = connected_pair();
    let payload: Vec<u8> = vec![10, 20, 30, 40, 50, 60];

    // Partial writes: the peer grants room in two steps.
    a.set_write_grant(4);
    let first = match a.poll_write(&payload) {
        WritePoll::Ready(n) => n,
        WritePoll::Pending => panic!("room was granted"),
    };
    assert_eq!(first, 4);
    let rest: Vec<u8> = payload[first..].to_vec();
    assert!(matches!(a.poll_write(&rest), WritePoll::Pending));
    a.set_write_grant(8);
    match a.poll_write(&rest) {
        WritePoll::Ready(n) => assert_eq!(n, 2),
        WritePoll::Pending => panic!("room was granted"),
    }

    transfer(&mut a, &mut b);

    // Partial reads resumed across polls sum to the full payload, in order.
    let mut got: Vec<u8> = Vec::new();
    for cap in [1usize, 2, 16] {
        match b.poll_read(cap) {
            ReadPoll::Ready(mut d) => got.append(&mut d),
            ReadPoll::Pending => panic!("bytes were queued"),
        }
    }
    assert_eq!(got, payload);
    assert!(matches!(b.poll_read(1), ReadPoll::Pending));
}

#[test]
fn transfer_carries_nothing_when_nothing_was_written() {
    let (mut a, mut b) = connected_pair();
    transfer(&mut a, &mut b);
    assert!(matches!(b.poll_read(4), ReadPoll::Pending));
}
