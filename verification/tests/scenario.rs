use gio_futures::addr::Endpoint;
use gio_futures::client::SocketClient;
use gio_futures::connection::{transfer, RawConnection};
use gio_futures::incoming::{AcceptEvent, IncomingPoll};
use gio_futures::listener::SocketListener;
use gio_futures::stream::{ReadPoll, WritePoll};

#[test]
fn bind_connect_accept_write_read() {
    let server_end = Endpoint { host: 1, port: 12345 };
    let client_end = Endpoint { host: 2, port: 49152 };

    let mut listener = SocketListener::new();
    listener.add_inet_port(12345).unwrap();

    // The toolkit establishes the connection; both sides hand over raw
    // connections whose streams are pollable.
    let client = SocketClient::new();
    let mut client_conn = client
        .connect(Ok(RawConnection {
            local: Some(client_end),
            remote: Some(server_end),
            input_pollable: true,
            output_pollable: true,
        }))
        .unwrap();

    let mut incoming = listener.incoming();
    assert!(incoming.needs_accept());
    let mut server_conn = match incoming.poll_next(AcceptEvent::Accepted(RawConnection {
        local: Some(server_end),
        remote: Some(client_end),
        input_pollable: true,
        output_pollable: true,
    })) {
        IncomingPoll::Ready(Ok(conn)) => conn,
        _ => panic!("the accept completed"),
    };

    // The accepted side writes four bytes.
    server_conn.set_write_grant(4);
    match server_conn.poll_write(&b"test".to_vec()) {
        WritePoll::Ready(n) => assert_eq!(n, 4),
        WritePoll::Pending => panic!("four bytes were granted"),
    }
    transfer(&mut server_conn, &mut client_conn);

    // The client reads exactly those four bytes back.
    match client_conn.poll_read(4) {
        ReadPoll::Ready(d) => assert_eq!(d, b"test".to_vec()),
        ReadPoll::Pending => panic!("bytes were queued"),
    }

    // The connection stays open, so a further read is pending, not zero.
    assert!(matches!(client_conn.poll_read(4), ReadPoll::Pending));

    // Nothing stays in flight once the sequence is dropped.
    incoming.cancel();
    assert_eq!(incoming.outstanding(), 0);
}
