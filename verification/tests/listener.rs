use gio_futures::addr::{Endpoint, Protocol, SocketKind};
use gio_futures::connection::RawConnection;
use gio_futures::error::{AcceptError, BindError, ConnectError, StreamConversionError, ToolkitError};
use gio_futures::client::SocketClient;
use gio_futures::incoming::{AcceptEvent, IncomingPoll};
use gio_futures::listener::SocketListener;

fn pollable_raw() -> RawConnection {
    RawConnection {
        local: Some(Endpoint { host: 1, port: 12345 }),
        remote: Some(Endpoint { host: 2, port: 54321 }),
        input_pollable: true,
        output_pollable: true,
    }
}

#[test]
fn port_conflicts_are_bind_errors() {
    let mut l = SocketListener::new();
    assert_eq!(l.add_inet_port(12345), Ok(()));
    assert_eq!(l.add_inet_port(12345), Err(BindError::Conflict));
    assert_eq!(l.add_inet_port(12346), Ok(()));
}

#[test]
fn unsupported_combinations_are_bind_errors() {
    let mut l = SocketListener::new();
    let addr = Endpoint { host: 7, port: 80 };
    assert_eq!(
        l.add_address(addr, SocketKind::Stream, Protocol::Udp),
        Err(BindError::Unsupported)
    );
    assert_eq!(
        l.add_address(addr, SocketKind::Datagram, Protocol::Tcp),
        Err(BindError::Unsupported)
    );
    assert_eq!(l.add_address(addr, SocketKind::Stream, Protocol::Tcp), Ok(addr));
    assert_eq!(
        l.add_address(addr, SocketKind::Stream, Protocol::Default),
        Err(BindError::Conflict)
    );
}

#[test]
fn one_shot_accept_composes_or_surfaces_the_error() {
    let l = SocketListener::new();
    let conn = l.accept(Ok(pollable_raw())).unwrap();
    assert_eq!(conn.get_local_address(), Ok(Endpoint { host: 1, port: 12345 }));

    let err = l.accept(Err(ToolkitError { code: 5 })).unwrap_err();
    assert_eq!(err, AcceptError::Accept(ToolkitError { code: 5 }));

    let mut bad = pollable_raw();
    bad.input_pollable = false;
    let err = l.accept(Ok(bad)).unwrap_err();
    assert_eq!(err, AcceptError::Conversion(StreamConversionError::Input));
}

#[test]
fn incoming_starts_fresh() {
    let l = SocketListener::new();
    let inc = l.incoming();
    assert!(inc.needs_accept());
    assert_eq!(inc.accepts_started(), 0);
    assert_eq!(inc.accepts_finished(), 0);
}

#[test]
fn one_shot_accept_and_sequence_share_a_listener() {
    // Racing both against one accept queue is the caller's responsibility;
    // each path stays functional and composes its own outcome.
    let l = SocketListener::new();
    let mut inc = l.incoming();
    let one_shot = l.accept(Ok(pollable_raw())).unwrap();
    assert_eq!(one_shot.get_remote_address(), Ok(Endpoint { host: 2, port: 54321 }));
    let polled = inc.poll_next(AcceptEvent::Accepted(pollable_raw()));
    assert!(matches!(polled, IncomingPoll::Ready(Ok(_))));
    assert_eq!(inc.outstanding(), 0);
}

#[test]
fn connect_composes_or_surfaces_the_error() {
    let client = SocketClient::new();
    let conn = client.connect(Ok(pollable_raw())).unwrap();
    assert_eq!(conn.get_remote_address(), Ok(Endpoint { host: 2, port: 54321 }));

    let err = client.connect(Err(ToolkitError { code: 111 })).unwrap_err();
    assert_eq!(err, ConnectError::Connect(ToolkitError { code: 111 }));

    let mut bad = pollable_raw();
    bad.output_pollable = false;
    let err = client.connect(Ok(bad)).unwrap_err();
    assert_eq!(err, ConnectError::Conversion(StreamConversionError::Output));
}
