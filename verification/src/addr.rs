use vstd::prelude::*;

verus! {

/// A socket address as this crate models it: an IPv4-style host number and a
/// port. The toolkit's own address objects are opaque; the glue around this
/// crate converts between them and this plain form.
#[derive(Clone, Copy, Debug, PartialEq, Eq, Structural)]
pub struct Endpoint {
    pub host: u32,
    pub port: u16,
}

/// The socket types a listener address can be registered with.
#[derive(Clone, Copy, Debug, PartialEq, Eq, Structural)]
pub enum SocketKind {
    Stream,
    Datagram,
    Seqpacket,
}

/// The transport protocols a listener address can be registered with.
#[derive(Clone, Copy, Debug, PartialEq, Eq, Structural)]
pub enum Protocol {
    Default,
    Tcp,
    Udp,
}

/// Which socket-type/protocol pairs a listener accepts: TCP only goes with
/// stream sockets, UDP only with datagram sockets, and the default protocol
/// goes with anything.
pub open spec fn combination_supported(kind: SocketKind, protocol: Protocol) -> bool {
    match (kind, protocol) {
        (_, Protocol::Default) => true,
        (SocketKind::Stream, Protocol::Tcp) => true,
        (SocketKind::Datagram, Protocol::Udp) => true,
        _ => false,
    }
}

} // verus!
