use vstd::prelude::*;

use crate::addr::{combination_supported, Endpoint, Protocol, SocketKind};
use crate::connection::{
    compose, composes, conversion_failure, fresh_connection_view, RawConnection, SocketConnection,
};
use crate::error::{AcceptError, BindError, ToolkitError};
use crate::incoming::{Incoming, IncomingView};

verus! {

pub struct SocketListenerView {
    pub ports: Seq<u16>,
    pub addresses: Seq<Endpoint>,
}

/// The accept side of the adapter. It keeps the book of what it has been
/// bound to — the toolkit holds the sockets themselves — and owns the
/// decisions around accepting: refusing conflicting or unsupported binds,
/// composing an accepted raw connection, and handing out the incoming
/// sequence. The listener stays independently usable while a sequence
/// drawn from it is alive.
pub struct SocketListener {
    ports: Vec<u16>,
    addresses: Vec<Endpoint>,
}

impl View for SocketListener {
    type V = SocketListenerView;

    closed spec fn view(&self) -> SocketListenerView {
        SocketListenerView { ports: self.ports@, addresses: self.addresses@ }
    }
}

impl SocketListener {
    /// A fresh listener with nothing bound.
    pub fn new() -> (r: SocketListener)
        ensures
            r@.ports == Seq::<u16>::empty(),
            r@.addresses == Seq::<Endpoint>::empty(),
    {
        SocketListener { ports: Vec::new(), addresses: Vec::new() }
    }

    /// Registers a TCP port on every local interface. A port already
    /// registered with this listener is a conflict and changes nothing;
    /// otherwise the port is recorded.
    pub fn add_inet_port(&mut self, port: u16) -> (r: Result<(), BindError>)
        ensures
            old(self)@.ports.contains(port) ==> r == Err::<(), _>(BindError::Conflict) && final(self)@ == old(self)@,
            !old(self)@.ports.contains(port) ==> r == Ok::<_, BindError>(()) && final(self)@.ports
                == old(self)@.ports.push(port) && final(self)@.addresses == old(self)@.addresses,
    {
        let mut i: usize = 0;
        while i < self.ports.len()
            invariant
                i <= self.ports@.len(),
                self@ == old(self)@,
                forall|k: int| 0 <= k < i ==> self.ports@[k] != port,
            decreases self.ports@.len() - i,
        {
            if self.ports[i] == port {
                return Err(BindError::Conflict);
            }
            i = i + 1;
        }
        self.ports.push(port);
        Ok(())
    }

    /// Registers an explicit address with a socket type and protocol. An
    /// unsupported type/protocol combination is refused first; an address
    /// already registered is a conflict; otherwise the address is recorded
    /// and handed back as the effective address.
    pub fn add_address(&mut self, address: Endpoint, kind: SocketKind, protocol: Protocol) -> (r:
        Result<Endpoint, BindError>)
        ensures
            !combination_supported(kind, protocol) ==> r == Err::<Endpoint, _>(
                BindError::Unsupported,
            ) && final(self)@ == old(self)@,
            combination_supported(kind, protocol) && old(self)@.addresses.contains(address) ==> r
                == Err::<Endpoint, _>(BindError::Conflict) && final(self)@ == old(self)@,
            combination_supported(kind, protocol) && !old(self)@.addresses.contains(address) ==> r
                == Ok::<_, BindError>(address) && final(self)@.addresses == old(self)@.addresses.push(address) && final(self)@.ports == old(self)@.ports,
    {
        let supported = match (kind, protocol) {
            (_, Protocol::Default) => true,
            (SocketKind::Stream, Protocol::Tcp) => true,
            (SocketKind::Datagram, Protocol::Udp) => true,
            _ => false,
        };
        proof {
            assert(supported == combination_supported(kind, protocol));
        }
        if !supported {
            return Err(BindError::Unsupported);
        }
        let mut i: usize = 0;
        while i < self.addresses.len()
            invariant
                i <= self.addresses@.len(),
                self@ == old(self)@,
                combination_supported(kind, protocol),
                forall|k: int| 0 <= k < i ==> self.addresses@[k] != address,
            decreases self.addresses@.len() - i,
        {
            if self.addresses[i] == address {
                return Err(BindError::Conflict);
            }
            i = i + 1;
        }
        self.addresses.push(address);
        Ok(address)
    }

    /// Completes one one-shot accept from the toolkit's outcome. A failed
    /// accept surfaces the toolkit's error; a raw connection goes through
    /// the same composition path as connect and the incoming sequence.
    pub fn accept(&self, outcome: Result<RawConnection, ToolkitError>) -> (r: Result<
        SocketConnection,
        AcceptError,
    >)
        ensures
            outcome matches Err(e) ==> r == Err::<SocketConnection, _>(AcceptError::Accept(e)),
            outcome matches Ok(raw) ==> (composes(raw) ==> (r matches Ok(c) && c@
                == fresh_connection_view(raw))),
            outcome matches Ok(raw) ==> (!composes(raw) ==> r == Err::<SocketConnection, _>(
                AcceptError::Conversion(conversion_failure(raw)),
            )),
    {
        match outcome {
            Err(e) => Err(AcceptError::Accept(e)),
            Ok(raw) => match compose(raw) {
                Ok(c) => Ok(c),
                Err(f) => Err(AcceptError::Conversion(f)),
            },
        }
    }

    /// A fresh incoming sequence over this listener: no accept in flight,
    /// counters at zero. The listener is borrowed, not consumed, and stays
    /// usable on its own.
    pub fn incoming(&self) -> (r: Incoming)
        ensures
            r@ == (IncomingView { pending: false, started: 0nat, finished: 0nat }),
            r@.wf(),
    {
        Incoming::new()
    }
}

} // verus!
