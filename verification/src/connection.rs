use vstd::prelude::*;

use crate::addr::Endpoint;
use crate::error::{AddressError, StreamConversionError};
use crate::stream::{
    FlushPoll, ReadHalf, ReadHalfView, ReadPoll, WriteHalf, WriteHalfView, WritePoll,
};

verus! {

/// A raw connection as the toolkit hands it over, reduced to what this
/// crate's logic reads of it: the two socket addresses, if bound, and
/// whether each of its streams can be converted into a pollable half.
#[derive(Clone, Copy, Debug, PartialEq, Eq)]
pub struct RawConnection {
    pub local: Option<Endpoint>,
    pub remote: Option<Endpoint>,
    pub input_pollable: bool,
    pub output_pollable: bool,
}

/// Whether both streams of a raw connection convert into pollable halves,
/// so that composition into a `SocketConnection` succeeds.
pub open spec fn composes(raw: RawConnection) -> bool {
    raw.output_pollable && raw.input_pollable
}

/// Which conversion a failing composition reports: the output stream is
/// converted first, so its failure wins.
pub open spec fn conversion_failure(raw: RawConnection) -> StreamConversionError {
    if !raw.output_pollable {
        StreamConversionError::Output
    } else {
        StreamConversionError::Input
    }
}

pub struct SocketConnectionView {
    pub connection: RawConnection,
    pub read: ReadHalfView,
    pub write: WriteHalfView,
}

/// The view a freshly composed connection has: the raw handle retained for
/// address queries, both halves empty and open.
pub open spec fn fresh_connection_view(raw: RawConnection) -> SocketConnectionView {
    SocketConnectionView {
        connection: raw,
        read: ReadHalfView { inbox: Seq::<u8>::empty(), eof: false },
        write: WriteHalfView { outbox: Seq::<u8>::empty(), grant: 0, closed: false },
    }
}

/// Where one read poll with capacity `max` leaves a connection: the front
/// of the read queue is consumed, and nothing else moves.
pub open spec fn read_step(v: SocketConnectionView, max: nat) -> SocketConnectionView {
    SocketConnectionView {
        connection: v.connection,
        read: ReadHalfView {
            inbox: crate::stream::read_rest(v.read.inbox, max),
            eof: v.read.eof,
        },
        write: v.write,
    }
}

/// Where one write poll of `buf` leaves a connection: the granted front of
/// `buf` joins the accepted bytes, the grant shrinks by as much, and
/// nothing else moves.
pub open spec fn write_step(v: SocketConnectionView, buf: Seq<u8>) -> SocketConnectionView {
    let n = crate::stream::write_len(v.write.grant, buf.len());
    SocketConnectionView {
        connection: v.connection,
        read: v.read,
        write: WriteHalfView {
            outbox: v.write.outbox + buf.take(n as int),
            grant: (v.write.grant - n) as nat,
            closed: v.write.closed,
        },
    }
}

/// A bidirectional connection: the raw handle, kept alive so address
/// queries stay valid, plus one read half and one write half over the same
/// underlying socket. Reads and writes forward to their half and never
/// touch the other, and no call buffers or reorders bytes.
#[derive(Debug)]
pub struct SocketConnection {
    connection: RawConnection,
    read: ReadHalf,
    write: WriteHalf,
}

impl View for SocketConnection {
    type V = SocketConnectionView;

    closed spec fn view(&self) -> SocketConnectionView {
        SocketConnectionView { connection: self.connection, read: self.read@, write: self.write@ }
    }
}

/// The one composition path from a raw connection to a `SocketConnection`,
/// shared by connect, one-shot accept and the incoming sequence: convert
/// the output stream, then the input stream, and keep the raw handle for
/// address queries. A connection exists exactly when both conversions
/// succeed.
pub fn compose(raw: RawConnection) -> (r: Result<SocketConnection, StreamConversionError>)
    ensures
        composes(raw) ==> (r matches Ok(c) && c@ == fresh_connection_view(raw)),
        !composes(raw) ==> r == Err::<SocketConnection, _>(conversion_failure(raw)),
{
    if !raw.output_pollable {
        Err(StreamConversionError::Output)
    } else if !raw.input_pollable {
        Err(StreamConversionError::Input)
    } else {
        Ok(SocketConnection { connection: raw, read: ReadHalf::new(), write: WriteHalf::new() })
    }
}

impl SocketConnection {
    /// The address of this side of the socket, read from the retained raw
    /// handle; an error exactly when no local address is bound.
    pub fn get_local_address(&self) -> (r: Result<Endpoint, AddressError>)
        ensures
            self@.connection.local matches Some(e) ==> r == Ok::<_, AddressError>(e),
            self@.connection.local is None ==> r == Err::<Endpoint, _>(AddressError {}),
    {
        match self.connection.local {
            Some(e) => Ok(e),
            None => Err(AddressError {}),
        }
    }

    /// The peer's address, read from the retained raw handle; an error
    /// exactly when no remote address is bound.
    pub fn get_remote_address(&self) -> (r: Result<Endpoint, AddressError>)
        ensures
            self@.connection.remote matches Some(e) ==> r == Ok::<_, AddressError>(e),
            self@.connection.remote is None ==> r == Err::<Endpoint, _>(AddressError {}),
    {
        match self.connection.remote {
            Some(e) => Ok(e),
            None => Err(AddressError {}),
        }
    }

    /// One read poll, forwarded to the read half. The write half and the
    /// raw handle are untouched, so writes stay independently drivable and
    /// address answers stable.
    pub fn poll_read(&mut self, max: usize) -> (r: ReadPoll)
        ensures
            final(self)@ == read_step(old(self)@, max as nat),
            final(self)@.connection == old(self)@.connection,
            final(self)@.write == old(self)@.write,
            final(self)@.read.eof == old(self)@.read.eof,
            old(self)@.read.inbox.len() == 0 && !old(self)@.read.eof ==> r is Pending && final(self)@ == old(self)@,
            old(self)@.read.inbox.len() == 0 && old(self)@.read.eof ==> (r
                matches ReadPoll::Ready(d) && d@ == Seq::<u8>::empty()) && final(self)@ == old(self)@,
            old(self)@.read.inbox.len() > 0 ==> (r matches ReadPoll::Ready(d) && d@
                == crate::stream::read_chunk(old(self)@.read.inbox, max as nat)) && final(self)@.read.inbox == crate::stream::read_rest(old(self)@.read.inbox, max as nat),
    {
        let r = self.read.poll_read(max);
        proof {
            assert(self@.read.inbox =~= crate::stream::read_rest(old(self)@.read.inbox, max as nat));
        }
        r
    }

    /// One write poll, forwarded to the write half. The read half and the
    /// raw handle are untouched.
    pub fn poll_write(&mut self, buf: &Vec<u8>) -> (r: WritePoll)
        requires
            !old(self)@.write.closed,
        ensures
            final(self)@ == write_step(old(self)@, buf@),
            final(self)@.connection == old(self)@.connection,
            final(self)@.read == old(self)@.read,
            !final(self)@.write.closed,
            old(self)@.write.grant == 0 ==> r is Pending && final(self)@ == old(self)@,
            old(self)@.write.grant > 0 ==> (r matches WritePoll::Ready(n) && n as nat
                == crate::stream::write_len(old(self)@.write.grant, buf@.len()) && final(self)@.write.outbox == old(self)@.write.outbox + buf@.take(n as int) && final(self)@.write.grant == old(self)@.write.grant - n as nat),
    {
        let r = self.write.poll_write(buf);
        proof {
            assert(self@.write.outbox =~= old(self)@.write.outbox + buf@.take(
                crate::stream::write_len(old(self)@.write.grant, buf@.len()) as int,
            ));
        }
        r
    }

    /// One flush poll, forwarded to the write half only; the read side has
    /// no flush. Nothing is buffered, so it completes at once.
    pub fn poll_flush(&mut self) -> (r: FlushPoll)
        ensures
            final(self)@ == old(self)@,
            r == FlushPoll::Ready,
    {
        self.write.poll_flush()
    }

    /// One close poll, forwarded to the write half only; the read side is
    /// drained, not closed, by this layer.
    pub fn poll_close(&mut self) -> (r: FlushPoll)
        ensures
            final(self)@.connection == old(self)@.connection,
            final(self)@.read == old(self)@.read,
            final(self)@.write.outbox == old(self)@.write.outbox,
            final(self)@.write.grant == old(self)@.write.grant,
            final(self)@.write.closed,
            r == FlushPoll::Ready,
    {
        self.write.poll_close()
    }

    /// Test-double knob: the peer delivered `data` to this connection's
    /// read half.
    pub fn deliver(&mut self, data: &Vec<u8>)
        requires
            !old(self)@.read.eof,
        ensures
            final(self)@.connection == old(self)@.connection,
            final(self)@.write == old(self)@.write,
            final(self)@.read.inbox == old(self)@.read.inbox + data@,
            !final(self)@.read.eof,
    {
        self.read.deliver(data)
    }

    /// Test-double knob: the peer closed its writing end.
    pub fn mark_eof(&mut self)
        ensures
            final(self)@.connection == old(self)@.connection,
            final(self)@.write == old(self)@.write,
            final(self)@.read.inbox == old(self)@.read.inbox,
            final(self)@.read.eof,
    {
        self.read.mark_eof()
    }

    /// Test-double knob: the readiness source grants room for `n` bytes on
    /// the write half.
    pub fn set_write_grant(&mut self, n: usize)
        ensures
            final(self)@.connection == old(self)@.connection,
            final(self)@.read == old(self)@.read,
            final(self)@.write.outbox == old(self)@.write.outbox,
            final(self)@.write.grant == n as nat,
            final(self)@.write.closed == old(self)@.write.closed,
    {
        self.write.set_grant(n)
    }

    /// Test-double knob: drains the bytes this connection's writes have
    /// been accepted for, in order.
    pub fn take_written(&mut self) -> (r: Vec<u8>)
        ensures
            final(self)@.connection == old(self)@.connection,
            final(self)@.read == old(self)@.read,
            r@ == old(self)@.write.outbox,
            final(self)@.write.outbox == Seq::<u8>::empty(),
            final(self)@.write.grant == old(self)@.write.grant,
            final(self)@.write.closed == old(self)@.write.closed,
    {
        self.write.take_written()
    }
}

/// The model network: carries every byte `from`'s writes have been accepted
/// for over to `to`'s read queue, in order, leaving everything else — both
/// raw handles, `from`'s read side, `to`'s write side — untouched.
pub fn transfer(from: &mut SocketConnection, to: &mut SocketConnection)
    requires
        !old(to)@.read.eof,
    ensures
        final(from)@.connection == old(from)@.connection,
        final(from)@.read == old(from)@.read,
        final(from)@.write.outbox == Seq::<u8>::empty(),
        final(from)@.write.grant == old(from)@.write.grant,
        final(from)@.write.closed == old(from)@.write.closed,
        final(to)@.connection == old(to)@.connection,
        final(to)@.write == old(to)@.write,
        final(to)@.read.inbox == old(to)@.read.inbox + old(from)@.write.outbox,
        !final(to)@.read.eof,
{
    let data = from.take_written();
    to.deliver(&data);
}

/// Law: the two halves of one connection are independently drivable. A
/// read poll and a write poll touch only their own half and never the raw
/// handle, so driving them in either order leaves the connection in the
/// same state — one half making progress cannot interfere with the other.
pub proof fn lemma_halves_independent(v: SocketConnectionView, max: nat, buf: Seq<u8>)
    ensures
        read_step(v, max).write == v.write,
        read_step(v, max).connection == v.connection,
        write_step(v, buf).read == v.read,
        write_step(v, buf).connection == v.connection,
        read_step(write_step(v, buf), max) == write_step(read_step(v, max), buf),
{
}

} // verus!
