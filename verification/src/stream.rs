use vstd::prelude::*;

verus! {

/// What one poll of a read half reports: either no byte is available yet and
/// the caller will be woken later, or a chunk of bytes is ready. An empty
/// ready chunk signals end-of-stream.
#[derive(Debug)]
pub enum ReadPoll {
    Pending,
    Ready(Vec<u8>),
}

/// What one poll of a write half reports: either the peer cannot take bytes
/// yet, or the count of bytes it accepted from the front of the buffer.
#[derive(Clone, Copy, Debug, PartialEq, Eq, Structural)]
pub enum WritePoll {
    Pending,
    Ready(usize),
}

/// What one poll of a flush or close reports.
#[derive(Clone, Copy, Debug, PartialEq, Eq, Structural)]
pub enum FlushPoll {
    Pending,
    Ready,
}

/// How many bytes one read with capacity `max` takes from a queue of length
/// `inbox.len()`.
pub open spec fn chunk_len(inbox: Seq<u8>, max: nat) -> nat {
    if max < inbox.len() {
        max
    } else {
        inbox.len()
    }
}

/// The bytes one read with capacity `max` returns: the front of the queue.
pub open spec fn read_chunk(inbox: Seq<u8>, max: nat) -> Seq<u8> {
    inbox.take(chunk_len(inbox, max) as int)
}

/// The bytes such a read leaves queued.
pub open spec fn read_rest(inbox: Seq<u8>, max: nat) -> Seq<u8> {
    inbox.skip(chunk_len(inbox, max) as int)
}

/// How many bytes one write poll accepts when the readiness source grants
/// `grant` bytes and the buffer holds `len`.
pub open spec fn write_len(grant: nat, len: nat) -> nat {
    if len < grant {
        len
    } else {
        grant
    }
}

/// The read-only half of a connection, modelled at the level the adapter
/// relies on: a queue of bytes the peer has delivered but the local side has
/// not consumed, and whether the peer has closed its writing end.
#[derive(Debug)]
pub struct ReadHalf {
    inbox: Vec<u8>,
    eof: bool,
}

pub struct ReadHalfView {
    pub inbox: Seq<u8>,
    pub eof: bool,
}

impl View for ReadHalf {
    type V = ReadHalfView;

    closed spec fn view(&self) -> ReadHalfView {
        ReadHalfView { inbox: self.inbox@, eof: self.eof }
    }
}

impl ReadHalf {
    /// A fresh read half: nothing delivered, stream open.
    pub fn new() -> (r: ReadHalf)
        ensures
            r@.inbox == Seq::<u8>::empty(),
            !r@.eof,
    {
        ReadHalf { inbox: Vec::new(), eof: false }
    }

    /// The peer delivered `data`: it is queued after everything already
    /// delivered, in order.
    pub fn deliver(&mut self, data: &Vec<u8>)
        requires
            !old(self)@.eof,
        ensures
            final(self)@.inbox == old(self)@.inbox + data@,
            !final(self)@.eof,
    {
        let ghost orig = self.inbox@;
        let mut i: usize = 0;
        while i < data.len()
            invariant
                i <= data.len(),
                self.inbox@ == orig + data@.take(i as int),
                self.eof == false,
            decreases data.len() - i,
        {
            let b = data[i];
            self.inbox.push(b);
            proof {
                assert(orig + data@.take(i as int) + seq![b] =~= orig + data@.take(i + 1));
            }
            i = i + 1;
        }
        proof {
            assert(orig + data@.take(data@.len() as int) =~= orig + data@);
        }
    }

    /// The peer closed its writing end: once the queue is drained, reads
    /// report end-of-stream instead of staying pending.
    pub fn mark_eof(&mut self)
        ensures
            final(self)@.inbox == old(self)@.inbox,
            final(self)@.eof,
    {
        self.eof = true;
    }

    /// One read poll with room for `max` bytes. With bytes queued it returns
    /// the front of the queue, up to `max`, and unqueues them; with nothing
    /// queued it is pending while the stream is open and returns an empty
    /// chunk (end-of-stream) once the peer has closed.
    pub fn poll_read(&mut self, max: usize) -> (r: ReadPoll)
        ensures
            final(self)@.eof == old(self)@.eof,
            old(self)@.inbox.len() == 0 && !old(self)@.eof ==> r is Pending && final(self)@
                == old(self)@,
            old(self)@.inbox.len() == 0 && old(self)@.eof ==> (r matches ReadPoll::Ready(d) && d@
                == Seq::<u8>::empty()) && final(self)@ == old(self)@,
            old(self)@.inbox.len() > 0 ==> (r matches ReadPoll::Ready(d) && d@ == read_chunk(
                old(self)@.inbox,
                max as nat,
            )) && final(self)@.inbox == read_rest(old(self)@.inbox, max as nat),
    {
        if self.inbox.len() == 0 {
            if self.eof {
                ReadPoll::Ready(Vec::new())
            } else {
                ReadPoll::Pending
            }
        } else {
            let ghost orig = self.inbox@;
            let n: usize = if max < self.inbox.len() {
                max
            } else {
                self.inbox.len()
            };
            let mut data: Vec<u8> = Vec::new();
            let mut i: usize = 0;
            while i < n
                invariant
                    i <= n,
                    n as nat == chunk_len(orig, max as nat),
                    n <= orig.len(),
                    self.inbox@ == orig,
                    data@ == orig.take(i as int),
                decreases n - i,
            {
                let b = self.inbox[i];
                data.push(b);
                proof {
                    assert(orig.take(i as int) + seq![b] =~= orig.take(i + 1));
                }
                i = i + 1;
            }
            let mut rest: Vec<u8> = Vec::new();
            let mut j: usize = n;
            while j < self.inbox.len()
                invariant
                    n <= j <= orig.len(),
                    self.inbox@ == orig,
                    rest@ == orig.subrange(n as int, j as int),
                decreases orig.len() - j,
            {
                let b = self.inbox[j];
                rest.push(b);
                proof {
                    assert(orig.subrange(n as int, j as int) + seq![b] =~= orig.subrange(
                        n as int,
                        j + 1,
                    ));
                }
                j = j + 1;
            }
            self.inbox = rest;
            proof {
                assert(orig.subrange(n as int, orig.len() as int) =~= orig.skip(n as int));
            }
            ReadPoll::Ready(data)
        }
    }
}

/// The write-only half of a connection: the bytes the socket has accepted
/// but the model network has not yet carried to the peer, the byte budget
/// the readiness source currently grants, and whether this end was closed.
#[derive(Debug)]
pub struct WriteHalf {
    outbox: Vec<u8>,
    grant: usize,
    closed: bool,
}

pub struct WriteHalfView {
    pub outbox: Seq<u8>,
    pub grant: nat,
    pub closed: bool,
}

impl View for WriteHalf {
    type V = WriteHalfView;

    closed spec fn view(&self) -> WriteHalfView {
        WriteHalfView { outbox: self.outbox@, grant: self.grant as nat, closed: self.closed }
    }
}

impl WriteHalf {
    /// A fresh write half: nothing accepted, no readiness granted, open.
    pub fn new() -> (r: WriteHalf)
        ensures
            r@.outbox == Seq::<u8>::empty(),
            r@.grant == 0,
            !r@.closed,
    {
        WriteHalf { outbox: Vec::new(), grant: 0, closed: false }
    }

    /// The readiness source now grants room for `n` bytes; a grant of zero
    /// makes the next write poll pending.
    pub fn set_grant(&mut self, n: usize)
        ensures
            final(self)@.outbox == old(self)@.outbox,
            final(self)@.grant == n as nat,
            final(self)@.closed == old(self)@.closed,
    {
        self.grant = n;
    }

    /// One write poll. With no grant it is pending; otherwise it accepts the
    /// front of `buf`, up to the grant, appends it to the accepted bytes and
    /// uses up that much of the grant. Writing on a closed half is a caller
    /// error and is excluded.
    pub fn poll_write(&mut self, buf: &Vec<u8>) -> (r: WritePoll)
        requires
            !old(self)@.closed,
        ensures
            !final(self)@.closed,
            old(self)@.grant == 0 ==> r is Pending && final(self)@ == old(self)@,
            old(self)@.grant > 0 ==> (r matches WritePoll::Ready(n) && n as nat == write_len(
                old(self)@.grant,
                buf@.len(),
            ) && final(self)@.outbox == old(self)@.outbox + buf@.take(n as int)
                && final(self)@.grant == old(self)@.grant - n as nat),
    {
        if self.grant == 0 {
            WritePoll::Pending
        } else {
            let ghost orig = self.outbox@;
            let n: usize = if buf.len() < self.grant {
                buf.len()
            } else {
                self.grant
            };
            let mut i: usize = 0;
            while i < n
                invariant
                    i <= n,
                    n <= buf@.len(),
                    self.outbox@ == orig + buf@.take(i as int),
                    self.closed == false,
                    self.grant == old(self).grant,
                    n as nat == write_len(old(self)@.grant, buf@.len()),
                    n <= self.grant,
                decreases n - i,
            {
                let b = buf[i];
                self.outbox.push(b);
                proof {
                    assert(orig + buf@.take(i as int) + seq![b] =~= orig + buf@.take(i + 1));
                }
                i = i + 1;
            }
            self.grant = self.grant - n;
            WritePoll::Ready(n)
        }
    }

    /// One flush poll. The adapter buffers nothing of its own, so a flush
    /// has nothing to wait for and completes at once, changing nothing.
    pub fn poll_flush(&mut self) -> (r: FlushPoll)
        ensures
            final(self)@ == old(self)@,
            r == FlushPoll::Ready,
    {
        FlushPoll::Ready
    }

    /// One close poll: marks this end closed. Closing twice is harmless.
    pub fn poll_close(&mut self) -> (r: FlushPoll)
        ensures
            final(self)@.outbox == old(self)@.outbox,
            final(self)@.grant == old(self)@.grant,
            final(self)@.closed,
            r == FlushPoll::Ready,
    {
        self.closed = true;
        FlushPoll::Ready
    }

    /// Drains the accepted bytes: what the model network carries to the
    /// peer, in the order the writes were accepted.
    pub fn take_written(&mut self) -> (r: Vec<u8>)
        ensures
            r@ == old(self)@.outbox,
            final(self)@.outbox == Seq::<u8>::empty(),
            final(self)@.grant == old(self)@.grant,
            final(self)@.closed == old(self)@.closed,
    {
        let ghost orig = self.outbox@;
        let mut out: Vec<u8> = Vec::new();
        let mut i: usize = 0;
        while i < self.outbox.len()
            invariant
                i <= orig.len(),
                self.outbox@ == orig,
                out@ == orig.take(i as int),
            decreases orig.len() - i,
        {
            let b = self.outbox[i];
            out.push(b);
            proof {
                assert(orig.take(i as int) + seq![b] =~= orig.take(i + 1));
            }
            i = i + 1;
        }
        self.outbox = Vec::new();
        proof {
            assert(orig.take(orig.len() as int) =~= orig);
        }
        out
    }
}

/// The bytes a run of read polls with capacities `caps` returns, all chunks
/// concatenated in poll order.
pub open spec fn drained(inbox: Seq<u8>, caps: Seq<nat>) -> Seq<u8>
    decreases caps.len(),
{
    if caps.len() == 0 {
        Seq::<u8>::empty()
    } else {
        read_chunk(inbox, caps[0]) + drained(read_rest(inbox, caps[0]), caps.skip(1))
    }
}

/// The bytes such a run leaves queued.
pub open spec fn remaining(inbox: Seq<u8>, caps: Seq<nat>) -> Seq<u8>
    decreases caps.len(),
{
    if caps.len() == 0 {
        inbox
    } else {
        remaining(read_rest(inbox, caps[0]), caps.skip(1))
    }
}

/// Law: partial reads lose nothing and keep order. Whatever capacities a
/// run of read polls uses, the chunks it returns, concatenated, followed by
/// the bytes still queued, are exactly the bytes that were queued at the
/// start — so reads resumed across any number of polls sum to the full
/// delivered payload, in order.
pub proof fn lemma_reads_preserve_order(inbox: Seq<u8>, caps: Seq<nat>)
    ensures
        drained(inbox, caps) + remaining(inbox, caps) == inbox,
    decreases caps.len(),
{
    if caps.len() == 0 {
        assert(drained(inbox, caps) + remaining(inbox, caps) =~= inbox);
    } else {
        let c = chunk_len(inbox, caps[0]) as int;
        let rest = read_rest(inbox, caps[0]);
        lemma_reads_preserve_order(rest, caps.skip(1));
        assert(inbox.take(c) + inbox.skip(c) =~= inbox);
        assert(drained(inbox, caps) + remaining(inbox, caps) =~= read_chunk(inbox, caps[0]) + (
        drained(rest, caps.skip(1)) + remaining(rest, caps.skip(1))));
    }
}

} // verus!
