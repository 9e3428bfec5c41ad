use vstd::prelude::*;

use crate::connection::{
    compose, composes, conversion_failure, fresh_connection_view, RawConnection, SocketConnection,
};
use crate::error::{AcceptError, ToolkitError};

verus! {

/// What advancing the in-flight accept operation reported on one poll of
/// the sequence: nothing yet, an accepted raw connection, or the toolkit's
/// error for this attempt.
#[derive(Clone, Copy, Debug, PartialEq, Eq)]
pub enum AcceptEvent {
    NotReady,
    Accepted(RawConnection),
    Failed(ToolkitError),
}

/// What one poll of the incoming sequence hands its consumer. The sequence
/// is logically infinite: it never signals a natural end, so an item is
/// always a connection or a per-iteration error.
#[derive(Debug)]
pub enum IncomingPoll {
    Pending,
    Ready(Result<SocketConnection, AcceptError>),
}

/// The outcome of one poll turn, at specification level: suspend, produce
/// the connection composed from a raw connection, or produce an error item.
#[derive(Clone, Copy, Debug, PartialEq, Eq)]
pub enum TurnOutput {
    Suspend,
    Conn(RawConnection),
    Fail(AcceptError),
}

pub struct IncomingView {
    pub pending: bool,
    pub started: nat,
    pub finished: nat,
}

impl IncomingView {
    /// How many accept operations are in flight: the operations begun and
    /// not yet resolved or cancelled.
    pub open spec fn outstanding(self) -> int {
        self.started - self.finished
    }

    /// The slot invariant: the single-slot cache holds an operation exactly
    /// when one more operation was begun than resolved — never more than
    /// one in flight.
    pub open spec fn wf(self) -> bool {
        self.finished <= self.started && self.outstanding() == if self.pending {
            1int
        } else {
            0int
        }
    }
}

/// The lazy start of a poll turn: with an empty slot a fresh accept
/// operation is begun in the same call; with an occupied slot nothing is
/// begun.
pub open spec fn begin_state(v: IncomingView) -> IncomingView {
    if v.pending {
        v
    } else {
        IncomingView { pending: true, started: v.started + 1, finished: v.finished }
    }
}

/// Where one whole poll turn leaves the slot: a ready outcome — success or
/// error alike — resolves and clears it, so the next poll starts fresh; a
/// not-ready outcome leaves it in flight.
pub open spec fn turn_state(v: IncomingView, e: AcceptEvent) -> IncomingView {
    let b = begin_state(v);
    match e {
        AcceptEvent::NotReady => b,
        AcceptEvent::Accepted(_) => IncomingView {
            pending: false,
            started: b.started,
            finished: b.finished + 1,
        },
        AcceptEvent::Failed(_) => IncomingView {
            pending: false,
            started: b.started,
            finished: b.finished + 1,
        },
    }
}

/// What one whole poll turn hands the consumer.
pub open spec fn turn_output(e: AcceptEvent) -> TurnOutput {
    match e {
        AcceptEvent::NotReady => TurnOutput::Suspend,
        AcceptEvent::Accepted(raw) => if composes(raw) {
            TurnOutput::Conn(raw)
        } else {
            TurnOutput::Fail(AcceptError::Conversion(conversion_failure(raw)))
        },
        AcceptEvent::Failed(err) => TurnOutput::Fail(AcceptError::Accept(err)),
    }
}

/// Where the slot stands after the sequence is dropped: an in-flight
/// operation is cancelled, which resolves it.
pub open spec fn drop_state(v: IncomingView) -> IncomingView {
    if v.pending {
        IncomingView { pending: false, started: v.started, finished: v.finished + 1 }
    } else {
        v
    }
}

/// The continuous sequence of accepted connections: a single-slot cache for
/// the one in-flight accept operation, with counters for how many
/// operations were ever begun and resolved. The toolkit owns the operation
/// value itself; this type owns every decision about the slot.
pub struct Incoming {
    pending: bool,
    started: u64,
    finished: u64,
}

impl View for Incoming {
    type V = IncomingView;

    closed spec fn view(&self) -> IncomingView {
        IncomingView {
            pending: self.pending,
            started: self.started as nat,
            finished: self.finished as nat,
        }
    }
}

impl Incoming {
    /// A fresh sequence: empty slot, counters at zero.
    pub fn new() -> (r: Incoming)
        ensures
            r@ == (IncomingView { pending: false, started: 0nat, finished: 0nat }),
            r@.wf(),
    {
        Incoming { pending: false, started: 0, finished: 0 }
    }

    /// Whether the next poll will begin a fresh accept operation — exactly
    /// when no operation is in flight. The driver creates the toolkit's
    /// operation value when this holds, before handing the poll outcome to
    /// `poll_next`.
    pub fn needs_accept(&self) -> (b: bool)
        ensures
            b == !self@.pending,
    {
        !self.pending
    }

    /// One whole poll turn. An empty slot first begins a fresh operation in
    /// this same call — the one sanctioned create-then-poll fallthrough —
    /// then `event` says what advancing the operation reported. A ready
    /// outcome clears the slot and becomes an item: a composed connection
    /// on success, the error itself on failure, so a failed attempt never
    /// wedges the sequence. A not-ready outcome leaves the operation in
    /// flight and suspends.
    pub fn poll_next(&mut self, event: AcceptEvent) -> (r: IncomingPoll)
        requires
            old(self)@.wf(),
            old(self)@.started < u64::MAX,
        ensures
            final(self)@ == turn_state(old(self)@, event),
            final(self)@.wf(),
            turn_output(event) == TurnOutput::Suspend ==> r is Pending,
            turn_output(event) matches TurnOutput::Conn(raw) ==> (r matches IncomingPoll::Ready(
                item,
            ) && item matches Ok(c) && c@ == fresh_connection_view(raw)),
            turn_output(event) matches TurnOutput::Fail(err) ==> r == IncomingPoll::Ready(
                Err::<SocketConnection, _>(err),
            ),
    {
        if !self.pending {
            self.pending = true;
            self.started = self.started + 1;
        }
        match event {
            AcceptEvent::NotReady => IncomingPoll::Pending,
            AcceptEvent::Accepted(raw) => {
                self.pending = false;
                self.finished = self.finished + 1;
                match compose(raw) {
                    Ok(c) => IncomingPoll::Ready(Ok(c)),
                    Err(f) => IncomingPoll::Ready(Err(AcceptError::Conversion(f))),
                }
            },
            AcceptEvent::Failed(err) => {
                self.pending = false;
                self.finished = self.finished + 1;
                IncomingPoll::Ready(Err(AcceptError::Accept(err)))
            },
        }
    }

    /// What dropping the sequence does to the slot: an in-flight operation
    /// is cancelled — the toolkit unregisters its readiness callback when
    /// the operation value is destroyed — and the books balance: nothing
    /// stays outstanding, begun and resolved counts are equal.
    pub fn cancel(&mut self)
        requires
            old(self)@.wf(),
        ensures
            final(self)@ == drop_state(old(self)@),
            !final(self)@.pending,
            final(self)@.started == final(self)@.finished,
            final(self)@.outstanding() == 0,
            final(self)@.wf(),
    {
        if self.pending {
            self.pending = false;
            self.finished = self.finished + 1;
        }
    }

    /// How many accept operations are in flight right now: one while the
    /// slot is occupied, zero otherwise.
    pub fn outstanding(&self) -> (n: u64)
        requires
            self@.wf(),
        ensures
            n as int == self@.outstanding(),
    {
        self.started - self.finished
    }

    /// How many accept operations this sequence has ever begun.
    pub fn accepts_started(&self) -> (n: u64)
        ensures
            n as nat == self@.started,
    {
        self.started
    }

    /// How many accept operations have resolved or been cancelled.
    pub fn accepts_finished(&self) -> (n: u64)
        ensures
            n as nat == self@.finished,
    {
        self.finished
    }
}

/// Whether every event in a run is an accepted, composable connection.
pub open spec fn all_accepted(es: Seq<AcceptEvent>) -> bool {
    forall|i: int|
        0 <= i < es.len() ==> ((#[trigger] es[i]) matches AcceptEvent::Accepted(raw)
            && composes(raw))
}

/// Where a run of whole poll turns, one per event, leaves the slot.
pub open spec fn run_state(v: IncomingView, es: Seq<AcceptEvent>) -> IncomingView
    decreases es.len(),
{
    if es.len() == 0 {
        v
    } else {
        run_state(turn_state(v, es[0]), es.skip(1))
    }
}

/// What such a run hands the consumer, one outcome per poll.
pub open spec fn run_outputs(es: Seq<AcceptEvent>) -> Seq<TurnOutput>
    decreases es.len(),
{
    if es.len() == 0 {
        Seq::<TurnOutput>::empty()
    } else {
        seq![turn_output(es[0])] + run_outputs(es.skip(1))
    }
}

/// Law: an error-free run leaks nothing. Polling the sequence once per
/// accepted connection yields exactly one connection item per poll, and
/// every operation begun is resolved: after the run — and after the drop
/// that follows it — the slot is empty and the outstanding count is zero,
/// with begun and resolved counters equal.
pub proof fn lemma_clean_run(v: IncomingView, es: Seq<AcceptEvent>)
    requires
        v.wf(),
        !v.pending,
        all_accepted(es),
    ensures
        run_state(v, es).wf(),
        !run_state(v, es).pending,
        run_state(v, es).outstanding() == 0,
        drop_state(run_state(v, es)).started == drop_state(run_state(v, es)).finished,
        run_outputs(es).len() == es.len(),
        forall|i: int|
            0 <= i < es.len() ==> (#[trigger] run_outputs(es)[i]) matches TurnOutput::Conn(_),
    decreases es.len(),
{
    if es.len() == 0 {
    } else {
        assert((es[0] matches AcceptEvent::Accepted(raw) && composes(raw)));
        let v1 = turn_state(v, es[0]);
        assert(v1.wf() && !v1.pending);
        assert(all_accepted(es.skip(1))) by {
            assert(forall|i: int|
                0 <= i < es.skip(1).len() ==> #[trigger] es.skip(1)[i] == es[i + 1]);
        }
        lemma_clean_run(v1, es.skip(1));
        assert(run_outputs(es)[0] == turn_output(es[0]));
        assert(run_outputs(es)[0] matches TurnOutput::Conn(_));
        assert(forall|i: int|
            1 <= i < es.len() ==> #[trigger] run_outputs(es)[i] == run_outputs(es.skip(1))[i - 1]);
    }
}

/// Law: a failed accept never wedges the sequence. The failing poll yields
/// the error itself as an item and clears the slot, so the very next poll
/// begins an independent fresh accept — and a following successful accept
/// yields its connection.
pub proof fn lemma_failure_then_fresh(v: IncomingView, err: ToolkitError, raw: RawConnection)
    requires
        v.wf(),
        composes(raw),
    ensures
        turn_output(AcceptEvent::Failed(err)) == TurnOutput::Fail(AcceptError::Accept(err)),
        !turn_state(v, AcceptEvent::Failed(err)).pending,
        turn_state(v, AcceptEvent::Failed(err)).wf(),
        turn_output(AcceptEvent::Accepted(raw)) == TurnOutput::Conn(raw),
        !turn_state(turn_state(v, AcceptEvent::Failed(err)), AcceptEvent::Accepted(raw)).pending,
        turn_state(turn_state(v, AcceptEvent::Failed(err)), AcceptEvent::Accepted(raw)).wf(),
{
}

} // verus!
