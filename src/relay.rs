use vstd::prelude::*;
use vstd::slice::slice_to_vec;

use crate::addr::Endpoint;

verus! {

/// The byte that a lone, skipped input line consists of.
pub const LINE_FEED: u8 = 10;

/// Default size of the receive buffer: the longest datagram forwarded whole.
pub const DEFAULT_BUFFER_SIZE: usize = 8096;

/// What a relay loop reads from.
#[derive(Clone, Copy, Debug, PartialEq, Eq, Structural)]
pub enum SourceKind {
    /// A file or standard input: an empty read is the end of the input.
    File,
    /// A UDP listen handle: an empty read is a transport fault.
    Datagram,
    /// A TCP connection: an empty read means the peer went away, which ends
    /// the session as a fault.
    Stream,
}

/// Where one write of a dispatch goes.
#[derive(Clone, Copy, Debug, PartialEq, Eq, Structural)]
pub enum Sink {
    /// The target at this position of the pool.
    Target(usize),
    /// The loop's own byte-stream output: a log file or a TCP connection.
    Output,
    /// The tee: standard output, flushed after each write.
    Tee,
}

/// Why a relay loop stopped.
#[derive(Clone, Copy, Debug, PartialEq, Eq, Structural)]
pub enum Termination {
    /// A file-backed source reached its end.
    EndOfInput,
    /// A socket source read zero bytes.
    EmptyRead,
    ReadFailed,
    WriteFailed,
}

impl Termination {
    pub open spec fn is_fault(self) -> bool {
        !(self is EndOfInput)
    }

    /// Whether the loop stopped on a fault rather than at the end of its input.
    pub fn is_error(&self) -> (r: bool)
        ensures
            r == self.is_fault(),
    {
        !matches!(self, Termination::EndOfInput)
    }
}

/// What a relay loop does with one read.
#[derive(Clone, Copy, Debug, PartialEq, Eq, Structural)]
pub enum ReadDecision {
    Forward,
    Skip,
    Stop(Termination),
}

/// An empty read stops the loop: cleanly for a file, as a fault for a
/// socket. A file read of exactly one line feed is skipped. Everything else
/// is forwarded as it is.
pub open spec fn decide(source: SourceKind, chunk: Seq<u8>) -> ReadDecision {
    if chunk.len() == 0 {
        if source is File {
            ReadDecision::Stop(Termination::EndOfInput)
        } else {
            ReadDecision::Stop(Termination::EmptyRead)
        }
    } else if source is File && chunk == seq![LINE_FEED] {
        ReadDecision::Skip
    } else {
        ReadDecision::Forward
    }
}

pub fn decide_read(source: SourceKind, chunk: &[u8]) -> (r: ReadDecision)
    ensures
        r == decide(source, chunk@),
{
    let file = matches!(source, SourceKind::File);
    if chunk.len() == 0 {
        if file {
            ReadDecision::Stop(Termination::EndOfInput)
        } else {
            ReadDecision::Stop(Termination::EmptyRead)
        }
    } else if file && chunk.len() == 1 && chunk[0] == LINE_FEED {
        assert(chunk@ =~= seq![LINE_FEED]);
        ReadDecision::Skip
    } else {
        assert(file && chunk@ == seq![LINE_FEED] ==> chunk@.len() == 1 && chunk@[0] == LINE_FEED);
        ReadDecision::Forward
    }
}

/// Whether some read of `reads` stopped the loop.
pub open spec fn ended(source: SourceKind, reads: Seq<Seq<u8>>) -> bool
    decreases reads.len(),
{
    reads.len() > 0 && (ended(source, reads.drop_last()) || decide(source, reads.last()) is Stop)
}

/// The chunks a loop forwards when its reads are `reads`, in order: every
/// read it decides to forward, up to the read that stops it.
pub open spec fn relayed(source: SourceKind, reads: Seq<Seq<u8>>) -> Seq<Seq<u8>>
    decreases reads.len(),
{
    if reads.len() == 0 {
        Seq::empty()
    } else {
        let earlier = relayed(source, reads.drop_last());
        if !ended(source, reads.drop_last()) && decide(source, reads.last()) is Forward {
            earlier.push(reads.last())
        } else {
            earlier
        }
    }
}

/// The writes one forwarded chunk turns into, in order: one to each target
/// in pool order, then the output if there is one, then the tee if enabled,
/// each of exactly the chunk's bytes.
pub open spec fn fan_out(targets: nat, output: bool, tee: bool, chunk: Seq<u8>) -> Seq<(Sink, Seq<u8>)> {
    Seq::new(targets, |i: int| (Sink::Target(i as usize), chunk)) + (if output {
        seq![(Sink::Output, chunk)]
    } else {
        Seq::empty()
    }) + (if tee {
        seq![(Sink::Tee, chunk)]
    } else {
        Seq::empty()
    })
}

/// One write owed by a dispatch.
#[derive(Debug, PartialEq, Eq)]
pub struct Delivery {
    pub sink: Sink,
    pub payload: Vec<u8>,
}

impl View for Delivery {
    type V = (Sink, Seq<u8>);

    open spec fn view(&self) -> (Sink, Seq<u8>) {
        (self.sink, self.payload@)
    }
}

/// Whether `ds` are exactly the writes `want`, in order.
pub open spec fn delivers(ds: Seq<Delivery>, want: Seq<(Sink, Seq<u8>)>) -> bool {
    &&& ds.len() == want.len()
    &&& forall|i: int| 0 <= i < ds.len() ==> (#[trigger] ds[i])@ == want[i]
}

/// The downstream targets of a relay, fixed once built; a target's position
/// is the order in which it is written to.
pub struct TargetPool {
    targets: Vec<Endpoint>,
}

impl View for TargetPool {
    type V = Seq<Endpoint>;

    closed spec fn view(&self) -> Seq<Endpoint> {
        self.targets@
    }
}

impl TargetPool {
    pub fn new(targets: Vec<Endpoint>) -> (r: TargetPool)
        ensures
            r@ == targets@,
    {
        TargetPool { targets }
    }

    pub fn len(&self) -> (r: usize)
        ensures
            r == self@.len(),
    {
        self.targets.len()
    }

    pub fn get(&self, i: usize) -> (r: Endpoint)
        requires
            i < self@.len(),
        ensures
            r == self@[i as int],
    {
        self.targets[i]
    }
}

/// Where a relay loop stands.
#[derive(Clone, Copy, Debug, PartialEq, Eq, Structural)]
pub enum RelayState {
    /// Set up, not yet receiving.
    Bound,
    /// Waiting for the next read.
    Receiving,
    /// The writes of the last read are being made.
    Dispatching,
    Terminated(Termination),
}

/// The decisions of one relay: a source read in a loop, each read fanned out
/// to the targets of a pool, to an optional output and to an optional tee.
pub struct RelayLoop {
    source: SourceKind,
    pool: TargetPool,
    output: bool,
    tee: bool,
    state: RelayState,
    reads: Ghost<Seq<Seq<u8>>>,
    forwarded: Ghost<Seq<Seq<u8>>>,
}

impl RelayLoop {
    pub closed spec fn source(&self) -> SourceKind {
        self.source
    }

    pub closed spec fn targets(&self) -> Seq<Endpoint> {
        self.pool@
    }

    pub closed spec fn has_output(&self) -> bool {
        self.output
    }

    pub closed spec fn has_tee(&self) -> bool {
        self.tee
    }

    pub closed spec fn state_of(&self) -> RelayState {
        self.state
    }

    /// Every chunk read so far, in order, empty reads included.
    pub closed spec fn reads(&self) -> Seq<Seq<u8>> {
        self.reads@
    }

    /// Every chunk handed out for writing so far, in order.
    pub closed spec fn forwarded(&self) -> Seq<Seq<u8>> {
        self.forwarded@
    }

    pub open spec fn wf(&self) -> bool {
        &&& self.forwarded() == relayed(self.source(), self.reads())
        &&& !(self.state_of() is Terminated) ==> !ended(self.source(), self.reads())
        &&& self.state_of() is Bound ==> self.reads().len() == 0
    }

    /// Whether `other` relays from the same kind of source to the same sinks.
    pub open spec fn same_route(&self, other: &RelayLoop) -> bool {
        &&& other.source() == self.source()
        &&& other.targets() == self.targets()
        &&& other.has_output() == self.has_output()
        &&& other.has_tee() == self.has_tee()
    }

    pub fn new(source: SourceKind, pool: TargetPool, output: bool, tee: bool) -> (r: RelayLoop)
        ensures
            r.wf(),
            r.source() == source,
            r.targets() == pool@,
            r.has_output() == output,
            r.has_tee() == tee,
            r.state_of() == RelayState::Bound,
            r.reads().len() == 0,
            r.forwarded().len() == 0,
    {
        RelayLoop {
            source,
            pool,
            output,
            tee,
            state: RelayState::Bound,
            reads: Ghost(Seq::empty()),
            forwarded: Ghost(Seq::empty()),
        }
    }

    pub fn state(&self) -> (r: RelayState)
        ensures
            r == self.state_of(),
    {
        self.state
    }

    pub fn pool(&self) -> (r: &TargetPool)
        ensures
            r@ == self.targets(),
    {
        &self.pool
    }

    /// Whether the loop still waits for reads or writes.
    pub fn is_running(&self) -> (r: bool)
        ensures
            r == !(self.state_of() is Terminated),
    {
        !matches!(self.state, RelayState::Terminated(_))
    }

    /// Starts receiving.
    pub fn start(&mut self)
        requires
            old(self).wf(),
            old(self).state_of() == RelayState::Bound,
        ensures
            final(self).wf(),
            final(self).same_route(old(self)),
            final(self).state_of() == RelayState::Receiving,
            final(self).reads() == old(self).reads(),
            final(self).forwarded() == old(self).forwarded(),
    {
        self.state = RelayState::Receiving;
    }

    /// Takes one read and returns the writes it is owed (see [`decide`] and
    /// [`fan_out`]). A forwarded read leaves the loop dispatching; a skipped
    /// one leaves it receiving; an empty one terminates it with no write.
    pub fn on_read(&mut self, chunk: &[u8]) -> (r: Vec<Delivery>)
        requires
            old(self).wf(),
            old(self).state_of() == RelayState::Receiving,
        ensures
            final(self).wf(),
            final(self).same_route(old(self)),
            final(self).reads() == old(self).reads().push(chunk@),
            match decide(old(self).source(), chunk@) {
                ReadDecision::Forward => {
                    &&& final(self).state_of() == RelayState::Dispatching
                    &&& final(self).forwarded() == old(self).forwarded().push(chunk@)
                    &&& delivers(
                        r@,
                        fan_out(
                            old(self).targets().len(),
                            old(self).has_output(),
                            old(self).has_tee(),
                            chunk@,
                        ),
                    )
                },
                ReadDecision::Skip => {
                    &&& final(self).state_of() == RelayState::Receiving
                    &&& final(self).forwarded() == old(self).forwarded()
                    &&& r@.len() == 0
                },
                ReadDecision::Stop(t) => {
                    &&& final(self).state_of() == RelayState::Terminated(t)
                    &&& final(self).forwarded() == old(self).forwarded()
                    &&& r@.len() == 0
                },
            },
    {
        let decision = decide_read(self.source, chunk);
        let ghost reads = self.reads@;
        self.reads = Ghost(reads.push(chunk@));
        assert(self.reads@.drop_last() =~= reads);
        match decision {
            ReadDecision::Forward => {
                self.forwarded = Ghost(self.forwarded@.push(chunk@));
                self.state = RelayState::Dispatching;
                self.deliveries(chunk)
            },
            ReadDecision::Skip => Vec::new(),
            ReadDecision::Stop(t) => {
                self.state = RelayState::Terminated(t);
                Vec::new()
            },
        }
    }

    /// The writes of one forwarded chunk.
    fn deliveries(&self, chunk: &[u8]) -> (r: Vec<Delivery>)
        ensures
            delivers(r@, fan_out(self.pool@.len(), self.output, self.tee, chunk@)),
    {
        let ghost want = fan_out(self.pool@.len(), self.output, self.tee, chunk@);
        let k = self.pool.len();
        let mut r: Vec<Delivery> = Vec::new();
        let mut i: usize = 0;
        while i < k
            invariant
                i <= k,
                k == self.pool@.len(),
                want == fan_out(self.pool@.len(), self.output, self.tee, chunk@),
                r@.len() == i,
                forall|j: int| 0 <= j < i ==> #[trigger] r@[j]@ == want[j],
            decreases k - i,
        {
            r.push(Delivery { sink: Sink::Target(i), payload: slice_to_vec(chunk) });
            i = i + 1;
        }
        if self.output {
            r.push(Delivery { sink: Sink::Output, payload: slice_to_vec(chunk) });
        }
        if self.tee {
            r.push(Delivery { sink: Sink::Tee, payload: slice_to_vec(chunk) });
        }
        r
    }

    /// Records a failed read: the loop terminates.
    pub fn on_read_failed(&mut self)
        requires
            old(self).wf(),
            old(self).state_of() == RelayState::Receiving,
        ensures
            final(self).wf(),
            final(self).same_route(old(self)),
            final(self).state_of() == RelayState::Terminated(Termination::ReadFailed),
            final(self).reads() == old(self).reads(),
            final(self).forwarded() == old(self).forwarded(),
    {
        self.state = RelayState::Terminated(Termination::ReadFailed);
    }

    /// Records whether every write of the last dispatch went through. A
    /// failed write is not retried: it terminates the loop.
    pub fn on_dispatched(&mut self, all_written: bool)
        requires
            old(self).wf(),
            old(self).state_of() == RelayState::Dispatching,
        ensures
            final(self).wf(),
            final(self).same_route(old(self)),
            final(self).state_of() == (if all_written {
                RelayState::Receiving
            } else {
                RelayState::Terminated(Termination::WriteFailed)
            }),
            final(self).reads() == old(self).reads(),
            final(self).forwarded() == old(self).forwarded(),
    {
        if all_written {
            self.state = RelayState::Receiving;
        } else {
            self.state = RelayState::Terminated(Termination::WriteFailed);
        }
    }
}

} // verus!
