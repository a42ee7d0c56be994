use vstd::prelude::*;

use crate::addr::Endpoint;
use crate::relay::{RelayLoop, RelayState, SourceKind, TargetPool};

verus! {

/// Copies a list of endpoints.
pub fn copy_endpoints(v: &Vec<Endpoint>) -> (r: Vec<Endpoint>)
    ensures
        r@ == v@,
{
    let mut r: Vec<Endpoint> = Vec::new();
    let mut i: usize = 0;
    while i < v.len()
        invariant
            i <= v@.len(),
            r@ =~= v@.take(i as int),
        decreases v@.len() - i,
    {
        r.push(v[i]);
        i = i + 1;
    }
    assert(v@.take(v@.len() as int) =~= v@);
    r
}

impl RelayLoop {
    /// A fresh loop of the given kind, sinks and pool.
    pub open spec fn fresh(&self, source: SourceKind, targets: Seq<Endpoint>, output: bool, tee: bool) -> bool {
        &&& self.wf()
        &&& self.source() == source
        &&& self.targets() == targets
        &&& self.has_output() == output
        &&& self.has_tee() == tee
        &&& self.state_of() == RelayState::Bound
        &&& self.reads().len() == 0
        &&& self.forwarded().len() == 0
    }

    /// A client: reads a file or standard input and sends each chunk to
    /// every target, copying it to the tee when asked.
    pub fn producer(pool: TargetPool, tee: bool) -> (r: RelayLoop)
        ensures
            r.fresh(SourceKind::File, pool@, false, tee),
    {
        RelayLoop::new(SourceKind::File, pool, false, tee)
    }

    /// A server: receives datagrams and appends each to its log, copying it
    /// to the tee when asked.
    pub fn listener(tee: bool) -> (r: RelayLoop)
        ensures
            r.fresh(SourceKind::Datagram, Seq::empty(), true, tee),
    {
        RelayLoop::new(SourceKind::Datagram, TargetPool::new(Vec::new()), true, tee)
    }

    /// A forwarding proxy: receives datagrams and sends each to every target.
    pub fn proxy(pool: TargetPool, tee: bool) -> (r: RelayLoop)
        ensures
            r.fresh(SourceKind::Datagram, pool@, false, tee),
    {
        RelayLoop::new(SourceKind::Datagram, pool, false, tee)
    }

    /// One session of a UDP to TCP bridge: datagrams from the shared UDP
    /// source are written to the session's TCP connection.
    pub fn datagram_to_stream() -> (r: RelayLoop)
        ensures
            r.fresh(SourceKind::Datagram, Seq::empty(), true, false),
    {
        RelayLoop::new(SourceKind::Datagram, TargetPool::new(Vec::new()), true, false)
    }

    /// One session of a TCP to UDP bridge: each chunk read from the TCP
    /// connection becomes one datagram to `target`.
    pub fn stream_to_datagram(target: Endpoint) -> (r: RelayLoop)
        ensures
            r.fresh(SourceKind::Stream, seq![target], false, false),
    {
        let r = RelayLoop::new(SourceKind::Stream, TargetPool::new(vec![target]), false, false);
        assert(r.targets() =~= seq![target]);
        r
    }

    /// A UDP to UDP bridge: each datagram is forwarded unchanged to `target`.
    pub fn datagram_to_datagram(target: Endpoint) -> (r: RelayLoop)
        ensures
            r.fresh(SourceKind::Datagram, seq![target], false, false),
    {
        let r = RelayLoop::new(SourceKind::Datagram, TargetPool::new(vec![target]), false, false);
        assert(r.targets() =~= seq![target]);
        r
    }
}

/// One listen address with the targets it relays to: the work of one relay
/// thread.
#[derive(Debug, PartialEq, Eq)]
pub struct RelayRoute {
    pub listen: Endpoint,
    pub targets: Vec<Endpoint>,
    pub tee: bool,
}

impl RelayRoute {
    /// The proxy loop that serves this route, with the route's targets as
    /// its pool.
    pub fn relay(&self) -> (r: RelayLoop)
        ensures
            r.fresh(SourceKind::Datagram, self.targets@, false, self.tee),
    {
        RelayLoop::proxy(TargetPool::new(copy_endpoints(&self.targets)), self.tee)
    }
}

/// One route per listen address, in order, each with every target.
pub fn relay_routes(listens: &Vec<Endpoint>, targets: &Vec<Endpoint>, tee: bool) -> (r: Vec<RelayRoute>)
    ensures
        r@.len() == listens@.len(),
        forall|i: int|
            0 <= i < r@.len() ==> {
                &&& (#[trigger] r@[i]).listen == listens@[i]
                &&& r@[i].targets@ == targets@
                &&& r@[i].tee == tee
            },
{
    let mut r: Vec<RelayRoute> = Vec::new();
    let mut i: usize = 0;
    while i < listens.len()
        invariant
            i <= listens@.len(),
            r@.len() == i,
            forall|j: int|
                0 <= j < i ==> {
                    &&& (#[trigger] r@[j]).listen == listens@[j]
                    &&& r@[j].targets@ == targets@
                    &&& r@[j].tee == tee
                },
        decreases listens@.len() - i,
    {
        r.push(RelayRoute { listen: listens[i], targets: copy_endpoints(targets), tee });
        i = i + 1;
    }
    r
}

/// The settings of a gateway: the addresses it listens on, the addresses
/// each listener relays to, and whether received bytes are copied to the tee.
pub struct GatewayArgs {
    downstream_addrs: Vec<String>,
    listen_addrs: Vec<String>,
    tee: bool,
}

impl GatewayArgs {
    pub closed spec fn downstream(&self) -> Seq<String> {
        self.downstream_addrs@
    }

    pub closed spec fn listens(&self) -> Seq<String> {
        self.listen_addrs@
    }

    pub closed spec fn tee_of(&self) -> bool {
        self.tee
    }

    pub fn new(downstream_addrs: Vec<String>, listen_addrs: Vec<String>, tee: bool) -> (r: GatewayArgs)
        ensures
            r.downstream() == downstream_addrs@,
            r.listens() == listen_addrs@,
            r.tee_of() == tee,
    {
        GatewayArgs { downstream_addrs, listen_addrs, tee }
    }

    pub fn downstream_addrs(&self) -> (r: &Vec<String>)
        ensures
            r@ == self.downstream(),
    {
        &self.downstream_addrs
    }

    pub fn listen_addrs(&self) -> (r: &Vec<String>)
        ensures
            r@ == self.listens(),
    {
        &self.listen_addrs
    }

    pub fn tee(&self) -> (r: bool)
        ensures
            r == self.tee_of(),
    {
        self.tee
    }
}

} // verus!
