//! The forwarding engine of the tunnel.
//!
//! The running loop multiplexes three readiness sources — two virtual
//! interfaces and the peer-facing datagram socket — and moves exactly one
//! unit of data per ready source: a packet read from an interface is sent
//! to the peer; a datagram received from the peer is written to the
//! primary interface only. The decisions of that loop are the functions
//! here: the surrounding process performs the waits, reads and writes, and
//! hands each outcome back as a plain value.

use vstd::prelude::*;
use crate::addr::SockAddrV4;

verus! {

/// Fixed capacity of the forwarding buffer: the largest raw IP packet the
/// loop moves in one unit. Anything longer is clipped to this many bytes.
pub const BUFFER_CAPACITY: usize = 1500;

/// The three registered readiness sources, in their fixed drain order.
#[derive(Clone, Copy, PartialEq, Eq, Structural, Debug)]
pub enum Source {
    /// The primary virtual interface.
    Primary,
    /// The secondary virtual interface.
    Secondary,
    /// The peer-facing datagram socket.
    Socket,
}

/// Where one unit of data is forwarded. There is deliberately no way to
/// address the secondary interface: in this design it never receives.
#[derive(Clone, Copy, PartialEq, Eq, Structural, Debug)]
pub enum Dest {
    /// Send as one datagram to the configured peer.
    Peer,
    /// Write as one raw packet to the primary interface.
    PrimaryIface,
}

/// The forwarding table, as a mapping rather than control flow: both
/// interfaces feed the single peer; datagrams from the peer go to the
/// primary interface only.
pub open spec fn spec_route(s: Source) -> Dest {
    match s {
        Source::Primary => Dest::Peer,
        Source::Secondary => Dest::Peer,
        Source::Socket => Dest::PrimaryIface,
    }
}

/// Look up the destination for data that arrived on `s`.
pub fn route(s: Source) -> (d: Dest)
    ensures
        d == spec_route(s),
{
    match s {
        Source::Primary => Dest::Peer,
        Source::Secondary => Dest::Peer,
        Source::Socket => Dest::PrimaryIface,
    }
}

/// What one read or receive on a ready source produced: the bytes, or the
/// OS failure code.
pub enum IoOutcome {
    /// The bytes actually transferred, however few.
    Data(Vec<u8>),
    /// The OS failure code of the read or receive.
    Failed(i32),
}

/// One forwarding instruction: write `payload` to `dest`.
pub struct Forward {
    /// Where the payload goes.
    pub dest: Dest,
    /// The exact bytes to forward, already clipped to the buffer capacity.
    pub payload: Vec<u8>,
}

/// The loop's state: running, or aborted with the OS failure code of the
/// first failed operation. There is no recovery from a failure.
#[derive(Clone, Copy, PartialEq, Eq, Structural, Debug)]
pub enum LoopState {
    Running,
    Failed(i32),
}

/// The engine's configuration: the socket's local bind address, the single
/// remote peer, and the forwarding buffer capacity.
#[derive(Clone, Copy, PartialEq, Eq, Structural, Debug)]
pub struct TunnelConfig {
    pub local: SockAddrV4,
    pub peer: SockAddrV4,
    pub capacity: usize,
}

/// A tunnel configuration for the given endpoints, with the fixed buffer
/// capacity.
pub fn new_config(local: SockAddrV4, peer: SockAddrV4) -> (c: TunnelConfig)
    ensures
        c.local == local,
        c.peer == peer,
        c.capacity == BUFFER_CAPACITY,
{
    TunnelConfig { local, peer, capacity: BUFFER_CAPACITY }
}

/// `data` clipped to the buffer capacity: the bytes themselves when they
/// fit, exactly the first `cap` bytes when they do not. No padding, no
/// length prefix.
pub open spec fn spec_clip(data: Seq<u8>, cap: int) -> Seq<u8> {
    if data.len() <= cap {
        data
    } else {
        data.take(cap)
    }
}

/// One decision of the forwarding loop, on the outcome of one ready
/// source: a failure aborts the loop with that code; in a failed state no
/// event is processed; data is clipped and routed by the forwarding table.
pub open spec fn spec_step(cap: int, st: LoopState, src: Source, outcome: IoOutcome) -> (
    LoopState,
    Option<(Dest, Seq<u8>)>,
) {
    match st {
        LoopState::Failed(_) => (st, None),
        LoopState::Running => match outcome {
            IoOutcome::Failed(e) => (LoopState::Failed(e), None),
            IoOutcome::Data(d) => (
                LoopState::Running,
                Some((spec_route(src), spec_clip(d@, cap))),
            ),
        },
    }
}

/// Decide what the loop does with the outcome of one ready source.
///
/// Every error aborts the entire loop — no retry, no per-source isolation —
/// and a failed loop processes nothing further. Data is forwarded as one
/// unit along the forwarding table, clipped to the buffer capacity.
pub fn step(cfg: &TunnelConfig, st: LoopState, src: Source, outcome: IoOutcome) -> (r: (
    LoopState,
    Option<Forward>,
))
    ensures
        r.0 == spec_step(cfg.capacity as int, st, src, outcome).0,
        r.1 is Some <==> spec_step(cfg.capacity as int, st, src, outcome).1 is Some,
        r.1 matches Some(f) ==> (spec_step(cfg.capacity as int, st, src, outcome).1 matches Some(
            p,
        ) && f.dest == p.0 && f.payload@ == p.1),
{
    match st {
        LoopState::Failed(e) => (LoopState::Failed(e), None),
        LoopState::Running => match outcome {
            IoOutcome::Failed(e) => (LoopState::Failed(e), None),
            IoOutcome::Data(mut d) => {
                let ghost orig = d@;
                d.truncate(cfg.capacity);
                assert(d@ =~= spec_clip(orig, cfg.capacity as int));
                (LoopState::Running, Some(Forward { dest: route(src), payload: d }))
            },
        },
    }
}

/// The loop state after draining a sequence of (source, outcome) events in
/// order.
pub open spec fn spec_run(cap: int, st: LoopState, events: Seq<(Source, IoOutcome)>) -> LoopState
    decreases events.len(),
{
    if events.len() == 0 {
        st
    } else {
        spec_run(cap, spec_step(cap, st, events[0].0, events[0].1).0, events.drop_first())
    }
}

/// Law: forwarding fidelity. A unit of data whose length is within the
/// buffer capacity is forwarded with an identical payload, and packets
/// read from either interface go to the peer.
pub proof fn lemma_forwarding_fidelity(cap: int, src: Source, data: Vec<u8>)
    requires
        data@.len() <= cap,
    ensures
        spec_step(cap, LoopState::Running, src, IoOutcome::Data(data)).1 == Some(
            (spec_route(src), data@),
        ),
        spec_route(Source::Primary) == Dest::Peer,
        spec_route(Source::Secondary) == Dest::Peer,
{
}

/// Law: truncation. A unit of data longer than the buffer capacity is
/// forwarded clipped to exactly the capacity — its first `cap` bytes.
pub proof fn lemma_truncation(cap: int, src: Source, data: Vec<u8>)
    requires
        0 <= cap < data@.len(),
    ensures
        spec_step(cap, LoopState::Running, src, IoOutcome::Data(data)).1 == Some(
            (spec_route(src), data@.take(cap)),
        ),
        spec_clip(data@, cap).len() == cap,
{
}

/// Law: asymmetric routing. Under any interleaving, whatever the state and
/// outcome, data from the secondary interface can only go to the peer,
/// data from the socket can only go to the primary interface, and no
/// instruction ever addresses the secondary interface (no destination for
/// it exists).
pub proof fn lemma_asymmetric_routing(cap: int, st: LoopState, src: Source, outcome: IoOutcome)
    ensures
        src == Source::Secondary ==> (spec_step(cap, st, src, outcome).1 matches Some(f) ==> f.0
            == Dest::Peer),
        src == Source::Socket ==> (spec_step(cap, st, src, outcome).1 matches Some(f) ==> f.0
            == Dest::PrimaryIface),
        spec_step(cap, st, src, outcome).1 matches Some(f) ==> (f.0 == Dest::Peer || f.0
            == Dest::PrimaryIface),
{
}

/// Law: fatal propagation. An I/O failure on any source puts the loop in
/// the failed state with that code and yields no instruction; from then
/// on, whatever events follow — on this source or the other two, in this
/// wake-up or later ones — the loop processes none of them and keeps the
/// original error.
pub proof fn lemma_fatal_propagation(cap: int, e: i32, events: Seq<(Source, IoOutcome)>)
    ensures
        forall|src: Source|
            spec_step(cap, LoopState::Running, src, IoOutcome::Failed(e)) == (
                LoopState::Failed(e),
                None::<(Dest, Seq<u8>)>,
            ),
        forall|src: Source, o: IoOutcome|
            spec_step(cap, LoopState::Failed(e), src, o) == (
                LoopState::Failed(e),
                None::<(Dest, Seq<u8>)>,
            ),
        spec_run(cap, LoopState::Failed(e), events) == LoopState::Failed(e),
    decreases events.len(),
{
    if events.len() > 0 {
        lemma_fatal_propagation(cap, e, events.drop_first());
    }
}

} // verus!
