//! Connectivity lifecycle of the wireless link.
//!
//! The link comes up through four stages — configure, start, associate,
//! address assignment — and the node treats it as up only after address
//! assignment completes, not merely after association. The stages are
//! driven by the link stack outside this crate; this module holds the
//! state machine that decides what each stage outcome means, and the
//! proof that `Connected` is reachable only through all four stages
//! succeeding in order.

use vstd::prelude::*;

verus! {

/// One stage of bringing the link up, in the order they must resolve.
#[derive(Clone, Copy, Debug, PartialEq, Eq, Structural)]
pub enum ConnStage {
    /// Apply the fixed client configuration (identity, shared secret).
    Configure,
    /// Start the link stack.
    Start,
    /// Associate and authenticate with the access point.
    Associate,
    /// Wait for the network interface to hold an address.
    AddressAssignment,
}

/// Failure of one stage; fatal to the attempt, surfaced to the caller.
#[derive(Clone, Copy, Debug, PartialEq, Eq, Structural)]
pub struct ConnectError {
    /// The stage that failed.
    pub stage: ConnStage,
}

/// State of the link as the manager tracks it.
#[derive(Clone, Copy, Debug, PartialEq, Eq, Structural)]
pub enum ConnectionState {
    /// No attempt in progress and the link is down.
    Disconnected,
    /// An attempt is in progress; `next_stage` must resolve next.
    Connecting {
        /// The stage whose outcome the attempt is waiting on.
        next_stage: ConnStage,
    },
    /// All four stages succeeded in order; the link is up.
    Connected,
}

/// What the manager observes: the start of an attempt, or the outcome
/// of one stage as the link stack resolved it.
#[derive(Clone, Copy, Debug, PartialEq, Eq, Structural)]
pub enum ConnEvent {
    /// An attempt begins while the link is down.
    Begin,
    /// One stage resolved, successfully or not.
    StageDone {
        /// The stage that resolved.
        stage: ConnStage,
        /// Whether it succeeded.
        ok: bool,
    },
}

/// The stage that must resolve after `s`, or `None` after the last.
pub open spec fn stage_after(s: ConnStage) -> Option<ConnStage> {
    match s {
        ConnStage::Configure => Some(ConnStage::Start),
        ConnStage::Start => Some(ConnStage::Associate),
        ConnStage::Associate => Some(ConnStage::AddressAssignment),
        ConnStage::AddressAssignment => None,
    }
}

/// The event that stage `s` resolved successfully.
pub open spec fn success_of(s: ConnStage) -> ConnEvent {
    ConnEvent::StageDone { stage: s, ok: true }
}

/// Transition of the connectivity state machine on one event.
///
/// A stage failure abandons the attempt (the manager does not retry);
/// an event that does not concern the pending stage changes nothing;
/// once connected, every event is a no-op (idempotence of ensuring
/// connectivity).
pub open spec fn next_state(s: ConnectionState, ev: ConnEvent) -> ConnectionState {
    match s {
        ConnectionState::Disconnected => match ev {
            ConnEvent::Begin => ConnectionState::Connecting { next_stage: ConnStage::Configure },
            ConnEvent::StageDone { .. } => ConnectionState::Disconnected,
        },
        ConnectionState::Connecting { next_stage } => match ev {
            ConnEvent::Begin => s,
            ConnEvent::StageDone { stage, ok } => {
                if stage != next_stage {
                    s
                } else if !ok {
                    ConnectionState::Disconnected
                } else {
                    match stage_after(next_stage) {
                        Some(st) => ConnectionState::Connecting { next_stage: st },
                        None => ConnectionState::Connected,
                    }
                }
            },
        },
        ConnectionState::Connected => s,
    }
}

/// State after a whole sequence of events, applied in order.
pub open spec fn run(s: ConnectionState, evs: Seq<ConnEvent>) -> ConnectionState
    decreases evs.len(),
{
    if evs.len() == 0 {
        s
    } else {
        run(next_state(s, evs.first()), evs.drop_first())
    }
}

/// Whether `evs` contains, in order, success events for stage `k` and
/// every stage after it through address assignment.
pub open spec fn has_successes_from(evs: Seq<ConnEvent>, k: ConnStage) -> bool
    decreases evs.len(),
{
    if evs.len() == 0 {
        false
    } else {
        (evs.first() == success_of(k) && (match stage_after(k) {
            Some(k2) => has_successes_from(evs.drop_first(), k2),
            None => true,
        })) || has_successes_from(evs.drop_first(), k)
    }
}

/// Events that witness the stages from `k` on also witness the stages
/// from the stage after `k` on.
proof fn lemma_successes_step(evs: Seq<ConnEvent>, k: ConnStage, k2: ConnStage)
    requires
        stage_after(k) == Some(k2),
        has_successes_from(evs, k),
    ensures
        has_successes_from(evs, k2),
    decreases evs.len(),
{
    if evs.first() == success_of(k) && has_successes_from(evs.drop_first(), k2) {
    } else {
        lemma_successes_step(evs.drop_first(), k, k2);
    }
}

/// Events that witness all four stages witness the stages from any
/// stage on.
proof fn lemma_successes_from_start(evs: Seq<ConnEvent>, k: ConnStage)
    requires
        has_successes_from(evs, ConnStage::Configure),
    ensures
        has_successes_from(evs, k),
{
    match k {
        ConnStage::Configure => {},
        ConnStage::Start => {
            lemma_successes_step(evs, ConnStage::Configure, ConnStage::Start);
        },
        ConnStage::Associate => {
            lemma_successes_step(evs, ConnStage::Configure, ConnStage::Start);
            lemma_successes_step(evs, ConnStage::Start, ConnStage::Associate);
        },
        ConnStage::AddressAssignment => {
            lemma_successes_step(evs, ConnStage::Configure, ConnStage::Start);
            lemma_successes_step(evs, ConnStage::Start, ConnStage::Associate);
            lemma_successes_step(evs, ConnStage::Associate, ConnStage::AddressAssignment);
        },
    }
}

/// The link reaches `Connected` only through success events for every
/// remaining stage, in order: from `Disconnected` (or from a fresh
/// attempt) the events must contain configure, start, associate and
/// address-assignment successes in that order; a run that skips a stage
/// cannot end connected.
pub proof fn lemma_connected_only_in_order(s: ConnectionState, evs: Seq<ConnEvent>)
    requires
        run(s, evs) == ConnectionState::Connected,
        s != ConnectionState::Connected,
    ensures
        match s {
            ConnectionState::Disconnected => has_successes_from(evs, ConnStage::Configure),
            ConnectionState::Connecting { next_stage } => has_successes_from(evs, next_stage),
            ConnectionState::Connected => true,
        },
    decreases evs.len(),
{
    let ev = evs.first();
    let rest = evs.drop_first();
    let s1 = next_state(s, ev);
    match s {
        ConnectionState::Disconnected => {
            if s1 != ConnectionState::Connected {
                lemma_connected_only_in_order(s1, rest);
            }
        },
        ConnectionState::Connecting { next_stage } => {
            if s1 == ConnectionState::Connected {
                assert(ev == success_of(next_stage));
                assert(stage_after(next_stage) is None);
            } else {
                lemma_connected_only_in_order(s1, rest);
                if s1 == ConnectionState::Disconnected {
                    lemma_successes_from_start(rest, next_stage);
                }
            }
        },
        ConnectionState::Connected => {},
    }
}

/// Once the link is up, ensuring connectivity is idempotent: no event
/// moves the machine out of `Connected`.
pub proof fn lemma_connected_is_stable(evs: Seq<ConnEvent>)
    ensures
        run(ConnectionState::Connected, evs) == ConnectionState::Connected,
    decreases evs.len(),
{
    if evs.len() > 0 {
        lemma_connected_is_stable(evs.drop_first());
    }
}

/// A fresh attempt whose four stages all succeed in order ends
/// connected.
pub proof fn lemma_full_handshake_connects()
    ensures
        run(
            ConnectionState::Disconnected,
            seq![
                ConnEvent::Begin,
                success_of(ConnStage::Configure),
                success_of(ConnStage::Start),
                success_of(ConnStage::Associate),
                success_of(ConnStage::AddressAssignment),
            ],
        ) == ConnectionState::Connected,
{
    let evs = seq![
        ConnEvent::Begin,
        success_of(ConnStage::Configure),
        success_of(ConnStage::Start),
        success_of(ConnStage::Associate),
        success_of(ConnStage::AddressAssignment),
    ];
    let e1 = evs.drop_first();
    let e2 = e1.drop_first();
    let e3 = e2.drop_first();
    let e4 = e3.drop_first();
    let e5 = e4.drop_first();
    assert(e5.len() == 0);
    assert(run(ConnectionState::Connected, e5) == ConnectionState::Connected);
    assert(run(ConnectionState::Connecting { next_stage: ConnStage::AddressAssignment }, e4)
        == ConnectionState::Connected);
    assert(run(ConnectionState::Connecting { next_stage: ConnStage::Associate }, e3)
        == ConnectionState::Connected);
    assert(run(ConnectionState::Connecting { next_stage: ConnStage::Start }, e2)
        == ConnectionState::Connected);
    assert(run(ConnectionState::Connecting { next_stage: ConnStage::Configure }, e1)
        == ConnectionState::Connected);
}

/// Supervises the wireless link: applies stage outcomes reported by the
/// link stack and exposes whether the link is up and under which
/// address.
pub struct ConnectivityManager {
    state: ConnectionState,
    address: Option<u32>,
}

impl ConnectivityManager {
    /// The tracked link state.
    pub closed spec fn state(&self) -> ConnectionState {
        self.state
    }

    /// The address the interface holds, once assignment completed.
    pub closed spec fn address_spec(&self) -> Option<u32> {
        self.address
    }

    /// An address is held only while the link is up.
    pub open spec fn wf(&self) -> bool {
        self.address_spec() is Some ==> self.state() == ConnectionState::Connected
    }

    /// A fresh manager: link down, no attempt, no address.
    pub fn new() -> (m: Self)
        ensures
            m.state() == ConnectionState::Disconnected,
            m.address_spec() is None,
            m.wf(),
    {
        ConnectivityManager { state: ConnectionState::Disconnected, address: None }
    }

    /// Whether ensuring connectivity must run the stages: true unless
    /// the link is already up (in which case it is a no-op).
    pub fn needs_attempt(&self) -> (b: bool)
        ensures
            b <==> self.state() != ConnectionState::Connected,
    {
        self.state != ConnectionState::Connected
    }

    /// Whether the link is up.
    pub fn is_connected(&self) -> (b: bool)
        ensures
            b <==> self.state() == ConnectionState::Connected,
    {
        self.state == ConnectionState::Connected
    }

    /// Begin a connection attempt while the link is down.
    pub fn begin_attempt(&mut self)
        requires
            old(self).state() == ConnectionState::Disconnected,
            old(self).wf(),
        ensures
            final(self).state() == next_state(old(self).state(), ConnEvent::Begin),
            final(self).address_spec() == old(self).address_spec(),
            final(self).wf(),
    {
        self.state = ConnectionState::Connecting { next_stage: ConnStage::Configure };
    }

    /// The stage the current attempt is waiting on, `None` when no
    /// attempt is in progress.
    pub fn pending_stage(&self) -> (r: Option<ConnStage>)
        ensures
            match self.state() {
                ConnectionState::Connecting { next_stage } => r == Some(next_stage),
                _ => r is None,
            },
    {
        match self.state {
            ConnectionState::Connecting { next_stage } => Some(next_stage),
            _ => None,
        }
    }

    /// Record that the pending stage resolved. On success the attempt
    /// advances (or completes after address assignment); on failure the
    /// attempt is abandoned — the manager does not retry — and the
    /// failed stage is surfaced as the error.
    pub fn record_stage_outcome(&mut self, stage: ConnStage, ok: bool) -> (r: Result<
        (),
        ConnectError,
    >)
        requires
            old(self).state() == (ConnectionState::Connecting { next_stage: stage }),
            old(self).wf(),
        ensures
            final(self).state() == next_state(
                old(self).state(),
                ConnEvent::StageDone { stage, ok },
            ),
            final(self).address_spec() == old(self).address_spec(),
            final(self).wf(),
            r is Ok <==> ok,
            !ok ==> r == Err::<(), ConnectError>(ConnectError { stage }),
    {
        if ok {
            self.state = match stage {
                ConnStage::Configure => ConnectionState::Connecting {
                    next_stage: ConnStage::Start,
                },
                ConnStage::Start => ConnectionState::Connecting {
                    next_stage: ConnStage::Associate,
                },
                ConnStage::Associate => ConnectionState::Connecting {
                    next_stage: ConnStage::AddressAssignment,
                },
                ConnStage::AddressAssignment => ConnectionState::Connected,
            };
            Ok(())
        } else {
            self.state = ConnectionState::Disconnected;
            Err(ConnectError { stage })
        }
    }

    /// Record the address the interface was assigned, once the link is
    /// up.
    pub fn set_address(&mut self, addr: u32)
        requires
            old(self).state() == ConnectionState::Connected,
            old(self).wf(),
        ensures
            final(self).state() == old(self).state(),
            final(self).address_spec() == Some(addr),
            final(self).wf(),
    {
        self.address = Some(addr);
    }

    /// The address the interface holds, `None` while the link is down.
    pub fn address(&self) -> (r: Option<u32>)
        ensures
            r == self.address_spec(),
    {
        self.address
    }
}

/// The stages of one attempt, in the order the link stack must resolve
/// them.
pub fn stage_sequence() -> (v: Vec<ConnStage>)
    ensures
        v@ =~= seq![
            ConnStage::Configure,
            ConnStage::Start,
            ConnStage::Associate,
            ConnStage::AddressAssignment,
        ],
{
    let mut v: Vec<ConnStage> = Vec::new();
    v.push(ConnStage::Configure);
    v.push(ConnStage::Start);
    v.push(ConnStage::Associate);
    v.push(ConnStage::AddressAssignment);
    v
}

} // verus!
