//! Lifecycle of the proxy service: the accept loop's decisions, the count of
//! live handlers, and coordinated graceful shutdown.
//!
//! The machine runs through three phases. In `Running` the listener accepts
//! connections, dials the target for each, and spawns a handler when the dial
//! succeeds; a failed dial drops that one connection and nothing else. A
//! cancellation signal or a fatal accept failure stops accepting and begins
//! the drain. In `Draining` the live handlers run on; the machine terminates
//! when the last one finishes, or when the graceful-shutdown timeout elapses
//! first. `Terminated` is final.

use vstd::prelude::*;

verus! {

/// How long the drain waits for live handlers before giving up, in
/// milliseconds.
pub const GRACEFUL_SHUTDOWN_TIMEOUT_MS: u64 = 15000;

/// The phase the service is in.
#[derive(Clone, Copy, Debug, PartialEq, Eq, Structural)]
pub enum Phase {
    /// Accepting connections and relaying.
    Running,
    /// No longer accepting; waiting for live handlers to finish.
    Draining,
    /// Done; the process may exit. No transition leaves this phase.
    Terminated,
}

/// An event the runtime reports to the lifecycle machine.
#[derive(Clone, Copy, Debug, PartialEq, Eq, Structural)]
pub enum ProxyEvent {
    /// An inbound connection was accepted and the dial to the target
    /// succeeded.
    AcceptedDialOk,
    /// An inbound connection was accepted but the dial to the target failed.
    AcceptedDialErr,
    /// The accept retry budget was exhausted: a fatal accept failure.
    AcceptFatal,
    /// The external shutdown signal fired.
    Cancelled,
    /// One handler finished and released its completion reference.
    HandlerFinished,
    /// The graceful-shutdown timeout elapsed while draining.
    DrainTimeout,
}

/// What the runtime must do in answer to an event.
#[derive(Clone, Copy, Debug, PartialEq, Eq, Structural)]
pub enum ProxyAction {
    /// Spawn a handler for the accepted connection pair.
    SpawnHandler,
    /// Drop the inbound connection; relay nothing for it.
    DropConnection,
    /// Stop accepting and start waiting for live handlers.
    BeginDrain,
    /// Exit: the drain is over, cleanly or by the timeout.
    Exit,
    /// The event changes nothing in this phase.
    Ignore,
}

/// Mathematical model of the lifecycle state.
#[verifier::ext_equal]
pub struct ProxyModel {
    pub phase: Phase,
    /// Handlers spawned and not yet finished: the live references into the
    /// completion signal.
    pub live_handlers: nat,
    /// Whether the drain ended by the timeout rather than cleanly.
    pub timed_out: bool,
    /// Whether the drain was begun by a fatal accept failure rather than by
    /// the cancellation signal.
    pub fatal_accept: bool,
}

/// The state at startup: running, no handlers yet.
pub open spec fn init_proxy() -> ProxyModel {
    ProxyModel { phase: Phase::Running, live_handlers: 0, timed_out: false, fatal_accept: false }
}

/// Entering the drain: with no live handler left it is already over.
pub open spec fn begin_drain(s: ProxyModel, fatal: bool) -> ProxyModel {
    ProxyModel {
        phase: if s.live_handlers == 0 {
            Phase::Terminated
        } else {
            Phase::Draining
        },
        fatal_accept: fatal,
        ..s
    }
}

/// How one event moves the lifecycle forward. Total: an event that cannot
/// arise in a phase leaves the state unchanged.
pub open spec fn proxy_step(s: ProxyModel, ev: ProxyEvent) -> ProxyModel {
    match s.phase {
        Phase::Running => match ev {
            ProxyEvent::AcceptedDialOk => ProxyModel {
                live_handlers: s.live_handlers + 1,
                ..s
            },
            ProxyEvent::AcceptedDialErr => s,
            ProxyEvent::AcceptFatal => begin_drain(s, true),
            ProxyEvent::Cancelled => begin_drain(s, false),
            ProxyEvent::HandlerFinished => if s.live_handlers > 0 {
                ProxyModel { live_handlers: (s.live_handlers - 1) as nat, ..s }
            } else {
                s
            },
            ProxyEvent::DrainTimeout => s,
        },
        Phase::Draining => match ev {
            ProxyEvent::HandlerFinished => if s.live_handlers > 1 {
                ProxyModel { live_handlers: (s.live_handlers - 1) as nat, ..s }
            } else {
                ProxyModel { phase: Phase::Terminated, live_handlers: 0, ..s }
            },
            ProxyEvent::DrainTimeout => ProxyModel { phase: Phase::Terminated, timed_out: true, ..s },
            _ => s,
        },
        Phase::Terminated => s,
    }
}

/// The action an event calls for in a state.
pub open spec fn proxy_action(s: ProxyModel, ev: ProxyEvent) -> ProxyAction {
    match s.phase {
        Phase::Running => match ev {
            ProxyEvent::AcceptedDialOk => ProxyAction::SpawnHandler,
            ProxyEvent::AcceptedDialErr => ProxyAction::DropConnection,
            ProxyEvent::AcceptFatal => ProxyAction::BeginDrain,
            ProxyEvent::Cancelled => ProxyAction::BeginDrain,
            ProxyEvent::HandlerFinished => ProxyAction::Ignore,
            ProxyEvent::DrainTimeout => ProxyAction::Ignore,
        },
        Phase::Draining => match ev {
            ProxyEvent::HandlerFinished => if s.live_handlers > 1 {
                ProxyAction::Ignore
            } else {
                ProxyAction::Exit
            },
            ProxyEvent::DrainTimeout => ProxyAction::Exit,
            _ => ProxyAction::Ignore,
        },
        Phase::Terminated => ProxyAction::Ignore,
    }
}

/// The lifecycle folded over a whole sequence of events.
pub open spec fn proxy_after(s: ProxyModel, evs: Seq<ProxyEvent>) -> ProxyModel
    decreases evs.len(),
{
    if evs.len() == 0 {
        s
    } else {
        proxy_after(proxy_step(s, evs[0]), evs.skip(1))
    }
}

/// The lifecycle machine, as the runtime drives it.
pub struct Proxy {
    pub phase: Phase,
    pub live_handlers: u64,
    pub timed_out: bool,
    pub fatal_accept: bool,
}

impl View for Proxy {
    type V = ProxyModel;

    open spec fn view(&self) -> ProxyModel {
        ProxyModel {
            phase: self.phase,
            live_handlers: self.live_handlers as nat,
            timed_out: self.timed_out,
            fatal_accept: self.fatal_accept,
        }
    }
}

impl Proxy {
    /// The machine at startup.
    pub fn new() -> (p: Proxy)
        ensures
            p@ == init_proxy(),
    {
        let p = Proxy {
            phase: Phase::Running,
            live_handlers: 0,
            timed_out: false,
            fatal_accept: false,
        };
        proof {
            assert(p@ =~= init_proxy());
        }
        p
    }

    /// Feeds one event in and returns the action to carry out.
    pub fn step(&mut self, ev: ProxyEvent) -> (a: ProxyAction)
        requires
            ev is AcceptedDialOk ==> old(self).live_handlers < u64::MAX,
        ensures
            final(self)@ == proxy_step(old(self)@, ev),
            a == proxy_action(old(self)@, ev),
    {
        let a = match self.phase {
            Phase::Running => match ev {
                ProxyEvent::AcceptedDialOk => {
                    self.live_handlers = self.live_handlers + 1;
                    ProxyAction::SpawnHandler
                },
                ProxyEvent::AcceptedDialErr => ProxyAction::DropConnection,
                ProxyEvent::AcceptFatal => {
                    self.phase = if self.live_handlers == 0 {
                        Phase::Terminated
                    } else {
                        Phase::Draining
                    };
                    self.fatal_accept = true;
                    ProxyAction::BeginDrain
                },
                ProxyEvent::Cancelled => {
                    self.phase = if self.live_handlers == 0 {
                        Phase::Terminated
                    } else {
                        Phase::Draining
                    };
                    self.fatal_accept = false;
                    ProxyAction::BeginDrain
                },
                ProxyEvent::HandlerFinished => {
                    if self.live_handlers > 0 {
                        self.live_handlers = self.live_handlers - 1;
                    }
                    ProxyAction::Ignore
                },
                ProxyEvent::DrainTimeout => ProxyAction::Ignore,
            },
            Phase::Draining => match ev {
                ProxyEvent::HandlerFinished => {
                    if self.live_handlers > 1 {
                        self.live_handlers = self.live_handlers - 1;
                        ProxyAction::Ignore
                    } else {
                        self.phase = Phase::Terminated;
                        self.live_handlers = 0;
                        ProxyAction::Exit
                    }
                },
                ProxyEvent::DrainTimeout => {
                    self.phase = Phase::Terminated;
                    self.timed_out = true;
                    ProxyAction::Exit
                },
                _ => ProxyAction::Ignore,
            },
            Phase::Terminated => ProxyAction::Ignore,
        };
        proof {
            assert(self@ =~= proxy_step(old(self)@, ev));
        }
        a
    }

    /// Whether the service still accepts new connections.
    pub fn accepting(&self) -> (r: bool)
        ensures
            r == (self@.phase is Running),
    {
        matches!(self.phase, Phase::Running)
    }
}

/// The begun drain never spawns: after the drain has begun, an accepted
/// connection is ignored, never turned into a handler.
pub proof fn lemma_no_spawn_after_drain(s: ProxyModel, ev: ProxyEvent)
    requires
        !(s.phase is Running),
    ensures
        proxy_action(s, ev) != ProxyAction::SpawnHandler,
        proxy_step(s, ev).live_handlers <= s.live_handlers,
{
}

/// Law: a failed dial is isolated. It drops that one connection and leaves
/// the whole lifecycle state exactly where it was, so a trace with a dial
/// failure anywhere in it ends in the same state as the trace without it.
pub proof fn lemma_dial_failure_isolated(
    s: ProxyModel,
    before: Seq<ProxyEvent>,
    after: Seq<ProxyEvent>,
)
    ensures
        proxy_after(s, before + seq![ProxyEvent::AcceptedDialErr] + after) == proxy_after(
            s,
            before + after,
        ),
    decreases before.len(),
{
    let evs = before + seq![ProxyEvent::AcceptedDialErr] + after;
    if before.len() == 0 {
        assert(evs[0] == ProxyEvent::AcceptedDialErr);
        assert(proxy_step(s, ProxyEvent::AcceptedDialErr) == s);
        assert(evs.skip(1) =~= after);
        assert(before + after =~= after);
        lemma_proxy_after_unfold(s, after);
    } else {
        assert(evs[0] == before[0]);
        assert(evs.skip(1) =~= before.skip(1) + seq![ProxyEvent::AcceptedDialErr] + after);
        assert((before + after)[0] == before[0]);
        assert((before + after).skip(1) =~= before.skip(1) + after);
        lemma_dial_failure_isolated(proxy_step(s, before[0]), before.skip(1), after);
    }
}

proof fn lemma_proxy_after_unfold(s: ProxyModel, evs: Seq<ProxyEvent>)
    ensures
        proxy_after(s, evs) == if evs.len() == 0 {
            s
        } else {
            proxy_after(proxy_step(s, evs[0]), evs.skip(1))
        },
{
}

/// Law: termination is final. Once the machine is terminated, no sequence of
/// further events moves it at all.
pub proof fn lemma_terminated_is_final(s: ProxyModel, evs: Seq<ProxyEvent>)
    requires
        s.phase is Terminated,
    ensures
        proxy_after(s, evs) == s,
    decreases evs.len(),
{
    if evs.len() > 0 {
        assert(proxy_step(s, evs[0]) == s);
        lemma_terminated_is_final(s, evs.skip(1));
    }
}

/// A sequence of `k` handler-finished events.
pub open spec fn finished_events(k: nat) -> Seq<ProxyEvent>
    decreases k,
{
    if k == 0 {
        Seq::empty()
    } else {
        seq![ProxyEvent::HandlerFinished] + finished_events((k - 1) as nat)
    }
}

proof fn lemma_drain_finishes(s: ProxyModel)
    requires
        s.phase is Draining,
        s.live_handlers > 0,
    ensures
        proxy_after(s, finished_events(s.live_handlers)) == (ProxyModel {
            phase: Phase::Terminated,
            live_handlers: 0,
            ..s
        }),
    decreases s.live_handlers,
{
    let evs = finished_events(s.live_handlers);
    assert(evs[0] == ProxyEvent::HandlerFinished);
    assert(evs.skip(1) =~= finished_events((s.live_handlers - 1) as nat));
    if s.live_handlers > 1 {
        lemma_drain_finishes(ProxyModel { live_handlers: (s.live_handlers - 1) as nat, ..s });
    } else {
        lemma_terminated_is_final(
            ProxyModel { phase: Phase::Terminated, live_handlers: 0, ..s },
            evs.skip(1),
        );
    }
}

/// Law: graceful shutdown, the clean way. From a running state with some
/// live handlers, the cancellation signal begins the drain at once (no more
/// connections are accepted, the live handlers run on), and once each of
/// them finishes the machine terminates, promptly and without the timeout.
pub proof fn lemma_graceful_shutdown_clean(s: ProxyModel)
    requires
        s.phase is Running,
        !s.timed_out,
    ensures
        !(proxy_step(s, ProxyEvent::Cancelled).phase is Running),
        proxy_step(s, ProxyEvent::Cancelled).live_handlers == s.live_handlers,
        proxy_after(
            s,
            seq![ProxyEvent::Cancelled] + finished_events(s.live_handlers),
        ).phase is Terminated,
        !proxy_after(s, seq![ProxyEvent::Cancelled] + finished_events(s.live_handlers)).timed_out,
{
    let evs = seq![ProxyEvent::Cancelled] + finished_events(s.live_handlers);
    assert(evs[0] == ProxyEvent::Cancelled);
    assert(evs.skip(1) =~= finished_events(s.live_handlers));
    let s1 = proxy_step(s, ProxyEvent::Cancelled);
    if s.live_handlers == 0 {
        lemma_terminated_is_final(s1, evs.skip(1));
    } else {
        lemma_drain_finishes(s1);
    }
}

/// Law: graceful shutdown, by the timeout. If the drain is still waiting on
/// live handlers when the timeout elapses, the machine terminates anyway,
/// and the state records that the drain timed out (the logged warning).
pub proof fn lemma_graceful_shutdown_timeout(s: ProxyModel)
    requires
        s.phase is Running,
        s.live_handlers > 0,
    ensures
        proxy_after(s, seq![ProxyEvent::Cancelled, ProxyEvent::DrainTimeout]).phase is Terminated,
        proxy_after(s, seq![ProxyEvent::Cancelled, ProxyEvent::DrainTimeout]).timed_out,
        proxy_after(s, seq![ProxyEvent::Cancelled, ProxyEvent::DrainTimeout]).live_handlers
            == s.live_handlers,
{
    let evs = seq![ProxyEvent::Cancelled, ProxyEvent::DrainTimeout];
    assert(evs[0] == ProxyEvent::Cancelled);
    assert(evs.skip(1) =~= seq![ProxyEvent::DrainTimeout]);
    assert(evs.skip(1)[0] == ProxyEvent::DrainTimeout);
    assert(evs.skip(1).skip(1) =~= Seq::<ProxyEvent>::empty());
    let s1 = proxy_step(s, ProxyEvent::Cancelled);
    assert(s1.phase is Draining);
    let s2 = proxy_step(s1, ProxyEvent::DrainTimeout);
    assert(s2.phase is Terminated && s2.timed_out && s2.live_handlers == s.live_handlers);
    assert(proxy_after(s, evs) == proxy_after(s1, evs.skip(1)));
    assert(proxy_after(s1, evs.skip(1)) == proxy_after(s2, evs.skip(1).skip(1)));
}

}
