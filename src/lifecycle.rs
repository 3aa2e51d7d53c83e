//! Lifecycle of the single always-on connection: start once, signal
//! readiness, shut down once.
use vstd::prelude::*;
use crate::cache::CorrelationCache;

verus! {

/// Acknowledgement handed back by a start request.
pub const START_ACK: &'static str = "Bot connecting in background...";

/// Where the connection stands.
#[derive(Clone, Copy, Debug, PartialEq, Eq, Structural)]
pub enum Phase {
    /// Nothing started yet: no credential, no execution context.
    Idle,
    /// A connection attempt is running in the background.
    Connecting,
    /// The remote service signalled readiness.
    Launched,
    /// Shut down; the execution context is gone for good.
    Stopped,
}

/// The abstract state of a lifecycle.
pub struct LifecycleState {
    pub credential: Seq<char>,
    pub launched: bool,
    pub has_context: bool,
    pub phase: Phase,
}

/// What the caller must do after a start request.
pub struct StartAction {
    /// Text to hand back to the host at once.
    pub ack: String,
    /// Build the background execution context first.
    pub create_context: bool,
    /// Run a connection attempt on the execution context.
    pub spawn_connection: bool,
}

/// The state after a start request with `credential`: only an idle lifecycle
/// moves, to `Connecting`, with the credential stored and a context present.
pub open spec fn start_spec(s: LifecycleState, credential: Seq<char>) -> LifecycleState {
    if s.phase == Phase::Idle {
        LifecycleState { credential, launched: s.launched, has_context: true, phase: Phase::Connecting }
    } else {
        s
    }
}

/// The state after the readiness signal: launched, and `Launched` when a
/// connection attempt was running.
pub open spec fn ready_spec(s: LifecycleState) -> LifecycleState {
    LifecycleState {
        launched: true,
        phase: if s.phase == Phase::Connecting { Phase::Launched } else { s.phase },
        ..s
    }
}

/// The state after a shutdown: stopped, with no execution context.
pub open spec fn shutdown_spec(s: LifecycleState) -> LifecycleState {
    LifecycleState { has_context: false, phase: Phase::Stopped, ..s }
}

/// The process-wide connection state: credential, readiness flag and whether
/// the background execution context is alive.
pub struct ConnectionLifecycle {
    credential: String,
    launched: bool,
    has_context: bool,
    phase: Phase,
}

impl View for ConnectionLifecycle {
    type V = LifecycleState;

    closed spec fn view(&self) -> LifecycleState {
        LifecycleState {
            credential: self.credential@,
            launched: self.launched,
            has_context: self.has_context,
            phase: self.phase,
        }
    }
}

impl ConnectionLifecycle {
    /// A lifecycle that has not started: `Idle`, no credential, no context,
    /// not launched.
    pub fn new() -> (r: ConnectionLifecycle)
        ensures
            r@.phase == Phase::Idle,
            r@.credential == Seq::<char>::empty(),
            !r@.launched,
            !r@.has_context,
    {
        ConnectionLifecycle { credential: String::new(), launched: false, has_context: false, phase: Phase::Idle }
    }

    /// Requests the connection. An idle lifecycle stores the credential,
    /// asks for the execution context when there is none and for one
    /// connection attempt; in any other phase the request changes nothing
    /// and asks for nothing, so no second event stream can start. The
    /// acknowledgement never depends on how the attempt turns out.
    pub fn start(&mut self, credential: String) -> (r: StartAction)
        ensures
            final(self)@ == start_spec(old(self)@, credential@),
            r.ack@ == START_ACK@,
            r.spawn_connection == (old(self)@.phase == Phase::Idle),
            r.create_context == (old(self)@.phase == Phase::Idle && !old(self)@.has_context),
    {
        let ack = String::from_str(START_ACK);
        if self.phase == Phase::Idle {
            let create = !self.has_context;
            self.credential = credential;
            self.has_context = true;
            self.phase = Phase::Connecting;
            StartAction { ack, create_context: create, spawn_connection: true }
        } else {
            StartAction { ack, create_context: false, spawn_connection: false }
        }
    }

    /// Records the remote service's readiness signal.
    pub fn on_ready(&mut self)
        ensures
            final(self)@ == ready_spec(old(self)@),
    {
        self.launched = true;
        if self.phase == Phase::Connecting {
            self.phase = Phase::Launched;
        }
    }

    /// Whether the readiness signal has fired.
    pub fn is_launched(&self) -> (r: bool)
        ensures
            r == self@.launched,
    {
        self.launched
    }

    /// Whether the background execution context is alive, so that work can
    /// be dispatched onto it.
    pub fn has_context(&self) -> (r: bool)
        ensures
            r == self@.has_context,
    {
        self.has_context
    }

    /// The phase the connection is in.
    pub fn phase(&self) -> (r: Phase)
        ensures
            r == self@.phase,
    {
        self.phase
    }

    /// The stored credential.
    pub fn credential(&self) -> (r: String)
        ensures
            r@ == self@.credential,
    {
        self.credential.clone()
    }

    /// Shuts down: takes the execution context away for good and clears the
    /// correlation cache. Returns whether there was a context to stop, which
    /// the caller then drains within its grace period. A second call finds
    /// no context and changes nothing.
    pub fn shutdown(&mut self, cache: &mut CorrelationCache) -> (r: bool)
        ensures
            r == old(self)@.has_context,
            final(self)@ == shutdown_spec(old(self)@),
            final(cache).wf(),
            final(cache)@ == Map::<Seq<char>, (Seq<char>, Seq<char>)>::empty(),
    {
        let had = self.has_context;
        self.has_context = false;
        self.phase = Phase::Stopped;
        cache.clear();
        had
    }
}

/// The launched flag never goes back: no transition clears it, and the
/// readiness signal sets it. Before the signal, no other transition sets it.
pub proof fn lemma_launched_monotone(s: LifecycleState, credential: Seq<char>)
    ensures
        ready_spec(s).launched,
        s.launched ==> start_spec(s, credential).launched,
        s.launched ==> ready_spec(s).launched,
        s.launched ==> shutdown_spec(s).launched,
        !s.launched ==> !start_spec(s, credential).launched,
        !s.launched ==> !shutdown_spec(s).launched,
{
}

/// Shutting down twice is the same as shutting down once: both times there
/// is no execution context afterwards, and a lifecycle that was never
/// launched stays unlaunched.
pub proof fn lemma_shutdown_idempotent(s: LifecycleState)
    ensures
        shutdown_spec(shutdown_spec(s)) == shutdown_spec(s),
        !shutdown_spec(s).has_context,
        !shutdown_spec(shutdown_spec(s)).has_context,
        !s.launched ==> !shutdown_spec(s).launched && !shutdown_spec(shutdown_spec(s)).launched,
{
}

/// Once stopped, a lifecycle stays stopped: a later start neither brings the
/// execution context back nor starts a connection.
pub proof fn lemma_no_restart(s: LifecycleState, credential: Seq<char>)
    ensures
        start_spec(shutdown_spec(s), credential) == shutdown_spec(s),
{
}

} // verus!
