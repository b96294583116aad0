//! The guarded state of the worker subprocess: the process handle and the
//! write end of its input stream, held as a pair that is either both present
//! or both absent at every rest point.
//!
//! The handles themselves are opaque to this module (the host owns the real
//! process and pipe types and performs the spawning, writing and killing);
//! what is verified is every transition of the guarded pair: the
//! check-then-spawn step never spawns over a live worker, and stopping always
//! leaves the pair fully absent, whatever partial failures the host swallows.

use vstd::prelude::*;

verus! {

/// The mutually exclusive region guarding the worker's process handle and
/// input-stream handle. The host wraps it in its lock and holds the lock for
/// each whole check-then-spawn, send or stop sequence.
pub struct Supervisor<P, S> {
    pub child: Option<P>,
    pub stdin: Option<S>,
}

impl<P, S> Supervisor<P, S> {
    /// Both handles are present: a worker is considered live.
    pub open spec fn is_running(self) -> bool {
        self.child is Some && self.stdin is Some
    }

    /// Both handles are absent: the idle state.
    pub open spec fn is_stopped(self) -> bool {
        self.child is None && self.stdin is None
    }

    /// The guarded invariant: never one handle without the other.
    pub open spec fn paired(self) -> bool {
        self.is_running() || self.is_stopped()
    }

    /// The initial, idle supervisor.
    pub fn new() -> (s: Self)
        ensures
            s.is_stopped(),
    {
        Supervisor { child: None, stdin: None }
    }

    /// The check of the check-then-spawn sequence: true exactly when no live
    /// worker is held, so a caller spawns only then.
    pub fn needs_spawn(&self) -> (b: bool)
        ensures
            b == ensure_running_spawns(*self),
    {
        !(self.child.is_some() && self.stdin.is_some())
    }

    /// Stores the handles of a freshly spawned worker, atomically making the
    /// pair fully present.
    pub fn install(&mut self, child: P, stdin: S)
        requires
            !old(self).is_running(),
        ensures
            final(self).is_running(),
            *final(self) == ensure_running_post(*old(self), child, stdin),
    {
        self.child = Some(child);
        self.stdin = Some(stdin);
    }

    /// Tears the pair down, returning whatever was held so the host can
    /// write a farewell line and kill the process. Idempotent, and the state
    /// afterwards is always fully absent, never partially populated.
    pub fn stop(&mut self) -> (r: (Option<S>, Option<P>))
        ensures
            *final(self) == stop_post(*old(self)),
            final(self).is_stopped(),
            r.0 == old(self).stdin,
            r.1 == old(self).child,
    {
        let stdin = self.stdin.take();
        let child = self.child.take();
        (stdin, child)
    }

    /// Lends the input-stream handle out for one write. The host returns it
    /// with `attach_stdin` before releasing its lock, so the pair is whole at
    /// every rest point; `None` means no worker is live and the send fails
    /// or is skipped.
    pub fn detach_stdin(&mut self) -> (r: Option<S>)
        ensures
            r == old(self).stdin,
            final(self).stdin is None,
            final(self).child == old(self).child,
    {
        self.stdin.take()
    }

    /// Returns a lent input-stream handle, restoring the pair.
    pub fn attach_stdin(&mut self, stdin: S)
        ensures
            final(self).stdin == Option::Some(stdin),
            final(self).child == old(self).child,
    {
        self.stdin = Some(stdin);
    }
}

/// Whether one ensure-running step starting from `s` spawns a worker: only
/// when no live pair is held.
pub open spec fn ensure_running_spawns<P, S>(s: Supervisor<P, S>) -> bool {
    !s.is_running()
}

/// The state after one ensure-running step that, where it spawned, installed
/// the fresh handles; where a pair was already live, the state is untouched.
pub open spec fn ensure_running_post<P, S>(s: Supervisor<P, S>, child: P, stdin: S) -> Supervisor<
    P,
    S,
> {
    if s.is_running() {
        s
    } else {
        Supervisor { child: Option::Some(child), stdin: Option::Some(stdin) }
    }
}

/// Two ensure-running steps in a row, with no stop in between, spawn at most
/// one worker: after the first step the pair is live, so the second step
/// never spawns. Moreover each step keeps the pairing invariant.
pub proof fn lemma_ensure_running_idempotent<P, S>(s: Supervisor<P, S>, child: P, stdin: S)
    requires
        s.paired(),
    ensures
        !ensure_running_spawns(ensure_running_post(s, child, stdin)),
        ensure_running_post(s, child, stdin).paired(),
        ensure_running_post(ensure_running_post(s, child, stdin), child, stdin)
            == ensure_running_post(s, child, stdin),
{
}

/// The state after a stop, whatever was held before.
pub open spec fn stop_post<P, S>(s: Supervisor<P, S>) -> Supervisor<P, S> {
    Supervisor { child: Option::None, stdin: Option::None }
}

/// Stopping, from any state — live, idle, or even a hypothetical partial
/// one — reaches the idle state: both handles absent, never one without the
/// other; stopping again changes nothing.
pub proof fn lemma_stop_reaches_idle<P, S>(s: Supervisor<P, S>)
    ensures
        stop_post(s).is_stopped(),
        stop_post(s).paired(),
        !stop_post(s).is_running(),
        stop_post(stop_post(s)) == stop_post(s),
{
}

} // verus!
