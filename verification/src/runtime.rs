//! The foreign runtime lifecycle manager.
//!
//! The foreign runtime is started at most once and shut down at most once
//! per process, whatever mixture of explicit calls and the process-exit
//! hook fires.  Three one-shot guards carry the whole design: one for the
//! start, one for the caller's permission to stop, and one — shared by the
//! explicit stop and the exit hook — for the real foreign shutdown call.
//! The state machine runs `Uninitialized` to `Running` to `Stopped` and
//! never back.

use vstd::prelude::*;
use crate::errors::DucklingError;
use crate::foreign::ForeignEngine;

verus! {

/// The process-wide lifecycle state of the foreign runtime.
///
/// A process holds exactly one of these; every facade operation consults
/// it before any foreign call.
pub struct Runtime {
    started: bool,
    stop_consumed: bool,
    shutdown_done: bool,
}

impl Runtime {
    /// Whether the foreign start was performed.
    pub closed spec fn is_started(self) -> bool {
        self.started
    }

    /// Whether the one-shot permission to call `stop` was consumed.
    pub closed spec fn stop_consumed(self) -> bool {
        self.stop_consumed
    }

    /// Whether the shared shutdown guard was consumed (by the explicit
    /// `stop` or by the exit hook).
    pub closed spec fn shut_down(self) -> bool {
        self.shutdown_done
    }

    /// `Running`: started and not yet shut down; the only state in which
    /// facade operations may reach the foreign engine.
    pub open spec fn is_running(self) -> bool {
        self.is_started() && !self.shut_down()
    }

    /// `Stopped`: the shutdown guard fired; no way back to `Running`.
    pub open spec fn is_stopped(self) -> bool {
        self.shut_down()
    }

    /// `Uninitialized`: nothing has happened yet.
    pub open spec fn is_uninitialized(self) -> bool {
        !self.is_started() && !self.stop_consumed() && !self.shut_down()
    }

    /// Every state reachable from a fresh `Runtime`: consuming the stop
    /// permission always consumes the shutdown guard with it.
    pub open spec fn wf(self) -> bool {
        self.stop_consumed() ==> self.shut_down()
    }

    /// The state after a call of [`init`].
    pub closed spec fn init_step(self) -> Runtime {
        Runtime { started: true, ..self }
    }

    /// Whether a call of [`init`] on this state performs the foreign start
    /// and installs the exit hook.
    pub open spec fn init_fires(self) -> bool {
        !self.is_started()
    }

    /// The state after a run of the shared shutdown path.
    pub closed spec fn shutdown_step(self) -> Runtime {
        Runtime { shutdown_done: true, ..self }
    }

    /// Whether a run of the shared shutdown path performs the foreign
    /// shutdown call: only once, and only if the runtime ever started.
    pub open spec fn shutdown_fires(self) -> bool {
        self.is_started() && !self.shut_down()
    }

    /// The state after a call of [`stop`], successful or not.
    pub closed spec fn stop_step(self) -> Runtime {
        if self.stop_consumed {
            self
        } else {
            Runtime { stop_consumed: true, ..self }.shutdown_step()
        }
    }

    /// A fresh lifecycle: the `Uninitialized` state.
    pub fn new() -> (rt: Runtime)
        ensures
            rt.is_uninitialized(),
            rt.wf(),
    {
        Runtime { started: false, stop_consumed: false, shutdown_done: false }
    }

    /// Whether the runtime is in the `Running` state.
    pub fn running(&self) -> (b: bool)
        ensures
            b == self.is_running(),
    {
        self.started && !self.shutdown_done
    }
}

/// Starts the foreign runtime.  Idempotent and infallible: the first call
/// on a fresh state performs the foreign start and installs the
/// process-exit hook; every later call changes nothing and reaches the
/// engine not at all.  The returned flag says whether this call was the
/// one that started the runtime.
pub fn init<E: ForeignEngine>(rt: &mut Runtime, engine: &mut E) -> (started_now: bool)
    ensures
        *final(rt) == old(rt).init_step(),
        started_now == old(rt).init_fires(),
        final(rt).is_started(),
        final(rt).stop_consumed() == old(rt).stop_consumed(),
        final(rt).shut_down() == old(rt).shut_down(),
        old(rt).wf() ==> final(rt).wf(),
        old(rt).is_uninitialized() ==> final(rt).is_running(),
{
    if rt.started {
        return false;
    }
    engine.runtime_init();
    engine.install_exit_hook();
    rt.started = true;
    true
}

/// The shared shutdown path, run by the explicit [`stop`] and by the
/// process-exit hook alike.  Idempotent and safe in every state: the
/// foreign shutdown call fires at most once per process, and only if the
/// runtime ever started.  The returned flag says whether this run fired
/// it.
pub fn shutdown<E: ForeignEngine>(rt: &mut Runtime, engine: &mut E) -> (fired: bool)
    ensures
        *final(rt) == old(rt).shutdown_step(),
        fired == old(rt).shutdown_fires(),
        final(rt).is_stopped(),
        final(rt).is_started() == old(rt).is_started(),
        final(rt).stop_consumed() == old(rt).stop_consumed(),
        old(rt).wf() ==> final(rt).wf(),
{
    if rt.shutdown_done {
        return false;
    }
    rt.shutdown_done = true;
    if rt.started {
        engine.runtime_exit();
        return true;
    }
    false
}

/// Stops the foreign runtime before process exit.  The permission to do so
/// exists once per process: the first call consumes it and runs the shared
/// shutdown path; every later call fails and changes nothing, reaching the
/// engine not at all.  Calling before [`init`] is safe — foreign-side a
/// no-op — but still consumes the permission.
pub fn stop<E: ForeignEngine>(rt: &mut Runtime, engine: &mut E) -> (r: Result<(), DucklingError>)
    ensures
        *final(rt) == old(rt).stop_step(),
        final(rt).is_started() == old(rt).is_started(),
        r is Ok <==> !old(rt).stop_consumed(),
        r is Err ==> r == Err::<(), DucklingError>(DucklingError::RuntimeAlreadyStopped)
            && *final(rt) == *old(rt),
        final(rt).stop_consumed(),
        r is Ok ==> final(rt).is_stopped(),
        old(rt).wf() ==> final(rt).wf(),
{
    if rt.stop_consumed {
        return Err(DucklingError::RuntimeAlreadyStopped);
    }
    rt.stop_consumed = true;
    shutdown(rt, engine);
    Ok(())
}

/// Law: initialisation is idempotent.  From the fresh state, one `init`
/// reaches `Running`; any number of further `init` calls leaves the state
/// exactly `Running` and performs no further foreign start.
pub proof fn lemma_init_idempotent(rt: Runtime)
    requires
        rt.is_uninitialized(),
    ensures
        rt.init_step().is_running(),
        rt.init_step().init_step() == rt.init_step(),
        !rt.init_step().init_fires(),
{
}

/// Law: the stop permission is consumed by every `stop` call, so `stop`
/// succeeds at most once per process — after any `stop`, every further
/// `stop` fails with `RuntimeAlreadyStopped` and changes nothing.
pub proof fn lemma_stop_at_most_once(rt: Runtime)
    ensures
        rt.stop_step().stop_consumed(),
        rt.stop_step().stop_step() == rt.stop_step(),
        !rt.stop_consumed() ==> rt.stop_step().is_stopped(),
{
}

/// Law: the shared shutdown guard executes the foreign shutdown at most
/// once, whichever of its two trigger paths — the explicit `stop` or the
/// process-exit hook — comes first, in whatever order and number.
pub proof fn lemma_shutdown_single_execution(rt: Runtime)
    requires
        rt.wf(),
    ensures
        !rt.shutdown_step().shutdown_fires(),
        rt.shutdown_step().shutdown_step() == rt.shutdown_step(),
        !rt.stop_step().shutdown_fires(),
        rt.stop_step().shutdown_step() == rt.stop_step(),
{
}

/// Law: no transition leaves the `Stopped` state — neither a further
/// `init` nor a further `stop` nor the exit hook brings the runtime back
/// to `Running`.
pub proof fn lemma_stopped_is_final(rt: Runtime)
    requires
        rt.is_stopped(),
    ensures
        rt.init_step().is_stopped(),
        rt.stop_step().is_stopped(),
        rt.shutdown_step().is_stopped(),
        !rt.init_step().is_running(),
        !rt.stop_step().is_running(),
        !rt.shutdown_step().is_running(),
{
}

} // verus!
