//! A session: one executor and the logic of one unit of work, behind a
//! call that blocks the calling thread until the unit of work is done.

use crate::work::{
    marker_of, markers_for, markers_until, steps_left, Action, Marker, Phase, SessionInner,
};
use vstd::prelude::*;

verus! {

/// The multi-threaded executor of the tokio crate. Nothing inside it is
/// visible to the proofs: an `Executor` only carries it and hands it back
/// to the calls below.
#[verifier::external_type_specification]
#[verifier::external_body]
pub struct ExRuntime(tokio::runtime::Runtime);

/// The error that the operating system reports when a resource cannot be
/// had. It is carried from the executor's builder to `BlockingSession::assemble`.
#[verifier::external_type_specification]
#[verifier::external_body]
pub struct ExIoError(std::io::Error);

/// Why a session operation failed.
#[derive(Clone, Copy, Debug, PartialEq, Eq, Structural)]
pub enum SessionError {
    /// The worker threads or timers of the executor could not be obtained.
    ExecutorUnavailable,
    /// The handle already carries as many ownership units as can be counted.
    TooManyUnits,
}

/// The executor of a session: a multi-threaded tokio runtime with its
/// timers switched on. The field is private and only `build_executor`
/// fills it, so every value of this type was built that way.
pub struct Executor {
    rt: tokio::runtime::Runtime,
}

/// Calls `tokio::runtime::Builder::new_multi_thread`, `enable_all` and
/// `build`: a multi-threaded executor with every compiled-in driver
/// switched on, the timers among them, or the error of the operating
/// system where a driver could not be set up. Whether the build succeeds
/// depends on the machine, so nothing is claimed of the result. The
/// builder ends the process with a panic, in place of an error, where a
/// worker thread cannot be started or where the variable
/// `TOKIO_WORKER_THREADS` holds no positive number.
#[verifier::external_body]
fn build_executor() -> Result<Executor, std::io::Error> {
    match tokio::runtime::Builder::new_multi_thread().enable_all().build() {
        Ok(rt) => Ok(Executor { rt }),
        Err(e) => Err(e),
    }
}

/// Calls `tokio::runtime::Runtime::block_on` on the future that
/// `tokio::time::sleep` makes of `millis` milliseconds. The future is made
/// inside `Runtime::enter`, because a timer can only be made in the
/// context of an executor; the executor has timers, as every `Executor`
/// has. The calling thread is parked until the timer has fired. Nothing
/// is claimed beyond the return: time is not a value of the proofs.
/// `block_on` panics on a thread that is already driving an executor; a
/// session is meant for callers outside of one.
#[verifier::external_body]
fn wait_on(executor: &Executor, millis: u64) {
    let _context = executor.rt.enter();
    executor.rt.block_on(tokio::time::sleep(std::time::Duration::from_millis(millis)));
}

/// One executor bound to the logic of a unit of work.
pub struct BlockingSession {
    executor: Executor,
    inner: SessionInner,
}

impl BlockingSession {
    /// The executor that the session owns.
    pub closed spec fn executor(&self) -> Executor {
        self.executor
    }

    /// Makes a session of the outcome of building an executor: a session
    /// around that executor exactly where one was built,
    /// `ExecutorUnavailable` otherwise.
    pub fn assemble(built: Result<Executor, std::io::Error>) -> (made: Result<
        BlockingSession,
        SessionError,
    >)
        ensures
            match built {
                Ok(executor) => made.is_ok() && made.unwrap().executor() == executor,
                Err(_) => made == Err::<BlockingSession, SessionError>(
                    SessionError::ExecutorUnavailable,
                ),
            },
    {
        match built {
            Ok(executor) => Ok(BlockingSession { executor, inner: SessionInner {  } }),
            Err(_) => Err(SessionError::ExecutorUnavailable),
        }
    }

    /// Builds the executor and, around it, the session. It returns once
    /// the executor is ready for work. Where the operating system refuses
    /// a driver, the error is `ExecutorUnavailable`, and there is no other
    /// error. Where a worker thread cannot be started, or the variable
    /// `TOKIO_WORKER_THREADS` holds no positive number, the executor's
    /// builder does not return: it ends the process with a panic.
    pub fn new() -> (made: Result<BlockingSession, SessionError>)
        ensures
            made.is_err() ==> made == Err::<BlockingSession, SessionError>(
                SessionError::ExecutorUnavailable,
            ),
    {
        BlockingSession::assemble(build_executor())
    }

    /// Performs one action of a unit of work. A wait parks the calling
    /// thread on the executor for that many milliseconds. A marker is
    /// handed back at once, for the caller to announce. `Finish` does
    /// nothing. The session is left as it was.
    ///
    /// The caller must not itself be driving an executor: on such a
    /// thread the wait panics.
    pub fn perform(&self, action: Action) -> (marker: Option<Marker>)
        ensures
            marker == marker_of(action),
    {
        match action {
            Action::Emit(marker) => Some(marker),
            Action::Wait(time) => {
                wait_on(&self.executor, time);
                None
            },
            Action::Finish => None,
        }
    }

    /// Performs one unit of work and returns when it is complete: the
    /// start marker for `id`, a wait of `millis` milliseconds on the
    /// executor, the completion marker for `id`. The markers are
    /// collected in the order of these steps and handed back together at
    /// the end; a caller that has to announce each marker at its own time
    /// drives the steps of `SessionInner::run` through `perform`. The
    /// session itself is left as it was, so no call sees anything of
    /// another.
    ///
    /// The caller must not itself be driving an executor: on such a
    /// thread the wait panics.
    pub fn run(&self, id: usize, millis: u64) -> (log: Vec<Marker>)
        ensures
            log@ == markers_for(id),
    {
        let mut log: Vec<Marker> = Vec::new();
        let mut phase = Phase::Created;
        loop
            invariant
                log@ == markers_until(phase, id),
            decreases steps_left(phase),
        {
            let (next, action) = self.inner.run(phase, id, millis);
            if action == Action::Finish {
                return log;
            }
            match self.perform(action) {
                Some(marker) => {
                    log.push(marker);
                },
                None => {},
            }
            phase = next;
        }
    }
}

} // verus!
