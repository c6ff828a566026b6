//! Resolution: bridging an opaque handle to a typed reference.
//!
//! The value behind a handle may not exist yet, so resolution crosses a
//! cooperative-suspension boundary.  This module holds the verified state
//! machine of one resolution: each transition says what the driver must do
//! next (query the backend, suspend, run the cast, release bookkeeping), and
//! the driver — the unverified glue that owns the actual waiting — performs
//! that action and delivers the backend's answer back.  The cast step itself
//! is synchronous and pure, and runs only once the cell content is in hand.

use vstd::pervasive::unreached;
use vstd::prelude::*;

use crate::cast::{CastError, VcCast};
use crate::cell::CellContent;

verus! {

/// An opaque reference to a memoized computation's eventual result,
/// independent of whether that result is computed yet.
#[derive(Clone, Copy, PartialEq, Eq, Structural, Debug, Hash)]
pub struct Handle {
    pub id: u64,
}

/// The error a failed upstream computation reported.  Resolution passes it
/// through unchanged; it is never interpreted here.
#[derive(Debug)]
pub struct TaskError {
    pub message: String,
}

/// The backend's answer when asked for the cell behind a handle.
pub enum BackendEvent<U> {
    /// The cell is published; here is its content.
    CellReady(CellContent<U>),
    /// The computation producing the cell itself failed.
    TaskFailed(TaskError),
    /// The computation is still in flight.
    StillComputing,
}

/// What the driver must do after a transition.
#[derive(Clone, Copy, PartialEq, Eq, Structural, Debug)]
pub enum StepAction {
    /// Ask the backend for the cell behind the handle.
    QueryBackend(Handle),
    /// Yield to the scheduler and deliver the backend's next answer for this
    /// handle when it comes; other tasks keep running meanwhile.
    Suspend,
    /// The cell content is in hand: run the synchronous cast step now.
    CastNow,
    /// Tell the backend to drop this resolution's dependency bookkeeping.
    ReleaseWait,
    /// Nothing further to do.
    Done,
}

/// An error surfaced by resolution: either the cast step failed, or the
/// upstream computation behind the handle failed and its error is passed
/// through unchanged — the two are distinguished kinds.
#[derive(Debug)]
pub enum ResolveError {
    Cast(CastError),
    UpstreamComputationFailed(TaskError),
}

/// The states of one resolution, in order of progress.
pub enum ResolutionState<C: VcCast> {
    /// Handle submitted; the backend has not been queried yet.
    Pending,
    /// Backend queried; the computation may be in flight.
    AwaitingCell,
    /// The cell content is in hand; the cast step has not run yet.
    Resolved(CellContent<C::Universe>),
    /// Terminal: the cast step ran, or an upstream failure was passed
    /// through without attempting a cast.
    Cast(Result<C::Output, ResolveError>),
    /// Terminal: the consuming task was cancelled while the resolution was
    /// in flight; no typed reference was produced.
    Cancelled,
}

/// One resolution of a handle through a cast strategy `C`.
///
/// The only constructor starts in the pending state, and every transition
/// demands the state it steps from, so a resolution moves through its states
/// linearly: it completes at most once, and once terminal it never moves
/// again.
pub struct ResolutionFuture<C: VcCast> {
    handle: Handle,
    state: ResolutionState<C>,
}

impl<C: VcCast> ResolutionFuture<C> {
    /// The handle being resolved.
    pub closed spec fn handle(self) -> Handle {
        self.handle
    }

    /// The state the resolution is in.
    pub closed spec fn state(self) -> ResolutionState<C> {
        self.state
    }

    /// Whether a typed reference has been produced.
    pub open spec fn has_reference(self) -> bool {
        &&& self.state() is Cast
        &&& self.state()->Cast_0 is Ok
    }

    /// Submit a handle for resolution.
    pub fn new(handle: Handle) -> (f: Self)
        ensures
            f.handle() == handle,
            f.state() is Pending,
            !f.has_reference(),
    {
        ResolutionFuture { handle, state: ResolutionState::Pending }
    }

    /// Request the cell from the backend.
    pub fn query(self) -> (r: (Self, StepAction))
        requires
            self.state() is Pending,
        ensures
            r.0.handle() == self.handle(),
            r.0.state() is AwaitingCell,
            r.1 == StepAction::QueryBackend(self.handle()),
    {
        let handle = self.handle;
        (
            ResolutionFuture { handle, state: ResolutionState::AwaitingCell },
            StepAction::QueryBackend(handle),
        )
    }

    /// Deliver the backend's answer.  While the computation is still in
    /// flight the resolution suspends — cooperatively, without blocking any
    /// other task; a reported upstream failure short-circuits to the
    /// terminal state without attempting a cast; published content moves to
    /// the resolved state for the synchronous cast step.
    pub fn on_event(self, event: BackendEvent<C::Universe>) -> (r: (Self, StepAction))
        requires
            self.state() is AwaitingCell,
        ensures
            r.0.handle() == self.handle(),
            match event {
                BackendEvent::CellReady(c) => {
                    &&& r.0.state() == ResolutionState::<C>::Resolved(c)
                    &&& r.1 == StepAction::CastNow
                },
                BackendEvent::TaskFailed(e) => {
                    &&& r.0.state() == ResolutionState::<C>::Cast(
                        Err(ResolveError::UpstreamComputationFailed(e)),
                    )
                    &&& r.1 == StepAction::Done
                },
                BackendEvent::StillComputing => {
                    &&& r.0.state() is AwaitingCell
                    &&& r.1 == StepAction::Suspend
                },
            },
    {
        let handle = self.handle;
        match event {
            BackendEvent::CellReady(c) => (
                ResolutionFuture { handle, state: ResolutionState::Resolved(c) },
                StepAction::CastNow,
            ),
            BackendEvent::TaskFailed(e) => (
                ResolutionFuture {
                    handle,
                    state: ResolutionState::Cast(Err(ResolveError::UpstreamComputationFailed(e))),
                },
                StepAction::Done,
            ),
            BackendEvent::StillComputing => (
                ResolutionFuture { handle, state: ResolutionState::AwaitingCell },
                StepAction::Suspend,
            ),
        }
    }

    /// Apply the cast strategy to the resolved content.  Synchronous: never
    /// suspends.  The admissibility demanded here is the strategy's own —
    /// for the trait-interface cast, the upstream conformance guarantee.
    pub fn finish(self) -> (r: (Self, StepAction))
        requires
            self.state() is Resolved,
            C::admissible(self.state()->Resolved_0),
        ensures
            r.0.handle() == self.handle(),
            r.0.state() is Cast,
            r.1 == StepAction::Done,
            ({
                let content = self.state()->Resolved_0;
                match r.0.state()->Cast_0 {
                    Ok(out) => C::succeeds(content) && C::cast_ok(content, out),
                    Err(ResolveError::Cast(e)) => !C::succeeds(content) && C::cast_err(content, e),
                    Err(ResolveError::UpstreamComputationFailed(_)) => false,
                }
            }),
    {
        let handle = self.handle;
        match self.state {
            ResolutionState::Resolved(content) => {
                let cast_result = match C::cast(content) {
                    Ok(out) => Ok(out),
                    Err(e) => Err(ResolveError::Cast(e)),
                };
                (ResolutionFuture { handle, state: ResolutionState::Cast(cast_result) }, StepAction::Done)
            },
            _ => unreached(),
        }
    }

    /// Abandon the resolution before it terminates.  No typed reference
    /// exists until the cast step completes, so none is leaked; if the
    /// resolution was suspended awaiting the cell, the driver must release
    /// the backend's dependency bookkeeping for that wait.
    pub fn cancel(self) -> (r: (Self, StepAction))
        requires
            !(self.state() is Cast),
            !(self.state() is Cancelled),
        ensures
            r.0.handle() == self.handle(),
            r.0.state() is Cancelled,
            !r.0.has_reference(),
            r.1 == if self.state() is AwaitingCell {
                StepAction::ReleaseWait
            } else {
                StepAction::Done
            },
    {
        let handle = self.handle;
        let action = match self.state {
            ResolutionState::AwaitingCell => StepAction::ReleaseWait,
            _ => StepAction::Done,
        };
        (ResolutionFuture { handle, state: ResolutionState::Cancelled }, action)
    }

    /// Take the terminal result: the typed reference, or the typed error.
    pub fn into_result(self) -> (r: Result<C::Output, ResolveError>)
        requires
            self.state() is Cast,
        ensures
            r == self.state()->Cast_0,
    {
        match self.state {
            ResolutionState::Cast(r) => r,
            _ => unreached(),
        }
    }

    /// Whether the backend has not been queried yet.
    pub fn is_pending(&self) -> (b: bool)
        ensures
            b == (self.state() is Pending),
    {
        matches!(self.state, ResolutionState::Pending)
    }

    /// Whether the resolution is suspended awaiting the cell.
    pub fn is_awaiting(&self) -> (b: bool)
        ensures
            b == (self.state() is AwaitingCell),
    {
        matches!(self.state, ResolutionState::AwaitingCell)
    }

    /// Whether the cell content is in hand with the cast step still to run.
    pub fn is_resolved(&self) -> (b: bool)
        ensures
            b == (self.state() is Resolved),
    {
        matches!(self.state, ResolutionState::Resolved(_))
    }

    /// Whether the resolution terminated with a result.
    pub fn is_finished(&self) -> (b: bool)
        ensures
            b == (self.state() is Cast),
    {
        matches!(self.state, ResolutionState::Cast(_))
    }

    /// Whether the resolution was cancelled.
    pub fn is_cancelled(&self) -> (b: bool)
        ensures
            b == (self.state() is Cancelled),
    {
        matches!(self.state, ResolutionState::Cancelled)
    }
}

/// Law: resolving the same cell twice yields interchangeable references —
/// any two outputs a cast strategy can produce for one cell are equal, so
/// they carry the same cell identity and read the same value.
pub proof fn lemma_resolution_idempotent<C: VcCast>(
    content: CellContent<C::Universe>,
    a: C::Output,
    b: C::Output,
)
    requires
        C::cast_ok(content, a),
        C::cast_ok(content, b),
    ensures
        a == b,
{
    C::cast_deterministic(content, a, b);
}

} // verus!
