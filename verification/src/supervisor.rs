//! The slot that owns the sidecar's process handle.
//!
//! A host keeps one [`SupervisorState`] for its lifetime and reaches it
//! through `&mut`, so that a spawn and a shutdown never interleave. The type
//! parameter `H` is the host's handle to a running process; the supervisor
//! never looks inside it and never copies it.

use vstd::multiset::Multiset;
use vstd::prelude::*;

verus! {

/// Why a spawn did not start a sidecar.
#[derive(Clone, Copy, Debug, PartialEq, Eq, Structural)]
pub enum SpawnError {
    /// No binary answers the locator on this platform.
    ResolutionFailed,
    /// The operating system refused to create the process.
    LaunchFailed,
    /// A handle is still held; at most one sidecar is supervised at a time.
    AlreadyRunning,
}

/// Where the most recent sidecar stands in its life.
#[derive(Clone, Copy, Debug, PartialEq, Eq, Structural)]
pub enum Phase {
    /// No sidecar was started yet.
    Unstarted,
    /// A sidecar was started and has not stopped.
    Running,
    /// The sidecar was shut down, or its process ended by itself.
    Stopped,
}

/// What the host's attempt to resolve and launch the binary came to.
#[derive(Debug, PartialEq, Eq)]
pub enum LaunchOutcome<H> {
    /// The locator matched no binary.
    NotResolved,
    /// A binary was found and the process could not be created.
    NotLaunched,
    /// The process runs, and this is its handle.
    Launched(H),
}

/// The contents of the slot: the phase, and with `Running` the one handle.
#[derive(Debug, PartialEq, Eq)]
pub enum Slot<H> {
    Unstarted,
    Running(H),
    Stopped,
}

/// What a spawn tells the host.
#[derive(Debug, PartialEq, Eq)]
pub struct SpawnReport<H> {
    /// `Ok` when the handle was stored and output should now be drained.
    pub result: Result<(), SpawnError>,
    /// A handle that was offered while another was held. The slot did not
    /// take it, so the host still owns the process behind it.
    pub surplus: Option<H>,
}

impl<H> LaunchOutcome<H> {
    /// The handle that the outcome carries, if the launch succeeded.
    pub open spec fn handle(self) -> Option<H> {
        match self {
            LaunchOutcome::Launched(h) => Some(h),
            _ => None,
        }
    }

    /// The error that a fresh slot reports for this outcome.
    pub open spec fn failure(self) -> Option<SpawnError> {
        match self {
            LaunchOutcome::NotResolved => Some(SpawnError::ResolutionFailed),
            LaunchOutcome::NotLaunched => Some(SpawnError::LaunchFailed),
            LaunchOutcome::Launched(_) => None,
        }
    }
}

impl<H> Slot<H> {
    /// The handle in the slot.
    pub open spec fn held(self) -> Option<H> {
        match self {
            Slot::Running(h) => Some(h),
            _ => None,
        }
    }

    /// The phase that the slot stands for.
    pub open spec fn phase(self) -> Phase {
        match self {
            Slot::Unstarted => Phase::Unstarted,
            Slot::Running(_) => Phase::Running,
            Slot::Stopped => Phase::Stopped,
        }
    }

    /// The slot after a spawn with the given outcome, and the report.
    ///
    /// A held handle decides first: the slot stays as it is and the offered
    /// handle, if any, goes back. On an empty slot a launched handle is
    /// stored, and a failure leaves the slot untouched.
    pub open spec fn spawn(self, outcome: LaunchOutcome<H>) -> (Slot<H>, SpawnReport<H>) {
        if self.held() is Some {
            (self, SpawnReport { result: Err(SpawnError::AlreadyRunning), surplus: outcome.handle() })
        } else {
            match outcome {
                LaunchOutcome::Launched(h) => (
                    Slot::Running(h),
                    SpawnReport { result: Ok(()), surplus: None },
                ),
                LaunchOutcome::NotResolved => (
                    self,
                    SpawnReport { result: Err(SpawnError::ResolutionFailed), surplus: None },
                ),
                LaunchOutcome::NotLaunched => (
                    self,
                    SpawnReport { result: Err(SpawnError::LaunchFailed), surplus: None },
                ),
            }
        }
    }

    /// The slot after a shutdown, and the handle to terminate.
    pub open spec fn shutdown(self) -> (Slot<H>, Option<H>) {
        match self {
            Slot::Running(h) => (Slot::Stopped, Some(h)),
            _ => (self, None),
        }
    }
}

/// The supervisor's state: at most one handle, owned by the slot.
#[derive(Debug)]
pub struct SupervisorState<H> {
    slot: Slot<H>,
}

impl<H> View for SupervisorState<H> {
    type V = Slot<H>;

    closed spec fn view(&self) -> Slot<H> {
        self.slot
    }
}

impl<H> SupervisorState<H> {
    /// The state at application start: nothing was started.
    pub fn new() -> (state: Self)
        ensures
            state@ == Slot::<H>::Unstarted,
    {
        SupervisorState { slot: Slot::Unstarted }
    }

    /// The phase of the most recent sidecar.
    pub fn phase(&self) -> (phase: Phase)
        ensures
            phase == self@.phase(),
    {
        match &self.slot {
            Slot::Unstarted => Phase::Unstarted,
            Slot::Running(_) => Phase::Running,
            Slot::Stopped => Phase::Stopped,
        }
    }

    /// Whether a handle is held.
    pub fn is_running(&self) -> (running: bool)
        ensures
            running == (self@.held() is Some),
    {
        match &self.slot {
            Slot::Running(_) => true,
            _ => false,
        }
    }

    /// The held handle, borrowed.
    pub fn handle(&self) -> (handle: Option<&H>)
        ensures
            handle is Some == (self@.held() is Some),
            handle is Some ==> *handle->0 == self@.held()->0,
    {
        match &self.slot {
            Slot::Running(h) => Some(h),
            _ => None,
        }
    }

    /// Whether a spawn may go ahead. The host asks this before it resolves
    /// and launches anything; the answer is `AlreadyRunning` exactly when a
    /// handle is held.
    pub fn check_idle(&self) -> (verdict: Result<(), SpawnError>)
        ensures
            self@.held() is None ==> verdict is Ok,
            self@.held() is Some ==> verdict == Err::<(), SpawnError>(SpawnError::AlreadyRunning),
    {
        if self.is_running() {
            Err(SpawnError::AlreadyRunning)
        } else {
            Ok(())
        }
    }

    /// Records what the host's launch came to.
    ///
    /// The handle of a successful launch is stored when the slot is empty,
    /// and the sidecar is then `Running`. A failed launch reports its error
    /// and changes nothing. While a handle is held the answer is
    /// `AlreadyRunning` whatever the outcome, and an offered handle comes
    /// back in `surplus`.
    pub fn spawn(&mut self, outcome: LaunchOutcome<H>) -> (report: SpawnReport<H>)
        ensures
            (final(self)@, report) == old(self)@.spawn(outcome),
    {
        if self.is_running() {
            let surplus = match outcome {
                LaunchOutcome::Launched(h) => Some(h),
                _ => None,
            };
            SpawnReport { result: Err(SpawnError::AlreadyRunning), surplus }
        } else {
            match outcome {
                LaunchOutcome::Launched(h) => {
                    self.slot = Slot::Running(h);
                    SpawnReport { result: Ok(()), surplus: None }
                },
                LaunchOutcome::NotResolved => SpawnReport {
                    result: Err(SpawnError::ResolutionFailed),
                    surplus: None,
                },
                LaunchOutcome::NotLaunched => SpawnReport {
                    result: Err(SpawnError::LaunchFailed),
                    surplus: None,
                },
            }
        }
    }

    /// Gives up the held handle, for the host to terminate the process
    /// behind it. With no handle held this changes nothing and returns
    /// `None`. It cannot fail.
    pub fn shutdown(&mut self) -> (taken: Option<H>)
        ensures
            (final(self)@, taken) == old(self)@.shutdown(),
    {
        if self.is_running() {
            let mut slot = Slot::Stopped;
            std::mem::swap(&mut self.slot, &mut slot);
            match slot {
                Slot::Running(h) => Some(h),
                _ => None,
            }
        } else {
            None
        }
    }
}

/// A call that a host makes on the supervisor.
pub enum Call<H> {
    /// `spawn`, with what the launch came to.
    Spawn(LaunchOutcome<H>),
    /// `shutdown`.
    Shutdown,
}

impl<H> Call<H> {
    /// The handle that the call brings with it.
    pub open spec fn offered(self) -> Option<H> {
        match self {
            Call::Spawn(outcome) => outcome.handle(),
            Call::Shutdown => None,
        }
    }
}

impl<H> Slot<H> {
    /// The slot after one call.
    pub open spec fn after(self, call: Call<H>) -> Slot<H> {
        match call {
            Call::Spawn(outcome) => self.spawn(outcome).0,
            Call::Shutdown => self.shutdown().0,
        }
    }

    /// The handle that one call hands back to the host: the surplus of a
    /// spawn, or what a shutdown took.
    pub open spec fn returned(self, call: Call<H>) -> Option<H> {
        match call {
            Call::Spawn(outcome) => self.spawn(outcome).1.surplus,
            Call::Shutdown => self.shutdown().1,
        }
    }

    /// The slot after a sequence of calls, first to last.
    pub open spec fn after_all(self, calls: Seq<Call<H>>) -> Slot<H>
        decreases calls.len(),
    {
        if calls.len() == 0 {
            self
        } else {
            self.after_all(calls.drop_last()).after(calls.last())
        }
    }

    /// The handles that the slot owns, counted.
    pub open spec fn live(self) -> Multiset<H> {
        handles(self.held())
    }
}

/// The handle of an option as a multiset of none or one.
pub open spec fn handles<H>(handle: Option<H>) -> Multiset<H> {
    match handle {
        Some(h) => Multiset::singleton(h),
        None => Multiset::empty(),
    }
}

/// All handles that the calls bring, counted.
pub open spec fn offered_by<H>(calls: Seq<Call<H>>) -> Multiset<H>
    decreases calls.len(),
{
    if calls.len() == 0 {
        Multiset::empty()
    } else {
        offered_by(calls.drop_last()).add(handles(calls.last().offered()))
    }
}

/// All handles that the calls hand back when made on `start`, counted.
pub open spec fn returned_by<H>(start: Slot<H>, calls: Seq<Call<H>>) -> Multiset<H>
    decreases calls.len(),
{
    if calls.len() == 0 {
        Multiset::empty()
    } else {
        let earlier = calls.drop_last();
        returned_by(start, earlier).add(handles(start.after_all(earlier).returned(calls.last())))
    }
}

/// Whatever calls are made, and in whatever order, the supervisor owns at
/// most one handle.
pub proof fn lemma_at_most_one_handle<H>(start: Slot<H>, calls: Seq<Call<H>>)
    ensures
        start.after_all(calls).live().len() <= 1,
{
}

/// No handle is lost and none is made up: the handles that the supervisor
/// owned or was offered are those that it handed back and the one it still
/// owns, each as often on either side.
pub proof fn lemma_handles_conserved<H>(start: Slot<H>, calls: Seq<Call<H>>)
    ensures
        start.live().add(offered_by(calls)) == returned_by(start, calls).add(
            start.after_all(calls).live(),
        ),
    decreases calls.len(),
{
    if calls.len() == 0 {
        assert(start.live().add(offered_by(calls)) =~= returned_by(start, calls).add(
            start.after_all(calls).live(),
        ));
    } else {
        let earlier = calls.drop_last();
        lemma_handles_conserved(start, earlier);
        let slot = start.after_all(earlier);
        let call = calls.last();
        assert(slot.live().add(handles(call.offered())) =~= handles(slot.returned(call)).add(
            slot.after(call).live(),
        ));
        assert(start.live().add(offered_by(calls)) =~= returned_by(start, calls).add(
            start.after_all(calls).live(),
        ));
    }
}

/// A shutdown with no handle held changes nothing and hands nothing out.
/// So a second shutdown, right after a first, is such a call.
pub proof fn lemma_shutdown_idempotent<H>(slot: Slot<H>)
    ensures
        slot.held() is None ==> slot.shutdown() == (slot, None::<H>),
        slot.shutdown().0.held() is None,
        slot.shutdown().0.shutdown() == (slot.shutdown().0, None::<H>),
{
}

/// A spawn that reports an error leaves the slot as it was. On an empty
/// slot the error is the launch's own, so a locator that matches nothing
/// gives `ResolutionFailed` and the slot stays empty.
pub proof fn lemma_failed_spawn_changes_nothing<H>(slot: Slot<H>, outcome: LaunchOutcome<H>)
    ensures
        ({
            let (next, report) = slot.spawn(outcome);
            &&& report.result is Err ==> next == slot
            &&& report.result is Ok <==> slot.held() is None && outcome.handle() is Some
            &&& slot.held() is None && outcome.failure() is Some ==> {
                &&& report.result is Err
                &&& report.result->Err_0 == outcome.failure()->0
                &&& next.held() is None
            }
        }),
{
}

/// The phase changes in two ways only: a spawn that succeeds on an empty
/// slot starts a sidecar, which is then `Running`, and a shutdown makes a
/// running sidecar `Stopped`. Once a sidecar was started the slot is never
/// `Unstarted` again.
pub proof fn lemma_phase_moves_forward<H>(slot: Slot<H>, call: Call<H>)
    ensures
        slot.after(call).phase() != slot.phase() ==> match call {
            Call::Spawn(outcome) => slot.phase() != Phase::Running && outcome.handle() is Some
                && slot.after(call).phase() == Phase::Running,
            Call::Shutdown => slot.phase() == Phase::Running && slot.after(call).phase()
                == Phase::Stopped,
        },
        slot.after(call).phase() != Phase::Unstarted || slot.phase() == Phase::Unstarted,
{
}

} // verus!
