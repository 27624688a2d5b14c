//! The loops that drive a chapter task and an image task.
//!
//! A driver waits on up to three things at once: the end of its work, a permit
//! from its limiter, and a change of the task's state. Which of them it may
//! wait on depends on the state and on whether it holds a permit. The drivers
//! here decide that, and decide what follows when one of them happens; the
//! caller does the waiting.

use vstd::prelude::*;
use core::ops::ControlFlow;
use crate::state::DownloadTaskState;

verus! {

/// What a driver may wait on besides a change of state, which it always
/// waits on.
#[derive(Debug, Clone, Copy, PartialEq, Eq, Structural)]
pub struct Eligible {
    /// The work itself may run on.
    pub work: bool,
    /// The limiter may be asked for a permit.
    pub permit: bool,
}

/// What follows an attempt to get a chapter permit.
#[derive(Debug, Clone, Copy, PartialEq, Eq, Structural)]
pub struct PermitDecision {
    /// Whether the loop goes on.
    pub go_on: bool,
    /// The state to put the task into, if any.
    pub set_state: Option<DownloadTaskState>,
}

/// What follows a change of state.
#[derive(Debug, Clone, Copy, PartialEq, Eq, Structural)]
pub struct StateDecision {
    /// Whether the loop goes on.
    pub go_on: bool,
    /// Whether a permit is to be handed back to the limiter.
    pub release: bool,
}

/// What a chapter driver carries from one turn of its loop to the next: the
/// permit, once acquired, is kept until a pause hands it back.
#[derive(Debug, Clone, Copy, PartialEq, Eq, Structural)]
pub struct ChapterDriver {
    pub has_permit: bool,
}

/// What an image driver carries from one turn of its loop to the next.
#[derive(Debug, Clone, Copy, PartialEq, Eq, Structural)]
pub struct ImageDriver {
    pub has_permit: bool,
}

/// The decision after a change of state, for a driver that holds a permit or
/// not: a pause hands the permit back and goes on, a cancellation stops, and
/// every other state goes on with the permit where it is.
pub open spec fn state_decision(has_permit: bool, state: DownloadTaskState) -> (bool, StateDecision) {
    match state {
        DownloadTaskState::Paused => (false, StateDecision { go_on: true, release: has_permit }),
        DownloadTaskState::Cancelled => (has_permit, StateDecision { go_on: false, release: false }),
        _ => (has_permit, StateDecision { go_on: true, release: false }),
    }
}

/// The decision after an attempt to get a chapter permit. `limiter_open` is
/// what the limiter answered, and counts only where no permit was held.
pub open spec fn permit_decision(
    has_permit: bool,
    limiter_open: bool,
    state: DownloadTaskState,
) -> (bool, PermitDecision) {
    if !has_permit && !limiter_open {
        (false, PermitDecision { go_on: false, set_state: Some(DownloadTaskState::Failed) })
    } else if state == DownloadTaskState::Pending {
        (true, PermitDecision { go_on: true, set_state: Some(DownloadTaskState::Downloading) })
    } else {
        (true, PermitDecision { go_on: true, set_state: None })
    }
}

/// What a chapter's driver waits on: the work runs on only while the task is
/// `Downloading` and a permit is held; a permit is sought only while the task
/// is `Pending`.
pub open spec fn chapter_waits(has_permit: bool, state: DownloadTaskState) -> Eligible {
    Eligible {
        work: state == DownloadTaskState::Downloading && has_permit,
        permit: state == DownloadTaskState::Pending,
    }
}

/// What an image's driver waits on: an image is worked on, and a permit for
/// it sought, only while its chapter is `Downloading`, the work with a permit
/// and the permit without.
pub open spec fn image_waits(has_permit: bool, state: DownloadTaskState) -> Eligible {
    Eligible {
        work: state == DownloadTaskState::Downloading && has_permit,
        permit: state == DownloadTaskState::Downloading && !has_permit,
    }
}

impl ChapterDriver {
    /// A driver at the start of its loop, without a permit.
    pub fn new() -> (driver: ChapterDriver)
        ensures
            !driver.has_permit,
    {
        ChapterDriver { has_permit: false }
    }

    /// The work runs on only while the task is `Downloading` and a permit is
    /// held; a permit is sought only while the task is `Pending`.
    pub fn eligible(&self, state: DownloadTaskState) -> (e: Eligible)
        ensures
            e == chapter_waits(self.has_permit, state),
    {
        Eligible {
            work: state == DownloadTaskState::Downloading && self.has_permit,
            permit: state == DownloadTaskState::Pending,
        }
    }

    /// Whether the limiter has to be asked: a permit that is held is used
    /// again.
    pub fn needs_permit(&self) -> (b: bool)
        ensures
            b == !self.has_permit,
    {
        !self.has_permit
    }

    /// Takes the limiter's answer and decides how the loop goes on.
    ///
    /// `limiter_open` says whether the limiter gave a permit; it is read only
    /// where [`needs_permit`](Self::needs_permit) holds. `state` is the task's
    /// state after the wait. A limiter that gives none fails the task and ends
    /// the loop. Otherwise the permit is held from now on, and the task becomes
    /// `Downloading` if it is still `Pending`; if its state changed during the
    /// wait, the permit is kept and the state left alone.
    pub fn acquire_chapter_permit(&mut self, limiter_open: bool, state: DownloadTaskState) -> (d:
        PermitDecision)
        ensures
            (final(self).has_permit, d)
                == permit_decision(old(self).has_permit, limiter_open, state),
            d.set_state == Some(DownloadTaskState::Downloading) ==> final(self).has_permit,
    {
        if !self.has_permit && !limiter_open {
            return PermitDecision { go_on: false, set_state: Some(DownloadTaskState::Failed) };
        }
        self.has_permit = true;
        if state == DownloadTaskState::Pending {
            PermitDecision { go_on: true, set_state: Some(DownloadTaskState::Downloading) }
        } else {
            PermitDecision { go_on: true, set_state: None }
        }
    }

    /// Reacts to the task's new state.
    ///
    /// On `Paused` the permit, if one is held, goes back to the limiter and the
    /// loop goes on; on `Cancelled` the loop ends, whatever was in flight; any
    /// other state lets the loop go on unchanged.
    pub fn handle_state_change(&mut self, state: DownloadTaskState) -> (d: StateDecision)
        ensures
            (final(self).has_permit, d) == state_decision(old(self).has_permit, state),
            state == DownloadTaskState::Paused ==> !final(self).has_permit && d.go_on
                && d.release == old(self).has_permit,
    {
        match state {
            DownloadTaskState::Paused => {
                let release = self.has_permit;
                self.has_permit = false;
                StateDecision { go_on: true, release }
            },
            DownloadTaskState::Cancelled => StateDecision { go_on: false, release: false },
            _ => StateDecision { go_on: true, release: false },
        }
    }
}

impl ImageDriver {
    /// A driver at the start of its loop, without a permit.
    pub fn new() -> (driver: ImageDriver)
        ensures
            !driver.has_permit,
    {
        ImageDriver { has_permit: false }
    }

    /// An image is worked on, and a permit for it sought, only while its
    /// chapter is `Downloading`: the work with a permit, the permit without.
    pub fn eligible(&self, state: DownloadTaskState) -> (e: Eligible)
        ensures
            e == image_waits(self.has_permit, state),
    {
        let downloading = state == DownloadTaskState::Downloading;
        Eligible { work: downloading && self.has_permit, permit: downloading && !self.has_permit }
    }

    /// Whether the limiter has to be asked.
    pub fn needs_permit(&self) -> (b: bool)
        ensures
            b == !self.has_permit,
    {
        !self.has_permit
    }

    /// Takes the limiter's answer: with a permit, held before or given now,
    /// the loop goes on; a limiter that gives none ends it.
    pub fn acquire_img_permit(&mut self, limiter_open: bool) -> (flow: ControlFlow<()>)
        ensures
            final(self).has_permit == (old(self).has_permit || limiter_open),
            flow == (if final(self).has_permit {
                ControlFlow::<(), ()>::Continue(())
            } else {
                ControlFlow::<(), ()>::Break(())
            }),
    {
        if !self.has_permit && !limiter_open {
            return ControlFlow::Break(());
        }
        self.has_permit = true;
        ControlFlow::Continue(())
    }

    /// Reacts to the chapter's new state, as the chapter's own driver does:
    /// a pause hands the permit back, a cancellation ends the loop.
    pub fn handle_state_change(&mut self, state: DownloadTaskState) -> (d: StateDecision)
        ensures
            (final(self).has_permit, d) == state_decision(old(self).has_permit, state),
    {
        match state {
            DownloadTaskState::Paused => {
                let release = self.has_permit;
                self.has_permit = false;
                StateDecision { go_on: true, release }
            },
            DownloadTaskState::Cancelled => StateDecision { go_on: false, release: false },
            _ => StateDecision { go_on: true, release: false },
        }
    }
}

/// A counting limiter as far as permits are concerned: how many it has, and
/// how many of them are held.
pub struct PermitCount {
    pub capacity: nat,
    pub held: nat,
}

impl PermitCount {
    /// Whether the limiter can give a permit to one that waits for it.
    pub open spec fn can_grant(self) -> bool {
        self.held < self.capacity
    }

    /// The limiter after one permit was handed back.
    pub open spec fn released(self) -> PermitCount {
        PermitCount { capacity: self.capacity, held: (self.held - 1) as nat }
    }
}

/// Pausing a task that holds a permit unblocks a limiter that has none left:
/// the driver hands its permit back, and a counting limiter that gets one
/// back can give one out.
pub proof fn lemma_pause_frees_a_permit(limiter: PermitCount)
    requires
        0 < limiter.held <= limiter.capacity,
    ensures
        ({
            let (has_permit, decision) = state_decision(true, DownloadTaskState::Paused);
            &&& !has_permit
            &&& decision.release
            &&& decision.go_on
            &&& limiter.released().can_grant()
        }),
{
}

/// A paused task waits for nothing but a change of state: neither its
/// driver nor the drivers of its images work or ask for a permit, whether or
/// not they hold one, until the task is pending again.
pub proof fn lemma_paused_task_only_waits(has_permit: bool)
    ensures
        chapter_waits(has_permit, DownloadTaskState::Paused) == (Eligible {
            work: false,
            permit: false,
        }),
        image_waits(has_permit, DownloadTaskState::Paused) == (Eligible {
            work: false,
            permit: false,
        }),
        chapter_waits(false, DownloadTaskState::Pending).permit,
{
}

/// A driver makes a task `Downloading` only from `Pending` and with a permit
/// in hand, and fails it only when the limiter gives no permit. It puts a
/// task into no other state.
pub proof fn lemma_driver_transitions(has_permit: bool, limiter_open: bool, state: DownloadTaskState)
    ensures
        ({
            let (holds, decision) = permit_decision(has_permit, limiter_open, state);
            &&& decision.set_state == Some(DownloadTaskState::Downloading) <==> state
                == DownloadTaskState::Pending && (has_permit || limiter_open)
            &&& decision.set_state == Some(DownloadTaskState::Downloading) ==> holds
            &&& decision.set_state == Some(DownloadTaskState::Failed) <==> !has_permit
                && !limiter_open
            &&& decision.set_state is None || decision.set_state == Some(
                DownloadTaskState::Downloading,
            ) || decision.set_state == Some(DownloadTaskState::Failed)
            &&& decision.go_on <==> has_permit || limiter_open
        }),
{
}

/// A driver never works without a permit, and never asks for a second one
/// while it works.
pub proof fn lemma_work_needs_a_permit(has_permit: bool, state: DownloadTaskState)
    ensures
        chapter_waits(has_permit, state).work ==> has_permit,
        image_waits(has_permit, state).work ==> has_permit,
        !(chapter_waits(has_permit, state).work && chapter_waits(has_permit, state).permit),
        !(image_waits(has_permit, state).work && image_waits(has_permit, state).permit),
{
}

} // verus!
