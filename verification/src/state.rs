//! The life cycle of one chapter download.

use vstd::prelude::*;

verus! {

/// Where a chapter download stands. A task starts `Pending`, and only the
/// three states `Pending`, `Downloading` and `Paused` can still change.
#[derive(Debug, Clone, Copy, PartialEq, Eq, Structural)]
pub enum DownloadTaskState {
    Pending,
    Downloading,
    Paused,
    Cancelled,
    Completed,
    Failed,
}

impl DownloadTaskState {
    /// A task in one of these states still occupies its chapter.
    pub open spec fn is_active(self) -> bool {
        self == DownloadTaskState::Pending || self == DownloadTaskState::Downloading || self
            == DownloadTaskState::Paused
    }

    /// A task in one of these states will never run again.
    pub open spec fn is_terminal(self) -> bool {
        self == DownloadTaskState::Cancelled || self == DownloadTaskState::Completed || self
            == DownloadTaskState::Failed
    }

    /// Whether the task still occupies its chapter.
    pub fn active(&self) -> (b: bool)
        ensures
            b == self.is_active(),
    {
        match self {
            DownloadTaskState::Pending | DownloadTaskState::Downloading | DownloadTaskState::Paused => true,
            _ => false,
        }
    }

    /// Whether the task has ended for good.
    pub fn terminal(&self) -> (b: bool)
        ensures
            b == self.is_terminal(),
            b == !self.is_active(),
    {
        !self.active()
    }
}

/// Every state is either active or terminal, never both.
pub proof fn lemma_active_or_terminal(s: DownloadTaskState)
    ensures
        s.is_active() != s.is_terminal(),
{
}

} // verus!
