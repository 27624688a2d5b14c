//! Fetching a chapter's page list against an upstream that may refuse.
//!
//! Three kinds of failure are told apart. A refusal that asks the client to
//! hold off is waited out for a fixed minute, as often as it comes. Any other
//! failure of the upstream is retried after a short random wait, five times at
//! most. A failure that no retry can mend ends the fetch at once.

use vstd::prelude::*;

verus! {

/// Seconds to hold off after the upstream asked for it.
pub const RISK_CONTROL_WAIT_SEC: u32 = 60;

/// How many times a fetch is tried again after an ordinary failure.
pub const MAX_RETRIES: u32 = 5;

/// The shortest wait before a retry, in milliseconds.
pub const BACKOFF_BASE_MS: u64 = 1000;

/// The width of the range the wait is drawn from, in milliseconds.
pub const BACKOFF_SPREAD_MS: u64 = 4000;

/// How one attempt to fetch the page list ended.
#[derive(Debug, Clone, Copy, PartialEq, Eq, Structural)]
pub enum FetchOutcome {
    /// The page list is in hand.
    Fetched,
    /// A failure that no retry can mend.
    Fatal,
    /// The upstream asked the client to hold off.
    RiskControl,
    /// Any other failure of the upstream.
    Transient,
}

/// What to do after an attempt.
#[derive(Debug, Clone, Copy, PartialEq, Eq, Structural)]
pub enum RetryAction {
    /// Hand the page list on.
    Done,
    /// Hand the error on.
    Abort,
    /// Wait `seconds` seconds, announcing each, then fetch again.
    Cooldown { seconds: u32 },
    /// Wait `millis` milliseconds; then fetch again if `retry` holds, else
    /// hand the error on.
    Backoff { millis: u64, retry: bool },
}

/// The retries used so far in one fetch.
#[derive(Debug, Clone, Copy, PartialEq, Eq, Structural)]
pub struct RetryPolicy {
    pub retry_count: u32,
}

/// The wait that the random number `random` stands for: between one second
/// and just under five.
pub open spec fn backoff_of(random: u64) -> u64 {
    (BACKOFF_BASE_MS + random % BACKOFF_SPREAD_MS) as u64
}

/// The policy after an attempt that ended in `outcome`, and what to do, where
/// `random` is the number drawn for the wait.
pub open spec fn decision(policy: RetryPolicy, outcome: FetchOutcome, random: u64) -> (
    RetryPolicy,
    RetryAction,
) {
    match outcome {
        FetchOutcome::Fetched => (policy, RetryAction::Done),
        FetchOutcome::Fatal => (policy, RetryAction::Abort),
        FetchOutcome::RiskControl => (
            policy,
            RetryAction::Cooldown { seconds: RISK_CONTROL_WAIT_SEC },
        ),
        FetchOutcome::Transient => if policy.retry_count < MAX_RETRIES {
            (
                RetryPolicy { retry_count: (policy.retry_count + 1) as u32 },
                RetryAction::Backoff { millis: backoff_of(random), retry: true },
            )
        } else {
            (policy, RetryAction::Backoff { millis: backoff_of(random), retry: false })
        },
    }
}

/// What is announced while holding off for `seconds` seconds: the seconds
/// still to wait after each one, down to zero.
pub open spec fn countdown(seconds: u32) -> Seq<u32> {
    Seq::new(seconds as nat, |i: int| (seconds - 1 - i) as u32)
}

/// Draws a number with `rand::random::<u64>()`, from the generator of the
/// calling thread. Nothing is claimed of the number: two calls may differ.
#[verifier::external_body]
fn random_u64() -> (r: u64) {
    rand::random::<u64>()
}

/// The wait before a retry for the random number `random`.
pub fn backoff_millis(random: u64) -> (millis: u64)
    ensures
        millis == backoff_of(random),
        BACKOFF_BASE_MS <= millis < BACKOFF_BASE_MS + BACKOFF_SPREAD_MS,
{
    BACKOFF_BASE_MS + random % BACKOFF_SPREAD_MS
}

/// The announcements of a cooldown of `seconds` seconds, in order: for the
/// minute after a refusal, 59 down to 0.
pub fn cooldown_announcements(seconds: u32) -> (ticks: Vec<u32>)
    ensures
        ticks@ == countdown(seconds),
{
    let mut ticks: Vec<u32> = Vec::new();
    let mut i: u32 = 0;
    while i < seconds
        invariant
            i <= seconds,
            ticks@ == Seq::new(i as nat, |k: int| (seconds - 1 - k) as u32),
        decreases seconds - i,
    {
        ticks.push(seconds - 1 - i);
        i = i + 1;
        assert(ticks@ =~= Seq::new(i as nat, |k: int| (seconds - 1 - k) as u32));
    }
    ticks
}

/// A delay counted down in seconds: the delay after a chapter.
#[derive(Debug, Clone, Copy, PartialEq, Eq, Structural)]
pub struct Countdown {
    pub remaining_sec: u64,
}

/// What is announced while a delay of `seconds` seconds passes: before each
/// second, the seconds that remain, down to one.
pub open spec fn sleep_announcements(seconds: u64) -> Seq<u64> {
    Seq::new(seconds as nat, |i: int| (seconds - i) as u64)
}

impl Countdown {
    /// A delay of `seconds` seconds.
    pub fn new(seconds: u64) -> (countdown: Countdown)
        ensures
            countdown.remaining_sec == seconds,
    {
        Countdown { remaining_sec: seconds }
    }

    /// Begins the next second of the delay: answers with the seconds that
    /// remain, to be announced before the second is waited out, or with `None`
    /// when the delay has passed.
    pub fn tick(&mut self) -> (announce: Option<u64>)
        ensures
            old(self).remaining_sec == 0 ==> announce is None && final(self).remaining_sec == 0,
            old(self).remaining_sec > 0 ==> announce == Some(old(self).remaining_sec)
                && final(self).remaining_sec == old(self).remaining_sec - 1,
            announce is Some ==> sleep_announcements(old(self).remaining_sec) == seq![
                announce->0,
            ] + sleep_announcements(final(self).remaining_sec),
    {
        if self.remaining_sec > 0 {
            let announce = self.remaining_sec;
            self.remaining_sec = self.remaining_sec - 1;
            assert(sleep_announcements(announce) =~= seq![announce] + sleep_announcements(
                self.remaining_sec,
            ));
            Some(announce)
        } else {
            None
        }
    }
}

impl RetryPolicy {
    /// A policy never uses more retries than it allows.
    pub open spec fn wf(self) -> bool {
        self.retry_count <= MAX_RETRIES
    }

    /// The policy of a fetch that has not failed yet.
    pub fn new() -> (policy: RetryPolicy)
        ensures
            policy.retry_count == 0,
            policy.wf(),
    {
        RetryPolicy { retry_count: 0 }
    }

    /// Whether the policy has used no more retries than it allows.
    pub fn well_formed(&self) -> (b: bool)
        ensures
            b == self.wf(),
    {
        self.retry_count <= MAX_RETRIES
    }

    /// Decides what follows an attempt, given the number drawn for the wait.
    ///
    /// Success and fatal failure end the fetch. A refusal is waited out for a
    /// minute and uses no retry. An ordinary failure is waited out for
    /// `backoff_of(random)` milliseconds and uses one retry; once five are
    /// used, the wait is still made and the error handed on after it.
    pub fn decide(&mut self, outcome: FetchOutcome, random: u64) -> (action: RetryAction)
        ensures
            (*final(self), action) == decision(*old(self), outcome, random),
            old(self).wf() ==> final(self).wf(),
    {
        match outcome {
            FetchOutcome::Fetched => RetryAction::Done,
            FetchOutcome::Fatal => RetryAction::Abort,
            FetchOutcome::RiskControl => RetryAction::Cooldown { seconds: RISK_CONTROL_WAIT_SEC },
            FetchOutcome::Transient => {
                let millis = backoff_millis(random);
                if self.retry_count < MAX_RETRIES {
                    self.retry_count = self.retry_count + 1;
                    RetryAction::Backoff { millis, retry: true }
                } else {
                    RetryAction::Backoff { millis, retry: false }
                }
            },
        }
    }

    /// Decides what follows an attempt, drawing the wait itself.
    ///
    /// The result is that of [`decide`](Self::decide) for some number: which
    /// one is not known beforehand, so a wait lies anywhere from one second to
    /// just under five.
    pub fn on_outcome(&mut self, outcome: FetchOutcome) -> (action: RetryAction)
        ensures
            old(self).wf() ==> final(self).wf(),
            exists|random: u64|
                (*final(self), action) == #[trigger] decision(*old(self), outcome, random),
            outcome != FetchOutcome::Transient ==> (*final(self), action) == decision(
                *old(self),
                outcome,
                0,
            ),
    {
        match outcome {
            FetchOutcome::Transient => {
                let random = random_u64();
                self.decide(outcome, random)
            },
            _ => self.decide(outcome, 0),
        }
    }
}

/// A fetch that meets only ordinary failures is tried again after each of the
/// first five and gives up after the sixth.
pub proof fn lemma_retries_are_bounded(policy: RetryPolicy, random: u64)
    requires
        policy.wf(),
    ensures
        decision(policy, FetchOutcome::Transient, random).1 == (RetryAction::Backoff {
            millis: backoff_of(random),
            retry: policy.retry_count < MAX_RETRIES,
        }),
        decision(policy, FetchOutcome::Transient, random).0.retry_count == if policy.retry_count
            < MAX_RETRIES {
            policy.retry_count + 1
        } else {
            policy.retry_count as int
        },
{
}

/// A refusal uses no retry: however often the upstream asks the client to
/// hold off, the fetch is tried again after the wait.
pub proof fn lemma_cooldown_is_unbounded(policy: RetryPolicy, random: u64)
    ensures
        decision(policy, FetchOutcome::RiskControl, random) == (
            policy,
            RetryAction::Cooldown { seconds: RISK_CONTROL_WAIT_SEC },
        ),
{
}

/// The announcements of a cooldown count down by one, from one less than its
/// length to zero.
pub proof fn lemma_countdown_descends(seconds: u32, i: int)
    requires
        0 <= i < seconds,
    ensures
        countdown(seconds).len() == seconds,
        countdown(seconds)[i] == seconds - 1 - i,
        countdown(seconds)[0] == seconds - 1,
        countdown(seconds)[seconds - 1] == 0,
{
}

} // verus!
