//! The uplink loop: a fixed payload written on a fixed schedule.
//!
//! The loop keeps no clock of its own. Its caller tells it how many seconds
//! have passed since the loop was entered, and is told in return to write,
//! to sleep, or to stop.

use vstd::prelude::*;
use vstd::string::*;
use vstd::utf8::encode_utf8;
use crate::error::SessionError;
use crate::text::labelled;

verus! {

/// Seconds between two writes.
pub const UPLINK_INTERVAL_SECS: u64 = 10;

/// The payload written when the caller chooses none.
pub const DEFAULT_PAYLOAD: &'static str = "Hello from Rust!";

/// The number of writes that are due once `elapsed` seconds have passed:
/// one at the start, and one more for each full interval.
pub open spec fn writes_due(elapsed: nat) -> nat {
    elapsed / (UPLINK_INTERVAL_SECS as nat) + 1
}

/// What the caller is to do next.
#[derive(Clone, Debug, PartialEq, Eq)]
pub enum UplinkAction {
    /// Write these bytes without waiting for an acknowledgment, then ask again.
    Write(Vec<u8>),
    /// Nothing is due: sleep this many seconds, then ask again.
    Sleep(u64),
    /// The loop was cancelled: leave it.
    Stop,
}

/// An `UplinkAction` as plain values.
pub enum UplinkStep {
    Write(Seq<u8>),
    Sleep(nat),
    Stop,
}

impl View for UplinkAction {
    type V = UplinkStep;

    open spec fn view(&self) -> UplinkStep {
        match self {
            UplinkAction::Write(bytes) => UplinkStep::Write(bytes@),
            UplinkAction::Sleep(secs) => UplinkStep::Sleep(*secs as nat),
            UplinkAction::Stop => UplinkStep::Stop,
        }
    }
}

/// The state of the loop as plain values.
pub struct UplinkView {
    /// The text that every write carries.
    pub payload: Seq<char>,
    /// Writes handed to the caller so far.
    pub attempts: nat,
    /// Writes that the caller reported as failed.
    pub failures: nat,
    /// The latest time the loop has been told of, in seconds since entry.
    pub clock: nat,
    /// Whether the loop has been told to stop.
    pub cancelled: bool,
}

impl UplinkView {
    /// The loop is never ahead of its schedule, and no write failed that
    /// was not made.
    pub open spec fn wf(self) -> bool {
        &&& self.attempts <= writes_due(self.clock)
        &&& self.failures <= self.attempts
    }

    /// A loop that has just been entered.
    pub open spec fn fresh(payload: Seq<char>) -> UplinkView {
        UplinkView { payload, attempts: 0, failures: 0, clock: 0, cancelled: false }
    }

    /// The time the loop goes by when told that `elapsed` seconds have
    /// passed: time never runs backwards.
    pub open spec fn now(self, elapsed: nat) -> nat {
        if elapsed >= self.clock {
            elapsed
        } else {
            self.clock
        }
    }

    /// The state after the loop was asked at time `elapsed`.
    pub open spec fn polled(self, elapsed: nat) -> UplinkView {
        let now = self.now(elapsed);
        if self.cancelled {
            self
        } else if self.attempts < writes_due(now) {
            UplinkView { attempts: self.attempts + 1, clock: now, ..self }
        } else {
            UplinkView { clock: now, ..self }
        }
    }

    /// The answer of the loop when asked at time `elapsed`.
    pub open spec fn step(self, elapsed: nat) -> UplinkStep {
        let now = self.now(elapsed);
        if self.cancelled {
            UplinkStep::Stop
        } else if self.attempts < writes_due(now) {
            UplinkStep::Write(encode_utf8(self.payload))
        } else {
            UplinkStep::Sleep((self.attempts * UPLINK_INTERVAL_SECS - now) as nat)
        }
    }

    /// The state after the caller reported the outcome of a write.
    pub open spec fn recorded(self, ok: bool) -> UplinkView {
        if !ok && self.failures < self.attempts {
            UplinkView { failures: self.failures + 1, ..self }
        } else {
            self
        }
    }

    /// The state after the loop was driven at time `elapsed` until it had
    /// no more to write, the write numbered `k` ending as `outcomes(k)` says.
    pub open spec fn settled(self, elapsed: nat, outcomes: spec_fn(nat) -> bool) -> UplinkView
        decreases writes_due(self.now(elapsed)) - self.attempts,
    {
        if !self.cancelled && self.attempts < writes_due(self.now(elapsed)) {
            self.polled(elapsed).recorded(outcomes(self.attempts)).settled(elapsed, outcomes)
        } else {
            self.polled(elapsed)
        }
    }
}

/// The uplink loop.
pub struct Uplink {
    payload: String,
    attempts: u64,
    failures: u64,
    clock: u64,
    cancelled: bool,
}

impl View for Uplink {
    type V = UplinkView;

    closed spec fn view(&self) -> UplinkView {
        UplinkView {
            payload: self.payload@,
            attempts: self.attempts as nat,
            failures: self.failures as nat,
            clock: self.clock as nat,
            cancelled: self.cancelled,
        }
    }
}

impl Uplink {
    #[verifier::type_invariant]
    spec fn inv(self) -> bool {
        self@.wf()
    }

    /// A loop that will write `payload`.
    pub fn new(payload: String) -> (uplink: Uplink)
        ensures
            uplink@ == UplinkView::fresh(payload@),
    {
        Uplink { payload, attempts: 0, failures: 0, clock: 0, cancelled: false }
    }

    /// A loop that will write the default payload.
    pub fn with_default_payload() -> (uplink: Uplink)
        ensures
            uplink@ == UplinkView::fresh(DEFAULT_PAYLOAD@),
    {
        Uplink::new(DEFAULT_PAYLOAD.to_owned())
    }

    /// Asks the loop what to do, `elapsed_secs` seconds after it was
    /// entered. The first write is due at once, the next ones every ten
    /// seconds; a caller that comes late is handed the writes it missed,
    /// one per call.
    pub fn poll(&mut self, elapsed_secs: u64) -> (action: UplinkAction)
        ensures
            final(self)@ == old(self)@.polled(elapsed_secs as nat),
            action@ == old(self)@.step(elapsed_secs as nat),
            final(self)@.wf(),
    {
        proof {
            use_type_invariant(&*self);
        }
        if self.cancelled {
            return UplinkAction::Stop;
        }
        let now = if elapsed_secs >= self.clock {
            elapsed_secs
        } else {
            self.clock
        };
        self.clock = now;
        if self.attempts < writes_due_by(now) {
            self.attempts = self.attempts + 1;
            UplinkAction::Write(self.payload.as_str().as_bytes_vec())
        } else {
            UplinkAction::Sleep(UPLINK_INTERVAL_SECS - now % UPLINK_INTERVAL_SECS)
        }
    }

    /// Takes note of how a write ended. A failed write is reported and
    /// counted, and changes nothing of what the loop does next.
    pub fn record_write(&mut self, ok: bool) -> (report: Option<SessionError>)
        ensures
            final(self)@ == old(self)@.recorded(ok),
            final(self)@.wf(),
            report == if ok {
                None
            } else {
                Some(SessionError::WriteFailed)
            },
    {
        proof {
            use_type_invariant(&*self);
        }
        if ok {
            None
        } else {
            if self.failures < self.attempts {
                self.failures = self.failures + 1;
            }
            Some(SessionError::WriteFailed)
        }
    }

    /// Tells the loop to stop: from now on it answers `Stop`.
    pub fn cancel(&mut self)
        ensures
            final(self)@ == (UplinkView { cancelled: true, ..old(self)@ }),
            final(self)@.wf(),
    {
        proof {
            use_type_invariant(&*self);
        }
        self.cancelled = true;
    }

    /// Writes handed to the caller so far.
    pub fn attempts(&self) -> (n: u64)
        ensures
            n == self@.attempts,
    {
        self.attempts
    }

    /// Writes that the caller reported as failed.
    pub fn failures(&self) -> (n: u64)
        ensures
            n == self@.failures,
    {
        self.failures
    }

    /// The text that every write carries.
    pub fn payload(&self) -> (text: &str)
        ensures
            text@ == self@.payload,
    {
        self.payload.as_str()
    }

    /// The line to show when a write is sent.
    pub fn write_line(&self) -> (line: String)
        ensures
            line@ == "Write: "@ + self@.payload,
    {
        labelled("Write: ", self.payload.as_str())
    }

    /// Whether the loop has been told to stop.
    pub fn is_cancelled(&self) -> (yes: bool)
        ensures
            yes == self@.cancelled,
    {
        self.cancelled
    }
}

/// The number of writes due after `elapsed_secs` seconds.
pub fn writes_due_by(elapsed_secs: u64) -> (n: u64)
    ensures
        n == writes_due(elapsed_secs as nat),
{
    elapsed_secs / UPLINK_INTERVAL_SECS + 1
}

/// Every step keeps the loop on its schedule.
pub proof fn lemma_schedule_kept(s: UplinkView, elapsed: nat, ok: bool)
    requires
        s.wf(),
    ensures
        s.polled(elapsed).wf(),
        s.recorded(ok).wf(),
        UplinkView::fresh(s.payload).wf(),
{
}

/// How a write ended changes neither the number of writes made nor the
/// time of the next one.
pub proof fn lemma_outcome_leaves_schedule(s: UplinkView, ok: bool, elapsed: nat)
    ensures
        s.recorded(ok).attempts == s.attempts,
        s.recorded(ok).clock == s.clock,
        s.recorded(ok).cancelled == s.cancelled,
        s.recorded(ok).payload == s.payload,
        s.recorded(ok).step(elapsed) == s.step(elapsed),
{
}

/// When the loop says to sleep, every write due by now has been made, and
/// the sleep ends exactly when the next one falls due, at most one interval
/// away.
pub proof fn lemma_sleep_means_caught_up(s: UplinkView, elapsed: nat)
    requires
        s.wf(),
        s.step(elapsed) is Sleep,
    ensures
        s.polled(elapsed).attempts == writes_due(s.now(elapsed)),
        s.polled(elapsed).attempts == s.attempts,
        1 <= s.step(elapsed)->Sleep_0 <= UPLINK_INTERVAL_SECS,
        (s.now(elapsed) + s.step(elapsed)->Sleep_0) % (UPLINK_INTERVAL_SECS as nat) == 0,
{
}

/// A cancelled loop writes nothing more, whenever it is asked.
pub proof fn lemma_cancelled_stays_put(s: UplinkView, elapsed: nat)
    requires
        s.cancelled,
    ensures
        s.step(elapsed) is Stop,
        s.polled(elapsed) == s,
{
}

/// Driven at a time until it sleeps, a loop that is on schedule has made
/// exactly the writes due by that time, however each write ended.
pub proof fn lemma_settled_attempts(s: UplinkView, elapsed: nat, outcomes: spec_fn(nat) -> bool)
    requires
        s.wf(),
        !s.cancelled,
    ensures
        s.settled(elapsed, outcomes).attempts == writes_due(s.now(elapsed)),
        s.settled(elapsed, outcomes).clock == s.now(elapsed),
        s.settled(elapsed, outcomes).wf(),
        s.settled(elapsed, outcomes).step(elapsed) is Sleep,
    decreases writes_due(s.now(elapsed)) - s.attempts,
{
    if s.attempts < writes_due(s.now(elapsed)) {
        let next = s.polled(elapsed).recorded(outcomes(s.attempts));
        assert(next.now(elapsed) == s.now(elapsed));
        lemma_settled_attempts(next, elapsed, outcomes);
    }
}

/// Run for `elapsed` seconds from its entry, the loop makes
/// `elapsed / 10 + 1` writes: the first at once, one more every ten
/// seconds, and the same number whether the writes succeed or fail.
pub proof fn lemma_writes_after(payload: Seq<char>, elapsed: nat, outcomes: spec_fn(nat) -> bool)
    ensures
        UplinkView::fresh(payload).settled(elapsed, outcomes).attempts == elapsed / 10 + 1,
{
    lemma_settled_attempts(UplinkView::fresh(payload), elapsed, outcomes);
}

} // verus!
