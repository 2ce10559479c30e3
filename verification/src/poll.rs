//! The completion poller: a state machine that consumes one poll
//! probe at a time and decides whether the file is confirmed done,
//! whether the retry budget is exhausted, or how long to back off
//! before the next probe. Running the machine over a whole script of
//! probes is also available as a pure function, so that the backoff
//! and budget laws can be stated and proved once and for all.

use vstd::prelude::*;
use vstd::string::*;

use crate::backoff::MAX_RETRIES;
use crate::backoff::backoff_delay_ms;
use crate::backoff::spec_backoff_delay_ms;

verus! {

/// What one poll attempt observed: either a body whose optional
/// `status` field was read, or a transport-level failure (connection
/// error or an unreadable body). Both consume one attempt.
#[derive(Clone, Debug)]
pub enum PollProbe {
    /// A readable body; carries its `status` field, if any.
    Status(Option<String>),
    /// A transport-level failure. Consumes an attempt, raises no
    /// error.
    TransportFailure,
}

/// How a poll loop ended.
#[derive(Clone, Copy, Debug, PartialEq, Eq, Structural)]
pub enum PollEnd {
    /// The service reported the terminal status.
    Confirmed,
    /// The retry budget ran out first. A non-error outcome: the file
    /// is not yet confirmed, nothing more.
    Incomplete,
    /// The cancellation signal fired before a backoff sleep.
    Cancelled,
}

/// What the poller decides after one probe.
#[derive(Clone, Copy, Debug, PartialEq, Eq, Structural)]
pub enum PollStep {
    /// The loop is over.
    Finished(PollEnd),
    /// Sleep for this many milliseconds (pre-jitter), then probe
    /// again.
    Backoff(u64),
}

/// Whether a probe reports the terminal status.
pub open spec fn spec_probe_done(p: PollProbe) -> bool {
    p matches PollProbe::Status(Some(s)) && s@ == "done"@
}

/// A probe reports completion exactly when its body carried
/// `status == "done"`. Any other status, a missing field or a
/// transport failure all count the same: not done yet.
pub fn probe_is_done(p: &PollProbe) -> (b: bool)
    ensures
        b == spec_probe_done(*p),
{
    match p {
        PollProbe::Status(Some(s)) => {
            let done = "done".to_owned();
            *s == done
        },
        _ => false,
    }
}

/// The poll state machine: counts the attempts consumed so far.
#[derive(Clone, Copy, Debug, PartialEq, Eq, Structural)]
pub struct Poller {
    /// Unanswered attempts consumed so far.
    pub tries: u32,
}

impl Poller {
    /// The attempt counter never leaves the budget.
    pub open spec fn wf(&self) -> bool {
        self.tries <= MAX_RETRIES
    }

    /// A fresh poller with no attempt consumed.
    pub fn new() -> (p: Poller)
        ensures
            p.tries == 0,
            p.wf(),
    {
        Poller { tries: 0 }
    }

    /// Feeds one probe to the machine. A terminal status finishes
    /// with [`PollEnd::Confirmed`] at once; an unanswered probe past
    /// the budget finishes with [`PollEnd::Incomplete`]; otherwise one
    /// attempt is consumed and the caller is told how long to back
    /// off (pre-jitter) before probing again.
    pub fn observe(&mut self, probe: &PollProbe) -> (step: PollStep)
        requires
            old(self).wf(),
        ensures
            final(self).wf(),
            spec_probe_done(*probe) ==> step == PollStep::Finished(PollEnd::Confirmed)
                && *final(self) == *old(self),
            !spec_probe_done(*probe) && old(self).tries >= MAX_RETRIES ==> step
                == PollStep::Finished(PollEnd::Incomplete) && *final(self) == *old(self),
            !spec_probe_done(*probe) && old(self).tries < MAX_RETRIES ==> final(self).tries
                == old(self).tries + 1 && step == PollStep::Backoff(
                spec_backoff_delay_ms((old(self).tries + 1) as nat) as u64,
            ),
    {
        if probe_is_done(probe) {
            PollStep::Finished(PollEnd::Confirmed)
        } else if self.tries >= MAX_RETRIES {
            PollStep::Finished(PollEnd::Incomplete)
        } else {
            self.tries = self.tries + 1;
            PollStep::Backoff(backoff_delay_ms(self.tries))
        }
    }
}

/// One cycle of a scripted poll run: what the probe observed and
/// whether the cancellation signal fired during the backoff that
/// would follow it.
#[derive(Clone, Debug)]
pub struct PollCycle {
    /// What the probe observed.
    pub probe: PollProbe,
    /// Whether the cancellation signal won the race against the
    /// backoff sleep after this probe.
    pub cancel_during_backoff: bool,
}

/// The outcome of running the poller over a script of probes.
#[derive(Clone, Debug)]
pub struct PollRun {
    /// How the loop ended; `None` when the script ran out while the
    /// loop was still pending.
    pub end: Option<PollEnd>,
    /// How many probes were consumed.
    pub attempts: usize,
    /// The pre-jitter delay of each backoff slept through, in order.
    pub delays: Vec<u64>,
}

/// Runs the poll state machine over a script of cycles, starting with
/// `tries` attempts already consumed: the ending (if the script
/// reaches one), the probes consumed, and the pre-jitter delays of
/// the backoffs slept through.
pub open spec fn spec_poll(script: Seq<PollCycle>, tries: nat) -> (Option<PollEnd>, nat, Seq<
    u64,
>)
    decreases script.len(),
{
    if script.len() == 0 {
        (None, 0, Seq::empty())
    } else if spec_probe_done(script[0].probe) {
        (Some(PollEnd::Confirmed), 1, Seq::empty())
    } else if tries >= MAX_RETRIES {
        (Some(PollEnd::Incomplete), 1, Seq::empty())
    } else if script[0].cancel_during_backoff {
        (Some(PollEnd::Cancelled), 1, Seq::empty())
    } else {
        let rest = spec_poll(script.drop_first(), tries + 1);
        (rest.0, rest.1 + 1, seq![spec_backoff_delay_ms(tries + 1) as u64] + rest.2)
    }
}

/// Runs the poll loop over a script of probe cycles. The run follows
/// [`spec_poll`] exactly, from a fresh poller.
pub fn run_poll(script: &Vec<PollCycle>) -> (r: PollRun)
    ensures
        r.end == spec_poll(script@, 0).0,
        r.attempts == spec_poll(script@, 0).1,
        r.delays@ == spec_poll(script@, 0).2,
{
    let ghost whole = spec_poll(script@, 0);
    let mut poller = Poller::new();
    let mut delays: Vec<u64> = Vec::new();
    let mut i: usize = 0;
    proof {
        assert(script@.skip(0) =~= script@);
        assert(delays@ + whole.2 =~= whole.2);
    }
    while i < script.len()
        invariant
            i <= script@.len(),
            poller.wf(),
            whole == spec_poll(script@, 0),
            whole.0 == spec_poll(script@.skip(i as int), poller.tries as nat).0,
            whole.1 == i + spec_poll(script@.skip(i as int), poller.tries as nat).1,
            whole.2 == delays@ + spec_poll(script@.skip(i as int), poller.tries as nat).2,
        decreases script@.len() - i,
    {
        proof {
            assert(script@.skip(i as int)[0] == script@[i as int]);
            assert(script@.skip(i as int).drop_first() =~= script@.skip(i as int + 1));
        }
        let cycle = &script[i];
        let step = poller.observe(&cycle.probe);
        match step {
            PollStep::Finished(e) => {
                proof {
                    assert(delays@ + Seq::<u64>::empty() =~= delays@);
                }
                return PollRun { end: Some(e), attempts: i + 1, delays };
            },
            PollStep::Backoff(d) => {
                if cycle.cancel_during_backoff {
                    proof {
                        assert(delays@ + Seq::<u64>::empty() =~= delays@);
                    }
                    return PollRun { end: Some(PollEnd::Cancelled), attempts: i + 1, delays };
                }
                proof {
                    let rest = spec_poll(script@.skip(i as int + 1), poller.tries as nat);
                    assert(delays@ + spec_poll(script@.skip(i as int), (poller.tries - 1) as nat).2
                        =~= (delays@ + seq![d]) + rest.2);
                }
                delays.push(d);
                i = i + 1;
            },
        }
    }
    proof {
        assert(script@.skip(i as int) =~= Seq::<PollCycle>::empty());
        assert(delays@ + Seq::<u64>::empty() =~= delays@);
    }
    PollRun { end: None, attempts: i, delays }
}

/// Backoff law: in any poll run, the pre-jitter delay recorded for
/// the j-th backoff (0-indexed, after the (j+1)-th unanswered probe)
/// is exactly `min(64000, 500·2^(j+1))` milliseconds.
pub proof fn lemma_poll_backoff_invariant(script: Seq<PollCycle>)
    ensures
        forall|j: int|
            0 <= j < spec_poll(script, 0).2.len() ==> spec_poll(script, 0).2[j]
                == spec_backoff_delay_ms((j + 1) as nat),
{
    lemma_poll_delays_follow_backoff(script, 0);
}

/// The delays of a run that starts with `tries` consumed attempts
/// continue the backoff sequence from there.
proof fn lemma_poll_delays_follow_backoff(script: Seq<PollCycle>, tries: nat)
    ensures
        forall|j: int|
            0 <= j < spec_poll(script, tries).2.len() ==> spec_poll(script, tries).2[j]
                == spec_backoff_delay_ms((tries + j + 1) as nat),
    decreases script.len(),
{
    if script.len() == 0 || spec_probe_done(script[0].probe) || tries >= MAX_RETRIES
        || script[0].cancel_during_backoff {
    } else {
        lemma_poll_delays_follow_backoff(script.drop_first(), tries + 1);
        let rest = spec_poll(script.drop_first(), tries + 1);
        let all = spec_poll(script, tries);
        assert forall|j: int| 0 <= j < all.2.len() implies all.2[j] == spec_backoff_delay_ms(
            (tries + j + 1) as nat,
        ) by {
            if j > 0 {
                assert(all.2[j] == rest.2[j - 1]);
            }
        }
    }
}

/// Any script longer than the retry budget drives the loop to an
/// ending.
pub proof fn lemma_poll_terminates(script: Seq<PollCycle>, tries: nat)
    requires
        script.len() > 0,
        script.len() + tries > MAX_RETRIES,
    ensures
        spec_poll(script, tries).0 is Some,
    decreases script.len(),
{
    if script.len() == 0 || spec_probe_done(script[0].probe) || tries >= MAX_RETRIES
        || script[0].cancel_during_backoff {
    } else {
        lemma_poll_terminates(script.drop_first(), tries + 1);
    }
}

/// A loop that already consumed `tries` attempts consumes at most
/// the rest of the budget, plus the first check and the final one.
pub proof fn lemma_poll_attempts_bounded(script: Seq<PollCycle>, tries: nat)
    requires
        tries <= MAX_RETRIES,
    ensures
        spec_poll(script, tries).1 <= MAX_RETRIES + 1 - tries,
    decreases script.len(),
{
    if script.len() == 0 || spec_probe_done(script[0].probe) || tries >= MAX_RETRIES
        || script[0].cancel_during_backoff {
    } else {
        lemma_poll_attempts_bounded(script.drop_first(), tries + 1);
    }
}

/// Budget law: when every probe of a script goes unanswered and the
/// signal never fires, a loop that already consumed `tries` attempts
/// ends with the non-error incomplete outcome after the remaining
/// budget.
proof fn lemma_poll_exhaustion_from(script: Seq<PollCycle>, tries: nat)
    requires
        script.len() + tries > MAX_RETRIES,
        tries <= MAX_RETRIES,
        forall|i: int| 0 <= i < script.len() ==> !spec_probe_done(#[trigger] script[i].probe),
        forall|i: int| 0 <= i < script.len() ==> !(#[trigger] script[i].cancel_during_backoff),
    ensures
        spec_poll(script, tries).0 == Some(PollEnd::Incomplete),
        spec_poll(script, tries).1 == MAX_RETRIES + 1 - tries,
    decreases script.len(),
{
    if tries < MAX_RETRIES {
        lemma_poll_exhaustion_from(script.drop_first(), tries + 1);
    }
}

/// Budget law: a fresh loop whose every probe goes unanswered (and
/// whose signal never fires) ends with the non-error incomplete
/// outcome after exactly the first check plus the full retry budget.
pub proof fn lemma_poll_budget_exhaustion(script: Seq<PollCycle>)
    requires
        script.len() > MAX_RETRIES,
        forall|i: int| 0 <= i < script.len() ==> !spec_probe_done(#[trigger] script[i].probe),
        forall|i: int| 0 <= i < script.len() ==> !(#[trigger] script[i].cancel_during_backoff),
    ensures
        spec_poll(script, 0).0 == Some(PollEnd::Incomplete),
        spec_poll(script, 0).1 == MAX_RETRIES + 1,
{
    lemma_poll_exhaustion_from(script, 0);
}

} // verus!
