//! The statistics of a run: how many probes were sent, how many were
//! answered, and how long the answered ones took.
//!
//! Only answered probes count towards the latencies: a probe that timed out
//! says how long the wait was, not how far the destination is.

use crate::text::{decimal, millis_text, push_decimal, push_millis};
use vstd::prelude::*;
use vstd::string::*;

verus! {

/// What one probe came to.
#[derive(Clone, Copy, Debug, PartialEq, Eq, Structural)]
pub struct ProbeOutcome {
    /// Whether the destination answered in time.
    pub succeeded: bool,
    /// How long the probe took, in nanoseconds.
    pub elapsed: u64,
}

/// How many of the outcomes are successes.
pub open spec fn successes_of(history: Seq<ProbeOutcome>) -> nat
    decreases history.len(),
{
    if history.len() == 0 {
        0
    } else {
        successes_of(history.drop_last()) + if history.last().succeeded {
            1nat
        } else {
            0nat
        }
    }
}

/// The time that the successes took together, in nanoseconds.
pub open spec fn total_of(history: Seq<ProbeOutcome>) -> nat
    decreases history.len(),
{
    if history.len() == 0 {
        0
    } else {
        total_of(history.drop_last()) + if history.last().succeeded {
            history.last().elapsed as nat
        } else {
            0nat
        }
    }
}

/// The time of the fastest success, 0 where there is none.
pub open spec fn fastest(history: Seq<ProbeOutcome>) -> nat
    decreases history.len(),
{
    if history.len() == 0 {
        0
    } else if !history.last().succeeded {
        fastest(history.drop_last())
    } else if successes_of(history.drop_last()) == 0 || history.last().elapsed < fastest(
        history.drop_last(),
    ) {
        history.last().elapsed as nat
    } else {
        fastest(history.drop_last())
    }
}

/// The time of the slowest success, 0 where there is none.
pub open spec fn slowest(history: Seq<ProbeOutcome>) -> nat
    decreases history.len(),
{
    if history.len() == 0 {
        0
    } else if history.last().succeeded && history.last().elapsed > slowest(history.drop_last()) {
        history.last().elapsed as nat
    } else {
        slowest(history.drop_last())
    }
}

/// The mean time of the successes, rounded down to the nanosecond; 0 where
/// there is none.
pub open spec fn average(history: Seq<ProbeOutcome>) -> nat {
    if successes_of(history) == 0 {
        0
    } else {
        total_of(history) / successes_of(history)
    }
}

/// The share of probes that were not answered, in whole percent rounded
/// down; 0 where no probe was sent.
pub open spec fn loss_percent(history: Seq<ProbeOutcome>) -> nat {
    if history.len() == 0 {
        0
    } else {
        ((history.len() - successes_of(history)) * 100 / (history.len() as int)) as nat
    }
}

/// A run is healthy once one probe was answered.
pub open spec fn healthy(history: Seq<ProbeOutcome>) -> bool {
    successes_of(history) > 0
}

/// The exit code of a run: 0 for a healthy one, else 1.
pub open spec fn exit_code(history: Seq<ProbeOutcome>) -> i32 {
    if healthy(history) {
        0
    } else {
        1
    }
}

/// The figures of a run.
#[derive(Clone, Copy, Debug, PartialEq, Eq, Structural)]
pub struct Summary {
    pub attempts: u64,
    pub successes: u64,
    /// Unanswered probes in percent, from 0 to 100.
    pub loss: u64,
    /// Fastest, mean and slowest answer in nanoseconds.
    pub min: u64,
    pub avg: u64,
    pub max: u64,
}

/// The figures of a run in which `history` was recorded. It holds for
/// histories of fewer than 2^64 outcomes, which are the ones that can be
/// recorded.
pub open spec fn summary_of(history: Seq<ProbeOutcome>) -> Summary {
    Summary {
        attempts: history.len() as u64,
        successes: successes_of(history) as u64,
        loss: loss_percent(history) as u64,
        min: fastest(history) as u64,
        avg: average(history) as u64,
        max: slowest(history) as u64,
    }
}

/// The report of a run: two lines, the counts and the latencies.
pub open spec fn report(summary: Summary) -> Seq<char> {
    "Statistics: attempts="@ + decimal(summary.attempts as nat) + ", successes="@ + decimal(
        summary.successes as nat,
    ) + ", loss="@ + decimal(summary.loss as nat) + "%\nLatency: min="@ + millis_text(
        summary.min as nat,
    ) + "ms, avg="@ + millis_text(summary.avg as nat) + "ms, max="@ + millis_text(
        summary.max as nat,
    ) + "ms"@
}

/// There are never more successes than probes, and the loss is a
/// percentage: between 0 and 100.
pub proof fn lemma_successes_bounded(history: Seq<ProbeOutcome>)
    ensures
        successes_of(history) <= history.len(),
        0 <= loss_percent(history) <= 100,
    decreases history.len(),
{
    if history.len() > 0 {
        lemma_successes_bounded(history.drop_last());
        let lost = history.len() - successes_of(history);
        let sent = history.len() as int;
        assert(0 <= lost * 100 / sent <= 100) by (nonlinear_arith)
            requires
                0 <= lost <= sent,
                sent > 0,
        ;
    }
}

/// Where no recorded probe succeeded, the run is not healthy and ends with
/// exit code 1, however many probes were sent; the loss is then 100 percent
/// if any probe was sent.
pub proof fn lemma_all_lost(history: Seq<ProbeOutcome>)
    requires
        forall|i: int| 0 <= i < history.len() ==> !(#[trigger] history[i]).succeeded,
    ensures
        successes_of(history) == 0,
        !healthy(history),
        exit_code(history) == 1,
        history.len() > 0 ==> loss_percent(history) == 100,
    decreases history.len(),
{
    if history.len() > 0 {
        assert forall|i: int| 0 <= i < history.drop_last().len() implies !(
        #[trigger] history.drop_last()[i]).succeeded by {
            assert(history.drop_last()[i] == history[i]);
        }
        lemma_all_lost(history.drop_last());
        assert(history.last() == history[history.len() - 1]);
        let sent = history.len() as int;
        assert(sent * 100 / sent == 100) by (nonlinear_arith)
            requires
                sent > 0,
        ;
    }
}

/// A run is healthy exactly when some recorded probe succeeded.
pub proof fn lemma_healthy_iff_some_success(history: Seq<ProbeOutcome>)
    ensures
        healthy(history) <==> exists|i: int|
            0 <= i < history.len() && (#[trigger] history[i]).succeeded,
    decreases history.len(),
{
    if history.len() > 0 {
        let rest = history.drop_last();
        lemma_healthy_iff_some_success(rest);
        if healthy(history) {
            if history.last().succeeded {
                assert(history[history.len() - 1].succeeded);
            } else {
                let i = choose|i: int| 0 <= i < rest.len() && (#[trigger] rest[i]).succeeded;
                assert(history[i].succeeded);
            }
        }
        if exists|i: int| 0 <= i < history.len() && (#[trigger] history[i]).succeeded {
            let i = choose|i: int| 0 <= i < history.len() && (#[trigger] history[i]).succeeded;
            if i < history.len() - 1 {
                assert(rest[i].succeeded);
            }
        }
    }
}

/// The fastest and the slowest time bound the time of every success and
/// are each the time of one; the mean lies between them.
pub proof fn lemma_latency_bounds(history: Seq<ProbeOutcome>)
    ensures
        forall|i: int|
            0 <= i < history.len() && (#[trigger] history[i]).succeeded ==> fastest(history)
                <= history[i].elapsed <= slowest(history),
        healthy(history) ==> exists|i: int|
            0 <= i < history.len() && (#[trigger] history[i]).succeeded && history[i].elapsed
                == fastest(history),
        healthy(history) ==> exists|i: int|
            0 <= i < history.len() && (#[trigger] history[i]).succeeded && history[i].elapsed
                == slowest(history),
        successes_of(history) * fastest(history) <= total_of(history) <= successes_of(history)
            * slowest(history),
        fastest(history) <= average(history) <= slowest(history),
        slowest(history) <= u64::MAX,
        !healthy(history) ==> fastest(history) == 0 && slowest(history) == 0,
    decreases history.len(),
{
    if history.len() > 0 {
        let rest = history.drop_last();
        let last = history.last();
        lemma_latency_bounds(rest);
        lemma_healthy_iff_some_success(rest);
        assert forall|i: int| 0 <= i < history.len() && (#[trigger] history[i]).succeeded implies
            fastest(history) <= history[i].elapsed <= slowest(history) by {
            if i < history.len() - 1 {
                assert(rest[i] == history[i]);
            }
        }
        if healthy(history) {
            if fastest(history) == last.elapsed && last.succeeded {
                assert(history[history.len() - 1].succeeded);
            } else {
                let i = choose|i: int|
                    0 <= i < rest.len() && (#[trigger] rest[i]).succeeded && rest[i].elapsed
                        == fastest(rest);
                assert(history[i].succeeded && history[i].elapsed == fastest(history));
            }
            if slowest(history) == last.elapsed && last.succeeded {
                assert(history[history.len() - 1].succeeded);
            } else {
                let i = choose|i: int|
                    0 <= i < rest.len() && (#[trigger] rest[i]).succeeded && rest[i].elapsed
                        == slowest(rest);
                assert(history[i].succeeded && history[i].elapsed == slowest(history));
            }
        }
        let n = successes_of(rest) as int;
        let t = total_of(rest) as int;
        let lo = fastest(rest) as int;
        let hi = slowest(rest) as int;
        let lo2 = fastest(history) as int;
        let hi2 = slowest(history) as int;
        if last.succeeded {
            let e = last.elapsed as int;
            assert((n + 1) * lo2 <= t + e <= (n + 1) * hi2) by (nonlinear_arith)
                requires
                    n >= 0,
                    n * lo <= t <= n * hi,
                    n > 0 ==> lo2 <= lo,
                    lo2 <= e <= hi2,
                    hi <= hi2,
                    0 <= lo2,
            ;
        }
        let n2 = successes_of(history) as int;
        let t2 = total_of(history) as int;
        if n2 > 0 {
            assert(lo2 <= t2 / n2 <= hi2) by (nonlinear_arith)
                requires
                    n2 > 0,
                    n2 * lo2 <= t2 <= n2 * hi2,
            ;
        }
    }
}

/// The statistics of a run. Its view is the sequence of outcomes recorded
/// so far, in their order.
pub struct Stats {
    attempts: u64,
    successes: u64,
    total: u128,
    min: u64,
    max: u64,
    history: Ghost<Seq<ProbeOutcome>>,
}

impl View for Stats {
    type V = Seq<ProbeOutcome>;

    closed spec fn view(&self) -> Seq<ProbeOutcome> {
        self.history@
    }
}

impl Stats {
    #[verifier::type_invariant]
    spec fn consistent(&self) -> bool {
        &&& self.attempts == self.history@.len()
        &&& self.successes == successes_of(self.history@)
        &&& self.total == total_of(self.history@)
        &&& self.min == fastest(self.history@)
        &&& self.max == slowest(self.history@)
    }

    /// Statistics of a run in which nothing was recorded yet.
    pub fn new() -> (stats: Stats)
        ensures
            stats@ == Seq::<ProbeOutcome>::empty(),
    {
        Stats { attempts: 0, successes: 0, total: 0, min: 0, max: 0, history: Ghost(Seq::empty()) }
    }

    /// Whether one more outcome can be counted.
    pub fn has_room(&self) -> (room: bool)
        ensures
            room == (self@.len() < u64::MAX),
    {
        proof {
            use_type_invariant(self);
        }
        self.attempts < u64::MAX
    }

    /// Records one more outcome, after those recorded before.
    pub fn record(&mut self, outcome: ProbeOutcome)
        requires
            old(self)@.len() < u64::MAX,
        ensures
            final(self)@ == old(self)@.push(outcome),
        no_unwind
    {
        proof {
            use_type_invariant(&*self);
            lemma_successes_bounded(self.history@);
            lemma_latency_bounds(self.history@);
        }
        let ghost history = self.history@.push(outcome);
        assert(history.drop_last() =~= self.history@);
        assert(history.last() == outcome);
        let attempts: u64 = self.attempts + 1;
        if outcome.succeeded {
            assert(self.total + outcome.elapsed <= u128::MAX) by {
                assert(self.successes * self.max <= 0xffff_ffff_ffff_ffff
                    * 0xffff_ffff_ffff_ffff) by (nonlinear_arith)
                    requires
                        0 <= self.successes <= 0xffff_ffff_ffff_ffff,
                        0 <= self.max <= 0xffff_ffff_ffff_ffff,
                ;
            }
            let min: u64 = if self.successes == 0 || outcome.elapsed < self.min {
                outcome.elapsed
            } else {
                self.min
            };
            let max: u64 = if outcome.elapsed > self.max {
                outcome.elapsed
            } else {
                self.max
            };
            *self = Stats {
                attempts,
                successes: self.successes + 1,
                total: self.total + outcome.elapsed as u128,
                min,
                max,
                history: Ghost(history),
            };
        } else {
            *self = Stats {
                attempts,
                successes: self.successes,
                total: self.total,
                min: self.min,
                max: self.max,
                history: Ghost(history),
            };
        }
    }

    /// How many probes were recorded.
    pub fn attempts(&self) -> (n: u64)
        ensures
            n == self@.len(),
    {
        proof {
            use_type_invariant(self);
        }
        self.attempts
    }

    /// How many of the recorded probes succeeded: never more than were
    /// recorded.
    pub fn successes(&self) -> (n: u64)
        ensures
            n == successes_of(self@),
            n <= self@.len(),
    {
        proof {
            use_type_invariant(self);
            lemma_successes_bounded(self@);
        }
        self.successes
    }

    /// Whether any recorded probe succeeded.
    pub fn is_healthy(&self) -> (ok: bool)
        ensures
            ok == healthy(self@),
    {
        proof {
            use_type_invariant(self);
        }
        self.successes > 0
    }

    /// The exit code that the run has earned so far.
    pub fn exit_code(&self) -> (code: i32)
        ensures
            code == exit_code(self@),
    {
        if self.is_healthy() {
            0
        } else {
            1
        }
    }

    /// The figures of the run so far.
    pub fn summary(&self) -> (summary: Summary)
        ensures
            summary == summary_of(self@),
            summary.successes <= summary.attempts,
            summary.loss <= 100,
            summary.min <= summary.avg <= summary.max,
    {
        proof {
            use_type_invariant(self);
            lemma_successes_bounded(self@);
            lemma_latency_bounds(self@);
        }
        let loss: u64 = if self.attempts == 0 {
            0
        } else {
            let lost: u128 = (self.attempts - self.successes) as u128;
            (lost * 100 / (self.attempts as u128)) as u64
        };
        let avg: u64 = if self.successes == 0 {
            0
        } else {
            (self.total / (self.successes as u128)) as u64
        };
        Summary {
            attempts: self.attempts,
            successes: self.successes,
            loss,
            min: self.min,
            avg,
            max: self.max,
        }
    }

    /// The report of the run so far. It depends on the recorded outcomes
    /// alone and changes nothing.
    pub fn summarize(&self) -> (text: String)
        ensures
            text@ == report(summary_of(self@)),
    {
        self.summary().render()
    }
}

impl Summary {
    /// The figures as a report of two lines.
    pub fn render(&self) -> (text: String)
        ensures
            text@ == report(*self),
    {
        let mut text = "Statistics: attempts=".to_owned();
        push_decimal(&mut text, self.attempts);
        text.append(", successes=");
        push_decimal(&mut text, self.successes);
        text.append(", loss=");
        push_decimal(&mut text, self.loss);
        text.append("%\nLatency: min=");
        push_millis(&mut text, self.min);
        text.append("ms, avg=");
        push_millis(&mut text, self.avg);
        text.append("ms, max=");
        push_millis(&mut text, self.max);
        text.append("ms");
        assert(text@ =~= report(*self));
        text
    }
}

/// Two reports of the same statistics, with no outcome recorded in
/// between, are the same text.
pub proof fn lemma_summarize_repeatable(stats: Stats, first: Seq<char>, second: Seq<char>)
    requires
        first == report(summary_of(stats@)),
        second == report(summary_of(stats@)),
    ensures
        first == second,
{
}

} // verus!
