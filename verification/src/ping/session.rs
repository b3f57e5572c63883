//! The run: which step comes next, what is printed, and how it ends.
//!
//! The program around the library performs each step (a probe, a pause,
//! the exit) and reports back; an interrupt may arrive at any time. A run
//! ends once: by completion, by interrupt or by a fatal failure. Whatever
//! arrives after that is answered with silence.

use crate::ping::cli::Args;
use crate::ping::probe::ProbeError;
use crate::ping::stats::{exit_code, lemma_all_lost, report, summary_of, ProbeOutcome, Stats};
use crate::text::{decimal, millis_text, push_decimal, push_millis};
use vstd::prelude::*;
use vstd::string::*;

verus! {

/// Where a run stands.
#[derive(Clone, Copy, Debug, PartialEq, Eq, Structural)]
pub enum Phase {
    /// Probes are still due.
    Running,
    /// All probes were sent.
    Completed,
    /// The user ended the run.
    Interrupted,
    /// A fatal failure ended the run.
    Aborted,
}

/// What the program is to do next.
#[derive(Clone, Copy, Debug, PartialEq, Eq, Structural)]
pub enum Command {
    /// Send one probe and report what it came to.
    Probe,
    /// Pause for so many milliseconds, then ask to resume.
    Sleep(u64),
    /// End the process with this exit code.
    Exit(i32),
    /// Nothing: the run has ended already.
    Nothing,
}

/// The answer to an event, as plain text.
pub struct ReactionModel {
    pub output: Seq<char>,
    pub error: Seq<char>,
    pub command: Command,
}

/// The answer to an event: what to print, and what to do next.
#[derive(Debug)]
pub struct Reaction {
    /// Text for the standard output, complete with line ends.
    pub output: String,
    /// Text for the standard error, complete with line ends.
    pub error: String,
    pub command: Command,
}

impl View for Reaction {
    type V = ReactionModel;

    open spec fn view(&self) -> ReactionModel {
        ReactionModel { output: self.output@, error: self.error@, command: self.command }
    }
}

/// A run as plain values.
pub struct SessionModel {
    pub forever: bool,
    pub number: nat,
    pub interval: u64,
    pub ip: Seq<char>,
    pub history: Seq<ProbeOutcome>,
    pub phase: Phase,
}

/// What can happen to a run.
pub enum Event {
    /// A probe came to this outcome.
    Answer(ProbeOutcome),
    /// A probe failed fatally, for this reason.
    Failure(Seq<char>),
    /// A pause is over.
    Resume,
    /// The user asks to end the run.
    Interrupt,
}

/// Whether a run that has sent `sent` probes sends another: while the
/// demanded number is not reached, or without such a limit for a run that
/// goes on forever, and in any case only while the probes can be counted.
pub open spec fn wants_probe(forever: bool, number: nat, sent: nat) -> bool {
    (forever || sent < number) && sent < u64::MAX
}

/// The line that opens a run.
pub open spec fn banner(ip: Seq<char>, port: u16) -> Seq<char> {
    "Pinging "@ + ip + "/"@ + decimal(port as nat) + "\n"@
}

/// The line that reports the probe with number `index`.
pub open spec fn probe_line(index: nat, outcome: ProbeOutcome, ip: Seq<char>) -> Seq<char> {
    decimal(index) + ": "@ + (if outcome.succeeded {
        "Reply from "@ + ip
    } else {
        "No reply"@
    }) + " - rto="@ + millis_text(outcome.elapsed as nat) + "ms\n"@
}

/// The lines that close a run.
pub open spec fn closing(history: Seq<ProbeOutcome>) -> Seq<char> {
    report(summary_of(history)) + "\n"@
}

/// The answer that asks for nothing and prints nothing.
pub open spec fn silence() -> ReactionModel {
    ReactionModel { output: Seq::empty(), error: Seq::empty(), command: Command::Nothing }
}

/// A run before its first probe, and the answer that opens it: the banner,
/// and the first probe, or at once the report if no probe is wanted.
pub open spec fn opened(forever: bool, number: nat, interval: u64, ip: Seq<char>, port: u16) -> (
    SessionModel,
    ReactionModel,
) {
    let fresh = SessionModel {
        forever,
        number,
        interval,
        ip,
        history: Seq::empty(),
        phase: Phase::Running,
    };
    if wants_probe(forever, number, 0) {
        (
            fresh,
            ReactionModel {
                output: banner(ip, port),
                error: Seq::empty(),
                command: Command::Probe,
            },
        )
    } else {
        (
            SessionModel { phase: Phase::Completed, ..fresh },
            ReactionModel {
                output: banner(ip, port) + closing(Seq::empty()),
                error: Seq::empty(),
                command: Command::Exit(exit_code(Seq::empty())),
            },
        )
    }
}

/// How a run answers an event, and what it is afterwards.
///
/// A running run records an answer and prints its line; it then pauses if
/// another probe is wanted, and else completes with the report and the
/// exit code. A fatal failure aborts it with the reason on the standard
/// error and exit code 1, without a report. An interrupt ends it with the
/// report and the exit code. After a pause it probes again. A run that has
/// ended stays as it is and answers with silence.
pub open spec fn react(run: SessionModel, event: Event) -> (SessionModel, ReactionModel) {
    if run.phase != Phase::Running {
        (run, silence())
    } else {
        match event {
            Event::Answer(outcome) => {
                let history = run.history.push(outcome);
                let line = probe_line(run.history.len(), outcome, run.ip);
                if wants_probe(run.forever, run.number, history.len()) {
                    (
                        SessionModel { history, ..run },
                        ReactionModel {
                            output: line,
                            error: Seq::empty(),
                            command: Command::Sleep(run.interval),
                        },
                    )
                } else {
                    (
                        SessionModel { history, phase: Phase::Completed, ..run },
                        ReactionModel {
                            output: line + closing(history),
                            error: Seq::empty(),
                            command: Command::Exit(exit_code(history)),
                        },
                    )
                }
            },
            Event::Failure(reason) => (
                SessionModel { phase: Phase::Aborted, ..run },
                ReactionModel {
                    output: Seq::empty(),
                    error: reason + "\n"@,
                    command: Command::Exit(1),
                },
            ),
            Event::Resume => (
                run,
                ReactionModel {
                    output: Seq::empty(),
                    error: Seq::empty(),
                    command: Command::Probe,
                },
            ),
            Event::Interrupt => (
                SessionModel { phase: Phase::Interrupted, ..run },
                ReactionModel {
                    output: closing(run.history),
                    error: Seq::empty(),
                    command: Command::Exit(exit_code(run.history)),
                },
            ),
        }
    }
}

/// The event that the result of a probe is.
pub open spec fn event_of(result: Result<ProbeOutcome, ProbeError>) -> Event {
    match result {
        Ok(outcome) => Event::Answer(outcome),
        Err(e) => Event::Failure(e.spec_message()),
    }
}

/// The run after a sequence of events.
pub open spec fn run_after(run: SessionModel, events: Seq<Event>) -> SessionModel
    decreases events.len(),
{
    if events.len() == 0 {
        run
    } else {
        react(run_after(run, events.drop_last()), events.last()).0
    }
}

/// The answers to a sequence of events, one for each.
pub open spec fn answers(run: SessionModel, events: Seq<Event>) -> Seq<ReactionModel>
    decreases events.len(),
{
    if events.len() == 0 {
        Seq::empty()
    } else {
        answers(run, events.drop_last()).push(
            react(run_after(run, events.drop_last()), events.last()).1,
        )
    }
}

/// How many of the answers end the process.
pub open spec fn exits(reactions: Seq<ReactionModel>) -> nat
    decreases reactions.len(),
{
    if reactions.len() == 0 {
        0
    } else {
        exits(reactions.drop_last()) + if reactions.last().command is Exit {
            1nat
        } else {
            0nat
        }
    }
}

/// An answer ends the process exactly when it ends the run. A run that has
/// ended stays as it is and answers with silence; it never runs again.
pub proof fn lemma_react_ends_once(run: SessionModel, event: Event)
    ensures
        react(run, event).1.command is Exit <==> run.phase == Phase::Running && react(
            run,
            event,
        ).0.phase != Phase::Running,
        run.phase != Phase::Running ==> react(run, event) == (run, silence()),
        react(run, event).0.phase == Phase::Running ==> run.phase == Phase::Running,
{
}

/// Whatever happens to a run, and in whatever order, at most one answer
/// ends the process, and none has done so while the run is still running.
/// The report is part of no other answer, so it is printed at most once.
pub proof fn lemma_exit_at_most_once(run: SessionModel, events: Seq<Event>)
    requires
        run.phase == Phase::Running,
    ensures
        exits(answers(run, events)) <= 1,
        run_after(run, events).phase == Phase::Running <==> exits(answers(run, events)) == 0,
    decreases events.len(),
{
    if events.len() > 0 {
        lemma_exit_at_most_once(run, events.drop_last());
        lemma_react_ends_once(run_after(run, events.drop_last()), events.last());
        let earlier = answers(run, events.drop_last());
        let all = answers(run, events);
        assert(all.drop_last() =~= earlier);
    }
}

/// Whether a run that is running still wants a probe, as every run does
/// that was opened and has taken in events since.
pub open spec fn well_formed(run: SessionModel) -> bool {
    run.phase == Phase::Running ==> wants_probe(run.forever, run.number, run.history.len())
}

/// Whether no outcome of the history is a success.
pub open spec fn none_answered(history: Seq<ProbeOutcome>) -> bool {
    forall|i: int| 0 <= i < history.len() ==> !(#[trigger] history[i]).succeeded
}

/// Whether the event is the outcome of a probe that was lost, or the end of
/// a pause.
pub open spec fn is_loss_or_resume(event: Event) -> bool {
    match event {
        Event::Answer(outcome) => !outcome.succeeded,
        Event::Resume => true,
        _ => false,
    }
}

/// How many of the events are outcomes of probes.
pub open spec fn outcomes_in(events: Seq<Event>) -> nat
    decreases events.len(),
{
    if events.len() == 0 {
        0
    } else {
        outcomes_in(events.drop_last()) + if events.last() is Answer {
            1nat
        } else {
            0nat
        }
    }
}

/// A run stays well formed whatever happens to it.
pub proof fn lemma_react_keeps_well_formed(run: SessionModel, event: Event)
    requires
        well_formed(run),
    ensures
        well_formed(react(run, event).0),
{
}

/// A run in which every probe is lost, be it by timeout, is not aborted: it
/// keeps running or completes. While it runs, it has recorded every
/// outcome, so a run of a given number of probes has completed once that
/// many outcomes are in. No success is recorded, and the answer that ends
/// the process, if any does, ends it with exit code 1.
pub proof fn lemma_lost_run_completes(run: SessionModel, events: Seq<Event>)
    requires
        well_formed(run),
        run.phase == Phase::Running,
        none_answered(run.history),
        forall|i: int| 0 <= i < events.len() ==> is_loss_or_resume(#[trigger] events[i]),
    ensures
        well_formed(run_after(run, events)),
        none_answered(run_after(run, events).history),
        run_after(run, events).phase == Phase::Running || run_after(run, events).phase
            == Phase::Completed,
        run_after(run, events).phase == Phase::Running ==> run_after(run, events).history.len()
            == run.history.len() + outcomes_in(events),
        answers(run, events).len() == events.len(),
        forall|i: int|
            0 <= i < events.len() && (#[trigger] answers(run, events)[i]).command is Exit
                ==> answers(run, events)[i].command == Command::Exit(1),
    decreases events.len(),
{
    if events.len() > 0 {
        let rest = events.drop_last();
        let last = events.last();
        assert forall|i: int| 0 <= i < rest.len() implies is_loss_or_resume(
            #[trigger] rest[i],
        ) by {
            assert(rest[i] == events[i]);
        }
        lemma_lost_run_completes(run, rest);
        let before = run_after(run, rest);
        assert(is_loss_or_resume(events[events.len() - 1]));
        if before.phase == Phase::Running {
            if let Event::Answer(outcome) = last {
                let history = before.history.push(outcome);
                assert forall|i: int| 0 <= i < history.len() implies !(
                #[trigger] history[i]).succeeded by {
                    if i < before.history.len() {
                        assert(history[i] == before.history[i]);
                    }
                }
                lemma_all_lost(history);
            }
        }
        assert forall|i: int|
            0 <= i < events.len() && (#[trigger] answers(run, events)[i]).command is Exit implies
            answers(run, events)[i].command == Command::Exit(1) by {
            if i < events.len() - 1 {
                assert(answers(run, events)[i] == answers(run, rest)[i]);
            }
        }
    }
}

/// A run in progress.
pub struct Session {
    forever: bool,
    number: u64,
    interval: u64,
    ip: String,
    stats: Stats,
    phase: Phase,
}

impl View for Session {
    type V = SessionModel;

    closed spec fn view(&self) -> SessionModel {
        SessionModel {
            forever: self.forever,
            number: self.number as nat,
            interval: self.interval,
            ip: self.ip@,
            history: self.stats@,
            phase: self.phase,
        }
    }
}

fn push_probe_line(out: &mut String, index: u64, outcome: ProbeOutcome, ip: &str)
    ensures
        final(out)@ == old(out)@ + probe_line(index as nat, outcome, ip@),
{
    push_decimal(out, index);
    out.append(": ");
    if outcome.succeeded {
        out.append("Reply from ");
        out.append(ip);
    } else {
        out.append("No reply");
    }
    out.append(" - rto=");
    push_millis(out, outcome.elapsed);
    out.append("ms\n");
    assert(out@ =~= old(out)@ + probe_line(index as nat, outcome, ip@));
}

impl Reaction {
    /// The answer that asks for nothing and prints nothing.
    pub fn nothing() -> (reaction: Reaction)
        ensures
            reaction@ == silence(),
    {
        Reaction { output: String::new(), error: String::new(), command: Command::Nothing }
    }
}

impl Session {
    #[verifier::type_invariant]
    spec fn consistent(&self) -> bool {
        well_formed(self@)
    }

    /// Opens a run with the arguments `args` towards the address whose IP
    /// address is written `ip`.
    pub fn start(args: &Args, ip: &str) -> (opening: (Session, Reaction))
        ensures
            (opening.0@, opening.1@) == opened(
                args.flags.forever,
                args.opts.number as nat,
                args.opts.interval,
                ip@,
                args.destination.spec_port(),
            ),
    {
        let mut output = "Pinging ".to_owned();
        output.append(ip);
        output.append("/");
        push_decimal(&mut output, args.destination.port() as u64);
        output.append("\n");
        assert(output@ =~= banner(ip@, args.destination.spec_port()));
        let stats = Stats::new();
        let number = args.opts.number as u64;
        if args.flags.forever || number > 0 {
            let session = Session {
                forever: args.flags.forever,
                number,
                interval: args.opts.interval,
                ip: ip.to_owned(),
                stats,
                phase: Phase::Running,
            };
            (session, Reaction { output, error: String::new(), command: Command::Probe })
        } else {
            let summary = stats.summarize();
            let code = stats.exit_code();
            output.append(summary.as_str());
            output.append("\n");
            assert(output@ =~= banner(ip@, args.destination.spec_port()) + closing(Seq::empty()));
            let session = Session {
                forever: args.flags.forever,
                number,
                interval: args.opts.interval,
                ip: ip.to_owned(),
                stats,
                phase: Phase::Completed,
            };
            (session, Reaction { output, error: String::new(), command: Command::Exit(code) })
        }
    }

    /// Where the run stands.
    pub fn phase(&self) -> (phase: Phase)
        ensures
            phase == self@.phase,
    {
        self.phase
    }

    /// The statistics of the run so far.
    pub fn stats(&self) -> (stats: &Stats)
        ensures
            stats@ == self@.history,
    {
        &self.stats
    }

    /// Takes in what a probe came to.
    pub fn probed(&mut self, result: Result<ProbeOutcome, ProbeError>) -> (reaction: Reaction)
        ensures
            (final(self)@, reaction@) == react(old(self)@, event_of(result)),
    {
        proof {
            use_type_invariant(&*self);
        }
        if self.phase != Phase::Running {
            return Reaction::nothing();
        }
        match result {
            Err(e) => {
                self.phase = Phase::Aborted;
                let mut error = e.message().to_owned();
                error.append("\n");
                Reaction { output: String::new(), error, command: Command::Exit(1) }
            },
            Ok(outcome) => {
                let index = self.stats.attempts();
                let mut output = String::new();
                push_probe_line(&mut output, index, outcome, self.ip.as_str());
                let sent: u64 = index + 1;
                let more = (self.forever || sent < self.number) && sent < u64::MAX;
                if !more {
                    self.phase = Phase::Completed;
                }
                self.stats.record(outcome);
                if more {
                    assert(output@ =~= probe_line(index as nat, outcome, self.ip@));
                    Reaction {
                        output,
                        error: String::new(),
                        command: Command::Sleep(self.interval),
                    }
                } else {
                    let summary = self.stats.summarize();
                    output.append(summary.as_str());
                    output.append("\n");
                    assert(output@ =~= probe_line(index as nat, outcome, self.ip@) + closing(
                        self.stats@,
                    ));
                    Reaction {
                        output,
                        error: String::new(),
                        command: Command::Exit(self.stats.exit_code()),
                    }
                }
            },
        }
    }

    /// Takes in that a pause is over.
    pub fn resume(&self) -> (reaction: Reaction)
        ensures
            (self@, reaction@) == react(self@, Event::Resume),
    {
        if self.phase != Phase::Running {
            return Reaction::nothing();
        }
        Reaction { output: String::new(), error: String::new(), command: Command::Probe }
    }

    /// Takes in that the user asks to end the run.
    pub fn interrupt(&mut self) -> (reaction: Reaction)
        ensures
            (final(self)@, reaction@) == react(old(self)@, Event::Interrupt),
    {
        if self.phase != Phase::Running {
            return Reaction::nothing();
        }
        self.phase = Phase::Interrupted;
        let mut output = self.stats.summarize();
        output.append("\n");
        Reaction { output, error: String::new(), command: Command::Exit(self.stats.exit_code()) }
    }
}

} // verus!
