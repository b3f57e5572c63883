use toa::ping::cli::{Args, Flags, Options, Protocol};
use toa::ping::probe::{judge, Connect, ProbeError};
use toa::ping::resolve::{Destination, IPversion};
use toa::ping::session::{Command, Phase, Session};
use toa::ping::stats::ProbeOutcome;

const MS: u64 = 1_000_000;

fn args(forever: bool, number: usize) -> Args {
    Args {
        flags: Flags { forever },
        opts: Options {
            number,
            interval: 500,
            timeout: 1000,
            domain: IPversion::V4,
            protocol: Protocol::TCP,
        },
        destination: Destination::V4 { ip: 0xc000_0201, port: 80 },
    }
}

fn timeout() -> Result<ProbeOutcome, ProbeError> {
    judge(Connect::TimedOut, 1000 * MS)
}

fn reply(ms: u64) -> Result<ProbeOutcome, ProbeError> {
    judge(Connect::Established, ms * MS)
}

#[test]
fn a_run_opens_with_the_banner_and_the_first_probe() {
    let (session, opening) = Session::start(&args(false, 4), "192.0.2.1");
    assert_eq!(opening.output, "Pinging 192.0.2.1/80\n");
    assert_eq!(opening.error, "");
    assert_eq!(opening.command, Command::Probe);
    assert_eq!(session.phase(), Phase::Running);
    assert_eq!(session.stats().attempts(), 0);
}

#[test]
fn a_run_of_no_probes_completes_at_once() {
    let (session, opening) = Session::start(&args(false, 0), "192.0.2.1");
    assert_eq!(
        opening.output,
        "Pinging 192.0.2.1/80\nStatistics: attempts=0, successes=0, loss=0%\nLatency: min=0.000ms, avg=0.000ms, max=0.000ms\n"
    );
    assert_eq!(opening.command, Command::Exit(1));
    assert_eq!(session.phase(), Phase::Completed);
}

#[test]
fn a_run_probes_pauses_and_completes() {
    let (mut session, _) = Session::start(&args(false, 2), "192.0.2.1");

    let first = session.probed(reply(10));
    assert_eq!(first.output, "0: Reply from 192.0.2.1 - rto=10.000ms\n");
    assert_eq!(first.error, "");
    assert_eq!(first.command, Command::Sleep(500));
    assert_eq!(session.phase(), Phase::Running);

    let resumed = session.resume();
    assert_eq!(resumed.output, "");
    assert_eq!(resumed.command, Command::Probe);

    let second = session.probed(timeout());
    assert_eq!(
        second.output,
        "1: No reply - rto=1000.000ms\nStatistics: attempts=2, successes=1, loss=50%\nLatency: min=10.000ms, avg=10.000ms, max=10.000ms\n"
    );
    assert_eq!(second.command, Command::Exit(0));
    assert_eq!(session.phase(), Phase::Completed);
    assert_eq!(session.stats().attempts(), 2);
    assert_eq!(session.stats().successes(), 1);
}

#[test]
fn there_is_no_pause_after_the_last_probe() {
    let (mut session, _) = Session::start(&args(false, 1), "192.0.2.1");
    let only = session.probed(reply(1));
    assert_eq!(only.command, Command::Exit(0));
    assert_eq!(session.phase(), Phase::Completed);
}

#[test]
fn all_timeouts_complete_normally_with_exit_code_one() {
    let (mut session, _) = Session::start(&args(false, 4), "192.0.2.1");
    for index in 0..3 {
        let reaction = session.probed(timeout());
        assert_eq!(reaction.output, format!("{}: No reply - rto=1000.000ms\n", index));
        assert_eq!(reaction.error, "");
        assert_eq!(reaction.command, Command::Sleep(500));
        assert_eq!(session.resume().command, Command::Probe);
    }
    let last = session.probed(timeout());
    assert_eq!(
        last.output,
        "3: No reply - rto=1000.000ms\nStatistics: attempts=4, successes=0, loss=100%\nLatency: min=0.000ms, avg=0.000ms, max=0.000ms\n"
    );
    assert_eq!(last.error, "");
    assert_eq!(last.command, Command::Exit(1));
    assert_eq!(session.phase(), Phase::Completed);
    assert!(!session.stats().is_healthy());
}

#[test]
fn a_fatal_failure_aborts_without_a_report() {
    let (mut session, _) = Session::start(&args(false, 4), "192.0.2.1");
    session.probed(reply(10));
    let failure = judge(Connect::Failed("Connection refused (os error 111)".to_string()), 5);
    let reaction = session.probed(failure);
    assert_eq!(reaction.output, "");
    assert_eq!(reaction.error, "Connection refused (os error 111)\n");
    assert_eq!(reaction.command, Command::Exit(1));
    assert_eq!(session.phase(), Phase::Aborted);
    assert_eq!(session.stats().attempts(), 1);
}

#[test]
fn a_socket_that_cannot_be_made_aborts_the_run() {
    let (mut session, _) = Session::start(&args(true, 0), "::1");
    let reaction = session.probed(Err(ProbeError::Setup("Too many open files".to_string())));
    assert_eq!(reaction.error, "Too many open files\n");
    assert_eq!(reaction.command, Command::Exit(1));
    assert_eq!(session.phase(), Phase::Aborted);
}

#[test]
fn an_interrupt_reports_once() {
    let (mut session, _) = Session::start(&args(true, 4), "192.0.2.1");
    session.probed(reply(10));
    session.probed(reply(30));
    let reaction = session.interrupt();
    assert_eq!(
        reaction.output,
        "Statistics: attempts=2, successes=2, loss=0%\nLatency: min=10.000ms, avg=20.000ms, max=30.000ms\n"
    );
    assert_eq!(reaction.command, Command::Exit(0));
    assert_eq!(session.phase(), Phase::Interrupted);

    let again = session.interrupt();
    assert_eq!(again.output, "");
    assert_eq!(again.error, "");
    assert_eq!(again.command, Command::Nothing);
    assert_eq!(session.phase(), Phase::Interrupted);
}

#[test]
fn an_interrupt_of_an_unhealthy_run_exits_with_one() {
    let (mut session, _) = Session::start(&args(true, 4), "192.0.2.1");
    session.probed(timeout());
    let reaction = session.interrupt();
    assert_eq!(reaction.command, Command::Exit(1));
    let (mut session, _) = Session::start(&args(false, 4), "192.0.2.1");
    assert_eq!(session.interrupt().command, Command::Exit(1));
}

#[test]
fn a_run_that_has_ended_is_silent() {
    let (mut session, _) = Session::start(&args(false, 1), "192.0.2.1");
    assert_eq!(session.probed(reply(1)).command, Command::Exit(0));
    for _ in 0..3 {
        let late = session.probed(reply(1));
        assert_eq!(late.output, "");
        assert_eq!(late.command, Command::Nothing);
        assert_eq!(session.interrupt().command, Command::Nothing);
        assert_eq!(session.resume().command, Command::Nothing);
    }
    assert_eq!(session.phase(), Phase::Completed);
    assert_eq!(session.stats().attempts(), 1);

    let (mut session, _) = Session::start(&args(true, 1), "192.0.2.1");
    session.interrupt();
    assert_eq!(session.probed(reply(1)).command, Command::Nothing);
    assert_eq!(session.resume().command, Command::Nothing);
    assert_eq!(session.stats().attempts(), 0);
}

#[test]
fn a_run_that_goes_on_forever_ignores_the_number() {
    let (mut session, opening) = Session::start(&args(true, 2), "192.0.2.1");
    assert_eq!(opening.command, Command::Probe);
    for index in 0..10 {
        let reaction = session.probed(reply(index));
        assert_eq!(reaction.command, Command::Sleep(500));
    }
    assert_eq!(session.phase(), Phase::Running);
    assert_eq!(session.stats().attempts(), 10);
}

#[test]
fn the_banner_names_address_and_port() {
    let mut a = args(false, 1);
    a.destination = Destination::V6 { ip: 1, port: 65535, flowinfo: 0, scope_id: 0 };
    let (_, opening) = Session::start(&a, "::1");
    assert_eq!(opening.output, "Pinging ::1/65535\n");
}
