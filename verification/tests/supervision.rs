use tbl::registry::{bootstrap_url, vet_record, RunInfo};
use tbl::supervisor::{Phase, Report, Supervisor, EXIT_FAILURE, EXIT_OK};

fn run(mut s: Supervisor, reports: &[Report]) -> Vec<Phase> {
    let mut phases = vec![s.phase];
    for report in reports {
        s = s.step(*report);
        phases.push(s.phase);
    }
    phases
}

fn record() -> RunInfo {
    RunInfo::new(4711, 1237, "abc123", false)
}

#[test]
fn stop_comes_before_everything() {
    assert_eq!(Supervisor::begin(true, false).phase, Phase::Stopping);
    assert_eq!(Supervisor::begin(true, true).phase, Phase::Stopping);
    let s = Supervisor::begin(true, false).step(Report::Done);
    assert_eq!(s.exit_code(), Some(EXIT_OK));
}

#[test]
fn foreground_process_goes_to_the_background() {
    let s = Supervisor::begin(false, false);
    assert_eq!(s.phase, Phase::Daemonizing);
    assert_eq!(s.exit_code(), None);
    assert_eq!(s.step(Report::Done).exit_code(), Some(0));
    assert_eq!(s.step(Report::Failed).exit_code(), Some(1));
}

#[test]
fn background_process_does_not_recurse() {
    assert_eq!(Supervisor::begin(false, true).phase, Phase::Configuring);
}

#[test]
fn second_invocation_attaches_to_the_live_server() {
    let phases = run(
        Supervisor::begin(false, true),
        &[
            Report::Configured { git: true, tls: true },
            Report::Record { found: true },
            Report::Port { open: true },
            Report::Done,
            Report::Done,
            Report::Failed,
        ],
    );
    assert_eq!(
        phases,
        vec![
            Phase::Configuring,
            Phase::Discovering,
            Phase::Probing,
            Phase::Attaching,
            Phase::Exited { code: 0 },
            Phase::Exited { code: 0 },
            Phase::Exited { code: 0 },
        ]
    );
    assert!(!phases.contains(&Phase::Binding));
    assert!(!phases.contains(&Phase::Registering));
}

#[test]
fn fresh_start_without_git_and_tls() {
    let phases = run(
        Supervisor::begin(false, true),
        &[
            Report::Configured { git: false, tls: false },
            Report::Record { found: false },
            Report::Done,
            Report::Done,
            Report::Done,
            Report::Done,
            Report::Done,
            Report::Done,
            Report::Done,
            Report::Done,
        ],
    );
    assert_eq!(
        phases,
        vec![
            Phase::Configuring,
            Phase::Discovering,
            Phase::IssuingToken,
            Phase::ChoosingPort,
            Phase::SavingConfig,
            Phase::Binding,
            Phase::Registering,
            Phase::Announcing,
            Phase::Serving,
            Phase::Unregistering,
            Phase::Exited { code: EXIT_OK },
        ]
    );
}

#[test]
fn fresh_start_with_git_and_tls() {
    let phases = run(
        Supervisor::begin(false, true),
        &[
            Report::Configured { git: true, tls: true },
            Report::Record { found: false },
            Report::Done,
            Report::Done,
            Report::Done,
            Report::Done,
            Report::Failed,
            Report::Done,
            Report::Done,
        ],
    );
    assert_eq!(
        phases,
        vec![
            Phase::Configuring,
            Phase::Discovering,
            Phase::CheckingGit,
            Phase::SyncingRepo,
            Phase::IssuingToken,
            Phase::ChoosingPort,
            Phase::SavingConfig,
            Phase::LoadingTls,
            Phase::Binding,
            Phase::Registering,
        ]
    );
}

#[test]
fn stale_record_is_cleared_and_then_counts_for_nothing() {
    let configured = Supervisor::begin(false, true).step(Report::Configured { git: true, tls: false });
    let absent = configured.step(Report::Record { found: false });
    let stale = configured.step(Report::Record { found: true }).step(Report::Port { open: false });
    assert_eq!(stale.phase, Phase::ClearingStale);
    assert_eq!(stale.step(Report::Done), absent);
    assert_eq!(stale.step(Report::Failed), absent);
    assert_eq!(absent.phase, Phase::CheckingGit);
}

#[test]
fn failed_start_writes_no_record() {
    for failing in [
        Phase::CheckingGit,
        Phase::SyncingRepo,
        Phase::IssuingToken,
        Phase::ChoosingPort,
        Phase::LoadingTls,
        Phase::Binding,
    ] {
        let s = Supervisor { phase: failing, git: true, tls: true };
        let after = s.step(Report::Failed);
        assert_eq!(after.exit_code(), Some(EXIT_FAILURE), "after {:?}", failing);
        assert_eq!(after.step(Report::Done), after);
    }
    let configuring = Supervisor::begin(false, true);
    assert_eq!(configuring.step(Report::Failed).exit_code(), Some(1));
}

#[test]
fn trouble_with_storing_does_not_stop_the_server() {
    let saving = Supervisor { phase: Phase::SavingConfig, git: false, tls: false };
    assert_eq!(saving.step(Report::Failed).phase, Phase::Binding);
    let registering = Supervisor { phase: Phase::Registering, git: false, tls: false };
    assert_eq!(registering.step(Report::Failed).phase, Phase::Announcing);
    let announcing = Supervisor { phase: Phase::Announcing, git: false, tls: false };
    assert_eq!(announcing.step(Report::Failed).phase, Phase::Serving);
}

#[test]
fn shutdown_removes_the_record_and_leaves_cleanly() {
    let serving = Supervisor { phase: Phase::Serving, git: false, tls: false };
    for ended in [Report::Done, Report::Failed] {
        let s = serving.step(ended);
        assert_eq!(s.phase, Phase::Unregistering);
        assert_eq!(s.step(Report::Done).exit_code(), Some(0));
        assert_eq!(s.step(Report::Failed).exit_code(), Some(0));
    }
}

#[test]
fn supervisor_ignores_reports_out_of_turn() {
    let s = Supervisor::begin(false, true);
    assert_eq!(s.step(Report::Done), s);
    assert_eq!(s.step(Report::Port { open: true }), s);
    let probing = Supervisor { phase: Phase::Probing, git: false, tls: false };
    assert_eq!(probing.step(Report::Done), probing);
    assert_eq!(probing.step(Report::Record { found: true }), probing);
    let binding = Supervisor { phase: Phase::Binding, git: false, tls: false };
    assert_eq!(binding.step(Report::Port { open: false }), binding);
}

#[test]
fn record_is_trusted_only_when_its_port_answers() {
    let live = vet_record(Some(record()), true);
    assert_eq!(live.instance, Some(record()));
    assert!(!live.clear);
    let stale = vet_record(Some(record()), false);
    assert_eq!(stale.instance, None);
    assert!(stale.clear);
    for port_open in [false, true] {
        let absent = vet_record(None, port_open);
        assert_eq!(absent.instance, stale.instance);
        assert!(!absent.clear);
    }
}

#[test]
fn bootstrap_url_points_at_the_loopback_address() {
    assert_eq!(bootstrap_url(false, 1237, "abc123"), "http://127.0.0.1:1237/bootstrap?token=abc123");
    assert_eq!(bootstrap_url(true, 443, "s"), "https://127.0.0.1:443/bootstrap?token=s");
    assert_eq!(record().url(), "http://127.0.0.1:1237/bootstrap?token=abc123");
    let tls = RunInfo { pid: 1, port: 65535, auth_token: "ff".to_string(), tls: true };
    assert_eq!(tls.url(), "https://127.0.0.1:65535/bootstrap?token=ff");
}

#[test]
fn record_holds_what_it_was_made_of() {
    let info = record();
    assert_eq!(info.pid, 4711);
    assert_eq!(info.port, 1237);
    assert_eq!(info.auth_token, "abc123");
    assert!(!info.tls);
}
