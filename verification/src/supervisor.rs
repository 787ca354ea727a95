//! The course of one invocation.
//!
//! Every invocation goes through the same decisions: stop a running server,
//! or become a background process, or attach to a server that is already
//! running, or start a fresh one, serve, and clean up. The caller does the
//! work of each phase and reports how it went; `Supervisor` says which phase
//! comes next.
//!
//! The run record is written only after the server is bound, so a start that
//! fails leaves nothing behind.

use vstd::prelude::*;

verus! {

/// What an invocation is busy with.
#[derive(Clone, Copy, Debug, PartialEq, Eq, Structural)]
pub enum Phase {
    /// Run the stop command.
    Stopping,
    /// Print the banner and start a detached copy of this process, marked
    /// as the background process.
    Daemonizing,
    /// Find the configuration directory, read flags, environment and file,
    /// and merge them.
    Configuring,
    /// Load the run record.
    Discovering,
    /// Probe the port of the run record.
    Probing,
    /// Remove the stale run record.
    ClearingStale,
    /// Tell where the running server is, and open a browser there unless
    /// that is switched off.
    Attaching,
    /// See that git can be run.
    CheckingGit,
    /// Clone or update the served application.
    SyncingRepo,
    /// Issue the session secret.
    IssuingToken,
    /// Split the configured address and choose a free port.
    ChoosingPort,
    /// Store the configuration with the chosen port.
    SavingConfig,
    /// Load the TLS certificate and key.
    LoadingTls,
    /// Bind the listener.
    Binding,
    /// Write the run record.
    Registering,
    /// Print the bootstrap URL, and open a browser there unless that is
    /// switched off.
    Announcing,
    /// Serve until the shutdown signal comes.
    Serving,
    /// Remove the run record.
    Unregistering,
    /// Leave with this exit code.
    Exited { code: u8 },
}

/// How the work of a phase went.
#[derive(Clone, Copy, Debug, PartialEq, Eq, Structural)]
pub enum Report {
    /// It was done.
    Done,
    /// It failed.
    Failed,
    /// The configuration is merged: whether it names a git URL, and whether
    /// it has both a TLS certificate and a key.
    Configured { git: bool, tls: bool },
    /// The run record was looked for.
    Record { found: bool },
    /// The port of the run record was probed.
    Port { open: bool },
}

/// Where an invocation stands.
#[derive(Clone, Copy, Debug, PartialEq, Eq, Structural)]
pub struct Supervisor {
    /// The phase to carry out.
    pub phase: Phase,
    /// Whether a git URL is configured.
    pub git: bool,
    /// Whether TLS is configured.
    pub tls: bool,
}

/// The environment variable that marks the background process, so that it
/// does not start another.
pub const DAEMON_MARKER: &'static str = "TBL_DAEMONIZED";

/// The exit code of a run that did what it was asked.
pub const EXIT_OK: u8 = 0;

/// The exit code of a run that failed.
pub const EXIT_FAILURE: u8 = 1;

impl Phase {
    /// Whether the phase belongs to starting a fresh server, up to and
    /// including the bind.
    pub open spec fn is_startup(self) -> bool {
        matches!(
            self,
            Phase::CheckingGit | Phase::SyncingRepo | Phase::IssuingToken | Phase::ChoosingPort
                | Phase::SavingConfig | Phase::LoadingTls | Phase::Binding
        )
    }

    /// Whether a failure in this phase is fatal.
    pub open spec fn must_succeed(self) -> bool {
        matches!(
            self,
            Phase::Stopping | Phase::Daemonizing | Phase::Configuring | Phase::CheckingGit
                | Phase::SyncingRepo | Phase::IssuingToken | Phase::ChoosingPort
                | Phase::LoadingTls | Phase::Binding
        )
    }

    /// Whether `report` is an answer that this phase waits for.
    pub open spec fn expects(self, report: Report) -> bool {
        match self {
            Phase::Configuring => report is Configured || report is Failed,
            Phase::Discovering => report is Record,
            Phase::Probing => report is Port,
            Phase::Exited { .. } => false,
            _ => report is Done || report is Failed,
        }
    }

    /// Whether `report` is an answer that this phase waits for.
    pub fn waits_for(&self, report: Report) -> (fits: bool)
        ensures
            fits == self.expects(report),
    {
        match self {
            Phase::Configuring => match report {
                Report::Configured { .. } | Report::Failed => true,
                _ => false,
            },
            Phase::Discovering => match report {
                Report::Record { .. } => true,
                _ => false,
            },
            Phase::Probing => match report {
                Report::Port { .. } => true,
                _ => false,
            },
            Phase::Exited { .. } => false,
            _ => match report {
                Report::Done | Report::Failed => true,
                _ => false,
            },
        }
    }

    /// Whether a failure in this phase is fatal.
    pub fn is_vital(&self) -> (vital: bool)
        ensures
            vital == self.must_succeed(),
    {
        match self {
            Phase::Stopping
            | Phase::Daemonizing
            | Phase::Configuring
            | Phase::CheckingGit
            | Phase::SyncingRepo
            | Phase::IssuingToken
            | Phase::ChoosingPort
            | Phase::LoadingTls
            | Phase::Binding => true,
            _ => false,
        }
    }

    /// How far the phase is from the end of the run, at most.
    pub open spec fn rank(self) -> nat {
        match self {
            Phase::Configuring => 16,
            Phase::Discovering => 15,
            Phase::Probing => 14,
            Phase::ClearingStale => 13,
            Phase::CheckingGit => 12,
            Phase::SyncingRepo => 11,
            Phase::IssuingToken => 10,
            Phase::ChoosingPort => 9,
            Phase::SavingConfig => 8,
            Phase::LoadingTls => 7,
            Phase::Binding => 6,
            Phase::Registering => 5,
            Phase::Announcing => 4,
            Phase::Serving => 3,
            Phase::Unregistering => 2,
            Phase::Stopping => 1,
            Phase::Daemonizing => 1,
            Phase::Attaching => 1,
            Phase::Exited { .. } => 0,
        }
    }
}

impl Supervisor {
    /// The same run in another phase.
    pub open spec fn at(self, phase: Phase) -> Supervisor {
        Supervisor { phase, ..self }
    }

    /// Where a run begins: with the stop command where that is asked for;
    /// else, in the foreground, with becoming a background process; else
    /// with the configuration.
    pub open spec fn initial(stop: bool, daemonized: bool) -> Supervisor {
        Supervisor {
            phase: if stop {
                Phase::Stopping
            } else if !daemonized {
                Phase::Daemonizing
            } else {
                Phase::Configuring
            },
            git: false,
            tls: false,
        }
    }

    /// The phase that follows discovery where no server is running: the
    /// repository where a git URL is configured, else the secret.
    pub open spec fn fresh_start(self) -> Supervisor {
        self.at(
            if self.git {
                Phase::CheckingGit
            } else {
                Phase::IssuingToken
            },
        )
    }

    /// The run after `report`. A report that the phase does not wait for
    /// changes nothing.
    pub open spec fn next(self, report: Report) -> Supervisor {
        if !self.phase.expects(report) {
            self
        } else if report is Failed && self.phase.must_succeed() {
            self.at(Phase::Exited { code: EXIT_FAILURE })
        } else {
            match self.phase {
                Phase::Stopping | Phase::Daemonizing | Phase::Attaching | Phase::Unregistering => {
                    self.at(Phase::Exited { code: EXIT_OK })
                },
                Phase::Configuring => match report {
                    Report::Configured { git, tls } => Supervisor {
                        phase: Phase::Discovering,
                        git,
                        tls,
                    },
                    _ => self,
                },
                Phase::Discovering => if report == (Report::Record { found: true }) {
                    self.at(Phase::Probing)
                } else {
                    self.fresh_start()
                },
                Phase::Probing => if report == (Report::Port { open: true }) {
                    self.at(Phase::Attaching)
                } else {
                    self.at(Phase::ClearingStale)
                },
                Phase::ClearingStale => self.fresh_start(),
                Phase::CheckingGit => self.at(Phase::SyncingRepo),
                Phase::SyncingRepo => self.at(Phase::IssuingToken),
                Phase::IssuingToken => self.at(Phase::ChoosingPort),
                Phase::ChoosingPort => self.at(Phase::SavingConfig),
                Phase::SavingConfig => self.at(
                    if self.tls {
                        Phase::LoadingTls
                    } else {
                        Phase::Binding
                    },
                ),
                Phase::LoadingTls => self.at(Phase::Binding),
                Phase::Binding => self.at(Phase::Registering),
                Phase::Registering => self.at(Phase::Announcing),
                Phase::Announcing => self.at(Phase::Serving),
                Phase::Serving => self.at(Phase::Unregistering),
                Phase::Exited { .. } => self,
            }
        }
    }

    /// The run after a sequence of reports.
    pub open spec fn run(self, reports: Seq<Report>) -> Supervisor
        decreases reports.len(),
    {
        if reports.len() == 0 {
            self
        } else {
            self.next(reports[0]).run(reports.drop_first())
        }
    }

    /// Begins a run. `stop` says whether the stop command was asked for,
    /// `daemonized` whether this process is the background process already.
    pub fn begin(stop: bool, daemonized: bool) -> (s: Supervisor)
        ensures
            s == Supervisor::initial(stop, daemonized),
    {
        let phase = if stop {
            Phase::Stopping
        } else if !daemonized {
            Phase::Daemonizing
        } else {
            Phase::Configuring
        };
        Supervisor { phase, git: false, tls: false }
    }

    /// Whether the run is over, and with which exit code.
    pub fn exit_code(&self) -> (code: Option<u8>)
        ensures
            code == match self.phase {
                Phase::Exited { code } => Some(code),
                _ => None::<u8>,
            },
    {
        match self.phase {
            Phase::Exited { code } => Some(code),
            _ => None,
        }
    }

    fn goto(&self, phase: Phase) -> (s: Supervisor)
        ensures
            s == self.at(phase),
    {
        Supervisor { phase, git: self.git, tls: self.tls }
    }

    fn start_fresh(&self) -> (s: Supervisor)
        ensures
            s == self.fresh_start(),
    {
        if self.git {
            self.goto(Phase::CheckingGit)
        } else {
            self.goto(Phase::IssuingToken)
        }
    }

    /// Takes the report on the current phase and moves on.
    pub fn step(&self, report: Report) -> (after: Supervisor)
        ensures
            after == self.next(report),
    {
        if !self.phase.waits_for(report) {
            return *self;
        }
        let failed = match report {
            Report::Failed => true,
            _ => false,
        };
        if failed && self.phase.is_vital() {
            return self.goto(Phase::Exited { code: EXIT_FAILURE });
        }
        match self.phase {
            Phase::Stopping | Phase::Daemonizing | Phase::Attaching | Phase::Unregistering => {
                self.goto(Phase::Exited { code: EXIT_OK })
            },
            Phase::Configuring => match report {
                Report::Configured { git, tls } => Supervisor {
                    phase: Phase::Discovering,
                    git,
                    tls,
                },
                _ => *self,
            },
            Phase::Discovering => match report {
                Report::Record { found: true } => self.goto(Phase::Probing),
                _ => self.start_fresh(),
            },
            Phase::Probing => match report {
                Report::Port { open: true } => self.goto(Phase::Attaching),
                _ => self.goto(Phase::ClearingStale),
            },
            Phase::ClearingStale => self.start_fresh(),
            Phase::CheckingGit => self.goto(Phase::SyncingRepo),
            Phase::SyncingRepo => self.goto(Phase::IssuingToken),
            Phase::IssuingToken => self.goto(Phase::ChoosingPort),
            Phase::ChoosingPort => self.goto(Phase::SavingConfig),
            Phase::SavingConfig => if self.tls {
                self.goto(Phase::LoadingTls)
            } else {
                self.goto(Phase::Binding)
            },
            Phase::LoadingTls => self.goto(Phase::Binding),
            Phase::Binding => self.goto(Phase::Registering),
            Phase::Registering => self.goto(Phase::Announcing),
            Phase::Announcing => self.goto(Phase::Serving),
            Phase::Serving => self.goto(Phase::Unregistering),
            Phase::Exited { .. } => *self,
        }
    }
}

/// Every report that a phase waits for brings the run nearer its end: no
/// invocation goes round in circles.
pub proof fn lemma_progress(s: Supervisor, report: Report)
    requires
        s.phase.expects(report),
    ensures
        s.next(report).phase.rank() < s.phase.rank(),
{
}

/// A run that has ended stays ended, whatever is reported to it.
pub proof fn lemma_exit_is_final(s: Supervisor, reports: Seq<Report>)
    requires
        s.phase is Exited,
    ensures
        s.run(reports) == s,
    decreases reports.len(),
{
    if reports.len() > 0 {
        lemma_exit_is_final(s, reports.drop_first());
    }
}

/// An invocation that finds a live server attaches to it and leaves with
/// exit code 0. Whatever is reported from then on, it never goes on to
/// start a server of its own: it binds no listener, writes no run record
/// and serves nothing.
pub proof fn lemma_live_server_is_attached(s: Supervisor, reports: Seq<Report>)
    requires
        s.phase == Phase::Probing,
    ensures
        s.next(Report::Port { open: true }).phase == Phase::Attaching,
        ({
            let end = s.next(Report::Port { open: true }).run(reports).phase;
            end == Phase::Attaching || end == (Phase::Exited { code: EXIT_OK })
        }),
{
    lemma_attached_stays(s.next(Report::Port { open: true }), reports);
}

/// The same from the beginning of the run: a background process that finds
/// a run record whose port answers goes through configuration, discovery
/// and probe to attaching, and from there to exit code 0 and nowhere else.
pub proof fn lemma_second_invocation(git: bool, tls: bool, reports: Seq<Report>)
    ensures
        ({
            let configured = Supervisor::initial(false, true).next(
                Report::Configured { git, tls },
            );
            let probing = configured.next(Report::Record { found: true });
            let attaching = probing.next(Report::Port { open: true });
            let end = attaching.run(reports).phase;
            &&& Supervisor::initial(false, true).phase == Phase::Configuring
            &&& configured.phase == Phase::Discovering
            &&& probing.phase == Phase::Probing
            &&& attaching.phase == Phase::Attaching
            &&& attaching.next(Report::Done).phase == (Phase::Exited { code: EXIT_OK })
            &&& end == Phase::Attaching || end == (Phase::Exited { code: EXIT_OK })
        }),
{
    let probing = Supervisor::initial(false, true).next(Report::Configured { git, tls }).next(
        Report::Record { found: true },
    );
    lemma_live_server_is_attached(probing, reports);
}

proof fn lemma_attached_stays(s: Supervisor, reports: Seq<Report>)
    requires
        s.phase == Phase::Attaching || s.phase == (Phase::Exited { code: EXIT_OK }),
    ensures
        s.run(reports).phase == Phase::Attaching || s.run(reports).phase == (Phase::Exited {
            code: EXIT_OK,
        }),
    decreases reports.len(),
{
    if reports.len() > 0 {
        lemma_attached_stays(s.next(reports[0]), reports.drop_first());
    }
}

/// A run record whose port does not answer is removed, and the run then
/// goes on exactly as a run that found no record.
pub proof fn lemma_stale_record_counts_for_nothing(s: Supervisor, cleared: Report)
    requires
        cleared == Report::Done || cleared == Report::Failed,
    ensures
        s.at(Phase::Probing).next(Report::Port { open: false }).phase == Phase::ClearingStale,
        s.at(Phase::Probing).next(Report::Port { open: false }).next(cleared) == s.at(
            Phase::Discovering,
        ).next(Report::Record { found: false }),
{
}

/// The run record is written only after the listener was bound: every
/// failure of a start-up phase ends the run with a failure code at once,
/// and the record's phase is entered from a successful bind alone.
pub proof fn lemma_record_follows_bind(s: Supervisor, report: Report)
    ensures
        s.phase != Phase::Registering && s.next(report).phase == Phase::Registering ==> s.phase
            == Phase::Binding && report == Report::Done,
        s.phase.is_startup() && s.phase != Phase::SavingConfig && report == Report::Failed
            ==> s.next(report).phase == (Phase::Exited { code: EXIT_FAILURE }),
{
}

/// When serving ends, by the shutdown signal or by a fault of the server,
/// the run record is removed next and the run then leaves with exit code 0.
pub proof fn lemma_clean_shutdown(s: Supervisor, ended: Report, removed: Report)
    requires
        s.phase == Phase::Serving,
        ended == Report::Done || ended == Report::Failed,
        removed == Report::Done || removed == Report::Failed,
    ensures
        s.next(ended).phase == Phase::Unregistering,
        s.next(ended).next(removed).phase == (Phase::Exited { code: EXIT_OK }),
{
}

} // verus!
