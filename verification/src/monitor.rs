//! The dashboard's control: which question it asks the validator next, and what it
//! shows, given the answer to the last one.

use vstd::prelude::*;
use crate::dashboard::{
    contact_info_lines, contact_lines_of, dashboard_status_line, emphasis_of, get_contact_info,
    holds_segment, law_status_line_shows_snapshot, lines_view, snapshot_field, status_text,
    uptime_in_range, ContactInfo, NameValue, ValidatorStats,
};

verus! {

/// Where the dashboard is in its work.
#[derive(Clone, Copy, Debug, PartialEq, Eq, Structural)]
pub enum Phase {
    /// About to check, before (re)connecting, whether the validator is exiting.
    CheckRunning,
    /// Showing a fresh spinner while connecting.
    SpinUp,
    /// Waiting for the validator to start: about to check whether it is exiting.
    StartupCheckExit,
    /// Connecting to the validator's admin service.
    Connecting,
    /// Asking the validator how far its startup has come.
    QueryingProgress,
    /// Asking the running validator for its RPC address and start time.
    QueryingInfo,
    /// Showing why startup is not complete yet.
    StartupShowing,
    /// Pausing before the next startup check.
    StartupSleeping,
    /// Asking the validator for its identity.
    FetchingIdentity,
    /// Reporting that the identity could not be had.
    ReportingFailure,
    /// Printing the identity.
    PrintingIdentity,
    /// Asking for the genesis hash.
    FetchingGenesis,
    /// Printing the genesis hash.
    PrintingGenesis,
    /// Asking for the cluster's nodes.
    FetchingContacts,
    /// Printing what the cluster reports of the validator's node.
    PrintingContacts,
    /// Showing a fresh spinner for the monitoring rounds.
    MonitorSpinUp,
    /// In a monitoring round: about to check whether the validator is exiting.
    MonitorCheckExit,
    /// Asking for the latest snapshot slot.
    FetchingSnapshot,
    /// Asking for the validator's stats.
    FetchingStats,
    /// Showing the status line.
    MonitorShowing,
    /// Pausing before the next monitoring round.
    MonitorSleeping,
    /// Giving up on the current connection.
    Abandoning,
    /// Done: the validator is exiting.
    Finished,
}

/// How far a validator's startup has come.
#[derive(Clone, Debug)]
pub struct StartProgress {
    /// Whether it is running.
    pub running: bool,
    /// How the validator describes the stage it is at.
    pub description: String,
}

/// The validator's stats, with the time elapsed since it started.
#[derive(Clone, Debug)]
pub struct StatsReport {
    pub stats: ValidatorStats,
    pub uptime_secs: u64,
    pub uptime_nanos: u32,
}

/// The answer to the dashboard's last command.
#[derive(Debug)]
pub enum Event {
    /// Whether the validator is exiting.
    ExitFlag(bool),
    /// The command was carried out.
    Done,
    /// The admin service connected, or why it did not.
    Connected(Result<(), String>),
    /// The startup progress, or why it could not be had.
    Progress(Result<StartProgress, String>),
    /// Whether the running validator has an RPC address, or why that could not be had.
    Info(Result<bool, String>),
    /// The validator's identity, or why it could not be had.
    Identity(Result<String, String>),
    /// The genesis hash, where it could be had.
    Genesis(Option<String>),
    /// The cluster's nodes (none where they could not be had).
    ClusterNodes(Vec<ContactInfo>),
    /// The latest snapshot slot, where it could be had.
    SnapshotSlot(Option<u64>),
    /// The validator's stats, or why they could not be had.
    Stats(Result<StatsReport, String>),
}

/// What the dashboard asks to be done next.
#[derive(Debug)]
pub enum Command {
    /// Answer whether the validator is exiting (`ExitFlag`).
    CheckExit,
    /// Replace the spinner with a fresh one showing the text, if any (`Done`).
    NewSpinner(Option<String>),
    /// Connect to the validator's admin service (`Connected`).
    Connect,
    /// Ask for the startup progress (`Progress`), giving up the admin connection if it is running.
    QueryProgress,
    /// Ask the admin service for the RPC address and start time (`Info`).
    QueryInfo,
    /// Set the spinner's text (`Done`).
    SetMessage(String),
    /// Pause for the refresh interval (`Done`).
    Sleep,
    /// Ask for the identity (`Identity`).
    FetchIdentity,
    /// Print a line (`Done`).
    PrintLine(String),
    /// Print name-value lines (`Done`).
    PrintLines(Vec<NameValue>),
    /// Ask for the genesis hash (`Genesis`).
    FetchGenesis,
    /// Ask for the cluster's nodes (`ClusterNodes`).
    FetchClusterNodes,
    /// Ask for the latest snapshot slot (`SnapshotSlot`).
    FetchSnapshotSlot,
    /// Ask for the stats and the uptime (`Stats`).
    FetchStats,
    /// Leave the spinner with the text (`Done`).
    Abandon(String),
    /// Stop.
    Stop,
}

/// The dashboard's control state.
#[derive(Clone, Debug)]
pub struct DashboardMachine {
    pub phase: Phase,
    /// Whether an admin connection is open.
    pub has_client: bool,
    /// The validator's identity, once known.
    pub identity: String,
    /// The latest snapshot slot seen in the current monitoring rounds.
    pub snapshot_slot: Option<u64>,
    /// The round number within the current monitoring rounds, modulo ten.
    pub round: u8,
}

/// Whether `event` answers the command that a machine in `phase` gave.
pub open spec fn accepts(phase: Phase, event: Event) -> bool {
    match phase {
        Phase::CheckRunning | Phase::StartupCheckExit | Phase::MonitorCheckExit => event is ExitFlag,
        Phase::SpinUp | Phase::StartupShowing | Phase::StartupSleeping | Phase::ReportingFailure
        | Phase::PrintingIdentity | Phase::PrintingGenesis | Phase::PrintingContacts
        | Phase::MonitorSpinUp | Phase::MonitorShowing | Phase::MonitorSleeping
        | Phase::Abandoning => event is Done,
        Phase::Connecting => event is Connected,
        Phase::QueryingProgress => event is Progress,
        Phase::QueryingInfo => event is Info,
        Phase::FetchingIdentity => event is Identity,
        Phase::FetchingGenesis => event is Genesis,
        Phase::FetchingContacts => event is ClusterNodes,
        Phase::FetchingSnapshot => event is SnapshotSlot,
        Phase::FetchingStats => event is Stats,
        Phase::Finished => true,
    }
}

/// Whether a cluster node list holds the node with public key `identity`.
pub open spec fn lists_node(nodes: Vec<ContactInfo>, identity: String) -> bool {
    exists|i: int| 0 <= i < nodes@.len() && nodes@[i].pubkey@ == identity@
}

/// The round after round `r`, modulo ten.
pub open spec fn next_round(r: u8) -> u8 {
    if r >= 9 {
        0
    } else {
        (r + 1) as u8
    }
}

/// The phase a machine moves to on an event it accepts.
pub open spec fn next_phase(m: DashboardMachine, event: Event) -> Phase {
    match (m.phase, event) {
        (Phase::CheckRunning, Event::ExitFlag(exiting)) => if exiting {
            Phase::Finished
        } else {
            Phase::SpinUp
        },
        (Phase::SpinUp, _) => Phase::StartupCheckExit,
        (Phase::StartupCheckExit, Event::ExitFlag(exiting)) => if exiting {
            Phase::CheckRunning
        } else if m.has_client {
            Phase::QueryingProgress
        } else {
            Phase::Connecting
        },
        (Phase::Connecting, Event::Connected(r)) => match r {
            Ok(_) => Phase::QueryingProgress,
            Err(_) => Phase::StartupShowing,
        },
        (Phase::QueryingProgress, Event::Progress(r)) => match r {
            Ok(p) => if p.running {
                Phase::QueryingInfo
            } else {
                Phase::StartupShowing
            },
            Err(_) => Phase::StartupShowing,
        },
        (Phase::QueryingInfo, Event::Info(r)) => match r {
            Ok(has_rpc) => if has_rpc {
                Phase::FetchingIdentity
            } else {
                Phase::StartupShowing
            },
            Err(_) => Phase::StartupShowing,
        },
        (Phase::StartupShowing, _) => Phase::StartupSleeping,
        (Phase::StartupSleeping, _) => Phase::StartupCheckExit,
        (Phase::FetchingIdentity, Event::Identity(r)) => match r {
            Ok(_) => Phase::PrintingIdentity,
            Err(_) => Phase::ReportingFailure,
        },
        (Phase::ReportingFailure, _) => Phase::CheckRunning,
        (Phase::PrintingIdentity, _) => Phase::FetchingGenesis,
        (Phase::FetchingGenesis, Event::Genesis(g)) => match g {
            Some(_) => Phase::PrintingGenesis,
            None => Phase::FetchingContacts,
        },
        (Phase::PrintingGenesis, _) => Phase::FetchingContacts,
        (Phase::FetchingContacts, Event::ClusterNodes(nodes)) => if lists_node(nodes, m.identity) {
            Phase::PrintingContacts
        } else {
            Phase::MonitorSpinUp
        },
        (Phase::PrintingContacts, _) => Phase::MonitorSpinUp,
        (Phase::MonitorSpinUp, _) => Phase::MonitorCheckExit,
        (Phase::MonitorCheckExit, Event::ExitFlag(exiting)) => if exiting {
            Phase::CheckRunning
        } else if m.round == 0 {
            Phase::FetchingSnapshot
        } else {
            Phase::FetchingStats
        },
        (Phase::FetchingSnapshot, Event::SnapshotSlot(_)) => Phase::FetchingStats,
        (Phase::FetchingStats, Event::Stats(r)) => match r {
            Ok(_) => Phase::MonitorShowing,
            Err(_) => Phase::Abandoning,
        },
        (Phase::MonitorShowing, _) => Phase::MonitorSleeping,
        (Phase::MonitorSleeping, _) => Phase::MonitorCheckExit,
        (Phase::Abandoning, _) => Phase::CheckRunning,
        _ => Phase::Finished,
    }
}

/// The machine after an event it accepts: the next phase; the admin connection opened
/// on connecting and given up when the progress query fails or finds the validator
/// running; the identity kept once known; the snapshot slot and round reset when the
/// monitoring rounds begin, the snapshot slot replaced when fetched, and the round
/// advanced after each pause.
pub open spec fn next_machine(m: DashboardMachine, event: Event) -> DashboardMachine {
    DashboardMachine {
        phase: next_phase(m, event),
        has_client: match (m.phase, event) {
            (Phase::Connecting, Event::Connected(Ok(_))) => true,
            (Phase::QueryingProgress, Event::Progress(Ok(p))) => m.has_client && !p.running,
            (Phase::QueryingProgress, Event::Progress(Err(_))) => false,
            _ => m.has_client,
        },
        identity: match (m.phase, event) {
            (Phase::FetchingIdentity, Event::Identity(Ok(id))) => id,
            _ => m.identity,
        },
        snapshot_slot: match (m.phase, event) {
            (Phase::MonitorSpinUp, _) => None,
            (Phase::FetchingSnapshot, Event::SnapshotSlot(s)) => s,
            _ => m.snapshot_slot,
        },
        round: match m.phase {
            Phase::MonitorSpinUp => 0,
            Phase::MonitorSleeping => next_round(m.round),
            _ => m.round,
        },
    }
}

/// Whether `c` is the command a machine `m` gives after an event it accepts.
pub open spec fn command_fits(m: DashboardMachine, event: Event, c: Command) -> bool {
    match next_phase(m, event) {
        Phase::CheckRunning | Phase::StartupCheckExit | Phase::MonitorCheckExit => c is CheckExit,
        Phase::SpinUp => c matches Command::NewSpinner(Some(t)) && t@ == "Connecting..."@,
        Phase::Connecting => c is Connect,
        Phase::QueryingProgress => c is QueryProgress,
        Phase::QueryingInfo => c is QueryInfo,
        Phase::StartupShowing => c matches Command::SetMessage(t) && t@ == match event {
            Event::Connected(Err(e)) => "Unable to connect to validator: "@ + e@,
            Event::Progress(Ok(p)) => "Validator startup: "@ + p.description@ + "..."@,
            Event::Progress(Err(e)) => "Failed to get validator start progress: "@ + e@,
            Event::Info(Ok(_)) => "RPC service not available"@,
            Event::Info(Err(e)) => "Failed to get validator info: "@ + e@,
            _ => Seq::empty(),
        },
        Phase::StartupSleeping | Phase::MonitorSleeping => c is Sleep,
        Phase::FetchingIdentity => c is FetchIdentity,
        Phase::ReportingFailure => c matches Command::PrintLine(t) && event matches Event::Identity(
            Err(e),
        ) && t@ == "Failed to get validator identity over RPC: "@ + e@,
        Phase::PrintingIdentity => c matches Command::PrintLines(lines) && event matches Event::Identity(
            Ok(id),
        ) && lines_view(lines@) == seq![("Identity:"@, id@)],
        Phase::FetchingGenesis => c is FetchGenesis,
        Phase::PrintingGenesis => c matches Command::PrintLines(lines) && event matches Event::Genesis(
            Some(h),
        ) && lines_view(lines@) == seq![("Genesis Hash:"@, h@)],
        Phase::FetchingContacts => c is FetchClusterNodes,
        Phase::PrintingContacts => c matches Command::PrintLines(lines) && event matches Event::ClusterNodes(
            nodes,
        ) && exists|i: int|
            0 <= i < nodes@.len() && nodes@[i].pubkey@ == m.identity@ && (forall|j: int|
                0 <= j < i ==> nodes@[j].pubkey@ != m.identity@) && lines_view(lines@)
                == contact_lines_of(nodes@[i]),
        Phase::MonitorSpinUp => c matches Command::NewSpinner(None),
        Phase::FetchingSnapshot => c is FetchSnapshotSlot,
        Phase::FetchingStats => c is FetchStats,
        Phase::MonitorShowing => c matches Command::SetMessage(t) && event matches Event::Stats(
            Ok(r),
        ) && exists|shown: Seq<char>|
            emphasis_of(r.stats.health@, shown) && t@ == status_text(
                r.stats,
                m.snapshot_slot,
                r.uptime_secs,
                shown,
            ),
        Phase::Abandoning => c matches Command::Abandon(t) && event matches Event::Stats(Err(e))
            && t@ == "RPC connection failure: "@ + e@,
        Phase::Finished => c is Stop,
    }
}

/// Joins two texts.
fn joined(a: &str, b: &str) -> (res: String)
    ensures
        res@ == a@ + b@,
{
    let mut s = String::from_str(a);
    s.append(b);
    s
}

impl DashboardMachine {
    /// A dashboard that has not yet checked on its validator.
    pub fn new() -> (res: (DashboardMachine, Command))
        ensures
            res.0.phase == Phase::CheckRunning,
            !res.0.has_client,
            res.0.snapshot_slot is None,
            res.0.round == 0,
            res.0.identity@ == Seq::<char>::empty(),
            res.1 is CheckExit,
    {
        (
            DashboardMachine {
                phase: Phase::CheckRunning,
                has_client: false,
                identity: String::new(),
                snapshot_slot: None,
                round: 0,
            },
            Command::CheckExit,
        )
    }

    /// Whether the machine accepts `event` as the answer to its last command.
    pub fn accepts(&self, event: &Event) -> (res: bool)
        ensures
            res == accepts(self.phase, *event),
    {
        match self.phase {
            Phase::CheckRunning | Phase::StartupCheckExit | Phase::MonitorCheckExit => matches!(event, Event::ExitFlag(_)),
            Phase::SpinUp | Phase::StartupShowing | Phase::StartupSleeping | Phase::ReportingFailure
            | Phase::PrintingIdentity | Phase::PrintingGenesis | Phase::PrintingContacts
            | Phase::MonitorSpinUp | Phase::MonitorShowing | Phase::MonitorSleeping
            | Phase::Abandoning => matches!(event, Event::Done),
            Phase::Connecting => matches!(event, Event::Connected(_)),
            Phase::QueryingProgress => matches!(event, Event::Progress(_)),
            Phase::QueryingInfo => matches!(event, Event::Info(_)),
            Phase::FetchingIdentity => matches!(event, Event::Identity(_)),
            Phase::FetchingGenesis => matches!(event, Event::Genesis(_)),
            Phase::FetchingContacts => matches!(event, Event::ClusterNodes(_)),
            Phase::FetchingSnapshot => matches!(event, Event::SnapshotSlot(_)),
            Phase::FetchingStats => matches!(event, Event::Stats(_)),
            Phase::Finished => true,
        }
    }

    /// Moves on by the answer to the last command, and gives the next command. An
    /// answer of the wrong kind for the last command (see `accepts`) finishes the
    /// machine: it stops.
    pub fn step(&mut self, event: Event) -> (cmd: Command)
        requires
            event matches Event::Stats(Ok(r)) ==> r.uptime_nanos < 1_000_000_000 && uptime_in_range(
                r.uptime_secs,
                r.uptime_nanos,
            ),
        ensures
            *final(self) == next_machine(*old(self), event),
            command_fits(*old(self), event, cmd),
    {
        let cmd = match (self.phase, event) {
            (Phase::CheckRunning, Event::ExitFlag(exiting)) => {
                if exiting {
                    self.phase = Phase::Finished;
                    Command::Stop
                } else {
                    self.phase = Phase::SpinUp;
                    Command::NewSpinner(Some(String::from_str("Connecting...")))
                }
            },
            (Phase::SpinUp, _) => {
                self.phase = Phase::StartupCheckExit;
                Command::CheckExit
            },
            (Phase::StartupCheckExit, Event::ExitFlag(exiting)) => {
                if exiting {
                    self.phase = Phase::CheckRunning;
                    Command::CheckExit
                } else if self.has_client {
                    self.phase = Phase::QueryingProgress;
                    Command::QueryProgress
                } else {
                    self.phase = Phase::Connecting;
                    Command::Connect
                }
            },
            (Phase::Connecting, Event::Connected(r)) => match r {
                Ok(_) => {
                    self.has_client = true;
                    self.phase = Phase::QueryingProgress;
                    Command::QueryProgress
                },
                Err(e) => {
                    self.phase = Phase::StartupShowing;
                    Command::SetMessage(joined("Unable to connect to validator: ", e.as_str()))
                },
            },
            (Phase::QueryingProgress, Event::Progress(r)) => match r {
                Ok(p) => {
                    if p.running {
                        self.has_client = false;
                        self.phase = Phase::QueryingInfo;
                        Command::QueryInfo
                    } else {
                        self.phase = Phase::StartupShowing;
                        let mut t = joined("Validator startup: ", p.description.as_str());
                        t.append("...");
                        Command::SetMessage(t)
                    }
                },
                Err(e) => {
                    self.has_client = false;
                    self.phase = Phase::StartupShowing;
                    Command::SetMessage(joined("Failed to get validator start progress: ", e.as_str()))
                },
            },
            (Phase::QueryingInfo, Event::Info(r)) => match r {
                Ok(has_rpc) => {
                    if has_rpc {
                        self.phase = Phase::FetchingIdentity;
                        Command::FetchIdentity
                    } else {
                        self.phase = Phase::StartupShowing;
                        Command::SetMessage(String::from_str("RPC service not available"))
                    }
                },
                Err(e) => {
                    self.phase = Phase::StartupShowing;
                    Command::SetMessage(joined("Failed to get validator info: ", e.as_str()))
                },
            },
            (Phase::StartupShowing, _) => {
                self.phase = Phase::StartupSleeping;
                Command::Sleep
            },
            (Phase::StartupSleeping, _) => {
                self.phase = Phase::StartupCheckExit;
                Command::CheckExit
            },
            (Phase::FetchingIdentity, Event::Identity(r)) => match r {
                Ok(id) => {
                    let mut lines: Vec<NameValue> = Vec::new();
                    lines.push(NameValue { name: String::from_str("Identity:"), value: id.clone() });
                    proof {
                        assert(lines_view(lines@) =~= seq![("Identity:"@, id@)]);
                    }
                    self.identity = id;
                    self.phase = Phase::PrintingIdentity;
                    Command::PrintLines(lines)
                },
                Err(e) => {
                    self.phase = Phase::ReportingFailure;
                    Command::PrintLine(joined("Failed to get validator identity over RPC: ", e.as_str()))
                },
            },
            (Phase::ReportingFailure, _) => {
                self.phase = Phase::CheckRunning;
                Command::CheckExit
            },
            (Phase::PrintingIdentity, _) => {
                self.phase = Phase::FetchingGenesis;
                Command::FetchGenesis
            },
            (Phase::FetchingGenesis, Event::Genesis(g)) => match g {
                Some(h) => {
                    let mut lines: Vec<NameValue> = Vec::new();
                    let ghost hv = h@;
                    lines.push(NameValue { name: String::from_str("Genesis Hash:"), value: h });
                    proof {
                        assert(lines_view(lines@) =~= seq![("Genesis Hash:"@, hv)]);
                    }
                    self.phase = Phase::PrintingGenesis;
                    Command::PrintLines(lines)
                },
                None => {
                    self.phase = Phase::FetchingContacts;
                    Command::FetchClusterNodes
                },
            },
            (Phase::PrintingGenesis, _) => {
                self.phase = Phase::FetchingContacts;
                Command::FetchClusterNodes
            },
            (Phase::FetchingContacts, Event::ClusterNodes(nodes)) => {
                match get_contact_info(nodes, self.identity.as_str()) {
                    Some(info) => {
                        self.phase = Phase::PrintingContacts;
                        Command::PrintLines(contact_info_lines(info))
                    },
                    None => {
                        self.phase = Phase::MonitorSpinUp;
                        Command::NewSpinner(None)
                    },
                }
            },
            (Phase::PrintingContacts, _) => {
                self.phase = Phase::MonitorSpinUp;
                Command::NewSpinner(None)
            },
            (Phase::MonitorSpinUp, _) => {
                self.snapshot_slot = None;
                self.round = 0;
                self.phase = Phase::MonitorCheckExit;
                Command::CheckExit
            },
            (Phase::MonitorCheckExit, Event::ExitFlag(exiting)) => {
                if exiting {
                    self.phase = Phase::CheckRunning;
                    Command::CheckExit
                } else if self.round == 0 {
                    self.phase = Phase::FetchingSnapshot;
                    Command::FetchSnapshotSlot
                } else {
                    self.phase = Phase::FetchingStats;
                    Command::FetchStats
                }
            },
            (Phase::FetchingSnapshot, Event::SnapshotSlot(slot)) => {
                self.snapshot_slot = slot;
                self.phase = Phase::FetchingStats;
                Command::FetchStats
            },
            (Phase::FetchingStats, Event::Stats(r)) => match r {
                Ok(report) => {
                    let line = dashboard_status_line(
                        &report.stats,
                        self.snapshot_slot,
                        report.uptime_secs,
                        report.uptime_nanos,
                    );
                    self.phase = Phase::MonitorShowing;
                    Command::SetMessage(line)
                },
                Err(e) => {
                    self.phase = Phase::Abandoning;
                    Command::Abandon(joined("RPC connection failure: ", e.as_str()))
                },
            },
            (Phase::MonitorShowing, _) => {
                self.phase = Phase::MonitorSleeping;
                Command::Sleep
            },
            (Phase::MonitorSleeping, _) => {
                self.round = if self.round >= 9 {
                    0
                } else {
                    self.round + 1
                };
                self.phase = Phase::MonitorCheckExit;
                Command::CheckExit
            },
            (Phase::Abandoning, _) => {
                self.phase = Phase::CheckRunning;
                Command::CheckExit
            },
            _ => {
                self.phase = Phase::Finished;
                Command::Stop
            },
        };
        cmd
    }
}

/// Law: once the validator is exiting, the dashboard stops: an exit check that finds
/// the flag set stops it, or (during startup or monitoring) leads to the outer check,
/// which stops it.
pub proof fn law_exit_stops_dashboard(m: DashboardMachine)
    requires
        m.phase == Phase::CheckRunning || m.phase == Phase::StartupCheckExit || m.phase
            == Phase::MonitorCheckExit,
    ensures
        next_phase(m, Event::ExitFlag(true)) == Phase::Finished || (next_phase(
            m,
            Event::ExitFlag(true),
        ) == Phase::CheckRunning && next_phase(
            next_machine(m, Event::ExitFlag(true)),
            Event::ExitFlag(true),
        ) == Phase::Finished),
{
}

/// Law: after the startup progress cannot be had, the dashboard shows why, pauses,
/// and (the validator not exiting) connects anew.
pub proof fn law_failed_progress_reconnects(m: DashboardMachine, why: String)
    requires
        m.phase == Phase::QueryingProgress,
    ensures
        ({
            let m1 = next_machine(m, Event::Progress(Err(why)));
            let m2 = next_machine(m1, Event::Done);
            let m3 = next_machine(m2, Event::Done);
            &&& m1.phase == Phase::StartupShowing
            &&& m2.phase == Phase::StartupSleeping
            &&& m3.phase == Phase::StartupCheckExit
            &&& next_phase(m3, Event::ExitFlag(false)) == Phase::Connecting
        }),
{
}

/// Law: while the validator is still starting, the dashboard shows its progress,
/// pauses, and asks again over the connection it has, without reconnecting.
pub proof fn law_starting_validator_keeps_connection(m: DashboardMachine, progress: StartProgress)
    requires
        m.phase == Phase::QueryingProgress,
        m.has_client,
        !progress.running,
    ensures
        ({
            let m1 = next_machine(m, Event::Progress(Ok(progress)));
            let m2 = next_machine(m1, Event::Done);
            let m3 = next_machine(m2, Event::Done);
            &&& m3.phase == Phase::StartupCheckExit
            &&& m3.has_client
            &&& next_phase(m3, Event::ExitFlag(false)) == Phase::QueryingProgress
        }),
{
}

/// One monitoring round without exit: the exit check, the snapshot slot where it is
/// due, the stats, showing them, and the pause.
pub open spec fn monitor_round(m: DashboardMachine, slot: Option<u64>, report: StatsReport) -> DashboardMachine {
    let m1 = next_machine(m, Event::ExitFlag(false));
    let m2 = if m1.phase == Phase::FetchingSnapshot {
        next_machine(m1, Event::SnapshotSlot(slot))
    } else {
        m1
    };
    let m3 = next_machine(m2, Event::Stats(Ok(report)));
    let m4 = next_machine(m3, Event::Done);
    next_machine(m4, Event::Done)
}

/// `k` monitoring rounds without exit.
pub open spec fn monitor_rounds(m: DashboardMachine, k: nat, slot: Option<u64>, report: StatsReport) -> DashboardMachine
    decreases k,
{
    if k == 0 {
        m
    } else {
        monitor_round(monitor_rounds(m, (k - 1) as nat, slot, report), slot, report)
    }
}

/// Law: in the monitoring rounds that follow a connection, the snapshot slot is
/// fetched in the first round and in every tenth round after it, and in no other.
pub proof fn law_snapshot_every_tenth_round(
    m: DashboardMachine,
    k: nat,
    slot: Option<u64>,
    report: StatsReport,
)
    requires
        m.phase == Phase::MonitorSpinUp,
    ensures
        ({
            let r = monitor_rounds(next_machine(m, Event::Done), k, slot, report);
            &&& r.phase == Phase::MonitorCheckExit
            &&& r.round == k % 10
            &&& next_phase(r, Event::ExitFlag(false)) == (if k % 10 == 0 {
                Phase::FetchingSnapshot
            } else {
                Phase::FetchingStats
            })
        }),
    decreases k,
{
    let start = next_machine(m, Event::Done);
    if k > 0 {
        law_snapshot_every_tenth_round(m, (k - 1) as nat, slot, report);
        let prev = monitor_rounds(start, (k - 1) as nat, slot, report);
        assert(monitor_rounds(start, k, slot, report) == monitor_round(prev, slot, report));
        assert(prev.round == (k - 1) % 10);
        assert(next_round(prev.round) == k % 10);
    }
}

/// Law: the dashboard asks for the validator's identity only right after the
/// validator, found running, has reported an RPC address.
pub proof fn law_identity_after_running_with_rpc(m: DashboardMachine, event: Event)
    requires
        accepts(m.phase, event),
        next_phase(m, event) == Phase::FetchingIdentity,
    ensures
        m.phase == Phase::QueryingInfo,
        event matches Event::Info(Ok(has_rpc)) && has_rpc,
{
}

/// Law: the dashboard finishes only on reading the exit flag set at the outer check
/// (an answer of the wrong kind aside).
pub proof fn law_finishes_only_at_outer_exit_check(m: DashboardMachine, event: Event)
    requires
        m.phase != Phase::Finished,
        accepts(m.phase, event),
        next_phase(m, event) == Phase::Finished,
    ensures
        m.phase == Phase::CheckRunning,
        event matches Event::ExitFlag(exiting) && exiting,
{
}

/// Law: a startup wait cut short by exit, an identity that cannot be had and stats that
/// cannot be had all lead back to the outer check, after which (the validator not
/// exiting) a fresh spinner and a new startup wait begin.
pub proof fn law_failures_return_to_outer_check(m: DashboardMachine, why: String)
    ensures
        m.phase == Phase::StartupCheckExit ==> next_phase(m, Event::ExitFlag(true))
            == Phase::CheckRunning,
        m.phase == Phase::FetchingIdentity ==> ({
            let m1 = next_machine(m, Event::Identity(Err(why)));
            m1.phase == Phase::ReportingFailure && next_phase(m1, Event::Done)
                == Phase::CheckRunning
        }),
        m.phase == Phase::FetchingStats ==> ({
            let m1 = next_machine(m, Event::Stats(Err(why)));
            m1.phase == Phase::Abandoning && next_phase(m1, Event::Done) == Phase::CheckRunning
        }),
        m.phase == Phase::CheckRunning ==> ({
            let m1 = next_machine(m, Event::ExitFlag(false));
            m1.phase == Phase::SpinUp && next_phase(m1, Event::Done) == Phase::StartupCheckExit
        }),
{
}

/// How many answers a machine needs at most to finish once every exit check finds
/// the validator exiting.
pub open spec fn exit_distance(phase: Phase) -> nat {
    match phase {
        Phase::Finished => 0,
        Phase::CheckRunning => 1,
        Phase::StartupCheckExit | Phase::MonitorCheckExit | Phase::ReportingFailure
        | Phase::Abandoning => 2,
        Phase::SpinUp | Phase::StartupSleeping | Phase::MonitorSpinUp
        | Phase::MonitorSleeping => 3,
        Phase::StartupShowing | Phase::MonitorShowing | Phase::PrintingContacts => 4,
        Phase::FetchingStats | Phase::FetchingContacts => 5,
        Phase::FetchingSnapshot | Phase::PrintingGenesis => 6,
        Phase::FetchingGenesis => 7,
        Phase::PrintingIdentity => 8,
        Phase::FetchingIdentity => 9,
        Phase::QueryingInfo => 10,
        Phase::QueryingProgress => 11,
        Phase::Connecting => 12,
    }
}

/// Whether every exit check in a run of answers finds the validator exiting.
pub open spec fn exit_set(event: Event) -> bool {
    event matches Event::ExitFlag(exiting) ==> exiting
}

/// The machine after a run of answers.
pub open spec fn run_machine(m: DashboardMachine, events: Seq<Event>) -> DashboardMachine
    decreases events.len(),
{
    if events.len() == 0 {
        m
    } else {
        run_machine(next_machine(m, events[0]), events.drop_first())
    }
}

/// One answer brings a machine closer to finishing once the validator is exiting.
proof fn lemma_exit_distance_drops(m: DashboardMachine, event: Event)
    requires
        m.phase != Phase::Finished,
        accepts(m.phase, event),
        exit_set(event),
    ensures
        exit_distance(next_phase(m, event)) < exit_distance(m.phase),
{
}

/// Law: once the validator is exiting, the dashboard finishes: after at most twelve
/// answers of the kinds it asks for, every exit check finding the flag set, it is
/// finished, and stays so.
pub proof fn law_exit_reaches_finished(m: DashboardMachine, events: Seq<Event>)
    requires
        events.len() >= exit_distance(m.phase),
        forall|i: int| 0 <= i < events.len() ==> exit_set(#[trigger] events[i]),
        forall|i: int|
            0 <= i < events.len() ==> accepts(
                #[trigger] run_machine(m, events.take(i)).phase,
                events[i],
            ),
    ensures
        exit_distance(m.phase) <= 12,
        run_machine(m, events).phase == Phase::Finished,
    decreases events.len(),
{
    if events.len() > 0 {
        assert(events.take(0) =~= Seq::<Event>::empty());
        assert(run_machine(m, events.take(0)) == m);
        assert(accepts(m.phase, events[0]));
        assert(exit_set(events[0]));
        let m1 = next_machine(m, events[0]);
        let rest = events.drop_first();
        if m.phase != Phase::Finished {
            lemma_exit_distance_drops(m, events[0]);
        }
        assert forall|i: int| 0 <= i < rest.len() implies exit_set(#[trigger] rest[i]) by {
            assert(rest[i] == events[i + 1]);
        }
        assert forall|i: int| 0 <= i < rest.len() implies accepts(
            #[trigger] run_machine(m1, rest.take(i)).phase,
            rest[i],
        ) by {
            assert(rest[i] == events[i + 1]);
            assert(events.take(i + 1).drop_first() =~= rest.take(i));
            assert(events.take(i + 1)[0] == events[0]);
            assert(run_machine(m, events.take(i + 1)) == run_machine(m1, rest.take(i)));
            assert(accepts(run_machine(m, events.take(i + 1)).phase, events[i + 1]));
        }
        law_exit_reaches_finished(m1, rest);
    }
}

/// Law: a shown status line is always followed by a pause, and the next stats query
/// comes only after an exit check: a monitoring round is entered only after a pause
/// (or at the start of the rounds), and the stats are asked for only from the exit
/// check or after the snapshot slot.
pub proof fn law_status_line_then_pause(m: DashboardMachine, event: Event)
    requires
        accepts(m.phase, event),
    ensures
        m.phase == Phase::MonitorShowing ==> next_phase(m, event) == Phase::MonitorSleeping
            && forall|c: Command| command_fits(m, event, c) ==> c is Sleep,
        next_phase(m, event) == Phase::MonitorSleeping ==> m.phase == Phase::MonitorShowing,
        next_phase(m, event) == Phase::MonitorCheckExit ==> (m.phase == Phase::MonitorSleeping
            || m.phase == Phase::MonitorSpinUp),
        next_phase(m, event) == Phase::FetchingSnapshot ==> m.phase == Phase::MonitorCheckExit,
        next_phase(m, event) == Phase::FetchingStats ==> (m.phase == Phase::MonitorCheckExit
            || m.phase == Phase::FetchingSnapshot),
        next_phase(m, event) == Phase::MonitorShowing ==> m.phase == Phase::FetchingStats,
{
}

/// Whether a phase belongs to the wait for the validator to start.
pub open spec fn in_startup_wait(phase: Phase) -> bool {
    phase == Phase::SpinUp || phase == Phase::StartupCheckExit || phase == Phase::Connecting
        || phase == Phase::QueryingProgress || phase == Phase::QueryingInfo || phase
        == Phase::StartupShowing || phase == Phase::StartupSleeping
}

/// Law: the wait for the validator to start ends in only two ways: with an RPC address,
/// right after the validator was found running and reported one; or, without one, on
/// an exit check that finds the validator exiting. Every failure on the way (to
/// connect, to get the progress, to get the address) shows why, pauses, and checks
/// exit again.
pub proof fn law_startup_wait_ends(m: DashboardMachine, event: Event)
    requires
        in_startup_wait(m.phase),
        accepts(m.phase, event),
    ensures
        ({
            let next = next_phase(m, event);
            ||| in_startup_wait(next)
            ||| (next == Phase::FetchingIdentity && m.phase == Phase::QueryingInfo && (
            event matches Event::Info(Ok(has_rpc)) && has_rpc))
            ||| (next == Phase::CheckRunning && m.phase == Phase::StartupCheckExit && (
            event matches Event::ExitFlag(exiting) && exiting))
        }),
        next_phase(m, event) == Phase::QueryingInfo ==> (m.phase == Phase::QueryingProgress && (
        event matches Event::Progress(Ok(p)) && p.running)),
        next_phase(m, event) == Phase::QueryingProgress ==> (m.phase == Phase::Connecting || (
        m.phase == Phase::StartupCheckExit && (event matches Event::ExitFlag(exiting)
            && !exiting))),
        next_phase(m, event) == Phase::StartupShowing ==> (m.phase == Phase::Connecting
            || m.phase == Phase::QueryingProgress || m.phase == Phase::QueryingInfo),
        m.phase == Phase::StartupShowing ==> next_phase(m, event) == Phase::StartupSleeping,
        m.phase == Phase::StartupSleeping ==> next_phase(m, event) == Phase::StartupCheckExit,
{
}

/// Law: every status line the dashboard shows carries the latest snapshot slot it has
/// fetched in the current monitoring rounds, in whichever round it is shown, not only
/// in the round that fetched it.
pub proof fn law_status_line_shows_stored_snapshot(m: DashboardMachine, r: StatsReport, c: Command)
    requires
        m.phase == Phase::FetchingStats,
        command_fits(m, Event::Stats(Ok(r)), c),
    ensures
        c is SetMessage,
        holds_segment(c->SetMessage_0@, snapshot_field(m.snapshot_slot)),
        exists|shown: Seq<char>|
            emphasis_of(r.stats.health@, shown) && c->SetMessage_0@ == status_text(
                r.stats,
                m.snapshot_slot,
                r.uptime_secs,
                shown,
            ),
{
    let shown = choose|shown: Seq<char>|
        emphasis_of(r.stats.health@, shown) && c->SetMessage_0@ == status_text(
            r.stats,
            m.snapshot_slot,
            r.uptime_secs,
            shown,
        );
    law_status_line_shows_snapshot(r.stats, m.snapshot_slot, r.uptime_secs, shown);
}

/// Law: the snapshot slot the dashboard holds changes only when the monitoring rounds
/// begin (it is forgotten) and when it is fetched (it becomes what was fetched).
pub proof fn law_snapshot_slot_changes_only_on_fetch(m: DashboardMachine, event: Event)
    ensures
        next_machine(m, event).snapshot_slot != m.snapshot_slot ==> (m.phase
            == Phase::MonitorSpinUp || m.phase == Phase::FetchingSnapshot),
        m.phase == Phase::MonitorSpinUp ==> next_machine(m, event).snapshot_slot is None,
        m.phase == Phase::FetchingSnapshot ==> (event matches Event::SnapshotSlot(s) ==> next_machine(
            m,
            event,
        ).snapshot_slot == s),
{
}

/// Law: in the monitoring rounds, a round that fetches no snapshot slot (nine rounds in
/// ten) still shows, in its status line, the slot fetched last: after any number of
/// rounds the machine holds that slot, and the next round that does not fetch one
/// shows it.
pub proof fn law_snapshot_kept_across_rounds(
    m: DashboardMachine,
    k: nat,
    slot: Option<u64>,
    report: StatsReport,
    next_report: StatsReport,
    c: Command,
)
    requires
        m.phase == Phase::MonitorSpinUp,
        k >= 1,
    ensures
        monitor_rounds(next_machine(m, Event::Done), k, slot, report).snapshot_slot == slot,
        k % 10 != 0 ==> ({
            let f = next_machine(
                monitor_rounds(next_machine(m, Event::Done), k, slot, report),
                Event::ExitFlag(false),
            );
            f.phase == Phase::FetchingStats && (command_fits(f, Event::Stats(Ok(next_report)), c)
                ==> holds_segment(c->SetMessage_0@, snapshot_field(slot)))
        }),
    decreases k,
{
    law_snapshot_every_tenth_round(m, (k - 1) as nat, slot, report);
    law_snapshot_every_tenth_round(m, k, slot, report);
    if k > 1 {
        law_snapshot_kept_across_rounds(m, (k - 1) as nat, slot, report, next_report, c);
    }
    let r = monitor_rounds(next_machine(m, Event::Done), k, slot, report);
    let f = next_machine(r, Event::ExitFlag(false));
    if k % 10 != 0 && command_fits(f, Event::Stats(Ok(next_report)), c) {
        law_status_line_shows_stored_snapshot(f, next_report, c);
    }
}

} // verus!
