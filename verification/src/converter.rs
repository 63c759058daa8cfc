//! The download orchestrator: a state machine that validates the pasted
//! link, decides in what order provisioning, the update check and the
//! download job must run, and advances on their completion signals.  Every
//! transition is a pure function of the current state, the incoming event
//! and the prerequisite probe handed in by the caller; the caller performs
//! whatever `Action` comes back and feeds the outcome in as the next event.

use vstd::prelude::*;

use crate::drives::Drive;
use crate::link::{link_is_valid, spec_valid_link};
use crate::provision::ProvisionError;
use crate::yt::{JobError, UpdateError, YoutubeDownloader};

verus! {

/// The orchestrator's phase; exactly one is active at any time, and only
/// the transition functions below move it.
#[derive(Clone, Copy, Debug, PartialEq, Eq, Structural)]
pub enum Phase {
    Idle,
    InvalidLink,
    ProvisioningPrerequisites,
    CheckingUpdate,
    DownloadRunning,
    DownloadSucceeded,
}

/// External triggers: a drive was picked, the link text changed, the user
/// asked to start, or the transient success display timed out.
#[derive(Debug)]
pub enum Message {
    DriveSelection(Drive),
    LinkChanged(String),
    Save,
    SwitchToNormal,
}

/// Completion signals reported back by the background tasks the orchestrator
/// spawned: provisioning, the self-update check, and the download job.
#[derive(Debug)]
pub enum CommandMessage {
    PreDownloadDone(Result<(), ProvisionError>),
    UpdateCheckDone(Result<(), UpdateError>),
    DownloadFinished(Result<(), JobError>),
}

/// Any input the orchestrator can receive, trigger or completion signal.
#[derive(Debug)]
pub enum Input {
    Ui(Message),
    Task(CommandMessage),
}

/// A failure surfaced to the user when a background task aborts the current
/// attempt.
#[derive(Clone, Copy, Debug, PartialEq, Eq)]
pub enum Failure {
    Provision(ProvisionError),
    Update(UpdateError),
    Job(JobError),
}

/// What the caller must do after a transition: nothing, report a missing
/// destination, spawn exactly one background task, or surface a failure.
#[derive(Debug, PartialEq)]
pub enum Action {
    Nothing,
    ReportNoDestination,
    SpawnProvisioner,
    SpawnUpdateCheck,
    SpawnDownload { url: String, destination: String },
    ReportFailure(Failure),
}

/// The orchestration state: the tool paths, whether the self-update check
/// has run this session, the selected destination, the current link text,
/// and the phase.
#[derive(Debug)]
pub struct Converter {
    pub youtube: YoutubeDownloader,
    pub update_checked: bool,
    pub selected_drive: Option<Drive>,
    pub link: String,
    pub phase: Phase,
}

/// A background task is outstanding; no new work may start and no stored
/// input may change until it reports back.
pub open spec fn spec_busy(p: Phase) -> bool {
    p == Phase::ProvisioningPrerequisites || p == Phase::CheckingUpdate || p
        == Phase::DownloadRunning
}

/// The start evaluation, run on an external start request and re-entered
/// after each completed prerequisite step: ignore during the success
/// display, report a missing destination, reject a malformed link, then
/// launch the first thing still missing — provisioning, the once-per-session
/// update check, or the download job itself.
pub open spec fn spec_start_chain(c: Converter, prereqs_present: bool) -> (Converter, Action) {
    if c.phase == Phase::DownloadSucceeded {
        (c, Action::Nothing)
    } else if c.selected_drive is None {
        (c, Action::ReportNoDestination)
    } else if !spec_valid_link(c.link@) {
        (Converter { phase: Phase::InvalidLink, ..c }, Action::Nothing)
    } else if !prereqs_present {
        (Converter { phase: Phase::ProvisioningPrerequisites, ..c }, Action::SpawnProvisioner)
    } else if !c.update_checked {
        (Converter { phase: Phase::CheckingUpdate, ..c }, Action::SpawnUpdateCheck)
    } else {
        (
            Converter { phase: Phase::DownloadRunning, ..c },
            Action::SpawnDownload {
                url: c.link,
                destination: c.selected_drive->0.mount_point,
            },
        )
    }
}

/// The transition on an external trigger.  Stored selection and link only
/// change while no background task runs; a link change clears a rejected
/// link back to idle, and the success-display timeout returns to idle.
pub open spec fn spec_update(c: Converter, m: Message, prereqs_present: bool) -> (
    Converter,
    Action,
) {
    match m {
        Message::DriveSelection(d) => {
            if spec_busy(c.phase) {
                (c, Action::Nothing)
            } else {
                (Converter { selected_drive: Some(d), ..c }, Action::Nothing)
            }
        },
        Message::LinkChanged(l) => {
            if spec_busy(c.phase) {
                (c, Action::Nothing)
            } else {
                (
                    Converter {
                        link: l,
                        phase: if c.phase == Phase::InvalidLink {
                            Phase::Idle
                        } else {
                            c.phase
                        },
                        ..c
                    },
                    Action::Nothing,
                )
            }
        },
        Message::Save => {
            if spec_busy(c.phase) {
                (c, Action::Nothing)
            } else {
                spec_start_chain(c, prereqs_present)
            }
        },
        Message::SwitchToNormal => {
            if c.phase == Phase::DownloadSucceeded {
                (Converter { phase: Phase::Idle, ..c }, Action::Nothing)
            } else {
                (c, Action::Nothing)
            }
        },
    }
}

/// The transition on a completion signal.  A signal is acted on only in the
/// phase that spawned its task; success re-enters the start evaluation,
/// failure aborts the attempt back to idle and surfaces the error.  The
/// update check counts as run either way.
pub open spec fn spec_update_cmd(c: Converter, m: CommandMessage, prereqs_present: bool) -> (
    Converter,
    Action,
) {
    match m {
        CommandMessage::PreDownloadDone(res) => {
            if c.phase == Phase::ProvisioningPrerequisites {
                match res {
                    Ok(_) => spec_start_chain(
                        Converter { phase: Phase::Idle, ..c },
                        prereqs_present,
                    ),
                    Err(e) => (
                        Converter { phase: Phase::Idle, ..c },
                        Action::ReportFailure(Failure::Provision(e)),
                    ),
                }
            } else {
                (c, Action::Nothing)
            }
        },
        CommandMessage::UpdateCheckDone(res) => {
            if c.phase == Phase::CheckingUpdate {
                match res {
                    Ok(_) => spec_start_chain(
                        Converter { phase: Phase::Idle, update_checked: true, ..c },
                        prereqs_present,
                    ),
                    Err(e) => (
                        Converter { phase: Phase::Idle, update_checked: true, ..c },
                        Action::ReportFailure(Failure::Update(e)),
                    ),
                }
            } else {
                (c, Action::Nothing)
            }
        },
        CommandMessage::DownloadFinished(res) => {
            if c.phase == Phase::DownloadRunning {
                match res {
                    Ok(_) => (
                        Converter { phase: Phase::DownloadSucceeded, ..c },
                        Action::Nothing,
                    ),
                    Err(e) => (
                        Converter { phase: Phase::Idle, ..c },
                        Action::ReportFailure(Failure::Job(e)),
                    ),
                }
            } else {
                (c, Action::Nothing)
            }
        },
    }
}

/// The transition on any input.
pub open spec fn spec_step(c: Converter, i: Input, prereqs_present: bool) -> (Converter, Action) {
    match i {
        Input::Ui(m) => spec_update(c, m, prereqs_present),
        Input::Task(m) => spec_update_cmd(c, m, prereqs_present),
    }
}

impl Converter {
    /// A fresh orchestrator: idle, empty link, update not yet checked, and
    /// the first enumerated drive preselected if there is one.
    pub fn new(youtube: YoutubeDownloader, drives: Vec<Drive>) -> (r: Converter)
        ensures
            r.youtube == youtube,
            r.update_checked == false,
            r.phase == Phase::Idle,
            r.link@ == Seq::<char>::empty(),
            drives@.len() == 0 ==> r.selected_drive is None,
            drives@.len() > 0 ==> r.selected_drive == Some(drives@[0]),
    {
        let mut ds = drives;
        let selected_drive = if ds.len() == 0 {
            None
        } else {
            Some(ds.remove(0))
        };
        Converter {
            youtube,
            update_checked: false,
            selected_drive,
            link: String::new(),
            phase: Phase::Idle,
        }
    }

    fn busy(&self) -> (r: bool)
        ensures
            r == spec_busy(self.phase),
    {
        self.phase == Phase::ProvisioningPrerequisites || self.phase == Phase::CheckingUpdate
            || self.phase == Phase::DownloadRunning
    }

    /// The start evaluation; safe to re-enter, as the completion handlers do.
    fn start_chain(&mut self, prereqs_present: bool) -> (a: Action)
        ensures
            (*final(self), a) == spec_start_chain(*old(self), prereqs_present),
    {
        if self.phase == Phase::DownloadSucceeded {
            return Action::Nothing;
        }
        if self.selected_drive.is_none() {
            return Action::ReportNoDestination;
        }
        if !link_is_valid(self.link.as_str()) {
            self.phase = Phase::InvalidLink;
            Action::Nothing
        } else if !prereqs_present {
            self.phase = Phase::ProvisioningPrerequisites;
            Action::SpawnProvisioner
        } else if !self.update_checked {
            self.phase = Phase::CheckingUpdate;
            Action::SpawnUpdateCheck
        } else {
            self.phase = Phase::DownloadRunning;
            let destination = self.selected_drive.as_ref().unwrap().mount_point.clone();
            Action::SpawnDownload { url: self.link.clone(), destination }
        }
    }

    /// Handles an external trigger; see `spec_update`.
    pub fn update(&mut self, message: Message, prerequisites_present: bool) -> (a: Action)
        ensures
            (*final(self), a) == spec_update(*old(self), message, prerequisites_present),
    {
        match message {
            Message::DriveSelection(d) => {
                if !self.busy() {
                    self.selected_drive = Some(d);
                }
                Action::Nothing
            },
            Message::LinkChanged(l) => {
                if !self.busy() {
                    self.link = l;
                    if self.phase == Phase::InvalidLink {
                        self.phase = Phase::Idle;
                    }
                }
                Action::Nothing
            },
            Message::Save => {
                if self.busy() {
                    Action::Nothing
                } else {
                    self.start_chain(prerequisites_present)
                }
            },
            Message::SwitchToNormal => {
                if self.phase == Phase::DownloadSucceeded {
                    self.phase = Phase::Idle;
                }
                Action::Nothing
            },
        }
    }

    /// Handles a completion signal; see `spec_update_cmd`.
    pub fn update_cmd(&mut self, message: CommandMessage, prerequisites_present: bool) -> (a: Action)
        ensures
            (*final(self), a) == spec_update_cmd(*old(self), message, prerequisites_present),
    {
        match message {
            CommandMessage::PreDownloadDone(res) => {
                if self.phase == Phase::ProvisioningPrerequisites {
                    match res {
                        Ok(_) => {
                            self.phase = Phase::Idle;
                            self.start_chain(prerequisites_present)
                        },
                        Err(e) => {
                            self.phase = Phase::Idle;
                            Action::ReportFailure(Failure::Provision(e))
                        },
                    }
                } else {
                    Action::Nothing
                }
            },
            CommandMessage::UpdateCheckDone(res) => {
                if self.phase == Phase::CheckingUpdate {
                    match res {
                        Ok(_) => {
                            self.phase = Phase::Idle;
                            self.update_checked = true;
                            self.start_chain(prerequisites_present)
                        },
                        Err(e) => {
                            self.phase = Phase::Idle;
                            self.update_checked = true;
                            Action::ReportFailure(Failure::Update(e))
                        },
                    }
                } else {
                    Action::Nothing
                }
            },
            CommandMessage::DownloadFinished(res) => {
                if self.phase == Phase::DownloadRunning {
                    match res {
                        Ok(_) => {
                            self.phase = Phase::DownloadSucceeded;
                            Action::Nothing
                        },
                        Err(e) => {
                            self.phase = Phase::Idle;
                            Action::ReportFailure(Failure::Job(e))
                        },
                    }
                } else {
                    Action::Nothing
                }
            },
        }
    }

    /// Handles any input; the single entry point for callers that drive the
    /// machine from an event loop.
    pub fn step(&mut self, input: Input, prerequisites_present: bool) -> (a: Action)
        ensures
            (*final(self), a) == spec_step(*old(self), input, prerequisites_present),
    {
        match input {
            Input::Ui(m) => self.update(m, prerequisites_present),
            Input::Task(m) => self.update_cmd(m, prerequisites_present),
        }
    }
}

/// A malformed link never starts subordinate work: with a destination
/// selected and the machine free, a start request on an invalid link only
/// moves the phase to `InvalidLink`, changing nothing else and spawning
/// nothing.
pub proof fn lemma_invalid_link_rejected(c: Converter, prereqs_present: bool)
    requires
        !spec_busy(c.phase),
        c.phase != Phase::DownloadSucceeded,
        c.selected_drive is Some,
        !spec_valid_link(c.link@),
    ensures
        spec_update(c, Message::Save, prereqs_present).0 == (Converter {
            phase: Phase::InvalidLink,
            ..c
        }),
        spec_update(c, Message::Save, prereqs_present).1 == Action::Nothing,
{
}

/// With no destination selected, a start request spawns nothing and leaves
/// the whole state — the phase included — unchanged; the missing destination
/// is only reported.
pub proof fn lemma_no_destination_no_spawn(c: Converter, prereqs_present: bool)
    requires
        !spec_busy(c.phase),
        c.phase != Phase::DownloadSucceeded,
        c.selected_drive is None,
        spec_valid_link(c.link@),
    ensures
        spec_update(c, Message::Save, prereqs_present).0 == c,
        spec_update(c, Message::Save, prereqs_present).1 == Action::ReportNoDestination,
{
}

/// At most one job in flight: of two start requests in immediate
/// succession, never both spawn a download — once one does, the machine is
/// in `DownloadRunning` and the second request is ignored outright.
pub proof fn lemma_at_most_one_job_in_flight(c: Converter, p1: bool, p2: bool)
    ensures
        ({
            let (c1, a1) = spec_update(c, Message::Save, p1);
            let (c2, a2) = spec_update(c1, Message::Save, p2);
            &&& !(a1 is SpawnDownload && a2 is SpawnDownload)
            &&& a1 is SpawnDownload ==> c1.phase == Phase::DownloadRunning && c2 == c1 && a2
                == Action::Nothing
        }),
{
}

/// While a background task is outstanding, a start request does nothing at
/// all: no state change, no spawn.
pub proof fn lemma_busy_ignores_start(c: Converter, prereqs_present: bool)
    requires
        spec_busy(c.phase),
    ensures
        spec_update(c, Message::Save, prereqs_present).0 == c,
        spec_update(c, Message::Save, prereqs_present).1 == Action::Nothing,
{
}

/// Every transition that spawns work enters the matching busy phase, so the
/// phase value itself keeps at most one background operation outstanding.
pub proof fn lemma_spawn_enters_busy_phase(c: Converter, i: Input, p: bool)
    ensures
        spec_step(c, i, p).1 == Action::SpawnProvisioner ==> spec_step(c, i, p).0.phase
            == Phase::ProvisioningPrerequisites,
        spec_step(c, i, p).1 == Action::SpawnUpdateCheck ==> spec_step(c, i, p).0.phase
            == Phase::CheckingUpdate,
        spec_step(c, i, p).1 is SpawnDownload ==> spec_step(c, i, p).0.phase
            == Phase::DownloadRunning,
{
}

/// The session flag is never reset: once the update check has run, every
/// later transition keeps it set.
pub proof fn lemma_update_checked_monotone(c: Converter, i: Input, p: bool)
    ensures
        c.update_checked ==> spec_step(c, i, p).0.update_checked,
{
}

/// The update check has either already run this session or is running right
/// now; once true, no later input can make the machine spawn it again.
pub open spec fn spec_update_guard(c: Converter) -> bool {
    c.update_checked || c.phase == Phase::CheckingUpdate
}

/// One step of the session-scoped update-check argument: spawning the check
/// establishes the guard, and under the guard no step spawns it and the
/// guard persists.
pub proof fn lemma_update_guard_step(c: Converter, i: Input, p: bool)
    ensures
        spec_step(c, i, p).1 == Action::SpawnUpdateCheck ==> spec_update_guard(
            spec_step(c, i, p).0,
        ),
        spec_update_guard(c) ==> spec_step(c, i, p).1 != Action::SpawnUpdateCheck,
        spec_update_guard(c) ==> spec_update_guard(spec_step(c, i, p).0),
{
}

/// The machine reached by folding `inputs` over `c`.
pub open spec fn spec_run(c: Converter, inputs: Seq<(Input, bool)>) -> Converter
    decreases inputs.len(),
{
    if inputs.len() == 0 {
        c
    } else {
        spec_run(spec_step(c, inputs[0].0, inputs[0].1).0, inputs.drop_first())
    }
}

/// How many of the steps along `inputs` spawn the self-update check.
pub open spec fn spec_count_update_spawns(c: Converter, inputs: Seq<(Input, bool)>) -> nat
    decreases inputs.len(),
{
    if inputs.len() == 0 {
        0
    } else {
        (if spec_step(c, inputs[0].0, inputs[0].1).1 == Action::SpawnUpdateCheck {
            1nat
        } else {
            0nat
        }) + spec_count_update_spawns(spec_step(c, inputs[0].0, inputs[0].1).0, inputs.drop_first())
    }
}

/// Session-scoped update check: along any input sequence whatsoever — any
/// number of successful start chains included — the self-update check is
/// spawned at most once per orchestrator lifetime, never once the guard
/// already holds, and the guard persists to the end of the run.
pub proof fn lemma_update_check_at_most_once(c: Converter, inputs: Seq<(Input, bool)>)
    ensures
        spec_count_update_spawns(c, inputs) <= if spec_update_guard(c) {
            0int
        } else {
            1int
        },
        spec_update_guard(c) ==> spec_update_guard(spec_run(c, inputs)),
    decreases inputs.len(),
{
    if inputs.len() > 0 {
        let (c1, a1) = spec_step(c, inputs[0].0, inputs[0].1);
        lemma_update_guard_step(c, inputs[0].0, inputs[0].1);
        lemma_update_check_at_most_once(c1, inputs.drop_first());
    }
}

/// Re-entry correctness: starting idle with a valid link, a destination,
/// the update unchecked and the tools missing, the machine walks
/// provisioning, the update check, the running download, the success
/// display and back to idle — each phase once, the update check never
/// skipped.
pub proof fn lemma_reentry_full_chain(c: Converter)
    requires
        c.phase == Phase::Idle,
        c.selected_drive is Some,
        spec_valid_link(c.link@),
        !c.update_checked,
    ensures
        ({
            let (c1, a1) = spec_update(c, Message::Save, false);
            let (c2, a2) = spec_update_cmd(c1, CommandMessage::PreDownloadDone(Ok(())), true);
            let (c3, a3) = spec_update_cmd(c2, CommandMessage::UpdateCheckDone(Ok(())), true);
            let (c4, a4) = spec_update_cmd(c3, CommandMessage::DownloadFinished(Ok(())), true);
            let (c5, a5) = spec_update(c4, Message::SwitchToNormal, true);
            &&& c1.phase == Phase::ProvisioningPrerequisites && a1 == Action::SpawnProvisioner
            &&& c2.phase == Phase::CheckingUpdate && a2 == Action::SpawnUpdateCheck
            &&& c3.phase == Phase::DownloadRunning && a3 == (Action::SpawnDownload {
                url: c.link,
                destination: c.selected_drive->0.mount_point,
            })
            &&& c4.phase == Phase::DownloadSucceeded && a4 == Action::Nothing
            &&& c5.phase == Phase::Idle && a5 == Action::Nothing
        }),
{
}

} // verus!
