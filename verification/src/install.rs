//! The install run: a fixed sequence of steps, each of which hands out one
//! command and waits for its outcome.
//!
//! [`advance_model`] says, for every state and every outcome, what the next
//! state is and which command goes out. [`InstallRun::advance`] does exactly
//! that. What holds of whole runs is proved from the model in `laws`.

use vstd::prelude::*;
use vstd::string::*;

use crate::archive::{
    directory_of, entry_at, reading_of, Archive, EntryModel, EntryReading, EntryReadingView,
};
use crate::config::{
    BUNDLE_FILE_NAME, BUNDLE_URL, EXECUTABLE_NAME, PAYLOAD_URL, SCRIPT_HOST, START_MENU_FOLDER,
    UNINSTALLER_NAME,
};
use crate::progress::{
    download_event, download_is_reported, extract_event, extract_is_reported, stage_event,
    Milestone, ProgressEvent, ProgressEventView, StatusKey,
};
use crate::protocol::{Command, CommandView, Outcome, OutcomeView};
use crate::registrar::{
    bundle_arguments, install_root, list_bundle_arguments, list_script_arguments,
    registration_of, script_arguments, shortcut_in, shortcut_script, write_shortcut_script,
    InstallTarget, RegistrationRecord,
};
use crate::text::{join_path, joined};

verus! {

/// The command that a run has handed out last and whose outcome it awaits.
#[derive(Clone, Copy, Debug, PartialEq, Eq, Structural)]
pub enum Step {
    /// Nothing has been handed out yet.
    Idle,
    AnnouncingStart,
    AnnouncingBundle,
    FindingRoot,
    AnnouncingCleanup,
    ShowingCleanup,
    ProbingRoot,
    RemovingOld,
    MakingRoot,
    AnnouncingCleanupDone,
    AnnouncingDownload,
    ShowingDownload,
    Detaching,
    Connecting,
    Receiving,
    ShowingReceived,
    AnnouncingDownloadDone,
    AnnouncingExtract,
    ShowingExtract,
    SkippingEntry,
    WritingEntry,
    AnnouncingEntry,
    ShowingEntry,
    FindingSelf,
    AnnouncingUninstaller,
    CopyingUninstaller,
    Registering,
    ShowingShortcuts,
    AnnouncingShortcuts,
    FindingDesktop,
    ProbingDesktop,
    LinkingDesktop,
    FindingStartMenu,
    ProbingStartMenu,
    LinkingStartMenu,
    ShowingBundle,
    FindingTemp,
    FetchingBundle,
    StartingBundle,
    AnnouncingBundleDone,
    AnnouncingComplete,
    /// The finish has been signalled.
    Finished,
}

/// The stage of a run.
#[derive(Clone, Copy, Debug, PartialEq, Eq, Structural)]
pub enum Phase {
    Idle,
    Cleaning,
    Downloading,
    Extracting,
    Registering,
    ProvisioningBundle,
    Finished,
}

/// The stage that a step belongs to. The announcement that the run is
/// complete belongs to the stage before it: to the providing of the bundled
/// application where that was asked for, and else to the registering.
pub open spec fn phase_of(step: Step, bundle: bool) -> Phase {
    match step {
        Step::Idle | Step::AnnouncingStart | Step::AnnouncingBundle | Step::FindingRoot => {
            Phase::Idle
        },
        Step::AnnouncingCleanup
        | Step::ShowingCleanup
        | Step::ProbingRoot
        | Step::RemovingOld
        | Step::MakingRoot
        | Step::AnnouncingCleanupDone => Phase::Cleaning,
        Step::AnnouncingDownload
        | Step::ShowingDownload
        | Step::Detaching
        | Step::Connecting
        | Step::Receiving
        | Step::ShowingReceived
        | Step::AnnouncingDownloadDone => Phase::Downloading,
        Step::AnnouncingExtract
        | Step::ShowingExtract
        | Step::SkippingEntry
        | Step::WritingEntry
        | Step::AnnouncingEntry
        | Step::ShowingEntry => Phase::Extracting,
        Step::FindingSelf
        | Step::AnnouncingUninstaller
        | Step::CopyingUninstaller
        | Step::Registering
        | Step::ShowingShortcuts
        | Step::AnnouncingShortcuts
        | Step::FindingDesktop
        | Step::ProbingDesktop
        | Step::LinkingDesktop
        | Step::FindingStartMenu
        | Step::ProbingStartMenu
        | Step::LinkingStartMenu => Phase::Registering,
        Step::ShowingBundle
        | Step::FindingTemp
        | Step::FetchingBundle
        | Step::StartingBundle
        | Step::AnnouncingBundleDone => Phase::ProvisioningBundle,
        Step::AnnouncingComplete => if bundle {
            Phase::ProvisioningBundle
        } else {
            Phase::Registering
        },
        Step::Finished => Phase::Finished,
    }
}

/// What a run knows, as a mathematical value.
pub struct InstallState {
    pub step: Step,
    /// Set once a step has failed that the run cannot do without. The step
    /// stays what it was, and nothing but `Stop` is handed out any more.
    pub halted: bool,
    /// Whether the bundled application was asked for.
    pub bundle: bool,
    /// The directory that holds the product, once it is known.
    pub root: Seq<char>,
    /// A path that one step finds and a later one uses.
    pub noted: Seq<char>,
    /// The length that the download declared; zero where it declared none.
    pub total: nat,
    /// The bytes received so far.
    pub payload: Seq<u8>,
    /// The directory of the archive, once it is opened.
    pub entries: Seq<EntryModel>,
    /// The entry that the extraction is at.
    pub index: nat,
    /// The fraction that was reported last.
    pub reported: nat,
}

impl InstallState {
    /// The state of a run that has not begun.
    pub open spec fn initial(bundle: bool) -> InstallState {
        InstallState {
            step: Step::Idle,
            halted: false,
            bundle,
            root: Seq::empty(),
            noted: Seq::empty(),
            total: 0,
            payload: Seq::empty(),
            entries: Seq::empty(),
            index: 0,
            reported: 0,
        }
    }

    /// This state at another step.
    pub open spec fn at(self, step: Step) -> InstallState {
        InstallState { step, ..self }
    }

    /// This state, halted.
    pub open spec fn stopped(self) -> InstallState {
        InstallState { halted: true, ..self }
    }

    /// This state at the next entry.
    pub open spec fn past_entry(self) -> InstallState {
        InstallState {
            index: if self.index < self.entries.len() {
                self.index + 1
            } else {
                self.index
            },
            ..self
        }
    }

    /// The file that starts the product.
    pub open spec fn executable(self) -> Seq<char> {
        joined(self.root, EXECUTABLE_NAME@)
    }

    /// The file that removes the product.
    pub open spec fn uninstaller(self) -> Seq<char> {
        joined(self.root, UNINSTALLER_NAME@)
    }

    /// The stage of the run.
    pub open spec fn phase(self) -> Phase {
        phase_of(self.step, self.bundle)
    }
}

/// Handing out `command` at `step`.
pub open spec fn issue(s: InstallState, step: Step, command: CommandView) -> (
    InstallState,
    CommandView,
) {
    (s.at(step), command)
}

/// Reporting `event` at `step`.
pub open spec fn report(s: InstallState, step: Step, event: ProgressEventView) -> (
    InstallState,
    CommandView,
) {
    (InstallState { step, reported: event.fraction_ppm, ..s }, CommandView::Report(event))
}

/// Halting, and saying so with `command`.
pub open spec fn halt(s: InstallState, command: CommandView) -> (InstallState, CommandView) {
    (s.stopped(), command)
}

/// The command that makes a shortcut in `folder` to the product in `s`.
pub open spec fn link_command(s: InstallState, folder: Seq<char>) -> CommandView {
    CommandView::Run {
        program: SCRIPT_HOST@,
        args: script_arguments(shortcut_script(shortcut_in(folder), s.executable())),
        wait: true,
    }
}

/// The command that is handed out for what was read at an entry: a
/// directory is made and a file is written at `root` joined with the
/// entry's name; an entry whose name is not admitted is passed over;
/// at an entry that cannot be read the run stops.
pub open spec fn entry_command(root: Seq<char>, reading: EntryReadingView) -> CommandView {
    match reading {
        EntryReadingView::Directory { name } => CommandView::MakeDirs(joined(root, name)),
        EntryReadingView::File { name, data } => CommandView::WriteFile {
            path: joined(root, name),
            data,
        },
        EntryReadingView::Rejected { name } => CommandView::Skipped(name),
        EntryReadingView::Unreadable => CommandView::Stop,
    }
}

/// The state in which a run turns to an entry, when it comes from `s`: with
/// the directory of the archive that the payload holds and at its first
/// entry, where `s` has just reported that the extraction begins; and else
/// at the entry after the one that `s` is at.
pub open spec fn turning(s: InstallState) -> InstallState {
    if s.step == Step::ShowingExtract {
        InstallState {
            entries: match directory_of(s.payload) {
                Some(entries) => entries,
                None => Seq::empty(),
            },
            index: 0,
            payload: Seq::empty(),
            ..s
        }
    } else {
        s.past_entry()
    }
}

/// Turning to the entry that the extraction is at: past the last one the
/// registering begins; an entry that cannot be read halts the run; for every
/// other entry its command is handed out.
pub open spec fn enter_model(s: InstallState, contained: bool) -> (InstallState, CommandView) {
    if s.index >= s.entries.len() {
        issue(s, Step::FindingSelf, CommandView::FindOwnExecutable)
    } else {
        let reading = reading_of(entry_at(s.entries, s.index), contained);
        match reading {
            EntryReadingView::Unreadable => halt(s, entry_command(s.root, reading)),
            EntryReadingView::Rejected { .. } => issue(
                s,
                Step::SkippingEntry,
                entry_command(s.root, reading),
            ),
            _ => issue(s, Step::WritingEntry, entry_command(s.root, reading)),
        }
    }
}

/// Announcing that the run is complete.
pub open spec fn complete_model(s: InstallState) -> (InstallState, CommandView) {
    issue(s, Step::AnnouncingComplete, CommandView::Track(Milestone::InstallComplete))
}

/// What follows the shortcuts: the bundled application where it was asked
/// for, and else the end.
pub open spec fn after_shortcuts_model(s: InstallState) -> (InstallState, CommandView) {
    if s.bundle {
        report(s, Step::ShowingBundle, stage_event(StatusKey::Opera))
    } else {
        complete_model(s)
    }
}

/// The steps from the start to the point where the run goes into the
/// background.
pub open spec fn preparing_model(s: InstallState, outcome: OutcomeView) -> (
    InstallState,
    CommandView,
) {
    match s.step {
        Step::Idle => issue(
            s,
            Step::AnnouncingStart,
            CommandView::Track(Milestone::InstallStarted),
        ),
        Step::AnnouncingStart => if s.bundle {
            issue(s, Step::AnnouncingBundle, CommandView::Track(Milestone::OperaAccepted))
        } else {
            issue(s, Step::FindingRoot, CommandView::FindLocalAppData)
        },
        Step::AnnouncingBundle => issue(s, Step::FindingRoot, CommandView::FindLocalAppData),
        Step::FindingRoot => match outcome {
            OutcomeView::Found(dir) => issue(
                InstallState { root: install_root(dir), ..s },
                Step::AnnouncingCleanup,
                CommandView::Track(Milestone::CleanupStarted),
            ),
            _ => halt(s, CommandView::Fail("No AppData found"@)),
        },
        Step::AnnouncingCleanup => report(
            s,
            Step::ShowingCleanup,
            stage_event(StatusKey::Cleaning),
        ),
        Step::ShowingCleanup => issue(s, Step::ProbingRoot, CommandView::Probe(s.root)),
        Step::ProbingRoot => match outcome {
            OutcomeView::Exists(true) => issue(
                s,
                Step::RemovingOld,
                CommandView::RemoveTree(s.root),
            ),
            _ => issue(s, Step::MakingRoot, CommandView::MakeDirs(s.root)),
        },
        Step::RemovingOld => issue(s, Step::MakingRoot, CommandView::MakeDirs(s.root)),
        Step::MakingRoot => match outcome {
            OutcomeView::Done => issue(
                s,
                Step::AnnouncingCleanupDone,
                CommandView::Track(Milestone::CleanupFinished),
            ),
            OutcomeView::Failed(reason) => halt(s, CommandView::Fail(reason)),
            _ => halt(s, CommandView::Fail(Seq::empty())),
        },
        Step::AnnouncingCleanupDone => issue(
            s,
            Step::AnnouncingDownload,
            CommandView::Track(Milestone::DownloadStarted),
        ),
        Step::AnnouncingDownload => report(
            s,
            Step::ShowingDownload,
            stage_event(StatusKey::DownloadingStart),
        ),
        Step::ShowingDownload => issue(s, Step::Detaching, CommandView::Detach),
        _ => (s, CommandView::Stop),
    }
}

/// The steps of the download.
pub open spec fn fetching_model(s: InstallState, outcome: OutcomeView) -> (
    InstallState,
    CommandView,
) {
    match s.step {
        Step::Detaching => issue(s, Step::Connecting, CommandView::Fetch(PAYLOAD_URL@)),
        Step::Connecting => match outcome {
            OutcomeView::Opened(length) => issue(
                InstallState {
                    total: match length {
                        Some(n) => n as nat,
                        None => 0,
                    },
                    ..s
                },
                Step::Receiving,
                CommandView::Read,
            ),
            _ => halt(s, CommandView::Stop),
        },
        Step::Receiving => match outcome {
            OutcomeView::Chunk(bytes) => if bytes.len() == 0 {
                issue(
                    s,
                    Step::AnnouncingDownloadDone,
                    CommandView::Track(Milestone::DownloadFinished),
                )
            } else {
                let grown = InstallState { payload: s.payload + bytes, ..s };
                if download_is_reported(grown.payload.len(), s.total) {
                    report(
                        grown,
                        Step::ShowingReceived,
                        download_event(grown.payload.len(), s.total),
                    )
                } else {
                    issue(grown, Step::Receiving, CommandView::Read)
                }
            },
            _ => halt(s, CommandView::Stop),
        },
        Step::ShowingReceived => issue(s, Step::Receiving, CommandView::Read),
        Step::AnnouncingDownloadDone => issue(
            s,
            Step::AnnouncingExtract,
            CommandView::Track(Milestone::ExtractStarted),
        ),
        Step::AnnouncingExtract => report(
            s,
            Step::ShowingExtract,
            stage_event(StatusKey::Extracting),
        ),
        _ => (s, CommandView::Stop),
    }
}

/// The steps of the extraction.
pub open spec fn extracting_model(s: InstallState, outcome: OutcomeView, contained: bool) -> (
    InstallState,
    CommandView,
) {
    match s.step {
        Step::ShowingExtract => match directory_of(s.payload) {
            Some(_) => enter_model(turning(s), contained),
            None => halt(InstallState { payload: Seq::empty(), ..s }, CommandView::Stop),
        },
        Step::SkippingEntry => enter_model(turning(s), contained),
        Step::WritingEntry => match outcome {
            OutcomeView::Done => issue(
                s,
                Step::AnnouncingEntry,
                CommandView::Track(Milestone::ExtractComplete),
            ),
            _ => halt(s, CommandView::Stop),
        },
        Step::AnnouncingEntry => if extract_is_reported(s.index, s.entries.len()) {
            report(s, Step::ShowingEntry, extract_event(s.index, s.entries.len()))
        } else {
            enter_model(turning(s), contained)
        },
        Step::ShowingEntry => enter_model(turning(s), contained),
        _ => (s, CommandView::Stop),
    }
}

/// The steps that make the product known to the system. Each of them is
/// tried whatever became of the others: the record is written even where the
/// program's own file is not found and so cannot be copied, and each
/// shortcut is made where its folder is known and is there: a folder that
/// does not exist is passed over, and is not made.
pub open spec fn registering_model(s: InstallState, outcome: OutcomeView) -> (
    InstallState,
    CommandView,
) {
    match s.step {
        Step::FindingSelf => match outcome {
            OutcomeView::Found(own) => issue(
                InstallState { noted: own, ..s },
                Step::AnnouncingUninstaller,
                CommandView::Track(Milestone::UninstallerRegistered),
            ),
            _ => issue(
                s,
                Step::Registering,
                CommandView::Register(registration_of(s.root, s.uninstaller())),
            ),
        },
        Step::AnnouncingUninstaller => issue(
            s,
            Step::CopyingUninstaller,
            CommandView::CopyFile { from: s.noted, to: s.uninstaller() },
        ),
        Step::CopyingUninstaller => issue(
            s,
            Step::Registering,
            CommandView::Register(registration_of(s.root, s.uninstaller())),
        ),
        Step::Registering => report(
            s,
            Step::ShowingShortcuts,
            stage_event(StatusKey::Shortcuts),
        ),
        Step::ShowingShortcuts => issue(
            s,
            Step::AnnouncingShortcuts,
            CommandView::Track(Milestone::ShortcutsCreated),
        ),
        Step::AnnouncingShortcuts => issue(s, Step::FindingDesktop, CommandView::FindDesktop),
        Step::FindingDesktop => match outcome {
            OutcomeView::Found(desktop) => issue(
                InstallState { noted: desktop, ..s },
                Step::ProbingDesktop,
                CommandView::Probe(desktop),
            ),
            _ => issue(s, Step::FindingStartMenu, CommandView::FindRoamingAppData),
        },
        Step::ProbingDesktop => match outcome {
            OutcomeView::Exists(true) => issue(
                s,
                Step::LinkingDesktop,
                link_command(s, s.noted),
            ),
            _ => issue(s, Step::FindingStartMenu, CommandView::FindRoamingAppData),
        },
        Step::LinkingDesktop => issue(
            s,
            Step::FindingStartMenu,
            CommandView::FindRoamingAppData,
        ),
        Step::FindingStartMenu => match outcome {
            OutcomeView::Found(roaming) => issue(
                InstallState { noted: joined(roaming, START_MENU_FOLDER@), ..s },
                Step::ProbingStartMenu,
                CommandView::Probe(joined(roaming, START_MENU_FOLDER@)),
            ),
            _ => after_shortcuts_model(s),
        },
        Step::ProbingStartMenu => match outcome {
            OutcomeView::Exists(true) => issue(
                s,
                Step::LinkingStartMenu,
                link_command(s, s.noted),
            ),
            _ => after_shortcuts_model(s),
        },
        Step::LinkingStartMenu => after_shortcuts_model(s),
        _ => (s, CommandView::Stop),
    }
}

/// The steps that provide the bundled application, and the end of the run.
/// A finished run stays as it is.
pub open spec fn closing_model(s: InstallState, outcome: OutcomeView) -> (
    InstallState,
    CommandView,
) {
    match s.step {
        Step::ShowingBundle => issue(s, Step::FindingTemp, CommandView::FindTempDir),
        Step::FindingTemp => match outcome {
            OutcomeView::Found(temp) => issue(
                InstallState { noted: joined(temp, BUNDLE_FILE_NAME@), ..s },
                Step::FetchingBundle,
                CommandView::Download { url: BUNDLE_URL@, to: joined(temp, BUNDLE_FILE_NAME@) },
            ),
            _ => complete_model(s),
        },
        Step::FetchingBundle => match outcome {
            OutcomeView::Done => issue(
                s,
                Step::StartingBundle,
                CommandView::Run { program: s.noted, args: bundle_arguments(), wait: false },
            ),
            _ => complete_model(s),
        },
        Step::StartingBundle => issue(
            s,
            Step::AnnouncingBundleDone,
            CommandView::Track(Milestone::OperaInstalled),
        ),
        Step::AnnouncingBundleDone => complete_model(s),
        Step::AnnouncingComplete => issue(s, Step::Finished, CommandView::Finish),
        _ => (s, CommandView::Stop),
    }
}

/// One step of a run: the state that follows `s` and the command that goes
/// out, when the command that `s` waits for has had `outcome`. A halted or
/// finished run stays as it is and hands out `Stop`. Where the step reads an
/// entry of the archive, `contained` says whether the archive reader found
/// the entry's name to stay inside the root.
pub open spec fn advance_model(s: InstallState, outcome: OutcomeView, contained: bool) -> (
    InstallState,
    CommandView,
) {
    if s.halted {
        (s, CommandView::Stop)
    } else {
        match s.step {
            Step::Idle
            | Step::AnnouncingStart
            | Step::AnnouncingBundle
            | Step::FindingRoot
            | Step::AnnouncingCleanup
            | Step::ShowingCleanup
            | Step::ProbingRoot
            | Step::RemovingOld
            | Step::MakingRoot
            | Step::AnnouncingCleanupDone
            | Step::AnnouncingDownload
            | Step::ShowingDownload => preparing_model(s, outcome),
            Step::Detaching
            | Step::Connecting
            | Step::Receiving
            | Step::ShowingReceived
            | Step::AnnouncingDownloadDone
            | Step::AnnouncingExtract => fetching_model(s, outcome),
            Step::ShowingExtract
            | Step::SkippingEntry
            | Step::WritingEntry
            | Step::AnnouncingEntry
            | Step::ShowingEntry => extracting_model(s, outcome, contained),
            Step::FindingSelf
            | Step::AnnouncingUninstaller
            | Step::CopyingUninstaller
            | Step::Registering
            | Step::ShowingShortcuts
            | Step::AnnouncingShortcuts
            | Step::FindingDesktop
            | Step::ProbingDesktop
            | Step::LinkingDesktop
            | Step::FindingStartMenu
            | Step::ProbingStartMenu
            | Step::LinkingStartMenu => registering_model(s, outcome),
            Step::ShowingBundle
            | Step::FindingTemp
            | Step::FetchingBundle
            | Step::StartingBundle
            | Step::AnnouncingBundleDone
            | Step::AnnouncingComplete
            | Step::Finished => closing_model(s, outcome),
        }
    }
}

/// Decides what is handed out for what was read at an entry of the archive.
pub fn command_for_entry(root: &str, reading: EntryReading) -> (command: Command)
    ensures
        command@ == entry_command(root@, reading@),
{
    match reading {
        EntryReading::Directory { name } => Command::MakeDirs(join_path(root, name.as_str())),
        EntryReading::File { name, data } => Command::WriteFile {
            path: join_path(root, name.as_str()),
            data,
        },
        EntryReading::Rejected { name } => Command::Skipped(name),
        EntryReading::Unreadable => Command::Stop,
    }
}

/// An install run.
pub struct InstallRun {
    step: Step,
    halted: bool,
    bundle: bool,
    root: String,
    noted: String,
    total: u64,
    payload: Vec<u8>,
    archive: Option<Archive>,
    index: usize,
    reported: u32,
}

impl View for InstallRun {
    type V = InstallState;

    closed spec fn view(&self) -> InstallState {
        InstallState {
            step: self.step,
            halted: self.halted,
            bundle: self.bundle,
            root: self.root@,
            noted: self.noted@,
            total: self.total as nat,
            payload: self.payload@,
            entries: match self.archive {
                Some(archive) => archive.entries(),
                None => Seq::empty(),
            },
            index: self.index as nat,
            reported: self.reported as nat,
        }
    }
}

impl InstallRun {
    /// A run that has not begun. `bundle` says whether the bundled
    /// application is to be provided too.
    pub fn new(bundle: bool) -> (run: InstallRun)
        ensures
            run@ == InstallState::initial(bundle),
    {
        InstallRun {
            step: Step::Idle,
            halted: false,
            bundle,
            root: String::new(),
            noted: String::new(),
            total: 0,
            payload: Vec::new(),
            archive: None,
            index: 0,
            reported: 0,
        }
    }

    /// The stage of the run.
    pub fn phase(&self) -> (phase: Phase)
        ensures
            phase == self@.phase(),
    {
        match self.step {
            Step::Idle | Step::AnnouncingStart | Step::AnnouncingBundle | Step::FindingRoot => {
                Phase::Idle
            },
            Step::AnnouncingCleanup
            | Step::ShowingCleanup
            | Step::ProbingRoot
            | Step::RemovingOld
            | Step::MakingRoot
            | Step::AnnouncingCleanupDone => Phase::Cleaning,
            Step::AnnouncingDownload
            | Step::ShowingDownload
            | Step::Detaching
            | Step::Connecting
            | Step::Receiving
            | Step::ShowingReceived
            | Step::AnnouncingDownloadDone => Phase::Downloading,
            Step::AnnouncingExtract
            | Step::ShowingExtract
            | Step::SkippingEntry
            | Step::WritingEntry
            | Step::AnnouncingEntry
            | Step::ShowingEntry => Phase::Extracting,
            Step::FindingSelf
            | Step::AnnouncingUninstaller
            | Step::CopyingUninstaller
            | Step::Registering
            | Step::ShowingShortcuts
            | Step::AnnouncingShortcuts
            | Step::FindingDesktop
            | Step::ProbingDesktop
            | Step::LinkingDesktop
            | Step::FindingStartMenu
            | Step::ProbingStartMenu
            | Step::LinkingStartMenu => Phase::Registering,
            Step::ShowingBundle
            | Step::FindingTemp
            | Step::FetchingBundle
            | Step::StartingBundle
            | Step::AnnouncingBundleDone => Phase::ProvisioningBundle,
            Step::AnnouncingComplete => {
                if self.bundle {
                    Phase::ProvisioningBundle
                } else {
                    Phase::Registering
                }
            },
            Step::Finished => Phase::Finished,
        }
    }

    /// The step of the run.
    pub fn step(&self) -> (step: Step)
        ensures
            step == self@.step,
    {
        self.step
    }

    /// Whether the run has halted on a failure.
    pub fn is_halted(&self) -> (halted: bool)
        ensures
            halted == self@.halted,
    {
        self.halted
    }

    /// The fraction that was reported last, in parts per million.
    pub fn reported_ppm(&self) -> (ppm: u32)
        ensures
            ppm == self@.reported,
    {
        self.reported
    }

    fn issue(self, step: Step, command: Command) -> (r: (InstallRun, Command))
        ensures
            (r.0@, r.1@) == issue(self@, step, command@),
    {
        (InstallRun { step, ..self }, command)
    }

    fn report(self, step: Step, event: ProgressEvent) -> (r: (InstallRun, Command))
        ensures
            (r.0@, r.1@) == report(self@, step, event@),
    {
        (InstallRun { step, reported: event.fraction_ppm, ..self }, Command::Report(event))
    }

    fn halt(self, command: Command) -> (r: (InstallRun, Command))
        ensures
            (r.0@, r.1@) == halt(self@, command@),
    {
        (InstallRun { halted: true, ..self }, command)
    }

    fn past_entry(self) -> (r: InstallRun)
        ensures
            r@ == self@.past_entry(),
    {
        let count: usize = match &self.archive {
            Some(archive) => archive.len(),
            None => 0,
        };
        if self.index < count {
            InstallRun { index: self.index + 1, ..self }
        } else {
            self
        }
    }

    fn executable(&self) -> (path: String)
        ensures
            path@ == self@.executable(),
    {
        join_path(self.root.as_str(), EXECUTABLE_NAME)
    }

    fn uninstaller(&self) -> (path: String)
        ensures
            path@ == self@.uninstaller(),
    {
        join_path(self.root.as_str(), UNINSTALLER_NAME)
    }

    fn register_command(&self) -> (command: Command)
        ensures
            command@ == CommandView::Register(registration_of(self@.root, self@.uninstaller())),
    {
        let uninstaller = self.uninstaller();
        Command::Register(RegistrationRecord::compose(self.root.as_str(), uninstaller.as_str()))
    }

    fn link_command(&self, folder: &str) -> (command: Command)
        ensures
            command@ == link_command(self@, folder@),
    {
        let link = join_path(folder, crate::config::SHORTCUT_FILE_NAME);
        let target = self.executable();
        let script = write_shortcut_script(link.as_str(), target.as_str());
        Command::Run {
            program: String::from_str(SCRIPT_HOST),
            args: list_script_arguments(script),
            wait: true,
        }
    }

    fn enter(self) -> (r: (InstallRun, Command))
        ensures
            (r.0@, r.1@) == enter_model(self@, true) || (r.0@, r.1@) == enter_model(self@, false),
    {
        let mut run = self;
        match run.archive.take() {
            None => run.issue(Step::FindingSelf, Command::FindOwnExecutable),
            Some(mut archive) => {
                let count: usize = archive.len();
                if run.index >= count {
                    run.archive = Some(archive);
                    run.issue(Step::FindingSelf, Command::FindOwnExecutable)
                } else {
                    let reading = archive.read(run.index);
                    run.archive = Some(archive);
                    match reading {
                        EntryReading::Unreadable => {
                            let command = command_for_entry(run.root.as_str(), reading);
                            run.halt(command)
                        },
                        EntryReading::Rejected { .. } => {
                            let command = command_for_entry(run.root.as_str(), reading);
                            run.issue(Step::SkippingEntry, command)
                        },
                        _ => {
                            let command = command_for_entry(run.root.as_str(), reading);
                            run.issue(Step::WritingEntry, command)
                        },
                    }
                }
            },
        }
    }

    fn complete(self) -> (r: (InstallRun, Command))
        ensures
            (r.0@, r.1@) == complete_model(self@),
    {
        self.issue(Step::AnnouncingComplete, Command::Track(Milestone::InstallComplete))
    }

    fn after_shortcuts(self) -> (r: (InstallRun, Command))
        ensures
            (r.0@, r.1@) == after_shortcuts_model(self@),
    {
        if self.bundle {
            self.report(Step::ShowingBundle, ProgressEvent::stage(StatusKey::Opera))
        } else {
            self.complete()
        }
    }

    fn preparing(self, outcome: Outcome) -> (r: (InstallRun, Command))
        ensures
            (r.0@, r.1@) == preparing_model(self@, outcome@),
    {
        match self.step {
            Step::Idle => self.issue(
                Step::AnnouncingStart,
                Command::Track(Milestone::InstallStarted),
            ),
            Step::AnnouncingStart => {
                if self.bundle {
                    self.issue(Step::AnnouncingBundle, Command::Track(Milestone::OperaAccepted))
                } else {
                    self.issue(Step::FindingRoot, Command::FindLocalAppData)
                }
            },
            Step::AnnouncingBundle => self.issue(Step::FindingRoot, Command::FindLocalAppData),
            Step::FindingRoot => match outcome {
                Outcome::Found(dir) => {
                    let target = InstallTarget::locate(dir.as_str());
                    let run = InstallRun { root: target.root, ..self };
                    run.issue(Step::AnnouncingCleanup, Command::Track(Milestone::CleanupStarted))
                },
                _ => self.halt(Command::Fail(String::from_str("No AppData found"))),
            },
            Step::AnnouncingCleanup => self.report(
                Step::ShowingCleanup,
                ProgressEvent::stage(StatusKey::Cleaning),
            ),
            Step::ShowingCleanup => {
                let root = self.root.clone();
                self.issue(Step::ProbingRoot, Command::Probe(root))
            },
            Step::ProbingRoot => {
                let root = self.root.clone();
                match outcome {
                    Outcome::Exists(true) => self.issue(
                        Step::RemovingOld,
                        Command::RemoveTree(root),
                    ),
                    _ => self.issue(Step::MakingRoot, Command::MakeDirs(root)),
                }
            },
            Step::RemovingOld => {
                let root = self.root.clone();
                self.issue(Step::MakingRoot, Command::MakeDirs(root))
            },
            Step::MakingRoot => match outcome {
                Outcome::Done => self.issue(
                    Step::AnnouncingCleanupDone,
                    Command::Track(Milestone::CleanupFinished),
                ),
                Outcome::Failed(reason) => self.halt(Command::Fail(reason)),
                _ => self.halt(Command::Fail(String::new())),
            },
            Step::AnnouncingCleanupDone => self.issue(
                Step::AnnouncingDownload,
                Command::Track(Milestone::DownloadStarted),
            ),
            Step::AnnouncingDownload => self.report(
                Step::ShowingDownload,
                ProgressEvent::stage(StatusKey::DownloadingStart),
            ),
            Step::ShowingDownload => self.issue(Step::Detaching, Command::Detach),
            _ => (self, Command::Stop),
        }
    }

    fn fetching(self, outcome: Outcome) -> (r: (InstallRun, Command))
        ensures
            (r.0@, r.1@) == fetching_model(self@, outcome@),
    {
        match self.step {
            Step::Detaching => self.issue(
                Step::Connecting,
                Command::Fetch(String::from_str(PAYLOAD_URL)),
            ),
            Step::Connecting => match outcome {
                Outcome::Opened(length) => {
                    let total: u64 = match length {
                        Some(n) => n,
                        None => 0,
                    };
                    let run = InstallRun { total, ..self };
                    run.issue(Step::Receiving, Command::Read)
                },
                _ => self.halt(Command::Stop),
            },
            Step::Receiving => match outcome {
                Outcome::Chunk(bytes) => {
                    if bytes.len() == 0 {
                        self.issue(
                            Step::AnnouncingDownloadDone,
                            Command::Track(Milestone::DownloadFinished),
                        )
                    } else {
                        let mut run = self;
                        let mut bytes = bytes;
                        run.payload.append(&mut bytes);
                        let received: u64 = run.payload.len() as u64;
                        match ProgressEvent::download(received, run.total) {
                            Some(event) => run.report(Step::ShowingReceived, event),
                            None => run.issue(Step::Receiving, Command::Read),
                        }
                    }
                },
                _ => self.halt(Command::Stop),
            },
            Step::ShowingReceived => self.issue(Step::Receiving, Command::Read),
            Step::AnnouncingDownloadDone => self.issue(
                Step::AnnouncingExtract,
                Command::Track(Milestone::ExtractStarted),
            ),
            Step::AnnouncingExtract => self.report(
                Step::ShowingExtract,
                ProgressEvent::stage(StatusKey::Extracting),
            ),
            _ => (self, Command::Stop),
        }
    }

    fn extracting(self, outcome: Outcome) -> (r: (InstallRun, Command))
        ensures
            (r.0@, r.1@) == extracting_model(self@, outcome@, true) || (r.0@, r.1@)
                == extracting_model(self@, outcome@, false),
    {
        match self.step {
            Step::ShowingExtract => {
                let mut run = self;
                let mut data: Vec<u8> = Vec::new();
                data.append(&mut run.payload);
                match Archive::open(data) {
                    Some(archive) => {
                        run.archive = Some(archive);
                        run.index = 0;
                        run.enter()
                    },
                    None => run.halt(Command::Stop),
                }
            },
            Step::SkippingEntry => self.past_entry().enter(),
            Step::WritingEntry => match outcome {
                Outcome::Done => self.issue(
                    Step::AnnouncingEntry,
                    Command::Track(Milestone::ExtractComplete),
                ),
                _ => self.halt(Command::Stop),
            },
            Step::AnnouncingEntry => {
                let count: usize = match &self.archive {
                    Some(archive) => archive.len(),
                    None => 0,
                };
                match ProgressEvent::extraction(self.index, count) {
                    Some(event) => self.report(Step::ShowingEntry, event),
                    None => self.past_entry().enter(),
                }
            },
            Step::ShowingEntry => self.past_entry().enter(),
            _ => (self, Command::Stop),
        }
    }

    fn registering(self, outcome: Outcome) -> (r: (InstallRun, Command))
        ensures
            (r.0@, r.1@) == registering_model(self@, outcome@),
    {
        match self.step {
            Step::FindingSelf => match outcome {
                Outcome::Found(own) => {
                    let run = InstallRun { noted: own, ..self };
                    run.issue(
                        Step::AnnouncingUninstaller,
                        Command::Track(Milestone::UninstallerRegistered),
                    )
                },
                _ => {
                    let command = self.register_command();
                    self.issue(Step::Registering, command)
                },
            },
            Step::AnnouncingUninstaller => {
                let from = self.noted.clone();
                let to = self.uninstaller();
                self.issue(Step::CopyingUninstaller, Command::CopyFile { from, to })
            },
            Step::CopyingUninstaller => {
                let command = self.register_command();
                self.issue(Step::Registering, command)
            },
            Step::Registering => self.report(
                Step::ShowingShortcuts,
                ProgressEvent::stage(StatusKey::Shortcuts),
            ),
            Step::ShowingShortcuts => self.issue(
                Step::AnnouncingShortcuts,
                Command::Track(Milestone::ShortcutsCreated),
            ),
            Step::AnnouncingShortcuts => self.issue(Step::FindingDesktop, Command::FindDesktop),
            Step::FindingDesktop => match outcome {
                Outcome::Found(desktop) => {
                    let probed = desktop.clone();
                    let run = InstallRun { noted: desktop, ..self };
                    run.issue(Step::ProbingDesktop, Command::Probe(probed))
                },
                _ => self.issue(Step::FindingStartMenu, Command::FindRoamingAppData),
            },
            Step::ProbingDesktop => match outcome {
                Outcome::Exists(true) => {
                    let command = self.link_command(self.noted.as_str());
                    self.issue(Step::LinkingDesktop, command)
                },
                _ => self.issue(Step::FindingStartMenu, Command::FindRoamingAppData),
            },
            Step::LinkingDesktop => self.issue(
                Step::FindingStartMenu,
                Command::FindRoamingAppData,
            ),
            Step::FindingStartMenu => match outcome {
                Outcome::Found(roaming) => {
                    let folder = join_path(roaming.as_str(), START_MENU_FOLDER);
                    let probed = folder.clone();
                    let run = InstallRun { noted: folder, ..self };
                    run.issue(Step::ProbingStartMenu, Command::Probe(probed))
                },
                _ => self.after_shortcuts(),
            },
            Step::ProbingStartMenu => match outcome {
                Outcome::Exists(true) => {
                    let command = self.link_command(self.noted.as_str());
                    self.issue(Step::LinkingStartMenu, command)
                },
                _ => self.after_shortcuts(),
            },
            Step::LinkingStartMenu => self.after_shortcuts(),
            _ => (self, Command::Stop),
        }
    }

    fn closing(self, outcome: Outcome) -> (r: (InstallRun, Command))
        ensures
            (r.0@, r.1@) == closing_model(self@, outcome@),
    {
        match self.step {
            Step::ShowingBundle => self.issue(Step::FindingTemp, Command::FindTempDir),
            Step::FindingTemp => match outcome {
                Outcome::Found(temp) => {
                    let file = join_path(temp.as_str(), BUNDLE_FILE_NAME);
                    let to = file.clone();
                    let run = InstallRun { noted: file, ..self };
                    run.issue(
                        Step::FetchingBundle,
                        Command::Download { url: String::from_str(BUNDLE_URL), to },
                    )
                },
                _ => self.complete(),
            },
            Step::FetchingBundle => match outcome {
                Outcome::Done => {
                    let program = self.noted.clone();
                    self.issue(
                        Step::StartingBundle,
                        Command::Run { program, args: list_bundle_arguments(), wait: false },
                    )
                },
                _ => self.complete(),
            },
            Step::StartingBundle => self.issue(
                Step::AnnouncingBundleDone,
                Command::Track(Milestone::OperaInstalled),
            ),
            Step::AnnouncingBundleDone => self.complete(),
            Step::AnnouncingComplete => self.issue(Step::Finished, Command::Finish),
            _ => (self, Command::Stop),
        }
    }

    /// Takes the outcome of the command that was handed out last, and hands
    /// out the next one. The first call starts the run, whatever `outcome`
    /// it is given. Where the step reads an entry of the archive, the archive
    /// reader decides whether the entry's name stays inside the root, and
    /// the step is as the model says for what the reader found.
    pub fn advance(self, outcome: Outcome) -> (r: (InstallRun, Command))
        ensures
            (r.0@, r.1@) == advance_model(self@, outcome@, true) || (r.0@, r.1@) == advance_model(
                self@,
                outcome@,
                false,
            ),
    {
        if self.halted {
            (self, Command::Stop)
        } else {
            match self.step {
                Step::Idle
                | Step::AnnouncingStart
                | Step::AnnouncingBundle
                | Step::FindingRoot
                | Step::AnnouncingCleanup
                | Step::ShowingCleanup
                | Step::ProbingRoot
                | Step::RemovingOld
                | Step::MakingRoot
                | Step::AnnouncingCleanupDone
                | Step::AnnouncingDownload
                | Step::ShowingDownload => self.preparing(outcome),
                Step::Detaching
                | Step::Connecting
                | Step::Receiving
                | Step::ShowingReceived
                | Step::AnnouncingDownloadDone
                | Step::AnnouncingExtract => self.fetching(outcome),
                Step::ShowingExtract
                | Step::SkippingEntry
                | Step::WritingEntry
                | Step::AnnouncingEntry
                | Step::ShowingEntry => self.extracting(outcome),
                Step::FindingSelf
                | Step::AnnouncingUninstaller
                | Step::CopyingUninstaller
                | Step::Registering
                | Step::ShowingShortcuts
                | Step::AnnouncingShortcuts
                | Step::FindingDesktop
                | Step::ProbingDesktop
                | Step::LinkingDesktop
                | Step::FindingStartMenu
                | Step::ProbingStartMenu
                | Step::LinkingStartMenu => self.registering(outcome),
                Step::ShowingBundle
                | Step::FindingTemp
                | Step::FetchingBundle
                | Step::StartingBundle
                | Step::AnnouncingBundleDone
                | Step::AnnouncingComplete
                | Step::Finished => self.closing(outcome),
            }
        }
    }
}

} // verus!
