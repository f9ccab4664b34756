//! The uninstall run: it removes the shortcuts and the registration record,
//! and has the install directory removed once the process has ended.
//!
//! Every step is tried whatever became of the one before it. Where the
//! user's local application data is not found, the shortcuts and the record
//! are removed all the same, and only the removal of the directory is left
//! out, as it is not known where the directory is. The directory cannot be
//! removed at once, because the program that removes it lies in it: the
//! removal is left to a script that waits before it acts.

use vstd::prelude::*;
use vstd::string::*;

use crate::config::{
    APP_FOLDER_NAME, SCRIPT_HOST, SHORTCUT_FILE_NAME, START_MENU_FOLDER, UNINSTALL_REGISTRY_KEY,
};
use crate::protocol::{Command, CommandView, Outcome, OutcomeView};
use crate::registrar::{
    install_root, list_script_arguments, removal_script, script_arguments, shortcut_in,
    write_removal_script, InstallTarget,
};
use crate::text::{join_path, joined};

verus! {

/// The command that an uninstall run has handed out last.
#[derive(Clone, Copy, Debug, PartialEq, Eq, Structural)]
pub enum UninstallStep {
    /// Nothing has been handed out yet.
    Idle,
    FindingRoot,
    FindingDesktop,
    ProbingDesktopLink,
    RemovingDesktopLink,
    FindingStartMenu,
    ProbingStartMenuLink,
    RemovingStartMenuLink,
    Unregistering,
    SchedulingRemoval,
    /// Nothing is left to do.
    Done,
}

/// What an uninstall run knows, as a mathematical value.
pub struct UninstallState {
    pub step: UninstallStep,
    /// Whether the directory that holds the product is known.
    pub rooted: bool,
    /// The directory that holds the product, where it is known.
    pub root: Seq<char>,
    /// The shortcut that was looked for last.
    pub link: Seq<char>,
}

impl UninstallState {
    /// The state of a run that has not begun.
    pub open spec fn initial() -> UninstallState {
        UninstallState {
            step: UninstallStep::Idle,
            rooted: false,
            root: Seq::empty(),
            link: Seq::empty(),
        }
    }

    /// This state at another step.
    pub open spec fn at(self, step: UninstallStep) -> UninstallState {
        UninstallState { step, ..self }
    }

    /// This state, looking for the shortcut `link`.
    pub open spec fn seeking(self, link: Seq<char>) -> UninstallState {
        UninstallState { link, ..self }
    }
}

/// The shortcut in the start menu of a user whose roaming application data is
/// at `roaming`.
pub open spec fn start_menu_link(roaming: Seq<char>) -> Seq<char> {
    shortcut_in(joined(roaming, START_MENU_FOLDER@))
}

/// The command that deletes the registration record.
pub open spec fn unregister_command() -> CommandView {
    CommandView::Unregister { parent: UNINSTALL_REGISTRY_KEY@, name: APP_FOLDER_NAME@ }
}

/// The command that has the directory `root` removed after a delay, by a
/// script that is started and not waited for.
pub open spec fn removal_command(root: Seq<char>) -> CommandView {
    CommandView::Run {
        program: SCRIPT_HOST@,
        args: script_arguments(removal_script(root)),
        wait: false,
    }
}

/// Turning to the start menu.
pub open spec fn to_start_menu(s: UninstallState) -> (UninstallState, CommandView) {
    (s.at(UninstallStep::FindingStartMenu), CommandView::FindRoamingAppData)
}

/// Turning to the registration record.
pub open spec fn to_registry(s: UninstallState) -> (UninstallState, CommandView) {
    (s.at(UninstallStep::Unregistering), unregister_command())
}

/// One step of an uninstall run: the state that follows `s` and the command
/// that goes out, when the command that `s` waits for has had `outcome`.
/// A shortcut is removed where its folder is known and the shortcut is
/// there. The record is deleted in every case. The removal of the directory
/// is scheduled where the directory is known, that is, where the user's
/// local application data was found.
pub open spec fn uninstall_model(s: UninstallState, outcome: OutcomeView) -> (
    UninstallState,
    CommandView,
) {
    match s.step {
        UninstallStep::Idle => (s.at(UninstallStep::FindingRoot), CommandView::FindLocalAppData),
        UninstallStep::FindingRoot => match outcome {
            OutcomeView::Found(dir) => (
                UninstallState {
                    step: UninstallStep::FindingDesktop,
                    rooted: true,
                    root: install_root(dir),
                    link: s.link,
                },
                CommandView::FindDesktop,
            ),
            _ => (s.at(UninstallStep::FindingDesktop), CommandView::FindDesktop),
        },
        UninstallStep::FindingDesktop => match outcome {
            OutcomeView::Found(desktop) => (
                s.seeking(shortcut_in(desktop)).at(UninstallStep::ProbingDesktopLink),
                CommandView::Probe(shortcut_in(desktop)),
            ),
            _ => to_start_menu(s),
        },
        UninstallStep::ProbingDesktopLink => match outcome {
            OutcomeView::Exists(true) => (
                s.at(UninstallStep::RemovingDesktopLink),
                CommandView::RemoveFile(s.link),
            ),
            _ => to_start_menu(s),
        },
        UninstallStep::RemovingDesktopLink => to_start_menu(s),
        UninstallStep::FindingStartMenu => match outcome {
            OutcomeView::Found(roaming) => (
                s.seeking(start_menu_link(roaming)).at(UninstallStep::ProbingStartMenuLink),
                CommandView::Probe(start_menu_link(roaming)),
            ),
            _ => to_registry(s),
        },
        UninstallStep::ProbingStartMenuLink => match outcome {
            OutcomeView::Exists(true) => (
                s.at(UninstallStep::RemovingStartMenuLink),
                CommandView::RemoveFile(s.link),
            ),
            _ => to_registry(s),
        },
        UninstallStep::RemovingStartMenuLink => to_registry(s),
        UninstallStep::Unregistering => if s.rooted {
            (s.at(UninstallStep::SchedulingRemoval), removal_command(s.root))
        } else {
            (s.at(UninstallStep::Done), CommandView::Stop)
        },
        UninstallStep::SchedulingRemoval => (s.at(UninstallStep::Done), CommandView::Stop),
        UninstallStep::Done => (s, CommandView::Stop),
    }
}

/// An uninstall run.
pub struct UninstallRun {
    step: UninstallStep,
    rooted: bool,
    root: String,
    link: String,
}

impl View for UninstallRun {
    type V = UninstallState;

    closed spec fn view(&self) -> UninstallState {
        UninstallState {
            step: self.step,
            rooted: self.rooted,
            root: self.root@,
            link: self.link@,
        }
    }
}

impl UninstallRun {
    /// A run that has not begun.
    pub fn new() -> (run: UninstallRun)
        ensures
            run@ == UninstallState::initial(),
    {
        UninstallRun {
            step: UninstallStep::Idle,
            rooted: false,
            root: String::new(),
            link: String::new(),
        }
    }

    /// The step of the run.
    pub fn step(&self) -> (step: UninstallStep)
        ensures
            step == self@.step,
    {
        self.step
    }

    fn issue(self, step: UninstallStep, command: Command) -> (r: (UninstallRun, Command))
        ensures
            r.0@ == self@.at(step),
            r.1@ == command@,
    {
        (UninstallRun { step, ..self }, command)
    }

    fn probe(self, step: UninstallStep, link: String) -> (r: (UninstallRun, Command))
        ensures
            r.0@ == self@.seeking(link@).at(step),
            r.1@ == CommandView::Probe(link@),
    {
        let probed = link.clone();
        (UninstallRun { step, link, ..self }, Command::Probe(probed))
    }

    fn to_start_menu(self) -> (r: (UninstallRun, Command))
        ensures
            (r.0@, r.1@) == to_start_menu(self@),
    {
        self.issue(UninstallStep::FindingStartMenu, Command::FindRoamingAppData)
    }

    fn to_registry(self) -> (r: (UninstallRun, Command))
        ensures
            (r.0@, r.1@) == to_registry(self@),
    {
        self.issue(
            UninstallStep::Unregistering,
            Command::Unregister {
                parent: String::from_str(UNINSTALL_REGISTRY_KEY),
                name: String::from_str(APP_FOLDER_NAME),
            },
        )
    }

    /// Takes the outcome of the command that was handed out last, and hands
    /// out the next one. The first call starts the run, whatever `outcome`
    /// it is given.
    pub fn advance(self, outcome: Outcome) -> (r: (UninstallRun, Command))
        ensures
            (r.0@, r.1@) == uninstall_model(self@, outcome@),
    {
        match self.step {
            UninstallStep::Idle => self.issue(
                UninstallStep::FindingRoot,
                Command::FindLocalAppData,
            ),
            UninstallStep::FindingRoot => match outcome {
                Outcome::Found(dir) => {
                    let target = InstallTarget::locate(dir.as_str());
                    let run = UninstallRun { rooted: true, root: target.root, ..self };
                    run.issue(UninstallStep::FindingDesktop, Command::FindDesktop)
                },
                _ => self.issue(UninstallStep::FindingDesktop, Command::FindDesktop),
            },
            UninstallStep::FindingDesktop => match outcome {
                Outcome::Found(desktop) => {
                    let link = join_path(desktop.as_str(), SHORTCUT_FILE_NAME);
                    self.probe(UninstallStep::ProbingDesktopLink, link)
                },
                _ => self.to_start_menu(),
            },
            UninstallStep::ProbingDesktopLink => match outcome {
                Outcome::Exists(true) => {
                    let link = self.link.clone();
                    self.issue(UninstallStep::RemovingDesktopLink, Command::RemoveFile(link))
                },
                _ => self.to_start_menu(),
            },
            UninstallStep::RemovingDesktopLink => self.to_start_menu(),
            UninstallStep::FindingStartMenu => match outcome {
                Outcome::Found(roaming) => {
                    let folder = join_path(roaming.as_str(), START_MENU_FOLDER);
                    let link = join_path(folder.as_str(), SHORTCUT_FILE_NAME);
                    self.probe(UninstallStep::ProbingStartMenuLink, link)
                },
                _ => self.to_registry(),
            },
            UninstallStep::ProbingStartMenuLink => match outcome {
                Outcome::Exists(true) => {
                    let link = self.link.clone();
                    self.issue(UninstallStep::RemovingStartMenuLink, Command::RemoveFile(link))
                },
                _ => self.to_registry(),
            },
            UninstallStep::RemovingStartMenuLink => self.to_registry(),
            UninstallStep::Unregistering => if !self.rooted {
                self.issue(UninstallStep::Done, Command::Stop)
            } else {
                let script = write_removal_script(self.root.as_str());
                let command = Command::Run {
                    program: String::from_str(SCRIPT_HOST),
                    args: list_script_arguments(script),
                    wait: false,
                };
                self.issue(UninstallStep::SchedulingRemoval, command)
            },
            UninstallStep::SchedulingRemoval => self.issue(UninstallStep::Done, Command::Stop),
            UninstallStep::Done => (self, Command::Stop),
        }
    }
}

/// The state of an uninstall run that began at `s` and was given `outcomes`.
pub open spec fn uninstall_state_after(s: UninstallState, outcomes: Seq<OutcomeView>) -> UninstallState
    decreases outcomes.len(),
{
    if outcomes.len() == 0 {
        s
    } else {
        uninstall_model(uninstall_state_after(s, outcomes.drop_last()), outcomes.last()).0
    }
}

/// The command that an uninstall run which began at `s` hands out in answer
/// to the outcome `k` of `outcomes`.
pub open spec fn uninstall_command_at(s: UninstallState, outcomes: Seq<OutcomeView>, k: int) -> CommandView
    recommends
        0 <= k < outcomes.len(),
{
    uninstall_model(uninstall_state_after(s, outcomes.take(k)), outcomes[k]).1
}

/// How many steps an uninstall run at `step` is from having dealt with the
/// record at most.
pub open spec fn steps_to_record(step: UninstallStep) -> nat {
    match step {
        UninstallStep::Idle => 9,
        UninstallStep::FindingRoot => 8,
        UninstallStep::FindingDesktop => 7,
        UninstallStep::ProbingDesktopLink => 6,
        UninstallStep::RemovingDesktopLink => 5,
        UninstallStep::FindingStartMenu => 4,
        UninstallStep::ProbingStartMenuLink => 3,
        UninstallStep::RemovingStartMenuLink => 2,
        _ => 0,
    }
}

proof fn lemma_uninstall_next(s: UninstallState, outcomes: Seq<OutcomeView>, n: int)
    requires
        0 <= n < outcomes.len(),
    ensures
        uninstall_state_after(s, outcomes.take(n + 1)) == uninstall_model(
            uninstall_state_after(s, outcomes.take(n)),
            outcomes[n],
        ).0,
{
    assert(outcomes.take(n + 1).drop_last() =~= outcomes.take(n));
    assert(outcomes.take(n + 1).last() == outcomes[n]);
}

proof fn lemma_uninstall_reaches_record(s: UninstallState, outcomes: Seq<OutcomeView>, m: int) -> (k:
    int)
    requires
        0 <= m <= outcomes.len(),
        steps_to_record(uninstall_state_after(s, outcomes.take(m)).step) > 0,
        outcomes.len() - m > steps_to_record(uninstall_state_after(s, outcomes.take(m)).step),
    ensures
        m <= k < outcomes.len() - 1,
        uninstall_command_at(s, outcomes, k) == unregister_command(),
        uninstall_state_after(s, outcomes.take(k + 1)).step == UninstallStep::Unregistering,
        uninstall_state_after(s, outcomes.take(m)).step != UninstallStep::Idle
            && uninstall_state_after(s, outcomes.take(m)).step != UninstallStep::FindingRoot ==> {
            &&& uninstall_state_after(s, outcomes.take(k + 1)).rooted == uninstall_state_after(
                s,
                outcomes.take(m),
            ).rooted
            &&& uninstall_state_after(s, outcomes.take(k + 1)).root == uninstall_state_after(
                s,
                outcomes.take(m),
            ).root
        },
    decreases outcomes.len() - m,
{
    lemma_uninstall_next(s, outcomes, m);
    let next = uninstall_state_after(s, outcomes.take(m + 1));
    if next.step == UninstallStep::Unregistering {
        m
    } else {
        lemma_uninstall_reaches_record(s, outcomes, m + 1)
    }
}

/// An uninstall run deletes the registration record whatever becomes of the
/// steps before, and whether or not the user's local application data is
/// found: whatever the outcomes are, if there are ten of them at least, one
/// of them is answered with the command that deletes the record.
pub proof fn law_uninstall_always_unregisters(outcomes: Seq<OutcomeView>) -> (k: int)
    requires
        outcomes.len() >= 10,
    ensures
        0 <= k < outcomes.len() - 1,
        uninstall_command_at(UninstallState::initial(), outcomes, k) == unregister_command(),
{
    let s = UninstallState::initial();
    assert(outcomes.take(0).len() == 0);
    lemma_uninstall_reaches_record(s, outcomes, 0)
}

/// An uninstall run that finds the user's local application data has the
/// install directory below it removed, right after it has deleted the
/// record; one that does not find it leaves the directory alone and stops
/// there.
pub proof fn law_uninstall_removes_the_directory_it_knows(outcomes: Seq<OutcomeView>) -> (k: int)
    requires
        outcomes.len() >= 10,
    ensures
        2 <= k < outcomes.len() - 1,
        uninstall_command_at(UninstallState::initial(), outcomes, k) == unregister_command(),
        uninstall_command_at(UninstallState::initial(), outcomes, k + 1) == match outcomes[1] {
            OutcomeView::Found(local_app_data) => removal_command(install_root(local_app_data)),
            _ => CommandView::Stop,
        },
{
    let s = UninstallState::initial();
    assert(outcomes.take(0).len() == 0);
    lemma_uninstall_next(s, outcomes, 0);
    lemma_uninstall_next(s, outcomes, 1);
    let s2 = uninstall_state_after(s, outcomes.take(2));
    assert(s2.step == UninstallStep::FindingDesktop);
    lemma_uninstall_reaches_record(s, outcomes, 2)
}

/// An uninstall run removes each shortcut that it finds: where it has asked
/// whether a shortcut is there and is told that it is, its next command
/// removes that shortcut.
pub proof fn law_uninstall_removes_found_shortcuts(s: UninstallState, link: Seq<char>)
    requires
        s.step == UninstallStep::ProbingDesktopLink || s.step
            == UninstallStep::ProbingStartMenuLink,
        s.link == link,
    ensures
        uninstall_model(s, OutcomeView::Exists(true)).1 == CommandView::RemoveFile(link),
{
}

/// An uninstall run looks for both shortcuts where their folders are known:
/// told where the desktop is, it asks for the shortcut on it, and told where
/// the roaming application data is, it asks for the shortcut in the start
/// menu below it; and it then waits for the answer about that shortcut.
pub proof fn law_uninstall_looks_for_both_shortcuts(s: UninstallState, folder: Seq<char>)
    ensures
        s.step == UninstallStep::FindingDesktop ==> uninstall_model(
            s,
            OutcomeView::Found(folder),
        ).1 == CommandView::Probe(shortcut_in(folder)) && uninstall_model(
            s,
            OutcomeView::Found(folder),
        ).0.link == shortcut_in(folder) && uninstall_model(s, OutcomeView::Found(folder)).0.step
            == UninstallStep::ProbingDesktopLink,
        s.step == UninstallStep::FindingStartMenu ==> uninstall_model(
            s,
            OutcomeView::Found(folder),
        ).1 == CommandView::Probe(start_menu_link(folder)) && uninstall_model(
            s,
            OutcomeView::Found(folder),
        ).0.link == start_menu_link(folder) && uninstall_model(
            s,
            OutcomeView::Found(folder),
        ).0.step == UninstallStep::ProbingStartMenuLink,
{
}

} // verus!
