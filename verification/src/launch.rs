//! What the program does at its beginning and at its end: the choice between
//! installing and uninstalling, the start of the installed product, and the
//! end of the process.

use vstd::prelude::*;
use vstd::string::*;

use crate::config::{EXECUTABLE_NAME, UNINSTALL_FLAG};
use crate::protocol::{Command, CommandView, Outcome, OutcomeView};
use crate::registrar::{install_root, texts, InstallTarget};
use crate::text::{joined, same_text};

verus! {

/// What the program was started for.
#[derive(Clone, Copy, Debug, PartialEq, Eq, Structural)]
pub enum Mode {
    /// To show the installer to the user.
    Install,
    /// To remove the product, with nothing shown.
    Uninstall,
}

/// Whether one of `args` is the flag that asks for removal.
pub open spec fn asks_for_uninstall(args: Seq<Seq<char>>) -> bool {
    exists|i: int| 0 <= i < args.len() && #[trigger] args[i] == UNINSTALL_FLAG@
}

impl Mode {
    /// Reads the mode off the arguments of the program: removal where one of
    /// them is the flag that asks for it, whichever one.
    pub fn from_args(args: &Vec<String>) -> (mode: Mode)
        ensures
            mode == Mode::Uninstall <==> asks_for_uninstall(texts(args@)),
    {
        let ghost all = texts(args@);
        let mut i: usize = 0;
        while i < args.len()
            invariant
                i <= args.len(),
                all == texts(args@),
                forall|j: int| 0 <= j < i ==> all[j] != UNINSTALL_FLAG@,
            decreases args.len() - i,
        {
            if same_text(args[i].as_str(), UNINSTALL_FLAG) {
                assert(all[i as int] == UNINSTALL_FLAG@);
                return Mode::Uninstall;
            }
            i = i + 1;
        }
        Mode::Install
    }
}

/// The command that a launch has handed out last.
#[derive(Clone, Copy, Debug, PartialEq, Eq, Structural)]
pub enum LaunchStep {
    /// Nothing has been handed out yet.
    Idle,
    FindingRoot,
    Probing,
    Starting,
    /// The end of the process has been asked for.
    Done,
}

/// What a launch knows, as a mathematical value.
pub struct LaunchState {
    pub step: LaunchStep,
    /// The file that starts the product, once it is known.
    pub executable: Seq<char>,
}

impl LaunchState {
    /// The state of a launch that has not begun.
    pub open spec fn initial() -> LaunchState {
        LaunchState { step: LaunchStep::Idle, executable: Seq::empty() }
    }

    /// This state at another step.
    pub open spec fn at(self, step: LaunchStep) -> LaunchState {
        LaunchState { step, ..self }
    }
}

/// The file that starts the product of a user whose local application data
/// is at `local_app_data`.
pub open spec fn installed_executable(local_app_data: Seq<char>) -> Seq<char> {
    joined(install_root(local_app_data), EXECUTABLE_NAME@)
}

/// One step of a launch: the installed product is started where it is found,
/// not waited for, and the process is ended in every case.
pub open spec fn launch_model(s: LaunchState, outcome: OutcomeView) -> (LaunchState, CommandView) {
    match s.step {
        LaunchStep::Idle => (s.at(LaunchStep::FindingRoot), CommandView::FindLocalAppData),
        LaunchStep::FindingRoot => match outcome {
            OutcomeView::Found(dir) => (
                LaunchState { step: LaunchStep::Probing, executable: installed_executable(dir) },
                CommandView::Probe(installed_executable(dir)),
            ),
            _ => (s.at(LaunchStep::Done), CommandView::Exit),
        },
        LaunchStep::Probing => match outcome {
            OutcomeView::Exists(true) => (
                s.at(LaunchStep::Starting),
                CommandView::Run { program: s.executable, args: Seq::empty(), wait: false },
            ),
            _ => (s.at(LaunchStep::Done), CommandView::Exit),
        },
        LaunchStep::Starting => (s.at(LaunchStep::Done), CommandView::Exit),
        LaunchStep::Done => (s, CommandView::Stop),
    }
}

/// The start of the installed product, followed by the end of the process.
pub struct Launch {
    step: LaunchStep,
    executable: String,
}

impl View for Launch {
    type V = LaunchState;

    closed spec fn view(&self) -> LaunchState {
        LaunchState { step: self.step, executable: self.executable@ }
    }
}

impl Launch {
    /// A launch that has not begun.
    pub fn new() -> (launch: Launch)
        ensures
            launch@ == LaunchState::initial(),
    {
        Launch { step: LaunchStep::Idle, executable: String::new() }
    }

    /// The step of the launch.
    pub fn step(&self) -> (step: LaunchStep)
        ensures
            step == self@.step,
    {
        self.step
    }

    /// Takes the outcome of the command that was handed out last, and hands
    /// out the next one. The first call starts the launch, whatever
    /// `outcome` it is given.
    pub fn advance(self, outcome: Outcome) -> (r: (Launch, Command))
        ensures
            (r.0@, r.1@) == launch_model(self@, outcome@),
    {
        match self.step {
            LaunchStep::Idle => (
                Launch { step: LaunchStep::FindingRoot, ..self },
                Command::FindLocalAppData,
            ),
            LaunchStep::FindingRoot => match outcome {
                Outcome::Found(dir) => {
                    let executable = InstallTarget::locate(dir.as_str()).executable_path();
                    let probed = executable.clone();
                    (Launch { step: LaunchStep::Probing, executable }, Command::Probe(probed))
                },
                _ => (Launch { step: LaunchStep::Done, ..self }, Command::Exit),
            },
            LaunchStep::Probing => match outcome {
                Outcome::Exists(true) => {
                    let program = self.executable.clone();
                    let args: Vec<String> = Vec::new();
                    assert(texts(args@) =~= Seq::<Seq<char>>::empty());
                    (
                        Launch { step: LaunchStep::Starting, ..self },
                        Command::Run { program, args, wait: false },
                    )
                },
                _ => (Launch { step: LaunchStep::Done, ..self }, Command::Exit),
            },
            LaunchStep::Starting => (Launch { step: LaunchStep::Done, ..self }, Command::Exit),
            LaunchStep::Done => (self, Command::Stop),
        }
    }
}

/// The command that closes the installer: the end of the process.
pub fn close() -> (command: Command)
    ensures
        command@ == CommandView::Exit,
{
    Command::Exit
}

/// A launch ends the process, whatever it finds: of any four outcomes, one
/// is answered with `Exit`, and nothing but `Stop` follows.
pub proof fn law_launch_always_exits(a: OutcomeView, b: OutcomeView, c: OutcomeView, d: OutcomeView)
    ensures
        ({
            let (s1, c1) = launch_model(LaunchState::initial(), a);
            let (s2, c2) = launch_model(s1, b);
            let (s3, c3) = launch_model(s2, c);
            let (s4, c4) = launch_model(s3, d);
            &&& c1 == CommandView::FindLocalAppData
            &&& (c2 == CommandView::Exit || c3 == CommandView::Exit || c4 == CommandView::Exit)
            &&& c2 == CommandView::Exit ==> c3 == CommandView::Stop && c4 == CommandView::Stop
            &&& c3 == CommandView::Exit ==> c4 == CommandView::Stop
            &&& s4.step == LaunchStep::Done
        }),
{
}

} // verus!
