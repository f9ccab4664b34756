//! The words in which a run and the program around it speak to each other.
//!
//! A run decides; it touches nothing outside the process. Whatever has to be
//! done there it hands out as a [`Command`], and it takes back an [`Outcome`]
//! that says how the command went. The program around it carries out each
//! command and asks for the next one, until the command is [`Command::Stop`].

use vstd::prelude::*;

use crate::progress::{Milestone, ProgressEvent, ProgressEventView};
use crate::registrar::{texts, RegistrationRecord, RegistrationRecordView};

verus! {

/// Something to be done outside the process.
#[derive(Clone, Debug, PartialEq, Eq)]
pub enum Command {
    /// Record a milestone for analytics. Nothing comes back.
    Track(Milestone),
    /// Tell the observer how far the run is. Nothing comes back.
    Report(ProgressEvent),
    /// Find the user's local application data.
    FindLocalAppData,
    /// Find the user's roaming application data.
    FindRoamingAppData,
    /// Find the user's desktop.
    FindDesktop,
    /// Find the directory for temporary files.
    FindTempDir,
    /// Find the file of the running program.
    FindOwnExecutable,
    /// Find out whether the path exists.
    Probe(String),
    /// Remove the directory with all it holds.
    RemoveTree(String),
    /// Make the directory, and those above it that are missing.
    MakeDirs(String),
    /// Write the file in full, in place of what is there, after making the
    /// directories above it that are missing.
    WriteFile { path: String, data: Vec<u8> },
    /// Remove the file.
    RemoveFile(String),
    /// Copy a file.
    CopyFile { from: String, to: String },
    /// Go on in the background, and let the caller return.
    Detach,
    /// Ask for what the address holds.
    Fetch(String),
    /// Read on from what was asked for.
    Read,
    /// Store what the address holds in a file.
    Download { url: String, to: String },
    /// Write the registration record.
    Register(RegistrationRecord),
    /// Delete the key `name` below the registry key `parent`.
    Unregister { parent: String, name: String },
    /// Start a program, and wait for its end where `wait` is set.
    Run { program: String, args: Vec<String>, wait: bool },
    /// An entry of the archive was passed over: nothing is to be done.
    Skipped(String),
    /// Tell the observer that the run has finished.
    Finish,
    /// Tell the caller that the run has failed.
    Fail(String),
    /// End the process.
    Exit,
    /// Nothing is left to do.
    Stop,
}

/// A command as a mathematical value.
pub enum CommandView {
    Track(Milestone),
    Report(ProgressEventView),
    FindLocalAppData,
    FindRoamingAppData,
    FindDesktop,
    FindTempDir,
    FindOwnExecutable,
    Probe(Seq<char>),
    RemoveTree(Seq<char>),
    MakeDirs(Seq<char>),
    WriteFile { path: Seq<char>, data: Seq<u8> },
    RemoveFile(Seq<char>),
    CopyFile { from: Seq<char>, to: Seq<char> },
    Detach,
    Fetch(Seq<char>),
    Read,
    Download { url: Seq<char>, to: Seq<char> },
    Register(RegistrationRecordView),
    Unregister { parent: Seq<char>, name: Seq<char> },
    Run { program: Seq<char>, args: Seq<Seq<char>>, wait: bool },
    Skipped(Seq<char>),
    Finish,
    Fail(Seq<char>),
    Exit,
    Stop,
}

impl CommandView {
    /// Whether the command writes a file or makes a directory.
    pub open spec fn writes(self) -> bool {
        self is WriteFile || self is MakeDirs
    }
}

impl View for Command {
    type V = CommandView;

    open spec fn view(&self) -> CommandView {
        match self {
            Command::Track(milestone) => CommandView::Track(*milestone),
            Command::Report(event) => CommandView::Report(event@),
            Command::FindLocalAppData => CommandView::FindLocalAppData,
            Command::FindRoamingAppData => CommandView::FindRoamingAppData,
            Command::FindDesktop => CommandView::FindDesktop,
            Command::FindTempDir => CommandView::FindTempDir,
            Command::FindOwnExecutable => CommandView::FindOwnExecutable,
            Command::Probe(path) => CommandView::Probe(path@),
            Command::RemoveTree(path) => CommandView::RemoveTree(path@),
            Command::MakeDirs(path) => CommandView::MakeDirs(path@),
            Command::WriteFile { path, data } => CommandView::WriteFile {
                path: path@,
                data: data@,
            },
            Command::RemoveFile(path) => CommandView::RemoveFile(path@),
            Command::CopyFile { from, to } => CommandView::CopyFile { from: from@, to: to@ },
            Command::Detach => CommandView::Detach,
            Command::Fetch(url) => CommandView::Fetch(url@),
            Command::Read => CommandView::Read,
            Command::Download { url, to } => CommandView::Download { url: url@, to: to@ },
            Command::Register(record) => CommandView::Register(record@),
            Command::Unregister { parent, name } => CommandView::Unregister {
                parent: parent@,
                name: name@,
            },
            Command::Run { program, args, wait } => CommandView::Run {
                program: program@,
                args: texts(args@),
                wait: *wait,
            },
            Command::Skipped(name) => CommandView::Skipped(name@),
            Command::Finish => CommandView::Finish,
            Command::Fail(reason) => CommandView::Fail(reason@),
            Command::Exit => CommandView::Exit,
            Command::Stop => CommandView::Stop,
        }
    }
}

/// How a command went.
#[derive(Clone, Debug, PartialEq, Eq)]
pub enum Outcome {
    /// It was carried out, or nothing was to come back.
    Done,
    /// It could not be carried out, for the reason given.
    Failed(String),
    /// What was looked for is at this path.
    Found(String),
    /// What was looked for is not known.
    Missing,
    /// Whether the path exists.
    Exists(bool),
    /// The address answers, and may have said how many bytes it will send.
    Opened(Option<u64>),
    /// The bytes that were read; none at the end of what is sent.
    Chunk(Vec<u8>),
}

/// An outcome as a mathematical value.
pub enum OutcomeView {
    Done,
    Failed(Seq<char>),
    Found(Seq<char>),
    Missing,
    Exists(bool),
    Opened(Option<u64>),
    Chunk(Seq<u8>),
}

impl View for Outcome {
    type V = OutcomeView;

    open spec fn view(&self) -> OutcomeView {
        match self {
            Outcome::Done => OutcomeView::Done,
            Outcome::Failed(reason) => OutcomeView::Failed(reason@),
            Outcome::Found(path) => OutcomeView::Found(path@),
            Outcome::Missing => OutcomeView::Missing,
            Outcome::Exists(present) => OutcomeView::Exists(*present),
            Outcome::Opened(length) => OutcomeView::Opened(*length),
            Outcome::Chunk(bytes) => OutcomeView::Chunk(bytes@),
        }
    }
}

} // verus!
