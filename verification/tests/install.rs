use std::io::Write;

use installer_core::install::{InstallRun, Phase, Step};
use installer_core::progress::{Milestone, ProgressEvent, StatusKey};
use installer_core::protocol::{Command, Outcome};
use installer_core::registrar::RegistrationRecord;

const LOCAL: &str = "C:\\Users\\Ana\\AppData\\Local";
const ROOT: &str = "C:\\Users\\Ana\\AppData\\Local\\BattlyLauncher4Hytale";
const ROAMING: &str = "C:\\Users\\Ana\\AppData\\Roaming";
const DESKTOP: &str = "C:\\Users\\Ana\\Desktop";
const TEMP: &str = "C:\\Users\\Ana\\AppData\\Local\\Temp";
const OWN: &str = "C:\\Users\\Ana\\Downloads\\setup.exe";

/// A world that answers the commands of a run.
struct World {
    payload: Vec<u8>,
    declared: Option<u64>,
    chunk: usize,
    sent: usize,
    local: Option<String>,
    root_exists: bool,
    make_root: Outcome,
    connects: bool,
    writes_fail_at: Option<usize>,
    writes: usize,
    own: Option<String>,
    desktop: Option<String>,
    desktop_exists: bool,
    roaming: Option<String>,
    start_menu_exists: bool,
    temp: Option<String>,
    bundle_downloads: bool,
}

impl World {
    fn with(payload: Vec<u8>) -> World {
        let declared = Some(payload.len() as u64);
        World {
            payload,
            declared,
            chunk: 8192,
            sent: 0,
            local: Some(LOCAL.to_string()),
            root_exists: false,
            make_root: Outcome::Done,
            connects: true,
            writes_fail_at: None,
            writes: 0,
            own: Some(OWN.to_string()),
            desktop: Some(DESKTOP.to_string()),
            desktop_exists: true,
            roaming: Some(ROAMING.to_string()),
            start_menu_exists: true,
            temp: Some(TEMP.to_string()),
            bundle_downloads: true,
        }
    }

    fn found(place: &Option<String>) -> Outcome {
        match place {
            Some(path) => Outcome::Found(path.clone()),
            None => Outcome::Missing,
        }
    }

    fn answer(&mut self, command: &Command) -> Outcome {
        match command {
            Command::FindLocalAppData => World::found(&self.local),
            Command::FindRoamingAppData => World::found(&self.roaming),
            Command::FindDesktop => World::found(&self.desktop),
            Command::FindTempDir => World::found(&self.temp),
            Command::FindOwnExecutable => World::found(&self.own),
            Command::Probe(path) => {
                if path == ROOT {
                    Outcome::Exists(self.root_exists)
                } else if path == DESKTOP {
                    Outcome::Exists(self.desktop_exists)
                } else {
                    Outcome::Exists(self.start_menu_exists)
                }
            }
            Command::MakeDirs(path) if path == ROOT => self.make_root.clone(),
            Command::MakeDirs(_) | Command::WriteFile { .. } => {
                self.writes += 1;
                if self.writes_fail_at == Some(self.writes) {
                    Outcome::Failed("disk full".to_string())
                } else {
                    Outcome::Done
                }
            }
            Command::Fetch(_) => {
                if self.connects {
                    Outcome::Opened(self.declared)
                } else {
                    Outcome::Failed("no route".to_string())
                }
            }
            Command::Read => {
                let end = (self.sent + self.chunk).min(self.payload.len());
                let bytes = self.payload[self.sent..end].to_vec();
                self.sent = end;
                Outcome::Chunk(bytes)
            }
            Command::Download { .. } => {
                if self.bundle_downloads {
                    Outcome::Done
                } else {
                    Outcome::Failed("not found".to_string())
                }
            }
            _ => Outcome::Done,
        }
    }
}

/// Runs `run` in `world` until it hands out `Stop`, and lists what it handed
/// out before.
fn drive(run: InstallRun, world: &mut World) -> (InstallRun, Vec<Command>) {
    let mut run = run;
    let mut commands = Vec::new();
    let mut outcome = Outcome::Done;
    let mut steps = 0;
    loop {
        let (next, command) = run.advance(outcome);
        run = next;
        if command == Command::Stop {
            return (run, commands);
        }
        outcome = world.answer(&command);
        commands.push(command);
        steps += 1;
        assert!(steps < 100_000, "the run does not end");
    }
}

fn pack(files: &[(&str, &[u8])]) -> Vec<u8> {
    pack_with(zip::write::FileOptions::default(), files)
}

fn pack_with(options: zip::write::FileOptions, files: &[(&str, &[u8])]) -> Vec<u8> {
    let mut writer = zip::ZipWriter::new(std::io::Cursor::new(Vec::new()));
    for (name, content) in files {
        if name.ends_with('/') {
            writer.add_directory(*name, options).expect("directory is added");
        } else {
            writer.start_file(*name, options).expect("file is started");
            writer.write_all(content).expect("content is written");
        }
    }
    writer.finish().expect("archive is finished").into_inner()
}

fn small_payload() -> Vec<u8> {
    pack(&[
        ("Battly Launcher 4 Hytale.exe", b"MZ launcher"),
        ("resources/", b""),
        ("resources/app.asar", b"asar content"),
    ])
}

fn write(path: &str, data: &[u8]) -> Command {
    Command::WriteFile { path: path.to_string(), data: data.to_vec() }
}

fn writes_of(commands: &[Command]) -> Vec<Command> {
    commands
        .iter()
        .filter(|c| matches!(c, Command::WriteFile { .. } | Command::MakeDirs(_)))
        .filter(|c| **c != Command::MakeDirs(ROOT.to_string()))
        .cloned()
        .collect()
}

fn fractions_of(commands: &[Command]) -> Vec<u32> {
    let mut fractions = Vec::new();
    for command in commands {
        if let Command::Report(event) = command {
            fractions.push(event.fraction_ppm);
        }
    }
    fractions
}

fn count(commands: &[Command], wanted: &Command) -> usize {
    commands.iter().filter(|c| *c == wanted).count()
}

fn shortcut_run(link: &str) -> Command {
    let target = format!("{}\\Battly Launcher 4 Hytale.exe", ROOT);
    let script = format!(
        "$ws = New-Object -ComObject WScript.Shell; $s = $ws.CreateShortcut('{}'); $s.TargetPath = '{}'; $s.IconLocation = '{}'; $s.Save()",
        link, target, target
    );
    Command::Run {
        program: "powershell".to_string(),
        args: vec![
            "-NoProfile".to_string(),
            "-NonInteractive".to_string(),
            "-WindowStyle".to_string(),
            "Hidden".to_string(),
            "-Command".to_string(),
            script,
        ],
        wait: true,
    }
}

#[test]
fn new_run_is_idle() {
    let run = InstallRun::new(false);
    assert_eq!(run.phase(), Phase::Idle);
    assert_eq!(run.step(), Step::Idle);
    assert!(!run.is_halted());
    assert_eq!(run.reported_ppm(), 0);
}

#[test]
fn whole_run_hands_out_the_pipeline_in_order() {
    let payload = small_payload();
    let length = payload.len();
    let mut world = World::with(payload);
    world.chunk = length;
    let (run, commands) = drive(InstallRun::new(false), &mut world);
    let uninstaller = format!("{}\\uninstall.exe", ROOT);
    let expected = vec![
        Command::Track(Milestone::InstallStarted),
        Command::FindLocalAppData,
        Command::Track(Milestone::CleanupStarted),
        Command::Report(ProgressEvent::stage(StatusKey::Cleaning)),
        Command::Probe(ROOT.to_string()),
        Command::MakeDirs(ROOT.to_string()),
        Command::Track(Milestone::CleanupFinished),
        Command::Track(Milestone::DownloadStarted),
        Command::Report(ProgressEvent::stage(StatusKey::DownloadingStart)),
        Command::Detach,
        Command::Fetch(
            "https://github.com/1ly4s0/Battly4Hytale/releases/latest/download/BattlyLauncher-win.zip"
                .to_string(),
        ),
        Command::Read,
        Command::Read,
        Command::Track(Milestone::DownloadFinished),
        Command::Track(Milestone::ExtractStarted),
        Command::Report(ProgressEvent::stage(StatusKey::Extracting)),
        write(&format!("{}\\Battly Launcher 4 Hytale.exe", ROOT), b"MZ launcher"),
        Command::Track(Milestone::ExtractComplete),
        Command::Report(ProgressEvent {
            fraction_ppm: 600_000,
            status: StatusKey::Installing,
            detail: None,
        }),
        Command::MakeDirs(format!("{}\\resources/", ROOT)),
        Command::Track(Milestone::ExtractComplete),
        write(&format!("{}\\resources/app.asar", ROOT), b"asar content"),
        Command::Track(Milestone::ExtractComplete),
        Command::FindOwnExecutable,
        Command::Track(Milestone::UninstallerRegistered),
        Command::CopyFile { from: OWN.to_string(), to: uninstaller.clone() },
        Command::Register(RegistrationRecord::compose(ROOT, &uninstaller)),
        Command::Report(ProgressEvent::stage(StatusKey::Shortcuts)),
        Command::Track(Milestone::ShortcutsCreated),
        Command::FindDesktop,
        Command::Probe(DESKTOP.to_string()),
        shortcut_run(&format!("{}\\Battly Launcher.lnk", DESKTOP)),
        Command::FindRoamingAppData,
        Command::Probe(format!("{}\\Microsoft/Windows/Start Menu/Programs", ROAMING)),
        shortcut_run(&format!(
            "{}\\Microsoft/Windows/Start Menu/Programs\\Battly Launcher.lnk",
            ROAMING
        )),
        Command::Track(Milestone::InstallComplete),
        Command::Finish,
    ];
    assert_eq!(commands, expected);
    assert_eq!(run.phase(), Phase::Finished);
    assert!(!run.is_halted());
}

#[test]
fn finish_is_signalled_once_and_last() {
    for bundle in [false, true] {
        let mut world = World::with(small_payload());
        let (run, commands) = drive(InstallRun::new(bundle), &mut world);
        assert_eq!(count(&commands, &Command::Finish), 1);
        assert_eq!(commands.last(), Some(&Command::Finish));
        assert_eq!(run.step(), Step::Finished);
        let (run, after) = run.advance(Outcome::Done);
        assert_eq!(after, Command::Stop);
        let (_, after) = run.advance(Outcome::Failed("late".to_string()));
        assert_eq!(after, Command::Stop);
    }
}

#[test]
fn bundle_is_provided_where_it_was_asked_for() {
    let mut world = World::with(small_payload());
    let (_, commands) = drive(InstallRun::new(true), &mut world);
    assert_eq!(commands[1], Command::Track(Milestone::OperaAccepted));
    let setup = format!("{}\\OperaSetup.exe", TEMP);
    let tail = &commands[commands.len() - 8..];
    let expected = vec![
        Command::Report(ProgressEvent::stage(StatusKey::Opera)),
        Command::FindTempDir,
        Command::Download {
            url: "https://net.geo.opera.com/opera/stable/windows?utm_source=battly&utm_medium=installer&utm_campaign=battly_installer".to_string(),
            to: setup.clone(),
        },
        Command::Run {
            program: setup,
            args: vec!["/silent".to_string(), "/launch=0".to_string(), "/allusers=0".to_string()],
            wait: false,
        },
        Command::Track(Milestone::OperaInstalled),
        Command::Track(Milestone::InstallComplete),
        Command::Finish,
    ];
    assert_eq!(&tail[1..], &expected[..]);
}

#[test]
fn bundle_is_left_alone_where_it_was_not_asked_for() {
    let mut world = World::with(small_payload());
    let (_, commands) = drive(InstallRun::new(false), &mut world);
    assert_eq!(count(&commands, &Command::Track(Milestone::OperaAccepted)), 0);
    assert_eq!(count(&commands, &Command::FindTempDir), 0);
    assert!(!commands.iter().any(|c| matches!(c, Command::Download { .. })));
    assert!(fractions_of(&commands).iter().all(|f| *f != 980_000));
}

#[test]
fn run_finishes_although_the_bundle_cannot_be_fetched() {
    let mut world = World::with(small_payload());
    world.bundle_downloads = false;
    let (run, commands) = drive(InstallRun::new(true), &mut world);
    assert_eq!(count(&commands, &Command::Finish), 1);
    assert_eq!(commands.last(), Some(&Command::Finish));
    assert_eq!(run.phase(), Phase::Finished);
    assert!(commands.iter().any(|c| matches!(c, Command::Download { .. })));
    assert_eq!(count(&commands, &Command::Track(Milestone::OperaInstalled)), 0);
    assert!(!commands.iter().any(|c| matches!(c, Command::Run { wait: false, .. })));
    assert_eq!(count(&commands, &Command::Track(Milestone::InstallComplete)), 1);
}

#[test]
fn run_finishes_although_no_temporary_directory_is_known() {
    let mut world = World::with(small_payload());
    world.temp = None;
    let (_, commands) = drive(InstallRun::new(true), &mut world);
    assert_eq!(commands.last(), Some(&Command::Finish));
    assert!(!commands.iter().any(|c| matches!(c, Command::Download { .. })));
}

#[test]
fn half_of_a_million_bytes_is_reported_as_four_tenths() {
    let mut run = InstallRun::new(false);
    let mut outcome = Outcome::Done;
    loop {
        let (next, command) = run.advance(outcome);
        run = next;
        outcome = match command {
            Command::FindLocalAppData => Outcome::Found(LOCAL.to_string()),
            Command::Probe(_) => Outcome::Exists(false),
            Command::Fetch(_) => Outcome::Opened(Some(1_000_000)),
            Command::Read => break,
            _ => Outcome::Done,
        };
    }
    let mut received = 0;
    let mut reported = Vec::new();
    while received < 500_000 {
        let (next, command) = run.advance(Outcome::Chunk(vec![7u8; 4_000]));
        run = next;
        received += 4_000;
        if command != Command::Read {
            reported.push((received, command));
            let (next, command) = run.advance(Outcome::Done);
            run = next;
            assert_eq!(command, Command::Read);
        }
    }
    let last = reported.last().expect("something was reported");
    assert_eq!(last.0, 500_000);
    assert_eq!(
        last.1,
        Command::Report(ProgressEvent {
            fraction_ppm: 400_000,
            status: StatusKey::DownloadingPercent,
            detail: Some("50".to_string()),
        })
    );
    assert_eq!(run.reported_ppm(), 400_000);
    assert_eq!(run.reported_ppm() as f32 / 1_000_000.0, 0.2 + 0.4 * 0.5);
    let moments: Vec<usize> = reported.iter().map(|r| r.0).collect();
    assert_eq!(moments, vec![100_000, 200_000, 300_000, 400_000, 500_000]);
}

#[test]
fn reported_fractions_never_fall() {
    let mut content = Vec::new();
    let mut i: u32 = 0;
    while i < 350_000 {
        content.push((i.wrapping_mul(2_654_435_761) >> 24) as u8);
        i += 1;
    }
    let mut files: Vec<(String, Vec<u8>)> = Vec::new();
    files.push(("big.bin".to_string(), content));
    let mut n = 0;
    while n < 35 {
        files.push((format!("part/{}.txt", n), vec![n as u8; 10]));
        n += 1;
    }
    let borrowed: Vec<(&str, &[u8])> =
        files.iter().map(|(name, data)| (name.as_str(), data.as_slice())).collect();
    let stored =
        zip::write::FileOptions::default().compression_method(zip::CompressionMethod::Stored);
    let payload = pack_with(stored, &borrowed);
    assert!(payload.len() > 300_000);
    for bundle in [false, true] {
        let mut world = World::with(payload.clone());
        world.chunk = 25_000;
        let (_, commands) = drive(InstallRun::new(bundle), &mut world);
        let fractions = fractions_of(&commands);
        assert!(fractions.len() >= 10);
        assert_eq!(fractions[0], 100_000);
        for pair in fractions.windows(2) {
            assert!(pair[0] <= pair[1], "{} before {}", pair[0], pair[1]);
        }
        assert!(fractions.iter().all(|f| *f <= 1_000_000));
        assert!(fractions.iter().any(|f| *f > 200_000 && *f < 600_000));
        assert!(fractions.iter().any(|f| *f > 600_000 && *f < 900_000));
        assert_eq!(*fractions.last().expect("reports"), if bundle { 980_000 } else { 950_000 });
    }
}

#[test]
fn download_of_undeclared_length_reports_nothing_between() {
    let mut world = World::with(vec![0u8; 400_000]);
    world.declared = None;
    world.chunk = 100_000;
    let (run, commands) = drive(InstallRun::new(false), &mut world);
    assert_eq!(fractions_of(&commands), vec![100_000, 200_000, 600_000]);
    assert!(run.is_halted());
    assert_eq!(run.phase(), Phase::Extracting);
}

#[test]
fn without_local_application_data_the_caller_is_told() {
    let mut world = World::with(small_payload());
    world.local = None;
    let (run, commands) = drive(InstallRun::new(false), &mut world);
    assert_eq!(
        commands,
        vec![
            Command::Track(Milestone::InstallStarted),
            Command::FindLocalAppData,
            Command::Fail("No AppData found".to_string()),
        ]
    );
    assert!(run.is_halted());
    assert_eq!(run.phase(), Phase::Idle);
}

#[test]
fn old_installation_is_removed_before_the_new_one_is_made() {
    let mut world = World::with(small_payload());
    world.root_exists = true;
    let (_, commands) = drive(InstallRun::new(false), &mut world);
    let probe = commands.iter().position(|c| *c == Command::Probe(ROOT.to_string()));
    let remove = commands.iter().position(|c| *c == Command::RemoveTree(ROOT.to_string()));
    let make = commands.iter().position(|c| *c == Command::MakeDirs(ROOT.to_string()));
    let first_write = commands.iter().position(|c| matches!(c, Command::WriteFile { .. }));
    assert!(probe < remove);
    assert!(remove < make);
    assert!(make < first_write);
    assert_eq!(count(&commands, &Command::RemoveTree(ROOT.to_string())), 1);
}

#[test]
fn nothing_is_removed_where_nothing_was_installed() {
    let mut world = World::with(small_payload());
    world.root_exists = false;
    let (_, commands) = drive(InstallRun::new(false), &mut world);
    assert!(!commands.iter().any(|c| matches!(c, Command::RemoveTree(_))));
}

#[test]
fn second_run_hands_out_what_the_first_did() {
    let mut first_world = World::with(small_payload());
    let (_, first) = drive(InstallRun::new(true), &mut first_world);
    let mut second_world = World::with(small_payload());
    second_world.root_exists = true;
    let (_, second) = drive(InstallRun::new(true), &mut second_world);
    let without_removal: Vec<Command> =
        second.iter().filter(|c| !matches!(c, Command::RemoveTree(_))).cloned().collect();
    assert_eq!(without_removal, first);
    assert_eq!(writes_of(&first), writes_of(&second));
}

#[test]
fn failure_to_make_the_root_is_told_to_the_caller() {
    let mut world = World::with(small_payload());
    world.make_root = Outcome::Failed("Access is denied. (os error 5)".to_string());
    let (run, commands) = drive(InstallRun::new(false), &mut world);
    assert_eq!(
        commands.last(),
        Some(&Command::Fail("Access is denied. (os error 5)".to_string()))
    );
    assert!(!commands.contains(&Command::Detach));
    assert!(!commands.contains(&Command::Finish));
    assert!(run.is_halted());
    assert_eq!(run.phase(), Phase::Cleaning);
    assert_eq!(run.step(), Step::MakingRoot);
}

#[test]
fn failure_to_connect_stalls_the_run_in_silence() {
    let mut world = World::with(small_payload());
    world.connects = false;
    let (run, commands) = drive(InstallRun::new(false), &mut world);
    assert!(matches!(commands.last(), Some(Command::Fetch(_))));
    assert!(!commands.iter().any(|c| matches!(c, Command::Fail(_))));
    assert!(!commands.contains(&Command::Finish));
    assert!(run.is_halted());
    assert_eq!(run.phase(), Phase::Downloading);
    assert_eq!(run.reported_ppm(), 200_000);
}

#[test]
fn failure_while_reading_stalls_the_run() {
    let mut run = InstallRun::new(false);
    let mut outcome = Outcome::Done;
    loop {
        let (next, command) = run.advance(outcome);
        run = next;
        outcome = match command {
            Command::FindLocalAppData => Outcome::Found(LOCAL.to_string()),
            Command::Fetch(_) => Outcome::Opened(Some(10)),
            Command::Read => break,
            _ => Outcome::Done,
        };
    }
    let (run, command) = run.advance(Outcome::Chunk(vec![1, 2, 3]));
    assert_eq!(command, Command::Read);
    let (run, command) = run.advance(Outcome::Failed("connection reset".to_string()));
    assert_eq!(command, Command::Stop);
    assert!(run.is_halted());
    let (run, command) = run.advance(Outcome::Chunk(vec![4, 5]));
    assert_eq!(command, Command::Stop);
    assert_eq!(run.phase(), Phase::Downloading);
}

#[test]
fn payload_that_is_no_archive_stalls_the_run() {
    let mut world = World::with(b"<html>404</html>".to_vec());
    let (run, commands) = drive(InstallRun::new(true), &mut world);
    assert_eq!(commands.last(), Some(&Command::Report(ProgressEvent::stage(StatusKey::Extracting))));
    assert!(writes_of(&commands).is_empty());
    assert!(!commands.contains(&Command::Finish));
    assert!(run.is_halted());
    assert_eq!(run.phase(), Phase::Extracting);
}

#[test]
fn entry_that_climbs_out_is_passed_over_and_the_others_are_written() {
    let payload = pack(&[
        ("first.txt", b"1"),
        ("../evil.txt", b"evil"),
        ("dir/", b""),
        ("/abs.txt", b"evil too"),
        ("dir/last.txt", b"4"),
    ]);
    let mut world = World::with(payload);
    let (_, commands) = drive(InstallRun::new(false), &mut world);
    assert_eq!(
        writes_of(&commands),
        vec![
            write(&format!("{}\\first.txt", ROOT), b"1"),
            Command::MakeDirs(format!("{}\\dir/", ROOT)),
            write(&format!("{}\\dir/last.txt", ROOT), b"4"),
        ]
    );
    assert_eq!(count(&commands, &Command::Skipped("../evil.txt".to_string())), 1);
    assert_eq!(count(&commands, &Command::Skipped("/abs.txt".to_string())), 1);
    assert_eq!(count(&commands, &Command::Track(Milestone::ExtractComplete)), 3);
    assert_eq!(commands.last(), Some(&Command::Finish));
    for command in &commands {
        if let Command::WriteFile { path, data } = command {
            assert!(!path.contains("evil"));
            assert!(!path.contains("abs"));
            assert_ne!(data.as_slice(), b"evil");
        }
    }
}

#[test]
fn same_archive_without_the_climbing_entry_writes_the_same() {
    let with = pack(&[("a.txt", b"a"), ("../evil.txt", b"x"), ("b/c.txt", b"c")]);
    let without = pack(&[("a.txt", b"a"), ("b/c.txt", b"c")]);
    let (_, with_commands) = drive(InstallRun::new(false), &mut World::with(with));
    let (_, without_commands) = drive(InstallRun::new(false), &mut World::with(without));
    assert_eq!(writes_of(&with_commands), writes_of(&without_commands));
}

#[test]
fn every_file_of_the_archive_is_written_below_the_root_with_its_content() {
    let mut files: Vec<(String, Vec<u8>)> = Vec::new();
    let mut n: usize = 0;
    while n < 23 {
        files.push((format!("dir{}/file{}.dat", n % 4, n), vec![n as u8; n * 37]));
        n += 1;
    }
    let borrowed: Vec<(&str, &[u8])> =
        files.iter().map(|(name, data)| (name.as_str(), data.as_slice())).collect();
    let mut world = World::with(pack(&borrowed));
    let (_, commands) = drive(InstallRun::new(false), &mut world);
    let expected: Vec<Command> =
        files.iter().map(|(name, data)| write(&format!("{}\\{}", ROOT, name), data)).collect();
    assert_eq!(writes_of(&commands), expected);
    assert_eq!(count(&commands, &Command::Track(Milestone::ExtractComplete)), 23);
    assert!(!commands.iter().any(|c| matches!(c, Command::Skipped(_))));
}

#[test]
fn extraction_is_reported_at_every_tenth_entry() {
    let mut files: Vec<(String, Vec<u8>)> = Vec::new();
    let mut n: usize = 0;
    while n < 25 {
        files.push((format!("f{}", n), vec![1]));
        n += 1;
    }
    let borrowed: Vec<(&str, &[u8])> =
        files.iter().map(|(name, data)| (name.as_str(), data.as_slice())).collect();
    let mut world = World::with(pack(&borrowed));
    world.declared = None;
    let (_, commands) = drive(InstallRun::new(false), &mut world);
    assert_eq!(
        fractions_of(&commands),
        vec![100_000, 200_000, 600_000, 600_000, 720_000, 840_000, 950_000]
    );
    let installing: Vec<&Command> = commands
        .iter()
        .filter(|c| matches!(c, Command::Report(e) if e.status == StatusKey::Installing))
        .collect();
    assert_eq!(installing.len(), 3);
}

#[test]
fn empty_archive_goes_straight_on_to_registering() {
    let mut world = World::with(pack(&[]));
    let (_, commands) = drive(InstallRun::new(false), &mut world);
    assert!(writes_of(&commands).is_empty());
    assert_eq!(count(&commands, &Command::Track(Milestone::ExtractComplete)), 0);
    assert_eq!(commands.last(), Some(&Command::Finish));
}

#[test]
fn failed_write_stalls_the_run() {
    let mut world = World::with(small_payload());
    world.writes_fail_at = Some(2);
    let (run, commands) = drive(InstallRun::new(false), &mut world);
    assert_eq!(commands.last(), Some(&Command::MakeDirs(format!("{}\\resources/", ROOT))));
    assert_eq!(writes_of(&commands).len(), 2);
    assert!(!commands.contains(&Command::Finish));
    assert!(!commands.contains(&Command::FindOwnExecutable));
    assert!(run.is_halted());
    assert_eq!(run.phase(), Phase::Extracting);
}

#[test]
fn damaged_entry_stalls_the_run_after_the_entries_before_it() {
    let options =
        zip::write::FileOptions::default().compression_method(zip::CompressionMethod::Stored);
    let mut writer = zip::ZipWriter::new(std::io::Cursor::new(Vec::new()));
    writer.start_file("good.txt", options).expect("file is started");
    writer.write_all(b"good").expect("content is written");
    writer.start_file("bad.txt", options).expect("file is started");
    writer.write_all(b"MARKER-THAT-IS-DAMAGED").expect("content is written");
    writer.start_file("never.txt", options).expect("file is started");
    writer.write_all(b"never").expect("content is written");
    let mut payload = writer.finish().expect("archive is finished").into_inner();
    let marker = b"MARKER-THAT-IS-DAMAGED";
    let at = payload.windows(marker.len()).position(|w| w == marker).expect("marker is there");
    payload[at + 3] ^= 0x55;
    let (run, commands) = drive(InstallRun::new(false), &mut World::with(payload));
    assert_eq!(writes_of(&commands), vec![write(&format!("{}\\good.txt", ROOT), b"good")]);
    assert!(!commands.contains(&Command::Finish));
    assert!(run.is_halted());
}

#[test]
fn record_is_written_although_the_own_file_is_unknown() {
    let mut world = World::with(small_payload());
    world.own = None;
    let (_, commands) = drive(InstallRun::new(false), &mut world);
    assert_eq!(count(&commands, &Command::Track(Milestone::UninstallerRegistered)), 0);
    assert!(!commands.iter().any(|c| matches!(c, Command::CopyFile { .. })));
    let uninstaller = format!("{}\\uninstall.exe", ROOT);
    assert_eq!(
        count(&commands, &Command::Register(RegistrationRecord::compose(ROOT, &uninstaller))),
        1
    );
    let find = commands.iter().position(|c| *c == Command::FindOwnExecutable);
    let register = commands.iter().position(|c| matches!(c, Command::Register(_)));
    assert_eq!(register, find.map(|at| at + 1));
    assert_eq!(count(&commands, &Command::Track(Milestone::ShortcutsCreated)), 1);
    assert_eq!(commands.last(), Some(&Command::Finish));
}

#[test]
fn shortcuts_are_left_out_where_their_folders_are_unknown() {
    let mut world = World::with(small_payload());
    world.desktop = None;
    world.roaming = None;
    let (_, commands) = drive(InstallRun::new(false), &mut world);
    assert!(!commands.iter().any(|c| matches!(c, Command::Run { .. })));
    assert_eq!(count(&commands, &Command::FindDesktop), 1);
    assert_eq!(count(&commands, &Command::FindRoamingAppData), 1);
    assert_eq!(commands.last(), Some(&Command::Finish));
}

#[test]
fn start_menu_shortcut_is_left_out_where_the_start_menu_is_not_there() {
    let mut world = World::with(small_payload());
    world.start_menu_exists = false;
    let (_, commands) = drive(InstallRun::new(false), &mut world);
    let runs: Vec<&Command> =
        commands.iter().filter(|c| matches!(c, Command::Run { .. })).collect();
    assert_eq!(runs, vec![&shortcut_run(&format!("{}\\Battly Launcher.lnk", DESKTOP))]);
    assert_eq!(commands.last(), Some(&Command::Finish));
}

#[test]
fn best_effort_steps_go_on_after_failure() {
    let mut run = InstallRun::new(true);
    let mut world = World::with(small_payload());
    let mut commands = Vec::new();
    let mut outcome = Outcome::Done;
    loop {
        let (next, command) = run.advance(outcome);
        run = next;
        if command == Command::Stop {
            break;
        }
        outcome = match &command {
            Command::RemoveTree(_)
            | Command::CopyFile { .. }
            | Command::Register(_)
            | Command::Run { .. }
            | Command::Track(_)
            | Command::Report(_) => Outcome::Failed("refused".to_string()),
            other => world.answer(other),
        };
        commands.push(command);
    }
    assert_eq!(commands.last(), Some(&Command::Finish));
    assert_eq!(count(&commands, &Command::Finish), 1);
    assert!(commands.iter().any(|c| matches!(c, Command::Register(_))));
    assert_eq!(count(&commands, &Command::Track(Milestone::OperaInstalled)), 1);
}

fn phases_of_a_run(bundle: bool) -> Vec<Phase> {
    let mut run = InstallRun::new(bundle);
    let mut world = World::with(small_payload());
    let mut phases = vec![run.phase()];
    let mut outcome = Outcome::Done;
    loop {
        let (next, command) = run.advance(outcome);
        run = next;
        if *phases.last().expect("phases") != run.phase() {
            phases.push(run.phase());
        }
        if command == Command::Stop {
            return phases;
        }
        outcome = world.answer(&command);
    }
}

#[test]
fn phases_follow_one_another() {
    assert_eq!(
        phases_of_a_run(true),
        vec![
            Phase::Idle,
            Phase::Cleaning,
            Phase::Downloading,
            Phase::Extracting,
            Phase::Registering,
            Phase::ProvisioningBundle,
            Phase::Finished,
        ]
    );
}

#[test]
fn phases_leave_out_the_bundle_where_it_was_not_asked_for() {
    assert_eq!(
        phases_of_a_run(false),
        vec![
            Phase::Idle,
            Phase::Cleaning,
            Phase::Downloading,
            Phase::Extracting,
            Phase::Registering,
            Phase::Finished,
        ]
    );
}

#[test]
fn file_entry_is_written_below_the_root() {
    let reading = installer_core::archive::EntryReading::File {
        name: "bin/app.exe".to_string(),
        data: vec![1, 2, 3],
    };
    assert_eq!(
        installer_core::install::command_for_entry("C:\\R", reading),
        write("C:\\R\\bin/app.exe", &[1, 2, 3])
    );
}

#[test]
fn directory_entry_is_made_below_the_root() {
    let reading = installer_core::archive::EntryReading::Directory { name: "bin/".to_string() };
    assert_eq!(
        installer_core::install::command_for_entry("C:\\R", reading),
        Command::MakeDirs("C:\\R\\bin/".to_string())
    );
}

#[test]
fn rejected_entry_is_only_noted() {
    let reading =
        installer_core::archive::EntryReading::Rejected { name: "../x".to_string() };
    assert_eq!(
        installer_core::install::command_for_entry("C:\\R", reading),
        Command::Skipped("../x".to_string())
    );
}

#[test]
fn unreadable_entry_stops_the_run() {
    assert_eq!(
        installer_core::install::command_for_entry(
            "C:\\R",
            installer_core::archive::EntryReading::Unreadable
        ),
        Command::Stop
    );
}

#[test]
fn desktop_that_is_not_there_is_passed_over_and_not_made() {
    let mut world = World::with(small_payload());
    world.desktop_exists = false;
    let (_, commands) = drive(InstallRun::new(false), &mut world);
    let find = commands.iter().position(|c| *c == Command::FindDesktop).expect("desktop is asked for");
    assert_eq!(commands[find + 1], Command::Probe(DESKTOP.to_string()));
    assert_eq!(commands[find + 2], Command::FindRoamingAppData);
    let desktop_link = format!("{}\\Battly Launcher.lnk", DESKTOP);
    assert_eq!(count(&commands, &shortcut_run(&desktop_link)), 0);
    assert_eq!(count(&commands, &Command::MakeDirs(DESKTOP.to_string())), 0);
    let runs: Vec<&Command> =
        commands.iter().filter(|c| matches!(c, Command::Run { .. })).collect();
    assert_eq!(
        runs,
        vec![&shortcut_run(&format!(
            "{}\\Microsoft/Windows/Start Menu/Programs\\Battly Launcher.lnk",
            ROAMING
        ))]
    );
    assert_eq!(commands.last(), Some(&Command::Finish));
}

#[test]
fn desktop_shortcut_is_made_only_after_the_desktop_was_found_there() {
    let mut world = World::with(small_payload());
    let (_, commands) = drive(InstallRun::new(false), &mut world);
    let probe = commands.iter().position(|c| *c == Command::Probe(DESKTOP.to_string()));
    let link = commands
        .iter()
        .position(|c| *c == shortcut_run(&format!("{}\\Battly Launcher.lnk", DESKTOP)));
    assert!(probe.is_some());
    assert_eq!(link, probe.map(|at| at + 1));
}

#[test]
fn entry_that_climbs_out_by_backslashes_is_passed_over() {
    let payload = pack(&[("a\\..\\..\\evil.txt", b"evil"), ("fine.txt", b"fine")]);
    let (_, commands) = drive(InstallRun::new(false), &mut World::with(payload));
    assert_eq!(writes_of(&commands), vec![write(&format!("{}\\fine.txt", ROOT), b"fine")]);
    assert_eq!(count(&commands, &Command::Skipped("a\\..\\..\\evil.txt".to_string())), 1);
}
