use randselect::{
    run, Cli, EntryKind, Event, InvalidInput, IoFailure, Marker, PathProbe, Phase, Progress,
    RandSelectError, ReadEntry, Request, Run, Stage, TransferOutcome,
};
use std::collections::{BTreeMap, BTreeSet};
use std::path::Path;

/// A file system in memory: directories, and files with their contents.
/// Operations on the listed paths fail.
#[derive(Debug, Clone, PartialEq, Eq, Default)]
struct Files {
    dirs: BTreeSet<String>,
    files: BTreeMap<String, String>,
    unreadable: BTreeSet<String>,
    copy_fails: BTreeSet<String>,
    delete_fails: BTreeSet<String>,
    create_fails: BTreeSet<String>,
}

fn parent(path: &str) -> &str {
    match path.rfind('/') {
        Some(at) => &path[..at],
        None => "",
    }
}

fn base(path: &str) -> &str {
    match path.rfind('/') {
        Some(at) => &path[at + 1..],
        None => path,
    }
}

impl Files {
    fn with(dir: &str, names: &[&str]) -> Files {
        let mut files = Files::default();
        files.dirs.insert(dir.to_string());
        for name in names {
            files
                .files
                .insert(format!("{}/{}", dir, name), format!("contents of {}", name));
        }
        files
    }

    fn names_in(&self, dir: &str) -> Vec<String> {
        self.files
            .keys()
            .filter(|path| parent(path) == dir)
            .map(|path| base(path).to_string())
            .collect()
    }

    fn has(&self, path: &str) -> bool {
        self.dirs.contains(path) || self.files.contains_key(path)
    }

    fn probe(&self, source: &str, dest: &str) -> PathProbe {
        PathProbe {
            source_is_dir: self.dirs.contains(source),
            source_resolved: self.has(source).then_some(format!("/root/{}", source)),
            dest_resolved: self.has(dest).then_some(format!("/root/{}", dest)),
        }
    }

    fn list(&self, source: &str) -> Result<Vec<ReadEntry>, String> {
        if self.unreadable.contains(source) {
            return Err("Permission denied".to_string());
        }
        let mut entries = Vec::new();
        for dir in self.dirs.iter().filter(|dir| parent(dir) == source) {
            entries.push(ReadEntry::Entry {
                name: base(dir).to_string(),
                path: dir.clone(),
                kind: Some(EntryKind::Directory),
            });
        }
        for path in self.files.keys().filter(|path| parent(path) == source) {
            entries.push(ReadEntry::Entry {
                name: base(path).to_string(),
                path: path.clone(),
                kind: Some(EntryKind::File),
            });
        }
        Ok(entries)
    }

    fn create_dir(&mut self, path: &str) -> Result<(), String> {
        if self.create_fails.contains(path) {
            return Err("Read-only file system".to_string());
        }
        self.dirs.insert(path.to_string());
        Ok(())
    }

    fn copy(&mut self, from: &str, to: &str) -> Result<(), String> {
        if self.copy_fails.contains(from) || !self.dirs.contains(parent(to)) {
            return Err("No such file or directory".to_string());
        }
        match self.files.get(from).cloned() {
            Some(contents) => {
                self.files.insert(to.to_string(), contents);
                Ok(())
            }
            None => Err("No such file or directory".to_string()),
        }
    }

    fn delete(&mut self, path: &str) -> Result<(), String> {
        if self.delete_fails.contains(path) {
            return Err("Permission denied".to_string());
        }
        match self.files.remove(path) {
            Some(_) => Ok(()),
            None => Err("No such file or directory".to_string()),
        }
    }
}

/// What a run asked for and showed while it was driven.
#[derive(Debug, Default)]
struct Record {
    requests: Vec<Request>,
    shown: Vec<String>,
}

/// Drives a run on the files in memory until it asks to finish.
fn drive(cli: &Cli, files: &mut Files) -> (Run, Record) {
    let mut record = Record::default();
    let mut state = run(cli);
    loop {
        let request = state.request();
        let event = match &request {
            Request::Probe { source, dest } => Event::Probed(files.probe(source, dest)),
            Request::List { source } => Event::Listed(files.list(source)),
            Request::Show { lines, hint } => {
                for line in lines {
                    record
                        .shown
                        .push(format!("{} {}", line.marker.symbol(), line.path));
                }
                if *hint {
                    record.shown.push(randselect::hint_text().to_string());
                }
                Event::Shown
            }
            Request::CreateDir { path } => Event::Performed(files.create_dir(path)),
            Request::Copy { from, to } => Event::Performed(files.copy(from, to)),
            Request::Delete { path } => Event::Performed(files.delete(path)),
            Request::Finish => {
                record.requests.push(request);
                return (state, record);
            }
        };
        record.requests.push(request);
        state = state.advance(event);
    }
}

/// Drives a dry run on the real file system. It reads only: a request to
/// write fails the test.
fn drive_dry(cli: &Cli) -> Result<(), RandSelectError> {
    let mut state = run(cli);
    loop {
        let event = match state.request() {
            Request::Probe { source, dest } => Event::Probed(PathProbe {
                source_is_dir: Path::new(&source).is_dir(),
                source_resolved: Path::new(&source)
                    .canonicalize()
                    .ok()
                    .map(|p| p.to_string_lossy().into_owned()),
                dest_resolved: Path::new(&dest)
                    .canonicalize()
                    .ok()
                    .map(|p| p.to_string_lossy().into_owned()),
            }),
            Request::List { source } => Event::Listed(match Path::new(&source).read_dir() {
                Ok(read) => Ok(read
                    .map(|item| match item {
                        Ok(entry) => ReadEntry::Entry {
                            name: entry.file_name().to_string_lossy().into_owned(),
                            path: entry.path().to_string_lossy().into_owned(),
                            kind: entry.file_type().ok().map(|kind| {
                                if kind.is_file() {
                                    EntryKind::File
                                } else if kind.is_dir() {
                                    EntryKind::Directory
                                } else if kind.is_symlink() {
                                    EntryKind::Symlink
                                } else {
                                    EntryKind::Other
                                }
                            }),
                        },
                        Err(_) => ReadEntry::Unreadable,
                    })
                    .collect()),
                Err(error) => Err(error.to_string()),
            }),
            Request::Show { lines, hint } => {
                for line in lines {
                    println!("{} {}", line.marker.symbol(), line.path);
                }
                if hint {
                    println!("{}", randselect::hint_text());
                }
                Event::Shown
            }
            Request::Finish => return state.result().expect("The run is over."),
            request => panic!("A dry run asked to write: {:?}.", request),
        };
        state = state.advance(event);
    }
}

fn cli(num_files: usize, move_files: bool, go: bool, seed: Option<u64>) -> Cli {
    Cli {
        in_dir: "in".to_string(),
        out_dir: "out".to_string(),
        num_files,
        move_files,
        go,
        seed,
    }
}

fn writes(request: &Request) -> bool {
    matches!(
        request,
        Request::CreateDir { .. } | Request::Copy { .. } | Request::Delete { .. }
    )
}

#[test]
fn runs_without_error() {
    let test_cli = Cli {
        out_dir: String::from(r"./test/"),
        in_dir: String::from(r"."),
        num_files: 10,
        move_files: false,
        go: false,
        seed: Some(8),
    };
    if let Err(e) = drive_dry(&test_cli) {
        panic!("Failed to run successfully: {:?}.", e)
    }
}

#[test]
fn runs_with_error() {
    let test_cli = Cli {
        out_dir: String::from(r"."),
        in_dir: String::from(r"."),
        num_files: 10,
        move_files: false,
        go: false,
        seed: Some(8),
    };
    if let Ok(_) = drive_dry(&test_cli) {
        panic!("Should have failed.")
    }
}

#[test]
fn dry_run_on_the_real_file_system_succeeds() {
    let test_cli = Cli {
        out_dir: String::from(r"./test/"),
        in_dir: String::from(r"."),
        num_files: 10,
        move_files: true,
        go: false,
        seed: None,
    };
    let existed = Path::new("./test/").exists();
    assert_eq!(drive_dry(&test_cli), Ok(()));
    assert_eq!(Path::new("./test/").exists(), existed);
}

#[test]
fn same_directory_on_the_real_file_system_fails_with_same_path() {
    let test_cli = Cli {
        out_dir: String::from(r"."),
        in_dir: String::from(r"."),
        num_files: 10,
        move_files: false,
        go: true,
        seed: Some(8),
    };
    assert_eq!(
        drive_dry(&test_cli),
        Err(RandSelectError::InvalidInput(InvalidInput::SamePath))
    );
}

#[test]
fn run_starts_by_examining_the_directories() {
    let state = run(&cli(2, false, true, Some(42)));
    assert_eq!(state.phase(), Phase::Validating);
    assert!(!state.is_finished());
    assert_eq!(state.result(), None);
    assert_eq!(
        state.request(),
        Request::Probe {
            source: "in".to_string(),
            dest: "out".to_string()
        }
    );
    assert!(state.plan().actions.is_empty());
    assert!(state.outcomes().is_empty());
}

#[test]
fn copy_of_two_out_of_three() {
    let mut files = Files::with("in", &["a.txt", "b.txt", "c.txt"]);
    let before = files.clone();
    let (state, record) = drive(&cli(2, false, true, Some(42)), &mut files);

    assert_eq!(state.result(), Some(Ok(())));
    assert!(files.dirs.contains("out"));
    assert_eq!(files.names_in("in"), vec!["a.txt", "b.txt", "c.txt"]);
    let copied = files.names_in("out");
    assert_eq!(copied.len(), 2);
    for name in &copied {
        assert_eq!(
            files.files[&format!("out/{}", name)],
            before.files[&format!("in/{}", name)]
        );
        assert_eq!(
            files.files[&format!("in/{}", name)],
            before.files[&format!("in/{}", name)]
        );
    }
    assert_eq!(
        state.outcomes(),
        &vec![TransferOutcome::Succeeded, TransferOutcome::Succeeded]
    );
    assert_eq!(record.shown.len(), 2);
    assert!(record.shown.iter().all(|line| line.starts_with("++ out/")));
}

#[test]
fn copy_of_two_out_of_three_step_by_step() {
    let mut files = Files::with("in", &["a.txt", "b.txt", "c.txt"]);
    let (state, record) = drive(&cli(2, false, true, Some(42)), &mut files);
    let plan = state.plan();
    assert_eq!(plan.actions.len(), 2);
    let first = &plan.actions[0];
    let second = &plan.actions[1];
    assert_eq!(first.dest, format!("out/{}", first.source.name));
    assert_eq!(second.dest, format!("out/{}", second.source.name));
    assert_eq!(
        record.requests,
        vec![
            Request::Probe {
                source: "in".to_string(),
                dest: "out".to_string()
            },
            Request::List {
                source: "in".to_string()
            },
            Request::Show {
                lines: vec![
                    randselect::PreviewLine {
                        marker: Marker::Addition,
                        path: first.dest.clone()
                    },
                    randselect::PreviewLine {
                        marker: Marker::Addition,
                        path: second.dest.clone()
                    },
                ],
                hint: false
            },
            Request::CreateDir {
                path: "out".to_string()
            },
            Request::Copy {
                from: first.source.path.clone(),
                to: first.dest.clone()
            },
            Request::Copy {
                from: second.source.path.clone(),
                to: second.dest.clone()
            },
            Request::Finish,
        ]
    );
}

#[test]
fn seed_42_selects_the_same_two_files_every_time() {
    let mut files = Files::with("in", &["a.txt", "b.txt", "c.txt"]);
    let (state, _) = drive(&cli(2, false, true, Some(42)), &mut files);
    let names: Vec<&str> = state
        .plan()
        .actions
        .iter()
        .map(|action| action.source.name.as_str())
        .collect();
    assert_eq!(names, vec!["c.txt", "b.txt"]);
}

#[test]
fn move_of_two_out_of_three() {
    let mut files = Files::with("in", &["a.txt", "b.txt", "c.txt"]);
    let before = files.clone();
    let (state, record) = drive(&cli(2, true, true, Some(42)), &mut files);

    assert_eq!(state.result(), Some(Ok(())));
    let moved = files.names_in("out");
    let kept = files.names_in("in");
    assert_eq!(moved.len(), 2);
    assert_eq!(kept.len(), 1);
    assert!(!moved.contains(&kept[0]));
    for name in &moved {
        assert!(!files.files.contains_key(&format!("in/{}", name)));
        assert_eq!(
            files.files[&format!("out/{}", name)],
            before.files[&format!("in/{}", name)]
        );
    }
    assert!(!files.files.contains_key(&format!("out/{}", kept[0])));
    assert_eq!(
        state.outcomes(),
        &vec![TransferOutcome::Succeeded, TransferOutcome::Succeeded]
    );
    assert_eq!(record.shown.len(), 4);
    assert!(record.shown[0].starts_with("-- in/"));
    assert!(record.shown[1].starts_with("++ out/"));
    assert!(record.shown[2].starts_with("-- in/"));
    assert!(record.shown[3].starts_with("++ out/"));
}

#[test]
fn move_deletes_each_source_right_after_its_copy() {
    let mut files = Files::with("in", &["a.txt", "b.txt", "c.txt"]);
    let (state, record) = drive(&cli(2, true, true, Some(42)), &mut files);
    let first = &state.plan().actions[0];
    let second = &state.plan().actions[1];
    assert_eq!(
        record.requests[3..],
        vec![
            Request::CreateDir {
                path: "out".to_string()
            },
            Request::Copy {
                from: first.source.path.clone(),
                to: first.dest.clone()
            },
            Request::Delete {
                path: first.source.path.clone()
            },
            Request::Copy {
                from: second.source.path.clone(),
                to: second.dest.clone()
            },
            Request::Delete {
                path: second.source.path.clone()
            },
            Request::Finish,
        ]
    );
}

#[test]
fn move_and_copy_select_the_same_files_for_one_seed() {
    let mut copied = Files::with("in", &["a.txt", "b.txt", "c.txt"]);
    let mut moved = copied.clone();
    drive(&cli(2, false, true, Some(42)), &mut copied);
    drive(&cli(2, true, true, Some(42)), &mut moved);
    assert_eq!(copied.names_in("out"), moved.names_in("out"));
}

#[test]
fn missing_source_fails_before_anything_is_listed() {
    let mut files = Files::with("elsewhere", &["a.txt"]);
    let before = files.clone();
    let (state, record) = drive(&cli(2, false, true, Some(42)), &mut files);

    assert_eq!(
        state.result(),
        Some(Err(RandSelectError::InvalidInput(
            InvalidInput::NotADirectory
        )))
    );
    assert_eq!(
        record.requests,
        vec![
            Request::Probe {
                source: "in".to_string(),
                dest: "out".to_string()
            },
            Request::Finish
        ]
    );
    assert_eq!(files, before);
    assert!(record.shown.is_empty());
    assert!(state.plan().actions.is_empty());
}

#[test]
fn source_that_is_a_file_is_refused() {
    let mut files = Files::with("", &["in"]);
    let (state, _) = drive(&cli(1, false, true, None), &mut files);
    assert_eq!(
        state.result(),
        Some(Err(RandSelectError::InvalidInput(
            InvalidInput::NotADirectory
        )))
    );
}

#[test]
fn same_directory_is_refused_by_the_run() {
    let mut files = Files::with("in", &["a.txt"]);
    let before = files.clone();
    let same = Cli {
        in_dir: "in".to_string(),
        out_dir: "in".to_string(),
        num_files: 1,
        move_files: true,
        go: true,
        seed: None,
    };
    let (state, record) = drive(&same, &mut files);
    assert_eq!(
        state.result(),
        Some(Err(RandSelectError::InvalidInput(InvalidInput::SamePath)))
    );
    assert_eq!(record.requests.len(), 2);
    assert_eq!(files, before);
}

#[test]
fn dry_run_changes_nothing() {
    for move_files in [false, true] {
        for seed in [None, Some(42)] {
            let mut files = Files::with("in", &["a.txt", "b.txt", "c.txt"]);
            let before = files.clone();
            let (state, record) = drive(&cli(2, move_files, false, seed), &mut files);
            assert_eq!(state.result(), Some(Ok(())));
            assert_eq!(files, before);
            assert!(!files.dirs.contains("out"));
            assert!(!record.requests.iter().any(writes));
            assert!(state.outcomes().is_empty());
            assert_eq!(state.plan().actions.len(), 2);
        }
    }
}

#[test]
fn dry_run_shows_the_plan_and_the_hint() {
    let mut files = Files::with("in", &["a.txt", "b.txt", "c.txt"]);
    let (state, record) = drive(&cli(3, true, false, Some(42)), &mut files);
    let mut expected = Vec::new();
    for action in &state.plan().actions {
        expected.push(format!("-- {}", action.source.path));
        expected.push(format!("++ {}", action.dest));
    }
    expected.push(
        "Re-run randselect with --go to write these changes to the filesystem.".to_string(),
    );
    assert_eq!(record.shown, expected);
    assert_eq!(record.shown.len(), 7);
}

#[test]
fn committed_run_shows_no_hint() {
    let mut files = Files::with("in", &["a.txt"]);
    let (_, record) = drive(&cli(1, false, true, Some(42)), &mut files);
    assert_eq!(record.shown, vec!["++ out/a.txt"]);
}

#[test]
fn nothing_requested_shows_only_the_hint() {
    let mut files = Files::with("in", &["a.txt", "b.txt", "c.txt"]);
    let before = files.clone();
    let (state, record) = drive(&cli(0, true, false, Some(42)), &mut files);
    assert_eq!(state.result(), Some(Ok(())));
    assert!(state.plan().actions.is_empty());
    assert_eq!(
        record.shown,
        vec!["Re-run randselect with --go to write these changes to the filesystem."]
    );
    assert_eq!(files, before);
}

#[test]
fn nothing_requested_and_committed_shows_nothing() {
    let mut files = Files::with("in", &["a.txt", "b.txt", "c.txt"]);
    let (state, record) = drive(&cli(0, false, true, Some(42)), &mut files);
    assert_eq!(state.result(), Some(Ok(())));
    assert!(state.plan().actions.is_empty());
    assert!(record.shown.is_empty());
    assert!(state.outcomes().is_empty());
    assert_eq!(files.names_in("out"), Vec::<String>::new());
    assert_eq!(
        record.requests[2..],
        vec![
            Request::Show {
                lines: vec![],
                hint: false
            },
            Request::CreateDir {
                path: "out".to_string()
            },
            Request::Finish,
        ]
    );
}

#[test]
fn more_requested_than_there_is_transfers_everything() {
    let mut files = Files::with("in", &["a.txt", "b.txt", "c.txt"]);
    let (state, _) = drive(&cli(10, true, true, None), &mut files);
    assert_eq!(state.result(), Some(Ok(())));
    assert_eq!(state.plan().actions.len(), 3);
    assert_eq!(files.names_in("out"), vec!["a.txt", "b.txt", "c.txt"]);
    assert_eq!(files.names_in("in"), Vec::<String>::new());
}

#[test]
fn subdirectories_are_no_candidates() {
    let mut files = Files::with("in", &["a.txt"]);
    files.dirs.insert("in/sub".to_string());
    files
        .files
        .insert("in/sub/deep.txt".to_string(), "deep".to_string());
    let (state, _) = drive(&cli(10, false, true, Some(1)), &mut files);
    assert_eq!(state.plan().actions.len(), 1);
    assert_eq!(files.names_in("out"), vec!["a.txt"]);
}

#[test]
fn existing_destination_is_used() {
    let mut files = Files::with("in", &["a.txt"]);
    files.dirs.insert("out".to_string());
    files
        .files
        .insert("out/old.txt".to_string(), "old".to_string());
    let (state, _) = drive(&cli(1, false, true, Some(1)), &mut files);
    assert_eq!(state.result(), Some(Ok(())));
    assert_eq!(files.names_in("out"), vec!["a.txt", "old.txt"]);
}

#[test]
fn unreadable_source_fails_the_run() {
    let mut files = Files::with("in", &["a.txt"]);
    files.unreadable.insert("in".to_string());
    let before = files.clone();
    let (state, record) = drive(&cli(1, false, true, Some(1)), &mut files);
    assert_eq!(
        state.result(),
        Some(Err(RandSelectError::IoError(IoFailure {
            stage: Stage::ReadDir,
            action: None,
            reason: "Permission denied".to_string(),
        })))
    );
    assert_eq!(record.requests.len(), 3);
    assert!(record.shown.is_empty());
    assert_eq!(files, before);
}

#[test]
fn destination_that_cannot_be_created_fails_the_run() {
    let mut files = Files::with("in", &["a.txt", "b.txt"]);
    files.create_fails.insert("out".to_string());
    let before = files.clone();
    let (state, record) = drive(&cli(2, true, true, Some(1)), &mut files);
    assert_eq!(
        state.result(),
        Some(Err(RandSelectError::IoError(IoFailure {
            stage: Stage::CreateDir,
            action: None,
            reason: "Read-only file system".to_string(),
        })))
    );
    assert!(state.outcomes().is_empty());
    assert_eq!(files, before);
    assert!(matches!(
        record.requests[record.requests.len() - 2],
        Request::CreateDir { .. }
    ));
}

#[test]
fn failed_copy_is_recorded_and_the_rest_goes_on() {
    let mut files = Files::with("in", &["a.txt", "b.txt", "c.txt"]);
    let (planned, _) = drive(&cli(3, true, false, Some(42)), &mut files.clone());
    let broken = planned.plan().actions[1].source.clone();
    files.copy_fails.insert(broken.path.clone());

    let (state, record) = drive(&cli(3, true, true, Some(42)), &mut files);
    let failure = IoFailure {
        stage: Stage::Copy,
        action: Some(1),
        reason: "No such file or directory".to_string(),
    };
    assert_eq!(
        state.outcomes(),
        &vec![
            TransferOutcome::Succeeded,
            TransferOutcome::Failed(failure.clone()),
            TransferOutcome::Succeeded,
        ]
    );
    assert_eq!(state.result(), Some(Err(RandSelectError::IoError(failure))));
    assert_eq!(files.names_in("in"), vec![broken.name.clone()]);
    assert_eq!(files.names_in("out").len(), 2);
    assert!(!files.names_in("out").contains(&broken.name));
    assert!(!record.requests.contains(&Request::Delete {
        path: broken.path.clone()
    }));
}

#[test]
fn failed_delete_keeps_the_copy() {
    let mut files = Files::with("in", &["a.txt", "b.txt", "c.txt"]);
    let (planned, _) = drive(&cli(3, true, false, Some(42)), &mut files.clone());
    let stuck = planned.plan().actions[0].source.clone();
    files.delete_fails.insert(stuck.path.clone());

    let (state, _) = drive(&cli(3, true, true, Some(42)), &mut files);
    let failure = IoFailure {
        stage: Stage::Delete,
        action: Some(0),
        reason: "Permission denied".to_string(),
    };
    assert_eq!(
        state.outcomes(),
        &vec![
            TransferOutcome::Failed(failure.clone()),
            TransferOutcome::Succeeded,
            TransferOutcome::Succeeded,
        ]
    );
    assert_eq!(state.result(), Some(Err(RandSelectError::IoError(failure))));
    assert_eq!(files.names_in("in"), vec![stuck.name.clone()]);
    assert_eq!(files.names_in("out"), vec!["a.txt", "b.txt", "c.txt"]);
}

#[test]
fn first_failure_is_the_result_of_the_run() {
    let mut files = Files::with("in", &["a.txt", "b.txt", "c.txt"]);
    let (planned, _) = drive(&cli(3, false, false, Some(42)), &mut files.clone());
    for action in &planned.plan().actions[1..] {
        files.copy_fails.insert(action.source.path.clone());
    }
    let (state, _) = drive(&cli(3, false, true, Some(42)), &mut files);
    assert_eq!(
        state.result(),
        Some(Err(RandSelectError::IoError(IoFailure {
            stage: Stage::Copy,
            action: Some(1),
            reason: "No such file or directory".to_string(),
        })))
    );
    assert_eq!(state.outcomes().len(), 3);
    assert_eq!(files.names_in("out").len(), 1);
}

#[test]
fn file_that_vanished_fails_only_its_own_transfer() {
    let mut files = Files::with("in", &["a.txt", "b.txt"]);
    let mut state = run(&cli(2, false, true, Some(42)));
    loop {
        let event = match state.request() {
            Request::Probe { source, dest } => Event::Probed(files.probe(&source, &dest)),
            Request::List { source } => {
                let listed = files.list(&source);
                files.files.remove("in/a.txt");
                Event::Listed(listed)
            }
            Request::Show { .. } => Event::Shown,
            Request::CreateDir { path } => Event::Performed(files.create_dir(&path)),
            Request::Copy { from, to } => Event::Performed(files.copy(&from, &to)),
            Request::Delete { path } => Event::Performed(files.delete(&path)),
            Request::Finish => break,
        };
        state = state.advance(event);
    }
    assert_eq!(files.names_in("out"), vec!["b.txt"]);
    assert!(matches!(
        state.result(),
        Some(Err(RandSelectError::IoError(IoFailure {
            stage: Stage::Copy,
            ..
        })))
    ));
    assert_eq!(
        state
            .outcomes()
            .iter()
            .filter(|outcome| **outcome == TransferOutcome::Succeeded)
            .count(),
        1
    );
}

#[test]
fn event_that_answers_nothing_is_ignored() {
    let state = run(&cli(2, false, true, Some(42)));
    let state = state.advance(Event::Shown);
    assert_eq!(state.phase(), Phase::Validating);
    let state = state.advance(Event::Performed(Ok(())));
    assert_eq!(state.phase(), Phase::Validating);
    let state = state.advance(Event::Listed(Ok(vec![])));
    assert_eq!(state.phase(), Phase::Validating);
    assert_eq!(state.result(), None);
}

#[test]
fn finished_run_stays_finished() {
    let mut files = Files::with("in", &["a.txt"]);
    let (state, _) = drive(&cli(1, false, true, Some(42)), &mut files);
    assert!(state.is_finished());
    let state = state.advance(Event::Performed(Err("late".to_string())));
    assert!(state.is_finished());
    assert_eq!(state.result(), Some(Ok(())));
    assert_eq!(state.request(), Request::Finish);
}

#[test]
fn phases_of_a_move() {
    let files = Files::with("in", &["a.txt"]);
    let state = run(&cli(1, true, true, Some(42)));
    let state = state.advance(Event::Probed(files.probe("in", "out")));
    assert_eq!(state.phase(), Phase::Listing);
    let state = state.advance(Event::Listed(files.list("in")));
    assert_eq!(state.phase(), Phase::Previewing);
    let state = state.advance(Event::Shown);
    assert_eq!(state.phase(), Phase::CreatingDestination);
    let state = state.advance(Event::Performed(Ok(())));
    assert_eq!(state.phase(), Phase::Copying(0));
    assert_eq!(
        state.request(),
        Request::Copy {
            from: "in/a.txt".to_string(),
            to: "out/a.txt".to_string()
        }
    );
    let state = state.advance(Event::Performed(Ok(())));
    assert_eq!(state.phase(), Phase::Deleting(0));
    assert_eq!(
        state.request(),
        Request::Delete {
            path: "in/a.txt".to_string()
        }
    );
    assert_eq!(state.result(), None);
    let state = state.advance(Event::Performed(Ok(())));
    assert_eq!(state.phase(), Phase::Finished);
    assert_eq!(state.outcomes(), &vec![TransferOutcome::Succeeded]);
}

#[test]
fn progress_of_a_move() {
    let files = Files::with("in", &["a.txt", "b.txt"]);
    let state = run(&cli(2, true, true, Some(42)));
    assert_eq!(state.progress(0), None);
    let state = state.advance(Event::Probed(files.probe("in", "out")));
    let state = state.advance(Event::Listed(files.list("in")));
    assert_eq!(state.progress(0), Some(Progress::Planned));
    assert_eq!(state.progress(1), Some(Progress::Planned));
    assert_eq!(state.progress(2), None);
    let state = state.advance(Event::Shown);
    let state = state.advance(Event::Performed(Ok(())));
    assert_eq!(state.progress(0), Some(Progress::Planned));
    let state = state.advance(Event::Performed(Ok(())));
    assert_eq!(state.progress(0), Some(Progress::Copied));
    assert_eq!(state.progress(1), Some(Progress::Planned));
    let state = state.advance(Event::Performed(Ok(())));
    assert_eq!(state.progress(0), Some(Progress::Deleted));
    assert_eq!(state.progress(1), Some(Progress::Planned));
    let state = state.advance(Event::Performed(Ok(())));
    assert_eq!(state.progress(1), Some(Progress::Copied));
    let state = state.advance(Event::Performed(Err("Permission denied".to_string())));
    assert_eq!(state.progress(0), Some(Progress::Deleted));
    assert_eq!(state.progress(1), Some(Progress::Kept));
    assert!(state.is_finished());
}

#[test]
fn progress_of_a_copy() {
    let files = Files::with("in", &["a.txt", "b.txt"]);
    let state = run(&cli(2, false, true, Some(42)));
    let state = state.advance(Event::Probed(files.probe("in", "out")));
    let state = state.advance(Event::Listed(files.list("in")));
    let state = state.advance(Event::Shown);
    let state = state.advance(Event::Performed(Ok(())));
    let state = state.advance(Event::Performed(Err("Disk full".to_string())));
    assert_eq!(state.progress(0), Some(Progress::Failed));
    assert_eq!(state.progress(1), Some(Progress::Planned));
    let state = state.advance(Event::Performed(Ok(())));
    assert_eq!(state.progress(0), Some(Progress::Failed));
    assert_eq!(state.progress(1), Some(Progress::Copied));
    assert!(state.is_finished());
    assert_eq!(
        state.result(),
        Some(Err(RandSelectError::IoError(IoFailure {
            stage: Stage::Copy,
            action: Some(0),
            reason: "Disk full".to_string(),
        })))
    );
}

#[test]
fn progress_of_a_dry_run_stays_planned() {
    let mut files = Files::with("in", &["a.txt", "b.txt"]);
    let (state, _) = drive(&cli(2, true, false, Some(42)), &mut files);
    assert_eq!(state.progress(0), Some(Progress::Planned));
    assert_eq!(state.progress(1), Some(Progress::Planned));
}

#[test]
fn configuration_is_copied_field_by_field() {
    let given = cli(3, true, false, Some(7));
    let copy = given.clone();
    assert_eq!(copy, given);
    assert_eq!(copy.in_dir, "in");
    assert_eq!(copy.out_dir, "out");
    assert_eq!(copy.num_files, 3);
    assert!(copy.move_files);
    assert!(!copy.go);
    assert_eq!(copy.seed, Some(7));
}
