use std::collections::BTreeMap;

use organizer::actions::{FsOp, PathState};
use organizer::batch::{Reply, Request};
use organizer::config::{self, CopyConfig, Filters, MoveConfig, Rule, Target};
use organizer::utils::{EntryStat, FileMetaData};
use organizer::{conclude, start_rule, RuleOutcome, WalkEntry};

/// A tiny in-memory filesystem: each path maps to the file's content, or to
/// `None` for a directory.
struct Disk {
    entries: BTreeMap<String, Option<String>>,
    log: Vec<String>,
}

impl Disk {
    fn new() -> Disk {
        let mut entries = BTreeMap::new();
        entries.insert("/tmp/in".to_string(), None);
        entries.insert("/tmp/in/a.txt".to_string(), Some("alpha".to_string()));
        entries.insert("/tmp/in/b.log".to_string(), Some("beta".to_string()));
        entries.insert("/tmp/in/sub".to_string(), None);
        entries.insert("/tmp/in/sub/c.txt".to_string(), Some("gamma".to_string()));
        Disk { entries, log: vec![] }
    }

    fn depth_of(path: &str) -> usize {
        path.trim_start_matches("/tmp/in").matches('/').count()
    }

    fn walk(&self) -> Vec<WalkEntry> {
        self.entries
            .iter()
            .filter(|(p, _)| p.starts_with("/tmp/in"))
            .map(|(p, c)| {
                let stat = EntryStat {
                    is_dir: c.is_none(),
                    is_file: c.is_some(),
                    is_symlink: false,
                    size: 0,
                    mode: 0o644,
                    owner_uid: 0,
                    owner_gid: 0,
                    created: None,
                    modified: None,
                };
                WalkEntry { meta: FileMetaData::from_stat(p, None, stat), depth: Disk::depth_of(p) }
            })
            .collect()
    }

    fn state(&self, p: &str) -> PathState {
        match self.entries.get(p) {
            None => PathState::Missing,
            Some(None) => PathState::Directory,
            Some(Some(_)) => PathState::NotDirectory,
        }
    }

    fn perform(&mut self, op: &FsOp) -> Result<(), String> {
        self.log.push(format!("{:?}", op));
        match op {
            FsOp::CreateDirAll(p) => {
                self.entries.insert(p.clone(), None);
                Ok(())
            },
            FsOp::Rename { from, to } => match self.entries.remove(from) {
                Some(c) => {
                    self.entries.insert(to.clone(), c);
                    Ok(())
                },
                None => Err(format!("{} is gone", from)),
            },
            FsOp::CopyFile { from, to } => match self.entries.get(from).cloned() {
                Some(c) => {
                    self.entries.insert(to.clone(), c);
                    Ok(())
                },
                None => Err(format!("{} is gone", from)),
            },
            FsOp::RemoveFile(p) | FsOp::RemoveDirAll(p) => {
                let prefix = format!("{}/", p);
                let before = self.entries.len();
                self.entries.retain(|k, _| k != p && !k.starts_with(&prefix));
                if self.entries.len() < before { Ok(()) } else { Err(format!("{} is gone", p)) }
            },
        }
    }

    fn run(&mut self, rule: &Rule) -> RuleOutcome {
        let entries = self.walk();
        let mut batch = match start_rule(rule, &entries) {
            Some(b) => b,
            None => return conclude(0, vec![]),
        };
        let count = batch.matches.len();
        let mut reply = Reply::Begin;
        loop {
            reply = match batch.step(reply) {
                Request::Inspect(p) => Reply::State(self.state(&p)),
                Request::Probe(p) => Reply::Exists(self.entries.contains_key(&p)),
                Request::Perform(op) => Reply::Finished(self.perform(&op)),
                Request::Done(errors) => return conclude(count, errors),
            };
        }
    }

    fn content(&self, p: &str) -> Option<String> {
        self.entries.get(p).cloned().flatten()
    }
}

fn rule(recursive: bool, extensions: &[&str], action: config::Action) -> Rule {
    Rule {
        name: "tidy".to_string(),
        enabled: true,
        locations: vec!["/tmp/in".to_string()],
        recursive,
        max_depth: None,
        filters: Filters {
            target: Target::Files,
            extensions: Some(extensions.iter().map(|s| s.to_string()).collect()),
            not_extensions: None,
            name: None,
            regex: None,
            empty: None,
        },
        action,
    }
}

fn move_to_out(over_ride: bool) -> config::Action {
    config::Action::Move(MoveConfig { destination: "/tmp/out".to_string(), over_ride })
}

fn copy_to_out(over_ride: bool) -> config::Action {
    config::Action::Copy(CopyConfig { destination: "/tmp/out".to_string(), over_ride })
}

#[test]
fn end_to_end_non_recursive_move() {
    let mut disk = Disk::new();
    let outcome = disk.run(&rule(false, &["txt"], move_to_out(false)));
    assert!(matches!(outcome, RuleOutcome::Success));
    assert_eq!(disk.content("/tmp/out/a.txt"), Some("alpha".to_string()));
    assert_eq!(disk.content("/tmp/in/a.txt"), None);
    assert_eq!(disk.content("/tmp/in/b.log"), Some("beta".to_string()));
    assert_eq!(disk.content("/tmp/in/sub/c.txt"), Some("gamma".to_string()));
    assert_eq!(disk.content("/tmp/out/c.txt"), None);
}

#[test]
fn end_to_end_recursive_move() {
    let mut disk = Disk::new();
    let outcome = disk.run(&rule(true, &["txt"], move_to_out(false)));
    assert!(matches!(outcome, RuleOutcome::Success));
    assert_eq!(disk.content("/tmp/out/a.txt"), Some("alpha".to_string()));
    assert_eq!(disk.content("/tmp/out/c.txt"), Some("gamma".to_string()));
    assert_eq!(disk.content("/tmp/in/b.log"), Some("beta".to_string()));
}

#[test]
fn end_to_end_creates_destination_before_moving() {
    let mut disk = Disk::new();
    assert_eq!(disk.state("/tmp/out"), PathState::Missing);
    disk.run(&rule(false, &["txt"], move_to_out(false)));
    assert_eq!(disk.log[0], "CreateDirAll(\"/tmp/out\")");
    assert_eq!(disk.state("/tmp/out"), PathState::Directory);
}

#[test]
fn end_to_end_zero_matches() {
    let mut disk = Disk::new();
    let outcome = disk.run(&rule(true, &["pdf"], move_to_out(false)));
    assert!(matches!(outcome, RuleOutcome::NoMatches));
    assert!(disk.log.is_empty());
    assert_eq!(disk.state("/tmp/out"), PathState::Missing);
}

#[test]
fn copy_twice_without_override_keeps_destination() {
    let mut disk = Disk::new();
    let r = rule(false, &["txt"], copy_to_out(false));
    assert!(matches!(disk.run(&r), RuleOutcome::Success));
    disk.entries.insert("/tmp/in/a.txt".to_string(), Some("changed".to_string()));
    assert!(matches!(disk.run(&r), RuleOutcome::Success));
    assert_eq!(disk.content("/tmp/out/a.txt"), Some("alpha".to_string()));
}

#[test]
fn copy_twice_with_override_replaces_destination() {
    let mut disk = Disk::new();
    let r = rule(false, &["txt"], copy_to_out(true));
    assert!(matches!(disk.run(&r), RuleOutcome::Success));
    disk.entries.insert("/tmp/in/a.txt".to_string(), Some("changed".to_string()));
    assert!(matches!(disk.run(&r), RuleOutcome::Success));
    assert_eq!(disk.content("/tmp/out/a.txt"), Some("changed".to_string()));
}

#[test]
fn move_again_without_override_skips_taken_name() {
    let mut disk = Disk::new();
    let r = rule(false, &["txt"], move_to_out(false));
    disk.run(&r);
    disk.entries.insert("/tmp/in/a.txt".to_string(), Some("second".to_string()));
    assert!(matches!(disk.run(&r), RuleOutcome::Success));
    assert_eq!(disk.content("/tmp/out/a.txt"), Some("alpha".to_string()));
    assert_eq!(disk.content("/tmp/in/a.txt"), Some("second".to_string()));
}

#[test]
fn delete_removes_file_and_non_empty_directory() {
    let mut disk = Disk::new();
    let r = rule(true, &["txt"], config::Action::Delete);
    assert!(matches!(disk.run(&r), RuleOutcome::Success));
    assert_eq!(disk.content("/tmp/in/a.txt"), None);
    assert_eq!(disk.content("/tmp/in/sub/c.txt"), None);
    assert_eq!(disk.content("/tmp/in/b.log"), Some("beta".to_string()));

    let mut disk = Disk::new();
    let op = FsOp::RemoveDirAll("/tmp/in/sub".to_string());
    assert!(disk.perform(&op).is_ok());
    assert_eq!(disk.state("/tmp/in/sub"), PathState::Missing);
    assert_eq!(disk.content("/tmp/in/sub/c.txt"), None);
}

#[test]
fn destination_file_blocks_the_whole_batch() {
    let mut disk = Disk::new();
    disk.entries.insert("/tmp/out".to_string(), Some("not a dir".to_string()));
    match disk.run(&rule(true, &["txt"], move_to_out(false))) {
        RuleOutcome::CompletedWithErrors(errors) => {
            assert_eq!(errors.len(), 1);
            assert_eq!(errors[0].path, "/tmp/out");
        },
        other => panic!("unexpected outcome {:?}", other),
    }
    assert_eq!(disk.content("/tmp/in/a.txt"), Some("alpha".to_string()));
    assert!(disk.log.is_empty());
}

#[test]
fn entry_failures_are_collected_without_stopping() {
    let mut disk = Disk::new();
    let r = rule(true, &["txt"], move_to_out(false));
    let entries = disk.walk();
    let mut batch = start_rule(&r, &entries).unwrap();
    assert_eq!(batch.matches.len(), 2);
    // The first match vanishes between the walk and the action.
    disk.entries.remove("/tmp/in/a.txt");
    let mut reply = Reply::Begin;
    let errors = loop {
        reply = match batch.step(reply) {
            Request::Inspect(p) => Reply::State(disk.state(&p)),
            Request::Probe(p) => Reply::Exists(disk.entries.contains_key(&p)),
            Request::Perform(op) => Reply::Finished(disk.perform(&op)),
            Request::Done(errors) => break errors,
        };
    };
    assert_eq!(errors.len(), 1);
    assert_eq!(errors[0].path, "/tmp/in/a.txt");
    assert_eq!(disk.content("/tmp/out/c.txt"), Some("gamma".to_string()));
}

#[test]
fn unexpected_reply_ends_the_batch() {
    let disk = Disk::new();
    let r = rule(false, &["txt"], move_to_out(false));
    let entries = disk.walk();
    let mut batch = start_rule(&r, &entries).unwrap();
    assert!(matches!(batch.step(Reply::Begin), Request::Inspect(_)));
    match batch.step(Reply::Exists(true)) {
        Request::Done(errors) => assert!(errors.is_empty()),
        _ => panic!("the batch should have ended"),
    }
}
