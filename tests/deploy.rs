use std::collections::HashMap;
use std::io::Read;
use teamspeak_updater::activate::{backup_name, swap_plan, LinkOp};
use teamspeak_updater::extract::{decode_archive, ArchiveContents, ExtractError};
use teamspeak_updater::local::{installed_version, LocalError, ResolvedPointer};
use teamspeak_updater::materialize::{
    dir_ready, has_wrapper, plan_materialization, DirCreation, EntryKind, Step, TreeEntry,
};
use teamspeak_updater::pipeline::{advance, Event, Phase, Stage, UpdateDecision};
use teamspeak_updater::target::ArchiveType;

fn entry(path: &str, kind: EntryKind) -> TreeEntry {
    TreeEntry { path: path.split('/').map(|s| s.to_string()).collect(), kind }
}

fn joined(p: &[String]) -> String {
    p.join("/")
}

fn wrapped_tree() -> Vec<TreeEntry> {
    vec![
        entry("TeamSpeakServer", EntryKind::Directory),
        entry("TeamSpeakServer/bin", EntryKind::Directory),
        entry("TeamSpeakServer/libs", EntryKind::Directory),
        entry("TeamSpeakServer/bin/ts3server", EntryKind::File),
        entry("TeamSpeakServer/libs/libts3.so", EntryKind::File),
        entry("TeamSpeakServer/LICENSE", EntryKind::File),
    ]
}

#[derive(Clone, Debug, PartialEq)]
enum Node {
    Dir,
    File(String),
}

/// Carries out a plan on an in-memory tree, as the application does on disk.
fn run(tree: &mut HashMap<String, Node>, steps: &[Step]) -> bool {
    for s in steps {
        match s {
            Step::CreateDir(p) => {
                let outcome = if tree.contains_key(&joined(p)) {
                    DirCreation::AlreadyExists
                } else {
                    tree.insert(joined(p), Node::Dir);
                    DirCreation::Created
                };
                if !dir_ready(outcome) {
                    return false;
                }
            }
            Step::CopyFile { from, to } => {
                tree.insert(joined(to), Node::File(joined(from)));
            }
        }
    }
    true
}

#[test]
fn wrapper_folder_is_stripped() {
    let entries = wrapped_tree();
    assert!(has_wrapper(&entries));
    let plan = plan_materialization(&entries);
    assert_eq!(plan.len(), 7);
    let mut dirs = vec![];
    let mut copies = vec![];
    for s in &plan {
        match s {
            Step::CreateDir(p) => dirs.push(joined(p)),
            Step::CopyFile { from, to } => copies.push((joined(from), joined(to))),
        }
    }
    assert_eq!(dirs, vec!["", "", "bin", "libs"]);
    assert_eq!(
        copies,
        vec![
            ("TeamSpeakServer/bin/ts3server".to_string(), "bin/ts3server".to_string()),
            ("TeamSpeakServer/libs/libts3.so".to_string(), "libs/libts3.so".to_string()),
            ("TeamSpeakServer/LICENSE".to_string(), "LICENSE".to_string()),
        ]
    );
    let mut tree = HashMap::new();
    assert!(run(&mut tree, &plan));
    let mut top: Vec<&String> = tree.keys().filter(|k| !k.is_empty() && !k.contains('/')).collect();
    top.sort();
    assert_eq!(top, vec!["LICENSE", "bin", "libs"]);
}

#[test]
fn several_top_level_entries_are_kept() {
    let entries = vec![
        entry("bin", EntryKind::Directory),
        entry("bin/ts3server", EntryKind::File),
        entry("README", EntryKind::File),
    ];
    assert!(!has_wrapper(&entries));
    let plan = plan_materialization(&entries);
    assert_eq!(plan.len(), 4);
    match &plan[2] {
        Step::CopyFile { from, to } => {
            assert_eq!(joined(from), "bin/ts3server");
            assert_eq!(joined(to), "bin/ts3server");
        }
        Step::CreateDir(_) => panic!("expected a copy"),
    }
}

#[test]
fn single_top_level_file_is_not_a_wrapper() {
    let entries = vec![entry("server.bin", EntryKind::File)];
    assert!(!has_wrapper(&entries));
    let plan = plan_materialization(&entries);
    match &plan[1] {
        Step::CopyFile { to, .. } => assert_eq!(joined(to), "server.bin"),
        Step::CreateDir(_) => panic!("expected a copy"),
    }
}

#[test]
fn empty_extraction_plans_the_release_directory_only() {
    let plan = plan_materialization(&vec![]);
    assert_eq!(plan.len(), 1);
    assert!(matches!(&plan[0], Step::CreateDir(p) if p.is_empty()));
}

#[test]
fn materialization_is_idempotent() {
    let plan = plan_materialization(&wrapped_tree());
    let mut tree = HashMap::new();
    assert!(run(&mut tree, &plan));
    let once = tree.clone();
    assert!(run(&mut tree, &plan));
    assert_eq!(tree, once);
}

#[test]
fn dir_creation_outcomes() {
    assert!(dir_ready(DirCreation::Created));
    assert!(dir_ready(DirCreation::AlreadyExists));
    assert!(!dir_ready(DirCreation::Failed));
}

#[test]
fn backup_name_appends_timestamp() {
    assert_eq!(backup_name("teamspeak", 1700000000), "teamspeak.1700000000");
    assert_eq!(backup_name("ts", 0), "ts.0");
}

#[test]
fn activation_renames_then_links() {
    let plan = swap_plan("teamspeak", 1700000000, "/opt/teamspeak-releases/3.13.8");
    assert_eq!(plan.len(), 2);
    let mut links: HashMap<String, String> = HashMap::new();
    links.insert("teamspeak".to_string(), "/opt/teamspeak-releases/3.13.7".to_string());
    for op in &plan {
        match op {
            LinkOp::Rename { from, to } => {
                assert_eq!(from, "teamspeak");
                assert_eq!(to, "teamspeak.1700000000");
                let target = links.remove(from).expect("pointer exists");
                links.insert(to.clone(), target);
                assert!(links.values().any(|t| t == "/opt/teamspeak-releases/3.13.7"));
            }
            LinkOp::Symlink { at, target } => {
                assert_eq!(at, "teamspeak");
                assert!(!links.contains_key(at));
                links.insert(at.clone(), target.clone());
            }
        }
    }
    assert_eq!(links["teamspeak"], "/opt/teamspeak-releases/3.13.8");
    assert_eq!(links["teamspeak.1700000000"], "/opt/teamspeak-releases/3.13.7");
}

#[test]
fn installed_version_from_directory_name() {
    let ok = ResolvedPointer { is_dir: true, dir_name: Some("3.13.7".to_string()) };
    assert_eq!(installed_version(&ok).unwrap().to_text(), "3.13.7");
}

#[test]
fn installed_version_errors() {
    let not_dir = ResolvedPointer { is_dir: false, dir_name: Some("3.13.7".to_string()) };
    assert!(matches!(installed_version(&not_dir), Err(LocalError::NotADirectory)));
    let no_name = ResolvedPointer { is_dir: true, dir_name: None };
    assert!(matches!(installed_version(&no_name), Err(LocalError::InvalidVersionEncoding)));
    let bad = ResolvedPointer { is_dir: true, dir_name: Some("current".to_string()) };
    assert!(matches!(installed_version(&bad), Err(LocalError::InvalidVersionEncoding)));
}

#[test]
fn decode_zip_keeps_bytes() {
    let data = vec![0x50, 0x4b, 0x03, 0x04, 1, 2, 3];
    match decode_archive(ArchiveType::Zip, data.clone()) {
        Ok(ArchiveContents::Zip(d)) => assert_eq!(d, data),
        _ => panic!("zip archive not kept"),
    }
}

#[test]
fn decode_bzip2_tarball() {
    let payload = b"tar stream bytes, repeated, repeated, repeated".to_vec();
    let mut compressed = vec![];
    bzip2::read::BzEncoder::new(&payload[..], bzip2::Compression::default())
        .read_to_end(&mut compressed)
        .unwrap();
    assert_ne!(compressed, payload);
    match decode_archive(ArchiveType::Bzip2Tarball, compressed) {
        Ok(ArchiveContents::Tar(d)) => assert_eq!(d, payload),
        _ => panic!("tarball not decoded"),
    }
}

#[test]
fn decode_corrupt_tarball() {
    let r = decode_archive(ArchiveType::Bzip2Tarball, b"definitely not bzip2".to_vec());
    assert!(matches!(r, Err(ExtractError::CorruptArchive)));
}

#[test]
fn run_stages_in_order() {
    let mut s = Stage::Idle;
    s = advance(s, Event::Start);
    assert_eq!(s, Stage::Working(Phase::CheckingVersions));
    s = advance(s, Event::Decided(UpdateDecision::UpdateAvailable));
    assert_eq!(s, Stage::Working(Phase::Downloading));
    s = advance(s, Event::Succeeded);
    assert_eq!(s, Stage::Working(Phase::Extracting));
    s = advance(s, Event::Succeeded);
    assert_eq!(s, Stage::Working(Phase::Materializing));
    s = advance(s, Event::Succeeded);
    assert_eq!(s, Stage::Working(Phase::Activating));
    s = advance(s, Event::Succeeded);
    assert_eq!(s, Stage::Done);
    assert_eq!(advance(s, Event::Failed), Stage::Done);
}

#[test]
fn run_up_to_date_and_failures() {
    let checking = Stage::Working(Phase::CheckingVersions);
    assert_eq!(advance(checking, Event::Decided(UpdateDecision::UpToDate)), Stage::UpToDate);
    assert_eq!(advance(checking, Event::Failed), Stage::Failed(Phase::CheckingVersions));
    let extracting = Stage::Working(Phase::Extracting);
    let failed = advance(extracting, Event::Failed);
    assert_eq!(failed, Stage::Failed(Phase::Extracting));
    assert_eq!(advance(failed, Event::Succeeded), failed);
    assert_eq!(advance(Stage::Idle, Event::Succeeded), Stage::Idle);
}
