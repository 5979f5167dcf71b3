use std::collections::BTreeMap;

use launcher::sync::archive::{ArchiveAnswer, ArchivePhase, ArchiveStep};
use launcher::sync::{SyncError, SyncManager};

type Tree = BTreeMap<&'static str, &'static str>;

struct World {
    tree: Option<Tree>,
    archive_on_disk: bool,
    server: Option<u16>,
    archive: Tree,
    refuse_clear: bool,
    refuse_extract: bool,
}

impl World {
    fn perform(&mut self, step: ArchiveStep) -> ArchiveAnswer {
        match step {
            ArchiveStep::ProbeTree => ArchiveAnswer::Exists(self.tree.is_some()),
            ArchiveStep::ClearTree => {
                if self.refuse_clear {
                    return ArchiveAnswer::Refused;
                }
                self.tree = None;
                ArchiveAnswer::Done
            }
            ArchiveStep::Fetch => match self.server {
                Some(status) => ArchiveAnswer::Response { status },
                None => ArchiveAnswer::Unreachable,
            },
            ArchiveStep::WriteArchive => {
                self.archive_on_disk = true;
                ArchiveAnswer::Done
            }
            ArchiveStep::Extract => {
                if self.refuse_extract {
                    return ArchiveAnswer::Refused;
                }
                let tree = self.tree.get_or_insert_with(BTreeMap::new);
                for (path, content) in &self.archive {
                    tree.insert(*path, *content);
                }
                ArchiveAnswer::Done
            }
            ArchiveStep::RemoveArchive => {
                self.archive_on_disk = false;
                ArchiveAnswer::Done
            }
            ArchiveStep::Finished | ArchiveStep::Failed(_) => unreachable!(),
        }
    }

    fn install(&mut self) -> (ArchiveStep, Vec<ArchiveStep>) {
        let mut trace = Vec::new();
        let (mut phase, mut step) =
            SyncManager::download_full_archive(ArchivePhase::Start, ArchiveAnswer::Done);
        loop {
            trace.push(step);
            if matches!(step, ArchiveStep::Finished | ArchiveStep::Failed(_)) {
                return (step, trace);
            }
            let answer = self.perform(step);
            let next = SyncManager::download_full_archive(phase, answer);
            phase = next.0;
            step = next.1;
            assert!(trace.len() <= 8);
        }
    }
}

fn world(tree: Option<Tree>) -> World {
    World {
        tree,
        archive_on_disk: false,
        server: Some(200),
        archive: BTreeMap::from([("bin/engine", "v2"), ("VERSION", "2")]),
        refuse_clear: false,
        refuse_extract: false,
    }
}

#[test]
fn full_archive_replaces_a_stale_tree() {
    let stale = BTreeMap::from([("bin/engine", "v1"), ("old.dll", "gone")]);
    let mut w = world(Some(stale));
    let (last, trace) = w.install();
    assert_eq!(last, ArchiveStep::Finished);
    assert_eq!(
        trace,
        vec![
            ArchiveStep::ProbeTree,
            ArchiveStep::ClearTree,
            ArchiveStep::Fetch,
            ArchiveStep::WriteArchive,
            ArchiveStep::Extract,
            ArchiveStep::RemoveArchive,
            ArchiveStep::Finished,
        ]
    );
    assert_eq!(w.tree, Some(w.archive.clone()));
    assert!(!w.tree.as_ref().unwrap().is_empty());
    assert!(!w.archive_on_disk);
}

#[test]
fn full_archive_bootstraps_a_missing_tree() {
    let mut w = world(None);
    let (last, trace) = w.install();
    assert_eq!(last, ArchiveStep::Finished);
    assert_eq!(trace[1], ArchiveStep::Fetch);
    assert_eq!(trace.len(), 6);
    assert_eq!(w.tree, Some(w.archive.clone()));
}

#[test]
fn server_error_fails_before_anything_is_written() {
    let mut w = world(None);
    w.server = Some(500);
    let (last, _) = w.install();
    assert_eq!(last, ArchiveStep::Failed(SyncError::ServerError(500)));
    assert_eq!(w.tree, None);
    assert!(!w.archive_on_disk);
    w.server = None;
    assert_eq!(w.install().0, ArchiveStep::Failed(SyncError::ConnectFailed));
}

#[test]
fn tree_that_cannot_be_cleared_is_not_merged_into() {
    let stale = BTreeMap::from([("old.dll", "stale")]);
    let mut w = world(Some(stale.clone()));
    w.refuse_clear = true;
    let (last, trace) = w.install();
    assert_eq!(last, ArchiveStep::Failed(SyncError::Filesystem));
    assert_eq!(trace.len(), 3);
    assert_eq!(w.tree, Some(stale));
}

#[test]
fn failed_extraction_fails_the_installation() {
    let mut w = world(None);
    w.refuse_extract = true;
    let (last, _) = w.install();
    assert_eq!(last, ArchiveStep::Failed(SyncError::Filesystem));
}

#[test]
fn unfitting_answers_are_refused() {
    let (phase, step) =
        SyncManager::download_full_archive(ArchivePhase::Start, ArchiveAnswer::Refused);
    assert_eq!((phase, step), (ArchivePhase::TreeProbed, ArchiveStep::ProbeTree));
    let (phase, step) = SyncManager::download_full_archive(phase, ArchiveAnswer::Done);
    assert_eq!(step, ArchiveStep::Failed(SyncError::UnexpectedAnswer));
    let (_, again) = SyncManager::download_full_archive(phase, ArchiveAnswer::Exists(true));
    assert_eq!(again, ArchiveStep::Failed(SyncError::UnexpectedAnswer));
}
