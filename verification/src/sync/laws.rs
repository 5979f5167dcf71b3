//! What a whole sync does to the engine tree: a model of the tree and of
//! the server, the run of the protocol against them, and the laws that
//! hold of every run.

use vstd::prelude::*;

use crate::sync::archive::Tree;
use crate::checksum::checksum_text;
use crate::sync::{in_sync, FileManifest};
use crate::sync::protocol::{
    sync_protocol, turn_to, AnswerView, Awaiting, SyncProgress, SyncStep,
};
use crate::updater::is_success;

verus! {

/// What the server answers to the request for a file.
pub struct Served {
    pub status: u16,
    pub body: Seq<u8>,
}

/// The server: what it answers for each path. It cannot be reached for a
/// path that it does not hold.
pub type Server = Map<Seq<char>, Served>;

/// The path of a manifest entry.
pub open spec fn path_of(manifest: FileManifest, i: int) -> Seq<char> {
    manifest.files[i].path@
}

/// The content of the local file of a manifest entry, `None` where there is
/// no file.
pub open spec fn local_file(manifest: FileManifest, tree: Tree, i: int) -> Option<Seq<u8>> {
    if tree.contains_key(path_of(manifest, i)) {
        Some(tree[path_of(manifest, i)])
    } else {
        None
    }
}

/// Whether the local file of a manifest entry is in sync with it.
pub open spec fn entry_in_sync(manifest: FileManifest, tree: Tree, i: int) -> bool {
    in_sync(local_file(manifest, tree, i), manifest.files[i].info)
}

/// Whether the whole tree is in sync with the manifest.
pub open spec fn tree_in_sync(manifest: FileManifest, tree: Tree) -> bool {
    forall|i: int| 0 <= i < manifest.files.len() ==> entry_in_sync(manifest, tree, i)
}

/// No file of the tree is longer than a size can say.
pub open spec fn tree_bounded(tree: Tree) -> bool {
    forall|p: Seq<char>| tree.contains_key(p) ==> (#[trigger] tree[p]).len() <= u64::MAX
}

/// The server serves no file longer than a size can say, and what it serves
/// under the checksum of a manifest entry has the size that the entry gives.
pub open spec fn server_consistent(manifest: FileManifest, server: Server) -> bool {
    &&& forall|p: Seq<char>| server.contains_key(p) ==> (#[trigger] server[p]).body.len() <= u64::MAX
    &&& forall|i: int|
        0 <= i < manifest.files.len() && server.contains_key(#[trigger] path_of(manifest, i))
            && checksum_text(server[path_of(manifest, i)].body) == manifest.files[i].info.checksum@
            ==> server[path_of(manifest, i)].body.len() == manifest.files[i].info.size
}

/// What carrying out a step does to the tree, and the answer it gives.
/// Storing writes what the server served for the entry to the entry's path.
pub open spec fn sync_effect(
    manifest: FileManifest,
    tree: Tree,
    server: Server,
    step: SyncStep,
) -> (
    Tree,
    AnswerView,
) {
    match step {
        SyncStep::Prepare => (tree, AnswerView::Done),
        SyncStep::Stat(i) => match local_file(manifest, tree, i as int) {
            Some(bytes) => (tree, AnswerView::Size(bytes.len() as u64)),
            None => (tree, AnswerView::Missing),
        },
        SyncStep::ReadLocal(i) => match local_file(manifest, tree, i as int) {
            Some(bytes) => (tree, AnswerView::Contents(bytes)),
            None => (tree, AnswerView::Refused),
        },
        SyncStep::Fetch(i) => if server.contains_key(path_of(manifest, i as int)) {
            (
                tree,
                AnswerView::Response {
                    status: server[path_of(manifest, i as int)].status,
                    body: server[path_of(manifest, i as int)].body,
                },
            )
        } else {
            (tree, AnswerView::Unreachable)
        },
        SyncStep::Store(i) => if server.contains_key(path_of(manifest, i as int)) {
            (
                tree.insert(path_of(manifest, i as int), server[path_of(manifest, i as int)].body),
                AnswerView::Done,
            )
        } else {
            (tree, AnswerView::Refused)
        },
        SyncStep::Finished(_) => (tree, AnswerView::Done),
        SyncStep::Failed(_) => (tree, AnswerView::Refused),
    }
}

/// The tree and the last step after the step handed out has been carried
/// out and the protocol followed for at most `rounds` further steps.
pub open spec fn sync_run(
    manifest: FileManifest,
    tree: Tree,
    server: Server,
    progress: SyncProgress,
    step: SyncStep,
    rounds: nat,
) -> (Tree, SyncStep)
    decreases rounds,
{
    if rounds == 0 || step is Finished || step is Failed {
        (tree, step)
    } else {
        let (after, answer) = sync_effect(manifest, tree, server, step);
        let (next, then) = sync_protocol(manifest, progress, answer);
        sync_run(manifest, after, server, next, then, (rounds - 1) as nat)
    }
}

/// The progress while the entry at `index` is looked at.
pub open spec fn at_entry(index: int, synced: int) -> SyncProgress {
    SyncProgress { awaiting: Awaiting::Stat, index: index as usize, synced: synced as u64 }
}

/// The tree and the outcome of a whole sync.
pub open spec fn synced(manifest: FileManifest, tree: Tree, server: Server) -> (Tree, SyncStep) {
    sync_run(
        manifest,
        tree,
        server,
        SyncProgress { awaiting: Awaiting::Prepared, index: 0, synced: 0 },
        SyncStep::Prepare,
        (4 * manifest.files.len() + 1) as nat,
    )
}

/// From the entry at `index` on, a tree whose remaining entries are in sync
/// is passed through without a change and without a file being stored.
pub proof fn lemma_in_sync_entries_pass(
    manifest: FileManifest,
    tree: Tree,
    server: Server,
    index: int,
    count: int,
    rounds: nat,
)
    requires
        0 <= count <= index < manifest.files.len(),
        rounds >= 2 * (manifest.files.len() - index),
        forall|i: int| index <= i < manifest.files.len() ==> entry_in_sync(manifest, tree, i),
    ensures
        sync_run(manifest, tree, server, at_entry(index, count), SyncStep::Stat(index as usize), rounds)
            == (tree, SyncStep::Finished(count as u64)),
    decreases manifest.files.len() - index,
{
    let progress = at_entry(index, count);
    assert(entry_in_sync(manifest, tree, index));
    let bytes = local_file(manifest, tree, index)->0;
    let (tree1, answer1) = sync_effect(manifest, tree, server, SyncStep::Stat(index as usize));
    assert(answer1 == AnswerView::Size(bytes.len() as u64));
    let (progress1, step1) = sync_protocol(manifest, progress, answer1);
    assert(step1 == SyncStep::ReadLocal(index as usize));
    let (tree2, answer2) = sync_effect(manifest, tree1, server, step1);
    assert(answer2 == AnswerView::Contents(bytes));
    let (progress2, step2) = sync_protocol(manifest, progress1, answer2);
    assert((progress2, step2) == turn_to(manifest, index + 1, count));
    reveal_with_fuel(sync_run, 3);
    if index + 1 < manifest.files.len() {
        lemma_in_sync_entries_pass(manifest, tree, server, index + 1, count, (rounds - 2) as nat);
        assert(progress2 == at_entry(index + 1, count));
    }
}

/// Zero updates: a sync of a tree that is in sync with the manifest stores
/// no file, asks the server for none, and leaves the tree as it is.
pub proof fn lemma_sync_of_synced_tree(manifest: FileManifest, tree: Tree, server: Server)
    requires
        tree_in_sync(manifest, tree),
    ensures
        synced(manifest, tree, server) == (tree, SyncStep::Finished(0)),
{
    reveal_with_fuel(sync_run, 2);
    if manifest.files.len() > 0 {
        lemma_in_sync_entries_pass(
            manifest,
            tree,
            server,
            0,
            0,
            (4 * manifest.files.len()) as nat,
        );
    }
}

/// Storing the file of one entry leaves the files of all entries with
/// another path as they are.
pub proof fn lemma_store_keeps_others(
    manifest: FileManifest,
    tree: Tree,
    body: Seq<u8>,
    index: int,
    i: int,
)
    requires
        0 <= index < manifest.files.len(),
        0 <= i < manifest.files.len(),
        path_of(manifest, i) != path_of(manifest, index),
    ensures
        local_file(manifest, tree.insert(path_of(manifest, index), body), i) == local_file(
            manifest,
            tree,
            i,
        ),
{
}

/// From the entry at `index` on: where the entries before it are in sync
/// and the sync finishes, all entries are in sync afterwards.
pub proof fn lemma_finished_run_syncs(
    manifest: FileManifest,
    tree: Tree,
    server: Server,
    index: int,
    count: int,
    rounds: nat,
)
    requires
        manifest.distinct_paths(),
        server_consistent(manifest, server),
        tree_bounded(tree),
        0 <= count <= index < manifest.files.len(),
        forall|i: int| 0 <= i < index ==> entry_in_sync(manifest, tree, i),
        sync_run(
            manifest,
            tree,
            server,
            at_entry(index, count),
            SyncStep::Stat(index as usize),
            rounds,
        ).1 is Finished,
    ensures
        tree_in_sync(
            manifest,
            sync_run(
                manifest,
                tree,
                server,
                at_entry(index, count),
                SyncStep::Stat(index as usize),
                rounds,
            ).0,
        ),
        tree_bounded(
            sync_run(
                manifest,
                tree,
                server,
                at_entry(index, count),
                SyncStep::Stat(index as usize),
                rounds,
            ).0,
        ),
    decreases manifest.files.len() - index,
{
    let n = manifest.files.len() as int;
    let progress = at_entry(index, count);
    let path = path_of(manifest, index);
    let info = manifest.files[index].info;
    reveal_with_fuel(sync_run, 5);
    // The entry at work either is in sync already or gets stored; in both
    // cases the run goes on from the next entry with a tree in which the
    // entries up to this one are in sync.
    let in_sync_now = entry_in_sync(manifest, tree, index);
    let stored = tree.insert(path, server[path].body);
    let next_tree = if in_sync_now {
        tree
    } else {
        stored
    };
    let next_count = if in_sync_now {
        count
    } else {
        count + 1
    };
    let (_, answer1) = sync_effect(manifest, tree, server, SyncStep::Stat(index as usize));
    let (progress1, step1) = sync_protocol(manifest, progress, answer1);
    if step1 is ReadLocal {
        let (_, answer2) = sync_effect(manifest, tree, server, step1);
        let (progress2, step2) = sync_protocol(manifest, progress1, answer2);
        if step2 is Fetch {
            assert(!in_sync_now);
            lemma_fetch_leads_on(manifest, tree, server, index, count, progress2, (rounds - 2) as nat);
        } else {
            assert(in_sync_now);
            assert((progress2, step2) == turn_to(manifest, index + 1, count));
        }
    } else {
        assert(step1 is Fetch);
        assert(!in_sync_now);
        lemma_fetch_leads_on(manifest, tree, server, index, count, progress1, (rounds - 1) as nat);
    }
    if !in_sync_now {
        assert(server.contains_key(path));
        assert(is_success(server[path].status));
        assert(checksum_text(server[path].body) == info.checksum@);
        assert(path_of(manifest, index) == path);
        assert(server[path].body.len() == info.size);
        assert(entry_in_sync(manifest, stored, index));
        assert forall|i: int| 0 <= i < index implies entry_in_sync(manifest, stored, i) by {
            assert(manifest.files[i].path@ != manifest.files[index].path@);
            lemma_store_keeps_others(manifest, tree, server[path].body, index, i);
            assert(entry_in_sync(manifest, tree, i));
        }
        assert(tree_bounded(stored)) by {
            assert forall|p: Seq<char>| stored.contains_key(p) implies (#[trigger] stored[p]).len()
                <= u64::MAX by {
                if p != path {
                    assert(tree.contains_key(p));
                    assert(stored[p] == tree[p]);
                }
            }
        }
    }
    assert(forall|i: int| 0 <= i <= index ==> entry_in_sync(manifest, next_tree, i));
    if index + 1 < n {
        let left = if in_sync_now {
            (rounds - 2) as nat
        } else if step1 is ReadLocal {
            (rounds - 4) as nat
        } else {
            (rounds - 3) as nat
        };
        assert(sync_run(
            manifest,
            tree,
            server,
            progress,
            SyncStep::Stat(index as usize),
            rounds,
        ) == sync_run(
            manifest,
            next_tree,
            server,
            at_entry(index + 1, next_count),
            SyncStep::Stat((index + 1) as usize),
            left,
        ));
        lemma_finished_run_syncs(manifest, next_tree, server, index + 1, next_count, left);
    } else {
        assert(sync_run(
            manifest,
            tree,
            server,
            progress,
            SyncStep::Stat(index as usize),
            rounds,
        ).0 == next_tree);
    }
}

/// A fetch for the entry at work, in a run that finishes, is answered with
/// success by bytes that hash to the entry's checksum, and is followed by
/// the store of those bytes and the turn to the next entry.
proof fn lemma_fetch_leads_on(
    manifest: FileManifest,
    tree: Tree,
    server: Server,
    index: int,
    count: int,
    progress: SyncProgress,
    rounds: nat,
)
    requires
        0 <= count <= index < manifest.files.len(),
        progress == (SyncProgress {
            awaiting: Awaiting::Response,
            index: index as usize,
            synced: count as u64,
        }),
        sync_run(manifest, tree, server, progress, SyncStep::Fetch(index as usize), rounds).1
            is Finished,
    ensures
        rounds >= 2,
        server.contains_key(path_of(manifest, index)),
        is_success(server[path_of(manifest, index)].status),
        checksum_text(server[path_of(manifest, index)].body)
            == manifest.files[index].info.checksum@,
        sync_run(manifest, tree, server, progress, SyncStep::Fetch(index as usize), rounds) == ({
            let stored = tree.insert(
                path_of(manifest, index),
                server[path_of(manifest, index)].body,
            );
            let (next, then) = turn_to(manifest, index + 1, count + 1);
            sync_run(manifest, stored, server, next, then, (rounds - 2) as nat)
        }),
{
    reveal_with_fuel(sync_run, 3);
}

/// Idempotence: where a sync finishes, the tree is in sync with the
/// manifest afterwards, so that a second sync, against the same manifest
/// and whatever the server then serves, stores no file and changes nothing.
pub proof fn lemma_sync_is_idempotent(
    manifest: FileManifest,
    tree: Tree,
    server: Server,
    later: Server,
)
    requires
        manifest.distinct_paths(),
        server_consistent(manifest, server),
        tree_bounded(tree),
        synced(manifest, tree, server).1 is Finished,
    ensures
        tree_in_sync(manifest, synced(manifest, tree, server).0),
        synced(manifest, synced(manifest, tree, server).0, later) == (
            synced(manifest, tree, server).0,
            SyncStep::Finished(0),
        ),
{
    reveal_with_fuel(sync_run, 2);
    if manifest.files.len() > 0 {
        lemma_finished_run_syncs(
            manifest,
            tree,
            server,
            0,
            0,
            (4 * manifest.files.len()) as nat,
        );
    }
    lemma_sync_of_synced_tree(manifest, synced(manifest, tree, server).0, later);
}

} // verus!
