//! The messages of the four stages and the order in which one entry's work
//! is laid out on their channels, with the completion gates that sequence
//! the stages: contents before trees and filenodes, both before changesets.
//!
//! A gate is a single-use pair: its fulfiller (`S`) goes to the stage that
//! resolves it, its wait handle (`R`) to the stage that awaits it.
use vstd::prelude::*;

verus! {

/// An object's identity as the source repository hashes it.
pub type ObjectId = Vec<u8>;

pub enum ContentMessage<S> {
    /// Send this content (id, size in bytes) to the remote end.
    Content(ObjectId, u64),
    /// The entry's contents are all sent: resolve the gates of the tree and
    /// filenode stages.
    ContentDone(S, S),
}

pub enum TreeMessage<R, S> {
    /// Wait for the entry's contents before sending its trees.
    WaitForContents(R),
    Tree(ObjectId),
    /// The entry's trees are all sent: resolve the changeset stage's gate.
    TreesDone(S),
}

pub enum FileMessage<R, S> {
    /// Wait for the entry's contents before sending its filenodes.
    WaitForContents(R),
    FileNode(ObjectId),
    /// The entry's filenodes are all sent: resolve the changeset stage's gate.
    FilesDone(S),
}

pub enum ChangesetMessage<R, S> {
    /// Wait for the entry's filenodes and trees before sending its changesets.
    WaitForFilesAndTrees(R, R),
    Changeset(ObjectId),
    /// The entry's changesets are all sent: resolve the orchestrator's gate.
    NotifyCompletion(S),
}

/// A bookmark move: `None` on a side means the bookmark does not exist there.
pub struct BookmarkInfo {
    pub name: String,
    pub from_cs_id: Option<ObjectId>,
    pub to_cs_id: Option<ObjectId>,
}

/// The objects that one entry of the log requires.
pub struct EntryWork {
    pub id: i64,
    pub contents: Vec<(ObjectId, u64)>,
    pub trees: Vec<ObjectId>,
    pub filenodes: Vec<ObjectId>,
    pub changesets: Vec<ObjectId>,
    pub bookmark: Option<BookmarkInfo>,
}

/// The five gates of one entry, each as (fulfiller, wait handle) where it
/// has both ends; the orchestrator keeps the completion gate's wait handle.
pub struct EntryGates<R, S> {
    pub contents_for_trees: (S, R),
    pub contents_for_files: (S, R),
    pub trees_done: (S, R),
    pub files_done: (S, R),
    pub completion: S,
}

pub struct Messages<R, S> {
    pub content_messages: Vec<ContentMessage<S>>,
    pub trees_messages: Vec<TreeMessage<R, S>>,
    pub files_messages: Vec<FileMessage<R, S>>,
    pub changeset_messages: Vec<ChangesetMessage<R, S>>,
}

/// The content stage's messages: every content, then both fulfillers.
pub open spec fn content_plan<S>(contents: Seq<(ObjectId, u64)>, to_trees: S, to_files: S) -> Seq<
    ContentMessage<S>,
> {
    Seq::new(contents.len(), |i: int| ContentMessage::Content(contents[i].0, contents[i].1)).push(
        ContentMessage::ContentDone(to_trees, to_files),
    )
}

/// The tree stage's messages: the wait, every tree, then the done gate.
pub open spec fn tree_plan<R, S>(wait: R, trees: Seq<ObjectId>, done: S) -> Seq<TreeMessage<R, S>> {
    seq![TreeMessage::WaitForContents(wait)] + Seq::new(
        trees.len(),
        |i: int| TreeMessage::Tree(trees[i]),
    ).push(TreeMessage::TreesDone(done))
}

/// The filenode stage's messages: the wait, every filenode, then the done gate.
pub open spec fn file_plan<R, S>(wait: R, files: Seq<ObjectId>, done: S) -> Seq<FileMessage<R, S>> {
    seq![FileMessage::WaitForContents(wait)] + Seq::new(
        files.len(),
        |i: int| FileMessage::FileNode(files[i]),
    ).push(FileMessage::FilesDone(done))
}

/// The changeset stage's messages: the wait on both upstream gates, every
/// changeset, then the completion gate.
pub open spec fn changeset_plan<R, S>(
    files_wait: R,
    trees_wait: R,
    changesets: Seq<ObjectId>,
    done: S,
) -> Seq<ChangesetMessage<R, S>> {
    seq![ChangesetMessage::WaitForFilesAndTrees(files_wait, trees_wait)] + Seq::new(
        changesets.len(),
        |i: int| ChangesetMessage::Changeset(changesets[i]),
    ).push(ChangesetMessage::NotifyCompletion(done))
}

/// Moves `ids` out, in order, each wrapped by `wrap`.
fn wrap_all<M>(
    ids: Vec<ObjectId>,
    wrap: Ghost<spec_fn(ObjectId) -> M>,
    out: &mut Vec<M>,
    mk: impl Fn(ObjectId) -> M,
)
    requires
        forall|x: ObjectId| #[trigger] mk.requires((x,)),
        forall|x: ObjectId, m: M| mk.ensures((x,), m) ==> m == wrap@(x),
    ensures
        final(out)@ == old(out)@ + Seq::new(ids@.len(), |i: int| wrap@(ids@[i])),
{
    let ghost all = ids@;
    let mut ids = ids;
    let mut k: usize = 0;
    let n = ids.len();
    while ids.len() > 0
        invariant
            k + ids@.len() == n,
            n == all.len(),
            ids@ == all.skip(k as int),
            forall|x: ObjectId| #[trigger] mk.requires((x,)),
            forall|x: ObjectId, m: M| mk.ensures((x,), m) ==> m == wrap@(x),
            out@ == old(out)@ + Seq::new(k as nat, |i: int| wrap@(all[i])),
        decreases ids.len(),
    {
        let x = ids.remove(0);
        let m = mk(x);
        out.push(m);
        proof {
            assert(all.skip(k as int)[0] == all[k as int]);
            assert(all.skip(k as int).remove(0) =~= all.skip(k + 1));
        }
        k = k + 1;
        assert(out@ =~= old(out)@ + Seq::new(k as nat, |i: int| wrap@(all[i])));
    }
    assert(Seq::new(k as nat, |i: int| wrap@(all[i])) =~= Seq::new(
        all.len(),
        |i: int| wrap@(all[i]),
    ));
}

/// Lays out one entry's work on the four stages. Every wait handle stands
/// before the objects that depend on it, and every fulfiller after the
/// objects it vouches for.
pub fn plan_entry<R, S>(work: EntryWork, gates: EntryGates<R, S>) -> (r: Messages<R, S>)
    ensures
        r.content_messages@ == content_plan(
            work.contents@,
            gates.contents_for_trees.0,
            gates.contents_for_files.0,
        ),
        r.trees_messages@ == tree_plan(gates.contents_for_trees.1, work.trees@, gates.trees_done.0),
        r.files_messages@ == file_plan(gates.contents_for_files.1, work.filenodes@, gates.files_done.0),
        r.changeset_messages@ == changeset_plan(
            gates.files_done.1,
            gates.trees_done.1,
            work.changesets@,
            gates.completion,
        ),
{
    let EntryWork { id: _, contents, trees, filenodes, changesets, bookmark: _ } = work;
    let EntryGates { contents_for_trees, contents_for_files, trees_done, files_done, completion } =
        gates;
    let (ct_send, ct_wait) = contents_for_trees;
    let (cf_send, cf_wait) = contents_for_files;
    let (td_send, td_wait) = trees_done;
    let (fd_send, fd_wait) = files_done;

    let ghost all = contents@;
    let mut contents = contents;
    let mut content_messages: Vec<ContentMessage<S>> = Vec::new();
    let mut k: usize = 0;
    let n = contents.len();
    while contents.len() > 0
        invariant
            k + contents@.len() == n,
            n == all.len(),
            contents@ == all.skip(k as int),
            content_messages@ == Seq::new(
                k as nat,
                |i: int| ContentMessage::<S>::Content(all[i].0, all[i].1),
            ),
        decreases contents.len(),
    {
        let (id, size) = contents.remove(0);
        content_messages.push(ContentMessage::Content(id, size));
        proof {
            assert(all.skip(k as int)[0] == all[k as int]);
            assert(all.skip(k as int).remove(0) =~= all.skip(k + 1));
        }
        k = k + 1;
        assert(content_messages@ =~= Seq::new(
            k as nat,
            |i: int| ContentMessage::<S>::Content(all[i].0, all[i].1),
        ));
    }
    content_messages.push(ContentMessage::ContentDone(ct_send, cf_send));

    let mut trees_messages: Vec<TreeMessage<R, S>> = Vec::new();
    trees_messages.push(TreeMessage::WaitForContents(ct_wait));
    wrap_all(trees, Ghost(|t: ObjectId| TreeMessage::<R, S>::Tree(t)), &mut trees_messages, |t: ObjectId| -> (m: TreeMessage<R, S>)
        ensures m == TreeMessage::<R, S>::Tree(t),
        { TreeMessage::Tree(t) });
    trees_messages.push(TreeMessage::TreesDone(td_send));

    let mut files_messages: Vec<FileMessage<R, S>> = Vec::new();
    files_messages.push(FileMessage::WaitForContents(cf_wait));
    wrap_all(filenodes, Ghost(|f: ObjectId| FileMessage::<R, S>::FileNode(f)), &mut files_messages, |f: ObjectId| -> (m: FileMessage<R, S>)
        ensures m == FileMessage::<R, S>::FileNode(f),
        { FileMessage::FileNode(f) });
    files_messages.push(FileMessage::FilesDone(fd_send));

    let mut changeset_messages: Vec<ChangesetMessage<R, S>> = Vec::new();
    changeset_messages.push(ChangesetMessage::WaitForFilesAndTrees(fd_wait, td_wait));
    wrap_all(changesets, Ghost(|c: ObjectId| ChangesetMessage::<R, S>::Changeset(c)), &mut changeset_messages, |c: ObjectId| -> (m: ChangesetMessage<R, S>)
        ensures m == ChangesetMessage::<R, S>::Changeset(c),
        { ChangesetMessage::Changeset(c) });
    changeset_messages.push(ChangesetMessage::NotifyCompletion(completion));

    proof {
        assert(content_messages@ =~= content_plan(all, ct_send, cf_send));
    }
    Messages { content_messages, trees_messages, files_messages, changeset_messages }
}

/// Plan order: in every stage's share of an entry, the wait on upstream
/// gates comes before all of the entry's objects, and the fulfiller that
/// vouches for them comes after all of them.
pub proof fn lemma_plan_order<R, S>(work: EntryWork, gates: EntryGates<R, S>)
    ensures
        ({
            let c = content_plan(work.contents@, gates.contents_for_trees.0, gates.contents_for_files.0);
            &&& c.len() == work.contents@.len() + 1
            &&& c.last() == ContentMessage::ContentDone(gates.contents_for_trees.0, gates.contents_for_files.0)
            &&& forall|i: int| 0 <= i < work.contents@.len() ==> #[trigger] c[i] is Content
        }),
        ({
            let t = tree_plan(gates.contents_for_trees.1, work.trees@, gates.trees_done.0);
            &&& t.len() == work.trees@.len() + 2
            &&& t[0] == TreeMessage::<R, S>::WaitForContents(gates.contents_for_trees.1)
            &&& t.last() == TreeMessage::<R, S>::TreesDone(gates.trees_done.0)
            &&& forall|i: int| 1 <= i <= work.trees@.len() ==> #[trigger] t[i] == TreeMessage::<R, S>::Tree(work.trees@[i - 1])
        }),
        ({
            let f = file_plan(gates.contents_for_files.1, work.filenodes@, gates.files_done.0);
            &&& f.len() == work.filenodes@.len() + 2
            &&& f[0] == FileMessage::<R, S>::WaitForContents(gates.contents_for_files.1)
            &&& f.last() == FileMessage::<R, S>::FilesDone(gates.files_done.0)
            &&& forall|i: int| 1 <= i <= work.filenodes@.len() ==> #[trigger] f[i] == FileMessage::<R, S>::FileNode(work.filenodes@[i - 1])
        }),
        ({
            let cs = changeset_plan(gates.files_done.1, gates.trees_done.1, work.changesets@, gates.completion);
            &&& cs.len() == work.changesets@.len() + 2
            &&& cs[0] == ChangesetMessage::<R, S>::WaitForFilesAndTrees(gates.files_done.1, gates.trees_done.1)
            &&& cs.last() == ChangesetMessage::<R, S>::NotifyCompletion(gates.completion)
            &&& forall|i: int| 1 <= i <= work.changesets@.len() ==> #[trigger] cs[i] == ChangesetMessage::<R, S>::Changeset(work.changesets@[i - 1])
        }),
{
}

} // verus!
