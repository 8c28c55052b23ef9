//! The recursive walks: tree copy and size accumulation.
//!
//! Both walks are explicit depth-first traversals whose state lives
//! here: the engine keeps the work stack, derives every destination
//! path and performs every accumulation. The unverified shell only
//! executes one primitive per step — read one directory, copy one file,
//! create one directory — and reports the outcome back. A step failure
//! aborts a copy (the shell stops driving the walk); an unreadable
//! directory during a size walk is reported as having no children, so it
//! contributes nothing and the rest of the tree is still accounted.
//!
//! The engine processes exactly the children it is handed and never
//! resolves a path itself, so whether symbolic links are followed during
//! a walk is decided by the shell's metadata calls alone.

use vstd::prelude::*;
use crate::paths::{join_path, join_view};

verus! {

/// The mathematical content of one pending copy task.
pub ghost struct TaskModel {
    pub src: Seq<char>,
    pub dest: Seq<char>,
    pub is_dir: bool,
}

/// One node the copy walk still has to process: where it is read from,
/// where it is written to, and whether it is a directory.
pub struct CopyTask {
    pub src: String,
    pub dest: String,
    pub is_dir: bool,
}

impl View for CopyTask {
    type V = TaskModel;

    open spec fn view(&self) -> TaskModel {
        TaskModel { src: self.src@, dest: self.dest@, is_dir: self.is_dir }
    }
}

/// A child of a directory being copied: its base name and kind.
pub struct ChildKind {
    pub name: String,
    pub is_dir: bool,
}

/// The models of a stack of copy tasks.
pub open spec fn task_models(s: Seq<CopyTask>) -> Seq<TaskModel> {
    s.map_values(|t: CopyTask| t@)
}

/// The task a child named `name` of the directory task `t` becomes: both
/// of its paths are the name joined onto `t`'s paths, so the copied tree
/// mirrors the source structure.
pub open spec fn child_task(t: TaskModel, name: Seq<char>, is_dir: bool) -> TaskModel {
    TaskModel { src: join_view(t.src, name), dest: join_view(t.dest, name), is_dir }
}

/// The state of a recursive copy: the stack of nodes still to process.
pub struct CopyWalk {
    pending: Vec<CopyTask>,
}

impl CopyWalk {
    /// The pending tasks, newest last.
    pub closed spec fn pending_view(self) -> Seq<TaskModel> {
        task_models(self.pending@)
    }

    /// Starts a copy of the decided source at the decided destination.
    pub fn start(src: String, dest: String, is_dir: bool) -> (w: CopyWalk)
        ensures
            w.pending_view() == seq![TaskModel { src: src@, dest: dest@, is_dir }],
    {
        let mut pending: Vec<CopyTask> = Vec::new();
        let ghost t = TaskModel { src: src@, dest: dest@, is_dir };
        pending.push(CopyTask { src, dest, is_dir });
        proof {
            assert(task_models(pending@) =~= seq![t]);
        }
        CopyWalk { pending }
    }

    /// Takes the next node to process, depth-first; `None` once the whole
    /// tree has been handed out.
    pub fn next(&mut self) -> (r: Option<CopyTask>)
        ensures
            match r {
                Some(t) => old(self).pending_view().len() > 0 && t@ == old(
                    self,
                ).pending_view().last() && final(self).pending_view() == old(
                    self,
                ).pending_view().drop_last(),
                None => old(self).pending_view().len() == 0 && final(self).pending_view()
                    == old(self).pending_view(),
            },
    {
        let r = self.pending.pop();
        proof {
            if old(self).pending@.len() > 0 {
                let n = old(self).pending@.len();
                assert(task_models(old(self).pending@)[n - 1] == old(self).pending@[n - 1]@);
                assert(task_models(self.pending@)
                    =~= task_models(old(self).pending@).drop_last());
            }
        }
        r
    }

    /// Records the children of the directory task `t`: each becomes a
    /// pending task whose source and destination mirror `t`'s under the
    /// child's name.
    pub fn push_children(&mut self, t: &CopyTask, children: &Vec<ChildKind>)
        ensures
            final(self).pending_view() == old(self).pending_view() + children@.map_values(
                |c: ChildKind| child_task(t@, c.name@, c.is_dir),
            ),
    {
        let ghost base = self.pending@;
        let mut i: usize = 0;
        while i < children.len()
            invariant
                i <= children@.len(),
                self.pending@.len() == base.len() + i,
                self.pending@.subrange(0, base.len() as int) == base,
                forall|k: int| 0 <= k < i ==> task_models(self.pending@)[base.len() + k]
                    == child_task(t@, children@[k].name@, children@[k].is_dir),
            decreases children@.len() - i,
        {
            let c = &children[i];
            let task = CopyTask {
                src: join_path(t.src.as_str(), c.name.as_str()),
                dest: join_path(t.dest.as_str(), c.name.as_str()),
                is_dir: c.is_dir,
            };
            self.pending.push(task);
            proof {
                assert(self.pending@.subrange(0, base.len() as int) =~= base);
            }
            i = i + 1;
        }
        proof {
            assert(task_models(self.pending@) =~= task_models(base) + children@.map_values(
                |c: ChildKind| child_task(t@, c.name@, c.is_dir),
            ));
        }
    }
}

/// The mathematical content of one child seen by the size walk.
pub ghost struct WalkChildModel {
    pub path: Seq<char>,
    pub is_dir: bool,
    pub size: u64,
}

/// A child observed during the size walk: its path, kind, and — for a
/// file — its on-disk usage.
pub struct WalkChild {
    pub path: String,
    pub is_dir: bool,
    pub size: u64,
}

impl View for WalkChild {
    type V = WalkChildModel;

    open spec fn view(&self) -> WalkChildModel {
        WalkChildModel { path: self.path@, is_dir: self.is_dir, size: self.size }
    }
}

/// The models of a sequence of observed children.
pub open spec fn child_models(s: Seq<WalkChild>) -> Seq<WalkChildModel> {
    s.map_values(|c: WalkChild| c@)
}

/// Addition on byte totals, clamped at the largest representable count.
pub open spec fn sat_add(a: int, b: int) -> int {
    if a + b > u64::MAX {
        u64::MAX as int
    } else {
        a + b
    }
}

/// The plain sum of the on-disk sizes of the file children among `items`.
pub open spec fn file_sum(items: Seq<WalkChildModel>) -> int
    decreases items.len(),
{
    if items.len() == 0 {
        0
    } else {
        file_sum(items.drop_last()) + if items.last().is_dir {
            0
        } else {
            items.last().size as int
        }
    }
}

/// The subdirectory paths among `items`, in order.
pub open spec fn dir_paths(items: Seq<WalkChildModel>) -> Seq<Seq<char>>
    decreases items.len(),
{
    if items.len() == 0 {
        Seq::empty()
    } else if items.last().is_dir {
        dir_paths(items.drop_last()).push(items.last().path)
    } else {
        dir_paths(items.drop_last())
    }
}

/// The state of a recursive size computation: the directories still to
/// read and the bytes accumulated so far.
pub struct SizeWalk {
    pending: Vec<String>,
    total: u64,
}

impl SizeWalk {
    /// The directories still to read, newest last.
    pub closed spec fn pending_view(self) -> Seq<Seq<char>> {
        self.pending@.map_values(|p: String| p@)
    }

    /// The bytes accumulated so far.
    pub closed spec fn total_spec(self) -> u64 {
        self.total
    }

    /// Starts a size walk at the root directory.
    pub fn start(root: String) -> (w: SizeWalk)
        ensures
            w.pending_view() == seq![root@],
            w.total_spec() == 0,
    {
        let ghost r = root@;
        let mut pending: Vec<String> = Vec::new();
        pending.push(root);
        proof {
            assert(pending@.map_values(|p: String| p@) =~= seq![r]);
        }
        SizeWalk { pending, total: 0 }
    }

    /// Takes the next directory to read; `None` once the walk is done and
    /// the total is final.
    pub fn next_dir(&mut self) -> (r: Option<String>)
        ensures
            final(self).total_spec() == old(self).total_spec(),
            match r {
                Some(d) => old(self).pending_view().len() > 0 && d@ == old(
                    self,
                ).pending_view().last() && final(self).pending_view() == old(
                    self,
                ).pending_view().drop_last(),
                None => old(self).pending_view().len() == 0 && final(self).pending_view()
                    == old(self).pending_view(),
            },
    {
        let r = self.pending.pop();
        proof {
            if old(self).pending@.len() > 0 {
                let n = old(self).pending@.len();
                assert(old(self).pending@.map_values(|p: String| p@)[n - 1]
                    == old(self).pending@[n - 1]@);
                assert(self.pending@.map_values(|p: String| p@)
                    =~= old(self).pending@.map_values(|p: String| p@).drop_last());
            }
        }
        r
    }

    /// Accounts one directory's children: every file's on-disk usage is
    /// added to the total (clamped at the largest representable count)
    /// and every subdirectory joins the walk. An unreadable directory is
    /// reported with no children and so contributes nothing, without
    /// aborting the rest of the computation.
    pub fn absorb(&mut self, children: &Vec<WalkChild>)
        ensures
            final(self).total_spec() as int == sat_add(
                old(self).total_spec() as int,
                file_sum(child_models(children@)),
            ),
            final(self).pending_view() == old(self).pending_view() + dir_paths(
                child_models(children@),
            ),
    {
        let ghost base_pending = self.pending_view();
        let ghost base_total = self.total_spec() as int;
        let mut i: usize = 0;
        while i < children.len()
            invariant
                i <= children@.len(),
                self.total as int == sat_add(
                    base_total,
                    file_sum(child_models(children@).subrange(0, i as int)),
                ),
                self.pending_view() == base_pending + dir_paths(
                    child_models(children@).subrange(0, i as int),
                ),
            decreases children@.len() - i,
        {
            let c = &children[i];
            proof {
                let m = child_models(children@);
                assert(m.subrange(0, i + 1).drop_last() =~= m.subrange(0, i as int));
                assert(m.subrange(0, i + 1).last() == m[i as int]);
            }
            if c.is_dir {
                let ghost before = self.pending_view();
                let p = clone_string(&c.path);
                self.pending.push(p);
                proof {
                    assert(self.pending_view() =~= before.push(c.path@));
                    assert(self.pending_view() =~= base_pending + dir_paths(
                        child_models(children@).subrange(0, i + 1),
                    ));
                }
            } else {
                if self.total <= u64::MAX - c.size {
                    self.total = self.total + c.size;
                } else {
                    self.total = u64::MAX;
                }
            }
            i = i + 1;
        }
        proof {
            assert(child_models(children@).subrange(0, children@.len() as int)
                =~= child_models(children@));
        }
    }

    /// The bytes accumulated so far; the operation's result once
    /// `next_dir` has returned `None`.
    pub fn total(&self) -> (r: u64)
        ensures
            r == self.total_spec(),
    {
        self.total
    }
}

/// A copy of `s`, as a value of its own.
fn clone_string(s: &String) -> (r: String)
    ensures
        r@ == s@,
{
    let r: String = s.clone();
    r
}

} // verus!
