//! The undo/redo history of committed drawables: an ordered stack plus a
//! cursor.  The sequence visible for rendering is exactly the prefix up to
//! the cursor; the redo tail is retained but invisible until redone, and is
//! discarded permanently by a new commit.

use vstd::prelude::*;

use crate::drawable::{Drawable, SpecDrawable};

verus! {

/// The ghost model of the history: the committed sequence and the cursor.
pub struct HistoryModel {
    pub stack: Seq<SpecDrawable>,
    pub cursor: int,
}

impl HistoryModel {
    pub open spec fn wf(self) -> bool {
        0 <= self.cursor <= self.stack.len()
    }

    /// The drawables visible for rendering: the prefix up to the cursor.
    pub open spec fn visible(self) -> Seq<SpecDrawable> {
        self.stack.take(self.cursor)
    }

    pub open spec fn empty() -> HistoryModel {
        HistoryModel { stack: Seq::empty(), cursor: 0 }
    }

    /// Committing truncates the redo tail, appends, and advances the cursor.
    pub open spec fn commit(self, d: SpecDrawable) -> HistoryModel {
        HistoryModel { stack: self.visible().push(d), cursor: self.cursor + 1 }
    }

    /// Undoing moves the cursor back if possible; the stack is untouched.
    pub open spec fn undo(self) -> HistoryModel {
        if self.cursor > 0 {
            HistoryModel { stack: self.stack, cursor: self.cursor - 1 }
        } else {
            self
        }
    }

    /// Redoing moves the cursor forward if possible; the stack is untouched.
    pub open spec fn redo(self) -> HistoryModel {
        if self.cursor < self.stack.len() {
            HistoryModel { stack: self.stack, cursor: self.cursor + 1 }
        } else {
            self
        }
    }
}

/// The undo/redo history of committed drawables.
pub struct History {
    pub stack: Vec<Drawable>,
    pub cursor: usize,
}

impl History {
    pub open spec fn wf(self) -> bool {
        self.cursor <= self.stack@.len() && forall|i: int|
            0 <= i < self.stack@.len() ==> (#[trigger] self.stack@[i]).wf()
    }

    pub open spec fn model(self) -> HistoryModel {
        HistoryModel {
            stack: self.stack@.map_values(|d: Drawable| d.dview()),
            cursor: self.cursor as int,
        }
    }

    /// The drawables visible for rendering.
    pub open spec fn visible(self) -> Seq<SpecDrawable> {
        self.model().visible()
    }

    pub fn new() -> (h: History)
        ensures
            h.wf(),
            h.model() == HistoryModel::empty(),
    {
        let h = History { stack: Vec::new(), cursor: 0 };
        proof {
            assert(h.model().stack =~= HistoryModel::empty().stack);
        }
        h
    }

    /// Commit a new drawable: discard the redo tail, append, advance.
    pub fn commit(&mut self, d: Drawable)
        requires
            old(self).wf(),
            d.wf(),
        ensures
            final(self).wf(),
            final(self).model() == old(self).model().commit(d.dview()),
    {
        self.stack.truncate(self.cursor);
        self.stack.push(d);
        self.cursor = self.stack.len();
        proof {
            assert(self.model().stack =~= old(self).model().commit(d.dview()).stack);
        }
    }

    /// Undo one commit if possible; reports whether anything changed.
    pub fn undo(&mut self) -> (r: bool)
        requires
            old(self).wf(),
        ensures
            final(self).wf(),
            final(self).model() == old(self).model().undo(),
            r == (old(self).cursor > 0),
    {
        if self.cursor > 0 {
            self.cursor = self.cursor - 1;
            true
        } else {
            false
        }
    }

    /// Redo one undone commit if possible; reports whether anything changed.
    pub fn redo(&mut self) -> (r: bool)
        requires
            old(self).wf(),
        ensures
            final(self).wf(),
            final(self).model() == old(self).model().redo(),
            r == (old(self).cursor < old(self).stack@.len()),
    {
        if self.cursor < self.stack.len() {
            self.cursor = self.cursor + 1;
            true
        } else {
            false
        }
    }

    /// Discard every commit; reports whether anything was discarded.
    pub fn reset(&mut self) -> (r: bool)
        requires
            old(self).wf(),
        ensures
            final(self).wf(),
            final(self).model() == HistoryModel::empty(),
            r == (old(self).stack@.len() > 0),
    {
        let was_nonempty = self.stack.len() > 0;
        self.stack = Vec::new();
        self.cursor = 0;
        proof {
            assert(self.model().stack =~= HistoryModel::empty().stack);
        }
        was_nonempty
    }

    /// How many drawables are visible.
    pub fn visible_len(&self) -> (r: usize)
        requires
            self.wf(),
        ensures
            r == self.visible().len(),
    {
        self.cursor
    }

    /// The `i`-th visible drawable.
    pub fn visible_at(&self, i: usize) -> (r: &Drawable)
        requires
            self.wf(),
            i < self.visible().len(),
        ensures
            r.dview() == self.visible()[i as int],
            r.wf(),
    {
        &self.stack[i]
    }
}

/// The history after a sequence of commits, in order.
pub open spec fn apply_commits(m: HistoryModel, ds: Seq<SpecDrawable>) -> HistoryModel
    decreases ds.len(),
{
    if ds.len() == 0 {
        m
    } else {
        apply_commits(m.commit(ds[0]), ds.drop_first())
    }
}

/// The history after `k` undos.
pub open spec fn apply_undos(m: HistoryModel, k: nat) -> HistoryModel
    decreases k,
{
    if k == 0 {
        m
    } else {
        apply_undos(m.undo(), (k - 1) as nat)
    }
}

/// Commits from a fully-redone history append in order.
proof fn lemma_apply_commits(m: HistoryModel, ds: Seq<SpecDrawable>)
    requires
        m.wf(),
        m.cursor == m.stack.len(),
    ensures
        apply_commits(m, ds).stack =~= m.stack + ds,
        apply_commits(m, ds).cursor == m.stack.len() + ds.len(),
    decreases ds.len(),
{
    if ds.len() == 0 {
        assert(m.stack + ds =~= m.stack);
    } else {
        let m1 = m.commit(ds[0]);
        assert(m1.stack =~= m.stack.push(ds[0])) by {
            assert(m.visible() =~= m.stack);
        }
        lemma_apply_commits(m1, ds.drop_first());
        assert(m1.stack + ds.drop_first() =~= m.stack + ds);
    }
}

/// Undos only move the cursor back, never past zero.
proof fn lemma_apply_undos(m: HistoryModel, k: nat)
    requires
        m.wf(),
        k <= m.cursor,
    ensures
        apply_undos(m, k).stack == m.stack,
        apply_undos(m, k).cursor == m.cursor - k,
    decreases k,
{
    if k > 0 {
        lemma_apply_undos(m.undo(), (k - 1) as nat);
    }
}

/// The history law: after commits `d1..dn` followed by `k` undos (`k <= n`),
/// the visible drawables are exactly `d1..d(n-k)`; a subsequent redo makes
/// `d(n-k+1)` visible again; and a new commit after an undo discards the
/// previous redo tail permanently.
pub proof fn lemma_history_commit_undo_redo(ds: Seq<SpecDrawable>, k: nat, d: SpecDrawable)
    requires
        k <= ds.len(),
    ensures
        ({
            let m = apply_undos(apply_commits(HistoryModel::empty(), ds), k);
            m.visible() =~= ds.take(ds.len() - k) && (k > 0 ==> m.redo().visible() =~= ds.take(
                ds.len() - k + 1,
            ) && m.redo().visible() =~= m.visible().push(ds[ds.len() - k])) && m.commit(d).stack
                =~= ds.take(ds.len() - k).push(d) && m.commit(d).visible() =~= ds.take(
                ds.len() - k,
            ).push(d)
        }),
{
    let c = apply_commits(HistoryModel::empty(), ds);
    lemma_apply_commits(HistoryModel::empty(), ds);
    assert(c.stack =~= ds);
    lemma_apply_undos(c, k);
    let m = apply_undos(c, k);
    assert(m.visible() =~= ds.take(ds.len() - k));
    if k > 0 {
        assert(m.redo().visible() =~= ds.take(ds.len() - k + 1));
        assert(m.redo().visible() =~= m.visible().push(ds[ds.len() - k]));
    }
    assert(m.commit(d).stack =~= ds.take(ds.len() - k).push(d));
    assert(m.commit(d).visible() =~= m.commit(d).stack);
}

} // verus!
