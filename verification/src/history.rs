use crate::snap::{InputSnap, SnapView};
use vstd::prelude::*;

verus! {

/// The mathematical content of the history: the committed snapshots, the
/// index of the active one, and the current (possibly edited) state.
#[verifier::ext_equal]
pub struct HistView {
    pub versions: Seq<SnapView>,
    pub idx: int,
    pub cur: SnapView,
}

/// There is always at least one committed snapshot, the active index lies
/// inside the sequence, and every held state keeps its cursor inside the
/// content.
pub open spec fn hist_wf(h: HistView) -> bool {
    &&& h.versions.len() >= 1
    &&& 0 <= h.idx < h.versions.len()
    &&& forall|i: int| 0 <= i < h.versions.len() ==> (#[trigger] h.versions[i]).wf()
    &&& h.cur.wf()
}

/// What undoing does to the history: when the active index is not the
/// oldest, it moves back one and that snapshot becomes the active state;
/// otherwise nothing changes.
pub open spec fn undo_v(h: HistView) -> HistView {
    if h.idx > 0 {
        HistView { versions: h.versions, idx: h.idx - 1, cur: h.versions[h.idx - 1] }
    } else {
        h
    }
}

/// What redoing does to the history: when the active index is not the
/// newest, it moves forward one and that snapshot becomes the active
/// state; otherwise nothing changes.
pub open spec fn redo_v(h: HistView) -> HistView {
    if h.idx + 1 < h.versions.len() {
        HistView { versions: h.versions, idx: h.idx + 1, cur: h.versions[h.idx + 1] }
    } else {
        h
    }
}

/// What committing does to the history: when the current state differs
/// from the active committed snapshot, the entries newer than the active
/// one are discarded and the current state is pushed as the new tip;
/// otherwise nothing changes.
pub open spec fn tag_v(h: HistView) -> HistView {
    if h.cur == h.versions[h.idx] {
        h
    } else {
        HistView {
            versions: h.versions.take(h.idx + 1).push(h.cur),
            idx: h.idx + 1,
            cur: h.cur,
        }
    }
}

/// The snapshot history: an ordered sequence of committed snapshots, the
/// index of the one last synchronised with the buffer, and the current
/// editable state.
#[derive(Debug)]
pub struct InputSnaps {
    pub idx: usize,
    pub versions: Vec<InputSnap>,
    pub current: InputSnap,
}

impl View for InputSnaps {
    type V = HistView;

    open spec fn view(&self) -> HistView {
        HistView {
            versions: self.versions@.map_values(|s: InputSnap| s@),
            idx: self.idx as int,
            cur: self.current@,
        }
    }
}

impl InputSnaps {
    /// Opens a history whose single committed entry is the given snapshot,
    /// which is also the current state.
    pub fn new(snap: InputSnap) -> (r: InputSnaps)
        ensures
            r@.versions == seq![snap@],
            r@.idx == 0,
            r@.cur == snap@,
            snap@.wf() ==> hist_wf(r@),
    {
        let first = snap.duplicate();
        let mut versions: Vec<InputSnap> = Vec::new();
        versions.push(first);
        let r = InputSnaps { idx: 0, versions, current: snap };
        proof {
            assert(r@.versions =~= seq![snap@]);
        }
        r
    }

    /// Commits the current state: when it differs from the active committed
    /// snapshot, any redo candidates beyond the active index are discarded
    /// and the current state becomes the newest committed entry. Returns
    /// whether an entry was pushed.
    pub fn tag(&mut self) -> (r: bool)
        requires
            hist_wf(old(self)@),
        ensures
            final(self)@ == tag_v(old(self)@),
            r == (old(self)@.cur != old(self)@.versions[old(self)@.idx]),
            hist_wf(final(self)@),
            r ==> final(self)@.idx == final(self)@.versions.len() - 1,
    {
        let same = self.current.same_state(&self.versions[self.idx]);
        if same {
            false
        } else {
            let len = self.versions.len();
            assert(self.idx < len);
            self.versions.truncate(self.idx + 1);
            let dup = self.current.duplicate();
            self.versions.push(dup);
            self.idx = self.idx + 1;
            proof {
                assert(self@.versions =~= old(self)@.versions.take(old(self)@.idx + 1).push(
                    old(self)@.cur,
                ));
                assert(self@ =~= tag_v(old(self)@));
            }
            true
        }
    }

    /// Moves the active state back one committed snapshot; a no-op at the
    /// oldest entry. Returns whether it moved.
    pub fn undo(&mut self) -> (r: bool)
        requires
            hist_wf(old(self)@),
        ensures
            final(self)@ == undo_v(old(self)@),
            r == (old(self)@.idx > 0),
            hist_wf(final(self)@),
    {
        if self.idx > 0 {
            self.idx = self.idx - 1;
            let dup = self.versions[self.idx].duplicate();
            self.current = dup;
            proof {
                assert(self@ =~= undo_v(old(self)@));
            }
            true
        } else {
            false
        }
    }

    /// Moves the active state forward one committed snapshot; a no-op at
    /// the newest entry. Returns whether it moved.
    pub fn redo(&mut self) -> (r: bool)
        requires
            hist_wf(old(self)@),
        ensures
            final(self)@ == redo_v(old(self)@),
            r == (old(self)@.idx + 1 < old(self)@.versions.len()),
            hist_wf(final(self)@),
    {
        let len = self.versions.len();
        if self.idx < len - 1 {
            self.idx = self.idx + 1;
            let dup = self.versions[self.idx].duplicate();
            self.current = dup;
            proof {
                assert(self@ =~= redo_v(old(self)@));
            }
            true
        } else {
            false
        }
    }
}

/// The history after `k` undos.
pub open spec fn undo_n(h: HistView, k: nat) -> HistView
    decreases k,
{
    if k == 0 {
        h
    } else {
        undo_n(undo_v(h), (k - 1) as nat)
    }
}

/// The history after `k` redos.
pub open spec fn redo_n(h: HistView, k: nat) -> HistView
    decreases k,
{
    if k == 0 {
        h
    } else {
        redo_n(redo_v(h), (k - 1) as nat)
    }
}

/// After `k` undos from a committed state (one whose current state equals
/// the active committed snapshot), the committed snapshots are untouched,
/// the active index has moved back exactly `k`, and the active state is
/// the committed snapshot at that index.
pub proof fn lemma_undo_n(h: HistView, k: nat)
    requires
        hist_wf(h),
        h.cur == h.versions[h.idx],
        k <= h.idx,
    ensures
        undo_n(h, k).versions == h.versions,
        undo_n(h, k).idx == h.idx - k,
        undo_n(h, k).cur == h.versions[h.idx - k],
        hist_wf(undo_n(h, k)),
    decreases k,
{
    if k == 0 {
    } else {
        lemma_undo_n(undo_v(h), (k - 1) as nat);
    }
}

/// Undo/redo round trip: from a committed state, `k` undos followed by
/// `k` redos restore exactly the state before them.
pub proof fn lemma_undo_redo_round_trip(h: HistView, k: nat)
    requires
        hist_wf(h),
        h.cur == h.versions[h.idx],
        k <= h.idx,
    ensures
        redo_n(undo_n(h, k), k) == h,
    decreases k,
{
    if k == 0 {
    } else {
        lemma_undo_n(h, k);
        lemma_undo_n(h, (k - 1) as nat);
        let b = undo_n(h, k);
        assert(redo_v(b) =~= undo_n(h, (k - 1) as nat));
        lemma_undo_redo_round_trip(h, (k - 1) as nat);
        assert(redo_n(b, k) == redo_n(redo_v(b), (k - 1) as nat));
    }
}

/// Redo-branch pruning: committing an edited current state discards every
/// newer entry, so a redo straight after such a commit is a no-op.
pub proof fn lemma_redo_after_tag_noop(h: HistView)
    requires
        hist_wf(h),
        h.cur != h.versions[h.idx],
    ensures
        redo_v(tag_v(h)) == tag_v(h),
{
}

} // verus!
