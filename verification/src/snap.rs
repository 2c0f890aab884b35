use vstd::prelude::*;

verus! {

/// The edit modes of an input session.
#[derive(Clone, Copy, Debug, PartialEq, Eq, Structural)]
pub enum InputMode {
    Normal,
    Insert,
    Replace,
}

/// A multi-step operation awaiting its second input. Only the clearing to
/// `Idle` is exercised by the commands here; the other variants reserve
/// room for operator-pending editing, each carrying the character position
/// where the operation started.
#[derive(Clone, Copy, Debug, PartialEq, Eq, Structural)]
pub enum InputOp {
    Idle,
    Select(usize),
    Delete(usize),
    Yank(usize),
}

/// One at-rest state of the edited buffer: the text, the character-unit
/// cursor, the pending operation and the mode. Snapshots are mutated only
/// through the engine's commands, which keep the cursor inside
/// `[0, char_length]`.
#[derive(Debug)]
pub struct InputSnap {
    pub value: String,
    pub cursor: usize,
    pub op: InputOp,
    pub mode: InputMode,
}

/// The mathematical content of a snapshot: the character sequence, the
/// character-unit cursor, the pending operation and the mode.
#[verifier::ext_equal]
pub struct SnapView {
    pub value: Seq<char>,
    pub cursor: int,
    pub op: InputOp,
    pub mode: InputMode,
}

impl SnapView {
    /// The cursor lies on a character position of the content.
    pub open spec fn wf(self) -> bool {
        0 <= self.cursor <= self.value.len()
    }
}

impl View for InputSnap {
    type V = SnapView;

    open spec fn view(&self) -> SnapView {
        SnapView {
            value: self.value@,
            cursor: self.cursor as int,
            op: self.op,
            mode: self.mode,
        }
    }
}

impl InputSnap {
    /// An editable copy of this snapshot.
    pub fn duplicate(&self) -> (r: InputSnap)
        ensures
            r@ == self@,
    {
        let r = InputSnap {
            value: self.value.clone(),
            cursor: self.cursor,
            op: self.op,
            mode: self.mode,
        };
        proof {
            assert(r@ =~= self@);
        }
        r
    }

    /// True when the two snapshots hold the same state.
    pub fn same_state(&self, other: &InputSnap) -> (r: bool)
        ensures
            r == (self@ == other@),
    {
        let r = self.value == other.value && self.cursor == other.cursor && self.op == other.op
            && self.mode == other.mode;
        proof {
            if r {
                assert(self@ =~= other@);
            }
        }
        r
    }
}

} // verus!
