use crate::cursor::splice_at;
use crate::history::{hist_wf, redo_v, tag_v, undo_v, InputSnaps};
use crate::options::InputCfg;
use crate::snap::{InputMode, InputOp, InputSnap, SnapView};
use vstd::prelude::*;
use vstd::string::StrSliceExecFns;

verus! {

/// The modal input engine: the snapshot history it edits, the realtime
/// flush policy, the edge-triggered render signal owned by the engine and
/// consumed by the owning loop, and the value last flushed to a realtime
/// consumer.
pub struct Input {
    pub snaps: InputSnaps,
    pub realtime: bool,
    pub render: bool,
    pub flushed: Option<String>,
}

/// On a committing mutation the new value is flushed to the realtime
/// consumer exactly when the realtime policy is set.
pub open spec fn flushed_rel(pre: Input, post: Input) -> bool {
    if pre.realtime {
        post.flushed matches Some(f) && f@ == post.cur().value
    } else {
        post.flushed == pre.flushed
    }
}

/// What entering replace mode does: only legal from normal mode, where it
/// clears the pending operation, enters replace mode and raises the render
/// signal; from any other mode the command is a silent no-op.
pub open spec fn enter_replace_rel(pre: Input, post: Input) -> bool {
    if pre.cur().mode == InputMode::Normal {
        &&& post.cur() == (SnapView { op: InputOp::Idle, mode: InputMode::Replace, ..pre.cur() })
        &&& post.snaps@.versions == pre.snaps@.versions
        &&& post.snaps@.idx == pre.snaps@.idx
        &&& post.realtime == pre.realtime
        &&& post.render
        &&& post.flushed == pre.flushed
    } else {
        post == pre
    }
}

/// What replacing the character under the cursor with `s` does: with the
/// cursor on a character, that character is swapped for the characters of
/// `s`, the change is flushed and the render signal raised, and nothing
/// else — cursor, pending operation, mode and committed history included —
/// changes. With the cursor at the end of the content the storage offset
/// of the following position does not exist, and the command is a no-op:
/// no field changes and no history entry is pushed.
pub open spec fn replace_str_rel(pre: Input, post: Input, s: Seq<char>) -> bool {
    if pre.cur().cursor < pre.cur().value.len() {
        &&& post.cur().value == pre.cur().value.take(pre.cur().cursor) + s + pre.cur().value.skip(
            pre.cur().cursor + 1,
        )
        &&& post.cur().cursor == pre.cur().cursor
        &&& post.cur().op == pre.cur().op
        &&& post.cur().mode == pre.cur().mode
        &&& post.snaps@.versions == pre.snaps@.versions
        &&& post.snaps@.idx == pre.snaps@.idx
        &&& post.realtime == pre.realtime
        &&& post.render
        &&& flushed_rel(pre, post)
    } else {
        post == pre
    }
}

/// What undoing does: the history moves back as `undo_v` says, and the
/// render signal is raised exactly when it moved.
pub open spec fn undo_rel(pre: Input, post: Input) -> bool {
    &&& post.snaps@ == undo_v(pre.snaps@)
    &&& post.realtime == pre.realtime
    &&& post.flushed == pre.flushed
    &&& post.render == if pre.snaps@.idx > 0 {
        true
    } else {
        pre.render
    }
}

/// What redoing does: the history moves forward as `redo_v` says, and the
/// render signal is raised exactly when it moved.
pub open spec fn redo_rel(pre: Input, post: Input) -> bool {
    &&& post.snaps@ == redo_v(pre.snaps@)
    &&& post.realtime == pre.realtime
    &&& post.flushed == pre.flushed
    &&& post.render == if pre.snaps@.idx + 1 < pre.snaps@.versions.len() {
        true
    } else {
        pre.render
    }
}

/// What committing does: the history is tagged as `tag_v` says and nothing
/// else changes.
pub open spec fn commit_rel(pre: Input, post: Input) -> bool {
    &&& post.snaps@ == tag_v(pre.snaps@)
    &&& post.realtime == pre.realtime
    &&& post.flushed == pre.flushed
    &&& post.render == pre.render
}

/// What ending the modal interaction does: from any mode but normal, the
/// mode returns to normal with the pending operation cleared and the
/// render signal raised; in normal mode nothing changes.
pub open spec fn escape_rel(pre: Input, post: Input) -> bool {
    if pre.cur().mode != InputMode::Normal {
        &&& post.cur() == (SnapView { op: InputOp::Idle, mode: InputMode::Normal, ..pre.cur() })
        &&& post.snaps@.versions == pre.snaps@.versions
        &&& post.snaps@.idx == pre.snaps@.idx
        &&& post.realtime == pre.realtime
        &&& post.render
        &&& post.flushed == pre.flushed
    } else {
        post == pre
    }
}

/// One named command of the engine's surface, with its argument payload.
#[derive(Debug)]
pub enum InputCmd {
    Replace,
    ReplaceStr(String),
    Undo,
    Redo,
    Commit,
    Escape,
}

impl Input {
    /// The snapshot history is well formed.
    pub open spec fn wf(self) -> bool {
        hist_wf(self.snaps@)
    }

    /// The current snapshot's state.
    pub open spec fn cur(self) -> SnapView {
        self.snaps@.cur
    }

    /// Opens an input session seeded from the recognised configuration
    /// fields: the initial value, the initial cursor (clamped to the end of
    /// the value, and defaulting to it), and the realtime flush policy. The
    /// session starts in normal mode with no pending operation, one
    /// committed snapshot, and the render signal raised.
    pub fn open(cfg: &InputCfg) -> (r: Input)
        ensures
            r.wf(),
            r.cur().value == cfg.value@,
            r.cur().mode == InputMode::Normal,
            r.cur().op == InputOp::Idle,
            r.cur().cursor == (match cfg.cursor {
                Some(c) => if c <= cfg.value@.len() {
                    c as int
                } else {
                    cfg.value@.len() as int
                },
                None => cfg.value@.len() as int,
            }),
            r.snaps@.versions == seq![r.cur()],
            r.snaps@.idx == 0,
            r.realtime == cfg.realtime,
            r.render,
            r.flushed is None,
    {
        let value = cfg.value.clone();
        let n = value.as_str().unicode_len();
        let cursor = match cfg.cursor {
            Some(c) => if c <= n {
                c
            } else {
                n
            },
            None => n,
        };
        let snap = InputSnap { value, cursor, op: InputOp::Idle, mode: InputMode::Normal };
        Input { snaps: InputSnaps::new(snap), realtime: cfg.realtime, render: true, flushed: None }
    }

    /// Enters replace mode. Legal only from normal mode, where the pending
    /// operation is cleared; from any other mode the command is a silent
    /// no-op that changes no state and raises no signal.
    pub fn replace(&mut self)
        requires
            old(self).wf(),
        ensures
            final(self).wf(),
            enter_replace_rel(*old(self), *final(self)),
    {
        if self.snaps.current.mode == InputMode::Normal {
            self.snaps.current.op = InputOp::Idle;
            self.snaps.current.mode = InputMode::Replace;
            self.render = true;
            proof {
                assert(self.cur() =~= (SnapView {
                    op: InputOp::Idle,
                    mode: InputMode::Replace,
                    ..old(self).cur()
                }));
            }
        }
    }

    /// Replaces the single character under the cursor with `s`: the storage
    /// offsets of the cursor and of the following position bound the
    /// character, and the bytes between them are swapped for the bytes of
    /// `s`. Both offsets must exist; at the end of the content the second
    /// lookup fails and the command is a no-op that mutates nothing. The
    /// cursor itself does not move.
    pub fn replace_str(&mut self, s: &str)
        requires
            old(self).wf(),
        ensures
            final(self).wf(),
            replace_str_rel(*old(self), *final(self), s@),
    {
        let cursor = self.snaps.current.cursor;
        let n = self.snaps.current.value.as_str().unicode_len();
        if cursor >= n {
            return ;
        }
        let new_value = splice_at(self.snaps.current.value.as_str(), cursor, s);
        self.snaps.current.value = new_value;
        self.flush_value();
        self.render = true;
    }

    /// Propagates the current value to the realtime consumer, if the
    /// session has one.
    fn flush_value(&mut self)
        ensures
            final(self).snaps == old(self).snaps,
            final(self).realtime == old(self).realtime,
            final(self).render == old(self).render,
            flushed_rel(*old(self), *final(self)),
    {
        if self.realtime {
            self.flushed = Some(self.snaps.current.value.clone());
        }
    }

    /// Moves the active state back one committed snapshot and raises the
    /// render signal; a no-op at the oldest entry. Returns whether it
    /// moved.
    pub fn undo(&mut self) -> (r: bool)
        requires
            old(self).wf(),
        ensures
            final(self).wf(),
            undo_rel(*old(self), *final(self)),
            r == (old(self).snaps@.idx > 0),
    {
        let moved = self.snaps.undo();
        if moved {
            self.render = true;
        }
        moved
    }

    /// Moves the active state forward one committed snapshot and raises
    /// the render signal; a no-op at the newest entry. Returns whether it
    /// moved.
    pub fn redo(&mut self) -> (r: bool)
        requires
            old(self).wf(),
        ensures
            final(self).wf(),
            redo_rel(*old(self), *final(self)),
            r == (old(self).snaps@.idx + 1 < old(self).snaps@.versions.len()),
    {
        let moved = self.snaps.redo();
        if moved {
            self.render = true;
        }
        moved
    }

    /// Commits the current state onto the history tip, discarding any redo
    /// candidates. Returns whether a new entry was pushed.
    pub fn commit(&mut self) -> (r: bool)
        requires
            old(self).wf(),
        ensures
            final(self).wf(),
            commit_rel(*old(self), *final(self)),
            r == (old(self).snaps@.cur != old(self).snaps@.versions[old(self).snaps@.idx]),
    {
        self.snaps.tag()
    }

    /// Ends the modal interaction: returns to normal mode with the pending
    /// operation cleared; a silent no-op in normal mode.
    pub fn escape(&mut self)
        requires
            old(self).wf(),
        ensures
            final(self).wf(),
            escape_rel(*old(self), *final(self)),
    {
        if self.snaps.current.mode != InputMode::Normal {
            self.snaps.current.op = InputOp::Idle;
            self.snaps.current.mode = InputMode::Normal;
            self.render = true;
            proof {
                assert(self.cur() =~= (SnapView {
                    op: InputOp::Idle,
                    mode: InputMode::Normal,
                    ..old(self).cur()
                }));
            }
        }
    }

    /// Dispatches one command to the engine; the closed set of commands is
    /// matched exhaustively.
    pub fn execute(&mut self, cmd: &InputCmd)
        requires
            old(self).wf(),
        ensures
            final(self).wf(),
            match cmd {
                InputCmd::Replace => enter_replace_rel(*old(self), *final(self)),
                InputCmd::ReplaceStr(s) => replace_str_rel(*old(self), *final(self), s@),
                InputCmd::Undo => undo_rel(*old(self), *final(self)),
                InputCmd::Redo => redo_rel(*old(self), *final(self)),
                InputCmd::Commit => commit_rel(*old(self), *final(self)),
                InputCmd::Escape => escape_rel(*old(self), *final(self)),
            },
    {
        match cmd {
            InputCmd::Replace => self.replace(),
            InputCmd::ReplaceStr(s) => self.replace_str(s.as_str()),
            InputCmd::Undo => {
                let _ = self.undo();
            },
            InputCmd::Redo => {
                let _ = self.redo();
            },
            InputCmd::Commit => {
                let _ = self.commit();
            },
            InputCmd::Escape => self.escape(),
        }
    }

    /// Closes the session and hands the final content back to the caller.
    pub fn close(self) -> (r: String)
        ensures
            r@ == self.cur().value,
    {
        self.snaps.current.value
    }

    /// Consumes the edge-triggered render signal: returns whether a redraw
    /// is due and clears the flag.
    pub fn take_render(&mut self) -> (r: bool)
        ensures
            r == old(self).render,
            !final(self).render,
            final(self).snaps == old(self).snaps,
            final(self).realtime == old(self).realtime,
            final(self).flushed == old(self).flushed,
    {
        let r = self.render;
        self.render = false;
        r
    }

    /// Takes the value last flushed to the realtime consumer.
    pub fn take_flushed(&mut self) -> (r: Option<String>)
        ensures
            r == old(self).flushed,
            final(self).flushed is None,
            final(self).snaps == old(self).snaps,
            final(self).realtime == old(self).realtime,
            final(self).render == old(self).render,
    {
        self.flushed.take()
    }

    /// The current text.
    pub fn value(&self) -> (r: String)
        ensures
            r@ == self.cur().value,
    {
        self.snaps.current.value.clone()
    }

    /// The current character-unit cursor.
    pub fn cursor(&self) -> (r: usize)
        ensures
            r == self.cur().cursor,
    {
        self.snaps.current.cursor
    }

    /// The current mode.
    pub fn mode(&self) -> (r: InputMode)
        ensures
            r == self.cur().mode,
    {
        self.snaps.current.mode
    }

    /// The pending operation.
    pub fn op(&self) -> (r: InputOp)
        ensures
            r == self.cur().op,
    {
        self.snaps.current.op
    }
}

/// Replacing one character with a single-character string keeps the
/// character length, swaps exactly the character under the cursor, and
/// leaves every other character in place.
pub proof fn lemma_replace_single_char(v: Seq<char>, cursor: int, s: Seq<char>)
    requires
        0 <= cursor < v.len(),
        s.len() == 1,
    ensures
        (v.take(cursor) + s + v.skip(cursor + 1)).len() == v.len(),
        (v.take(cursor) + s + v.skip(cursor + 1))[cursor] == s[0],
        forall|i: int|
            0 <= i < v.len() && i != cursor ==> (v.take(cursor) + s + v.skip(cursor + 1))[i] == v[i],
{
}

} // verus!
