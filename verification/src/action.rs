//! Reversible file operations and the log that records them. The log is a
//! stack: an action is appended when a move or delete succeeds, and only
//! the most recent one is removed again, by an undo.

use vstd::prelude::*;

verus! {

/// Which reversible operation an action records.
#[derive(Clone, Copy, PartialEq, Eq, Structural)]
pub enum ActionKind {
    Move,
    Delete,
}

/// One completed, reversible file operation. `to` is `Some` for a move
/// (the path the file was moved to) and `None` for a delete, which is
/// recoverable only through the trash subsystem.
pub struct Action {
    pub from: String,
    pub to: Option<String>,
    pub kind: ActionKind,
}

/// The append-only-then-popped stack of recorded actions. No operation
/// ever removes from the middle or reorders entries.
pub struct ActionLog {
    actions: Vec<Action>,
}

impl View for ActionLog {
    type V = Seq<Action>;

    closed spec fn view(&self) -> Seq<Action> {
        self.actions@
    }
}

impl ActionLog {
    /// An empty log.
    pub fn new() -> (log: ActionLog)
        ensures
            log@ == Seq::<Action>::empty(),
    {
        let log = ActionLog { actions: Vec::new() };
        proof {
            assert(log@ =~= Seq::<Action>::empty());
        }
        log
    }

    /// Appends an action at the top of the stack.
    pub fn record(&mut self, action: Action)
        ensures
            final(self)@ == old(self)@.push(action),
    {
        self.actions.push(action);
    }

    /// Removes and returns the most recently recorded action, or `None`
    /// on an empty log, leaving it unchanged.
    pub fn pop_last(&mut self) -> (r: Option<Action>)
        ensures
            old(self)@.len() == 0 ==> r is None && *final(self) == *old(self),
            old(self)@.len() > 0 ==> {
                &&& r == Some(old(self)@.last())
                &&& final(self)@ == old(self)@.drop_last()
            },
    {
        if self.actions.is_empty() {
            None
        } else {
            let r = self.actions.pop();
            proof {
                assert(final(self)@ =~= old(self)@.drop_last());
            }
            r
        }
    }

    pub fn is_empty(&self) -> (r: bool)
        ensures
            r == (self@.len() == 0),
    {
        self.actions.is_empty()
    }

    /// The recorded actions, oldest first.
    pub fn entries(&self) -> (r: &Vec<Action>)
        ensures
            r@ == self@,
    {
        &self.actions
    }
}

} // verus!
