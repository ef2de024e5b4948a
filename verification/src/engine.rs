//! The sort engine: the one owner of the catalog, the action log and the
//! three destination slots, and the only component that mutates catalog
//! and log together.
//!
//! The engine decides; the shell around it performs the file-system work.
//! `sort_to` and `delete_current` pop the head and hand back what has to
//! be done (a move request, or the path to send to the trash); when the
//! shell reports success it calls `commit_move` or `commit_delete`, which
//! records the reversible action. On failure nothing further is called:
//! no action is recorded, and the popped path is not restored — the
//! deliberate failure semantics of the design. `undo` pops the most
//! recent action and hands it back; once the shell has reversed it on
//! disk, `complete_undo` returns the source path to the head of the
//! catalog.

use vstd::prelude::*;
use crate::action::{Action, ActionKind, ActionLog};
use crate::catalog::{Catalog, swap_removed_head};
use crate::paths::{base_name, image_names_of, join_path};

verus! {

/// One of the three destination category slots.
#[derive(Clone, Copy, PartialEq, Eq, Structural)]
pub enum Slot {
    One,
    Two,
    Three,
}

/// A move the shell has to perform: rename `source` to `target`.
pub struct MoveRequest {
    pub source: String,
    pub target: String,
}

/// The sort engine's whole state: pending images, recorded actions, and
/// the optional directory path of each destination slot.
pub struct SortEngine {
    catalog: Catalog,
    log: ActionLog,
    dest_one: Option<String>,
    dest_two: Option<String>,
    dest_three: Option<String>,
}

impl SortEngine {
    /// The pending image paths, head first.
    pub closed spec fn catalog_view(&self) -> Seq<Seq<char>> {
        self.catalog@
    }

    /// The recorded actions, oldest first.
    pub closed spec fn log_view(&self) -> Seq<Action> {
        self.log@
    }

    /// The directory path a slot holds, if the user has set one.
    pub closed spec fn dest_view(&self, slot: Slot) -> Option<Seq<char>> {
        match slot {
            Slot::One => self.dest_one.deep_view(),
            Slot::Two => self.dest_two.deep_view(),
            Slot::Three => self.dest_three.deep_view(),
        }
    }

    /// All three destination slots unchanged between two states.
    pub open spec fn dests_unchanged(&self, other: &SortEngine) -> bool {
        forall|slot: Slot| self.dest_view(slot) == other.dest_view(slot)
    }

    /// A fresh engine: nothing pending, nothing recorded, no slot set.
    pub fn new() -> (e: SortEngine)
        ensures
            e.catalog_view() == Seq::<Seq<char>>::empty(),
            e.log_view() == Seq::<Action>::empty(),
            forall|slot: Slot| e.dest_view(slot) is None,
    {
        SortEngine {
            catalog: Catalog::new(),
            log: ActionLog::new(),
            dest_one: None,
            dest_two: None,
            dest_three: None,
        }
    }

    /// Replaces the catalog wholesale with the image names found in a
    /// freshly scanned directory listing. The log and the slots stay.
    pub fn open_source_folder(&mut self, names: Vec<String>)
        ensures
            final(self).catalog_view() == image_names_of(names.deep_view()),
            final(self).log_view() == old(self).log_view(),
            final(self).dests_unchanged(old(self)),
    {
        self.catalog = Catalog::load(names);
    }

    /// Sets the directory path of one destination slot; the other slots,
    /// the catalog and the log stay.
    pub fn set_destination(&mut self, slot: Slot, dir: String)
        ensures
            final(self).dest_view(slot) == Some(dir@),
            forall|s: Slot| s != slot ==> final(self).dest_view(s) == old(self).dest_view(s),
            final(self).catalog_view() == old(self).catalog_view(),
            final(self).log_view() == old(self).log_view(),
    {
        match slot {
            Slot::One => self.dest_one = Some(dir),
            Slot::Two => self.dest_two = Some(dir),
            Slot::Three => self.dest_three = Some(dir),
        }
    }

    /// How many images still wait for a decision.
    pub fn remaining_count(&self) -> (n: usize)
        ensures
            n == self.catalog_view().len(),
    {
        self.catalog.len()
    }

    /// The image currently shown: the head of the catalog.
    pub fn current(&self) -> (r: Option<&String>)
        ensures
            self.catalog_view().len() == 0 ==> r is None,
            self.catalog_view().len() > 0 ==> r is Some && r->Some_0@ == self.catalog_view()[0],
    {
        self.catalog.peek_head()
    }

    /// The pending image paths as plain strings, head first.
    pub fn pending(&self) -> (r: &Vec<String>)
        ensures
            r.deep_view() == self.catalog_view(),
    {
        self.catalog.entries()
    }

    /// The recorded actions as plain values, oldest first.
    pub fn history(&self) -> (r: &Vec<Action>)
        ensures
            r@ == self.log_view(),
    {
        self.log.entries()
    }

    /// The directory path a slot holds, if the user has set one.
    pub fn destination(&self, slot: Slot) -> (r: Option<&String>)
        ensures
            r.deep_view() == self.dest_view(slot),
    {
        match slot {
            Slot::One => self.dest_one.as_ref(),
            Slot::Two => self.dest_two.as_ref(),
            Slot::Three => self.dest_three.as_ref(),
        }
    }

    /// A sort into `slot` has both of its engine-side preconditions: the
    /// slot holds a path and an image is pending. The shell must also
    /// confirm that the directory exists on disk.
    pub fn can_sort(&self, slot: Slot) -> (r: bool)
        ensures
            r == (self.dest_view(slot) is Some && self.catalog_view().len() > 0),
    {
        let set = match slot {
            Slot::One => self.dest_one.is_some(),
            Slot::Two => self.dest_two.is_some(),
            Slot::Three => self.dest_three.is_some(),
        };
        set && !self.catalog.is_empty()
    }

    /// A delete has its precondition: an image is pending.
    pub fn can_delete(&self) -> (r: bool)
        ensures
            r == (self.catalog_view().len() > 0),
    {
        !self.catalog.is_empty()
    }

    /// An undo has its precondition: an action is recorded.
    pub fn can_undo(&self) -> (r: bool)
        ensures
            r == (self.log_view().len() > 0),
    {
        !self.log.is_empty()
    }

    /// Decides a sort of the current image into `slot`. With an empty
    /// catalog or an unset slot this is a no-op returning `None`. Else
    /// the head is popped by swap-removal and the returned request names
    /// it as source, with the slot's directory joined with the source's
    /// base name as target. The log is only written by `commit_move`,
    /// after the shell has performed the move.
    pub fn sort_to(&mut self, slot: Slot) -> (r: Option<MoveRequest>)
        ensures
            old(self).catalog_view().len() == 0 || old(self).dest_view(slot) is None ==> {
                r is None && *final(self) == *old(self)
            },
            old(self).catalog_view().len() > 0 && old(self).dest_view(slot) is Some ==> {
                &&& r is Some
                &&& r->Some_0.source@ == old(self).catalog_view()[0]
                &&& r->Some_0.target@ == join_path(
                    old(self).dest_view(slot)->Some_0,
                    base_name(old(self).catalog_view()[0]),
                )
                &&& final(self).catalog_view() == swap_removed_head(old(self).catalog_view())
                &&& final(self).log_view() == old(self).log_view()
                &&& final(self).dests_unchanged(old(self))
            },
    {
        if !self.can_sort(slot) {
            return None;
        }
        let source = match self.catalog.pop_head() {
            Some(p) => p,
            None => { return None; },
        };
        let dir: &String = match slot {
            Slot::One => match &self.dest_one {
                Some(d) => d,
                None => { return None; },
            },
            Slot::Two => match &self.dest_two {
                Some(d) => d,
                None => { return None; },
            },
            Slot::Three => match &self.dest_three {
                Some(d) => d,
                None => { return None; },
            },
        };
        let name = crate::paths::base_name_of(source.as_str());
        let target = crate::paths::join(dir.as_str(), name.as_str());
        Some(MoveRequest { source, target })
    }

    /// Records the move the shell has just performed, making it the most
    /// recent reversible action. Catalog and slots stay.
    pub fn commit_move(&mut self, request: MoveRequest)
        ensures
            final(self).log_view() == old(self).log_view().push(
                Action { from: request.source, to: Some(request.target), kind: ActionKind::Move },
            ),
            final(self).catalog_view() == old(self).catalog_view(),
            final(self).dests_unchanged(old(self)),
    {
        self.log.record(
            Action { from: request.source, to: Some(request.target), kind: ActionKind::Move },
        );
    }

    /// Decides a delete of the current image. With an empty catalog this
    /// is a no-op returning `None`. Else the head is popped by
    /// swap-removal and returned, for the shell to send to the trash.
    /// The log is only written by `commit_delete`, after that succeeds.
    pub fn delete_current(&mut self) -> (r: Option<String>)
        ensures
            old(self).catalog_view().len() == 0 ==> r is None && *final(self) == *old(self),
            old(self).catalog_view().len() > 0 ==> {
                &&& r is Some
                &&& r->Some_0@ == old(self).catalog_view()[0]
                &&& final(self).catalog_view() == swap_removed_head(old(self).catalog_view())
                &&& final(self).log_view() == old(self).log_view()
                &&& final(self).dests_unchanged(old(self))
            },
    {
        self.catalog.pop_head()
    }

    /// Records the delete the shell has just performed. Catalog and
    /// slots stay.
    pub fn commit_delete(&mut self, source: String)
        ensures
            final(self).log_view() == old(self).log_view().push(
                Action { from: source, to: None, kind: ActionKind::Delete },
            ),
            final(self).catalog_view() == old(self).catalog_view(),
            final(self).dests_unchanged(old(self)),
    {
        self.log.record(Action { from: source, to: None, kind: ActionKind::Delete });
    }

    /// Pops the most recent action for the shell to reverse. On an empty
    /// log this is a no-op returning `None`: no error, no state change.
    /// The popped action is gone from the log either way; only a
    /// successful reversal, reported through `complete_undo`, returns
    /// its source to the catalog.
    pub fn undo(&mut self) -> (r: Option<Action>)
        ensures
            old(self).log_view().len() == 0 ==> r is None && *final(self) == *old(self),
            old(self).log_view().len() > 0 ==> {
                &&& r == Some(old(self).log_view().last())
                &&& final(self).log_view() == old(self).log_view().drop_last()
                &&& final(self).catalog_view() == old(self).catalog_view()
                &&& final(self).dests_unchanged(old(self))
            },
    {
        self.log.pop_last()
    }

    /// The shell has put the file back at `source`: the path returns to
    /// the head of the catalog. Log and slots stay.
    pub fn complete_undo(&mut self, source: String)
        ensures
            final(self).catalog_view() == old(self).catalog_view().insert(0, source@),
            final(self).log_view() == old(self).log_view(),
            final(self).dests_unchanged(old(self)),
    {
        self.catalog.push_front(source);
    }
}

} // verus!
