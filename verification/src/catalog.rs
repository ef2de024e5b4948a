//! The catalog: the ordered queue of image paths still waiting for a sort
//! decision. Index 0 is always the image currently shown. The head is
//! removed by swap-removal — O(1), at the cost of the scan order of the
//! remaining entries — and an undo re-inserts a path at index 0.

use vstd::prelude::*;
use vstd::multiset::Multiset;
use crate::paths::image_names_of;

verus! {

/// The sequence left after swap-removing the head: the last entry moves
/// into position 0 and the sequence shrinks by one.
pub open spec fn swap_removed_head(s: Seq<Seq<char>>) -> Seq<Seq<char>> {
    s.update(0, s.last()).drop_last()
}

/// Two multisets with the same positive count of `x` and equal remainders
/// after removing one `x` are equal.
proof fn lemma_multiset_eq_from_equal_removes(m1: Multiset<Seq<char>>, m2: Multiset<Seq<char>>, x: Seq<char>)
    requires
        m1.count(x) > 0,
        m2.count(x) > 0,
        m1.remove(x) == m2.remove(x),
    ensures
        m1 == m2,
{
    broadcast use vstd::multiset::group_multiset_axioms;

    assert forall|y: Seq<char>| m1.count(y) == m2.count(y) by {
        assert(m1.remove(x).count(y) == m2.remove(x).count(y));
        assert(m1.remove(x) == m1.sub(Multiset::singleton(x)));
        assert(m2.remove(x) == m2.sub(Multiset::singleton(x)));
        if y == x {
            assert(Multiset::singleton(x).count(y) == 1);
            assert(m1.sub(Multiset::singleton(x)).count(y) == m1.count(y) - 1);
            assert(m2.sub(Multiset::singleton(x)).count(y) == m2.count(y) - 1);
        } else {
            assert(Multiset::singleton(x).count(y) == 0);
            assert(m1.sub(Multiset::singleton(x)).count(y) == m1.count(y));
            assert(m2.sub(Multiset::singleton(x)).count(y) == m2.count(y));
        }
    }
    assert(m1 =~= m2);
}

/// Swap-removing the head takes exactly one copy of the head out of the
/// catalog's multiset of paths.
pub proof fn lemma_swap_removed_head_multiset(cat: Seq<Seq<char>>)
    requires
        cat.len() > 0,
    ensures
        swap_removed_head(cat).to_multiset() == cat.to_multiset().remove(cat[0]),
{
    broadcast use vstd::seq_lib::group_to_multiset_ensures;
    broadcast use vstd::multiset::group_multiset_axioms;

    let n = cat.len() as int;
    let b = swap_removed_head(cat);
    let c = cat.remove(0);
    if n == 1 {
        assert(b =~= c);
    } else {
        let x = cat.last();
        assert(b.remove(0) =~= c.remove(c.len() - 1));
        assert(b[0] == x);
        assert(c[c.len() - 1] == x);
        assert(b.remove(0).to_multiset() == b.to_multiset().remove(x));
        assert(c.remove(c.len() - 1).to_multiset() == c.to_multiset().remove(x));
        assert(b.contains(x));
        assert(c.contains(x));
        lemma_multiset_eq_from_equal_removes(b.to_multiset(), c.to_multiset(), x);
    }
    assert(c.to_multiset() == cat.to_multiset().remove(cat[0]));
}

/// Sorting or deleting the current image and then undoing that action
/// leaves the catalog with exactly the multiset of paths it held before:
/// the head is popped by swap-removal, and the undo re-inserts it at
/// index 0. Only the head's position is restored; the order of the other
/// entries is not.
pub proof fn lemma_pop_then_push_front_restores_multiset(cat: Seq<Seq<char>>)
    requires
        cat.len() > 0,
    ensures
        swap_removed_head(cat).insert(0, cat[0]).to_multiset() == cat.to_multiset(),
        swap_removed_head(cat).insert(0, cat[0])[0] == cat[0],
{
    broadcast use vstd::seq_lib::group_to_multiset_ensures;
    broadcast use vstd::multiset::group_multiset_axioms;

    let b = swap_removed_head(cat);
    let a = b.insert(0, cat[0]);
    assert(a.remove(0) =~= b);
    assert(a[0] == cat[0]);
    assert(a.remove(0).to_multiset() == a.to_multiset().remove(cat[0]));
    lemma_swap_removed_head_multiset(cat);
    assert(a.to_multiset().remove(cat[0]) == cat.to_multiset().remove(cat[0]));
    assert(a.contains(cat[0]));
    assert(cat.contains(cat[0]));
    lemma_multiset_eq_from_equal_removes(a.to_multiset(), cat.to_multiset(), cat[0]);
}

/// The ordered queue of pending image paths. Abstractly a sequence of
/// character sequences; index 0, when present, is the current image.
pub struct Catalog {
    paths: Vec<String>,
}

impl View for Catalog {
    type V = Seq<Seq<char>>;

    closed spec fn view(&self) -> Seq<Seq<char>> {
        self.paths.deep_view()
    }
}

impl Catalog {
    /// An empty catalog.
    pub fn new() -> (c: Catalog)
        ensures
            c@ == Seq::<Seq<char>>::empty(),
    {
        let c = Catalog { paths: Vec::new() };
        proof {
            assert(c@ =~= Seq::<Seq<char>>::empty());
        }
        c
    }

    /// Builds the catalog from a directory listing, keeping the entries
    /// that carry an allowlisted image extension, in scan order.
    pub fn load(names: Vec<String>) -> (c: Catalog)
        ensures
            c@ == image_names_of(names.deep_view()),
    {
        Catalog { paths: crate::paths::filter_images(names) }
    }

    /// The path at the head of the queue, if any, without mutating.
    pub fn peek_head(&self) -> (r: Option<&String>)
        ensures
            self@.len() == 0 ==> r is None,
            self@.len() > 0 ==> r is Some && r->Some_0@ == self@[0],
    {
        if self.paths.len() == 0 {
            None
        } else {
            Some(&self.paths[0])
        }
    }

    /// Removes and returns the head by swap-removal: the last entry moves
    /// into position 0. On an empty catalog, a no-op returning `None`.
    pub fn pop_head(&mut self) -> (r: Option<String>)
        ensures
            old(self)@.len() == 0 ==> r is None && *final(self) == *old(self),
            old(self)@.len() > 0 ==> {
                &&& r is Some
                &&& r->Some_0@ == old(self)@[0]
                &&& final(self)@ == swap_removed_head(old(self)@)
            },
    {
        if self.paths.len() == 0 {
            None
        } else {
            let p = self.paths.swap_remove(0);
            proof {
                assert(final(self)@ =~= swap_removed_head(old(self)@));
            }
            Some(p)
        }
    }

    /// Re-inserts a path at index 0, shifting all others back; used by undo.
    pub fn push_front(&mut self, path: String)
        ensures
            final(self)@ == old(self)@.insert(0, path@),
    {
        self.paths.insert(0, path);
        proof {
            assert(final(self)@ =~= old(self)@.insert(0, path@));
        }
    }

    pub fn is_empty(&self) -> (r: bool)
        ensures
            r == (self@.len() == 0),
    {
        self.paths.is_empty()
    }

    pub fn len(&self) -> (n: usize)
        ensures
            n == self@.len(),
    {
        self.paths.len()
    }

    /// The whole queue, in order, as plain strings.
    pub fn entries(&self) -> (r: &Vec<String>)
        ensures
            r.deep_view() == self@,
    {
        &self.paths
    }
}

} // verus!
