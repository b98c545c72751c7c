//! Bounded concurrency: a window over a list of items that lets only so
//! many of them be in flight at once.
//!
//! The caller starts the item that `next` names, and calls `finish` when
//! an item is over, however it ended. The window never learns how an item
//! ended, so the failure of one item cannot touch another.

use vstd::prelude::*;

verus! {

/// A window over the items `0..total`, of which at most `bound` are in
/// flight.
pub struct Window {
    total: usize,
    bound: usize,
    started: usize,
    finished: usize,
}

impl Window {
    #[verifier::type_invariant]
    spec fn well_formed(self) -> bool {
        &&& self.finished <= self.started <= self.total
        &&& self.started - self.finished <= self.bound
    }

    /// The number of items.
    pub closed spec fn total(self) -> nat {
        self.total as nat
    }

    /// The most items that may be in flight at once.
    pub closed spec fn bound(self) -> nat {
        self.bound as nat
    }

    /// The number of items that were started: the items `0..started`.
    pub closed spec fn started(self) -> nat {
        self.started as nat
    }

    /// The number of items that are over.
    pub closed spec fn finished(self) -> nat {
        self.finished as nat
    }

    /// The number of items in flight.
    pub open spec fn in_flight(self) -> int {
        self.started() - self.finished()
    }

    /// A window over `total` items with none started.
    pub fn new(total: usize, bound: usize) -> (w: Window)
        ensures
            w.total() == total,
            w.bound() == bound,
            w.started() == 0,
            w.finished() == 0,
    {
        Window { total, bound, started: 0, finished: 0 }
    }

    /// The item to start now, if one may be started: the first item not
    /// yet started, where fewer than `bound` items are in flight.
    pub fn next(&mut self) -> (item: Option<usize>)
        ensures
            final(self).total() == old(self).total(),
            final(self).bound() == old(self).bound(),
            final(self).finished() == old(self).finished(),
            final(self).in_flight() <= final(self).bound(),
            item is Some <==> old(self).started() < old(self).total() && old(self).in_flight()
                < old(self).bound(),
            match item {
                Some(i) => i == old(self).started() && final(self).started() == old(self).started()
                    + 1,
                None => final(self).started() == old(self).started(),
            },
    {
        proof {
            use_type_invariant(&*self);
        }
        if self.started < self.total && self.started - self.finished < self.bound {
            let item = self.started;
            self.started = self.started + 1;
            Some(item)
        } else {
            None
        }
    }

    /// Takes note that one item in flight is over. Without an item in
    /// flight nothing changes.
    pub fn finish(&mut self)
        ensures
            final(self).total() == old(self).total(),
            final(self).bound() == old(self).bound(),
            final(self).started() == old(self).started(),
            0 <= final(self).in_flight() <= final(self).bound(),
            final(self).finished() == if old(self).in_flight() > 0 {
                old(self).finished() + 1
            } else {
                old(self).finished()
            },
    {
        proof {
            use_type_invariant(&*self);
        }
        if self.finished < self.started {
            self.finished = self.finished + 1;
        }
    }

    /// Whether every item is over.
    pub fn is_complete(&self) -> (done: bool)
        ensures
            done == (self.finished() == self.total()),
    {
        self.finished == self.total
    }

    /// The number of items in flight. It never exceeds the bound, and
    /// only items of the list are ever started.
    pub fn running(&self) -> (n: usize)
        ensures
            n == self.in_flight(),
            n <= self.bound(),
            self.finished() <= self.started() <= self.total(),
    {
        proof {
            use_type_invariant(self);
        }
        self.started - self.finished
    }

    /// Whether an item may be started now. The window never stalls: while
    /// items are left, the bound is not zero and nothing is in flight, an
    /// item may be started.
    pub fn can_start(&self) -> (ready: bool)
        ensures
            ready == (self.started() < self.total() && self.in_flight() < self.bound()),
            self.finished() < self.total() && self.bound() > 0 && self.in_flight() == 0 ==> ready,
    {
        proof {
            use_type_invariant(self);
        }
        self.started < self.total && self.started - self.finished < self.bound
    }
}

} // verus!
