//! The shared queue of pending tiles that the workers drain.

use vstd::prelude::*;

verus! {

/// Pending tiles, each paired with its index: the tile at position `i` of the
/// queue has index `i`. Workers take tiles from the back until none is left;
/// nothing is ever put back.
pub struct WorkQueue<T> {
    tiles: Vec<T>,
}

impl<T> View for WorkQueue<T> {
    type V = Seq<T>;

    closed spec fn view(&self) -> Seq<T> {
        self.tiles@
    }
}

impl<T> WorkQueue<T> {
    /// A queue holding `tiles`, the tile at position `i` with index `i`.
    pub fn new(tiles: Vec<T>) -> (q: WorkQueue<T>)
        ensures
            q@ == tiles@,
    {
        WorkQueue { tiles }
    }

    /// Number of tiles still pending.
    pub fn len(&self) -> (n: usize)
        ensures
            n == self@.len(),
    {
        self.tiles.len()
    }

    /// Whether every tile has been taken.
    pub fn is_empty(&self) -> (r: bool)
        ensures
            r == (self@.len() == 0),
    {
        self.tiles.len() == 0
    }

    /// Takes the pending tile with the highest index, with that index, or
    /// `None` once the queue is drained.
    pub fn pop(&mut self) -> (r: Option<(usize, T)>)
        ensures
            old(self)@.len() == 0 ==> r is None && final(self)@ == old(self)@,
            old(self)@.len() > 0 ==> r == Some(((old(self)@.len() - 1) as usize, old(self)@.last()))
                && final(self)@ == old(self)@.drop_last(),
    {
        match self.tiles.pop() {
            Some(tile) => Some((self.tiles.len(), tile)),
            None => None,
        }
    }
}

} // verus!
