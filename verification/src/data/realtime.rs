use vstd::prelude::*;

verus! {

/// A replay of a fixed sequence of values, handed out one at a time
/// together with their position in the sequence.
pub struct Replay<T> {
    items: Vec<T>,
    index: usize,
}

impl<T: Copy> Replay<T> {
    /// The values being replayed.
    pub closed spec fn spec_items(&self) -> Seq<T> {
        self.items@
    }

    /// How many values have been handed out.
    pub closed spec fn spec_index(&self) -> nat {
        self.index as nat
    }

    /// A replay positioned at the first value.
    pub fn new(items: Vec<T>) -> (r: Replay<T>)
        ensures
            r.spec_items() == items@,
            r.spec_index() == 0,
    {
        Replay { items, index: 0 }
    }

    /// Hands out the next value and its position, or `None` once every
    /// value has been handed out.
    pub fn next(&mut self) -> (out: Option<(T, usize)>)
        ensures
            final(self).spec_items() == old(self).spec_items(),
            old(self).spec_index() >= old(self).spec_items().len() ==> out is None
                && final(self).spec_index() == old(self).spec_index(),
            old(self).spec_index() < old(self).spec_items().len() ==> out == Some(
                (old(self).spec_items()[old(self).spec_index() as int], old(self).spec_index() as usize),
            ) && final(self).spec_index() == old(self).spec_index() + 1,
    {
        if self.index >= self.items.len() {
            return None;
        }
        let item = self.items[self.index];
        let position = self.index;
        self.index = self.index + 1;
        Some((item, position))
    }
}

} // verus!
