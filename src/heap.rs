//! Cells that hold one value each, addressed by a word. A finished thread
//! puts its result in a cell and reports the cell's address as its exit
//! code; the thread that joins it takes the value out.
use vstd::prelude::*;

verus! {

/// The cells of one result type. A cell is `None` once its value was taken.
pub struct Heap<T> {
    cells: Vec<Option<T>>,
}

impl<T> View for Heap<T> {
    type V = Seq<Option<T>>;

    closed spec fn view(&self) -> Seq<Option<T>> {
        self.cells@
    }
}

impl<T> Heap<T> {
    /// Whether the cell at `addr` holds a value.
    pub open spec fn holds(self, addr: usize) -> bool {
        addr < self@.len() && self@[addr as int] is Some
    }

    /// A heap with no cells.
    pub fn new() -> (r: Heap<T>)
        ensures
            r@ == Seq::<Option<T>>::empty(),
    {
        Heap { cells: Vec::new() }
    }

    /// Moves `v` into a new cell and returns its address.
    pub fn put(&mut self, v: T) -> (addr: usize)
        requires
            old(self)@.len() < usize::MAX,
        ensures
            addr == old(self)@.len(),
            final(self)@ == old(self)@.push(Some(v)),
    {
        let addr = self.cells.len();
        self.cells.push(Some(v));
        addr
    }

    /// Whether the cell at `addr` holds a value.
    pub fn is_full(&self, addr: usize) -> (r: bool)
        ensures
            r == self.holds(addr),
    {
        addr < self.cells.len() && self.cells[addr].is_some()
    }

    /// Takes the value out of the cell at `addr`, which is empty afterwards.
    pub fn take(&mut self, addr: usize) -> (v: T)
        requires
            old(self).holds(addr),
        ensures
            Some(v) == old(self)@[addr as int],
            final(self)@ == old(self)@.update(addr as int, None),
    {
        self.cells.push(None);
        let cell = self.cells.swap_remove(addr);
        proof {
            assert(self@ =~= old(self)@.update(addr as int, None));
        }
        cell.unwrap()
    }
}

} // verus!
