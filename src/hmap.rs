//! The per-vertex transition table: one ordered row of records for each source vertex.
use crate::transition::ITransition;
use vstd::prelude::*;

verus! {

/// A map from source vertex to the records that leave it, in the order they were added.
pub struct HMap<G, A, L> {
    pub rows: Vec<Vec<ITransition<G, A, L>>>,
}

impl<G, A, L> HMap<G, A, L> {
    /// The table as a sequence of rows.
    pub open spec fn table(&self) -> Seq<Seq<ITransition<G, A, L>>> {
        self.rows@.map_values(|row: Vec<ITransition<G, A, L>>| row@)
    }

    pub fn new() -> (r: Self)
        ensures
            r.table() == Seq::<Seq<ITransition<G, A, L>>>::empty(),
    {
        let r = HMap { rows: Vec::new() };
        assert(r.table() =~= Seq::<Seq<ITransition<G, A, L>>>::empty());
        r
    }

    /// Adds an empty row for a new vertex.
    pub fn add(self) -> (r: Self)
        ensures
            r.table() == self.table().push(Seq::empty()),
    {
        let mut rows = self.rows;
        rows.push(Vec::new());
        let r = HMap { rows };
        assert(r.table() =~= self.table().push(Seq::empty()));
        r
    }

    /// The row of `key`.
    pub fn get(&self, key: usize) -> (r: &Vec<ITransition<G, A, L>>)
        requires
            key < self.rows@.len(),
        ensures
            r@ == self.table()[key as int],
    {
        &self.rows[key]
    }

    /// Appends `value` at the end of the row of `key`.
    pub fn append_inner(self, key: usize, value: ITransition<G, A, L>) -> (r: Self)
        requires
            key < self.rows@.len(),
        ensures
            r.table() == self.table().update(key as int, self.table()[key as int].push(value)),
    {
        let mut rows = self.rows;
        let mut row: Vec<ITransition<G, A, L>> = Vec::new();
        std::mem::swap(&mut row, &mut rows[key]);
        row.push(value);
        std::mem::swap(&mut row, &mut rows[key]);
        let r = HMap { rows };
        assert(r.table() =~= self.table().update(key as int, self.table()[key as int].push(value)));
        r
    }
}

} // verus!
