//! Storage for user variables: each field is a sparse array of values, and a
//! plain variable is the cell at index 0 of its field.

use vstd::prelude::*;
use std::collections::HashMap;
use crate::value::Value;
use crate::value::ValueModel;

verus! {

broadcast use vstd::std_specs::hash::group_hash_axioms;

/// The largest size of one array dimension; indices run from 0 up to it,
/// itself excluded.
pub const ARRAY_LIMIT: i32 = 32000;

/// What a set of fields holds: the value of each cell that was ever written,
/// by field and index.
pub type CellMap = Map<(usize, u32), ValueModel>;

/// A set of fields. A cell is found by its field's id and its index.
pub struct FieldHolder {
    pub cells: HashMap<u128, Value>,
}

/// The key under which a cell is kept: the field's id above the 32 bits of
/// the index.
pub open spec fn cell_key(field: usize, index: u32) -> u128 {
    ((field as int) * 0x1_0000_0000 + (index as int)) as u128
}

impl View for FieldHolder {
    type V = CellMap;

    open spec fn view(&self) -> CellMap {
        Map::new(
            |k: (usize, u32)| self.cells@.contains_key(cell_key(k.0, k.1)),
            |k: (usize, u32)| self.cells@[cell_key(k.0, k.1)]@,
        )
    }
}

/// The value of a cell, if it was ever written.
pub open spec fn lookup(cells: CellMap, field: usize, index: u32) -> Option<ValueModel> {
    if cells.contains_key((field, index)) {
        Some(cells[(field, index)])
    } else {
        None
    }
}

/// The view of a value that may be missing.
pub open spec fn option_view(v: Option<Value>) -> Option<ValueModel> {
    match v {
        Some(v) => Some(v@),
        None => None,
    }
}

/// Different cells have different keys.
pub proof fn lemma_cell_key_injective(f1: usize, i1: u32, f2: usize, i2: u32)
    requires
        cell_key(f1, i1) == cell_key(f2, i2),
    ensures
        f1 == f2,
        i1 == i2,
{
}

fn make_key(field: usize, index: u32) -> (r: u128)
    ensures
        r == cell_key(field, index),
{
    (field as u128) * 0x1_0000_0000u128 + (index as u128)
}

impl FieldHolder {
    /// A holder with no cell written.
    pub fn new() -> (r: FieldHolder)
        ensures
            r@ == CellMap::empty(),
    {
        let r = FieldHolder { cells: HashMap::new() };
        assert(r@ =~= CellMap::empty());
        r
    }

    /// A copy of the value in a cell, if the cell was ever written.
    pub fn get(&self, field: usize, index: u32) -> (r: Option<Value>)
        ensures
            option_view(r) == lookup(self@, field, index),
    {
        let key = make_key(field, index);
        match self.cells.get(&key) {
            Some(v) => Some(v.duplicate()),
            None => None,
        }
    }

    /// Writes a cell.
    pub fn set(&mut self, field: usize, index: u32, value: Value)
        ensures
            final(self)@ == old(self)@.insert((field, index), value@),
    {
        let key = make_key(field, index);
        self.cells.insert(key, value);
        assert forall|k: (usize, u32)|
            cell_key(k.0, k.1) == cell_key(field, index) implies k == (field, index) by {
            lemma_cell_key_injective(k.0, k.1, field, index);
        }
        assert(self@ =~= old(self)@.insert((field, index), value@));
    }
}

} // verus!
