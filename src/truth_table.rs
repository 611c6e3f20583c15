//! Four-entry truth tables of two-input boolean gates.
use vstd::prelude::*;

verus! {

/// Position of the input combination `(a, b)` in a table: `2 * a + b`.
pub open spec fn cell_index(a: bool, b: bool) -> int {
    (if a { 2int } else { 0int }) + (if b { 1int } else { 0int })
}

/// The input combination driven at position `k` of a table.
pub open spec fn combination_spec(k: int) -> (bool, bool) {
    (k >= 2, k % 2 == 1)
}

/// The expected table of an AND gate.
pub open spec fn and_cells() -> Seq<bool> {
    seq![false, false, false, true]
}

/// The expected table of an OR gate.
pub open spec fn or_cells() -> Seq<bool> {
    seq![false, true, true, true]
}

/// The output of a gate for the four input combinations
/// (0,0), (0,1), (1,0), (1,1), in that order.
#[derive(Clone, Copy, Debug, PartialEq, Eq)]
pub struct TruthTable {
    pub cells: [bool; 4],
}

impl View for TruthTable {
    type V = Seq<bool>;

    open spec fn view(&self) -> Seq<bool> {
        self.cells@
    }
}

/// The input combination driven at position `k` of a table:
/// the first line carries the high bit, the second the low bit.
pub fn combination(k: usize) -> (r: (bool, bool))
    requires
        k < 4,
    ensures
        r == combination_spec(k as int),
        cell_index(r.0, r.1) == k,
{
    (k >= 2, k % 2 == 1)
}

impl TruthTable {
    pub fn new(cells: [bool; 4]) -> (t: TruthTable)
        ensures
            t@ == cells@,
    {
        TruthTable { cells }
    }

    /// The table that AND gates must produce.
    pub fn and_table() -> (t: TruthTable)
        ensures
            t@ == and_cells(),
    {
        let t = TruthTable { cells: [false, false, false, true] };
        assert(t@ =~= and_cells());
        t
    }

    /// The table that OR gates must produce.
    pub fn or_table() -> (t: TruthTable)
        ensures
            t@ == or_cells(),
    {
        let t = TruthTable { cells: [false, true, true, true] };
        assert(t@ =~= or_cells());
        t
    }

    /// The entry for the input combination `(a, b)`.
    pub fn get(&self, a: bool, b: bool) -> (r: bool)
        ensures
            r == self@[cell_index(a, b)],
    {
        let k: usize = if a { 2 } else { 0 };
        let k: usize = if b { k + 1 } else { k };
        self.cells[k]
    }

    /// Element-wise equality of two tables.
    pub fn equals(&self, other: &TruthTable) -> (r: bool)
        ensures
            r == (self@ == other@),
    {
        let r = self.cells[0] == other.cells[0] && self.cells[1] == other.cells[1]
            && self.cells[2] == other.cells[2] && self.cells[3] == other.cells[3];
        if r {
            assert(self@ =~= other@);
        }
        r
    }
}

} // verus!
