//! The mathematical model of a planet's energy-cell bank and rocket slot.
//!
//! Every contract of this crate speaks of a [`Bank`]: the charge of each
//! cell in order, whether the rocket slot is filled, and whether the planet's
//! type allows a rocket at all.

use vstd::prelude::*;

verus! {

/// The cells of a planet and its rocket slot, as plain mathematics.
pub struct Bank {
    /// The charge of each cell, in the fixed order of the bank.
    pub cells: Seq<bool>,
    /// Whether a rocket is ready in the slot.
    pub rocket: bool,
    /// Whether the planet's type permits a rocket.
    pub rocket_allowed: bool,
}

/// The number of charged cells among `cells`.
pub open spec fn charged_count(cells: Seq<bool>) -> nat
    decreases cells.len(),
{
    if cells.len() == 0 {
        0
    } else {
        charged_count(cells.drop_last()) + if cells.last() { 1nat } else { 0nat }
    }
}

impl Bank {
    /// The capacity of the bank.
    pub open spec fn capacity(self) -> nat {
        self.cells.len()
    }

    /// The number of charged cells.
    pub open spec fn charged(self) -> nat {
        charged_count(self.cells)
    }

    /// The index of the first cell that is not charged, if there is one.
    pub open spec fn first_free(self) -> Option<int> {
        self.cells.index_of_first(false)
    }

    /// The index of the first charged cell, if there is one.
    pub open spec fn first_full(self) -> Option<int> {
        self.cells.index_of_first(true)
    }

    /// The bank with cell `i` set to `charge` and nothing else changed.
    pub open spec fn with_cell(self, i: int, charge: bool) -> Bank {
        Bank { cells: self.cells.update(i, charge), ..self }
    }

    /// The bank after one sunray: the first free cell is charged; a full bank
    /// stays as it is.
    pub open spec fn charge(self) -> Bank {
        match self.first_free() {
            Some(i) => self.with_cell(i, true),
            None => self,
        }
    }

    /// Whether a rocket can be built from cell `i`: the planet's type allows
    /// it, the slot is empty and the cell is charged.
    pub open spec fn can_build(self, i: int) -> bool {
        &&& self.rocket_allowed
        &&& !self.rocket
        &&& 0 <= i < self.cells.len()
        &&& self.cells[i]
    }

    /// The bank after an attempt to build a rocket from cell `i`: on success
    /// the cell is emptied and the slot filled, else nothing changes.
    pub open spec fn build(self, i: int) -> Bank {
        if self.can_build(i) {
            Bank { cells: self.cells.update(i, false), rocket: true, ..self }
        } else {
            self
        }
    }

    /// The cell that an attempt to build from the first charged cell
    /// consumes, or `None` where that attempt fails.
    pub open spec fn build_site(self) -> Option<int> {
        match self.first_full() {
            Some(i) => if self.can_build(i) { Some(i) } else { None },
            None => None,
        }
    }

    /// The bank after an attempt to build a rocket from the first charged
    /// cell.
    pub open spec fn try_build(self) -> Bank {
        match self.build_site() {
            Some(i) => self.build(i),
            None => self,
        }
    }

    /// The bank after the rocket, if any, was handed out.
    pub open spec fn take(self) -> Bank {
        Bank { rocket: false, ..self }
    }

    /// The bank after the first charged cell, if any, was emptied.
    pub open spec fn spend_first_full(self) -> Bank {
        match self.first_full() {
            Some(i) => self.with_cell(i, false),
            None => self,
        }
    }
}

/// What `index_of_first` returns, spelled out.
pub proof fn lemma_first_index_is(cells: Seq<bool>, v: bool)
    ensures
        match cells.index_of_first(v) {
            Some(i) => 0 <= i < cells.len() && cells[i] == v && forall|j: int|
                0 <= j < i ==> cells[j] != v,
            None => forall|j: int| 0 <= j < cells.len() ==> cells[j] != v,
        },
{
    cells.index_of_first_ensures(v);
    if cells.index_of_first(v) is None {
        assert forall|j: int| 0 <= j < cells.len() implies cells[j] != v by {
            if cells[j] == v {
                assert(cells.contains(v));
            }
        }
    }
}

/// The count of charged cells never exceeds the capacity.
pub proof fn lemma_charged_count_bound(cells: Seq<bool>)
    ensures
        charged_count(cells) <= cells.len(),
    decreases cells.len(),
{
    if cells.len() > 0 {
        lemma_charged_count_bound(cells.drop_last());
    }
}

/// Setting one cell moves the count of charged cells by the difference
/// between its new and its old charge.
pub proof fn lemma_charged_count_update(cells: Seq<bool>, i: int, charge: bool)
    requires
        0 <= i < cells.len(),
    ensures
        charged_count(cells.update(i, charge)) + (if cells[i] { 1int } else { 0int })
            == charged_count(cells) + (if charge { 1int } else { 0int }),
    decreases cells.len(),
{
    let updated = cells.update(i, charge);
    if i == cells.len() - 1 {
        assert(updated.drop_last() =~= cells.drop_last());
    } else {
        assert(updated.drop_last() =~= cells.drop_last().update(i, charge));
        lemma_charged_count_update(cells.drop_last(), i, charge);
    }
}

/// No cell is charged exactly when the count of charged cells is zero.
pub proof fn lemma_charged_count_zero(cells: Seq<bool>)
    ensures
        charged_count(cells) == 0 <==> forall|j: int| 0 <= j < cells.len() ==> !cells[j],
    decreases cells.len(),
{
    if cells.len() > 0 {
        lemma_charged_count_zero(cells.drop_last());
        if charged_count(cells) == 0 {
            assert forall|j: int| 0 <= j < cells.len() implies !cells[j] by {
                if j < cells.len() - 1 {
                    assert(cells.drop_last()[j] == cells[j]);
                }
            }
        } else if forall|j: int| 0 <= j < cells.len() ==> !cells[j] {
            assert forall|j: int| 0 <= j < cells.drop_last().len() implies !cells.drop_last()[j] by {
                assert(cells.drop_last()[j] == cells[j]);
            }
        }
    }
}

/// Every cell is charged exactly when the count of charged cells is the
/// capacity.
pub proof fn lemma_charged_count_full(cells: Seq<bool>)
    ensures
        charged_count(cells) == cells.len() <==> forall|j: int| 0 <= j < cells.len() ==> cells[j],
    decreases cells.len(),
{
    if cells.len() > 0 {
        lemma_charged_count_full(cells.drop_last());
        lemma_charged_count_bound(cells.drop_last());
        if charged_count(cells) == cells.len() {
            assert forall|j: int| 0 <= j < cells.len() implies cells[j] by {
                if j < cells.len() - 1 {
                    assert(cells.drop_last()[j] == cells[j]);
                }
            }
        } else if forall|j: int| 0 <= j < cells.len() ==> cells[j] {
            assert forall|j: int| 0 <= j < cells.drop_last().len() implies cells.drop_last()[j] by {
                assert(cells.drop_last()[j] == cells[j]);
            }
        }
    }
}

} // verus!
