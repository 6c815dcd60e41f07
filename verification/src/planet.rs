//! The planet state owned by `common_game`, as the verified code sees it.
//!
//! `PlanetState` is opaque to the verifier. The names below say what it
//! holds, and each method that the decision engine calls is given the
//! contract that its source shows, stated over the [`Bank`] model. Nothing
//! in this file is proved: it is the boundary on which the proofs of the
//! other modules rest.

use crate::bank::{charged_count, Bank};
use crate::messages::PlanetSnapshot;
use common_game::components::energy_cell::EnergyCell;
use common_game::components::planet::PlanetState;
use common_game::components::rocket::Rocket;
use common_game::components::sunray::Sunray;
use vstd::prelude::*;

verus! {

/// `common_game`'s planet state: opaque here, described by the names below.
#[verifier::external_type_specification]
#[verifier::external_body]
pub struct ExPlanetState(PlanetState);

/// `common_game`'s energy cell: opaque here, described by [`cell_charge`].
#[verifier::external_type_specification]
#[verifier::external_body]
pub struct ExEnergyCell(EnergyCell);

/// `common_game`'s sunray: an opaque token that charges one cell.
#[verifier::external_type_specification]
#[verifier::external_body]
pub struct ExSunray(Sunray);

/// `common_game`'s rocket: an opaque token built from one charged cell.
#[verifier::external_type_specification]
#[verifier::external_body]
pub struct ExRocket(Rocket);

/// The charge of each energy cell of the planet, in the order of the bank.
pub uninterp spec fn cell_charges(state: PlanetState) -> Seq<bool>;

/// Whether an energy cell is charged.
pub uninterp spec fn cell_charge(cell: EnergyCell) -> bool;

/// Whether the rocket slot of the planet is filled.
pub uninterp spec fn rocket_present(state: PlanetState) -> bool;

/// Whether the planet's type lets it hold a rocket.
pub uninterp spec fn rocket_allowed(state: PlanetState) -> bool;

/// The identifier that the planet was created with.
pub uninterp spec fn planet_id(state: PlanetState) -> u32;

/// The model of a planet state.
pub open spec fn bank_of(state: PlanetState) -> Bank {
    Bank {
        cells: cell_charges(state),
        rocket: rocket_present(state),
        rocket_allowed: rocket_allowed(state),
    }
}

/// `PlanetState::id` returns the identifier of the planet.
pub assume_specification[ PlanetState::id ](state: &PlanetState) -> (r: u32)
    ensures
        r == planet_id(*state),
;

/// `PlanetState::has_rocket` reports whether the rocket slot is filled.
pub assume_specification[ PlanetState::has_rocket ](state: &PlanetState) -> (r: bool)
    ensures
        r == rocket_present(*state),
;

/// `PlanetState::can_have_rocket` reports the flag fixed by the planet's type.
pub assume_specification[ PlanetState::can_have_rocket ](state: &PlanetState) -> (r: bool)
    ensures
        r == rocket_allowed(*state),
;

/// `PlanetState::cells_count` is the number of cells of the bank.
pub assume_specification[ PlanetState::cells_count ](state: &PlanetState) -> (r: usize)
    ensures
        r == cell_charges(*state).len(),
;

/// `PlanetState::charge_cell` charges the first cell that is not charged and
/// returns `None`; where every cell is charged it changes nothing and hands
/// the sunray back.
pub assume_specification[ PlanetState::charge_cell ](
    state: &mut PlanetState,
    sunray: Sunray,
) -> (leftover: Option<Sunray>)
    ensures
        bank_of(*final(state)) == bank_of(*old(state)).charge(),
        planet_id(*final(state)) == planet_id(*old(state)),
        leftover == if bank_of(*old(state)).first_free() is Some {
            None
        } else {
            Some(sunray)
        },
;

/// `PlanetState::build_rocket` panics on an index outside the bank. It
/// succeeds exactly where the planet may hold a rocket, holds none and cell
/// `i` is charged: then it empties that cell and fills the slot. Where it
/// fails, nothing changes.
pub assume_specification[ PlanetState::build_rocket ](state: &mut PlanetState, i: usize) -> (r:
    Result<(), String>)
    requires
        i < cell_charges(*old(state)).len(),
    ensures
        r is Ok == bank_of(*old(state)).can_build(i as int),
        bank_of(*final(state)) == bank_of(*old(state)).build(i as int),
        planet_id(*final(state)) == planet_id(*old(state)),
;

/// `PlanetState::take_rocket` empties the rocket slot and hands out what was
/// in it; the cells are not touched.
pub assume_specification[ PlanetState::take_rocket ](state: &mut PlanetState) -> (r: Option<
    Rocket,
>)
    ensures
        r is Some == rocket_present(*old(state)),
        bank_of(*final(state)) == bank_of(*old(state)).take(),
        planet_id(*final(state)) == planet_id(*old(state)),
;

/// `PlanetState::cell` borrows cell `i`; it panics on an index outside the
/// bank.
pub assume_specification[ PlanetState::cell ](state: &PlanetState, i: usize) -> (cell: &EnergyCell)
    requires
        i < cell_charges(*state).len(),
    ensures
        cell_charge(*cell) == cell_charges(*state)[i as int],
;

/// `PlanetState::cell_mut` borrows cell `i` for writing; it panics on an
/// index outside the bank. Whatever is done to the cell through the borrow
/// is done to cell `i` of the bank, and to nothing else.
pub assume_specification[ PlanetState::cell_mut ](state: &mut PlanetState, i: usize) -> (cell:
    &mut EnergyCell)
    requires
        i < cell_charges(*old(state)).len(),
    ensures
        cell_charge(*cell) == cell_charges(*old(state))[i as int],
        bank_of(*final(state)) == bank_of(*old(state)).with_cell(i as int, cell_charge(*final(cell))),
        planet_id(*final(state)) == planet_id(*old(state)),
;

/// `EnergyCell::is_charged` reports the charge of the cell.
pub assume_specification[ EnergyCell::is_charged ](cell: &EnergyCell) -> (r: bool)
    ensures
        r == cell_charge(*cell),
;

/// `EnergyCell::charge` uses the sunray up; the cell is charged afterwards,
/// whatever it was before.
pub assume_specification[ EnergyCell::charge ](cell: &mut EnergyCell, sunray: Sunray)
    ensures
        cell_charge(*final(cell)),
;

/// `PlanetState::full_cell`, of which only the index is kept: the first
/// charged cell, or `None` where no cell is charged. The state is left as it
/// was.
#[verifier::external_body]
pub(crate) fn first_full_index(state: &mut PlanetState) -> (r: Option<usize>)
    ensures
        *final(state) == *old(state),
        match r {
            Some(i) => bank_of(*old(state)).first_full() == Some(i as int),
            None => bank_of(*old(state)).first_full() is None,
        },
{
    state.full_cell().map(|(_, i)| i)
}

/// `PlanetState::to_dummy`: the charge of each cell, the number of charged
/// cells and whether a rocket is ready, copied field by field.
#[verifier::external_body]
pub(crate) fn snapshot_of(state: &PlanetState) -> (r: PlanetSnapshot)
    ensures
        r.energy_cells@ == cell_charges(*state),
        r.charged_cells_count == charged_count(cell_charges(*state)),
        r.has_rocket == rocket_present(*state),
{
    let dummy = state.to_dummy();
    PlanetSnapshot {
        energy_cells: dummy.energy_cells,
        charged_cells_count: dummy.charged_cells_count,
        has_rocket: dummy.has_rocket,
    }
}

} // verus!
