//! What holds of the decision engine on every bank: the bounds of the bank,
//! what a sunray and an asteroid do under each strategy, what the reserve
//! hides, and when a resource is granted.

use crate::bank::{
    lemma_charged_count_bound, lemma_charged_count_full, lemma_charged_count_update,
    lemma_charged_count_zero, lemma_first_index_is, Bank,
};
use crate::model::PlanetCoreThinkingModel;
use crate::policy::{after_asteroid, after_sunray, launches, reported_cells};
use crate::resource::ResourceKind;
use crate::strategy::RocketStrategy;
use vstd::prelude::*;

verus! {

/// The number of charged cells lies between zero and the capacity.
pub proof fn law_charged_within_capacity(bank: Bank)
    ensures
        0 <= bank.charged() <= bank.capacity(),
{
    lemma_charged_count_bound(bank.cells);
}

/// A cell is free exactly when not all cells are charged, and a cell is
/// charged exactly when the count of charged cells is not zero.
pub proof fn law_first_cells(bank: Bank)
    ensures
        bank.first_free() is Some <==> bank.charged() < bank.capacity(),
        bank.first_full() is Some <==> bank.charged() >= 1,
{
    lemma_charged_count_bound(bank.cells);
    lemma_charged_count_full(bank.cells);
    lemma_charged_count_zero(bank.cells);
    lemma_first_index_is(bank.cells, false);
    lemma_first_index_is(bank.cells, true);
}

/// A sunray on a bank with a free cell stores its energy: one more cell is
/// charged. On a full bank it changes no cell.
pub proof fn law_charge(bank: Bank)
    ensures
        bank.charge().capacity() == bank.capacity(),
        bank.charge().rocket == bank.rocket,
        bank.charge().rocket_allowed == bank.rocket_allowed,
        bank.first_free() is Some ==> bank.charge().charged() == bank.charged() + 1,
        bank.first_free() is None ==> bank.charge() == bank,
{
    lemma_first_index_is(bank.cells, false);
    if let Some(i) = bank.first_free() {
        lemma_charged_count_update(bank.cells, i, true);
    }
}

/// An attempt to build either fails and changes nothing, or fills the slot
/// and empties exactly the first charged cell.
pub proof fn law_try_build(bank: Bank)
    ensures
        bank.try_build().capacity() == bank.capacity(),
        bank.try_build().rocket_allowed == bank.rocket_allowed,
        bank.build_site() is Some <==> bank.rocket_allowed && !bank.rocket && bank.charged() >= 1,
        bank.build_site() is None ==> bank.try_build() == bank,
        bank.build_site() is Some ==> {
            &&& bank.try_build().rocket
            &&& bank.try_build().charged() + 1 == bank.charged()
            &&& bank.try_build().cells == bank.cells.update(bank.first_full().unwrap(), false)
        },
{
    law_first_cells(bank);
    lemma_first_index_is(bank.cells, true);
    if let Some(i) = bank.build_site() {
        lemma_charged_count_update(bank.cells, i, false);
    }
}

/// Neither a sunray nor an asteroid changes the capacity of the bank or
/// whether the planet may hold a rocket, and a planet that may not hold a
/// rocket never gets one.
pub proof fn law_bank_shape(strategy: RocketStrategy, bank: Bank)
    ensures
        after_sunray(strategy, bank).capacity() == bank.capacity(),
        after_sunray(strategy, bank).rocket_allowed == bank.rocket_allowed,
        after_asteroid(strategy, bank).capacity() == bank.capacity(),
        after_asteroid(strategy, bank).rocket_allowed == bank.rocket_allowed,
        !bank.rocket_allowed ==> after_sunray(strategy, bank).rocket == bank.rocket,
        !bank.rocket_allowed ==> after_asteroid(strategy, bank) == bank,
{
    law_charge(bank);
    law_try_build(bank);
    law_try_build(bank.charge());
    law_try_build(bank.take());
    law_try_build(bank.try_build().take());
}

/// Under `Disabled` and `Default`, a sunray that finds a free cell never
/// produces a rocket: it charges that cell and leaves the slot as it was.
pub proof fn law_sunray_stores_energy(strategy: RocketStrategy, bank: Bank)
    requires
        strategy != RocketStrategy::Safe,
        strategy != RocketStrategy::EmergencyReserve,
        bank.first_free() is Some,
    ensures
        after_sunray(strategy, bank).rocket == bank.rocket,
        after_sunray(strategy, bank) == bank.charge(),
        after_sunray(strategy, bank).charged() == bank.charged() + 1,
{
    law_charge(bank);
}

/// Under `Default` no sunray builds a rocket, whatever the bank.
pub proof fn law_default_sunray_never_builds(bank: Bank)
    ensures
        after_sunray(RocketStrategy::Default, bank).rocket == bank.rocket,
        after_sunray(RocketStrategy::Default, bank) == bank.charge(),
{
}

/// Under `Safe` and `EmergencyReserve`, a sunray that finds every cell
/// charged, on a planet that may hold a rocket and has none, builds one
/// rocket and recharges the cell that it used up: the slot is filled and
/// every cell is charged as before.
pub proof fn law_saturated_sunray_builds(strategy: RocketStrategy, bank: Bank)
    requires
        strategy == RocketStrategy::Safe || strategy == RocketStrategy::EmergencyReserve,
        bank.rocket_allowed,
        !bank.rocket,
        bank.capacity() >= 1,
        bank.charged() == bank.capacity(),
    ensures
        after_sunray(strategy, bank).rocket,
        after_sunray(strategy, bank).cells == bank.cells,
        after_sunray(strategy, bank).charged() == bank.charged(),
{
    law_first_cells(bank);
    law_try_build(bank);
    let i = bank.build_site().unwrap();
    lemma_first_index_is(bank.cells, true);
    assert(bank.build(i).with_cell(i, true).cells =~= bank.cells);
}

/// Under `Safe` and `EmergencyReserve`, a planet that may hold a rocket and
/// has at least one cell holds a rocket after every sunray.
pub proof fn law_safe_sunray_leaves_rocket(strategy: RocketStrategy, bank: Bank)
    requires
        strategy == RocketStrategy::Safe || strategy == RocketStrategy::EmergencyReserve,
        bank.rocket_allowed,
        bank.capacity() >= 1,
    ensures
        after_sunray(strategy, bank).rocket,
{
    law_first_cells(bank);
    law_charge(bank);
    law_first_cells(bank.charge());
    law_try_build(bank);
    law_try_build(bank.charge());
}

/// Under `EmergencyReserve` one charged cell is hidden: with exactly one
/// cell charged the planet reports none and grants no resource, and with
/// more it reports one less than it has.
pub proof fn law_reserve_hides_one_cell(model: PlanetCoreThinkingModel, bank: Bank, requested: ResourceKind)
    requires
        model.rocket_strategy() == RocketStrategy::EmergencyReserve,
    ensures
        bank.charged() == 1 ==> reported_cells(model.rocket_strategy(), bank.charged()) == 0,
        bank.charged() <= 1 ==> !model.grants(bank, requested),
        bank.charged() >= 1 ==> reported_cells(model.rocket_strategy(), bank.charged())
            == bank.charged() - 1,
{
}

/// Without a reserve the planet reports every charged cell.
pub proof fn law_report_without_reserve(strategy: RocketStrategy, charged: nat)
    requires
        strategy != RocketStrategy::EmergencyReserve,
    ensures
        reported_cells(strategy, charged) == charged,
{
}

/// Under `Default`, an asteroid that finds a planet which may hold a rocket
/// and has a charged cell is answered with a rocket: one that was ready, or
/// one built at that moment from the first charged cell. The slot is empty
/// afterwards.
pub proof fn law_default_builds_on_asteroid(bank: Bank)
    requires
        bank.rocket_allowed,
        bank.charged() >= 1,
    ensures
        launches(RocketStrategy::Default, bank),
        !after_asteroid(RocketStrategy::Default, bank).rocket,
        bank.rocket ==> after_asteroid(RocketStrategy::Default, bank).cells == bank.cells,
        !bank.rocket ==> after_asteroid(RocketStrategy::Default, bank).charged() + 1
            == bank.charged(),
{
    law_try_build(bank);
}

/// With a rocket in the slot every strategy answers an asteroid with it;
/// only `Safe` and `EmergencyReserve` hold a rocket again afterwards, and
/// that exactly where a cell was charged.
pub proof fn law_launch_and_rebuild(strategy: RocketStrategy, bank: Bank)
    requires
        bank.rocket_allowed,
        bank.rocket,
    ensures
        launches(strategy, bank),
        after_asteroid(strategy, bank).rocket <==> strategy.rebuilds_after_launch()
            && bank.charged() >= 1,
{
    law_try_build(bank);
    law_try_build(bank.take());
}

/// Without a reserve, a request to generate a resource is granted exactly
/// where the resource is the one that the planet is authorized for and at
/// least one cell is charged.
pub proof fn law_generation_granted(model: PlanetCoreThinkingModel, bank: Bank, requested: ResourceKind)
    requires
        model.rocket_strategy() != RocketStrategy::EmergencyReserve,
    ensures
        model.grants(bank, requested) <==> requested == model.basic_resource() && bank.charged()
            >= 1,
{
    law_first_cells(bank);
}

/// With a reserve, a request to generate a resource is granted exactly where
/// the resource is the one that the planet is authorized for and at least two
/// cells are charged.
pub proof fn law_generation_granted_with_reserve(
    model: PlanetCoreThinkingModel,
    bank: Bank,
    requested: ResourceKind,
)
    requires
        model.rocket_strategy() == RocketStrategy::EmergencyReserve,
    ensures
        model.grants(bank, requested) <==> requested == model.basic_resource() && bank.charged()
            >= 2,
{
    law_first_cells(bank);
}

/// A generated resource costs exactly the first charged cell.
pub proof fn law_generation_spends_one_cell(bank: Bank)
    requires
        bank.first_full() is Some,
    ensures
        bank.spend_first_full().charged() + 1 == bank.charged(),
        bank.spend_first_full().rocket == bank.rocket,
        bank.spend_first_full().capacity() == bank.capacity(),
{
    lemma_first_index_is(bank.cells, true);
    lemma_charged_count_update(bank.cells, bank.first_full().unwrap(), false);
}

/// Building a rocket from cell `i` and then taking it leaves the slot empty
/// and one charged cell less: cell `i` is empty and no other cell changed.
pub proof fn law_build_then_take(bank: Bank, i: int)
    requires
        bank.can_build(i),
    ensures
        !bank.build(i).take().rocket,
        bank.build(i).take().charged() + 1 == bank.charged(),
        bank.build(i).take().cells == bank.cells.update(i, false),
        forall|j: int|
            0 <= j < bank.capacity() && j != i ==> bank.build(i).take().cells[j] == bank.cells[j],
        bank.build(i).take().rocket_allowed == bank.rocket_allowed,
{
    lemma_charged_count_update(bank.cells, i, false);
}

} // verus!
