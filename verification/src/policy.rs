//! The rocket policy: what each strategy does to the bank when a sunray or
//! an asteroid arrives, and what it lets the outside see of the bank.

use crate::bank::Bank;
use crate::strategy::RocketStrategy;
use vstd::prelude::*;

verus! {

/// Whether a sunray makes the planet try to build a rocket: its type allows
/// one, the slot is empty and the strategy builds on sunrays.
pub open spec fn sunray_builds(strategy: RocketStrategy, bank: Bank) -> bool {
    bank.rocket_allowed && !bank.rocket && strategy.builds_on_sunray()
}

/// The bank after a sunray.
///
/// The sunray charges the first free cell. Where a build is due, it is then
/// attempted from the first charged cell. Where the bank was already full,
/// the build comes first and the sunray recharges the cell that the rocket
/// used up; without a build the sunray is lost.
pub open spec fn after_sunray(strategy: RocketStrategy, bank: Bank) -> Bank {
    if !sunray_builds(strategy, bank) {
        bank.charge()
    } else if bank.first_free() is Some {
        bank.charge().try_build()
    } else {
        match bank.build_site() {
            Some(i) => bank.build(i).with_cell(i, true),
            None => bank,
        }
    }
}

/// The bank when an asteroid arrives, after the build that the `Default`
/// strategy attempts at that moment.
pub open spec fn before_launch(strategy: RocketStrategy, bank: Bank) -> Bank {
    if strategy.builds_on_asteroid() {
        bank.try_build()
    } else {
        bank
    }
}

/// Whether an asteroid is answered with a rocket.
pub open spec fn launches(strategy: RocketStrategy, bank: Bank) -> bool {
    bank.rocket_allowed && before_launch(strategy, bank).rocket
}

/// The bank after an asteroid.
///
/// A planet whose type forbids rockets does nothing. Otherwise the rocket,
/// built at that moment under `Default`, leaves the slot, and `Safe` and
/// `EmergencyReserve` attempt a new one at once.
pub open spec fn after_asteroid(strategy: RocketStrategy, bank: Bank) -> Bank {
    if !bank.rocket_allowed {
        bank
    } else {
        let ready = before_launch(strategy, bank);
        if !ready.rocket {
            ready
        } else if strategy.rebuilds_after_launch() {
            ready.take().try_build()
        } else {
            ready.take()
        }
    }
}

/// The number of charged cells that the planet admits to when `charged` are
/// charged: one less under `EmergencyReserve`, never below zero.
pub open spec fn reported_cells(strategy: RocketStrategy, charged: nat) -> nat {
    if strategy.keeps_reserve() && charged > 0 {
        (charged - 1) as nat
    } else {
        charged
    }
}

/// Whether the reserve forbids the generation of a resource: under
/// `EmergencyReserve` the last charged cell is not given away.
pub open spec fn reserve_blocks(strategy: RocketStrategy, bank: Bank) -> bool {
    strategy.keeps_reserve() && bank.charged() <= 1
}

} // verus!
