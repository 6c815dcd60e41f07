//! The decision engine of a planet.

use crate::bank::{charged_count, lemma_first_index_is, Bank};
use crate::messages::{ExplorerMsg, ExplorerReply, OrchestratorMsg, OrchestratorReply, PlanetSnapshot};
use crate::planet::{bank_of, cell_charges, first_full_index, planet_id, snapshot_of};
use crate::policy::{after_asteroid, after_sunray, launches, reported_cells, reserve_blocks};
use crate::resource::{
    combinator_recipes, generator_recipes, supported_combinations, supported_resources,
    ComplexKind, Generated, ResourceKind,
};
use crate::strategy::RocketStrategy;
use common_game::components::planet::PlanetState;
use common_game::components::resource::{Combinator, Generator};
use common_game::components::rocket::Rocket;
use common_game::components::sunray::Sunray;
use vstd::prelude::*;

verus! {

/// Tries to build a rocket from the first charged cell.
///
/// Returns the index of the cell that was used up, or `None` where no cell
/// is charged or the planet cannot take a rocket now; then nothing changes.
pub fn try_build_rocket(state: &mut PlanetState) -> (r: Option<usize>)
    ensures
        bank_of(*final(state)) == bank_of(*old(state)).try_build(),
        planet_id(*final(state)) == planet_id(*old(state)),
        match r {
            Some(i) => bank_of(*old(state)).build_site() == Some(i as int),
            None => bank_of(*old(state)).build_site() is None,
        },
{
    proof {
        lemma_first_index_is(cell_charges(*state), true);
    }
    match first_full_index(state) {
        None => None,
        Some(cell_index) => {
            match state.build_rocket(cell_index) {
                Ok(_) => Some(cell_index),
                Err(_) => None,
            }
        },
    }
}

/// The decision engine of one planet: the resource that it may generate, its
/// rocket strategy, and whether it was started.
#[derive(Debug, Clone, Copy, PartialEq, Eq, Structural)]
pub struct PlanetCoreThinkingModel {
    basic_resource: ResourceKind,
    rocket_strategy: RocketStrategy,
    running: bool,
}

impl PlanetCoreThinkingModel {
    /// The one basic resource that the planet is authorized to generate.
    pub closed spec fn spec_basic_resource(&self) -> ResourceKind {
        self.basic_resource
    }

    /// The rocket strategy that the planet was created with.
    pub closed spec fn spec_rocket_strategy(&self) -> RocketStrategy {
        self.rocket_strategy
    }

    /// Whether the engine was started and not stopped since.
    pub closed spec fn spec_is_running(&self) -> bool {
        self.running
    }

    /// An engine that is not started yet, with the given strategy and
    /// resource; without a resource the planet generates hydrogen.
    pub fn new(rocket_strategy: RocketStrategy, basic_resource: Option<ResourceKind>) -> (r: Self)
        ensures
            r.spec_rocket_strategy() == rocket_strategy,
            r.spec_basic_resource() == match basic_resource {
                Some(kind) => kind,
                None => ResourceKind::Hydrogen,
            },
            !r.spec_is_running(),
    {
        let basic_resource = match basic_resource {
            Some(kind) => kind,
            None => ResourceKind::Hydrogen,
        };
        PlanetCoreThinkingModel { basic_resource, rocket_strategy, running: false }
    }

    /// The one basic resource that the planet is authorized to generate.
    #[verifier::when_used_as_spec(spec_basic_resource)]
    pub fn basic_resource(&self) -> (r: ResourceKind)
        ensures
            r == self.spec_basic_resource(),
    {
        self.basic_resource
    }

    /// The rocket strategy that the planet was created with.
    #[verifier::when_used_as_spec(spec_rocket_strategy)]
    pub fn rocket_strategy(&self) -> (r: RocketStrategy)
        ensures
            r == self.spec_rocket_strategy(),
    {
        self.rocket_strategy
    }

    /// Whether the engine was started and not stopped since.
    #[verifier::when_used_as_spec(spec_is_running)]
    pub fn is_running(&self) -> (r: bool)
        ensures
            r == self.spec_is_running(),
    {
        self.running
    }

    /// The generation rules that the planet is to be created with: its one
    /// authorized resource.
    pub fn generation_rules(&self) -> (r: Vec<ResourceKind>)
        ensures
            r@ == seq![self.spec_basic_resource()],
    {
        let mut rules = Vec::new();
        rules.push(self.basic_resource);
        rules
    }

    /// The combination rules that the planet is to be created with: none.
    pub fn combination_rules(&self) -> (r: Vec<ComplexKind>)
        ensures
            r@ == Seq::<ComplexKind>::empty(),
    {
        Vec::new()
    }

    /// Whether a request to generate `requested` is granted on `bank`: the
    /// reserve does not forbid it, a cell is charged, and `requested` is the
    /// resource that the planet is authorized for.
    pub open spec fn grants(&self, bank: Bank, requested: ResourceKind) -> bool {
        &&& !reserve_blocks(self.spec_rocket_strategy(), bank)
        &&& bank.first_full() is Some
        &&& requested == self.spec_basic_resource()
    }

    /// The number of charged cells of the planet.
    pub fn charged_count(&self, state: &PlanetState) -> (r: u32)
        requires
            cell_charges(*state).len() <= u32::MAX,
        ensures
            r == charged_count(cell_charges(*state)),
    {
        let n = state.cells_count();
        let mut count: u32 = 0;
        let mut i: usize = 0;
        while i < n
            invariant
                n == cell_charges(*state).len(),
                n <= u32::MAX,
                i <= n,
                count <= i,
                count == charged_count(cell_charges(*state).take(i as int)),
            decreases n - i,
        {
            proof {
                let cells = cell_charges(*state);
                assert(cells.take(i + 1).drop_last() =~= cells.take(i as int));
            }
            if state.cell(i).is_charged() {
                count += 1;
            }
            i += 1;
        }
        proof {
            let cells = cell_charges(*state);
            assert(cells.take(n as int) =~= cells);
        }
        count
    }

    /// Takes a sunray: charges the bank and lets the strategy build a rocket.
    ///
    /// The sunray charges the first free cell. Under `Safe` and
    /// `EmergencyReserve`, a planet that may hold a rocket and has none then
    /// builds one from the first charged cell. Where the bank was full, the
    /// rocket is built first and the sunray recharges the cell that it used
    /// up; where no rocket is due, the sunray is lost.
    pub fn handle_sunray(&self, state: &mut PlanetState, sunray: Sunray)
        ensures
            planet_id(*final(state)) == planet_id(*old(state)),
            bank_of(*final(state)) == after_sunray(
                self.spec_rocket_strategy(),
                bank_of(*old(state)),
            ),
    {
        let leftover = state.charge_cell(sunray);
        let build = state.can_have_rocket() && !state.has_rocket()
            && self.rocket_strategy.builds_on_sunray();
        match leftover {
            None => {
                if build {
                    let _ = try_build_rocket(state);
                }
            },
            Some(energy) => {
                if build {
                    if let Some(cell_index) = try_build_rocket(state) {
                        state.cell_mut(cell_index).charge(energy);
                    }
                }
            },
        }
    }

    /// The overview of the planet that is reported to the orchestrator: the
    /// charge of each cell and the rocket slot as they are, and the number of
    /// charged cells less the reserve.
    pub fn handle_internal_state_req(&self, state: &PlanetState) -> (r: PlanetSnapshot)
        ensures
            r.energy_cells@ == cell_charges(*state),
            r.has_rocket == bank_of(*state).rocket,
            r.charged_cells_count == reported_cells(
                self.spec_rocket_strategy(),
                bank_of(*state).charged(),
            ),
    {
        let mut dummy_state = snapshot_of(state);
        if self.rocket_strategy.keeps_reserve() {
            dummy_state.charged_cells_count = dummy_state.charged_cells_count.saturating_sub(1);
        }
        dummy_state
    }

    /// Meets an asteroid: hands out the rocket that deflects it, if the planet
    /// has one or can build one now.
    ///
    /// A planet whose type forbids rockets returns `None` and does nothing.
    /// Under `Default` a rocket is first attempted from the first charged
    /// cell. The rocket in the slot is then handed out, and under `Safe` and
    /// `EmergencyReserve` a new one is attempted at once.
    pub fn handle_asteroid(&self, state: &mut PlanetState) -> (r: Option<Rocket>)
        ensures
            planet_id(*final(state)) == planet_id(*old(state)),
            r is Some == launches(self.spec_rocket_strategy(), bank_of(*old(state))),
            bank_of(*final(state)) == after_asteroid(
                self.spec_rocket_strategy(),
                bank_of(*old(state)),
            ),
    {
        if !state.can_have_rocket() {
            return None;
        }
        if self.rocket_strategy.builds_on_asteroid() {
            let _ = try_build_rocket(state);
        }
        if !state.has_rocket() {
            return None;
        }
        let rocket = state.take_rocket();
        if self.rocket_strategy.rebuilds_after_launch() {
            let _ = try_build_rocket(state);
        }
        rocket
    }

    /// Starts the engine.
    pub fn start(&mut self)
        ensures
            final(self).spec_is_running(),
            final(self).spec_rocket_strategy() == old(self).spec_rocket_strategy(),
            final(self).spec_basic_resource() == old(self).spec_basic_resource(),
    {
        self.running = true;
    }

    /// Stops the engine.
    pub fn stop(&mut self)
        ensures
            !final(self).spec_is_running(),
            final(self).spec_rocket_strategy() == old(self).spec_rocket_strategy(),
            final(self).spec_basic_resource() == old(self).spec_basic_resource(),
    {
        self.running = false;
    }

    /// Answers a message of the orchestrator; `None` where no answer is due.
    ///
    /// A sunray is handled by [`Self::handle_sunray`] and always
    /// acknowledged. An asteroid is handled by [`Self::handle_asteroid`] and
    /// acknowledged with the rocket, if any. A request for the internal state
    /// is answered with the overview of [`Self::handle_internal_state_req`].
    /// Each answer carries the planet's identifier. The two lifecycle
    /// messages start and stop the engine and are not answered.
    pub fn handle_orchestrator_msg(&mut self, state: &mut PlanetState, msg: OrchestratorMsg) -> (r:
        Option<OrchestratorReply>)
        ensures
            final(self).spec_rocket_strategy() == old(self).spec_rocket_strategy(),
            final(self).spec_basic_resource() == old(self).spec_basic_resource(),
            planet_id(*final(state)) == planet_id(*old(state)),
            match msg {
                OrchestratorMsg::Sunray(_) => {
                    &&& r == Some(
                        OrchestratorReply::SunrayAck { planet_id: planet_id(*old(state)) },
                    )
                    &&& bank_of(*final(state)) == after_sunray(
                        old(self).spec_rocket_strategy(),
                        bank_of(*old(state)),
                    )
                    &&& final(self).spec_is_running() == old(self).spec_is_running()
                },
                OrchestratorMsg::Asteroid(_) => {
                    &&& r matches Some(OrchestratorReply::AsteroidAck { planet_id: id, rocket })
                    &&& id == planet_id(*old(state))
                    &&& rocket is Some == launches(
                        old(self).spec_rocket_strategy(),
                        bank_of(*old(state)),
                    )
                    &&& bank_of(*final(state)) == after_asteroid(
                        old(self).spec_rocket_strategy(),
                        bank_of(*old(state)),
                    )
                    &&& final(self).spec_is_running() == old(self).spec_is_running()
                },
                OrchestratorMsg::InternalStateRequest => {
                    &&& r matches Some(
                        OrchestratorReply::InternalStateResponse { planet_id: id, planet_state },
                    )
                    &&& id == planet_id(*old(state))
                    &&& planet_state.energy_cells@ == cell_charges(*old(state))
                    &&& planet_state.has_rocket == bank_of(*old(state)).rocket
                    &&& planet_state.charged_cells_count == reported_cells(
                        old(self).spec_rocket_strategy(),
                        bank_of(*old(state)).charged(),
                    )
                    &&& *final(state) == *old(state)
                    &&& final(self).spec_is_running() == old(self).spec_is_running()
                },
                OrchestratorMsg::StartPlanetAI => {
                    &&& r is None
                    &&& *final(state) == *old(state)
                    &&& final(self).spec_is_running()
                },
                OrchestratorMsg::StopPlanetAI => {
                    &&& r is None
                    &&& *final(state) == *old(state)
                    &&& !final(self).spec_is_running()
                },
            },
    {
        match msg {
            OrchestratorMsg::Sunray(sunray) => {
                self.handle_sunray(state, sunray);
                Some(OrchestratorReply::SunrayAck { planet_id: state.id() })
            },
            OrchestratorMsg::Asteroid(_) => {
                let rocket = self.handle_asteroid(state);
                Some(OrchestratorReply::AsteroidAck { planet_id: state.id(), rocket })
            },
            OrchestratorMsg::InternalStateRequest => {
                let planet_state = self.handle_internal_state_req(state);
                Some(
                    OrchestratorReply::InternalStateResponse {
                        planet_id: state.id(),
                        planet_state,
                    },
                )
            },
            OrchestratorMsg::StartPlanetAI => {
                self.start();
                None
            },
            OrchestratorMsg::StopPlanetAI => {
                self.stop();
                None
            },
        }
    }

    /// Answers a request of an explorer; `None` is a refusal.
    ///
    /// - The two requests for supported recipes are answered with the recipes
    ///   of the generator and of the combinator, each once.
    /// - A resource is generated where [`Self::grants`] holds: the generator
    ///   is asked for the requested kind with the first charged cell. The
    ///   answer carries what it produced, which is nothing where it lacks the
    ///   recipe; the cell is then still charged.
    /// - A request to combine is always refused.
    /// - The number of available cells is the number of charged cells, less
    ///   the reserve.
    ///
    /// Only a generated resource changes the state of the planet. The charged
    /// cells are counted in 32 bits, so where they are counted the bank must
    /// not be larger than that.
    pub fn handle_explorer_msg(
        &self,
        state: &mut PlanetState,
        generator: &Generator,
        combinator: &Combinator,
        msg: ExplorerMsg,
    ) -> (r: Option<ExplorerReply>)
        requires
            msg is GenerateResourceRequest || msg is AvailableEnergyCellRequest ==> cell_charges(
                *old(state),
            ).len() <= u32::MAX,
        ensures
            planet_id(*final(state)) == planet_id(*old(state)),
            match msg {
                ExplorerMsg::SupportedResourceRequest { .. } => {
                    &&& *final(state) == *old(state)
                    &&& r matches Some(ExplorerReply::SupportedResourceResponse { resource_list })
                    &&& resource_list@.no_duplicates()
                    &&& resource_list@.to_set() == generator_recipes(*generator)
                },
                ExplorerMsg::SupportedCombinationRequest { .. } => {
                    &&& *final(state) == *old(state)
                    &&& r matches Some(
                        ExplorerReply::SupportedCombinationResponse { combination_list },
                    )
                    &&& combination_list@.no_duplicates()
                    &&& combination_list@.to_set() == combinator_recipes(*combinator)
                },
                ExplorerMsg::GenerateResourceRequest { resource: requested, .. } => {
                    let bank = bank_of(*old(state));
                    let has_recipe = generator_recipes(*generator).contains(requested);
                    if self.grants(bank, requested) {
                        &&& r matches Some(ExplorerReply::GenerateResourceResponse { resource })
                        &&& resource is Some == has_recipe
                        &&& resource matches Some(made) ==> made.kind() == requested
                        &&& bank_of(*final(state)) == if has_recipe {
                            bank.spend_first_full()
                        } else {
                            bank
                        }
                    } else {
                        r is None && *final(state) == *old(state)
                    }
                },
                ExplorerMsg::CombineResourceRequest { .. } => {
                    r is None && *final(state) == *old(state)
                },
                ExplorerMsg::AvailableEnergyCellRequest { .. } => {
                    &&& *final(state) == *old(state)
                    &&& r matches Some(ExplorerReply::AvailableEnergyCellResponse { available_cells })
                    &&& available_cells == reported_cells(
                        self.spec_rocket_strategy(),
                        bank_of(*old(state)).charged(),
                    )
                },
            },
    {
        match msg {
            ExplorerMsg::SupportedResourceRequest { explorer_id: _ } => {
                Some(
                    ExplorerReply::SupportedResourceResponse {
                        resource_list: supported_resources(generator),
                    },
                )
            },
            ExplorerMsg::SupportedCombinationRequest { explorer_id: _ } => {
                Some(
                    ExplorerReply::SupportedCombinationResponse {
                        combination_list: supported_combinations(combinator),
                    },
                )
            },
            ExplorerMsg::GenerateResourceRequest { explorer_id: _, resource } => {
                if self.rocket_strategy.keeps_reserve() && self.charged_count(state) <= 1 {
                    return None;
                }
                proof {
                    lemma_first_index_is(cell_charges(*state), true);
                }
                let cell = match first_full_index(state) {
                    Some(i) => i,
                    None => {
                        return None;
                    },
                };
                if resource != self.basic_resource {
                    return None;
                }
                let made = match self.basic_resource {
                    ResourceKind::Oxygen => match generator.make_oxygen(state.cell_mut(cell)) {
                        Ok(o) => Some(Generated::Oxygen(o)),
                        Err(_) => None,
                    },
                    ResourceKind::Hydrogen => match generator.make_hydrogen(state.cell_mut(cell)) {
                        Ok(h) => Some(Generated::Hydrogen(h)),
                        Err(_) => None,
                    },
                    ResourceKind::Carbon => match generator.make_carbon(state.cell_mut(cell)) {
                        Ok(c) => Some(Generated::Carbon(c)),
                        Err(_) => None,
                    },
                    ResourceKind::Silicon => match generator.make_silicon(state.cell_mut(cell)) {
                        Ok(s) => Some(Generated::Silicon(s)),
                        Err(_) => None,
                    },
                };
                proof {
                    let before = cell_charges(*old(state));
                    assert(before.update(cell as int, true) =~= before);
                }
                Some(ExplorerReply::GenerateResourceResponse { resource: made })
            },
            ExplorerMsg::CombineResourceRequest { explorer_id: _, msg: _ } => None,
            ExplorerMsg::AvailableEnergyCellRequest { explorer_id: _ } => {
                let count = self.charged_count(state);
                let available_cells = if self.rocket_strategy.keeps_reserve() {
                    count.saturating_sub(1)
                } else {
                    count
                };
                Some(ExplorerReply::AvailableEnergyCellResponse { available_cells })
            },
        }
    }
}

} // verus!
