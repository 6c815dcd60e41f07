//! The messages that the decision engine takes and gives, as values of the
//! library's own.

use crate::resource::{ComplexKind, Generated, ResourceKind};
use common_game::components::asteroid::Asteroid;
use common_game::components::resource::ComplexResourceRequest;
use common_game::components::rocket::Rocket;
use common_game::components::sunray::Sunray;
use vstd::prelude::*;

verus! {

/// `common_game`'s asteroid: an opaque token.
#[verifier::external_type_specification]
#[verifier::external_body]
pub struct ExAsteroid(Asteroid);

/// An overview of a planet's state, as it is reported to the orchestrator.
#[derive(Debug, PartialEq, Eq)]
pub struct PlanetSnapshot {
    /// The charge of each cell, in the order of the bank.
    pub energy_cells: Vec<bool>,
    /// The number of charged cells that the planet admits to.
    pub charged_cells_count: usize,
    /// Whether a rocket is ready.
    pub has_rocket: bool,
}

/// What the orchestrator sends to a planet.
#[derive(Debug)]
pub enum OrchestratorMsg {
    /// Energy that can charge one cell.
    Sunray(Sunray),
    /// A threat that only a rocket deflects.
    Asteroid(Asteroid),
    /// Starts the planet's decision engine.
    StartPlanetAI,
    /// Stops the planet's decision engine.
    StopPlanetAI,
    /// Asks for an overview of the planet's state.
    InternalStateRequest,
}

/// What a planet answers to the orchestrator.
#[derive(Debug)]
pub enum OrchestratorReply {
    /// Acknowledges a sunray.
    SunrayAck { planet_id: u32 },
    /// Acknowledges an asteroid, with the rocket that deflects it, if any.
    AsteroidAck { planet_id: u32, rocket: Option<Rocket> },
    /// The overview that was asked for.
    InternalStateResponse { planet_id: u32, planet_state: PlanetSnapshot },
}

/// What an explorer asks of a planet.
#[derive(Debug)]
pub enum ExplorerMsg {
    /// Which basic resources can the planet generate?
    SupportedResourceRequest { explorer_id: u32 },
    /// Which complex resources can the planet make?
    SupportedCombinationRequest { explorer_id: u32 },
    /// Generate one basic resource of the given kind.
    GenerateResourceRequest { explorer_id: u32, resource: ResourceKind },
    /// Combine the two resources in `msg` into a complex one.
    CombineResourceRequest { explorer_id: u32, msg: ComplexResourceRequest },
    /// How many charged cells are available?
    AvailableEnergyCellRequest { explorer_id: u32 },
}

/// What a planet answers to an explorer.
#[derive(Debug)]
pub enum ExplorerReply {
    /// The basic resources that the planet can generate.
    SupportedResourceResponse { resource_list: Vec<ResourceKind> },
    /// The complex resources that the planet can make.
    SupportedCombinationResponse { combination_list: Vec<ComplexKind> },
    /// The resource that was generated, or `None` where the generator failed.
    GenerateResourceResponse { resource: Option<Generated> },
    /// The number of charged cells that the planet admits to.
    AvailableEnergyCellResponse { available_cells: u32 },
}

} // verus!
