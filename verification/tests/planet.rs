//! The decision engine inside a running `common_game` planet, driven by the
//! messages of an orchestrator and of an explorer.
//!
//! The planet runs on the test's own thread: the messages are queued before
//! it starts, and it stops on the `KillPlanet` that ends the queue. A planet
//! prefers the orchestrator's messages, so what the orchestrator sends after
//! a request of the explorer is queued by the AI once that request is
//! handled.

use common_game::components::forge::Forge;
use common_game::components::planet::{DummyPlanetState, Planet, PlanetAI, PlanetState, PlanetType};
use common_game::components::resource::{
    BasicResource, BasicResourceType, Combinator, ComplexResourceType, Generator,
};
use common_game::components::rocket::Rocket;
use common_game::components::sunray::Sunray;
use common_game::protocols::orchestrator_planet::{OrchestratorToPlanet, PlanetToOrchestrator};
use common_game::protocols::planet_explorer::{ExplorerToPlanet, PlanetToExplorer};
use crossbeam_channel::{unbounded, Receiver, Sender};
use planet_core::messages::{ExplorerMsg, ExplorerReply};
use planet_core::model::PlanetCoreThinkingModel;
use planet_core::resource::{ComplexKind, Generated, ResourceKind};
use planet_core::strategy::RocketStrategy;
use std::collections::VecDeque;
use std::sync::OnceLock;
use std::time::Duration;

static FORGE: OnceLock<Forge> = OnceLock::new();

fn get_forge() -> &'static Forge {
    FORGE.get_or_init(|| Forge::new().expect("Failed to initialize Forge singleton"))
}

fn kind_of(resource: BasicResourceType) -> ResourceKind {
    match resource {
        BasicResourceType::Oxygen => ResourceKind::Oxygen,
        BasicResourceType::Hydrogen => ResourceKind::Hydrogen,
        BasicResourceType::Carbon => ResourceKind::Carbon,
        BasicResourceType::Silicon => ResourceKind::Silicon,
    }
}

fn type_of(kind: ResourceKind) -> BasicResourceType {
    match kind {
        ResourceKind::Oxygen => BasicResourceType::Oxygen,
        ResourceKind::Hydrogen => BasicResourceType::Hydrogen,
        ResourceKind::Carbon => BasicResourceType::Carbon,
        ResourceKind::Silicon => BasicResourceType::Silicon,
    }
}

fn complex_type_of(kind: ComplexKind) -> ComplexResourceType {
    match kind {
        ComplexKind::Diamond => ComplexResourceType::Diamond,
        ComplexKind::Water => ComplexResourceType::Water,
        ComplexKind::Life => ComplexResourceType::Life,
        ComplexKind::Robot => ComplexResourceType::Robot,
        ComplexKind::Dolphin => ComplexResourceType::Dolphin,
        ComplexKind::AIPartner => ComplexResourceType::AIPartner,
    }
}

fn request_of(msg: ExplorerToPlanet) -> ExplorerMsg {
    match msg {
        ExplorerToPlanet::SupportedResourceRequest { explorer_id } => {
            ExplorerMsg::SupportedResourceRequest { explorer_id }
        }
        ExplorerToPlanet::SupportedCombinationRequest { explorer_id } => {
            ExplorerMsg::SupportedCombinationRequest { explorer_id }
        }
        ExplorerToPlanet::GenerateResourceRequest { explorer_id, resource } => {
            ExplorerMsg::GenerateResourceRequest { explorer_id, resource: kind_of(resource) }
        }
        ExplorerToPlanet::CombineResourceRequest { explorer_id, msg } => {
            ExplorerMsg::CombineResourceRequest { explorer_id, msg }
        }
        ExplorerToPlanet::AvailableEnergyCellRequest { explorer_id } => {
            ExplorerMsg::AvailableEnergyCellRequest { explorer_id }
        }
    }
}

fn answer_of(reply: ExplorerReply) -> PlanetToExplorer {
    match reply {
        ExplorerReply::SupportedResourceResponse { resource_list } => {
            PlanetToExplorer::SupportedResourceResponse {
                resource_list: resource_list.into_iter().map(type_of).collect(),
            }
        }
        ExplorerReply::SupportedCombinationResponse { combination_list } => {
            PlanetToExplorer::SupportedCombinationResponse {
                combination_list: combination_list.into_iter().map(complex_type_of).collect(),
            }
        }
        ExplorerReply::GenerateResourceResponse { resource } => {
            PlanetToExplorer::GenerateResourceResponse {
                resource: resource.map(|made| match made {
                    Generated::Oxygen(o) => BasicResource::Oxygen(o),
                    Generated::Hydrogen(h) => BasicResource::Hydrogen(h),
                    Generated::Carbon(c) => BasicResource::Carbon(c),
                    Generated::Silicon(s) => BasicResource::Silicon(s),
                }),
            }
        }
        ExplorerReply::AvailableEnergyCellResponse { available_cells } => {
            PlanetToExplorer::AvailableEnergyCellResponse { available_cells }
        }
    }
}

/// The engine as the AI of a planet. After each request of an explorer it
/// queues what the orchestrator sends next.
struct Ai {
    model: PlanetCoreThinkingModel,
    to_planet: Sender<OrchestratorToPlanet>,
    next: VecDeque<Vec<OrchestratorToPlanet>>,
}

impl PlanetAI for Ai {
    fn handle_sunray(
        &mut self,
        state: &mut PlanetState,
        _: &Generator,
        _: &Combinator,
        sunray: Sunray,
    ) {
        self.model.handle_sunray(state, sunray);
    }

    fn handle_asteroid(
        &mut self,
        state: &mut PlanetState,
        _: &Generator,
        _: &Combinator,
    ) -> Option<Rocket> {
        self.model.handle_asteroid(state)
    }

    fn handle_internal_state_req(
        &mut self,
        state: &mut PlanetState,
        _: &Generator,
        _: &Combinator,
    ) -> DummyPlanetState {
        let snapshot = self.model.handle_internal_state_req(state);
        DummyPlanetState {
            energy_cells: snapshot.energy_cells,
            charged_cells_count: snapshot.charged_cells_count,
            has_rocket: snapshot.has_rocket,
        }
    }

    fn handle_explorer_msg(
        &mut self,
        state: &mut PlanetState,
        generator: &Generator,
        combinator: &Combinator,
        msg: ExplorerToPlanet,
    ) -> Option<PlanetToExplorer> {
        let reply = self.model.handle_explorer_msg(state, generator, combinator, request_of(msg));
        for msg in self.next.pop_front().unwrap_or_default() {
            self.to_planet.send(msg).unwrap();
        }
        reply.map(answer_of)
    }

    fn on_start(&mut self, _: &PlanetState, _: &Generator, _: &Combinator) {
        self.model.start();
    }

    fn on_stop(&mut self, _: &PlanetState, _: &Generator, _: &Combinator) {
        self.model.stop();
    }
}

/// One message on its way to the planet.
enum Step {
    Orchestrator(OrchestratorToPlanet),
    Explorer(ExplorerToPlanet),
}

/// Creates a planet of type A with the given strategy and resource, starts
/// it, lets explorer 99 land, plays `steps` in their order and kills the
/// planet. Returns what the planet answered after the landing.
fn spawn_test_planet(
    strategy: RocketStrategy,
    resource: BasicResourceType,
    steps: Vec<Step>,
) -> (Receiver<PlanetToOrchestrator>, Receiver<PlanetToExplorer>) {
    let (orch_tx, orch_rx) = unbounded();
    let (planet_to_orch_tx, planet_to_orch_rx) = unbounded();
    let (expl_tx, expl_rx) = unbounded();
    let (test_expl_response_tx, test_expl_response_rx) = unbounded();

    orch_tx.send(OrchestratorToPlanet::StartPlanetAI).unwrap();
    orch_tx
        .send(OrchestratorToPlanet::IncomingExplorerRequest {
            explorer_id: 99,
            new_sender: test_expl_response_tx,
        })
        .unwrap();

    let mut next: VecDeque<Vec<OrchestratorToPlanet>> = VecDeque::new();
    for step in steps {
        match step {
            Step::Explorer(msg) => {
                expl_tx.send(msg).unwrap();
                next.push_back(Vec::new());
            }
            Step::Orchestrator(msg) => match next.back_mut() {
                Some(after_request) => after_request.push(msg),
                None => orch_tx.send(msg).unwrap(),
            },
        }
    }
    match next.back_mut() {
        Some(after_request) => after_request.push(OrchestratorToPlanet::KillPlanet),
        None => orch_tx.send(OrchestratorToPlanet::KillPlanet).unwrap(),
    }

    let model = PlanetCoreThinkingModel::new(strategy, Some(kind_of(resource)));
    let gen_rules = model.generation_rules().into_iter().map(type_of).collect();
    let comb_rules = model.combination_rules().into_iter().map(complex_type_of).collect();
    let ai = Ai { model, to_planet: orch_tx.clone(), next };
    let mut planet = Planet::new(
        1,
        PlanetType::A,
        Box::new(ai),
        gen_rules,
        comb_rules,
        (orch_rx, planet_to_orch_tx),
        expl_rx,
    )
    .expect("Failed to create planet instance");
    planet.run().expect("the planet runs until it is killed");

    let started = planet_to_orch_rx.recv().unwrap();
    assert!(matches!(started, PlanetToOrchestrator::StartPlanetAIResult { planet_id: 1 }));
    let landed = planet_to_orch_rx.recv().unwrap();
    assert!(matches!(landed, PlanetToOrchestrator::IncomingExplorerResponse { .. }));
    (planet_to_orch_rx, test_expl_response_rx)
}

#[test]
fn test_strategy_safe_builds_rocket_immediately() {
    let forge = get_forge();
    let (orch_rx, _) = spawn_test_planet(
        RocketStrategy::Safe,
        BasicResourceType::Hydrogen,
        vec![
            Step::Orchestrator(OrchestratorToPlanet::Sunray(forge.generate_sunray())),
            Step::Orchestrator(OrchestratorToPlanet::InternalStateRequest),
        ],
    );

    let ack = orch_rx.recv_timeout(Duration::from_secs(1)).expect("Timeout waiting for SunrayAck");
    assert!(matches!(ack, PlanetToOrchestrator::SunrayAck { planet_id: 1 }));

    let state_msg = orch_rx.recv_timeout(Duration::from_secs(1)).expect("Timeout waiting for State");

    if let PlanetToOrchestrator::InternalStateResponse { planet_state, .. } = state_msg {
        assert!(planet_state.has_rocket, "Safe strategy failed to build rocket immediately");
    } else {
        panic!("Unexpected response type: no debug trait ");
    }
}

#[test]
fn test_strategy_default_waits_for_asteroid() {
    let forge = get_forge();
    let (orch_rx, _) = spawn_test_planet(
        RocketStrategy::Default,
        BasicResourceType::Hydrogen,
        vec![
            Step::Orchestrator(OrchestratorToPlanet::Sunray(forge.generate_sunray())),
            Step::Orchestrator(OrchestratorToPlanet::InternalStateRequest),
            Step::Orchestrator(OrchestratorToPlanet::Asteroid(forge.generate_asteroid())),
        ],
    );
    let _ = orch_rx.recv();

    let state_msg = orch_rx.recv().unwrap();

    if let PlanetToOrchestrator::InternalStateResponse { planet_state, .. } = state_msg {
        assert!(!planet_state.has_rocket, "Default strategy built rocket too early!");
        assert!(planet_state.charged_cells_count > 0, "Default strategy lost the energy!");
    } else {
        panic!("Unexpected response type: no debug trait ");
    }

    let ack = orch_rx.recv_timeout(Duration::from_secs(1)).expect("Timeout waiting for AsteroidAck");

    if let PlanetToOrchestrator::AsteroidAck { rocket, .. } = ack {
        assert!(rocket.is_some(), "Default strategy failed to build rocket for asteroid");
    } else {
        panic!("Wrong message type received for Asteroid");
    }
}

#[test]
fn test_emergency_reserve_deception() {
    let forge = get_forge();
    let (orch_rx, expl_rx) = spawn_test_planet(
        RocketStrategy::EmergencyReserve,
        BasicResourceType::Hydrogen,
        vec![
            Step::Orchestrator(OrchestratorToPlanet::Sunray(forge.generate_sunray())),
            Step::Orchestrator(OrchestratorToPlanet::InternalStateRequest),
            Step::Explorer(ExplorerToPlanet::AvailableEnergyCellRequest { explorer_id: 99 }),
            Step::Explorer(ExplorerToPlanet::GenerateResourceRequest {
                explorer_id: 99,
                resource: BasicResourceType::Hydrogen,
            }),
        ],
    );
    let _ = orch_rx.recv();

    let state_msg = orch_rx.recv().unwrap();

    if let PlanetToOrchestrator::InternalStateResponse { planet_state, .. } = state_msg {
        assert_eq!(
            planet_state.charged_cells_count, 0,
            "EmergencyReserve failed to hide the reserve cell from Orchestrator"
        );
    } else {
        panic!("Unexpected response type: no debug trait ");
    }

    let expl_resp = expl_rx.recv().unwrap();

    if let PlanetToExplorer::AvailableEnergyCellResponse { available_cells } = expl_resp {
        assert_eq!(
            available_cells, 0,
            "EmergencyReserve failed to hide reserve cell from Explorer"
        );
    } else {
        panic!("Unexpected response type: no debug trait ");
    }

    let result = expl_rx.recv_timeout(Duration::from_millis(200));
    assert!(result.is_err(), "Planet should not generate resources using the emergency reserve");
}

#[test]
fn test_resource_generation_match() {
    let forge = get_forge();
    let (_orch_rx, expl_rx) = spawn_test_planet(
        RocketStrategy::Default,
        BasicResourceType::Oxygen,
        vec![
            Step::Orchestrator(OrchestratorToPlanet::Sunray(forge.generate_sunray())),
            Step::Explorer(ExplorerToPlanet::GenerateResourceRequest {
                explorer_id: 99,
                resource: BasicResourceType::Oxygen,
            }),
            Step::Orchestrator(OrchestratorToPlanet::Sunray(forge.generate_sunray())),
            Step::Explorer(ExplorerToPlanet::GenerateResourceRequest {
                explorer_id: 99,
                resource: BasicResourceType::Carbon,
            }),
        ],
    );

    let resp = expl_rx.recv_timeout(Duration::from_secs(1)).expect("Should generate Oxygen");
    match resp {
        PlanetToExplorer::GenerateResourceResponse { resource: Some(made) } => {
            assert_eq!(made.get_type(), BasicResourceType::Oxygen)
        }
        _ => panic!("Failed to generate correct resource"),
    }

    let result = expl_rx.recv_timeout(Duration::from_millis(200));
    assert!(result.is_err(), "Planet generated a resource it does not support!");
}

#[test]
fn safe_planet_survives_two_asteroids_in_a_row() {
    let forge = get_forge();
    let (orch_rx, _) = spawn_test_planet(
        RocketStrategy::Safe,
        BasicResourceType::Hydrogen,
        vec![
            Step::Orchestrator(OrchestratorToPlanet::Sunray(forge.generate_sunray())),
            Step::Orchestrator(OrchestratorToPlanet::Sunray(forge.generate_sunray())),
            Step::Orchestrator(OrchestratorToPlanet::Asteroid(forge.generate_asteroid())),
            Step::Orchestrator(OrchestratorToPlanet::Asteroid(forge.generate_asteroid())),
            Step::Orchestrator(OrchestratorToPlanet::Asteroid(forge.generate_asteroid())),
            Step::Orchestrator(OrchestratorToPlanet::InternalStateRequest),
        ],
    );
    let _ = orch_rx.recv();
    let _ = orch_rx.recv();
    for survives in [true, true, false] {
        match orch_rx.recv().unwrap() {
            PlanetToOrchestrator::AsteroidAck { planet_id, rocket } => {
                assert_eq!(planet_id, 1);
                assert_eq!(rocket.is_some(), survives);
            }
            _ => panic!("Wrong message type received for Asteroid"),
        }
    }
    match orch_rx.recv().unwrap() {
        PlanetToOrchestrator::InternalStateResponse { planet_state, .. } => {
            assert!(!planet_state.has_rocket);
            assert_eq!(planet_state.charged_cells_count, 0);
            assert_eq!(planet_state.energy_cells, vec![false; 5]);
        }
        _ => panic!("Unexpected response type: no debug trait "),
    }
}

#[test]
fn disabled_planet_never_has_a_rocket() {
    let forge = get_forge();
    let (orch_rx, expl_rx) = spawn_test_planet(
        RocketStrategy::Disabled,
        BasicResourceType::Silicon,
        vec![
            Step::Orchestrator(OrchestratorToPlanet::Sunray(forge.generate_sunray())),
            Step::Orchestrator(OrchestratorToPlanet::Asteroid(forge.generate_asteroid())),
            Step::Explorer(ExplorerToPlanet::SupportedResourceRequest { explorer_id: 99 }),
            Step::Explorer(ExplorerToPlanet::SupportedCombinationRequest { explorer_id: 99 }),
            Step::Explorer(ExplorerToPlanet::AvailableEnergyCellRequest { explorer_id: 99 }),
        ],
    );
    let _ = orch_rx.recv();
    match orch_rx.recv().unwrap() {
        PlanetToOrchestrator::AsteroidAck { rocket, .. } => assert!(rocket.is_none()),
        _ => panic!("Wrong message type received for Asteroid"),
    }
    match expl_rx.recv().unwrap() {
        PlanetToExplorer::SupportedResourceResponse { resource_list } => {
            assert_eq!(resource_list.len(), 1);
            assert!(resource_list.contains(&BasicResourceType::Silicon));
        }
        _ => panic!("Unexpected response type: no debug trait "),
    }
    match expl_rx.recv().unwrap() {
        PlanetToExplorer::SupportedCombinationResponse { combination_list } => {
            assert!(combination_list.is_empty());
        }
        _ => panic!("Unexpected response type: no debug trait "),
    }
    match expl_rx.recv().unwrap() {
        PlanetToExplorer::AvailableEnergyCellResponse { available_cells } => {
            assert_eq!(available_cells, 1);
        }
        _ => panic!("Unexpected response type: no debug trait "),
    }
}
