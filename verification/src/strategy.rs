//! The rocket strategy of a planet and what each variant permits.

use vstd::prelude::*;

verus! {

/// Controls how the planet manages rocket construction.
///
/// - `Disabled`: never build a rocket.
/// - `Default`: build a rocket only when an asteroid is coming.
/// - `Safe`: rebuild a rocket whenever there is none.
/// - `EmergencyReserve`: as `Safe`, and one charged cell is withheld from
///   everything that is reported or granted to the outside.
#[derive(Debug, PartialEq, Eq, Clone, Copy, Structural)]
pub enum RocketStrategy {
    /// Do not build rockets under any condition.
    Disabled,
    /// Build a rocket only when an asteroid arrives.
    Default,
    /// Always rebuild a rocket when there is none.
    Safe,
    /// Same as `Safe`, but one fully charged cell is kept for emergencies.
    EmergencyReserve,
}

impl RocketStrategy {
    /// Whether the arrival of a sunray may trigger the construction of a rocket.
    pub open spec fn spec_builds_on_sunray(self) -> bool {
        self == RocketStrategy::Safe || self == RocketStrategy::EmergencyReserve
    }

    /// Whether an asteroid makes the planet try to build a rocket before it
    /// looks for one to launch.
    pub open spec fn spec_builds_on_asteroid(self) -> bool {
        self == RocketStrategy::Default
    }

    /// Whether a new rocket is attempted right after one was launched.
    pub open spec fn spec_rebuilds_after_launch(self) -> bool {
        self == RocketStrategy::Safe || self == RocketStrategy::EmergencyReserve
    }

    /// Whether one charged cell is hidden from the outside.
    pub open spec fn spec_keeps_reserve(self) -> bool {
        self == RocketStrategy::EmergencyReserve
    }

    /// The name of the strategy, as it is written in the source.
    pub open spec fn spec_name(self) -> Seq<char> {
        match self {
            RocketStrategy::Disabled => "Disabled"@,
            RocketStrategy::Default => "Default"@,
            RocketStrategy::Safe => "Safe"@,
            RocketStrategy::EmergencyReserve => "EmergencyReserve"@,
        }
    }

    /// The name of the strategy, as it is written in the source.
    pub fn name(&self) -> (r: String)
        ensures
            r@ == self.spec_name(),
    {
        match self {
            RocketStrategy::Disabled => "Disabled".to_string(),
            RocketStrategy::Default => "Default".to_string(),
            RocketStrategy::Safe => "Safe".to_string(),
            RocketStrategy::EmergencyReserve => "EmergencyReserve".to_string(),
        }
    }

    /// Whether the arrival of a sunray may trigger the construction of a rocket.
    #[verifier::when_used_as_spec(spec_builds_on_sunray)]
    pub fn builds_on_sunray(self) -> (r: bool)
        ensures
            r == self.spec_builds_on_sunray(),
    {
        match self {
            RocketStrategy::Disabled => false,
            RocketStrategy::Default => false,
            RocketStrategy::Safe => true,
            RocketStrategy::EmergencyReserve => true,
        }
    }

    /// Whether an asteroid makes the planet try to build a rocket before it
    /// looks for one to launch.
    #[verifier::when_used_as_spec(spec_builds_on_asteroid)]
    pub fn builds_on_asteroid(self) -> (r: bool)
        ensures
            r == self.spec_builds_on_asteroid(),
    {
        match self {
            RocketStrategy::Default => true,
            _ => false,
        }
    }

    /// Whether a new rocket is attempted right after one was launched.
    #[verifier::when_used_as_spec(spec_rebuilds_after_launch)]
    pub fn rebuilds_after_launch(self) -> (r: bool)
        ensures
            r == self.spec_rebuilds_after_launch(),
    {
        match self {
            RocketStrategy::Safe => true,
            RocketStrategy::EmergencyReserve => true,
            _ => false,
        }
    }

    /// Whether one charged cell is hidden from the outside.
    #[verifier::when_used_as_spec(spec_keeps_reserve)]
    pub fn keeps_reserve(self) -> (r: bool)
        ensures
            r == self.spec_keeps_reserve(),
    {
        match self {
            RocketStrategy::EmergencyReserve => true,
            _ => false,
        }
    }
}

impl Default for RocketStrategy {
    fn default() -> (r: Self)
        ensures
            r == RocketStrategy::Default,
    {
        RocketStrategy::Default
    }
}

} // verus!
