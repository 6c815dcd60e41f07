//! Resources, and `common_game`'s generator and combinator as the verified
//! code sees them.
//!
//! A `Generator` holds the set of basic resources that it has a recipe for,
//! a `Combinator` the set of complex ones. Both are opaque to the verifier:
//! a name stands for each set, and the wrappers below state over those names
//! what the source of each method shows. Nothing of that is proved here.

use crate::planet::cell_charge;
use common_game::components::energy_cell::EnergyCell;
use common_game::components::resource::{
    BasicResourceType, Carbon, Combinator, ComplexResourceRequest, ComplexResourceType, Generator,
    Hydrogen, Oxygen, Silicon,
};
use vstd::prelude::*;

verus! {

/// The kinds of basic resource.
#[derive(Debug, Clone, Copy, PartialEq, Eq, Hash, Structural)]
pub enum ResourceKind {
    Oxygen,
    Hydrogen,
    Carbon,
    Silicon,
}

/// The kinds of complex resource.
#[derive(Debug, Clone, Copy, PartialEq, Eq, Hash, Structural)]
pub enum ComplexKind {
    Diamond,
    Water,
    Life,
    Robot,
    Dolphin,
    AIPartner,
}

/// `common_game`'s generator of basic resources.
#[verifier::external_type_specification]
#[verifier::external_body]
pub struct ExGenerator(Generator);

/// `common_game`'s combinator of complex resources.
#[verifier::external_type_specification]
#[verifier::external_body]
pub struct ExCombinator(Combinator);

/// `common_game`'s request to combine two resources, with the resources in it.
#[verifier::external_type_specification]
#[verifier::external_body]
pub struct ExComplexResourceRequest(ComplexResourceRequest);

/// `common_game`'s oxygen: an opaque token.
#[verifier::external_type_specification]
#[verifier::external_body]
pub struct ExOxygen(Oxygen);

/// `common_game`'s hydrogen: an opaque token.
#[verifier::external_type_specification]
#[verifier::external_body]
pub struct ExHydrogen(Hydrogen);

/// `common_game`'s carbon: an opaque token.
#[verifier::external_type_specification]
#[verifier::external_body]
pub struct ExCarbon(Carbon);

/// `common_game`'s silicon: an opaque token.
#[verifier::external_type_specification]
#[verifier::external_body]
pub struct ExSilicon(Silicon);

/// A basic resource that a generator produced.
#[derive(Debug, PartialEq, Eq)]
pub enum Generated {
    Oxygen(Oxygen),
    Hydrogen(Hydrogen),
    Carbon(Carbon),
    Silicon(Silicon),
}

impl Generated {
    /// The kind of the resource.
    pub open spec fn spec_kind(&self) -> ResourceKind {
        match self {
            Generated::Oxygen(_) => ResourceKind::Oxygen,
            Generated::Hydrogen(_) => ResourceKind::Hydrogen,
            Generated::Carbon(_) => ResourceKind::Carbon,
            Generated::Silicon(_) => ResourceKind::Silicon,
        }
    }

    /// The kind of the resource.
    #[verifier::when_used_as_spec(spec_kind)]
    pub fn kind(&self) -> (r: ResourceKind)
        ensures
            r == self.spec_kind(),
    {
        match self {
            Generated::Oxygen(_) => ResourceKind::Oxygen,
            Generated::Hydrogen(_) => ResourceKind::Hydrogen,
            Generated::Carbon(_) => ResourceKind::Carbon,
            Generated::Silicon(_) => ResourceKind::Silicon,
        }
    }
}

/// The kinds of basic resource that the generator has a recipe for.
pub uninterp spec fn generator_recipes(generator: Generator) -> Set<ResourceKind>;

/// The kinds of complex resource that the combinator has a recipe for.
pub uninterp spec fn combinator_recipes(combinator: Combinator) -> Set<ComplexKind>;

/// Whether the generator produces a resource of `kind` from a cell of the
/// given charge: it has the recipe and the cell is charged.
pub open spec fn generates(generator: Generator, kind: ResourceKind, charge: bool) -> bool {
    generator_recipes(generator).contains(kind) && charge
}

/// `Generator::make_oxygen` succeeds exactly where the generator has the
/// recipe for oxygen and the cell is charged, and then leaves the cell empty.
/// Where it fails, the cell is as it was.
pub assume_specification[ Generator::make_oxygen ](
    generator: &Generator,
    energy_cell: &mut EnergyCell,
) -> (r: Result<Oxygen, String>)
    ensures
        r is Ok == generates(*generator, ResourceKind::Oxygen, cell_charge(*old(energy_cell))),
        cell_charge(*final(energy_cell)) == (cell_charge(*old(energy_cell)) && r is Err),
;

/// `Generator::make_hydrogen`: as for oxygen, with the recipe for hydrogen.
pub assume_specification[ Generator::make_hydrogen ](
    generator: &Generator,
    energy_cell: &mut EnergyCell,
) -> (r: Result<Hydrogen, String>)
    ensures
        r is Ok == generates(*generator, ResourceKind::Hydrogen, cell_charge(*old(energy_cell))),
        cell_charge(*final(energy_cell)) == (cell_charge(*old(energy_cell)) && r is Err),
;

/// `Generator::make_carbon`: as for oxygen, with the recipe for carbon.
pub assume_specification[ Generator::make_carbon ](
    generator: &Generator,
    energy_cell: &mut EnergyCell,
) -> (r: Result<Carbon, String>)
    ensures
        r is Ok == generates(*generator, ResourceKind::Carbon, cell_charge(*old(energy_cell))),
        cell_charge(*final(energy_cell)) == (cell_charge(*old(energy_cell)) && r is Err),
;

/// `Generator::make_silicon`: as for oxygen, with the recipe for silicon.
pub assume_specification[ Generator::make_silicon ](
    generator: &Generator,
    energy_cell: &mut EnergyCell,
) -> (r: Result<Silicon, String>)
    ensures
        r is Ok == generates(*generator, ResourceKind::Silicon, cell_charge(*old(energy_cell))),
        cell_charge(*final(energy_cell)) == (cell_charge(*old(energy_cell)) && r is Err),
;

/// `Generator::all_available_recipes`, each recipe named by its kind: every
/// recipe of the generator once, in the order in which the set is walked,
/// which is not fixed.
#[verifier::external_body]
pub(crate) fn supported_resources(generator: &Generator) -> (r: Vec<ResourceKind>)
    ensures
        r@.no_duplicates(),
        r@.to_set() == generator_recipes(*generator),
{
    generator.all_available_recipes().into_iter().map(|t| match t {
        BasicResourceType::Oxygen => ResourceKind::Oxygen,
        BasicResourceType::Hydrogen => ResourceKind::Hydrogen,
        BasicResourceType::Carbon => ResourceKind::Carbon,
        BasicResourceType::Silicon => ResourceKind::Silicon,
    }).collect()
}

/// `Combinator::all_available_recipes`, each recipe named by its kind: every
/// recipe of the combinator once, in the order in which the set is walked,
/// which is not fixed.
#[verifier::external_body]
pub(crate) fn supported_combinations(combinator: &Combinator) -> (r: Vec<ComplexKind>)
    ensures
        r@.no_duplicates(),
        r@.to_set() == combinator_recipes(*combinator),
{
    combinator.all_available_recipes().into_iter().map(|t| match t {
        ComplexResourceType::Diamond => ComplexKind::Diamond,
        ComplexResourceType::Water => ComplexKind::Water,
        ComplexResourceType::Life => ComplexKind::Life,
        ComplexResourceType::Robot => ComplexKind::Robot,
        ComplexResourceType::Dolphin => ComplexKind::Dolphin,
        ComplexResourceType::AIPartner => ComplexKind::AIPartner,
    }).collect()
}

} // verus!
