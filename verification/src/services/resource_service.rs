//! Resource accrual: what the fields of a village produce, and the stores
//! that hold it.

use vstd::prelude::*;
use crate::error::AppError;
use crate::models::building::{Building, BuildingType};
use crate::models::village::{ProductionRates, Village};
use crate::numeric::min_int;

verus! {

/// The resource engine.
pub struct ResourceService;

/// Every building of a list has a level that buildings have.
pub open spec fn buildings_wf(buildings: Seq<Building>) -> bool {
    forall|i: int| 0 <= i < buildings.len() ==> (#[trigger] buildings[i]).wf()
}

/// Hourly output of the fields of one kind among the first `n` buildings.
pub open spec fn field_rate(buildings: Seq<Building>, kind: BuildingType, n: int) -> int
    decreases n,
{
    if n <= 0 {
        0
    } else {
        field_rate(buildings, kind, n - 1) + if buildings[n - 1].building_type == kind {
            kind.spec_production_per_hour(buildings[n - 1].level as int)
        } else {
            0
        }
    }
}

/// Hourly output of all fields of one kind, as far as an `i32` holds it.
pub open spec fn rate_of(buildings: Seq<Building>, kind: BuildingType) -> int {
    min_int(i32::MAX as int, field_rate(buildings, kind, buildings.len() as int))
}

/// The hourly output of a village with these buildings.
pub open spec fn rates_of(buildings: Seq<Building>) -> ProductionRates {
    ProductionRates {
        wood_per_hour: rate_of(buildings, BuildingType::Woodcutter) as i32,
        clay_per_hour: rate_of(buildings, BuildingType::ClayPit) as i32,
        iron_per_hour: rate_of(buildings, BuildingType::IronMine) as i32,
        crop_per_hour: rate_of(buildings, BuildingType::CropField) as i32,
    }
}

fn rate_for(buildings: &Vec<Building>, kind: BuildingType) -> (r: i32)
    requires
        buildings_wf(buildings@),
        kind.spec_is_resource_field(),
    ensures
        r == rate_of(buildings@, kind),
        r >= 0,
{
    let mut acc: i64 = 0;
    let mut i: usize = 0;
    while i < buildings.len()
        invariant
            buildings_wf(buildings@),
            kind.spec_is_resource_field(),
            i <= buildings.len(),
            0 <= field_rate(buildings@, kind, i as int),
            acc == min_int(i32::MAX as int, field_rate(buildings@, kind, i as int)),
        decreases buildings.len() - i,
    {
        assert(buildings@[i as int].wf());
        if buildings[i].building_type == kind {
            let p = kind.production_per_hour(buildings[i].level);
            acc = acc + p as i64;
            if acc > i32::MAX as i64 {
                acc = i32::MAX as i64;
            }
        }
        i = i + 1;
    }
    acc as i32
}

impl ResourceService {
    /// Sums the hourly output of all resource fields, per resource.
    pub fn production_rates(buildings: &Vec<Building>) -> (r: ProductionRates)
        requires
            buildings_wf(buildings@),
        ensures
            r == rates_of(buildings@),
            r.wf(),
    {
        ProductionRates {
            wood_per_hour: rate_for(buildings, BuildingType::Woodcutter),
            clay_per_hour: rate_for(buildings, BuildingType::ClayPit),
            iron_per_hour: rate_for(buildings, BuildingType::IronMine),
            crop_per_hour: rate_for(buildings, BuildingType::CropField),
        }
    }

    /// Brings the resources of a village up to `now` from what its fields
    /// produce. Doing it twice at the same instant changes nothing more.
    pub fn refresh(village: &mut Village, buildings: &Vec<Building>, now: i64)
        requires
            buildings_wf(buildings@),
        ensures
            old(village).refreshed(rates_of(buildings@), now as int, final(village)),
            old(village).wf() ==> final(village).wf(),
    {
        let rates = ResourceService::production_rates(buildings);
        village.refresh(&rates, now);
    }

    /// Takes the four amounts from the stores, all or nothing.
    pub fn deduct(village: &mut Village, wood: i32, clay: i32, iron: i32, crop: i32) -> (r: Result<
        (),
        AppError,
    >)
        requires
            wood >= 0,
            clay >= 0,
            iron >= 0,
            crop >= 0,
        ensures
            final(village).same_but_resources(old(village)),
            final(village).resources_updated_at == old(village).resources_updated_at,
            r.is_ok() <==> old(village).can_afford(wood as int, clay as int, iron as int, crop as int),
            r.is_ok() ==> final(village).wood == old(village).wood - wood && final(village).clay
                == old(village).clay - clay && final(village).iron == old(village).iron - iron
                && final(village).crop == old(village).crop - crop,
            r matches Err(e) ==> e.is_bad_request("Not enough resources"@) && *final(village)
                == *old(village),
            old(village).wf() ==> final(village).wf(),
    {
        village.deduct_resources(wood, clay, iron, crop)
    }

    /// Adds the four amounts to the stores, each up to its capacity.
    pub fn credit(village: &mut Village, wood: i32, clay: i32, iron: i32, crop: i32)
        requires
            wood >= 0,
            clay >= 0,
            iron >= 0,
            crop >= 0,
        ensures
            final(village).same_but_resources(old(village)),
            final(village).resources_updated_at == old(village).resources_updated_at,
            final(village).wood == min_int(
                old(village).wood + wood,
                old(village).warehouse_capacity as int,
            ),
            final(village).clay == min_int(
                old(village).clay + clay,
                old(village).warehouse_capacity as int,
            ),
            final(village).iron == min_int(
                old(village).iron + iron,
                old(village).warehouse_capacity as int,
            ),
            final(village).crop == min_int(
                old(village).crop + crop,
                old(village).granary_capacity as int,
            ),
            old(village).wf() ==> final(village).wf(),
    {
        village.add_resources(wood, clay, iron, crop);
    }
}

/// Whether every building of a list is well formed.
pub fn buildings_are_valid(buildings: &Vec<Building>) -> (r: bool)
    ensures
        r == buildings_wf(buildings@),
{
    let mut i: usize = 0;
    while i < buildings.len()
        invariant
            i <= buildings.len(),
            forall|j: int| 0 <= j < i ==> (#[trigger] buildings@[j]).wf(),
        decreases buildings.len() - i,
    {
        if !buildings[i].is_valid() {
            return false;
        }
        i = i + 1;
    }
    true
}

} // verus!
