//! The build queue: starting, finishing and tearing down buildings.

use vstd::prelude::*;
use crate::error::AppError;
use crate::models::building::{Building, BuildingCost, BuildingType, BASE_STORAGE, MAX_LEVEL};
use crate::models::village::Village;
use crate::numeric::min_int;
use crate::services::movement::valid_instant;
use crate::services::ownership::ensure_owner;
use crate::services::resource_service::buildings_wf;

verus! {

/// The build-queue engine.
pub struct BuildingService;

/// Storage that the buildings of one kind among the first `n` stand for.
pub open spec fn stored_by(buildings: Seq<Building>, kind: BuildingType, n: int) -> int
    decreases n,
{
    if n <= 0 {
        0
    } else {
        stored_by(buildings, kind, n - 1) + if buildings[n - 1].building_type == kind {
            kind.spec_storage_capacity(buildings[n - 1].level as int)
        } else {
            0
        }
    }
}

/// Capacity of the stores of one kind: the base of every village and what
/// each building of the kind adds, as far as an `i32` holds it.
pub open spec fn capacity_of(buildings: Seq<Building>, kind: BuildingType) -> int {
    min_int(i32::MAX as int, BASE_STORAGE + stored_by(buildings, kind, buildings.len() as int))
}

/// Whether a building's upgrade is over at `now`.
pub open spec fn upgrade_due(building: Building, now: i64) -> bool {
    building.is_upgrading && (building.upgrade_ends_at matches Some(end) && end <= now)
}

/// What the completion of an upgrade did.
#[derive(Debug, Clone, Copy, PartialEq, Eq, Structural)]
pub struct Completion {
    /// Whether the building reached its next level now.
    pub completed: bool,
    /// Whether the capacity of the village's stores has to be computed anew.
    pub recompute_storage: bool,
}

/// Whether a village of `user_id` may start a building on a slot.
pub open spec fn build_refusal(
    village: Village,
    user_id: u128,
    existing: Option<Building>,
    prerequisites_met: bool,
    building_type: BuildingType,
) -> Option<int> {
    let cost = building_type.spec_cost_at_level(1);
    if village.user_id != user_id {
        Some(0)
    } else if existing.is_some() {
        Some(1)
    } else if !prerequisites_met {
        Some(2)
    } else if !village.can_afford(cost.wood as int, cost.clay as int, cost.iron as int, cost.crop as int) {
        Some(3)
    } else {
        None
    }
}

/// The village after it paid a cost.
pub open spec fn paid(before: Village, after: Village, cost: BuildingCost) -> bool {
    &&& after.same_but_resources(&before)
    &&& after.resources_updated_at == before.resources_updated_at
    &&& after.wood == before.wood - cost.wood
    &&& after.clay == before.clay - cost.clay
    &&& after.iron == before.iron - cost.iron
    &&& after.crop == before.crop - cost.crop
}

fn capacity_for(buildings: &Vec<Building>, kind: BuildingType) -> (r: i32)
    requires
        buildings_wf(buildings@),
    ensures
        r == capacity_of(buildings@, kind),
        r >= BASE_STORAGE,
{
    let mut acc: i64 = BASE_STORAGE as i64;
    let mut i: usize = 0;
    while i < buildings.len()
        invariant
            buildings_wf(buildings@),
            i <= buildings.len(),
            0 <= stored_by(buildings@, kind, i as int),
            acc == min_int(i32::MAX as int, BASE_STORAGE + stored_by(buildings@, kind, i as int)),
        decreases buildings.len() - i,
    {
        assert(buildings@[i as int].wf());
        if buildings[i].building_type == kind {
            let p = kind.storage_capacity(buildings[i].level);
            acc = acc + p as i64;
            if acc > i32::MAX as i64 {
                acc = i32::MAX as i64;
            }
        }
        i = i + 1;
    }
    acc as i32
}

impl BuildingService {
    /// Computes the capacity of the stores of a village from its warehouses
    /// and granaries. What a store holds above its new capacity is lost; the
    /// rest stays.
    pub fn update_village_storage(village: &mut Village, buildings: &Vec<Building>)
        requires
            buildings_wf(buildings@),
        ensures
            ({
                let warehouse = capacity_of(buildings@, BuildingType::Warehouse);
                let granary = capacity_of(buildings@, BuildingType::Granary);
                *final(village) == (Village {
                    warehouse_capacity: warehouse as i32,
                    granary_capacity: granary as i32,
                    wood: min_int(old(village).wood as int, warehouse) as i32,
                    clay: min_int(old(village).clay as int, warehouse) as i32,
                    iron: min_int(old(village).iron as int, warehouse) as i32,
                    crop: min_int(old(village).crop as int, granary) as i32,
                    ..*old(village)
                })
            }),
            old(village).wf() ==> final(village).wf(),
    {
        let warehouse = capacity_for(buildings, BuildingType::Warehouse);
        let granary = capacity_for(buildings, BuildingType::Granary);
        village.update_storage_capacity(warehouse, granary);
    }

    /// Finishes the upgrade of a building where it is over at `now`: the
    /// building is one level up and no longer upgrading. Else nothing
    /// changes, so that finishing twice does no harm.
    pub fn complete_upgrade(building: &mut Building, now: i64) -> (r: Completion)
        requires
            old(building).wf(),
        ensures
            final(building).wf(),
            r.completed == upgrade_due(*old(building), now),
            r.recompute_storage == (r.completed && old(building).building_type.spec_is_store()),
            !r.completed ==> *final(building) == *old(building),
            r.completed ==> *final(building) == (Building {
                level: (old(building).level + 1) as i32,
                is_upgrading: false,
                upgrade_ends_at: None,
                updated_at: now,
                ..*old(building)
            }),
    {
        let due = building.is_upgrading && match building.upgrade_ends_at {
            Some(end) => end <= now,
            None => false,
        };
        if !due {
            return Completion { completed: false, recompute_storage: false };
        }
        building.level = building.level + 1;
        building.is_upgrading = false;
        building.upgrade_ends_at = None;
        building.updated_at = now;
        let store = matches!(building.building_type, BuildingType::Warehouse | BuildingType::Granary);
        Completion { completed: true, recompute_storage: store }
    }

    /// Starts a new building on an empty slot: the village pays the cost of
    /// level 1, and the building stands at level 0 until its upgrade ends.
    pub fn build(
        village: &mut Village,
        user_id: u128,
        existing: Option<Building>,
        prerequisites_met: bool,
        slot: i32,
        building_type: BuildingType,
        building_id: u128,
        now: i64,
    ) -> (r: Result<(Building, BuildingCost), AppError>)
        requires
            valid_instant(now as int),
        ensures
            match build_refusal(*old(village), user_id, existing, prerequisites_met, building_type) {
                Some(why) => r matches Err(e) && *final(village) == *old(village) && (if why == 0 {
                    e == AppError::Forbidden
                } else if why == 1 {
                    e.is_conflict("Slot already occupied"@)
                } else if why == 2 {
                    e.is_bad_request("Prerequisites not met"@)
                } else {
                    e.is_bad_request("Not enough resources"@)
                }),
                None => r matches Ok(started) && {
                    &&& started.1 == building_type.spec_cost_at_level(1)
                    &&& paid(*old(village), *final(village), started.1)
                    &&& started.0 == (Building {
                        id: building_id,
                        village_id: old(village).id,
                        building_type,
                        slot,
                        level: 0,
                        is_upgrading: true,
                        upgrade_ends_at: Some((now + 1000 * started.1.time_seconds) as i64),
                        created_at: now,
                        updated_at: now,
                    })
                    &&& started.0.wf()
                    &&& (old(village).wf() ==> final(village).wf())
                },
            },
    {
        match ensure_owner(village.user_id, user_id) {
            Err(e) => {
                return Err(e);
            },
            Ok(_) => {},
        }
        if existing.is_some() {
            return Err(AppError::conflict("Slot already occupied"));
        }
        if !prerequisites_met {
            return Err(AppError::bad_request("Prerequisites not met"));
        }
        let cost = building_type.cost_at_level(1);
        match village.deduct_resources(cost.wood, cost.clay, cost.iron, cost.crop) {
            Err(e) => {
                return Err(e);
            },
            Ok(_) => {},
        }
        let building = Building {
            id: building_id,
            village_id: village.id,
            building_type,
            slot,
            level: 0,
            is_upgrading: true,
            upgrade_ends_at: Some(now + 1000 * cost.time_seconds as i64),
            created_at: now,
            updated_at: now,
        };
        Ok((building, cost))
    }

    /// Starts the upgrade of a building to its next level: the village pays
    /// the cost of that level.
    pub fn upgrade(village: &mut Village, user_id: u128, existing: Option<Building>, now: i64) -> (r:
        Result<(Building, BuildingCost), AppError>)
        requires
            valid_instant(now as int),
            existing matches Some(b) ==> b.level >= 0,
        ensures
            r.is_err() ==> *final(village) == *old(village),
            old(village).user_id != user_id ==> r == Err::<(Building, BuildingCost), AppError>(
                AppError::Forbidden,
            ),
            (old(village).user_id == user_id && existing.is_none()) ==> (r matches Err(e)
                && e.is_not_found("Building not found"@)),
            (old(village).user_id == user_id && existing.is_some()) ==> {
                let b = existing.unwrap();
                let cost = b.building_type.spec_cost_at_level(b.level + 1);
                if b.is_upgrading {
                    r matches Err(e) && e.is_conflict("Building is already upgrading"@)
                } else if b.level + 1 > MAX_LEVEL {
                    r matches Err(e) && e.is_bad_request("Building is at max level"@)
                } else if !old(village).can_afford(
                    cost.wood as int,
                    cost.clay as int,
                    cost.iron as int,
                    cost.crop as int,
                ) {
                    r matches Err(e) && e.is_bad_request("Not enough resources"@)
                } else {
                    r matches Ok(started) && {
                        &&& started.1 == cost
                        &&& paid(*old(village), *final(village), cost)
                        &&& started.0 == (Building {
                            is_upgrading: true,
                            upgrade_ends_at: Some((now + 1000 * cost.time_seconds) as i64),
                            updated_at: now,
                            ..b
                        })
                        &&& started.0.wf()
                        &&& (old(village).wf() ==> final(village).wf())
                    }
                }
            },
    {
        match ensure_owner(village.user_id, user_id) {
            Err(e) => {
                return Err(e);
            },
            Ok(_) => {},
        }
        let mut building = match existing {
            Some(b) => b,
            None => {
                return Err(AppError::not_found("Building not found"));
            },
        };
        if building.is_upgrading {
            return Err(AppError::conflict("Building is already upgrading"));
        }
        if building.level >= building.building_type.max_level() {
            return Err(AppError::bad_request("Building is at max level"));
        }
        let next_level = building.level + 1;
        let cost = building.building_type.cost_at_level(next_level);
        match village.deduct_resources(cost.wood, cost.clay, cost.iron, cost.crop) {
            Err(e) => {
                return Err(e);
            },
            Ok(_) => {},
        }
        building.is_upgrading = true;
        building.upgrade_ends_at = Some(now + 1000 * cost.time_seconds as i64);
        building.updated_at = now;
        Ok((building, cost))
    }

    /// Decides whether a building may be torn down: every building but a
    /// main building above level 0. The building to remove is handed back.
    pub fn demolish(village: &Village, user_id: u128, existing: Option<Building>) -> (r: Result<
        Building,
        AppError,
    >)
        ensures
            village.user_id != user_id ==> r == Err::<Building, AppError>(AppError::Forbidden),
            (village.user_id == user_id && existing.is_none()) ==> (r matches Err(e)
                && e.is_not_found("Building not found"@)),
            (village.user_id == user_id && existing.is_some()) ==> {
                let b = existing.unwrap();
                if b.building_type == BuildingType::MainBuilding && b.level > 0 {
                    r matches Err(e) && e.is_bad_request("Cannot demolish Main Building"@)
                } else {
                    r == Ok::<Building, AppError>(b)
                }
            },
    {
        match ensure_owner(village.user_id, user_id) {
            Err(e) => {
                return Err(e);
            },
            Ok(_) => {},
        }
        let building = match existing {
            Some(b) => b,
            None => {
                return Err(AppError::not_found("Building not found"));
            },
        };
        if building.building_type == BuildingType::MainBuilding && building.level > 0 {
            return Err(AppError::bad_request("Cannot demolish Main Building"));
        }
        Ok(building)
    }
}

} // verus!
