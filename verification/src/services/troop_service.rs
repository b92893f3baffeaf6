//! The training queue: ordering troops, cancelling an order, and moving
//! trained troops into the garrison.

use vstd::prelude::*;
use crate::error::AppError;
use crate::models::building::{Building, BuildingType};
use crate::models::troop::{
    catalog_wf, entry_of, find_definition, Garrison, TroopCost, TroopDefinition, TroopQueue, TroopType,
};
use crate::models::village::Village;
use crate::numeric::min_int;
use crate::services::movement::{is_valid_instant, valid_instant};

verus! {

/// The train-queue engine.
pub struct TroopService;

/// Whether a village has a building of a kind at a level or above.
pub open spec fn has_building(buildings: Seq<Building>, kind: BuildingType, level: int) -> bool {
    exists|i: int|
        0 <= i < buildings.len() && (#[trigger] buildings[i]).building_type == kind
            && buildings[i].level >= level
}

/// A batch has troops to train, and no unit takes less than no time.
pub open spec fn batch_wf(entry: TroopQueue) -> bool {
    entry.count >= 1 && entry.each_duration_seconds >= 0 && valid_instant(entry.started_at as int)
}

/// Units of a batch that are trained at `now`: one for every full duration
/// since the batch started, and no more than the batch has.
pub open spec fn units_done(entry: TroopQueue, now: int) -> int {
    if now <= entry.started_at {
        0
    } else if entry.each_duration_seconds <= 0 {
        entry.count as int
    } else {
        min_int(
            entry.count as int,
            (now - entry.started_at) / (1000 * entry.each_duration_seconds),
        )
    }
}

/// The instant at which a new batch starts: now, or when the last batch of
/// the village ends, whichever is later.
pub open spec fn batch_start(now: i64, last_ends_at: Option<i64>) -> i64 {
    match last_ends_at {
        Some(end) => if end > now {
            end
        } else {
            now
        },
        None => now,
    }
}

/// What a cancelled order gives back, and what is left of the batch.
#[derive(Debug, Clone, Copy, PartialEq, Eq, Structural)]
pub struct Cancellation {
    /// Units that were not trained yet and are paid back.
    pub units_refunded: i32,
    /// The batch of the units that were trained already, if there are any.
    pub kept: Option<TroopQueue>,
}

/// What the draining of a batch did.
#[derive(Debug, Clone, Copy, PartialEq, Eq, Structural)]
pub struct Drained {
    /// Units that joined the garrison.
    pub units: i32,
    /// What is left of the batch, if anything.
    pub kept: Option<TroopQueue>,
}

/// The price of `count` units at `unit` each, as far as an `i32` holds it.
pub open spec fn price(count: int, unit: int) -> int {
    min_int(i32::MAX as int, count * unit)
}

fn price_of(count: i32, unit: i32) -> (r: i32)
    requires
        count >= 0,
        unit >= 0,
    ensures
        r == price(count as int, unit as int),
        r >= 0,
{
    assert(0 <= count as int * unit as int <= 0x7fff_ffff * 0x7fff_ffff) by (nonlinear_arith)
        requires
            0 <= count <= 0x7fff_ffff,
            0 <= unit <= 0x7fff_ffff,
    ;
    let p: i64 = count as i64 * unit as i64;
    if p > i32::MAX as i64 {
        i32::MAX
    } else {
        p as i32
    }
}

fn exact_price(count: i32, unit: i32) -> (r: i64)
    requires
        count >= 0,
        unit >= 0,
    ensures
        r == count * unit,
        r >= 0,
{
    assert(0 <= count as int * unit as int <= 0x7fff_ffff * 0x7fff_ffff) by (nonlinear_arith)
        requires
            0 <= count <= 0x7fff_ffff,
            0 <= unit <= 0x7fff_ffff,
    ;
    count as i64 * unit as i64
}

fn building_at_level(buildings: &Vec<Building>, kind: BuildingType, level: i32) -> (r: bool)
    ensures
        r == has_building(buildings@, kind, level as int),
{
    let mut i: usize = 0;
    while i < buildings.len()
        invariant
            i <= buildings.len(),
            forall|j: int|
                0 <= j < i ==> !((#[trigger] buildings@[j]).building_type == kind
                    && buildings@[j].level >= level),
        decreases buildings.len() - i,
    {
        if buildings[i].building_type == kind && buildings[i].level >= level {
            return true;
        }
        i = i + 1;
    }
    false
}

fn done_units(entry: &TroopQueue, now: i64) -> (r: i32)
    requires
        batch_wf(*entry),
        valid_instant(now as int),
    ensures
        r == units_done(*entry, now as int),
        0 <= r <= entry.count,
        entry.each_duration_seconds > 0 ==> entry.started_at + 1000 * r
            * entry.each_duration_seconds <= if now > entry.started_at {
            now
        } else {
            entry.started_at
        },
{
    if now <= entry.started_at {
        0
    } else if entry.each_duration_seconds <= 0 {
        entry.count
    } else {
        let step: i64 = 1000 * entry.each_duration_seconds as i64;
        let q: i64 = (now - entry.started_at) / step;
        proof {
            let d = now - entry.started_at;
            assert(q * step <= d && q >= 0) by (nonlinear_arith)
                requires
                    q == d / (step as int),
                    step > 0,
                    d >= 0,
            ;
        }
        if q > entry.count as i64 {
            proof {
                assert(1000 * entry.count * entry.each_duration_seconds <= q * step)
                    by (nonlinear_arith)
                    requires
                        entry.count < q,
                        step == 1000 * entry.each_duration_seconds,
                        entry.each_duration_seconds > 0,
                ;
            }
            entry.count
        } else {
            proof {
                assert(1000 * q * entry.each_duration_seconds == q * step) by (nonlinear_arith)
                    requires
                        step == 1000 * entry.each_duration_seconds,
                ;
            }
            q as i32
        }
    }
}

impl TroopService {
    /// Orders `count` troops of a kind: the village pays for all of them,
    /// and the batch joins the queue behind the batches that are in it.
    pub fn train_troops(
        village: &mut Village,
        buildings: &Vec<Building>,
        definitions: &Vec<TroopDefinition>,
        last_ends_at: Option<i64>,
        troop_type: TroopType,
        count: i32,
        queue_id: u128,
        now: i64,
    ) -> (r: Result<(TroopQueue, TroopCost), AppError>)
        requires
            catalog_wf(definitions@),
            valid_instant(now as int),
            last_ends_at matches Some(end) ==> valid_instant(end as int),
        ensures
            r.is_err() ==> *final(village) == *old(village),
            entry_of(definitions@, troop_type).is_none() ==> (r matches Err(e) && e.is_not_found(
                "Troop type not found"@,
            )),
            entry_of(definitions@, troop_type).is_some() ==> {
                let d = definitions@[entry_of(definitions@, troop_type).unwrap()];
                if count <= 0 {
                    r matches Err(e) && e.is_bad_request("Count must be positive"@)
                } else if !has_building(
                    buildings@,
                    d.required_building,
                    d.required_building_level as int,
                ) {
                    r matches Err(e) && e.is_bad_request("Required building not available"@)
                } else if count * d.training_time_seconds > i32::MAX {
                    r matches Err(e) && e.is_bad_request("Training takes too long"@)
                } else if !old(village).can_afford(
                    count * d.wood_cost,
                    count * d.clay_cost,
                    count * d.iron_cost,
                    count * d.crop_cost,
                ) {
                    r matches Err(e) && e.is_bad_request("Not enough resources"@)
                } else {
                    r matches Ok(ordered) && {
                        &&& ordered.1 == (TroopCost {
                            wood: (count * d.wood_cost) as i32,
                            clay: (count * d.clay_cost) as i32,
                            iron: (count * d.iron_cost) as i32,
                            crop: (count * d.crop_cost) as i32,
                            time_seconds: (count * d.training_time_seconds) as i32,
                        })
                        &&& ordered.0 == (TroopQueue {
                            id: queue_id,
                            village_id: old(village).id,
                            troop_type,
                            count,
                            each_duration_seconds: d.training_time_seconds,
                            started_at: batch_start(now, last_ends_at),
                            ends_at: (batch_start(now, last_ends_at) + 1000 * (count
                                * d.training_time_seconds)) as i64,
                            created_at: now,
                        })
                        &&& final(village).same_but_resources(old(village))
                        &&& final(village).resources_updated_at == old(village).resources_updated_at
                        &&& final(village).wood == old(village).wood - count * d.wood_cost
                        &&& final(village).clay == old(village).clay - count * d.clay_cost
                        &&& final(village).iron == old(village).iron - count * d.iron_cost
                        &&& final(village).crop == old(village).crop - count * d.crop_cost
                        &&& (old(village).wf() ==> final(village).wf())
                    }
                }
            },
    {
        let d = match find_definition(definitions, troop_type) {
            Some(k) => &definitions[k],
            None => {
                return Err(AppError::not_found("Troop type not found"));
            },
        };
        if count <= 0 {
            return Err(AppError::bad_request("Count must be positive"));
        }
        if !building_at_level(buildings, d.required_building, d.required_building_level) {
            return Err(AppError::bad_request("Required building not available"));
        }
        assert(0 <= count as int * d.training_time_seconds as int <= 0x7fff_ffff * 0x7fff_ffff)
            by (nonlinear_arith)
            requires
                0 <= count <= 0x7fff_ffff,
                0 <= d.training_time_seconds <= 0x7fff_ffff,
        ;
        let seconds: i64 = count as i64 * d.training_time_seconds as i64;
        if seconds > i32::MAX as i64 {
            return Err(AppError::bad_request("Training takes too long"));
        }
        let wood_all = exact_price(count, d.wood_cost);
        let clay_all = exact_price(count, d.clay_cost);
        let iron_all = exact_price(count, d.iron_cost);
        let crop_all = exact_price(count, d.crop_cost);
        if wood_all > village.wood as i64 || clay_all > village.clay as i64 || iron_all
            > village.iron as i64 || crop_all > village.crop as i64 {
            return Err(AppError::bad_request("Not enough resources"));
        }
        let wood = wood_all as i32;
        let clay = clay_all as i32;
        let iron = iron_all as i32;
        let crop = crop_all as i32;
        proof {
            assert(count * d.wood_cost >= 0 && count * d.clay_cost >= 0 && count * d.iron_cost >= 0
                && count * d.crop_cost >= 0) by (nonlinear_arith)
                requires
                    count > 0,
                    d.wood_cost >= 0,
                    d.clay_cost >= 0,
                    d.iron_cost >= 0,
                    d.crop_cost >= 0,
            ;
        }
        match village.deduct_resources(wood, clay, iron, crop) {
            Err(e) => {
                return Err(e);
            },
            Ok(_) => {},
        }
        let started_at = match last_ends_at {
            Some(end) => if end > now {
                end
            } else {
                now
            },
            None => now,
        };
        let entry = TroopQueue {
            id: queue_id,
            village_id: village.id,
            troop_type,
            count,
            each_duration_seconds: d.training_time_seconds,
            started_at,
            ends_at: started_at + 1000 * seconds,
            created_at: now,
        };
        let cost = TroopCost { wood, clay, iron, crop, time_seconds: seconds as i32 };
        Ok((entry, cost))
    }

    /// Cancels an order: the units that are not trained yet are paid back
    /// into the stores, as far as the stores hold it, and the batch shrinks
    /// to the units that are trained already.
    pub fn cancel_training(
        village: &mut Village,
        entry: Option<TroopQueue>,
        definitions: &Vec<TroopDefinition>,
        now: i64,
    ) -> (r: Result<Cancellation, AppError>)
        requires
            catalog_wf(definitions@),
            valid_instant(now as int),
            entry matches Some(q) ==> batch_wf(q),
        ensures
            r.is_ok() <==> (entry.is_some() && entry.unwrap().village_id == old(village).id),
            r matches Err(e) ==> e.is_not_found("Queue entry not found"@) && *final(village) == *old(village),
            r matches Ok(c) ==> {
                let q = entry.unwrap();
                let done = units_done(q, now as int);
                let unit = match entry_of(definitions@, q.troop_type) {
                    Some(i) => (
                        definitions@[i].wood_cost,
                        definitions@[i].clay_cost,
                        definitions@[i].iron_cost,
                        definitions@[i].crop_cost,
                    ),
                    None => (0i32, 0i32, 0i32, 0i32),
                };
                &&& c.units_refunded == q.count - done
                &&& c.kept == if done == 0 {
                    None
                } else {
                    Some(
                        TroopQueue {
                            count: done as i32,
                            ends_at: if q.each_duration_seconds > 0 {
                                (q.started_at + 1000 * done * q.each_duration_seconds) as i64
                            } else {
                                q.started_at
                            },
                            ..q
                        },
                    )
                }
                &&& final(village).same_but_resources(old(village))
                &&& final(village).resources_updated_at == old(village).resources_updated_at
                &&& final(village).wood == min_int(
                    old(village).wood + price(q.count - done, unit.0 as int),
                    old(village).warehouse_capacity as int,
                )
                &&& final(village).clay == min_int(
                    old(village).clay + price(q.count - done, unit.1 as int),
                    old(village).warehouse_capacity as int,
                )
                &&& final(village).iron == min_int(
                    old(village).iron + price(q.count - done, unit.2 as int),
                    old(village).warehouse_capacity as int,
                )
                &&& final(village).crop == min_int(
                    old(village).crop + price(q.count - done, unit.3 as int),
                    old(village).granary_capacity as int,
                )
                &&& (old(village).wf() ==> final(village).wf())
            },
    {
        let q = match entry {
            Some(q) => q,
            None => {
                return Err(AppError::not_found("Queue entry not found"));
            },
        };
        if q.village_id != village.id {
            return Err(AppError::not_found("Queue entry not found"));
        }
        let done = done_units(&q, now);
        let rest = q.count - done;
        let (uw, uc, ui, ur) = match find_definition(definitions, q.troop_type) {
            Some(k) => (
                definitions[k].wood_cost,
                definitions[k].clay_cost,
                definitions[k].iron_cost,
                definitions[k].crop_cost,
            ),
            None => (0, 0, 0, 0),
        };
        village.add_resources(
            price_of(rest, uw),
            price_of(rest, uc),
            price_of(rest, ui),
            price_of(rest, ur),
        );
        let kept = if done == 0 {
            None
        } else {
            let mut k = q;
            k.count = done;
            k.ends_at = if q.each_duration_seconds > 0 {
                assert(0 <= done as int * q.each_duration_seconds as int <= 0x7fff_ffff
                    * 0x7fff_ffff) by (nonlinear_arith)
                    requires
                        0 <= done <= 0x7fff_ffff,
                        0 <= q.each_duration_seconds <= 0x7fff_ffff,
                ;
                let span: i128 = (done as i128) * (q.each_duration_seconds as i128);
                proof {
                    assert(1000 * done * q.each_duration_seconds == 1000 * span)
                        by (nonlinear_arith)
                        requires
                            span == done * q.each_duration_seconds,
                    ;
                }
                (q.started_at as i128 + 1000 * span) as i64
            } else {
                q.started_at
            };
            Some(k)
        };
        Ok(Cancellation { units_refunded: rest, kept })
    }

    /// Moves the trained units of a batch that is due at `now` into the
    /// garrison: they are owned by the village and at home. A batch that is
    /// done leaves the queue; of another, what is left starts where the
    /// trained units ended.
    pub fn drain_due(entry: TroopQueue, garrison: &mut Garrison, now: i64) -> (r: Result<
        Drained,
        AppError,
    >)
        requires
            batch_wf(entry),
            valid_instant(now as int),
            old(garrison).wf(),
        ensures
            final(garrison).wf(),
            ({
                let units = if entry.ends_at <= now {
                    units_done(entry, now as int)
                } else {
                    0
                };
                let t = entry.troop_type;
                &&& r.is_err() <==> old(garrison).owned.count(t) + units > i32::MAX
                &&& r matches Err(e) ==> e == AppError::InternalError && *final(garrison) == *old(garrison)
                &&& r matches Ok(d) ==> {
                    &&& d.units == units
                    &&& d.kept == if units == entry.count {
                        None
                    } else {
                        Some(
                            TroopQueue {
                                count: (entry.count - units) as i32,
                                started_at: (entry.started_at + 1000 * units
                                    * entry.each_duration_seconds) as i64,
                                ..entry
                            },
                        )
                    }
                    // trained units leave the queue as they join the garrison
                    &&& d.units + match d.kept {
                        Some(k) => k.count as int,
                        None => 0,
                    } == entry.count
                    &&& final(garrison).owned.count(t) == old(garrison).owned.count(t) + units
                    &&& final(garrison).home.count(t) == old(garrison).home.count(t) + units
                    &&& final(garrison).same_but(old(garrison), t)
                }
            }),
    {
        let units = if entry.ends_at <= now {
            done_units(&entry, now)
        } else {
            0
        };
        let owned = garrison.owned.get(entry.troop_type);
        if owned as i64 + units as i64 > i32::MAX as i64 {
            return Err(AppError::InternalError);
        }
        garrison.add_troops(entry.troop_type, units);
        let kept = if units == entry.count {
            None
        } else {
            let mut k = entry;
            k.count = entry.count - units;
            proof {
                if entry.each_duration_seconds <= 0 {
                    assert(1000 * units * entry.each_duration_seconds == 0) by (nonlinear_arith)
                        requires
                            entry.each_duration_seconds == 0,
                    ;
                }
            }
            assert(0 <= units as int * entry.each_duration_seconds as int <= 0x7fff_ffff
                * 0x7fff_ffff) by (nonlinear_arith)
                requires
                    0 <= units <= 0x7fff_ffff,
                    0 <= entry.each_duration_seconds <= 0x7fff_ffff,
            ;
            let span: i128 = (units as i128) * (entry.each_duration_seconds as i128);
            proof {
                assert(1000 * units * entry.each_duration_seconds == 1000 * span)
                    by (nonlinear_arith)
                    requires
                        span == units * entry.each_duration_seconds,
                ;
                if units == 0 {
                    assert(span == 0) by (nonlinear_arith)
                        requires
                            span == units * entry.each_duration_seconds,
                            units == 0,
                    ;
                }
            }
            k.started_at = (entry.started_at as i128 + 1000 * span) as i64;
            Some(k)
        };
        Ok(Drained { units, kept })
    }
}

/// Whether a batch of the queue is well formed.
pub fn batch_is_valid(entry: &TroopQueue) -> (r: bool)
    ensures
        r == batch_wf(*entry),
{
    entry.count >= 1 && entry.each_duration_seconds >= 0 && is_valid_instant(
        entry.started_at,
    )
}

} // verus!
