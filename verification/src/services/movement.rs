//! Travel times and carried loot.

use vstd::prelude::*;
use crate::models::army::{Army, ArmyTroops, CarriedResources, MissionType};
use crate::models::troop::{
    catalog_wf, lemma_first_entry, TroopDefinition, TroopType, TROOP_KINDS,
};
use crate::models::village::Village;
use crate::numeric::{isqrt, isqrt_u128, lemma_isqrt, min_int};
use crate::services::army_service::ArmyService;
use crate::services::combat::{
    carry_of, has_entry, lemma_weighted_sum_nonnegative, speed_of, weigh_stats, weighted_sum,
    StatTable,
};

verus! {

/// Speed of an army whose troops are in no catalog, in fields an hour.
pub const DEFAULT_SPEED: i32 = 6;

/// Shortest journey, in seconds.
pub const MIN_TRAVEL_SECONDS: i64 = 60;

/// Instants that the engine computes with lie within this many milliseconds
/// of the epoch, on either side.
pub const LATEST_INSTANT: i64 = 4_000_000_000_000_000_000;

pub open spec fn valid_instant(t: int) -> bool {
    -LATEST_INSTANT <= t <= LATEST_INSTANT
}

/// Square of the distance between two places.
pub open spec fn distance_squared(from_x: int, from_y: int, to_x: int, to_y: int) -> int {
    (to_x - from_x) * (to_x - from_x) + (to_y - from_y) * (to_y - from_y)
}

/// Speed of the slowest kind among the first `n` that is present and in the
/// catalog, if there is one.
pub open spec fn slowest_among(counts: Seq<i32>, defs: Seq<TroopDefinition>, n: int) -> Option<
    int,
>
    decreases n,
{
    if n <= 0 {
        None
    } else {
        let rest = slowest_among(counts, defs, n - 1);
        let t = TroopType::at(n - 1);
        if counts[n - 1] > 0 && has_entry(defs, t) {
            match rest {
                Some(v) => Some(min_int(v, speed_of(defs, t))),
                None => Some(speed_of(defs, t)),
            }
        } else {
            rest
        }
    }
}

/// Speed that governs an army: that of its slowest kind.
pub open spec fn slowest_speed(troops: ArmyTroops, defs: Seq<TroopDefinition>) -> int {
    match slowest_among(troops.counts@, defs, TROOP_KINDS as int) {
        Some(v) => v,
        None => DEFAULT_SPEED as int,
    }
}

/// Seconds to cover a distance, given by its square, at a speed in fields an
/// hour: `floor(3600 * sqrt(d2) / speed)`, and a minute at least.
pub open spec fn travel_seconds(d2: int, speed: int) -> int {
    let s = isqrt((12_960_000 * d2) as nat) / (speed as nat);
    if s < MIN_TRAVEL_SECONDS {
        MIN_TRAVEL_SECONDS as int
    } else {
        s as int
    }
}

/// Carry capacity of each kind.
pub open spec fn carry_weights(defs: Seq<TroopDefinition>) -> Seq<int> {
    Seq::new(TROOP_KINDS as nat, |i: int| carry_of(defs, TroopType::at(i)))
}

/// What an army can carry.
pub open spec fn carry_capacity(troops: ArmyTroops, defs: Seq<TroopDefinition>) -> int {
    weighted_sum(troops.counts@, carry_weights(defs), TROOP_KINDS as int)
}

/// An army carries no more than its troops can carry.
pub open spec fn load_fits(army: Army, defs: Seq<TroopDefinition>) -> bool {
    army.resources.spec_total() <= carry_capacity(army.troops, defs)
}

/// What a mission may take of an amount: a raid half, an attack or a
/// conquest all, others nothing.
pub open spec fn lootable(amount: int, mission: MissionType) -> int {
    match mission {
        MissionType::Raid => amount / 2,
        MissionType::Attack | MissionType::Conquer => amount,
        _ => 0,
    }
}

/// What is taken of one resource: all that may be taken where everything
/// fits, else its share of the capacity.
pub open spec fn loot_share(available: int, total_available: int, capacity: int) -> int {
    if capacity <= 0 || total_available <= 0 {
        0
    } else if total_available <= capacity {
        available
    } else {
        (available * capacity) / total_available
    }
}

/// The loot of a won battle.
pub open spec fn stolen_from(
    target: Village,
    survivors: ArmyTroops,
    defs: Seq<TroopDefinition>,
    mission: MissionType,
) -> CarriedResources {
    let capacity = carry_capacity(survivors, defs);
    let wood = lootable(target.wood as int, mission);
    let clay = lootable(target.clay as int, mission);
    let iron = lootable(target.iron as int, mission);
    let crop = lootable(target.crop as int, mission);
    let total = wood + clay + iron + crop;
    CarriedResources {
        wood: loot_share(wood, total, capacity) as i32,
        clay: loot_share(clay, total, capacity) as i32,
        iron: loot_share(iron, total, capacity) as i32,
        crop: loot_share(crop, total, capacity) as i32,
    }
}

fn take_share(available: i32, total_available: i64, capacity: u128) -> (r: i32)
    requires
        0 <= available <= total_available,
        total_available <= 4 * 0x7fff_ffff,
    ensures
        r == loot_share(available as int, total_available as int, capacity as int),
        0 <= r <= available,
{
    if capacity == 0 || total_available <= 0 {
        0
    } else if total_available as u128 <= capacity {
        available
    } else {
        assert(available as int * capacity as int <= 0x7fff_ffff * (4 * 0x7fff_ffff))
            by (nonlinear_arith)
            requires
                0 <= available <= 0x7fff_ffff,
                0 <= capacity < 4 * 0x7fff_ffff,
        ;
        let q = (available as u128 * capacity) / (total_available as u128);
        assert(q <= available) by (nonlinear_arith)
            requires
                q == (available as int * capacity as int) / (total_available as int),
                capacity < total_available,
                available >= 0,
                total_available > 0,
        ;
        q as i32
    }
}

fn lootable_of(amount: i32, mission: MissionType) -> (r: i32)
    requires
        amount >= 0,
    ensures
        r == lootable(amount as int, mission),
        0 <= r <= amount,
{
    match mission {
        MissionType::Raid => amount / 2,
        MissionType::Attack | MissionType::Conquer => amount,
        _ => 0,
    }
}

impl ArmyService {
    /// Square of the Euclidean distance between two places on the map.
    pub fn calculate_distance_squared(from_x: i32, from_y: i32, to_x: i32, to_y: i32) -> (r: u128)
        ensures
            r == distance_squared(from_x as int, from_y as int, to_x as int, to_y as int),
            r <= 0x2_0000_0000_0000_0000,
    {
        let dx: i128 = to_x as i128 - from_x as i128;
        let dy: i128 = to_y as i128 - from_y as i128;
        assert(0 <= dx * dx <= 0x1_0000_0000_0000_0000) by (nonlinear_arith)
            requires
                -0x1_0000_0000 <= dx <= 0x1_0000_0000,
        ;
        assert(0 <= dy * dy <= 0x1_0000_0000_0000_0000) by (nonlinear_arith)
            requires
                -0x1_0000_0000 <= dy <= 0x1_0000_0000,
        ;
        (dx * dx + dy * dy) as u128
    }

    /// Speed of the slowest kind of an army, the default where none of its
    /// kinds is in the catalog.
    pub fn slowest_speed(troops: &ArmyTroops, definitions: &Vec<TroopDefinition>) -> (v: i32)
        requires
            troops.wf(),
            catalog_wf(definitions@),
        ensures
            v == slowest_speed(*troops, definitions@),
            v >= 1,
    {
        let table = StatTable::from_catalog(definitions);
        let mut best: Option<i32> = None;
        let mut i: usize = 0;
        while i < TROOP_KINDS
            invariant
                i <= TROOP_KINDS,
                troops.wf(),
                table.matches_catalog(definitions@),
                match best {
                    Some(v) => slowest_among(troops.counts@, definitions@, i as int) == Some(v as int) && v
                        >= 1,
                    None => slowest_among(troops.counts@, definitions@, i as int).is_none(),
                },
            decreases TROOP_KINDS - i,
        {
            assert(table.row_ok(definitions@, i as int));
            if troops.counts[i] > 0 && table.present[i] {
                let s = table.speed[i];
                best = match best {
                    Some(v) => Some(if v <= s {
                        v
                    } else {
                        s
                    }),
                    None => Some(s),
                };
            }
            i = i + 1;
        }
        match best {
            Some(v) => v,
            None => DEFAULT_SPEED,
        }
    }

    /// Seconds that an army needs for a distance, given by its square.
    pub fn calculate_travel_time(
        distance_squared: u128,
        troops: &ArmyTroops,
        definitions: &Vec<TroopDefinition>,
    ) -> (seconds: i64)
        requires
            troops.wf(),
            catalog_wf(definitions@),
            distance_squared <= 0x2_0000_0000_0000_0000,
        ensures
            seconds == travel_seconds(distance_squared as int, slowest_speed(*troops, definitions@)),
            MIN_TRAVEL_SECONDS <= seconds <= 30_000_000_000_000,
    {
        let v = ArmyService::slowest_speed(troops, definitions);
        let root = isqrt_u128(12_960_000 * distance_squared);
        proof {
            let x = (12_960_000 * distance_squared) as nat;
            lemma_isqrt(x);
            let r = isqrt(x);
            if r > 30_000_000_000_000 {
                assert(r * r > 12_960_000 * 0x2_0000_0000_0000_0000) by (nonlinear_arith)
                    requires
                        r > 30_000_000_000_000,
                ;
            }
        }
        let s = root / (v as u64);
        if s < 60 {
            MIN_TRAVEL_SECONDS
        } else {
            s as i64
        }
    }

    /// What the troops of an army can carry together.
    pub fn calculate_carry_capacity(troops: &ArmyTroops, definitions: &Vec<TroopDefinition>) -> (r:
        u128)
        requires
            troops.wf(),
            catalog_wf(definitions@),
        ensures
            r == carry_capacity(*troops, definitions@),
    {
        let table = StatTable::from_catalog(definitions);
        proof {
            assert forall|i: int| 0 <= i < TROOP_KINDS implies table.carry_capacity@[i] >= 0
                && table.carry_capacity@[i] == carry_weights(definitions@)[i] by {
                assert(table.row_ok(definitions@, i));
            }
            assert(table.carry_capacity@.map_values(|w: i32| w as int) =~= carry_weights(
                definitions@,
            ));
        }
        weigh_stats(&troops.counts, &table.carry_capacity)
    }

    /// What a victorious army takes from a village: of each resource what
    /// the mission allows, scaled down where the survivors cannot carry all.
    pub fn calculate_stolen_resources(
        target: &Village,
        survivors: &ArmyTroops,
        definitions: &Vec<TroopDefinition>,
        mission: MissionType,
    ) -> (r: CarriedResources)
        requires
            target.wf(),
            survivors.wf(),
            catalog_wf(definitions@),
        ensures
            r == stolen_from(*target, *survivors, definitions@, mission),
            r.wf(),
            r.wood <= target.wood,
            r.clay <= target.clay,
            r.iron <= target.iron,
            r.crop <= target.crop,
    {
        let capacity = ArmyService::calculate_carry_capacity(survivors, definitions);
        let wood = lootable_of(target.wood, mission);
        let clay = lootable_of(target.clay, mission);
        let iron = lootable_of(target.iron, mission);
        let crop = lootable_of(target.crop, mission);
        let total: i64 = wood as i64 + clay as i64 + iron as i64 + crop as i64;
        CarriedResources {
            wood: take_share(wood, total, capacity),
            clay: take_share(clay, total, capacity),
            iron: take_share(iron, total, capacity),
            crop: take_share(crop, total, capacity),
        }
    }
}

/// The loot is the smaller of what the mission may take and what the army
/// can carry: where everything fits, all that may be taken is taken, and in
/// no case more than the army carries or than the mission allows.
pub proof fn lemma_loot_is_bounded(
    target: Village,
    survivors: ArmyTroops,
    defs: Seq<TroopDefinition>,
    mission: MissionType,
)
    requires
        target.wf(),
        carry_capacity(survivors, defs) >= 0,
    ensures
        ({
            let stolen = stolen_from(target, survivors, defs, mission);
            let capacity = carry_capacity(survivors, defs);
            let wood = lootable(target.wood as int, mission);
            let clay = lootable(target.clay as int, mission);
            let iron = lootable(target.iron as int, mission);
            let crop = lootable(target.crop as int, mission);
            &&& 0 <= stolen.wood <= wood
            &&& 0 <= stolen.clay <= clay
            &&& 0 <= stolen.iron <= iron
            &&& 0 <= stolen.crop <= crop
            &&& stolen.spec_total() <= capacity
            &&& (0 < wood + clay + iron + crop <= capacity) ==> stolen.spec_total() == wood + clay
                + iron + crop
        }),
{
    let c = carry_capacity(survivors, defs);
    let wood = lootable(target.wood as int, mission);
    let clay = lootable(target.clay as int, mission);
    let iron = lootable(target.iron as int, mission);
    let crop = lootable(target.crop as int, mission);
    let t = wood + clay + iron + crop;
    if c > 0 && t > c {
        lemma_share_bounds(wood, t, c);
        lemma_share_bounds(clay, t, c);
        lemma_share_bounds(iron, t, c);
        lemma_share_bounds(crop, t, c);
        let a = (wood * c) / t;
        let b = (clay * c) / t;
        let x = (iron * c) / t;
        let y = (crop * c) / t;
        assert((a + b + x + y) * t <= c * t) by (nonlinear_arith)
            requires
                a * t <= wood * c,
                b * t <= clay * c,
                x * t <= iron * c,
                y * t <= crop * c,
                t == wood + clay + iron + crop,
        ;
        assert(a + b + x + y <= c) by (nonlinear_arith)
            requires
                (a + b + x + y) * t <= c * t,
                t > 0,
        ;
    }
}

proof fn lemma_share_bounds(part: int, total: int, capacity: int)
    requires
        0 <= part <= total,
        0 < capacity < total,
    ensures
        0 <= (part * capacity) / total <= part,
        ((part * capacity) / total) * total <= part * capacity,
{
    assert(0 <= (part * capacity) / total <= part && ((part * capacity) / total) * total <= part
        * capacity) by (nonlinear_arith)
        requires
            0 <= part <= total,
            0 < capacity < total,
    ;
}

/// Whether an instant lies within the range that the engine computes with.
pub fn is_valid_instant(t: i64) -> (r: bool)
    ensures
        r == valid_instant(t as int),
{
    -LATEST_INSTANT <= t && t <= LATEST_INSTANT
}

/// Troops carry something or nothing, never less.
pub proof fn lemma_carry_capacity_nonnegative(troops: ArmyTroops, defs: Seq<TroopDefinition>)
    requires
        troops.wf(),
        catalog_wf(defs),
    ensures
        carry_capacity(troops, defs) >= 0,
{
    assert forall|i: int| 0 <= i < TROOP_KINDS implies carry_weights(defs)[i] >= 0 by {
        lemma_first_entry(defs, TroopType::at(i), defs.len() as int);
    }
    lemma_weighted_sum_nonnegative(troops.counts@, carry_weights(defs), TROOP_KINDS as int);
}

} // verus!
