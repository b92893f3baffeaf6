//! Villages: who owns them, where they lie, and what they hold.

use vstd::prelude::*;
use crate::error::AppError;
use crate::numeric::min_int;

verus! {

/// Loyalty of a village right after it changed hands.
pub const LOYALTY_AFTER_CONQUEST: i32 = 25;

/// Highest loyalty.
pub const MAX_LOYALTY: i32 = 100;

#[derive(Debug)]
pub struct Village {
    pub id: u128,
    pub user_id: u128,
    pub name: String,
    pub x: i32,
    pub y: i32,
    pub is_capital: bool,
    pub wood: i32,
    pub clay: i32,
    pub iron: i32,
    pub crop: i32,
    pub warehouse_capacity: i32,
    pub granary_capacity: i32,
    pub population: i32,
    pub culture_points: i32,
    pub loyalty: i32,
    /// Milliseconds since the epoch, as all instants are.
    pub resources_updated_at: i64,
    pub created_at: i64,
    pub updated_at: i64,
}

#[derive(Debug)]
pub struct CreateVillage {
    pub user_id: u128,
    pub name: String,
    pub x: i32,
    pub y: i32,
    pub is_capital: bool,
}

#[derive(Debug)]
pub struct UpdateVillage {
    pub name: Option<String>,
}

/// Hourly output of a village, per resource.
#[derive(Debug, Clone, Copy, PartialEq, Eq, Structural)]
pub struct ProductionRates {
    pub wood_per_hour: i32,
    pub clay_per_hour: i32,
    pub iron_per_hour: i32,
    pub crop_per_hour: i32,
}

impl ProductionRates {
    pub open spec fn wf(&self) -> bool {
        self.wood_per_hour >= 0 && self.clay_per_hour >= 0 && self.iron_per_hour >= 0
            && self.crop_per_hour >= 0
    }
}

#[derive(Debug)]
pub struct CreateVillageRequest {
    pub name: String,
    pub x: i32,
    pub y: i32,
}

#[derive(Debug)]
pub struct UpdateVillageRequest {
    pub name: Option<String>,
}

/// The part of the map that a client asks for.
#[derive(Debug, Clone, Copy, PartialEq, Eq, Structural)]
pub struct MapQuery {
    pub x: i32,
    pub y: i32,
    pub range: i32,
}

/// A village as the map shows it.
#[derive(Debug)]
pub struct VillageMapInfo {
    pub id: u128,
    pub user_id: u128,
    pub name: String,
    pub x: i32,
    pub y: i32,
    pub population: i32,
    pub player_name: Option<String>,
}

/// Whole seconds from one instant to a later one, none where the second is
/// not later.
pub open spec fn elapsed_seconds(from: int, to: int) -> int {
    if to > from {
        (to - from) / 1000
    } else {
        0
    }
}

/// What `amount` becomes after `seconds` at `rate` an hour under a cap.
pub open spec fn accrued(amount: int, rate: int, seconds: int, cap: int) -> int {
    min_int(cap, amount + (rate * seconds) / 3600)
}

/// Adds what was produced in `seconds` at `rate` an hour, up to the cap.
pub fn accrue(amount: i32, rate: i32, seconds: i64, cap: i32) -> (r: i32)
    requires
        rate >= 0,
        seconds >= 0,
    ensures
        r == accrued(amount as int, rate as int, seconds as int, cap as int),
        r <= cap,
{
    assert(0 <= rate as i128 * seconds as i128 <= 0x7fff_ffff * 0x7fff_ffff_ffff_ffff)
        by (nonlinear_arith)
        requires
            0 <= rate <= 0x7fff_ffff,
            0 <= seconds <= 0x7fff_ffff_ffff_ffff,
    ;
    let gained: i128 = (rate as i128) * (seconds as i128) / 3600;
    let sum: i128 = amount as i128 + gained;
    if sum > cap as i128 {
        cap
    } else {
        sum as i32
    }
}

impl Village {
    /// Every resource lies between nothing and its store's capacity, and
    /// loyalty between 0 and 100.
    pub open spec fn wf(&self) -> bool {
        &&& 0 <= self.wood <= self.warehouse_capacity
        &&& 0 <= self.clay <= self.warehouse_capacity
        &&& 0 <= self.iron <= self.warehouse_capacity
        &&& 0 <= self.crop <= self.granary_capacity
        &&& 0 <= self.loyalty <= MAX_LOYALTY
    }

    /// All but the resources and the instant of their last update are the
    /// same in both.
    pub open spec fn same_but_resources(&self, other: &Village) -> bool {
        &&& self.id == other.id
        &&& self.user_id == other.user_id
        &&& self.name == other.name
        &&& self.x == other.x
        &&& self.y == other.y
        &&& self.is_capital == other.is_capital
        &&& self.warehouse_capacity == other.warehouse_capacity
        &&& self.granary_capacity == other.granary_capacity
        &&& self.population == other.population
        &&& self.culture_points == other.culture_points
        &&& self.loyalty == other.loyalty
        &&& self.created_at == other.created_at
        &&& self.updated_at == other.updated_at
    }

    pub open spec fn same_resources(&self, other: &Village) -> bool {
        &&& self.wood == other.wood
        &&& self.clay == other.clay
        &&& self.iron == other.iron
        &&& self.crop == other.crop
    }

    /// The village after production from its last update to `now`.
    pub open spec fn refreshed(&self, rates: ProductionRates, now: int, after: &Village) -> bool {
        let dt = elapsed_seconds(self.resources_updated_at as int, now);
        &&& after.same_but_resources(self)
        &&& after.resources_updated_at == now
        &&& after.wood == accrued(
            self.wood as int,
            rates.wood_per_hour as int,
            dt,
            self.warehouse_capacity as int,
        )
        &&& after.clay == accrued(
            self.clay as int,
            rates.clay_per_hour as int,
            dt,
            self.warehouse_capacity as int,
        )
        &&& after.iron == accrued(
            self.iron as int,
            rates.iron_per_hour as int,
            dt,
            self.warehouse_capacity as int,
        )
        &&& after.crop == accrued(
            self.crop as int,
            rates.crop_per_hour as int,
            dt,
            self.granary_capacity as int,
        )
    }

    /// Brings the resources up to `now`: adds what the fields produced since
    /// the last update, each resource up to its store's capacity.
    pub fn refresh(&mut self, rates: &ProductionRates, now: i64)
        requires
            rates.wf(),
        ensures
            old(self).refreshed(*rates, now as int, final(self)),
            old(self).wf() ==> final(self).wf(),
    {
        let dt: i64 = if now > self.resources_updated_at {
            ((now as i128 - self.resources_updated_at as i128) / 1000) as i64
        } else {
            0
        };
        self.wood = accrue(self.wood, rates.wood_per_hour, dt, self.warehouse_capacity);
        self.clay = accrue(self.clay, rates.clay_per_hour, dt, self.warehouse_capacity);
        self.iron = accrue(self.iron, rates.iron_per_hour, dt, self.warehouse_capacity);
        self.crop = accrue(self.crop, rates.crop_per_hour, dt, self.granary_capacity);
        self.resources_updated_at = now;
        proof {
            assert forall|a: int, r: int, c: int| 0 <= a <= c && r >= 0 implies #[trigger] accrued(
                a,
                r,
                dt as int,
                c,
            ) >= 0 by {
                assert((r * dt) / 3600 >= 0) by (nonlinear_arith)
                    requires
                        r >= 0,
                        dt >= 0,
                ;
            }
        }
    }

    /// Whether the village holds at least the four amounts.
    pub open spec fn can_afford(&self, wood: int, clay: int, iron: int, crop: int) -> bool {
        self.wood >= wood && self.clay >= clay && self.iron >= iron && self.crop >= crop
    }

    /// Takes the four amounts, all or nothing.
    pub fn deduct_resources(&mut self, wood: i32, clay: i32, iron: i32, crop: i32) -> (r: Result<
        (),
        AppError,
    >)
        requires
            wood >= 0,
            clay >= 0,
            iron >= 0,
            crop >= 0,
        ensures
            final(self).same_but_resources(old(self)),
            final(self).resources_updated_at == old(self).resources_updated_at,
            r.is_ok() <==> old(self).can_afford(wood as int, clay as int, iron as int, crop as int),
            r.is_ok() ==> deducted(
                *old(self),
                *final(self),
                wood as int,
                clay as int,
                iron as int,
                crop as int,
            ),
            r matches Err(e) ==> e.is_bad_request("Not enough resources"@) && *final(self) == *old(
                self
            ),
            old(self).wf() ==> final(self).wf(),
    {
        if self.wood < wood || self.clay < clay || self.iron < iron || self.crop < crop {
            return Err(AppError::bad_request("Not enough resources"));
        }
        self.wood = self.wood - wood;
        self.clay = self.clay - clay;
        self.iron = self.iron - iron;
        self.crop = self.crop - crop;
        Ok(())
    }

    /// Adds the four amounts, each up to its store's capacity.
    pub fn add_resources(&mut self, wood: i32, clay: i32, iron: i32, crop: i32)
        requires
            wood >= 0,
            clay >= 0,
            iron >= 0,
            crop >= 0,
        ensures
            credited(*old(self), *final(self), wood as int, clay as int, iron as int, crop as int),
            old(self).wf() ==> final(self).wf(),
    {
        self.wood = accrue(self.wood, wood, 3600, self.warehouse_capacity);
        self.clay = accrue(self.clay, clay, 3600, self.warehouse_capacity);
        self.iron = accrue(self.iron, iron, 3600, self.warehouse_capacity);
        self.crop = accrue(self.crop, crop, 3600, self.granary_capacity);
    }

    /// Sets the capacities of the stores. What a store holds above its new
    /// capacity is lost; the rest stays.
    pub fn update_storage_capacity(&mut self, warehouse_capacity: i32, granary_capacity: i32)
        ensures
            *final(self) == (Village {
                warehouse_capacity,
                granary_capacity,
                wood: min_int(old(self).wood as int, warehouse_capacity as int) as i32,
                clay: min_int(old(self).clay as int, warehouse_capacity as int) as i32,
                iron: min_int(old(self).iron as int, warehouse_capacity as int) as i32,
                crop: min_int(old(self).crop as int, granary_capacity as int) as i32,
                ..*old(self)
            }),
            (old(self).wf() && warehouse_capacity >= 0 && granary_capacity >= 0) ==> final(self).wf(),
    {
        self.warehouse_capacity = warehouse_capacity;
        self.granary_capacity = granary_capacity;
        if self.wood > warehouse_capacity {
            self.wood = warehouse_capacity;
        }
        if self.clay > warehouse_capacity {
            self.clay = warehouse_capacity;
        }
        if self.iron > warehouse_capacity {
            self.iron = warehouse_capacity;
        }
        if self.crop > granary_capacity {
            self.crop = granary_capacity;
        }
    }

    /// Sets the loyalty of the village.
    pub fn update_loyalty(&mut self, loyalty: i32)
        ensures
            *final(self) == (Village { loyalty, ..*old(self) }),
    {
        self.loyalty = loyalty;
    }

    /// Hands the village to a new owner; a conquered village is no capital.
    pub fn transfer_ownership(&mut self, new_owner_id: u128)
        ensures
            *final(self) == (Village { user_id: new_owner_id, is_capital: false, ..*old(self) }),
    {
        self.user_id = new_owner_id;
        self.is_capital = false;
    }
}

/// `after` is `before` with the four amounts taken from its stores.
pub open spec fn deducted(
    before: Village,
    after: Village,
    wood: int,
    clay: int,
    iron: int,
    crop: int,
) -> bool {
    &&& after.same_but_resources(&before)
    &&& after.resources_updated_at == before.resources_updated_at
    &&& after.wood == before.wood - wood
    &&& after.clay == before.clay - clay
    &&& after.iron == before.iron - iron
    &&& after.crop == before.crop - crop
}

/// `after` is `before` with the four amounts added to its stores, each up
/// to its capacity.
pub open spec fn credited(
    before: Village,
    after: Village,
    wood: int,
    clay: int,
    iron: int,
    crop: int,
) -> bool {
    &&& after.same_but_resources(&before)
    &&& after.resources_updated_at == before.resources_updated_at
    &&& after.wood == min_int(before.wood + wood, before.warehouse_capacity as int)
    &&& after.clay == min_int(before.clay + clay, before.warehouse_capacity as int)
    &&& after.iron == min_int(before.iron + iron, before.warehouse_capacity as int)
    &&& after.crop == min_int(before.crop + crop, before.granary_capacity as int)
}

/// Refreshing twice at the same instant is refreshing once: the second
/// refresh finds nothing to add.
pub proof fn lemma_refresh_is_idempotent(
    v0: Village,
    v1: Village,
    v2: Village,
    rates: ProductionRates,
    now: int,
)
    requires
        v0.refreshed(rates, now, &v1),
        v1.refreshed(rates, now, &v2),
    ensures
        v2 == v1,
{
    assert((rates.wood_per_hour * 0) / 3600 == 0);
    assert((rates.clay_per_hour * 0) / 3600 == 0);
    assert((rates.iron_per_hour * 0) / 3600 == 0);
    assert((rates.crop_per_hour * 0) / 3600 == 0);
}

/// Taking an amount and giving it back leaves the stores as they were,
/// unless a store held more than its capacity: then it holds its capacity.
/// In either case no store ends above its capacity.
pub proof fn lemma_deduct_then_credit(
    v0: Village,
    v1: Village,
    v2: Village,
    wood: int,
    clay: int,
    iron: int,
    crop: int,
)
    requires
        deducted(v0, v1, wood, clay, iron, crop),
        credited(v1, v2, wood, clay, iron, crop),
    ensures
        v2.same_but_resources(&v0),
        v2.resources_updated_at == v0.resources_updated_at,
        v2.wood == min_int(v0.wood as int, v0.warehouse_capacity as int),
        v2.clay == min_int(v0.clay as int, v0.warehouse_capacity as int),
        v2.iron == min_int(v0.iron as int, v0.warehouse_capacity as int),
        v2.crop == min_int(v0.crop as int, v0.granary_capacity as int),
        v0.wf() ==> v2 == v0,
{
}

impl Village {
    /// Whether the village is well formed.
    pub fn is_valid(&self) -> (r: bool)
        ensures
            r == self.wf(),
    {
        0 <= self.wood && self.wood <= self.warehouse_capacity && 0 <= self.clay && self.clay
            <= self.warehouse_capacity && 0 <= self.iron && self.iron <= self.warehouse_capacity
            && 0 <= self.crop && self.crop <= self.granary_capacity && 0 <= self.loyalty
            && self.loyalty <= MAX_LOYALTY
    }
}

} // verus!
