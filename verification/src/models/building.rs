//! Building kinds and the catalog curves for cost, production and storage.

use vstd::prelude::*;
use vstd::arithmetic::power::{pow, lemma_pow_increases, lemma_pow_positive};
use crate::bignat::BigNat;
use crate::numeric::{
    capped_quotient, geometric_floor, lemma_pow_step, lemma_times_pow, min_int, scale_pow,
    scaled_floor, times_pow,
};

verus! {

/// Highest level any building can reach.
pub const MAX_LEVEL: i32 = 20;

/// Storage of a village without any warehouse or granary level.
pub const BASE_STORAGE: i32 = 800;

#[derive(Debug, Clone, Copy, PartialEq, Eq, Structural)]
pub enum BuildingType {
    MainBuilding,
    Warehouse,
    Granary,
    Barracks,
    Stable,
    Workshop,
    Academy,
    Smithy,
    RallyPoint,
    Market,
    Embassy,
    TownHall,
    Residence,
    Palace,
    Treasury,
    TradeOffice,
    Wall,
    Woodcutter,
    ClayPit,
    IronMine,
    CropField,
}

/// Resources and time that one level of a building costs.
#[derive(Debug, Clone, Copy, PartialEq, Eq, Structural)]
pub struct BuildingCost {
    pub wood: i32,
    pub clay: i32,
    pub iron: i32,
    pub crop: i32,
    pub time_seconds: i32,
}

/// Hourly output of a resource field: `floor(3 * 1.63^(level-1) * 1.0034^((level-1)^2))`,
/// written over integers. Level 0 is one step below level 1 on the same curve.
pub open spec fn field_output(level: int) -> int {
    if level >= 1 {
        let k = (level - 1) as nat;
        (3 * pow(163, k) * pow(5017, k * k)) / (pow(100, k) * pow(5000, k * k))
    } else {
        (3int * 100 * 5017) / (163int * 5000)
    }
}

/// Capacity that a warehouse or granary of a level adds: `floor(400 * 1.2^level)`.
pub open spec fn store_size(level: int) -> int {
    geometric_floor(400, 6, 5, level as nat)
}

/// A product of a positive number and powers of positive bases is positive.
proof fn lemma_times_pow_positive(x: int, c: int, n: nat)
    requires
        x > 0,
        c > 0,
    ensures
        times_pow(x, c, n) > 0,
{
    lemma_times_pow(x, c, n);
    lemma_pow_positive(c, n);
    assert(x * pow(c, n) > 0) by (nonlinear_arith)
        requires
            x > 0,
            pow(c, n) > 0,
    ;
}

/// A building on a slot of a village. While it is being upgraded, its level
/// is still the one before the upgrade.
#[derive(Debug, Clone, Copy, PartialEq, Eq, Structural)]
pub struct Building {
    pub id: u128,
    pub village_id: u128,
    pub building_type: BuildingType,
    pub slot: i32,
    pub level: i32,
    pub is_upgrading: bool,
    pub upgrade_ends_at: Option<i64>,
    pub created_at: i64,
    pub updated_at: i64,
}

impl Building {
    /// The level is one that buildings have, and an upgrade has an end and
    /// a level to reach.
    pub open spec fn wf(&self) -> bool {
        &&& 0 <= self.level <= MAX_LEVEL
        &&& self.is_upgrading ==> self.upgrade_ends_at.is_some() && self.level < MAX_LEVEL
    }

    /// Whether the building is well formed.
    pub fn is_valid(&self) -> (r: bool)
        ensures
            r == self.wf(),
    {
        0 <= self.level && self.level <= MAX_LEVEL && (!self.is_upgrading || (
        self.upgrade_ends_at.is_some() && self.level < MAX_LEVEL))
    }
}

#[derive(Debug, Clone, Copy, PartialEq, Eq, Structural)]
pub struct CreateBuilding {
    pub village_id: u128,
    pub building_type: BuildingType,
    pub slot: i32,
}

#[derive(Debug, Clone, Copy, PartialEq, Eq, Structural)]
pub struct BuildRequest {
    pub building_type: BuildingType,
}

proof fn lemma_quotient_bound(base: int, p: int, q: int)
    requires
        0 <= base <= 600,
        1 <= p <= 0x8000_0000_0000_0000_0000_0000,
        1 <= q,
        600 * p < 65335 * q,
    ensures
        0 <= base * p <= u128::MAX,
        0 <= (base * p) / q <= 65334,
{
    assert(0 <= base * p <= 600 * p) by (nonlinear_arith)
        requires
            0 <= base <= 600,
            1 <= p,
    ;
    assert((base * p) / q <= 65334) by (nonlinear_arith)
        requires
            0 <= base * p < 65335 * q,
            1 <= q,
    ;
    assert(0 <= (base * p) / q) by (nonlinear_arith)
        requires
            0 <= base * p,
            1 <= q,
    ;
}

/// The curve `1.28^k` grows no faster towards step 19 than it does at the
/// end: `32^k * 25^19 <= 32^19 * 25^k`.
proof fn lemma_growth_is_steady(k: nat)
    requires
        k <= 19,
    ensures
        pow(32, k) * pow(25, 19) <= pow(32, 19) * pow(25, k),
        pow(32, k) >= 1,
        pow(25, k) >= 1,
    decreases 19 - k,
{
    lemma_pow_positive(32, k);
    lemma_pow_positive(25, k);
    if k < 19 {
        lemma_growth_is_steady(k + 1);
        lemma_pow_step(32, k);
        lemma_pow_step(25, k);
        lemma_pow_positive(32, 19);
        lemma_pow_positive(25, 19);
        let x = pow(32, k) * pow(25, 19);
        let y = pow(32, 19) * pow(25, k);
        assert(32 * x == pow(32, k + 1) * pow(25, 19)) by (nonlinear_arith)
            requires
                x == pow(32, k) * pow(25, 19),
                pow(32, k + 1) == 32 * pow(32, k),
        ;
        assert(25 * y == pow(32, 19) * pow(25, k + 1)) by (nonlinear_arith)
            requires
                y == pow(32, 19) * pow(25, k),
                pow(25, k + 1) == 25 * pow(25, k),
        ;
        assert(y >= 0) by (nonlinear_arith)
            requires
                y == pow(32, 19) * pow(25, k),
                pow(32, 19) >= 1,
                pow(25, k) >= 1,
        ;
    }
}

/// Up to level 20 every cost of the catalog fits the numbers it is computed
/// with, and is at most 65334.
proof fn lemma_cost_in_range(base: int, k: nat)
    requires
        0 <= base <= 600,
        k <= 19,
    ensures
        base * pow(32, k) <= u128::MAX,
        1 <= pow(25, k) <= u128::MAX,
        0 <= geometric_floor(base, 32, 25, k) <= 65334,
{
    reveal_with_fuel(pow, 20);
    assert(pow(32, 19) == 39614081257132168796771975168);
    assert(pow(25, 19) == 363797880709171295166015625);
    lemma_growth_is_steady(k);
    lemma_pow_increases(32, k, 19);
    lemma_pow_increases(25, k, 19);
    lemma_quotient_bound(base, pow(32, k), pow(25, k));
}

impl BuildingType {
    pub open spec fn spec_is_resource_field(self) -> bool {
        self == BuildingType::Woodcutter || self == BuildingType::ClayPit || self
            == BuildingType::IronMine || self == BuildingType::CropField
    }

    pub open spec fn spec_is_store(self) -> bool {
        self == BuildingType::Warehouse || self == BuildingType::Granary
    }

    /// The level-1 cost of each kind.
    pub open spec fn spec_base_cost(self) -> BuildingCost {
        match self {
            BuildingType::MainBuilding => BuildingCost {
                wood: 70,
                clay: 40,
                iron: 60,
                crop: 20,
                time_seconds: 300,
            },
            BuildingType::Warehouse => BuildingCost {
                wood: 130,
                clay: 160,
                iron: 90,
                crop: 40,
                time_seconds: 400,
            },
            BuildingType::Granary => BuildingCost {
                wood: 80,
                clay: 100,
                iron: 70,
                crop: 20,
                time_seconds: 350,
            },
            BuildingType::Barracks => BuildingCost {
                wood: 210,
                clay: 140,
                iron: 260,
                crop: 120,
                time_seconds: 600,
            },
            BuildingType::RallyPoint => BuildingCost {
                wood: 110,
                clay: 160,
                iron: 90,
                crop: 70,
                time_seconds: 250,
            },
            BuildingType::Market => BuildingCost {
                wood: 80,
                clay: 70,
                iron: 120,
                crop: 70,
                time_seconds: 400,
            },
            BuildingType::Woodcutter => BuildingCost {
                wood: 40,
                clay: 100,
                iron: 50,
                crop: 60,
                time_seconds: 260,
            },
            BuildingType::ClayPit => BuildingCost {
                wood: 80,
                clay: 40,
                iron: 80,
                crop: 50,
                time_seconds: 220,
            },
            BuildingType::IronMine => BuildingCost {
                wood: 100,
                clay: 80,
                iron: 30,
                crop: 60,
                time_seconds: 450,
            },
            BuildingType::CropField => BuildingCost {
                wood: 70,
                clay: 90,
                iron: 70,
                crop: 20,
                time_seconds: 150,
            },
            _ => BuildingCost { wood: 100, clay: 100, iron: 100, crop: 50, time_seconds: 300 },
        }
    }

    /// Cost of reaching `level`: the base cost times `1.28^(level-1)`, each
    /// component on its own, rounded down.
    pub open spec fn spec_cost_at_level(self, level: int) -> BuildingCost {
        let base = self.spec_base_cost();
        let k = (level - 1) as nat;
        BuildingCost {
            wood: geometric_floor(base.wood as int, 32, 25, k) as i32,
            clay: geometric_floor(base.clay as int, 32, 25, k) as i32,
            iron: geometric_floor(base.iron as int, 32, 25, k) as i32,
            crop: geometric_floor(base.crop as int, 32, 25, k) as i32,
            time_seconds: geometric_floor(base.time_seconds as int, 32, 25, k) as i32,
        }
    }

    /// Hourly output at a level: the field curve for resource fields, nothing
    /// for other kinds; never more than the largest `i32`.
    pub open spec fn spec_production_per_hour(self, level: int) -> int {
        if self.spec_is_resource_field() {
            min_int(i32::MAX as int, field_output(level))
        } else {
            0
        }
    }

    /// Storage that a building of a level stands for: the flat base at level
    /// 0, the storage curve for warehouses and granaries, nothing otherwise;
    /// never more than the largest `i32`.
    pub open spec fn spec_storage_capacity(self, level: int) -> int {
        if level == 0 {
            BASE_STORAGE as int
        } else if self.spec_is_store() {
            min_int(i32::MAX as int, store_size(level))
        } else {
            0
        }
    }

    pub fn is_resource_field(&self) -> (r: bool)
        ensures
            r == self.spec_is_resource_field(),
    {
        matches!(
            self,
            BuildingType::Woodcutter
                | BuildingType::ClayPit
                | BuildingType::IronMine
                | BuildingType::CropField
        )
    }

    pub fn max_level(&self) -> (r: i32)
        ensures
            r == MAX_LEVEL,
    {
        MAX_LEVEL
    }

    pub fn base_cost(&self) -> (r: BuildingCost)
        ensures
            r == self.spec_base_cost(),
            0 <= r.wood <= 600,
            0 <= r.clay <= 600,
            0 <= r.iron <= 600,
            0 <= r.crop <= 600,
            0 <= r.time_seconds <= 600,
    {
        match self {
            BuildingType::MainBuilding => BuildingCost {
                wood: 70,
                clay: 40,
                iron: 60,
                crop: 20,
                time_seconds: 300,
            },
            BuildingType::Warehouse => BuildingCost {
                wood: 130,
                clay: 160,
                iron: 90,
                crop: 40,
                time_seconds: 400,
            },
            BuildingType::Granary => BuildingCost {
                wood: 80,
                clay: 100,
                iron: 70,
                crop: 20,
                time_seconds: 350,
            },
            BuildingType::Barracks => BuildingCost {
                wood: 210,
                clay: 140,
                iron: 260,
                crop: 120,
                time_seconds: 600,
            },
            BuildingType::RallyPoint => BuildingCost {
                wood: 110,
                clay: 160,
                iron: 90,
                crop: 70,
                time_seconds: 250,
            },
            BuildingType::Market => BuildingCost {
                wood: 80,
                clay: 70,
                iron: 120,
                crop: 70,
                time_seconds: 400,
            },
            BuildingType::Woodcutter => BuildingCost {
                wood: 40,
                clay: 100,
                iron: 50,
                crop: 60,
                time_seconds: 260,
            },
            BuildingType::ClayPit => BuildingCost {
                wood: 80,
                clay: 40,
                iron: 80,
                crop: 50,
                time_seconds: 220,
            },
            BuildingType::IronMine => BuildingCost {
                wood: 100,
                clay: 80,
                iron: 30,
                crop: 60,
                time_seconds: 450,
            },
            BuildingType::CropField => BuildingCost {
                wood: 70,
                clay: 90,
                iron: 70,
                crop: 20,
                time_seconds: 150,
            },
            _ => BuildingCost { wood: 100, clay: 100, iron: 100, crop: 50, time_seconds: 300 },
        }
    }

    pub fn cost_at_level(&self, level: i32) -> (r: BuildingCost)
        requires
            1 <= level <= MAX_LEVEL,
        ensures
            r == self.spec_cost_at_level(level as int),
            0 <= r.wood <= 65334,
            0 <= r.clay <= 65334,
            0 <= r.iron <= 65334,
            0 <= r.crop <= 65334,
            0 <= r.time_seconds <= 65334,
    {
        let base = self.base_cost();
        let k: u32 = (level - 1) as u32;
        proof {
            lemma_cost_in_range(base.wood as int, k as nat);
            lemma_cost_in_range(base.clay as int, k as nat);
            lemma_cost_in_range(base.iron as int, k as nat);
            lemma_cost_in_range(base.crop as int, k as nat);
            lemma_cost_in_range(base.time_seconds as int, k as nat);
        }
        BuildingCost {
            wood: scaled_floor(base.wood as u32, 32, 25, k) as i32,
            clay: scaled_floor(base.clay as u32, 32, 25, k) as i32,
            iron: scaled_floor(base.iron as u32, 32, 25, k) as i32,
            crop: scaled_floor(base.crop as u32, 32, 25, k) as i32,
            time_seconds: scaled_floor(base.time_seconds as u32, 32, 25, k) as i32,
        }
    }

    pub fn production_per_hour(&self, level: i32) -> (r: i32)
        requires
            0 <= level <= MAX_LEVEL,
        ensures
            r == self.spec_production_per_hour(level as int),
            r >= 0,
    {
        if !self.is_resource_field() {
            return 0;
        }
        if level == 0 {
            return 1;
        }
        let k: u32 = (level - 1) as u32;
        assert(k * k <= 361) by (nonlinear_arith)
            requires
                k <= 19,
        ;
        let kk: u32 = k * k;
        let n = scale_pow(scale_pow(BigNat::from_u64(3), 163, k), 5017, kk);
        let d = scale_pow(scale_pow(BigNat::from_u64(1), 100, k), 5000, kk);
        proof {
            lemma_times_pow_positive(1, 100, k as nat);
            lemma_times_pow_positive(times_pow(1, 100, k as nat), 5000, kk as nat);
            lemma_times_pow_positive(3, 163, k as nat);
            lemma_times_pow_positive(times_pow(3, 163, k as nat), 5017, kk as nat);
            lemma_times_pow(1, 100, k as nat);
            lemma_times_pow(times_pow(1, 100, k as nat), 5000, kk as nat);
            lemma_times_pow(3, 163, k as nat);
            lemma_times_pow(times_pow(3, 163, k as nat), 5017, kk as nat);
            assert(kk as nat == (k as nat) * (k as nat));
            assert(n@ / d@ >= 0) by (nonlinear_arith)
                requires
                    n@ > 0,
                    d@ > 0,
            ;
        }
        capped_quotient(&n, &d, 0x7fff_ffff) as i32
    }

    /// Storage capacity that a building of this kind and level stands for.
    pub fn storage_capacity(&self, level: i32) -> (r: i32)
        requires
            0 <= level,
        ensures
            r == self.spec_storage_capacity(level as int),
            r >= 0,
    {
        if level == 0 {
            return BASE_STORAGE;
        }
        match self {
            BuildingType::Warehouse | BuildingType::Granary => {
                let n = scale_pow(BigNat::from_u64(400), 6, level as u32);
                let d = scale_pow(BigNat::from_u64(1), 5, level as u32);
                proof {
                    lemma_times_pow(400, 6, level as nat);
                    lemma_times_pow(1, 5, level as nat);
                    lemma_times_pow_positive(1, 5, level as nat);
                    lemma_times_pow_positive(400, 6, level as nat);
                    assert(n@ / d@ >= 0) by (nonlinear_arith)
                        requires
                            n@ > 0,
                            d@ > 0,
                    ;
                }
                capped_quotient(&n, &d, 0x7fff_ffff) as i32
            },
            _ => 0,
        }
    }
}

} // verus!
