//! Troop kinds and their tribes.

use vstd::prelude::*;
use crate::models::army::ArmyTroops;
use crate::models::building::BuildingType;

verus! {

/// Number of troop kinds; also the length of every per-kind table.
pub const TROOP_KINDS: usize = 19;

#[derive(Debug, Clone, Copy, PartialEq, Eq, Structural, Hash)]
pub enum TroopType {
    Infantry,
    Spearman,
    WarElephant,
    BuffaloWagon,
    KrisWarrior,
    SeaDiver,
    WarPrahu,
    MerchantShip,
    Crossbowman,
    MountainWarrior,
    HighlandPony,
    TrapMaker,
    SwampDragon,
    LocustSwarm,
    BattleDuck,
    PortugueseMusketeer,
    RoyalAdvisor,
    HarborMaster,
    ElderChief,
}

#[derive(Debug, Clone, Copy, PartialEq, Eq, Structural)]
pub enum TribeType {
    Phasuttha,
    Nava,
    Kiri,
    Special,
}

impl TroopType {
    /// Position of the kind in the canonical order (declaration order).
    pub open spec fn ordinal(self) -> int {
        match self {
            TroopType::Infantry => 0,
            TroopType::Spearman => 1,
            TroopType::WarElephant => 2,
            TroopType::BuffaloWagon => 3,
            TroopType::KrisWarrior => 4,
            TroopType::SeaDiver => 5,
            TroopType::WarPrahu => 6,
            TroopType::MerchantShip => 7,
            TroopType::Crossbowman => 8,
            TroopType::MountainWarrior => 9,
            TroopType::HighlandPony => 10,
            TroopType::TrapMaker => 11,
            TroopType::SwampDragon => 12,
            TroopType::LocustSwarm => 13,
            TroopType::BattleDuck => 14,
            TroopType::PortugueseMusketeer => 15,
            TroopType::RoyalAdvisor => 16,
            TroopType::HarborMaster => 17,
            TroopType::ElderChief => 18,
        }
    }

    /// The kind at a position of the canonical order.
    pub open spec fn at(i: int) -> TroopType {
        if i == 0 {
            TroopType::Infantry
        } else if i == 1 {
            TroopType::Spearman
        } else if i == 2 {
            TroopType::WarElephant
        } else if i == 3 {
            TroopType::BuffaloWagon
        } else if i == 4 {
            TroopType::KrisWarrior
        } else if i == 5 {
            TroopType::SeaDiver
        } else if i == 6 {
            TroopType::WarPrahu
        } else if i == 7 {
            TroopType::MerchantShip
        } else if i == 8 {
            TroopType::Crossbowman
        } else if i == 9 {
            TroopType::MountainWarrior
        } else if i == 10 {
            TroopType::HighlandPony
        } else if i == 11 {
            TroopType::TrapMaker
        } else if i == 12 {
            TroopType::SwampDragon
        } else if i == 13 {
            TroopType::LocustSwarm
        } else if i == 14 {
            TroopType::BattleDuck
        } else if i == 15 {
            TroopType::PortugueseMusketeer
        } else if i == 16 {
            TroopType::RoyalAdvisor
        } else if i == 17 {
            TroopType::HarborMaster
        } else {
            TroopType::ElderChief
        }
    }

    pub open spec fn spec_is_cavalry(self) -> bool {
        self == TroopType::WarElephant || self == TroopType::BuffaloWagon || self
            == TroopType::HighlandPony || self == TroopType::WarPrahu || self
            == TroopType::MerchantShip
    }

    pub open spec fn spec_is_chief(self) -> bool {
        self == TroopType::RoyalAdvisor || self == TroopType::HarborMaster || self
            == TroopType::ElderChief
    }

    pub open spec fn spec_tribe(self) -> TribeType {
        match self {
            TroopType::Infantry
            | TroopType::Spearman
            | TroopType::WarElephant
            | TroopType::BuffaloWagon
            | TroopType::RoyalAdvisor => TribeType::Phasuttha,
            TroopType::KrisWarrior
            | TroopType::SeaDiver
            | TroopType::WarPrahu
            | TroopType::MerchantShip
            | TroopType::HarborMaster => TribeType::Nava,
            TroopType::Crossbowman
            | TroopType::MountainWarrior
            | TroopType::HighlandPony
            | TroopType::TrapMaker
            | TroopType::ElderChief => TribeType::Kiri,
            _ => TribeType::Special,
        }
    }

    /// `at` and `ordinal` are inverse to each other on `0..19`.
    pub proof fn lemma_ordinal_at()
        ensures
            forall|t: TroopType| 0 <= #[trigger] t.ordinal() < 19 && TroopType::at(t.ordinal()) == t,
            forall|i: int| 0 <= i < 19 ==> (#[trigger] TroopType::at(i)).ordinal() == i,
    {
    }

    /// The name of the kind, as it is written.
    pub open spec fn spec_name(self) -> Seq<char> {
        match self {
            TroopType::Infantry => "Infantry"@,
            TroopType::Spearman => "Spearman"@,
            TroopType::WarElephant => "WarElephant"@,
            TroopType::BuffaloWagon => "BuffaloWagon"@,
            TroopType::KrisWarrior => "KrisWarrior"@,
            TroopType::SeaDiver => "SeaDiver"@,
            TroopType::WarPrahu => "WarPrahu"@,
            TroopType::MerchantShip => "MerchantShip"@,
            TroopType::Crossbowman => "Crossbowman"@,
            TroopType::MountainWarrior => "MountainWarrior"@,
            TroopType::HighlandPony => "HighlandPony"@,
            TroopType::TrapMaker => "TrapMaker"@,
            TroopType::SwampDragon => "SwampDragon"@,
            TroopType::LocustSwarm => "LocustSwarm"@,
            TroopType::BattleDuck => "BattleDuck"@,
            TroopType::PortugueseMusketeer => "PortugueseMusketeer"@,
            TroopType::RoyalAdvisor => "RoyalAdvisor"@,
            TroopType::HarborMaster => "HarborMaster"@,
            TroopType::ElderChief => "ElderChief"@,
        }
    }

    pub fn name(self) -> (r: &'static str)
        ensures
            r@ == self.spec_name(),
    {
        match self {
            TroopType::Infantry => "Infantry",
            TroopType::Spearman => "Spearman",
            TroopType::WarElephant => "WarElephant",
            TroopType::BuffaloWagon => "BuffaloWagon",
            TroopType::KrisWarrior => "KrisWarrior",
            TroopType::SeaDiver => "SeaDiver",
            TroopType::WarPrahu => "WarPrahu",
            TroopType::MerchantShip => "MerchantShip",
            TroopType::Crossbowman => "Crossbowman",
            TroopType::MountainWarrior => "MountainWarrior",
            TroopType::HighlandPony => "HighlandPony",
            TroopType::TrapMaker => "TrapMaker",
            TroopType::SwampDragon => "SwampDragon",
            TroopType::LocustSwarm => "LocustSwarm",
            TroopType::BattleDuck => "BattleDuck",
            TroopType::PortugueseMusketeer => "PortugueseMusketeer",
            TroopType::RoyalAdvisor => "RoyalAdvisor",
            TroopType::HarborMaster => "HarborMaster",
            TroopType::ElderChief => "ElderChief",
        }
    }

    pub fn index(self) -> (i: usize)
        ensures
            i == self.ordinal(),
            i < TROOP_KINDS,
    {
        match self {
            TroopType::Infantry => 0,
            TroopType::Spearman => 1,
            TroopType::WarElephant => 2,
            TroopType::BuffaloWagon => 3,
            TroopType::KrisWarrior => 4,
            TroopType::SeaDiver => 5,
            TroopType::WarPrahu => 6,
            TroopType::MerchantShip => 7,
            TroopType::Crossbowman => 8,
            TroopType::MountainWarrior => 9,
            TroopType::HighlandPony => 10,
            TroopType::TrapMaker => 11,
            TroopType::SwampDragon => 12,
            TroopType::LocustSwarm => 13,
            TroopType::BattleDuck => 14,
            TroopType::PortugueseMusketeer => 15,
            TroopType::RoyalAdvisor => 16,
            TroopType::HarborMaster => 17,
            TroopType::ElderChief => 18,
        }
    }

    pub fn from_index(i: usize) -> (t: TroopType)
        requires
            i < TROOP_KINDS,
        ensures
            t == TroopType::at(i as int),
            t.ordinal() == i,
    {
        if i == 0 {
            TroopType::Infantry
        } else if i == 1 {
            TroopType::Spearman
        } else if i == 2 {
            TroopType::WarElephant
        } else if i == 3 {
            TroopType::BuffaloWagon
        } else if i == 4 {
            TroopType::KrisWarrior
        } else if i == 5 {
            TroopType::SeaDiver
        } else if i == 6 {
            TroopType::WarPrahu
        } else if i == 7 {
            TroopType::MerchantShip
        } else if i == 8 {
            TroopType::Crossbowman
        } else if i == 9 {
            TroopType::MountainWarrior
        } else if i == 10 {
            TroopType::HighlandPony
        } else if i == 11 {
            TroopType::TrapMaker
        } else if i == 12 {
            TroopType::SwampDragon
        } else if i == 13 {
            TroopType::LocustSwarm
        } else if i == 14 {
            TroopType::BattleDuck
        } else if i == 15 {
            TroopType::PortugueseMusketeer
        } else if i == 16 {
            TroopType::RoyalAdvisor
        } else if i == 17 {
            TroopType::HarborMaster
        } else {
            TroopType::ElderChief
        }
    }

    pub fn tribe(&self) -> (r: TribeType)
        ensures
            r == self.spec_tribe(),
    {
        match self {
            TroopType::Infantry
            | TroopType::Spearman
            | TroopType::WarElephant
            | TroopType::BuffaloWagon
            | TroopType::RoyalAdvisor => TribeType::Phasuttha,
            TroopType::KrisWarrior
            | TroopType::SeaDiver
            | TroopType::WarPrahu
            | TroopType::MerchantShip
            | TroopType::HarborMaster => TribeType::Nava,
            TroopType::Crossbowman
            | TroopType::MountainWarrior
            | TroopType::HighlandPony
            | TroopType::TrapMaker
            | TroopType::ElderChief => TribeType::Kiri,
            _ => TribeType::Special,
        }
    }

    pub fn is_cavalry(&self) -> (r: bool)
        ensures
            r == self.spec_is_cavalry(),
    {
        matches!(
            self,
            TroopType::WarElephant
                | TroopType::BuffaloWagon
                | TroopType::HighlandPony
                | TroopType::WarPrahu
                | TroopType::MerchantShip
        )
    }

    pub fn is_infantry(&self) -> (r: bool)
        ensures
            r == !self.spec_is_cavalry(),
    {
        !self.is_cavalry()
    }

    /// Chiefs are the only kinds that lower a village's loyalty.
    pub fn is_chief(&self) -> (r: bool)
        ensures
            r == self.spec_is_chief(),
    {
        matches!(self, TroopType::RoyalAdvisor | TroopType::HarborMaster | TroopType::ElderChief)
    }
}

/// Catalog entry of a troop kind: its base stats, read-only at run time.
#[derive(Debug, Clone)]
pub struct TroopDefinition {
    pub id: u128,
    pub troop_type: TroopType,
    pub tribe: TribeType,
    pub name: String,
    pub description: Option<String>,
    pub attack: i32,
    pub defense_infantry: i32,
    pub defense_cavalry: i32,
    pub speed: i32,
    pub carry_capacity: i32,
    pub crop_consumption: i32,
    pub training_time_seconds: i32,
    pub wood_cost: i32,
    pub clay_cost: i32,
    pub iron_cost: i32,
    pub crop_cost: i32,
    pub required_building: BuildingType,
    pub required_building_level: i32,
    pub loyalty_reduction: i32,
    pub created_at: i64,
}

impl TroopDefinition {
    /// No stat or cost is negative, and the kind moves at all.
    pub open spec fn wf(&self) -> bool {
        &&& self.attack >= 0
        &&& self.defense_infantry >= 0
        &&& self.defense_cavalry >= 0
        &&& self.speed >= 1
        &&& self.carry_capacity >= 0
        &&& self.crop_consumption >= 0
        &&& self.training_time_seconds >= 0
        &&& self.wood_cost >= 0
        &&& self.clay_cost >= 0
        &&& self.iron_cost >= 0
        &&& self.crop_cost >= 0
        &&& self.loyalty_reduction >= 0
    }
}

/// Every entry of a catalog is well formed.
pub open spec fn catalog_wf(defs: Seq<TroopDefinition>) -> bool {
    forall|i: int| 0 <= i < defs.len() ==> (#[trigger] defs[i]).wf()
}

/// Position of the first entry for a kind among the first `n`, if there is one.
pub open spec fn first_entry(defs: Seq<TroopDefinition>, t: TroopType, n: int) -> Option<int>
    decreases n,
{
    if n <= 0 {
        None
    } else {
        match first_entry(defs, t, n - 1) {
            Some(i) => Some(i),
            None => if defs[n - 1].troop_type == t {
                Some(n - 1)
            } else {
                None
            },
        }
    }
}

/// Position of the catalog entry that governs a kind: the first one for it.
pub open spec fn entry_of(defs: Seq<TroopDefinition>, t: TroopType) -> Option<int> {
    first_entry(defs, t, defs.len() as int)
}

/// The first entry for a kind lies within the catalog and is for that kind.
pub proof fn lemma_first_entry(defs: Seq<TroopDefinition>, t: TroopType, n: int)
    requires
        0 <= n <= defs.len(),
    ensures
        first_entry(defs, t, n) matches Some(i) ==> 0 <= i < n && defs[i].troop_type == t,
    decreases n,
{
    if n > 0 {
        lemma_first_entry(defs, t, n - 1);
    }
}

/// Finds the catalog entry that governs a kind.
pub fn find_definition(defs: &Vec<TroopDefinition>, t: TroopType) -> (r: Option<usize>)
    ensures
        match r {
            Some(i) => entry_of(defs@, t) == Some(i as int) && i < defs.len() && defs[i as int].troop_type
                == t,
            None => entry_of(defs@, t).is_none(),
        },
{
    let mut i: usize = 0;
    while i < defs.len()
        invariant
            i <= defs.len(),
            first_entry(defs@, t, i as int).is_none(),
        decreases defs.len() - i,
    {
        if defs[i].troop_type == t {
            proof {
                lemma_first_entry_stays(defs@, t, i as int + 1, defs.len() as int);
            }
            return Some(i);
        }
        i = i + 1;
    }
    None
}

/// Once an entry is found among the first `n`, it stays the first among more.
pub proof fn lemma_first_entry_stays(defs: Seq<TroopDefinition>, t: TroopType, n: int, m: int)
    requires
        0 <= n <= m <= defs.len(),
        first_entry(defs, t, n).is_some(),
    ensures
        first_entry(defs, t, m) == first_entry(defs, t, n),
    decreases m - n,
{
    if n < m {
        lemma_first_entry_stays(defs, t, n, m - 1);
    }
}

/// Troops that a village owns of one kind: all of them, and those at home.
#[derive(Debug, Clone, Copy, PartialEq, Eq, Structural)]
pub struct Troop {
    pub id: u128,
    pub village_id: u128,
    pub troop_type: TroopType,
    pub count: i32,
    pub in_village: i32,
    pub created_at: i64,
    pub updated_at: i64,
}

impl Troop {
    /// Nothing is negative and no more troops are at home than are owned.
    pub open spec fn wf(&self) -> bool {
        0 <= self.in_village <= self.count
    }
}

/// One batch of a village's training queue.
#[derive(Debug, Clone, Copy, PartialEq, Eq, Structural)]
pub struct TroopQueue {
    pub id: u128,
    pub village_id: u128,
    pub troop_type: TroopType,
    pub count: i32,
    pub each_duration_seconds: i32,
    pub started_at: i64,
    pub ends_at: i64,
    pub created_at: i64,
}

#[derive(Debug, Clone, Copy, PartialEq, Eq, Structural)]
pub struct TrainTroopsRequest {
    pub troop_type: TroopType,
    pub count: i32,
}

#[derive(Debug, Clone, Copy, PartialEq, Eq, Structural)]
pub struct TroopCost {
    pub wood: i32,
    pub clay: i32,
    pub iron: i32,
    pub crop: i32,
    pub time_seconds: i32,
}

#[derive(Debug, Clone, Copy, PartialEq, Eq, Structural)]
pub struct TroopResponse {
    pub troop_type: TroopType,
    pub count: i32,
    pub in_village: i32,
    pub on_mission: i32,
}

impl TroopResponse {
    /// What a client sees of a troop row; the troops away are the difference.
    pub fn from_troop(t: Troop) -> (r: TroopResponse)
        requires
            t.wf(),
        ensures
            r.troop_type == t.troop_type,
            r.count == t.count,
            r.in_village == t.in_village,
            r.on_mission == t.count - t.in_village,
    {
        TroopResponse {
            troop_type: t.troop_type,
            count: t.count,
            in_village: t.in_village,
            on_mission: t.count - t.in_village,
        }
    }
}

#[derive(Debug, Clone, Copy, PartialEq, Eq, Structural)]
pub struct TroopQueueResponse {
    pub id: u128,
    pub troop_type: TroopType,
    pub count: i32,
    pub each_duration_seconds: i32,
    pub started_at: i64,
    pub ends_at: i64,
}

impl From<TroopQueue> for TroopQueueResponse {
    fn from(q: TroopQueue) -> (r: TroopQueueResponse) {
        TroopQueueResponse {
            id: q.id,
            troop_type: q.troop_type,
            count: q.count,
            each_duration_seconds: q.each_duration_seconds,
            started_at: q.started_at,
            ends_at: q.ends_at,
        }
    }
}

impl vstd::std_specs::convert::FromSpecImpl<TroopQueue> for TroopQueueResponse {
    open spec fn obeys_from_spec() -> bool {
        true
    }

    /// What a client sees of a batch: all but its village and the instant
    /// of its creation.
    open spec fn from_spec(q: TroopQueue) -> TroopQueueResponse {
        TroopQueueResponse {
            id: q.id,
            troop_type: q.troop_type,
            count: q.count,
            each_duration_seconds: q.each_duration_seconds,
            started_at: q.started_at,
            ends_at: q.ends_at,
        }
    }
}

/// The troops of one village, kind by kind: those it owns, and those of
/// them that are at home. The rest is on a mission.
#[derive(Debug)]
pub struct Garrison {
    pub owned: ArmyTroops,
    pub home: ArmyTroops,
}

impl Garrison {
    /// Of no kind are more troops at home than the village owns.
    pub open spec fn wf(&self) -> bool {
        &&& self.owned.wf()
        &&& self.home.wf()
        &&& forall|t: TroopType| #[trigger] self.home.count(t) <= self.owned.count(t)
    }

    /// Troops of a kind that are away.
    pub open spec fn away(&self, t: TroopType) -> int {
        self.owned.count(t) - self.home.count(t)
    }

    /// The kinds other than `t` are the same in both.
    pub open spec fn same_but(&self, other: &Garrison, t: TroopType) -> bool {
        forall|u: TroopType|
            u != t ==> #[trigger] self.owned.count(u) == other.owned.count(u) && self.home.count(u)
                == other.home.count(u)
    }

    pub fn new() -> (r: Garrison)
        ensures
            r.wf(),
            forall|t: TroopType| #[trigger] r.owned.count(t) == 0 && r.home.count(t) == 0,
    {
        Garrison { owned: ArmyTroops::new(), home: ArmyTroops::new() }
    }

    /// Whether the garrison is well formed.
    pub fn is_valid(&self) -> (r: bool)
        ensures
            r == self.wf(),
    {
        if !self.owned.is_valid() || !self.home.is_valid() {
            return false;
        }
        let mut i: usize = 0;
        while i < TROOP_KINDS
            invariant
                i <= TROOP_KINDS,
                self.owned.wf(),
                self.home.wf(),
                forall|j: int| 0 <= j < i ==> self.home.counts@[j] <= self.owned.counts@[j],
            decreases TROOP_KINDS - i,
        {
            if self.home.counts[i] > self.owned.counts[i] {
                proof {
                    TroopType::lemma_ordinal_at();
                    let t = TroopType::at(i as int);
                    assert(self.home.count(t) > self.owned.count(t));
                }
                return false;
            }
            i = i + 1;
        }
        proof {
            TroopType::lemma_ordinal_at();
        }
        true
    }

    /// The row of one kind, as the store holds it.
    pub fn set_row(&mut self, t: TroopType, count: i32, in_village: i32)
        requires
            old(self).wf(),
            0 <= in_village <= count,
        ensures
            final(self).wf(),
            final(self).owned.count(t) == count,
            final(self).home.count(t) == in_village,
            final(self).same_but(old(self), t),
    {
        self.owned.insert(t, count);
        self.home.insert(t, in_village);
    }

    /// Trained troops join the village: they are owned and at home.
    pub fn add_troops(&mut self, t: TroopType, n: i32)
        requires
            old(self).wf(),
            n >= 0,
            old(self).owned.count(t) + n <= i32::MAX,
        ensures
            final(self).wf(),
            final(self).owned.count(t) == old(self).owned.count(t) + n,
            final(self).home.count(t) == old(self).home.count(t) + n,
            final(self).same_but(old(self), t),
    {
        let c = self.owned.get(t);
        let h = self.home.get(t);
        self.owned.insert(t, c + n);
        self.home.insert(t, h + n);
    }

    /// Troops leave on a mission: they stay owned and are no longer at home.
    pub fn remove_troops_from_village(&mut self, t: TroopType, n: i32)
        requires
            old(self).wf(),
            0 <= n <= old(self).home.count(t),
        ensures
            final(self).wf(),
            final(self).owned.count(t) == old(self).owned.count(t),
            final(self).home.count(t) == old(self).home.count(t) - n,
            final(self).same_but(old(self), t),
    {
        let h = self.home.get(t);
        self.home.insert(t, h - n);
    }

    /// Troops come back from a mission.
    pub fn return_troops_to_village(&mut self, t: TroopType, n: i32)
        requires
            old(self).wf(),
            n >= 0,
            old(self).home.count(t) + n <= old(self).owned.count(t),
        ensures
            final(self).wf(),
            final(self).owned.count(t) == old(self).owned.count(t),
            final(self).home.count(t) == old(self).home.count(t) + n,
            final(self).same_but(old(self), t),
    {
        let h = self.home.get(t);
        self.home.insert(t, h + n);
    }

    /// Troops fall far from home: the village no longer owns them, and those
    /// at home are not touched. No more can fall away than are away.
    pub fn bury_fallen(&mut self, t: TroopType, n: i32)
        requires
            old(self).wf(),
            0 <= n <= old(self).away(t),
        ensures
            final(self).wf(),
            final(self).owned.count(t) == old(self).owned.count(t) - n,
            final(self).home.count(t) == old(self).home.count(t),
            final(self).away(t) == old(self).away(t) - n,
            final(self).same_but(old(self), t),
    {
        let c = self.owned.get(t);
        self.owned.insert(t, c - n);
    }

    /// Troops fall in battle: they are no longer owned, and those at home go
    /// first.
    pub fn kill_troops(&mut self, t: TroopType, n: i32)
        requires
            old(self).wf(),
            0 <= n <= old(self).owned.count(t),
        ensures
            final(self).wf(),
            final(self).owned.count(t) == old(self).owned.count(t) - n,
            final(self).home.count(t) == if old(self).home.count(t) >= n {
                old(self).home.count(t) - n
            } else {
                0
            },
            final(self).same_but(old(self), t),
    {
        let c = self.owned.get(t);
        let h = self.home.get(t);
        self.owned.insert(t, c - n);
        self.home.insert(t, if h >= n {
            h - n
        } else {
            0
        });
    }
}

/// What a client sees of a catalog entry.
#[derive(Debug)]
pub struct TroopDefinitionResponse {
    pub troop_type: TroopType,
    pub tribe: TribeType,
    pub name: String,
    pub description: Option<String>,
    pub attack: i32,
    pub defense_infantry: i32,
    pub defense_cavalry: i32,
    pub speed: i32,
    pub carry_capacity: i32,
    pub crop_consumption: i32,
    pub training_time_seconds: i32,
    pub wood_cost: i32,
    pub clay_cost: i32,
    pub iron_cost: i32,
    pub crop_cost: i32,
    pub required_building: BuildingType,
    pub required_building_level: i32,
    pub loyalty_reduction: i32,
}

impl From<TroopDefinition> for TroopDefinitionResponse {
    fn from(d: TroopDefinition) -> (r: TroopDefinitionResponse) {
        TroopDefinitionResponse {
            troop_type: d.troop_type,
            tribe: d.tribe,
            name: d.name,
            description: d.description,
            attack: d.attack,
            defense_infantry: d.defense_infantry,
            defense_cavalry: d.defense_cavalry,
            speed: d.speed,
            carry_capacity: d.carry_capacity,
            crop_consumption: d.crop_consumption,
            training_time_seconds: d.training_time_seconds,
            wood_cost: d.wood_cost,
            clay_cost: d.clay_cost,
            iron_cost: d.iron_cost,
            crop_cost: d.crop_cost,
            required_building: d.required_building,
            required_building_level: d.required_building_level,
            loyalty_reduction: d.loyalty_reduction,
        }
    }
}

impl vstd::std_specs::convert::FromSpecImpl<TroopDefinition> for TroopDefinitionResponse {
    open spec fn obeys_from_spec() -> bool {
        true
    }

    /// Everything of the entry but its id and the instant of its creation.
    open spec fn from_spec(d: TroopDefinition) -> TroopDefinitionResponse {
        TroopDefinitionResponse {
            troop_type: d.troop_type,
            tribe: d.tribe,
            name: d.name,
            description: d.description,
            attack: d.attack,
            defense_infantry: d.defense_infantry,
            defense_cavalry: d.defense_cavalry,
            speed: d.speed,
            carry_capacity: d.carry_capacity,
            crop_consumption: d.crop_consumption,
            training_time_seconds: d.training_time_seconds,
            wood_cost: d.wood_cost,
            clay_cost: d.clay_cost,
            iron_cost: d.iron_cost,
            crop_cost: d.crop_cost,
            required_building: d.required_building,
            required_building_level: d.required_building_level,
            loyalty_reduction: d.loyalty_reduction,
        }
    }
}

/// Whether every entry of a catalog is well formed.
pub fn catalog_is_valid(defs: &Vec<TroopDefinition>) -> (r: bool)
    ensures
        r == catalog_wf(defs@),
{
    let mut i: usize = 0;
    while i < defs.len()
        invariant
            i <= defs.len(),
            forall|j: int| 0 <= j < i ==> (#[trigger] defs@[j]).wf(),
        decreases defs.len() - i,
    {
        let d = &defs[i];
        if d.attack < 0 || d.defense_infantry < 0 || d.defense_cavalry < 0 || d.speed < 1
            || d.carry_capacity < 0 || d.crop_consumption < 0 || d.training_time_seconds < 0
            || d.wood_cost < 0 || d.clay_cost < 0 || d.iron_cost < 0 || d.crop_cost < 0
            || d.loyalty_reduction < 0 {
            assert(!defs@[i as int].wf());
            return false;
        }
        i = i + 1;
    }
    true
}

} // verus!
