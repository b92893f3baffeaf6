//! Armies on the move, what they carry, and the reports of what they did.

use vstd::prelude::*;
use crate::models::troop::{TroopType, TROOP_KINDS};

verus! {

/// Purpose of a dispatch.
#[derive(Debug, Clone, Copy, PartialEq, Eq, Structural)]
pub enum MissionType {
    Raid,
    Attack,
    Conquer,
    Support,
    Scout,
    Settle,
}

impl MissionType {
    pub open spec fn spec_is_hostile(self) -> bool {
        self == MissionType::Raid || self == MissionType::Attack || self == MissionType::Conquer
            || self == MissionType::Scout
    }

    pub open spec fn spec_returns(self) -> bool {
        self != MissionType::Settle
    }

    pub fn is_hostile(&self) -> (r: bool)
        ensures
            r == self.spec_is_hostile(),
    {
        matches!(
            self,
            MissionType::Raid | MissionType::Attack | MissionType::Conquer | MissionType::Scout
        )
    }

    pub fn is_support(&self) -> (r: bool)
        ensures
            r == (*self == MissionType::Support),
    {
        matches!(self, MissionType::Support)
    }

    /// Settlers stay where they arrive; every other mission comes home.
    pub fn returns_home(&self) -> (r: bool)
        ensures
            r == self.spec_returns(),
    {
        !matches!(self, MissionType::Settle)
    }
}

/// Resources that an army carries.
#[derive(Debug, Clone, Copy, PartialEq, Eq, Structural)]
pub struct CarriedResources {
    pub wood: i32,
    pub clay: i32,
    pub iron: i32,
    pub crop: i32,
}

impl CarriedResources {
    pub open spec fn spec_total(&self) -> int {
        self.wood + self.clay + self.iron + self.crop
    }

    /// No component is negative.
    pub open spec fn wf(&self) -> bool {
        self.wood >= 0 && self.clay >= 0 && self.iron >= 0 && self.crop >= 0
    }

    pub open spec fn is_empty(&self) -> bool {
        self.wood == 0 && self.clay == 0 && self.iron == 0 && self.crop == 0
    }

    pub fn empty() -> (r: CarriedResources)
        ensures
            r.is_empty(),
            r.wf(),
    {
        CarriedResources { wood: 0, clay: 0, iron: 0, crop: 0 }
    }

    pub fn total(&self) -> (r: i32)
        requires
            i32::MIN <= self.spec_total() <= i32::MAX,
            i32::MIN <= self.wood + self.clay <= i32::MAX,
            i32::MIN <= self.wood + self.clay + self.iron <= i32::MAX,
        ensures
            r == self.spec_total(),
    {
        self.wood + self.clay + self.iron + self.crop
    }

    /// The total, in a type that always holds it.
    pub fn total_wide(&self) -> (r: i64)
        ensures
            r == self.spec_total(),
    {
        self.wood as i64 + self.clay as i64 + self.iron as i64 + self.crop as i64
    }
}

impl Default for CarriedResources {
    fn default() -> (r: CarriedResources)
        ensures
            r.is_empty(),
    {
        CarriedResources { wood: 0, clay: 0, iron: 0, crop: 0 }
    }
}

/// Sum of the first `n` counts.
pub open spec fn counts_sum(s: Seq<i32>, n: int) -> int
    decreases n,
{
    if n <= 0 {
        0
    } else {
        counts_sum(s, n - 1) + s[n - 1]
    }
}

/// The kinds with a positive count among the first `n`, in canonical order.
pub open spec fn positive_entries(s: Seq<i32>, n: int) -> Seq<(TroopType, i32)>
    decreases n,
{
    if n <= 0 {
        Seq::empty()
    } else if s[n - 1] > 0 {
        positive_entries(s, n - 1).push((TroopType::at(n - 1), s[n - 1]))
    } else {
        positive_entries(s, n - 1)
    }
}

pub proof fn lemma_counts_sum_bounds(s: Seq<i32>, n: int)
    requires
        0 <= n <= s.len(),
        forall|i: int| 0 <= i < s.len() ==> s[i] >= 0,
    ensures
        0 <= counts_sum(s, n) <= n * i32::MAX,
        forall|i: int| 0 <= i < n ==> s[i] <= counts_sum(s, n),
    decreases n,
{
    if n > 0 {
        lemma_counts_sum_bounds(s, n - 1);
    }
}

/// How many troops of each kind: a count for every kind, zero for the kinds
/// that are absent. The kinds are walked in their canonical order.
#[derive(Debug, PartialEq, Eq)]
pub struct ArmyTroops {
    pub counts: Vec<i32>,
}

impl ArmyTroops {
    /// One count per kind, none negative.
    pub open spec fn wf(&self) -> bool {
        &&& self.counts@.len() == TROOP_KINDS
        &&& forall|i: int| 0 <= i < TROOP_KINDS ==> self.counts@[i] >= 0
    }

    pub open spec fn count(&self, t: TroopType) -> int {
        self.counts@[t.ordinal()] as int
    }

    pub open spec fn spec_total(&self) -> int {
        counts_sum(self.counts@, TROOP_KINDS as int)
    }

    pub proof fn lemma_total_bounds(&self)
        requires
            self.wf(),
        ensures
            0 <= self.spec_total() <= 19 * i32::MAX,
            forall|t: TroopType| 0 <= #[trigger] self.count(t) <= self.spec_total(),
            self.spec_total() == 0 <==> forall|t: TroopType| #[trigger] self.count(t) == 0,
    {
        lemma_counts_sum_bounds(self.counts@, 19);
        TroopType::lemma_ordinal_at();
        if forall|t: TroopType| #[trigger] self.count(t) == 0 {
            assert forall|i: int| 0 <= i < 19 implies self.counts@[i] == 0 by {
                assert(self.count(TroopType::at(i)) == 0);
            }
            lemma_zero_sum(self.counts@, 19);
        }
    }

    pub fn new() -> (r: ArmyTroops)
        ensures
            r.wf(),
            forall|t: TroopType| #[trigger] r.count(t) == 0,
            r.spec_total() == 0,
    {
        let mut counts: Vec<i32> = Vec::new();
        let mut i: usize = 0;
        while i < TROOP_KINDS
            invariant
                i <= TROOP_KINDS,
                counts@.len() == i,
                forall|j: int| 0 <= j < i ==> counts@[j] == 0,
            decreases TROOP_KINDS - i,
        {
            counts.push(0);
            i = i + 1;
        }
        let r = ArmyTroops { counts };
        proof {
            lemma_zero_sum(r.counts@, 19);
        }
        r
    }

    pub fn get(&self, t: TroopType) -> (n: i32)
        requires
            self.wf(),
        ensures
            n == self.count(t),
            n >= 0,
    {
        self.counts[t.index()]
    }

    /// Sets the count of one kind and leaves the others.
    pub fn insert(&mut self, t: TroopType, n: i32)
        requires
            old(self).wf(),
            n >= 0,
        ensures
            final(self).wf(),
            final(self).count(t) == n,
            forall|u: TroopType| u != t ==> #[trigger] final(self).count(u) == old(self).count(u),
    {
        let i = t.index();
        self.counts.set(i, n);
    }

    /// Drops one kind and leaves the others.
    pub fn remove(&mut self, t: TroopType)
        requires
            old(self).wf(),
        ensures
            final(self).wf(),
            final(self).count(t) == 0,
            forall|u: TroopType| u != t ==> #[trigger] final(self).count(u) == old(self).count(u),
    {
        self.insert(t, 0);
    }

    /// Number of troops of all kinds together.
    pub fn total(&self) -> (r: i64)
        requires
            self.wf(),
        ensures
            r == self.spec_total(),
            r >= 0,
    {
        let mut acc: i64 = 0;
        let mut i: usize = 0;
        while i < TROOP_KINDS
            invariant
                self.wf(),
                i <= TROOP_KINDS,
                acc == counts_sum(self.counts@, i as int),
                0 <= acc <= i * i32::MAX,
            decreases TROOP_KINDS - i,
        {
            acc = acc + self.counts[i] as i64;
            i = i + 1;
        }
        acc
    }

    /// The kinds that are present, with their counts, in canonical order.
    pub fn entries(&self) -> (r: Vec<(TroopType, i32)>)
        requires
            self.wf(),
        ensures
            r@ == positive_entries(self.counts@, TROOP_KINDS as int),
    {
        let mut out: Vec<(TroopType, i32)> = Vec::new();
        let mut i: usize = 0;
        while i < TROOP_KINDS
            invariant
                self.wf(),
                i <= TROOP_KINDS,
                out@ == positive_entries(self.counts@, i as int),
            decreases TROOP_KINDS - i,
        {
            if self.counts[i] > 0 {
                out.push((TroopType::from_index(i), self.counts[i]));
            }
            i = i + 1;
        }
        out
    }
}

pub proof fn lemma_zero_sum(s: Seq<i32>, n: int)
    requires
        0 <= n <= s.len(),
        forall|i: int| 0 <= i < n ==> s[i] == 0,
    ensures
        counts_sum(s, n) == 0,
    decreases n,
{
    if n > 0 {
        lemma_zero_sum(s, n - 1);
    }
}

impl Clone for ArmyTroops {
    fn clone(&self) -> (r: ArmyTroops)
        ensures
            r.counts@ == self.counts@,
    {
        ArmyTroops { counts: self.counts.clone() }
    }
}

/// One dispatch of troops from a village to a place on the map.
#[derive(Debug)]
pub struct Army {
    pub id: u128,
    pub player_id: u128,
    pub from_village_id: u128,
    pub to_x: i32,
    pub to_y: i32,
    pub to_village_id: Option<u128>,
    pub mission: MissionType,
    pub troops: ArmyTroops,
    pub resources: CarriedResources,
    pub departed_at: i64,
    pub arrives_at: i64,
    pub returns_at: Option<i64>,
    pub is_returning: bool,
    pub is_stationed: bool,
    pub battle_report_id: Option<u128>,
    pub created_at: i64,
}

impl Army {
    /// Some troops are in it, it carries nothing negative, and it is not
    /// both on its way home and stationed. That it carries no more than its
    /// troops can carry depends on the catalog and is stated apart, as
    /// `load_fits`.
    pub open spec fn wf(&self) -> bool {
        &&& self.troops.wf()
        &&& self.troops.spec_total() > 0
        &&& self.resources.wf()
        &&& !(self.is_returning && self.is_stationed)
    }

    /// Who sent it, from where and where to: what no event changes.
    pub open spec fn same_journey(&self, other: &Army) -> bool {
        &&& self.id == other.id
        &&& self.player_id == other.player_id
        &&& self.from_village_id == other.from_village_id
        &&& self.to_x == other.to_x
        &&& self.to_y == other.to_y
        &&& self.to_village_id == other.to_village_id
        &&& self.mission == other.mission
        &&& self.departed_at == other.departed_at
        &&& self.created_at == other.created_at
    }
}

/// A request to send troops.
#[derive(Debug)]
pub struct SendArmyRequest {
    pub to_x: i32,
    pub to_y: i32,
    pub mission: MissionType,
    pub troops: ArmyTroops,
    pub resources: CarriedResources,
}

/// Who came out of a battle on top.
#[derive(Debug, Clone, Copy, PartialEq, Eq, Structural)]
pub enum Winner {
    Attacker,
    Defender,
    Draw,
}

impl Winner {
    pub open spec fn spec_tag(self) -> Seq<char> {
        match self {
            Winner::Attacker => "attacker"@,
            Winner::Defender => "defender"@,
            Winner::Draw => "draw"@,
        }
    }

    /// The tag that reports carry.
    pub fn tag(self) -> (r: &'static str)
        ensures
            r@ == self.spec_tag(),
    {
        match self {
            Winner::Attacker => "attacker",
            Winner::Defender => "defender",
            Winner::Draw => "draw",
        }
    }
}

/// Record of a resolved battle.
#[derive(Debug)]
pub struct BattleReport {
    pub id: u128,
    pub attacker_player_id: u128,
    pub defender_player_id: Option<u128>,
    pub attacker_village_id: u128,
    pub defender_village_id: Option<u128>,
    pub mission: MissionType,
    pub attacker_troops: ArmyTroops,
    pub defender_troops: ArmyTroops,
    pub attacker_losses: ArmyTroops,
    pub defender_losses: ArmyTroops,
    pub resources_stolen: CarriedResources,
    pub winner: Winner,
    pub occurred_at: i64,
    pub read_by_attacker: bool,
    pub read_by_defender: bool,
    pub created_at: i64,
}

/// Record of a resolved scouting.
#[derive(Debug)]
pub struct ScoutReport {
    pub id: u128,
    pub attacker_player_id: u128,
    pub defender_player_id: Option<u128>,
    pub attacker_village_id: u128,
    pub defender_village_id: Option<u128>,
    pub scouts_sent: i64,
    pub defender_scouts: i64,
    pub scouts_lost: i64,
    pub defender_scouts_lost: i64,
    pub success: bool,
    pub scouted_resources: Option<CarriedResources>,
    pub scouted_troops: Option<ArmyTroops>,
    pub occurred_at: i64,
    pub read_by_attacker: bool,
    pub read_by_defender: bool,
    pub created_at: i64,
}

impl ArmyTroops {
    /// Whether the table has a count for each kind and none is negative.
    pub fn is_valid(&self) -> (r: bool)
        ensures
            r == self.wf(),
    {
        if self.counts.len() != TROOP_KINDS {
            return false;
        }
        let mut i: usize = 0;
        while i < TROOP_KINDS
            invariant
                i <= TROOP_KINDS,
                self.counts@.len() == TROOP_KINDS,
                forall|j: int| 0 <= j < i ==> self.counts@[j] >= 0,
            decreases TROOP_KINDS - i,
        {
            if self.counts[i] < 0 {
                return false;
            }
            i = i + 1;
        }
        true
    }
}

impl Army {
    /// Whether the army is well formed.
    pub fn is_valid(&self) -> (r: bool)
        ensures
            r == self.wf(),
    {
        self.troops.is_valid() && self.troops.total() > 0 && self.resources.wood >= 0
            && self.resources.clay >= 0 && self.resources.iron >= 0 && self.resources.crop >= 0 && !(
        self.is_returning && self.is_stationed)
    }
}

} // verus!
