//! The defenders of a village: its garrison together with the armies that
//! are stationed in it, and how the losses of a battle fall on them.

use vstd::prelude::*;
use crate::error::AppError;
use crate::models::army::{Army, ArmyTroops, MissionType};
use crate::models::troop::{catalog_wf, Garrison, TroopDefinition, TroopType, TROOP_KINDS};
use crate::models::village::Village;
use crate::services::army_service::ArmyService;
use crate::services::combat::{
    battle_result_is, calculate_survivors, lemma_no_defenders_no_losses, BattleResult,
};
use crate::services::scouting::{loss_share, loss_share_of};

verus! {

/// Every stationed army holds a count for each kind, none negative.
pub open spec fn armies_wf(armies: Seq<Army>) -> bool {
    forall|k: int| 0 <= k < armies.len() ==> (#[trigger] armies[k]).troops.wf()
}

/// Troops of the kind at position `i` in the first `n` armies.
pub open spec fn stationed_count(armies: Seq<Army>, i: int, n: int) -> int
    decreases n,
{
    if n <= 0 {
        0
    } else {
        stationed_count(armies, i, n - 1) + armies[n - 1].troops.counts@[i]
    }
}

/// Defenders of a kind: those of the garrison that are at home, and those
/// of every stationed army.
pub open spec fn defender_count(home: ArmyTroops, armies: Seq<Army>, t: TroopType) -> int {
    home.count(t) + stationed_count(armies, t.ordinal(), armies.len() as int)
}

pub proof fn lemma_stationed_count_grows(armies: Seq<Army>, i: int, n: int, m: int)
    requires
        armies_wf(armies),
        0 <= i < TROOP_KINDS,
        0 <= n <= m <= armies.len(),
    ensures
        0 <= stationed_count(armies, i, n) <= stationed_count(armies, i, m),
    decreases m,
{
    if n < m {
        lemma_stationed_count_grows(armies, i, n, m - 1);
        assert(armies[m - 1].troops.wf());
    } else if n > 0 {
        lemma_stationed_count_grows(armies, i, n - 1, n - 1);
        assert(armies[n - 1].troops.wf());
    }
}

/// What a battle did to one stationed army.
#[derive(Debug)]
pub struct StationedLosses {
    pub army_id: u128,
    /// The troops that fell. They are owed to the garrison of the army's
    /// own village, which no longer owns them.
    pub fallen: ArmyTroops,
    /// The troops that are left.
    pub survivors: ArmyTroops,
    /// Whether any troop of the army fell; only then the store changes.
    pub had_losses: bool,
    /// Whether the army fell to the last troop and is deleted.
    pub wiped_out: bool,
}

/// The fate of a stationed army, given the losses of every kind in all and
/// the defenders of every kind in all.
pub open spec fn stationed_losses_are(
    r: StationedLosses,
    army: Army,
    losses: ArmyTroops,
    defenders: ArmyTroops,
) -> bool {
    &&& r.army_id == army.id
    &&& r.fallen.wf()
    &&& forall|t: TroopType|
        #[trigger] r.fallen.count(t) == loss_share(
            army.troops.count(t),
            losses.count(t),
            defenders.count(t),
        )
    &&& r.survivors.wf()
    &&& forall|t: TroopType|
        #[trigger] r.survivors.count(t) == army.troops.count(t) - loss_share(
            army.troops.count(t),
            losses.count(t),
            defenders.count(t),
        )
    &&& r.had_losses == exists|t: TroopType|
        #[trigger] loss_share(army.troops.count(t), losses.count(t), defenders.count(t)) > 0
    &&& r.wiped_out == (r.had_losses && r.survivors.spec_total() == 0)
}

/// A village that an army arrives at, as the store holds it at that
/// instant: the village, its garrison, and the armies stationed in it.
pub struct Defence {
    pub village: Village,
    pub garrison: Garrison,
    pub armies: Vec<Army>,
}

impl Defence {
    pub open spec fn wf(&self) -> bool {
        self.village.wf() && self.garrison.wf() && armies_wf(self.armies@)
    }

    /// Whether the village, its garrison and the stationed armies are well
    /// formed.
    pub fn is_valid(&self) -> (r: bool)
        ensures
            r == self.wf(),
    {
        self.village.is_valid() && self.garrison.is_valid() && armies_are_valid(&self.armies)
    }
}

/// A fought battle and what it did to the defenders.
pub struct Engagement {
    /// All defenders before the battle, kind by kind.
    pub defenders: ArmyTroops,
    pub battle: BattleResult,
    /// Losses of the garrison itself.
    pub village_losses: ArmyTroops,
    /// The fate of each stationed army, in the order of the armies.
    pub stationed: Vec<StationedLosses>,
}

/// All defenders of a village, or nothing where a kind has more of them
/// than a count can hold.
pub fn combine_defenders(home: &ArmyTroops, armies: &Vec<Army>) -> (r: Option<ArmyTroops>)
    requires
        home.wf(),
        armies_wf(armies@),
    ensures
        match r {
            Some(all) => all.wf() && forall|t: TroopType|
                #[trigger] all.count(t) == defender_count(*home, armies@, t),
            None => exists|t: TroopType| #[trigger] defender_count(*home, armies@, t) > i32::MAX,
        },
{
    let mut out: Vec<i32> = Vec::new();
    let mut i: usize = 0;
    while i < TROOP_KINDS
        invariant
            home.wf(),
            armies_wf(armies@),
            i <= TROOP_KINDS,
            out@.len() == i,
            forall|j: int|
                0 <= j < i ==> #[trigger] out@[j] == home.counts@[j] + stationed_count(
                    armies@,
                    j,
                    armies@.len() as int,
                ) && out@[j] >= 0,
        decreases TROOP_KINDS - i,
    {
        let mut sum: i64 = home.counts[i] as i64;
        let mut k: usize = 0;
        while k < armies.len()
            invariant
                home.wf(),
                armies_wf(armies@),
                i < TROOP_KINDS,
                k <= armies.len(),
                sum == home.counts@[i as int] + stationed_count(armies@, i as int, k as int),
                0 <= sum <= i32::MAX,
            decreases armies.len() - k,
        {
            assert(armies@[k as int].troops.wf());
            sum = sum + armies[k].troops.counts[i] as i64;
            if sum > i32::MAX as i64 {
                proof {
                    let t = TroopType::at(i as int);
                    TroopType::lemma_ordinal_at();
                    lemma_stationed_count_grows(
                        armies@,
                        i as int,
                        k as int + 1,
                        armies@.len() as int,
                    );
                    assert(defender_count(*home, armies@, t) > i32::MAX);
                }
                return None;
            }
            k = k + 1;
        }
        out.push(sum as i32);
        i = i + 1;
    }
    let all = ArmyTroops { counts: out };
    proof {
        TroopType::lemma_ordinal_at();
        assert forall|t: TroopType| #[trigger] all.count(t) == defender_count(*home, armies@, t) by {
            assert(all.counts@[t.ordinal()] == home.counts@[t.ordinal()] + stationed_count(
                armies@,
                t.ordinal(),
                armies@.len() as int,
            ));
        }
    }
    Some(all)
}

/// The share of the losses of every kind that falls on a part of the
/// defenders.
pub fn distribute(part: &ArmyTroops, losses: &ArmyTroops, whole: &ArmyTroops) -> (r: ArmyTroops)
    requires
        part.wf(),
        losses.wf(),
        whole.wf(),
    ensures
        r.wf(),
        forall|t: TroopType|
            #[trigger] r.count(t) == loss_share(part.count(t), losses.count(t), whole.count(t)),
        forall|t: TroopType| #[trigger] r.count(t) <= part.count(t),
{
    let mut out: Vec<i32> = Vec::new();
    let mut i: usize = 0;
    while i < TROOP_KINDS
        invariant
            part.wf(),
            losses.wf(),
            whole.wf(),
            i <= TROOP_KINDS,
            out@.len() == i,
            forall|j: int|
                0 <= j < i ==> #[trigger] out@[j] == loss_share(
                    part.counts@[j] as int,
                    losses.counts@[j] as int,
                    whole.counts@[j] as int,
                ) && 0 <= out@[j] <= part.counts@[j],
        decreases TROOP_KINDS - i,
    {
        out.push(loss_share_of(part.counts[i], losses.counts[i] as i64, whole.counts[i] as i64));
        i = i + 1;
    }
    let r = ArmyTroops { counts: out };
    proof {
        TroopType::lemma_ordinal_at();
        assert forall|t: TroopType|
            #[trigger] r.count(t) == loss_share(part.count(t), losses.count(t), whole.count(t))
                && r.count(t) <= part.count(t) by {
            assert(r.counts@[t.ordinal()] == loss_share(
                part.counts@[t.ordinal()] as int,
                losses.counts@[t.ordinal()] as int,
                whole.counts@[t.ordinal()] as int,
            ));
        }
    }
    r
}

/// What the losses of a battle do to one stationed army.
pub fn stationed_losses(army: &Army, losses: &ArmyTroops, defenders: &ArmyTroops) -> (r:
    StationedLosses)
    requires
        army.troops.wf(),
        losses.wf(),
        defenders.wf(),
    ensures
        stationed_losses_are(r, *army, *losses, *defenders),
{
    let fallen = distribute(&army.troops, losses, defenders);
    let survivors = calculate_survivors(&army.troops, &fallen);
    let had_losses = fallen.total() > 0;
    let wiped_out = had_losses && survivors.total() == 0;
    proof {
        fallen.lemma_total_bounds();
        assert forall|t: TroopType|
            #[trigger] loss_share(army.troops.count(t), losses.count(t), defenders.count(t))
                == fallen.count(t) by {}
        assert forall|t: TroopType|
            #[trigger] survivors.count(t) == army.troops.count(t) - loss_share(
                army.troops.count(t),
                losses.count(t),
                defenders.count(t),
            ) by {
            assert(fallen.count(t) <= army.troops.count(t));
        }
        if had_losses {
            let t = choose|t: TroopType| #[trigger] fallen.count(t) != 0;
            assert(loss_share(army.troops.count(t), losses.count(t), defenders.count(t)) > 0);
        }
    }
    StationedLosses { army_id: army.id, fallen, survivors, had_losses, wiped_out }
}

/// The engagement of attackers with the defenders of a village: who the
/// defenders are, how the battle ends, and where the defenders' losses fall.
pub open spec fn engagement_is(
    e: Engagement,
    attackers: ArmyTroops,
    home: ArmyTroops,
    armies: Seq<Army>,
    defs: Seq<TroopDefinition>,
    mission: MissionType,
) -> bool {
    &&& e.defenders.wf()
    &&& forall|t: TroopType| #[trigger] e.defenders.count(t) == defender_count(home, armies, t)
    &&& battle_result_is(e.battle, attackers, e.defenders, defs, mission)
    &&& e.village_losses.wf()
    &&& forall|t: TroopType|
        #[trigger] e.village_losses.count(t) == loss_share(
            home.count(t),
            e.battle.defender_losses.count(t),
            e.defenders.count(t),
        )
    &&& e.stationed@.len() == armies.len()
    &&& forall|k: int|
        0 <= k < armies.len() ==> stationed_losses_are(
            #[trigger] e.stationed@[k],
            armies[k],
            e.battle.defender_losses,
            e.defenders,
        )
}

/// Some kind has more defenders than a count can hold.
pub open spec fn defenders_overflow(home: ArmyTroops, armies: Seq<Army>) -> bool {
    exists|t: TroopType| #[trigger] defender_count(home, armies, t) > i32::MAX
}

impl ArmyService {
    /// Fights the battle of an army against a village and takes the fallen
    /// out of the garrison. The stationed armies are not changed; what
    /// becomes of each is in the result.
    pub fn engage(
        attackers: &ArmyTroops,
        garrison: &mut Garrison,
        armies: &Vec<Army>,
        definitions: &Vec<TroopDefinition>,
        mission: MissionType,
    ) -> (r: Result<Engagement, AppError>)
        requires
            attackers.wf(),
            old(garrison).wf(),
            armies_wf(armies@),
            catalog_wf(definitions@),
        ensures
            final(garrison).wf(),
            r.is_err() <==> defenders_overflow(old(garrison).home, armies@),
            r matches Err(e) ==> e == AppError::InternalError && *final(garrison) == *old(garrison),
            r matches Ok(e) ==> {
                &&& engagement_is(
                    e,
                    *attackers,
                    old(garrison).home,
                    armies@,
                    definitions@,
                    mission,
                )
                &&& forall|t: TroopType|
                    #[trigger] final(garrison).owned.count(t) == old(garrison).owned.count(t)
                        - e.village_losses.count(t)
                &&& forall|t: TroopType|
                    #[trigger] final(garrison).home.count(t) == old(garrison).home.count(t)
                        - e.village_losses.count(t)
            },
    {
        let defenders = match combine_defenders(&garrison.home, armies) {
            Some(all) => all,
            None => {
                return Err(AppError::InternalError);
            },
        };
        proof {
            assert forall|t: TroopType| #[trigger]
                defender_count(garrison.home, armies@, t) <= i32::MAX by {
                assert(defenders.count(t) == defender_count(garrison.home, armies@, t));
            }
        }
        let battle = ArmyService::calculate_battle(attackers, &defenders, definitions, mission);
        let village_losses = distribute(&garrison.home, &battle.defender_losses, &defenders);
        let mut stationed: Vec<StationedLosses> = Vec::new();
        let mut k: usize = 0;
        while k < armies.len()
            invariant
                armies_wf(armies@),
                battle.defender_losses.wf(),
                defenders.wf(),
                k <= armies.len(),
                stationed@.len() == k,
                forall|j: int|
                    0 <= j < k ==> stationed_losses_are(
                        #[trigger] stationed@[j],
                        armies@[j],
                        battle.defender_losses,
                        defenders,
                    ),
            decreases armies.len() - k,
        {
            assert(armies@[k as int].troops.wf());
            let one = stationed_losses(&armies[k], &battle.defender_losses, &defenders);
            stationed.push(one);
            k = k + 1;
        }
        let owned = calculate_survivors(&garrison.owned, &village_losses);
        let home = calculate_survivors(&garrison.home, &village_losses);
        proof {
            assert forall|t: TroopType| #[trigger]
                owned.count(t) == garrison.owned.count(t) - village_losses.count(t) && home.count(t)
                    == garrison.home.count(t) - village_losses.count(t) by {
                assert(village_losses.count(t) <= garrison.home.count(t));
                assert(garrison.home.count(t) <= garrison.owned.count(t));
            }
        }
        garrison.owned = owned;
        garrison.home = home;
        Ok(Engagement { defenders, battle, village_losses, stationed })
    }
}

/// A stationed army that a battle does not wipe out still has troops.
pub proof fn lemma_stationed_army_keeps_troops(
    r: StationedLosses,
    army: Army,
    losses: ArmyTroops,
    defenders: ArmyTroops,
)
    requires
        army.troops.wf(),
        army.troops.spec_total() > 0,
        losses.wf(),
        defenders.wf(),
        stationed_losses_are(r, army, losses, defenders),
        !r.wiped_out,
    ensures
        r.survivors.wf(),
        r.survivors.spec_total() > 0,
{
    r.survivors.lemma_total_bounds();
    if !r.had_losses {
        TroopType::lemma_ordinal_at();
        assert forall|i: int| 0 <= i < TROOP_KINDS implies r.survivors.counts@[i]
            == army.troops.counts@[i] by {
            let t = TroopType::at(i);
            assert(!(loss_share(army.troops.count(t), losses.count(t), defenders.count(t)) > 0));
            assert(r.survivors.count(t) == army.troops.count(t) - loss_share(
                army.troops.count(t),
                losses.count(t),
                defenders.count(t),
            ));
        }
        assert(r.survivors.counts@ =~= army.troops.counts@);
    }
}

/// A village without garrison and without stationed armies falls without a
/// fight: the attacker wins, loses nobody, and nothing is lost in the village.
pub proof fn lemma_undefended_village(
    e: Engagement,
    attackers: ArmyTroops,
    home: ArmyTroops,
    armies: Seq<Army>,
    defs: Seq<TroopDefinition>,
    mission: MissionType,
)
    requires
        attackers.wf(),
        home.wf(),
        forall|t: TroopType| #[trigger] home.count(t) == 0,
        armies.len() == 0,
        engagement_is(e, attackers, home, armies, defs, mission),
    ensures
        e.battle.attacker_wins,
        forall|t: TroopType| #[trigger] e.battle.attacker_losses.count(t) == 0,
        forall|t: TroopType| #[trigger] e.battle.attacker_survivors.count(t) == attackers.count(t),
        forall|t: TroopType| #[trigger] e.village_losses.count(t) == 0,
{
    assert forall|t: TroopType| #[trigger] e.defenders.count(t) == 0 by {
        assert(e.defenders.count(t) == defender_count(home, armies, t));
    }
    lemma_no_defenders_no_losses(
        e.battle,
        attackers,
        e.defenders,
        defs,
        mission,
    );
}

/// Whether the troops of every army of a list are well formed.
pub fn armies_are_valid(armies: &Vec<Army>) -> (r: bool)
    ensures
        r == armies_wf(armies@),
{
    let mut i: usize = 0;
    while i < armies.len()
        invariant
            i <= armies.len(),
            forall|j: int| 0 <= j < i ==> (#[trigger] armies@[j]).troops.wf(),
        decreases armies.len() - i,
    {
        if !armies[i].troops.is_valid() {
            return false;
        }
        i = i + 1;
    }
    true
}

} // verus!
