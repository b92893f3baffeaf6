//! Arrival of hostile armies: battle, loot, conquest and scouting.

use vstd::prelude::*;
use crate::error::AppError;
use crate::models::army::{
    Army, ArmyTroops, BattleReport, CarriedResources, MissionType, ScoutReport, Winner,
};
use crate::models::troop::{catalog_wf, Garrison, TroopDefinition, TroopType, TROOP_KINDS};
use crate::models::village::{Village, LOYALTY_AFTER_CONQUEST};
use crate::services::army_service::{returning_as, ArmyService};
use crate::services::combat::{
    calculate_survivors, loyalty_reduction_of, weigh_stats, weighted_sum, BattleResult, StatTable,
};
use crate::services::defense::{
    armies_wf, defenders_overflow, engagement_is, Defence, Engagement,
};
use crate::services::movement::{
    lemma_carry_capacity_nonnegative, lemma_loot_is_bounded, load_fits, stolen_from, valid_instant,
};
use crate::services::scouting::{
    defenders_lost, loss_share, scout_power, scout_succeeds, scouts_lost, ScoutResult,
};

verus! {

/// What the arrival of a hostile army did.
pub struct BattleOutcome {
    /// The battle and the losses of the defenders. The losses of the
    /// attackers and of every stationed army are owed to the garrisons of
    /// their own villages, which no longer own the fallen.
    pub engagement: Engagement,
    /// What was taken from the village.
    pub stolen: CarriedResources,
    /// By how much the chiefs that are left lower the loyalty of the village.
    pub loyalty_reduced: u128,
    /// Whether the village changed hands.
    pub conquered: bool,
    pub report: BattleReport,
    /// Whether the army is no more: nobody is left of it, or it does not
    /// come back.
    pub army_deleted: bool,
}

/// Who won: the attacker where the battle says so; else the defender where
/// any defender is left; else nobody.
pub open spec fn winner_of(attacker_wins: bool, defenders_left: int) -> Winner {
    if attacker_wins {
        Winner::Attacker
    } else if defenders_left > 0 {
        Winner::Defender
    } else {
        Winner::Draw
    }
}

/// The report of a battle between an army and a village.
pub open spec fn report_is(
    report: BattleReport,
    report_id: u128,
    army: Army,
    target: Village,
    mission: MissionType,
    e: Engagement,
    stolen: CarriedResources,
    now: i64,
) -> bool {
    &&& report.id == report_id
    &&& report.attacker_player_id == army.player_id
    &&& report.defender_player_id == Some(target.user_id)
    &&& report.attacker_village_id == army.from_village_id
    &&& report.defender_village_id == Some(target.id)
    &&& report.mission == mission
    &&& report.attacker_troops.counts@ == army.troops.counts@
    &&& report.defender_troops.counts@ == e.defenders.counts@
    &&& report.attacker_losses.counts@ == e.battle.attacker_losses.counts@
    &&& report.defender_losses.counts@ == e.battle.defender_losses.counts@
    &&& report.resources_stolen == stolen
    &&& report.winner == winner_of(
        e.battle.attacker_wins,
        e.battle.defender_survivors.spec_total(),
    )
    &&& report.occurred_at == now
    &&& !report.read_by_attacker
    &&& !report.read_by_defender
    &&& report.created_at == now
}

/// The army after the battle: turned round with what is left of it and what
/// it took, or as it was where it is deleted.
pub open spec fn army_after_battle(
    before: Army,
    after: Army,
    deleted: bool,
    survivors: ArmyTroops,
    stolen: CarriedResources,
    report_id: u128,
    comes_back: bool,
    home: Option<(i32, i32)>,
    defs: Seq<TroopDefinition>,
    now: i64,
) -> bool {
    &&& deleted == !(survivors.spec_total() > 0 && comes_back)
    &&& deleted ==> after == before
    &&& !deleted ==> returning_as(
        before,
        after,
        survivors,
        stolen,
        Some(report_id),
        home,
        defs,
        now as int,
    )
}

/// The stores of a village after `stolen` was taken from them.
pub open spec fn plundered(before: Village, after: Village, stolen: CarriedResources) -> bool {
    &&& after.same_but_resources(&before)
    &&& after.resources_updated_at == before.resources_updated_at
    &&& after.wood == before.wood - stolen.wood
    &&& after.clay == before.clay - stolen.clay
    &&& after.iron == before.iron - stolen.iron
    &&& after.crop == before.crop - stolen.crop
}

/// The garrison after its own losses were taken out of it.
pub open spec fn garrison_after(before: Garrison, after: Garrison, losses: ArmyTroops) -> bool {
    &&& after.wf()
    &&& forall|t: TroopType|
        #[trigger] after.owned.count(t) == before.owned.count(t) - losses.count(t)
    &&& forall|t: TroopType| #[trigger] after.home.count(t) == before.home.count(t) - losses.count(t)
}

fn winner(battle: &BattleResult) -> (w: Winner)
    requires
        battle.defender_survivors.wf(),
    ensures
        w == winner_of(battle.attacker_wins, battle.defender_survivors.spec_total()),
{
    if battle.attacker_wins {
        Winner::Attacker
    } else if battle.defender_survivors.total() > 0 {
        Winner::Defender
    } else {
        Winner::Draw
    }
}

fn write_report(
    report_id: u128,
    army: &Army,
    target: &Village,
    mission: MissionType,
    e: &Engagement,
    stolen: CarriedResources,
    now: i64,
) -> (report: BattleReport)
    requires
        e.battle.defender_survivors.wf(),
    ensures
        report_is(report, report_id, *army, *target, mission, *e, stolen, now),
{
    BattleReport {
        id: report_id,
        attacker_player_id: army.player_id,
        defender_player_id: Some(target.user_id),
        attacker_village_id: army.from_village_id,
        defender_village_id: Some(target.id),
        mission,
        attacker_troops: army.troops.clone(),
        defender_troops: e.defenders.clone(),
        attacker_losses: e.battle.attacker_losses.clone(),
        defender_losses: e.battle.defender_losses.clone(),
        resources_stolen: stolen,
        winner: winner(&e.battle),
        occurred_at: now,
        read_by_attacker: false,
        read_by_defender: false,
        created_at: now,
    }
}

/// What the arrival of a raid or an attack at a village comes to: the
/// result, and the army, the village and its garrison afterwards.
pub open spec fn hostile_arrival_is(
    r: Result<BattleOutcome, AppError>,
    a0: Army,
    a1: Army,
    v0: Village,
    v1: Village,
    g0: Garrison,
    g1: Garrison,
    armies: Seq<Army>,
    home: Option<(i32, i32)>,
    defs: Seq<TroopDefinition>,
    report_id: u128,
    now: i64,
) -> bool {
    &&& (r.is_err() <==> defenders_overflow(g0.home, armies))
    &&& (r matches Err(e) ==> {
            &&& e == AppError::InternalError
            &&& a1 == a0
            &&& v1 == v0
            &&& g1 == g0
        })
    &&& (r matches Ok(o) ==> {
            &&& engagement_is(
                o.engagement,
                a0.troops,
                g0.home,
                armies,
                defs,
                a0.mission,
            )
            &&& garrison_after(g0, g1, o.engagement.village_losses)
            &&& o.stolen == if o.engagement.battle.attacker_wins {
                stolen_from(
                    v0,
                    o.engagement.battle.attacker_survivors,
                    defs,
                    a0.mission,
                )
            } else {
                CarriedResources { wood: 0, clay: 0, iron: 0, crop: 0 }
            }
            &&& plundered(v0, v1, o.stolen)
            &&& v1.wf()
            &&& o.loyalty_reduced == 0
            &&& !o.conquered
            &&& report_is(
                o.report,
                report_id,
                a0,
                v0,
                a0.mission,
                o.engagement,
                o.stolen,
                now,
            )
            &&& army_after_battle(
                a0,
                a1,
                o.army_deleted,
                o.engagement.battle.attacker_survivors,
                o.stolen,
                report_id,
                a0.mission.spec_returns(),
                home,
                defs,
                now,
            )
            &&& (!o.army_deleted && !a0.is_stationed) ==> a1.wf()
            &&& !o.army_deleted ==> load_fits(a1, defs)
        })
}

impl ArmyService {
    /// The battle of a raid or an attack at a village.
    fn hostile_battle(
        army: &mut Army,
        target: &mut Village,
        garrison: &mut Garrison,
        armies: &Vec<Army>,
        home: Option<(i32, i32)>,
        definitions: &Vec<TroopDefinition>,
        report_id: u128,
        now: i64,
    ) -> (r: Result<BattleOutcome, AppError>)
        requires
            old(army).troops.wf(),
            old(target).wf(),
            old(garrison).wf(),
            armies_wf(armies@),
            catalog_wf(definitions@),
            valid_instant(now as int),
        ensures
            hostile_arrival_is(
                r,
                *old(army),
                *final(army),
                *old(target),
                *final(target),
                *old(garrison),
                *final(garrison),
                armies@,
                home,
                definitions@,
                report_id,
                now,
            ),
    {
        let mission = army.mission;
        let engagement = match ArmyService::engage(
            &army.troops,
            garrison,
            armies,
            definitions,
            mission,
        ) {
            Ok(e) => e,
            Err(e) => {
                return Err(e);
            },
        };
        let stolen = if engagement.battle.attacker_wins {
            ArmyService::calculate_stolen_resources(
                target,
                &engagement.battle.attacker_survivors,
                definitions,
                mission,
            )
        } else {
            CarriedResources::empty()
        };
        proof {
            lemma_carry_capacity_nonnegative(engagement.battle.attacker_survivors, definitions@);
            lemma_loot_is_bounded(
                *target,
                engagement.battle.attacker_survivors,
                definitions@,
                mission,
            );
        }
        let report = write_report(report_id, army, target, mission, &engagement, stolen, now);
        let taken = target.deduct_resources(stolen.wood, stolen.clay, stolen.iron, stolen.crop);
        assert(taken.is_ok());
        let left = engagement.battle.attacker_survivors.total();
        let army_deleted = !(left > 0 && mission.returns_home());
        if !army_deleted {
            let survivors = engagement.battle.attacker_survivors.clone();
            ArmyService::initiate_return(
                army,
                survivors,
                stolen,
                Some(report_id),
                home,
                definitions,
                now,
            );
        }
        Ok(
            BattleOutcome {
                engagement,
                stolen,
                loyalty_reduced: 0,
                conquered: false,
                report,
                army_deleted,
            },
        )
    }
}

/// Loyalty that each kind takes from a village: what the catalog says for
/// chiefs, nothing for the others.
pub open spec fn chief_weights(defs: Seq<TroopDefinition>) -> Seq<int> {
    Seq::new(
        TROOP_KINDS as nat,
        |i: int|
            if TroopType::at(i).spec_is_chief() {
                loyalty_reduction_of(defs, TroopType::at(i))
            } else {
                0
            },
    )
}

/// Loyalty that the chiefs among the troops take from a village.
pub open spec fn chief_pressure(troops: ArmyTroops, defs: Seq<TroopDefinition>) -> int {
    weighted_sum(troops.counts@, chief_weights(defs), TROOP_KINDS as int)
}

/// Whether an army is sent home from a village without a battle: nobody
/// conquers a village of their own, or a capital.
pub open spec fn conquest_barred(army: Army, target: Village) -> bool {
    target.user_id == army.player_id || target.is_capital
}

/// The village after a conquest battle that took `pressure` from its
/// loyalty: at loyalty 0 it changes hands, is no capital and starts at 25.
pub open spec fn village_after_conquest(
    before: Village,
    after: Village,
    pressure: int,
    attacker: u128,
    conquered: bool,
) -> bool {
    &&& conquered == (pressure > 0 && before.loyalty - pressure <= 0)
    &&& after == if conquered {
        Village {
            user_id: attacker,
            is_capital: false,
            loyalty: LOYALTY_AFTER_CONQUEST,
            ..before
        }
    } else {
        Village { loyalty: (before.loyalty - pressure) as i32, ..before }
    }
}

/// What a scouting did.
pub struct ScoutOutcome {
    pub result: ScoutResult,
    /// Troops of the garrison that fell, kind by kind.
    pub defender_kills: ArmyTroops,
    /// Scouts that fell, kind by kind. They are owed to the garrison of the
    /// army's own village, which no longer owns them.
    pub fallen: ArmyTroops,
    /// Scouts that are left, kind by kind.
    pub survivors: ArmyTroops,
    pub report: ScoutReport,
    /// Whether no scout is left.
    pub army_deleted: bool,
}

/// What the scouts see of a village.
pub open spec fn stores_of(target: Village) -> CarriedResources {
    CarriedResources { wood: target.wood, clay: target.clay, iron: target.iron, crop: target.crop }
}

/// The report of a scouting. What the scouts saw is in it only where they
/// succeeded.
pub open spec fn scout_report_is(
    report: ScoutReport,
    report_id: u128,
    army: Army,
    target: Village,
    home: ArmyTroops,
    result: ScoutResult,
    now: i64,
) -> bool {
    &&& report.id == report_id
    &&& report.attacker_player_id == army.player_id
    &&& report.defender_player_id == Some(target.user_id)
    &&& report.attacker_village_id == army.from_village_id
    &&& report.defender_village_id == Some(target.id)
    &&& report.scouts_sent == army.troops.spec_total()
    &&& report.defender_scouts == home.spec_total()
    &&& report.scouts_lost == result.attacker_losses
    &&& report.defender_scouts_lost == result.defender_losses
    &&& report.success == result.success
    &&& report.scouted_resources == if result.success {
        Some(stores_of(target))
    } else {
        None
    }
    &&& report.scouted_troops.is_some() == result.success
    &&& report.scouted_troops matches Some(seen) ==> seen.counts@ == home.counts@
    &&& report.occurred_at == now
    &&& !report.read_by_attacker
    &&& !report.read_by_defender
    &&& report.created_at == now
}

/// What the arrival of a conquest at a village comes to: the result, and
/// the army, the village and its garrison afterwards.
pub open spec fn conquer_arrival_is(
    r: Result<Option<BattleOutcome>, AppError>,
    a0: Army,
    a1: Army,
    v0: Village,
    v1: Village,
    g0: Garrison,
    g1: Garrison,
    armies: Seq<Army>,
    home: Option<(i32, i32)>,
    defs: Seq<TroopDefinition>,
    report_id: u128,
    now: i64,
) -> bool {
    &&& (r.is_err() <==> !conquest_barred(a0, v0) && defenders_overflow(
            g0.home,
            armies,
        ))
    &&& (r matches Err(e) ==> {
            &&& e == AppError::InternalError
            &&& a1 == a0
            &&& v1 == v0
            &&& g1 == g0
        })
    &&& (r matches Ok(None) ==> {
            &&& conquest_barred(a0, v0)
            &&& v1 == v0
            &&& g1 == g0
            &&& returning_as(
                a0,
                a1,
                a0.troops,
                CarriedResources { wood: 0, clay: 0, iron: 0, crop: 0 },
                None,
                home,
                defs,
                now as int,
            )
        })
    &&& (r matches Ok(Some(o)) ==> {
            &&& !conquest_barred(a0, v0)
            &&& engagement_is(
                o.engagement,
                a0.troops,
                g0.home,
                armies,
                defs,
                MissionType::Attack,
            )
            &&& garrison_after(g0, g1, o.engagement.village_losses)
            &&& o.stolen == CarriedResources { wood: 0, clay: 0, iron: 0, crop: 0 }
            &&& o.loyalty_reduced == if o.engagement.battle.attacker_wins {
                chief_pressure(o.engagement.battle.attacker_survivors, defs)
            } else {
                0
            }
            &&& village_after_conquest(
                v0,
                v1,
                o.loyalty_reduced as int,
                a0.player_id,
                o.conquered,
            )
            &&& v1.wf()
            &&& report_is(
                o.report,
                report_id,
                a0,
                v0,
                MissionType::Conquer,
                o.engagement,
                o.stolen,
                now,
            )
            &&& army_after_battle(
                a0,
                a1,
                o.army_deleted,
                o.engagement.battle.attacker_survivors,
                o.stolen,
                report_id,
                true,
                home,
                defs,
                now,
            )
            &&& (!o.army_deleted && !a0.is_stationed) ==> a1.wf()
            &&& !o.army_deleted ==> load_fits(a1, defs)
        })
}

/// What the arrival of scouts at a village comes to: the outcome, and the
/// army and the garrison afterwards.
pub open spec fn scout_arrival_is(
    o: ScoutOutcome,
    a0: Army,
    a1: Army,
    v: Village,
    g0: Garrison,
    g1: Garrison,
    home: Option<(i32, i32)>,
    defs: Seq<TroopDefinition>,
    report_id: u128,
    now: i64,
) -> bool {
    &&& (({
            let a = scout_power(a0.troops, defs);
            let d = scout_power(g0.home, defs);
            let sent = a0.troops.spec_total();
            let met = g0.home.spec_total();
            &&& o.result.success == scout_succeeds(a, d)
            &&& o.result.attacker_losses == scouts_lost(sent, a, d)
            &&& o.result.defender_losses == defenders_lost(met, a, d)
            &&& o.defender_kills.wf()
            &&& forall|t: TroopType|
                #[trigger] o.defender_kills.count(t) == loss_share(
                    g0.home.count(t),
                    o.result.defender_losses as int,
                    met,
                )
            &&& o.fallen.wf()
            &&& forall|t: TroopType|
                #[trigger] o.fallen.count(t) == loss_share(
                    a0.troops.count(t),
                    o.result.attacker_losses as int,
                    sent,
                )
            &&& o.survivors.wf()
            &&& forall|t: TroopType|
                #[trigger] o.survivors.count(t) == a0.troops.count(t) - loss_share(
                    a0.troops.count(t),
                    o.result.attacker_losses as int,
                    sent,
                )
        }))
    &&& (garrison_after(g0, g1, o.defender_kills))
    &&& (scout_report_is(
            o.report,
            report_id,
            a0,
            v,
            g0.home,
            o.result,
            now,
        ))
    &&& (o.army_deleted == (o.survivors.spec_total() == 0))
    &&& (o.army_deleted ==> a1 == a0)
    &&& (!o.army_deleted ==> returning_as(
            a0,
            a1,
            o.survivors,
            CarriedResources { wood: 0, clay: 0, iron: 0, crop: 0 },
            None,
            home,
            defs,
            now as int,
        ))
    &&& ((!o.army_deleted && !a0.is_stationed) ==> a1.wf())
    &&& (!o.army_deleted ==> load_fits(a1, defs))
}

impl ArmyService {
    /// Loyalty that the chiefs among the troops take from a village.
    pub fn calculate_loyalty_reduction(troops: &ArmyTroops, definitions: &Vec<TroopDefinition>) -> (r:
        u128)
        requires
            troops.wf(),
            catalog_wf(definitions@),
        ensures
            r == chief_pressure(*troops, definitions@),
    {
        let table = StatTable::from_catalog(definitions);
        let mut ws: Vec<i32> = Vec::new();
        let mut i: usize = 0;
        while i < TROOP_KINDS
            invariant
                i <= TROOP_KINDS,
                table.matches_catalog(definitions@),
                ws@.len() == i,
                forall|j: int| 0 <= j < i ==> #[trigger] ws@[j] == chief_weights(definitions@)[j],
                forall|j: int| 0 <= j < i ==> #[trigger] ws@[j] >= 0,
            decreases TROOP_KINDS - i,
        {
            assert(table.row_ok(definitions@, i as int));
            let t = TroopType::from_index(i);
            ws.push(if t.is_chief() {
                table.loyalty_reduction[i]
            } else {
                0
            });
            i = i + 1;
        }
        proof {
            assert(ws@.map_values(|w: i32| w as int) =~= chief_weights(definitions@));
        }
        weigh_stats(&troops.counts, &ws)
    }

    /// The battle of a conquest at a village.
    fn conquest_battle(
        army: &mut Army,
        target: &mut Village,
        garrison: &mut Garrison,
        armies: &Vec<Army>,
        home: Option<(i32, i32)>,
        definitions: &Vec<TroopDefinition>,
        report_id: u128,
        now: i64,
    ) -> (r: Result<Option<BattleOutcome>, AppError>)
        requires
            old(army).troops.wf(),
            old(target).wf(),
            old(garrison).wf(),
            armies_wf(armies@),
            catalog_wf(definitions@),
            valid_instant(now as int),
        ensures
            conquer_arrival_is(
                r,
                *old(army),
                *final(army),
                *old(target),
                *final(target),
                *old(garrison),
                *final(garrison),
                armies@,
                home,
                definitions@,
                report_id,
                now,
            ),
    {
        if target.user_id == army.player_id || target.is_capital {
            ArmyService::return_home(army, home, definitions, now);
            return Ok(None);
        }
        let engagement = match ArmyService::engage(
            &army.troops,
            garrison,
            armies,
            definitions,
            MissionType::Attack,
        ) {
            Ok(e) => e,
            Err(e) => {
                return Err(e);
            },
        };
        let stolen = CarriedResources::empty();
        proof {
            lemma_carry_capacity_nonnegative(engagement.battle.attacker_survivors, definitions@);
        }
        let report = write_report(
            report_id,
            army,
            target,
            MissionType::Conquer,
            &engagement,
            stolen,
            now,
        );
        let pressure: u128 = if engagement.battle.attacker_wins {
            ArmyService::calculate_loyalty_reduction(
                &engagement.battle.attacker_survivors,
                definitions,
            )
        } else {
            0
        };
        let mut conquered = false;
        if pressure > 0 {
            if pressure >= target.loyalty as u128 {
                target.update_loyalty(0);
                target.transfer_ownership(army.player_id);
                target.update_loyalty(LOYALTY_AFTER_CONQUEST);
                conquered = true;
            } else {
                let lowered = target.loyalty - pressure as i32;
                target.update_loyalty(lowered);
            }
        }
        let left = engagement.battle.attacker_survivors.total();
        let army_deleted = !(left > 0);
        if !army_deleted {
            let survivors = engagement.battle.attacker_survivors.clone();
            ArmyService::initiate_return(
                army,
                survivors,
                stolen,
                Some(report_id),
                home,
                definitions,
                now,
            );
        }
        Ok(
            Some(
                BattleOutcome {
                    engagement,
                    stolen,
                    loyalty_reduced: pressure,
                    conquered,
                    report,
                    army_deleted,
                },
            ),
        )
    }

    /// The contest of scouts with the garrison of a village.
    fn scouting(
        army: &mut Army,
        target: &Village,
        garrison: &mut Garrison,
        home: Option<(i32, i32)>,
        definitions: &Vec<TroopDefinition>,
        report_id: u128,
        now: i64,
    ) -> (o: ScoutOutcome)
        requires
            old(army).troops.wf(),
            old(garrison).wf(),
            catalog_wf(definitions@),
            valid_instant(now as int),
        ensures
            scout_arrival_is(
                o,
                *old(army),
                *final(army),
                *target,
                *old(garrison),
                *final(garrison),
                home,
                definitions@,
                report_id,
                now,
            ),
    {
        let attacker_power = ArmyService::calculate_scout_power(&army.troops, definitions);
        let defender_power = ArmyService::calculate_scout_power(&garrison.home, definitions);
        let sent = army.troops.total();
        let met = garrison.home.total();
        proof {
            army.troops.lemma_total_bounds();
            garrison.home.lemma_total_bounds();
        }
        let result = ArmyService::resolve_scouting(sent, met, attacker_power, defender_power);
        let seen = garrison.home.clone();
        let home_left = ArmyService::calculate_scout_survivors(
            &garrison.home,
            result.defender_losses,
            met,
        );
        let defender_kills = calculate_survivors(&garrison.home, &home_left);
        let owned_left = calculate_survivors(&garrison.owned, &defender_kills);
        proof {
            assert forall|t: TroopType| #[trigger]
                defender_kills.count(t) == loss_share(
                    garrison.home.count(t),
                    result.defender_losses as int,
                    met as int,
                ) && owned_left.count(t) == garrison.owned.count(t) - defender_kills.count(t)
                    && home_left.count(t) == garrison.home.count(t) - defender_kills.count(t) by {
                assert(home_left.count(t) == garrison.home.count(t) - loss_share(
                    garrison.home.count(t),
                    result.defender_losses as int,
                    met as int,
                ));
                assert(garrison.home.count(t) <= garrison.owned.count(t));
            }
        }
        let report = ScoutReport {
            id: report_id,
            attacker_player_id: army.player_id,
            defender_player_id: Some(target.user_id),
            attacker_village_id: army.from_village_id,
            defender_village_id: Some(target.id),
            scouts_sent: sent,
            defender_scouts: met,
            scouts_lost: result.attacker_losses,
            defender_scouts_lost: result.defender_losses,
            success: result.success,
            scouted_resources: if result.success {
                Some(
                    CarriedResources {
                        wood: target.wood,
                        clay: target.clay,
                        iron: target.iron,
                        crop: target.crop,
                    },
                )
            } else {
                None
            },
            scouted_troops: if result.success {
                Some(seen)
            } else {
                None
            },
            occurred_at: now,
            read_by_attacker: false,
            read_by_defender: false,
            created_at: now,
        };
        garrison.owned = owned_left;
        garrison.home = home_left;
        let survivors = ArmyService::calculate_scout_survivors(
            &army.troops,
            result.attacker_losses,
            sent,
        );
        let fallen = calculate_survivors(&army.troops, &survivors);
        proof {
            assert forall|t: TroopType| #[trigger]
                fallen.count(t) == loss_share(
                    army.troops.count(t),
                    result.attacker_losses as int,
                    sent as int,
                ) by {
                assert(survivors.count(t) == army.troops.count(t) - loss_share(
                    army.troops.count(t),
                    result.attacker_losses as int,
                    sent as int,
                ));
            }
            lemma_carry_capacity_nonnegative(survivors, definitions@);
        }
        let army_deleted = survivors.total() == 0;
        if !army_deleted {
            let going = survivors.clone();
            ArmyService::initiate_return(
                army,
                going,
                CarriedResources::empty(),
                None,
                home,
                definitions,
                now,
            );
        }
        ScoutOutcome { result, defender_kills, fallen, survivors, report, army_deleted }
    }
}

/// The army goes home as it came: with all its troops and with nothing.
pub open spec fn turned_home(
    a0: Army,
    a1: Army,
    home: Option<(i32, i32)>,
    defs: Seq<TroopDefinition>,
    now: i64,
) -> bool {
    returning_as(
        a0,
        a1,
        a0.troops,
        CarriedResources { wood: 0, clay: 0, iron: 0, crop: 0 },
        None,
        home,
        defs,
        now as int,
    )
}

impl ArmyService {
    /// A raid or an attack arrives. Where no village lies at its target, the
    /// army goes home as it came, and nothing else happens. Else the battle
    /// is fought, the defenders' losses fall on the garrison and on the
    /// stationed armies, a winner takes what it can carry, and what is left
    /// of the army turns round. What the army lost is owed to its village:
    /// see `settle_fallen`.
    pub fn handle_hostile_arrival(
        army: &mut Army,
        target: &mut Option<Defence>,
        home: Option<(i32, i32)>,
        definitions: &Vec<TroopDefinition>,
        report_id: u128,
        now: i64,
    ) -> (r: Result<Option<BattleOutcome>, AppError>)
        requires
            old(army).troops.wf(),
            *old(target) matches Some(d) ==> d.wf(),
            catalog_wf(definitions@),
            valid_instant(now as int),
        ensures
            match *old(target) {
                None => {
                    &&& r matches Ok(None)
                    &&& final(target).is_none()
                    &&& turned_home(*old(army), *final(army), home, definitions@, now)
                    &&& (old(army).wf() && !old(army).is_stationed) ==> final(army).wf()
                },
                Some(d0) => *final(target) matches Some(d1) && d1.armies == d0.armies && match r {
                    Ok(Some(o)) => hostile_arrival_is(
                        Ok(o),
                        *old(army),
                        *final(army),
                        d0.village,
                        d1.village,
                        d0.garrison,
                        d1.garrison,
                        d0.armies@,
                        home,
                        definitions@,
                        report_id,
                        now,
                    ),
                    Ok(None) => false,
                    Err(e) => hostile_arrival_is(
                        Err(e),
                        *old(army),
                        *final(army),
                        d0.village,
                        d1.village,
                        d0.garrison,
                        d1.garrison,
                        d0.armies@,
                        home,
                        definitions@,
                        report_id,
                        now,
                    ),
                },
            },
    {
        match target {
            None => {
                ArmyService::return_home(army, home, definitions, now);
                Ok(None)
            },
            Some(d) => {
                match ArmyService::hostile_battle(
                    army,
                    &mut d.village,
                    &mut d.garrison,
                    &d.armies,
                    home,
                    definitions,
                    report_id,
                    now,
                ) {
                    Ok(o) => Ok(Some(o)),
                    Err(e) => Err(e),
                }
            },
        }
    }

    /// A conquest arrives. Where no village lies at its target, or the
    /// village is the army's own player's or a capital, the army goes home
    /// as it came, and nothing else happens. Else the battle is fought as an
    /// attack; the chiefs that are left of a winner lower the loyalty of the
    /// village, and at loyalty 0 the village changes hands. Nothing is taken
    /// from the stores. What the army lost is owed to its village: see
    /// `settle_fallen`.
    pub fn handle_conquer_arrival(
        army: &mut Army,
        target: &mut Option<Defence>,
        home: Option<(i32, i32)>,
        definitions: &Vec<TroopDefinition>,
        report_id: u128,
        now: i64,
    ) -> (r: Result<Option<BattleOutcome>, AppError>)
        requires
            old(army).troops.wf(),
            *old(target) matches Some(d) ==> d.wf(),
            catalog_wf(definitions@),
            valid_instant(now as int),
        ensures
            match *old(target) {
                None => {
                    &&& r matches Ok(None)
                    &&& final(target).is_none()
                    &&& turned_home(*old(army), *final(army), home, definitions@, now)
                    &&& (old(army).wf() && !old(army).is_stationed) ==> final(army).wf()
                },
                Some(d0) => *final(target) matches Some(d1) && d1.armies == d0.armies
                    && conquer_arrival_is(
                    r,
                    *old(army),
                    *final(army),
                    d0.village,
                    d1.village,
                    d0.garrison,
                    d1.garrison,
                    d0.armies@,
                    home,
                    definitions@,
                    report_id,
                    now,
                ),
            },
    {
        match target {
            None => {
                ArmyService::return_home(army, home, definitions, now);
                Ok(None)
            },
            Some(d) => ArmyService::conquest_battle(
                army,
                &mut d.village,
                &mut d.garrison,
                &d.armies,
                home,
                definitions,
                report_id,
                now,
            ),
        }
    }

    /// Scouts arrive. Where no village lies at their target, they go home as
    /// they came, and nothing else happens. Else they measure themselves
    /// against the garrison, both sides lose scouts, a report is written, and
    /// the scouts that are left go home. The stationed armies take no part.
    /// What the scouts lost is owed to their village: see `settle_fallen`.
    pub fn handle_scout_arrival(
        army: &mut Army,
        target: &mut Option<Defence>,
        home: Option<(i32, i32)>,
        definitions: &Vec<TroopDefinition>,
        report_id: u128,
        now: i64,
    ) -> (r: Option<ScoutOutcome>)
        requires
            old(army).troops.wf(),
            *old(target) matches Some(d) ==> d.wf(),
            catalog_wf(definitions@),
            valid_instant(now as int),
        ensures
            match *old(target) {
                None => {
                    &&& r.is_none()
                    &&& final(target).is_none()
                    &&& turned_home(*old(army), *final(army), home, definitions@, now)
                    &&& (old(army).wf() && !old(army).is_stationed) ==> final(army).wf()
                },
                Some(d0) => *final(target) matches Some(d1) && d1.armies == d0.armies && d1.village
                    == d0.village && (r matches Some(o) && scout_arrival_is(
                    o,
                    *old(army),
                    *final(army),
                    d0.village,
                    d0.garrison,
                    d1.garrison,
                    home,
                    definitions@,
                    report_id,
                    now,
                )),
            },
    {
        match target {
            None => {
                ArmyService::return_home(army, home, definitions, now);
                None
            },
            Some(d) => Some(
                ArmyService::scouting(
                    army,
                    &d.village,
                    &mut d.garrison,
                    home,
                    definitions,
                    report_id,
                    now,
                ),
            ),
        }
    }
}

} // verus!
