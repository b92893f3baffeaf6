//! Dispatch of armies and what happens when they arrive.

use vstd::prelude::*;
use crate::error::AppError;
use crate::models::army::{Army, ArmyTroops, CarriedResources, MissionType};
use crate::models::troop::{catalog_wf, Garrison, TroopDefinition, TroopType, TROOP_KINDS};
use crate::models::village::Village;
use crate::numeric::min_int;
use crate::services::movement::{
    distance_squared, lemma_carry_capacity_nonnegative, load_fits, slowest_speed, travel_seconds,
    valid_instant,
};
use crate::services::ownership::ensure_owner;

verus! {

/// The movement and combat engine.
pub struct ArmyService;

/// What the arrival of an army calls for.
#[derive(Debug, Clone, Copy, PartialEq, Eq, Structural)]
pub enum ArrivalAction {
    /// The army is back: its troops and its loot go to its village.
    ComeHome,
    /// A raid or an attack: a battle.
    Fight,
    /// A scouting.
    Scout,
    /// Reinforcements: they are stationed.
    Station,
    /// A conquest: a battle for the loyalty of the village.
    Conquer,
    /// Nothing is done for this mission.
    Ignore,
}

/// What the arrival of an army calls for, by its state and mission.
pub open spec fn arrival_action_of(is_returning: bool, mission: MissionType) -> ArrivalAction {
    if is_returning {
        ArrivalAction::ComeHome
    } else {
        match mission {
            MissionType::Raid | MissionType::Attack => ArrivalAction::Fight,
            MissionType::Scout => ArrivalAction::Scout,
            MissionType::Support => ArrivalAction::Station,
            MissionType::Conquer => ArrivalAction::Conquer,
            MissionType::Settle => ArrivalAction::Ignore,
        }
    }
}

/// Where the army's village lies; the origin where the village is gone.
pub open spec fn home_place(home: Option<(i32, i32)>) -> (int, int) {
    match home {
        Some(p) => (p.0 as int, p.1 as int),
        None => (0, 0),
    }
}

/// The instant at which troops that leave the army's target at `now` are
/// back home.
pub open spec fn back_home_at(
    army: Army,
    troops: ArmyTroops,
    home: Option<(i32, i32)>,
    defs: Seq<TroopDefinition>,
    now: int,
) -> int {
    let place = home_place(home);
    now + 1000 * travel_seconds(
        distance_squared(army.to_x as int, army.to_y as int, place.0, place.1),
        slowest_speed(troops, defs),
    )
}

/// `after` is `before` on its way home since `now`, with the given troops,
/// load and report.
pub open spec fn returning_as(
    before: Army,
    after: Army,
    troops: ArmyTroops,
    resources: CarriedResources,
    battle_report_id: Option<u128>,
    home: Option<(i32, i32)>,
    defs: Seq<TroopDefinition>,
    now: int,
) -> bool {
    &&& after.same_journey(&before)
    &&& after.is_returning
    &&& after.is_stationed == before.is_stationed
    &&& after.troops.counts@ == troops.counts@
    &&& after.resources == resources
    &&& after.battle_report_id == battle_report_id
    &&& after.arrives_at == back_home_at(before, troops, home, defs, now)
    &&& after.returns_at == Some(after.arrives_at)
}

/// An army is due where its journey is over and it is not stationed.
pub open spec fn is_due(army: Army, now: i64) -> bool {
    army.arrives_at <= now && !army.is_stationed
}

/// Of some kind more troops fell than the village has away.
pub open spec fn fallen_exceed_away(garrison: Garrison, fallen: ArmyTroops) -> bool {
    exists|t: TroopType| #[trigger] fallen.count(t) > garrison.away(t)
}

/// Some kind of the army does not fit into what the village has away.
pub open spec fn return_overflows(garrison: Garrison, troops: ArmyTroops) -> bool {
    exists|t: TroopType| #[trigger] garrison.home.count(t) + troops.count(t) > garrison.owned.count(t)
}

impl ArmyService {
    /// Whether the arrival of an army is to be handled at `now`.
    pub fn has_arrived(army: &Army, now: i64) -> (r: bool)
        ensures
            r == is_due(*army, now),
    {
        army.arrives_at <= now && !army.is_stationed
    }

    /// Which handler the arrival of an army calls for.
    pub fn arrival_action(army: &Army) -> (r: ArrivalAction)
        ensures
            r == arrival_action_of(army.is_returning, army.mission),
    {
        if army.is_returning {
            ArrivalAction::ComeHome
        } else {
            match army.mission {
                MissionType::Raid | MissionType::Attack => ArrivalAction::Fight,
                MissionType::Scout => ArrivalAction::Scout,
                MissionType::Support => ArrivalAction::Station,
                MissionType::Conquer => ArrivalAction::Conquer,
                MissionType::Settle => ArrivalAction::Ignore,
            }
        }
    }

    /// Turns an army round: from `now` on it travels home with the troops
    /// that are left, at the speed of the slowest of them.
    pub fn initiate_return(
        army: &mut Army,
        survivors: ArmyTroops,
        resources: CarriedResources,
        battle_report_id: Option<u128>,
        home: Option<(i32, i32)>,
        definitions: &Vec<TroopDefinition>,
        now: i64,
    )
        requires
            survivors.wf(),
            catalog_wf(definitions@),
            valid_instant(now as int),
        ensures
            returning_as(
                *old(army),
                *final(army),
                survivors,
                resources,
                battle_report_id,
                home,
                definitions@,
                now as int,
            ),
            (survivors.spec_total() > 0 && resources.wf() && !old(army).is_stationed) ==> final(army).wf(),
    {
        let (hx, hy) = match home {
            Some(p) => p,
            None => (0, 0),
        };
        let d2 = ArmyService::calculate_distance_squared(army.to_x, army.to_y, hx, hy);
        let seconds = ArmyService::calculate_travel_time(d2, &survivors, definitions);
        army.is_returning = true;
        army.arrives_at = now + seconds * 1000;
        army.returns_at = Some(now + seconds * 1000);
        army.resources = resources;
        army.troops = survivors;
        army.battle_report_id = battle_report_id;
    }

    /// Sends an army home as it came: nothing was fought and nothing taken.
    pub fn return_home(
        army: &mut Army,
        home: Option<(i32, i32)>,
        definitions: &Vec<TroopDefinition>,
        now: i64,
    )
        requires
            old(army).troops.wf(),
            catalog_wf(definitions@),
            valid_instant(now as int),
        ensures
            returning_as(
                *old(army),
                *final(army),
                old(army).troops,
                CarriedResources { wood: 0, clay: 0, iron: 0, crop: 0 },
                None,
                home,
                definitions@,
                now as int,
            ),
            (old(army).wf() && !old(army).is_stationed) ==> final(army).wf(),
            load_fits(*final(army), definitions@),
    {
        let troops = army.troops.clone();
        proof {
            assert(troops.spec_total() == old(army).troops.spec_total());
            lemma_carry_capacity_nonnegative(army.troops, definitions@);
        }
        ArmyService::initiate_return(
            army,
            troops,
            CarriedResources::empty(),
            None,
            home,
            definitions,
            now,
        );
    }

    /// Reinforcements arrive. Where a village lies at their target, they are
    /// stationed in it and defend it from now on. Where none does, they go
    /// home as they came. Nothing else changes in either case.
    pub fn handle_support_arrival(
        army: &mut Army,
        target_exists: bool,
        home: Option<(i32, i32)>,
        definitions: &Vec<TroopDefinition>,
        now: i64,
    )
        requires
            old(army).troops.wf(),
            catalog_wf(definitions@),
            valid_instant(now as int),
        ensures
            target_exists ==> *final(army) == (Army { is_stationed: true, ..*old(army) }),
            !target_exists ==> returning_as(
                *old(army),
                *final(army),
                old(army).troops,
                CarriedResources { wood: 0, clay: 0, iron: 0, crop: 0 },
                None,
                home,
                definitions@,
                now as int,
            ),
            (old(army).wf() && !old(army).is_returning && !old(army).is_stationed) ==> final(army).wf(),
    {
        if target_exists {
            army.is_stationed = true;
        } else {
            ArmyService::return_home(army, home, definitions, now);
        }
    }

    /// Calls stationed reinforcements back home.
    pub fn recall_support(
        army: &mut Army,
        player_id: u128,
        home: Option<(i32, i32)>,
        definitions: &Vec<TroopDefinition>,
        now: i64,
    ) -> (r: Result<(), AppError>)
        requires
            old(army).troops.wf(),
            catalog_wf(definitions@),
            valid_instant(now as int),
        ensures
            r.is_ok() <==> (old(army).player_id == player_id && old(army).is_stationed
                && home.is_some()),
            r matches Err(e) ==> {
                &&& *final(army) == *old(army)
                &&& if old(army).player_id != player_id {
                    e == AppError::Forbidden
                } else if !old(army).is_stationed {
                    e.is_bad_request("Army is not stationed"@)
                } else {
                    e.is_not_found("Home village not found"@)
                }
            },
            r.is_ok() ==> {
                &&& final(army).same_journey(old(army))
                &&& final(army).is_returning
                &&& !final(army).is_stationed
                &&& final(army).troops == old(army).troops
                &&& final(army).resources == old(army).resources
                &&& final(army).battle_report_id == old(army).battle_report_id
                &&& final(army).returns_at == old(army).returns_at
                &&& final(army).arrives_at == back_home_at(
                    *old(army),
                    old(army).troops,
                    home,
                    definitions@,
                    now as int,
                )
                &&& (old(army).wf() ==> final(army).wf())
            },
    {
        match ensure_owner(army.player_id, player_id) {
            Err(e) => {
                return Err(e);
            },
            Ok(_) => {},
        }
        if !army.is_stationed {
            return Err(AppError::bad_request("Army is not stationed"));
        }
        let (hx, hy) = match home {
            Some(p) => p,
            None => {
                return Err(AppError::not_found("Home village not found"));
            },
        };
        let d2 = ArmyService::calculate_distance_squared(army.to_x, army.to_y, hx, hy);
        let seconds = ArmyService::calculate_travel_time(d2, &army.troops, definitions);
        army.is_stationed = false;
        army.is_returning = true;
        army.arrives_at = now + seconds * 1000;
        Ok(())
    }

    /// Takes the troops that an army lost out of what its village owns.
    /// Every battle and every scouting owes this to the village of each army
    /// that lost troops: the fallen are neither at home nor on a mission.
    pub fn settle_fallen(garrison: &mut Garrison, fallen: &ArmyTroops) -> (r: Result<(), AppError>)
        requires
            old(garrison).wf(),
            fallen.wf(),
        ensures
            r.is_err() <==> fallen_exceed_away(*old(garrison), *fallen),
            r matches Err(e) ==> e == AppError::InternalError && *final(garrison) == *old(garrison),
            r.is_ok() ==> {
                &&& final(garrison).wf()
                &&& forall|t: TroopType|
                    #[trigger] final(garrison).owned.count(t) == old(garrison).owned.count(t)
                        - fallen.count(t)
                &&& forall|t: TroopType|
                    #[trigger] final(garrison).home.count(t) == old(garrison).home.count(t)
                &&& forall|t: TroopType|
                    #[trigger] final(garrison).away(t) == old(garrison).away(t) - fallen.count(t)
            },
    {
        let mut owned: Vec<i32> = Vec::new();
        let mut i: usize = 0;
        while i < TROOP_KINDS
            invariant
                fallen.wf(),
                garrison.wf(),
                *garrison == *old(garrison),
                i <= TROOP_KINDS,
                owned@.len() == i,
                forall|j: int|
                    0 <= j < i ==> #[trigger] owned@[j] == garrison.owned.counts@[j]
                        - fallen.counts@[j] && owned@[j] >= garrison.home.counts@[j],
            decreases TROOP_KINDS - i,
        {
            proof {
                TroopType::lemma_ordinal_at();
                assert(garrison.home.count(TroopType::at(i as int)) <= garrison.owned.count(
                    TroopType::at(i as int),
                ));
            }
            let away = garrison.owned.counts[i] - garrison.home.counts[i];
            if fallen.counts[i] > away {
                proof {
                    let t = TroopType::at(i as int);
                    assert(fallen.count(t) > garrison.away(t));
                }
                return Err(AppError::InternalError);
            }
            owned.push(garrison.owned.counts[i] - fallen.counts[i]);
            i = i + 1;
        }
        proof {
            TroopType::lemma_ordinal_at();
            assert forall|t: TroopType| #[trigger] fallen.count(t) <= garrison.away(t) by {
                assert(owned@[t.ordinal()] >= garrison.home.counts@[t.ordinal()]);
            }
        }
        garrison.owned = ArmyTroops { counts: owned };
        proof {
            assert forall|t: TroopType| #[trigger]
                garrison.owned.count(t) == old(garrison).owned.count(t) - fallen.count(t) by {
                assert(owned@[t.ordinal()] == old(garrison).owned.counts@[t.ordinal()]
                    - fallen.counts@[t.ordinal()]);
            }
        }
        Ok(())
    }

    /// An army is back: its troops are at home again and what it carries
    /// goes into the stores, as far as they hold it. The army is no more.
    pub fn handle_returning_army(army: &Army, garrison: &mut Garrison, village: &mut Village) -> (r:
        Result<(), AppError>)
        requires
            army.troops.wf(),
            army.resources.wf(),
            old(garrison).wf(),
        ensures
            r.is_err() <==> return_overflows(*old(garrison), army.troops),
            r matches Err(e) ==> e == AppError::InternalError && *final(garrison) == *old(garrison)
                && *final(village) == *old(village),
            r.is_ok() ==> {
                &&& final(garrison).wf()
                &&& forall|t: TroopType|
                    #[trigger] final(garrison).home.count(t) == old(garrison).home.count(t)
                        + army.troops.count(t)
                &&& forall|t: TroopType|
                    #[trigger] final(garrison).owned.count(t) == old(garrison).owned.count(t)
                &&& final(village).same_but_resources(old(village))
                &&& final(village).resources_updated_at == old(village).resources_updated_at
                &&& final(village).wood == min_int(
                    old(village).wood + army.resources.wood,
                    old(village).warehouse_capacity as int,
                )
                &&& final(village).clay == min_int(
                    old(village).clay + army.resources.clay,
                    old(village).warehouse_capacity as int,
                )
                &&& final(village).iron == min_int(
                    old(village).iron + army.resources.iron,
                    old(village).warehouse_capacity as int,
                )
                &&& final(village).crop == min_int(
                    old(village).crop + army.resources.crop,
                    old(village).granary_capacity as int,
                )
                &&& (old(village).wf() ==> final(village).wf())
            },
    {
        let mut home: Vec<i32> = Vec::new();
        let mut i: usize = 0;
        while i < TROOP_KINDS
            invariant
                army.troops.wf(),
                garrison.wf(),
                *garrison == *old(garrison),
                i <= TROOP_KINDS,
                home@.len() == i,
                forall|j: int|
                    0 <= j < i ==> #[trigger] home@[j] == garrison.home.counts@[j]
                        + army.troops.counts@[j] && home@[j] <= garrison.owned.counts@[j],
            decreases TROOP_KINDS - i,
        {
            let sum: i64 = garrison.home.counts[i] as i64 + army.troops.counts[i] as i64;
            if sum > garrison.owned.counts[i] as i64 {
                proof {
                    TroopType::lemma_ordinal_at();
                    let t = TroopType::at(i as int);
                    assert(garrison.home.count(t) + army.troops.count(t) > garrison.owned.count(t));
                }
                return Err(AppError::InternalError);
            }
            home.push(sum as i32);
            i = i + 1;
        }
        proof {
            TroopType::lemma_ordinal_at();
            assert forall|t: TroopType| #[trigger]
                garrison.home.count(t) + army.troops.count(t) <= garrison.owned.count(t) by {
                assert(home@[t.ordinal()] <= garrison.owned.counts@[t.ordinal()]);
            }
        }
        garrison.home = ArmyTroops { counts: home };
        village.add_resources(
            army.resources.wood,
            army.resources.clay,
            army.resources.iron,
            army.resources.crop,
        );
        proof {
            assert forall|t: TroopType| #[trigger]
                garrison.home.count(t) == old(garrison).home.count(t) + army.troops.count(t) by {
                assert(home@[t.ordinal()] == old(garrison).home.counts@[t.ordinal()]
                    + army.troops.counts@[t.ordinal()]);
            }
        }
        Ok(())
    }
}

} // verus!
