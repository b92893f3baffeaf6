//! Sending an army: what is asked of a request, and the army that leaves.

use vstd::prelude::*;
use crate::error::AppError;
use crate::models::army::{Army, ArmyTroops, MissionType, SendArmyRequest};
use crate::models::troop::{catalog_wf, Garrison, TroopDefinition, TroopType, TROOP_KINDS};
use crate::models::village::Village;
use crate::services::army_service::ArmyService;
use crate::services::ownership::ensure_owner;
use crate::models::village::deducted;
use crate::services::movement::{
    carry_capacity, distance_squared, load_fits, slowest_speed, travel_seconds, valid_instant,
};
use crate::text::{decimal, push_decimal};

verus! {

/// Why a dispatch is refused. Where several reasons hold, the first in this
/// order is the one that is reported.
#[derive(Debug, Clone, Copy, PartialEq, Eq, Structural)]
pub enum Refusal {
    /// Settling is not offered.
    UnsupportedMission,
    /// A conquest without a chief.
    NoChief,
    /// The village is not the sender's.
    NotOwner,
    /// A count below zero.
    NegativeCount,
    /// More troops of a kind than are at home.
    NotEnoughTroops,
    /// No troops at all.
    NoTroops,
    /// A hostile mission against a village of the sender.
    OwnVillage,
    /// Reinforcements for a place without a village.
    NoTarget,
    /// A load below zero.
    NegativeLoad,
    /// A load that the troops cannot carry.
    LoadTooHeavy,
    /// A load that the village does not have.
    LoadNotAtHand,
}

pub open spec fn has_chief(counts: Seq<i32>) -> bool {
    exists|t: TroopType| t.spec_is_chief() && #[trigger] counts[t.ordinal()] > 0
}

pub open spec fn has_negative(counts: Seq<i32>) -> bool {
    exists|i: int| 0 <= i < TROOP_KINDS && #[trigger] counts[i] < 0
}

/// Position of the first of the first `n` kinds of which more troops are
/// asked for than are at home.
pub open spec fn first_short(counts: Seq<i32>, home: Seq<i32>, n: int) -> Option<int>
    decreases n,
{
    if n <= 0 {
        None
    } else {
        match first_short(counts, home, n - 1) {
            Some(i) => Some(i),
            None => if counts[n - 1] > home[n - 1] {
                Some(n - 1)
            } else {
                None
            },
        }
    }
}

/// The first kind, in canonical order, that the village is short of.
pub open spec fn shortage(counts: Seq<i32>, home: Seq<i32>) -> Option<int> {
    first_short(counts, home, TROOP_KINDS as int)
}

/// What the sender is told about a kind that the village is short of.
pub open spec fn shortage_text(t: TroopType, have: int, need: int) -> Seq<char> {
    "Not enough "@ + t.spec_name() + ": have "@ + decimal(have as nat) + ", need "@ + decimal(
        need as nat,
    )
}

pub proof fn lemma_first_short_stays(counts: Seq<i32>, home: Seq<i32>, n: int, m: int)
    requires
        0 <= n <= m,
        first_short(counts, home, n).is_some(),
    ensures
        first_short(counts, home, m) == first_short(counts, home, n),
    decreases m - n,
{
    if n < m {
        lemma_first_short_stays(counts, home, n, m - 1);
    }
}

/// The first reason to refuse a dispatch, if there is any.
pub open spec fn refusal(
    player_id: u128,
    from_village: Village,
    garrison: Garrison,
    target: Option<&Village>,
    request: SendArmyRequest,
    defs: Seq<TroopDefinition>,
) -> Option<Refusal> {
    let counts = request.troops.counts@;
    if request.mission == MissionType::Settle {
        Some(Refusal::UnsupportedMission)
    } else if request.mission == MissionType::Conquer && !has_chief(counts) {
        Some(Refusal::NoChief)
    } else if from_village.user_id != player_id {
        Some(Refusal::NotOwner)
    } else if has_negative(counts) {
        Some(Refusal::NegativeCount)
    } else if shortage(counts, garrison.home.counts@).is_some() {
        Some(Refusal::NotEnoughTroops)
    } else if request.troops.spec_total() <= 0 {
        Some(Refusal::NoTroops)
    } else if target matches Some(v) && v.user_id == player_id && request.mission.spec_is_hostile() {
        Some(Refusal::OwnVillage)
    } else if request.mission == MissionType::Support && target.is_none() {
        Some(Refusal::NoTarget)
    } else if !request.resources.wf() {
        Some(Refusal::NegativeLoad)
    } else if request.resources.spec_total() > carry_capacity(request.troops, defs) {
        Some(Refusal::LoadTooHeavy)
    } else if !from_village.can_afford(
        request.resources.wood as int,
        request.resources.clay as int,
        request.resources.iron as int,
        request.resources.crop as int,
    ) {
        Some(Refusal::LoadNotAtHand)
    } else {
        None
    }
}

/// The error that reports a refusal.
pub open spec fn reports(
    e: AppError,
    why: Refusal,
    garrison: Garrison,
    request: SendArmyRequest,
) -> bool {
    match why {
        Refusal::UnsupportedMission => e.is_bad_request(
            "Only Raid, Attack, Scout, Support, and Conquer missions are currently supported"@,
        ),
        Refusal::NoChief => e.is_bad_request(
            "Conquer mission requires at least one Chief unit (Royal Advisor, Harbor Master, or Elder Chief)"@,
        ),
        Refusal::NotOwner => e == AppError::Forbidden,
        Refusal::NegativeCount => e.is_bad_request("Troop counts must be positive"@),
        Refusal::NotEnoughTroops => {
            let i = shortage(request.troops.counts@, garrison.home.counts@).unwrap();
            e.is_bad_request(
                shortage_text(
                    TroopType::at(i),
                    garrison.home.counts@[i] as int,
                    request.troops.counts@[i] as int,
                ),
            )
        },
        Refusal::NoTroops => e.is_bad_request("Must send at least one troop"@),
        Refusal::OwnVillage => e.is_bad_request("Cannot attack your own village"@),
        Refusal::NoTarget => e.is_bad_request("Support mission requires a target village"@),
        Refusal::NegativeLoad => e.is_bad_request("Carried resources must not be negative"@),
        Refusal::LoadTooHeavy => e.is_bad_request("Troops cannot carry that much"@),
        Refusal::LoadNotAtHand => e.is_bad_request("Not enough resources"@),
    }
}

/// Seconds from a village to the place that a request names, for the troops
/// of the request.
pub open spec fn journey_seconds(
    from_village: Village,
    request: SendArmyRequest,
    defs: Seq<TroopDefinition>,
) -> int {
    travel_seconds(
        distance_squared(
            from_village.x as int,
            from_village.y as int,
            request.to_x as int,
            request.to_y as int,
        ),
        slowest_speed(request.troops, defs),
    )
}

/// The army that leaves on a request at `now`.
pub open spec fn dispatched(
    army: Army,
    army_id: u128,
    player_id: u128,
    from_village: Village,
    target: Option<&Village>,
    request: SendArmyRequest,
    defs: Seq<TroopDefinition>,
    now: i64,
) -> bool {
    let seconds = journey_seconds(from_village, request, defs);
    &&& army.id == army_id
    &&& army.player_id == player_id
    &&& army.from_village_id == from_village.id
    &&& army.to_x == request.to_x
    &&& army.to_y == request.to_y
    &&& army.to_village_id == match target {
        Some(v) => Some(v.id),
        None => None,
    }
    &&& army.mission == request.mission
    &&& army.troops.counts@ == request.troops.counts@
    &&& army.resources == request.resources
    &&& army.departed_at == now
    &&& army.arrives_at == now + 1000 * seconds
    &&& army.returns_at == if request.mission.spec_returns() {
        Some((now + 2000 * seconds) as i64)
    } else {
        None
    }
    &&& !army.is_returning
    &&& !army.is_stationed
    &&& army.battle_report_id.is_none()
    &&& army.created_at == now
}

/// The table of the first `n` entries of a request: the count of each kind
/// that is named, nothing for the others. Of a kind that is named twice the
/// later count stands.
pub open spec fn table_of(entries: Seq<(TroopType, i32)>, n: int) -> Seq<i32>
    decreases n,
{
    if n <= 0 {
        Seq::new(TROOP_KINDS as nat, |i: int| 0i32)
    } else {
        table_of(entries, n - 1).update(entries[n - 1].0.ordinal(), entries[n - 1].1)
    }
}

/// Some entry of a request names no troops, or fewer.
pub open spec fn has_empty_entry(entries: Seq<(TroopType, i32)>) -> bool {
    exists|i: int| 0 <= i < entries.len() && (#[trigger] entries[i]).1 <= 0
}

fn any_chief(counts: &Vec<i32>) -> (r: bool)
    requires
        counts@.len() == TROOP_KINDS,
    ensures
        r == has_chief(counts@),
{
    let r = counts[TroopType::RoyalAdvisor.index()] > 0 || counts[TroopType::HarborMaster.index()]
        > 0 || counts[TroopType::ElderChief.index()] > 0;
    proof {
        if r {
            if counts@[16] > 0 {
                assert(TroopType::RoyalAdvisor.spec_is_chief() && counts@[TroopType::RoyalAdvisor.ordinal()] > 0);
            } else if counts@[17] > 0 {
                assert(TroopType::HarborMaster.spec_is_chief() && counts@[TroopType::HarborMaster.ordinal()] > 0);
            } else {
                assert(TroopType::ElderChief.spec_is_chief() && counts@[TroopType::ElderChief.ordinal()] > 0);
            }
        }
    }
    r
}

fn any_negative(counts: &Vec<i32>) -> (r: bool)
    requires
        counts@.len() == TROOP_KINDS,
    ensures
        r == has_negative(counts@),
{
    let mut i: usize = 0;
    while i < TROOP_KINDS
        invariant
            i <= TROOP_KINDS,
            counts@.len() == TROOP_KINDS,
            forall|j: int| 0 <= j < i ==> counts@[j] >= 0,
        decreases TROOP_KINDS - i,
    {
        if counts[i] < 0 {
            return true;
        }
        i = i + 1;
    }
    false
}

fn find_shortage(counts: &Vec<i32>, home: &Vec<i32>) -> (r: Option<usize>)
    requires
        counts@.len() == TROOP_KINDS,
        home@.len() == TROOP_KINDS,
    ensures
        match r {
            Some(i) => shortage(counts@, home@) == Some(i as int) && i < TROOP_KINDS && counts@[i as int]
                > home@[i as int],
            None => shortage(counts@, home@).is_none() && forall|j: int|
                0 <= j < TROOP_KINDS ==> counts@[j] <= home@[j],
        },
{
    let mut i: usize = 0;
    while i < TROOP_KINDS
        invariant
            i <= TROOP_KINDS,
            counts@.len() == TROOP_KINDS,
            home@.len() == TROOP_KINDS,
            first_short(counts@, home@, i as int).is_none(),
            forall|j: int| 0 <= j < i ==> counts@[j] <= home@[j],
        decreases TROOP_KINDS - i,
    {
        if counts[i] > home[i] {
            proof {
                lemma_first_short_stays(counts@, home@, i as int + 1, TROOP_KINDS as int);
            }
            return Some(i);
        }
        i = i + 1;
    }
    None
}

fn shortage_message(t: TroopType, have: i32, need: i32) -> (r: String)
    requires
        have >= 0,
        need >= 0,
    ensures
        r@ == shortage_text(t, have as int, need as int),
{
    let mut s = "Not enough ".to_owned();
    s.push_str(t.name());
    s.push_str(": have ");
    push_decimal(&mut s, have as u64);
    s.push_str(", need ");
    push_decimal(&mut s, need as u64);
    s
}

impl ArmyService {
    /// Reads the troops of a request as they come over the wire, kind by
    /// kind. Every entry must name at least one troop.
    pub fn request_troops(entries: &Vec<(TroopType, i32)>) -> (r: Result<ArmyTroops, AppError>)
        ensures
            r.is_err() <==> has_empty_entry(entries@),
            r matches Err(e) ==> e.is_bad_request("Troop counts must be positive"@),
            r matches Ok(t) ==> t.wf() && t.counts@ == table_of(entries@, entries@.len() as int),
    {
        let mut t = ArmyTroops::new();
        proof {
            TroopType::lemma_ordinal_at();
            assert forall|i: int| 0 <= i < TROOP_KINDS implies t.counts@[i] == 0 by {
                assert(t.count(TroopType::at(i)) == 0);
            }
            assert(t.counts@ =~= table_of(entries@, 0));
        }
        let mut i: usize = 0;
        while i < entries.len()
            invariant
                i <= entries.len(),
                t.wf(),
                t.counts@ == table_of(entries@, i as int),
                forall|j: int| 0 <= j < i ==> (#[trigger] entries@[j]).1 > 0,
            decreases entries.len() - i,
        {
            let (kind, n) = entries[i];
            if n <= 0 {
                return Err(AppError::bad_request("Troop counts must be positive"));
            }
            t.counts.set(kind.index(), n);
            i = i + 1;
        }
        Ok(t)
    }

    /// Sends an army from a village to a place on the map. The troops leave
    /// the garrison, what they carry leaves the stores, and the army is on
    /// its way from `now`. It carries no more than its troops can carry.
    pub fn send_army(
        player_id: u128,
        from_village: &mut Village,
        garrison: &mut Garrison,
        target: Option<&Village>,
        definitions: &Vec<TroopDefinition>,
        request: SendArmyRequest,
        army_id: u128,
        now: i64,
    ) -> (r: Result<Army, AppError>)
        requires
            old(garrison).wf(),
            request.troops.counts@.len() == TROOP_KINDS,
            catalog_wf(definitions@),
            valid_instant(now as int),
        ensures
            match refusal(
                player_id,
                *old(from_village),
                *old(garrison),
                target,
                request,
                definitions@,
            ) {
                Some(why) => r matches Err(e) && reports(e, why, *old(garrison), request)
                    && *final(garrison) == *old(garrison) && *final(from_village) == *old(from_village),
                None => r matches Ok(army) && {
                    &&& dispatched(
                        army,
                        army_id,
                        player_id,
                        *old(from_village),
                        target,
                        request,
                        definitions@,
                        now,
                    )
                    &&& army.wf()
                    &&& load_fits(army, definitions@)
                    &&& deducted(
                        *old(from_village),
                        *final(from_village),
                        request.resources.wood as int,
                        request.resources.clay as int,
                        request.resources.iron as int,
                        request.resources.crop as int,
                    )
                    &&& (old(from_village).wf() ==> final(from_village).wf())
                    &&& final(garrison).wf()
                    &&& forall|t: TroopType|
                        #[trigger] final(garrison).home.count(t) == old(garrison).home.count(t)
                            - request.troops.count(t)
                    &&& forall|t: TroopType|
                        #[trigger] final(garrison).owned.count(t) == old(garrison).owned.count(t)
                    // troops are moved, not made: those at home and those on the way
                    // are together what was at home
                    &&& forall|t: TroopType|
                        final(garrison).home.count(t) + #[trigger] army.troops.count(t) == old(garrison).home.count(t)
                },
            },
    {
        if !matches!(
            request.mission,
            MissionType::Raid
                | MissionType::Attack
                | MissionType::Scout
                | MissionType::Support
                | MissionType::Conquer
        ) {
            return Err(
                AppError::bad_request(
                    "Only Raid, Attack, Scout, Support, and Conquer missions are currently supported",
                ),
            );
        }
        if request.mission == MissionType::Conquer && !any_chief(&request.troops.counts) {
            return Err(
                AppError::bad_request(
                    "Conquer mission requires at least one Chief unit (Royal Advisor, Harbor Master, or Elder Chief)",
                ),
            );
        }
        match ensure_owner(from_village.user_id, player_id) {
            Err(e) => {
                return Err(e);
            },
            Ok(_) => {},
        }
        if any_negative(&request.troops.counts) {
            return Err(AppError::bad_request("Troop counts must be positive"));
        }
        match find_shortage(&request.troops.counts, &garrison.home.counts) {
            Some(i) => {
                proof {
                    TroopType::lemma_ordinal_at();
                }
                return Err(
                    AppError::BadRequest(
                        shortage_message(
                            TroopType::from_index(i),
                            garrison.home.counts[i],
                            request.troops.counts[i],
                        ),
                    ),
                );
            },
            None => {},
        }
        assert(request.troops.wf());
        if request.troops.total() <= 0 {
            return Err(AppError::bad_request("Must send at least one troop"));
        }
        let to_village_id = match target {
            Some(v) => {
                if v.user_id == player_id && request.mission.is_hostile() {
                    return Err(AppError::bad_request("Cannot attack your own village"));
                }
                Some(v.id)
            },
            None => {
                if request.mission == MissionType::Support {
                    return Err(AppError::bad_request("Support mission requires a target village"));
                }
                None
            },
        };
        if request.resources.wood < 0 || request.resources.clay < 0 || request.resources.iron < 0
            || request.resources.crop < 0 {
            return Err(AppError::bad_request("Carried resources must not be negative"));
        }
        let capacity = ArmyService::calculate_carry_capacity(&request.troops, definitions);
        if request.resources.total_wide() as u128 > capacity {
            return Err(AppError::bad_request("Troops cannot carry that much"));
        }
        let d2 = ArmyService::calculate_distance_squared(
            from_village.x,
            from_village.y,
            request.to_x,
            request.to_y,
        );
        let seconds = ArmyService::calculate_travel_time(d2, &request.troops, definitions);
        let arrives_at = now + seconds * 1000;
        let returns_at = if request.mission.returns_home() {
            Some(arrives_at + seconds * 1000)
        } else {
            None
        };
        match from_village.deduct_resources(
            request.resources.wood,
            request.resources.clay,
            request.resources.iron,
            request.resources.crop,
        ) {
            Err(e) => {
                return Err(e);
            },
            Ok(_) => {},
        }
        let mut home: Vec<i32> = Vec::new();
        let mut i: usize = 0;
        while i < TROOP_KINDS
            invariant
                i <= TROOP_KINDS,
                garrison.wf(),
                *garrison == *old(garrison),
                request.troops.wf(),
                forall|j: int|
                    0 <= j < TROOP_KINDS ==> request.troops.counts@[j] <= garrison.home.counts@[j],
                home@.len() == i,
                forall|j: int|
                    0 <= j < i ==> #[trigger] home@[j] == garrison.home.counts@[j]
                        - request.troops.counts@[j] && home@[j] >= 0,
            decreases TROOP_KINDS - i,
        {
            home.push(garrison.home.counts[i] - request.troops.counts[i]);
            i = i + 1;
        }
        proof {
            TroopType::lemma_ordinal_at();
            assert forall|t: TroopType| #[trigger]
                home@[t.ordinal()] == garrison.home.count(t) - request.troops.count(t) by {}
        }
        garrison.home = ArmyTroops { counts: home };
        let army = Army {
            id: army_id,
            player_id,
            from_village_id: from_village.id,
            to_x: request.to_x,
            to_y: request.to_y,
            to_village_id,
            mission: request.mission,
            troops: request.troops,
            resources: request.resources,
            departed_at: now,
            arrives_at,
            returns_at,
            is_returning: false,
            is_stationed: false,
            battle_report_id: None,
            created_at: now,
        };
        Ok(army)
    }
}

} // verus!
