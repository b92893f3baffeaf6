use tusk_horn::models::army::{Army, ArmyTroops, CarriedResources, MissionType, Winner};
use tusk_horn::models::building::BuildingType;
use tusk_horn::models::troop::{Garrison, TribeType, TroopDefinition, TroopType};
use tusk_horn::models::village::Village;
use tusk_horn::error::AppError;
use tusk_horn::services::army_service::ArmyService;
use tusk_horn::services::arrival::BattleOutcome;
use tusk_horn::services::defense::Defence;

fn definition(
    troop_type: TroopType,
    attack: i32,
    defense_infantry: i32,
    defense_cavalry: i32,
    speed: i32,
    carry_capacity: i32,
    loyalty_reduction: i32,
) -> TroopDefinition {
    TroopDefinition {
        id: 1,
        troop_type,
        tribe: TribeType::Phasuttha,
        name: String::from("unit"),
        description: None,
        attack,
        defense_infantry,
        defense_cavalry,
        speed,
        carry_capacity,
        crop_consumption: 1,
        training_time_seconds: 60,
        wood_cost: 10,
        clay_cost: 10,
        iron_cost: 10,
        crop_cost: 10,
        required_building: BuildingType::Barracks,
        required_building_level: 1,
        loyalty_reduction,
        created_at: 0,
    }
}

fn catalog() -> Vec<TroopDefinition> {
    vec![
        definition(TroopType::Infantry, 10, 5, 5, 6, 50, 0),
        definition(TroopType::Spearman, 5, 20, 25, 7, 30, 0),
        definition(TroopType::WarElephant, 60, 30, 20, 10, 80, 0),
        definition(TroopType::RoyalAdvisor, 10, 10, 10, 4, 0, 20),
        definition(TroopType::ElderChief, 10, 10, 10, 4, 0, 25),
    ]
}

fn troops(entries: &[(TroopType, i32)]) -> ArmyTroops {
    let mut t = ArmyTroops::new();
    for (kind, n) in entries {
        t.insert(*kind, *n);
    }
    t
}

fn village(owner: u128, wood: i32, clay: i32, iron: i32, crop: i32) -> Village {
    Village {
        id: 77,
        user_id: owner,
        name: String::from("target"),
        x: 6,
        y: 0,
        is_capital: false,
        wood,
        clay,
        iron,
        crop,
        warehouse_capacity: 800,
        granary_capacity: 800,
        population: 10,
        culture_points: 0,
        loyalty: 100,
        resources_updated_at: 0,
        created_at: 0,
        updated_at: 0,
    }
}

fn garrison(entries: &[(TroopType, i32)]) -> Garrison {
    let mut g = Garrison::new();
    for (kind, n) in entries {
        g.set_row(*kind, *n, *n);
    }
    g
}

fn army(mission: MissionType, entries: &[(TroopType, i32)]) -> Army {
    Army {
        id: 5,
        player_id: 1,
        from_village_id: 11,
        to_x: 6,
        to_y: 0,
        to_village_id: Some(77),
        mission,
        troops: troops(entries),
        resources: CarriedResources { wood: 0, clay: 0, iron: 0, crop: 0 },
        departed_at: 0,
        arrives_at: 3_600_000,
        returns_at: Some(7_200_000),
        is_returning: false,
        is_stationed: false,
        battle_report_id: None,
        created_at: 0,
    }
}

fn lend(v: &mut Village, g: &mut Garrison, stationed: Vec<Army>) -> Option<Defence> {
    Some(Defence {
        village: std::mem::replace(v, village(0, 0, 0, 0, 0)),
        garrison: std::mem::replace(g, Garrison::new()),
        armies: stationed,
    })
}

fn hostile(
    a: &mut Army,
    v: &mut Village,
    g: &mut Garrison,
    stationed: Vec<Army>,
    home: Option<(i32, i32)>,
    defs: &Vec<TroopDefinition>,
    report_id: u128,
    now: i64,
) -> Result<BattleOutcome, AppError> {
    let mut target = lend(v, g, stationed);
    let out = ArmyService::handle_hostile_arrival(a, &mut target, home, defs, report_id, now);
    let d = target.unwrap();
    *v = d.village;
    *g = d.garrison;
    out.map(|o| o.unwrap())
}

fn conquer(
    a: &mut Army,
    v: &mut Village,
    g: &mut Garrison,
    stationed: Vec<Army>,
    home: Option<(i32, i32)>,
    defs: &Vec<TroopDefinition>,
    report_id: u128,
    now: i64,
) -> Result<Option<BattleOutcome>, AppError> {
    let mut target = lend(v, g, stationed);
    let out = ArmyService::handle_conquer_arrival(a, &mut target, home, defs, report_id, now);
    let d = target.unwrap();
    *v = d.village;
    *g = d.garrison;
    out
}

#[test]
fn raid_success_scenario() {
    let defs = catalog();
    let mut a = army(MissionType::Raid, &[(TroopType::Infantry, 100)]);
    let mut v = village(2, 500, 0, 0, 0);
    let mut g = garrison(&[(TroopType::Spearman, 10)]);
    let stationed: Vec<Army> = Vec::new();
    let out = hostile(
        &mut a,
        &mut v,
        &mut g,
        stationed,
        Some((0, 0)),
        &defs,
        900,
        3_600_000,
    )
    .unwrap();
    assert!(out.engagement.battle.attacker_wins);
    assert_eq!(out.engagement.battle.attacker_losses.get(TroopType::Infantry), 8);
    assert_eq!(out.engagement.battle.attacker_survivors.get(TroopType::Infantry), 92);
    assert_eq!(out.engagement.battle.defender_losses.get(TroopType::Spearman), 10);
    assert_eq!(out.stolen, CarriedResources { wood: 250, clay: 0, iron: 0, crop: 0 });
    assert_eq!(out.report.winner, Winner::Attacker);
    assert_eq!(out.report.winner.tag(), "attacker");
    assert_eq!(out.report.id, 900);
    assert_eq!(v.wood, 250);
    assert_eq!(g.owned.get(TroopType::Spearman), 0);
    assert_eq!(g.home.get(TroopType::Spearman), 0);
    assert!(!out.army_deleted);
    assert!(a.is_returning);
    assert_eq!(a.troops.get(TroopType::Infantry), 92);
    assert_eq!(a.resources.wood, 250);
    assert_eq!(a.battle_report_id, Some(900));
    assert_eq!(a.arrives_at, 3_600_000 + 3_600_000);
    assert_eq!(a.returns_at, Some(a.arrives_at));
}

#[test]
fn travel_takes_an_hour_for_six_fields_at_speed_six() {
    let defs = catalog();
    let t = troops(&[(TroopType::Infantry, 100)]);
    let d2 = ArmyService::calculate_distance_squared(0, 0, 6, 0);
    assert_eq!(d2, 36);
    assert_eq!(ArmyService::calculate_travel_time(d2, &t, &defs), 3600);
}

#[test]
fn travel_goes_by_the_slowest_kind_and_takes_a_minute_at_least() {
    let defs = catalog();
    let t = troops(&[(TroopType::Infantry, 1), (TroopType::RoyalAdvisor, 1)]);
    assert_eq!(ArmyService::slowest_speed(&t, &defs), 4);
    let d2 = ArmyService::calculate_distance_squared(0, 0, 3, 4);
    assert_eq!(d2, 25);
    assert_eq!(ArmyService::calculate_travel_time(d2, &t, &defs), 4500);
    assert_eq!(ArmyService::calculate_travel_time(0, &t, &defs), 60);
    let unknown = troops(&[(TroopType::BattleDuck, 3)]);
    assert_eq!(ArmyService::slowest_speed(&unknown, &defs), 6);
    let d2 = ArmyService::calculate_distance_squared(1, 1, 2, 2);
    assert_eq!(ArmyService::calculate_travel_time(d2, &unknown, &defs), 848);
}

#[test]
fn no_defense_means_no_losses() {
    let defs = catalog();
    let a = troops(&[(TroopType::Infantry, 40), (TroopType::WarElephant, 3)]);
    let d = ArmyTroops::new();
    let r = ArmyService::calculate_battle(&a, &d, &defs, MissionType::Attack);
    assert!(r.attacker_wins);
    assert_eq!(r.attacker_losses.total(), 0);
    assert_eq!(r.attacker_survivors.get(TroopType::Infantry), 40);
    assert_eq!(r.attacker_survivors.get(TroopType::WarElephant), 3);
    assert_eq!(r.defender_losses.total(), 0);
}

#[test]
fn empty_village_is_plundered_up_to_capacity() {
    let defs = catalog();
    let mut a = army(MissionType::Attack, &[(TroopType::Infantry, 4)]);
    let mut v = village(2, 300, 200, 100, 200);
    let mut g = Garrison::new();
    let out = hostile(
        &mut a,
        &mut v,
        &mut g,
        Vec::new(),
        Some((0, 0)),
        &defs,
        901,
        10,
    )
    .unwrap();
    assert!(out.engagement.battle.attacker_wins);
    assert_eq!(out.engagement.battle.attacker_losses.total(), 0);
    assert_eq!(out.stolen, CarriedResources { wood: 75, clay: 50, iron: 25, crop: 50 });
    assert_eq!((v.wood, v.clay, v.iron, v.crop), (225, 150, 75, 150));

    let mut a = army(MissionType::Raid, &[(TroopType::Infantry, 100)]);
    let mut v = village(2, 300, 200, 100, 201);
    let out = hostile(
        &mut a,
        &mut v,
        &mut g,
        Vec::new(),
        Some((0, 0)),
        &defs,
        902,
        10,
    )
    .unwrap();
    assert_eq!(out.stolen, CarriedResources { wood: 150, clay: 100, iron: 50, crop: 100 });
}

#[test]
fn overwhelming_raid_loses_nobody() {
    let defs = catalog();
    let a = troops(&[(TroopType::Infantry, 11)]);
    let d = troops(&[(TroopType::Infantry, 2)]);
    let r = ArmyService::calculate_battle(&a, &d, &defs, MissionType::Raid);
    assert!(r.attacker_wins);
    assert_eq!(r.attacker_losses.total(), 0);
    assert_eq!(r.defender_losses.get(TroopType::Infantry), 2);
    assert_eq!(r.defender_survivors.total(), 0);
}

#[test]
fn equal_powers_go_to_the_defender() {
    let defs = catalog();
    let a = troops(&[(TroopType::Infantry, 2)]);
    let d = troops(&[(TroopType::Spearman, 1)]);
    let r = ArmyService::calculate_battle(&a, &d, &defs, MissionType::Attack);
    assert!(!r.attacker_wins);
    assert_eq!(r.attacker_losses.get(TroopType::Infantry), 2);
    assert_eq!(r.defender_losses.get(TroopType::Spearman), 1);
}

#[test]
fn losing_raiders_flee() {
    let defs = catalog();
    let a = troops(&[(TroopType::Infantry, 100)]);
    let d = troops(&[(TroopType::Spearman, 100)]);
    // attack 1000 against defense 2000: ratio 0.5, flee share max(0.66, 0.75)
    let r = ArmyService::calculate_battle(&a, &d, &defs, MissionType::Raid);
    assert!(!r.attacker_wins);
    assert_eq!(r.attacker_losses.get(TroopType::Infantry), 75);
    // defenders lose 0.5^1.5 = 0.3535...
    assert_eq!(r.defender_losses.get(TroopType::Spearman), 35);
    let r = ArmyService::calculate_battle(&a, &d, &defs, MissionType::Attack);
    assert_eq!(r.attacker_losses.get(TroopType::Infantry), 100);
    let d = troops(&[(TroopType::Spearman, 55)]);
    // attack 1000 against defense 1100: 1 - ratio / 2 = 0.545 is below 0.66
    let r = ArmyService::calculate_battle(&a, &d, &defs, MissionType::Raid);
    assert_eq!(r.attacker_losses.get(TroopType::Infantry), 66);
}

#[test]
fn mixed_attack_weighs_both_defenses() {
    let defs = catalog();
    // infantry 600, cavalry 600: shares one half each
    let a = troops(&[(TroopType::Infantry, 60), (TroopType::WarElephant, 10)]);
    let d = troops(&[(TroopType::Spearman, 10)]);
    // defense 10 * (20 * 0.5 + 25 * 0.5) = 225, ratio 0.1875, share 0.08118...
    let r = ArmyService::calculate_battle(&a, &d, &defs, MissionType::Attack);
    assert!(r.attacker_wins);
    assert_eq!(r.attacker_losses.get(TroopType::Infantry), 4);
    assert_eq!(r.attacker_losses.get(TroopType::WarElephant), 0);
    assert_eq!(
        ArmyService::calculate_attack_by_type(&a, &defs),
        (600u128, 600u128)
    );
    assert_eq!(ArmyService::calculate_attack_power(&a, &defs), 1200);
}

#[test]
fn battle_is_a_function_of_its_inputs() {
    let defs = catalog();
    let a = troops(&[(TroopType::Infantry, 321), (TroopType::WarElephant, 17)]);
    let d = troops(&[(TroopType::Spearman, 123), (TroopType::Infantry, 45)]);
    let first = ArmyService::calculate_battle(&a, &d, &defs, MissionType::Raid);
    let second = ArmyService::calculate_battle(&a, &d, &defs, MissionType::Raid);
    assert_eq!(first.attacker_wins, second.attacker_wins);
    assert_eq!(first.attacker_losses, second.attacker_losses);
    assert_eq!(first.defender_losses, second.defender_losses);
    assert_eq!(first.attacker_survivors, second.attacker_survivors);
    assert_eq!(first.defender_survivors, second.defender_survivors);
}

#[test]
fn stationed_armies_share_the_losses() {
    let defs = catalog();
    let mut a = army(MissionType::Attack, &[(TroopType::Infantry, 100)]);
    let mut v = village(2, 0, 0, 0, 0);
    let mut g = garrison(&[(TroopType::Spearman, 60)]);
    let mut support = army(MissionType::Support, &[(TroopType::Spearman, 40)]);
    support.id = 6;
    support.is_stationed = true;
    let stationed = vec![support];
    // attack 1000 against defense 100 * 20 = 2000: defenders lose floor(100 * 0.3535) = 35
    let out = hostile(
        &mut a,
        &mut v,
        &mut g,
        stationed,
        Some((0, 0)),
        &defs,
        903,
        10,
    )
    .unwrap();
    assert!(!out.engagement.battle.attacker_wins);
    assert_eq!(out.engagement.defenders.get(TroopType::Spearman), 100);
    assert_eq!(out.engagement.battle.defender_losses.get(TroopType::Spearman), 35);
    assert_eq!(out.engagement.village_losses.get(TroopType::Spearman), 21);
    assert_eq!(g.home.get(TroopType::Spearman), 39);
    assert_eq!(g.owned.get(TroopType::Spearman), 39);
    assert_eq!(out.engagement.stationed.len(), 1);
    assert_eq!(out.engagement.stationed[0].army_id, 6);
    assert_eq!(out.engagement.stationed[0].survivors.get(TroopType::Spearman), 26);
    assert_eq!(out.engagement.stationed[0].fallen.get(TroopType::Spearman), 14);
    assert!(out.engagement.stationed[0].had_losses);
    assert!(!out.engagement.stationed[0].wiped_out);
    assert_eq!(out.report.winner, Winner::Defender);
    assert!(out.army_deleted);
    assert_eq!(out.stolen, CarriedResources { wood: 0, clay: 0, iron: 0, crop: 0 });
}

#[test]
fn conquer_lowers_loyalty_without_looting() {
    let defs = catalog();
    let mut a = army(
        MissionType::Conquer,
        &[(TroopType::Infantry, 100), (TroopType::RoyalAdvisor, 1)],
    );
    let mut v = village(2, 500, 500, 500, 500);
    let mut g = Garrison::new();
    let out = conquer(
        &mut a,
        &mut v,
        &mut g,
        Vec::new(),
        Some((0, 0)),
        &defs,
        904,
        10,
    )
    .unwrap()
    .unwrap();
    assert!(out.engagement.battle.attacker_wins);
    assert_eq!(out.loyalty_reduced, 20);
    assert!(!out.conquered);
    assert_eq!(v.loyalty, 80);
    assert_eq!(v.user_id, 2);
    assert_eq!((v.wood, v.clay, v.iron, v.crop), (500, 500, 500, 500));
    assert_eq!(out.stolen, CarriedResources { wood: 0, clay: 0, iron: 0, crop: 0 });
    assert_eq!(out.report.mission, MissionType::Conquer);
    assert!(a.is_returning);
}

#[test]
fn fourth_conquest_takes_the_village() {
    let defs = catalog();
    let mut v = village(2, 0, 0, 0, 0);
    v.is_capital = false;
    let mut g = Garrison::new();
    let mut loyalties = Vec::new();
    for round in 0..4u128 {
        let mut a = army(MissionType::Conquer, &[(TroopType::ElderChief, 1)]);
        let out = conquer(
            &mut a,
            &mut v,
            &mut g,
            Vec::new(),
            Some((0, 0)),
            &defs,
            1000 + round,
            10,
        )
        .unwrap()
        .unwrap();
        loyalties.push((v.loyalty, v.user_id, out.conquered));
    }
    assert_eq!(loyalties, vec![(75, 2, false), (50, 2, false), (25, 2, false), (25, 1, true)]);
    assert!(!v.is_capital);
    // a third party now faces loyalty 25
    let mut a = army(MissionType::Conquer, &[(TroopType::ElderChief, 1)]);
    a.player_id = 3;
    let out = conquer(
        &mut a,
        &mut v,
        &mut g,
        Vec::new(),
        Some((0, 0)),
        &defs,
        2000,
        10,
    )
    .unwrap()
    .unwrap();
    assert!(out.conquered);
    assert_eq!(v.user_id, 3);
    assert_eq!(v.loyalty, 25);
}

#[test]
fn nobody_conquers_a_capital_or_an_own_village() {
    let defs = catalog();
    let mut a = army(MissionType::Conquer, &[(TroopType::ElderChief, 1)]);
    let mut v = village(2, 0, 0, 0, 0);
    v.is_capital = true;
    let mut g = garrison(&[(TroopType::Spearman, 1)]);
    let out = conquer(
        &mut a,
        &mut v,
        &mut g,
        Vec::new(),
        Some((0, 0)),
        &defs,
        905,
        10,
    )
    .unwrap();
    assert!(out.is_none());
    assert!(a.is_returning);
    assert_eq!(a.troops.get(TroopType::ElderChief), 1);
    assert_eq!(v.loyalty, 100);
    assert_eq!(g.home.get(TroopType::Spearman), 1);

    let mut a = army(MissionType::Conquer, &[(TroopType::ElderChief, 1)]);
    let mut v = village(1, 0, 0, 0, 0);
    let out = conquer(
        &mut a,
        &mut v,
        &mut g,
        Vec::new(),
        None,
        &defs,
        906,
        10,
    )
    .unwrap();
    assert!(out.is_none());
    assert_eq!(a.battle_report_id, None);
}

#[test]
fn survivors_carry_what_they_can() {
    let defs = catalog();
    let v = village(2, 600, 300, 100, 0);
    // 5 infantry carry 250 of the 1000 that an attack may take
    let few = troops(&[(TroopType::Infantry, 5)]);
    assert_eq!(
        ArmyService::calculate_stolen_resources(&v, &few, &defs, MissionType::Attack),
        CarriedResources { wood: 150, clay: 75, iron: 25, crop: 0 }
    );
    // a raid may take half
    let many = troops(&[(TroopType::Infantry, 500)]);
    assert_eq!(
        ArmyService::calculate_stolen_resources(&v, &many, &defs, MissionType::Raid),
        CarriedResources { wood: 300, clay: 150, iron: 50, crop: 0 }
    );
    // chiefs carry nothing, scouts take nothing
    let chiefs = troops(&[(TroopType::RoyalAdvisor, 3)]);
    assert_eq!(
        ArmyService::calculate_stolen_resources(&v, &chiefs, &defs, MissionType::Attack),
        CarriedResources { wood: 0, clay: 0, iron: 0, crop: 0 }
    );
    assert_eq!(
        ArmyService::calculate_stolen_resources(&v, &many, &defs, MissionType::Scout),
        CarriedResources { wood: 0, clay: 0, iron: 0, crop: 0 }
    );
}

#[test]
fn only_chiefs_press_on_loyalty() {
    let defs = catalog();
    let t = troops(&[
        (TroopType::Infantry, 100),
        (TroopType::RoyalAdvisor, 2),
        (TroopType::ElderChief, 1),
        (TroopType::HarborMaster, 5),
    ]);
    assert_eq!(ArmyService::calculate_loyalty_reduction(&t, &defs), 65);
}

#[test]
fn states_stay_well_formed() {
    let defs = catalog();
    let mut a = army(MissionType::Raid, &[(TroopType::Infantry, 100)]);
    assert!(a.is_valid());
    let mut v = village(2, 500, 0, 0, 0);
    let mut g = garrison(&[(TroopType::Spearman, 10)]);
    assert!(v.is_valid() && g.is_valid());
    hostile(
        &mut a,
        &mut v,
        &mut g,
        Vec::new(),
        Some((0, 0)),
        &defs,
        900,
        10,
    )
    .unwrap();
    assert!(a.is_valid() && v.is_valid() && g.is_valid());
    assert!(!(a.is_returning && a.is_stationed));
    let mut s = army(MissionType::Support, &[(TroopType::Spearman, 1)]);
    ArmyService::handle_support_arrival(&mut s, true, Some((0, 0)), &defs, 10);
    assert!(s.is_valid());
    ArmyService::recall_support(&mut s, 1, Some((0, 0)), &defs, 10).unwrap();
    assert!(s.is_valid());
    let empty = army(MissionType::Raid, &[]);
    assert!(!empty.is_valid());
}

#[test]
fn defense_is_weighed_by_the_shares_of_the_attack() {
    let defs = catalog();
    let d = troops(&[(TroopType::Spearman, 10)]);
    let inf_only = ArmyService::calculate_defense_power(&d, &defs, 1000, 0);
    let cav_only = ArmyService::calculate_defense_power(&d, &defs, 0, 600);
    let none = ArmyService::calculate_defense_power(&d, &defs, 0, 0);
    let is = |n: &tusk_horn::bignat::BigNat, v: u128| {
        let w = tusk_horn::bignat::BigNat::from_u128(v);
        n.le(&w) && w.le(n)
    };
    // times the denominator of the shares: the total attack, or 2
    assert!(is(&inf_only, 10 * 20 * 1000));
    assert!(is(&cav_only, 10 * 25 * 600));
    assert!(is(&none, 10 * (20 + 25)));
}

#[test]
fn nobody_to_fight_sends_every_mission_home() {
    let defs = catalog();
    let mut a = army(MissionType::Raid, &[(TroopType::Infantry, 7)]);
    a.resources = CarriedResources { wood: 1, clay: 0, iron: 0, crop: 0 };
    let mut nobody = None;
    let out = ArmyService::handle_hostile_arrival(&mut a, &mut nobody, Some((0, 0)), &defs, 1, 50);
    assert!(matches!(out, Ok(None)));
    assert!(nobody.is_none());
    assert!(a.is_returning && !a.is_stationed);
    assert_eq!(a.troops.get(TroopType::Infantry), 7);
    assert_eq!(a.resources, CarriedResources { wood: 0, clay: 0, iron: 0, crop: 0 });
    assert_eq!(a.battle_report_id, None);
    assert_eq!(a.arrives_at, 50 + 3_600_000);

    let mut a = army(MissionType::Conquer, &[(TroopType::ElderChief, 1)]);
    let out = ArmyService::handle_conquer_arrival(&mut a, &mut nobody, None, &defs, 1, 50);
    assert!(matches!(out, Ok(None)));
    assert!(a.is_returning);
    assert_eq!(a.troops.get(TroopType::ElderChief), 1);

    let mut a = army(MissionType::Scout, &[(TroopType::Infantry, 2)]);
    let out = ArmyService::handle_scout_arrival(&mut a, &mut nobody, Some((0, 0)), &defs, 1, 50);
    assert!(out.is_none());
    assert!(a.is_returning);
    assert_eq!(a.troops.get(TroopType::Infantry), 2);

    let mut a = army(MissionType::Support, &[(TroopType::Spearman, 3)]);
    ArmyService::handle_support_arrival(&mut a, false, Some((0, 0)), &defs, 50);
    assert!(a.is_returning && !a.is_stationed);
    assert_eq!(a.troops.get(TroopType::Spearman), 3);
    assert_eq!(a.resources, CarriedResources { wood: 0, clay: 0, iron: 0, crop: 0 });
}

#[test]
fn the_fallen_leave_what_their_village_owns() {
    let defs = catalog();
    let mut home = Garrison::new();
    home.set_row(TroopType::Infantry, 120, 20);
    let mut a = army(MissionType::Raid, &[(TroopType::Infantry, 100)]);
    let mut v = village(2, 500, 0, 0, 0);
    let mut g = garrison(&[(TroopType::Spearman, 10)]);
    let out = hostile(&mut a, &mut v, &mut g, Vec::new(), Some((0, 0)), &defs, 900, 10).unwrap();
    let fallen = &out.engagement.battle.attacker_losses;
    assert_eq!(fallen.get(TroopType::Infantry), 8);
    ArmyService::settle_fallen(&mut home, fallen).unwrap();
    assert_eq!(home.owned.get(TroopType::Infantry), 112);
    assert_eq!(home.home.get(TroopType::Infantry), 20);
    // what is away is what is left of the army
    assert_eq!(
        home.owned.get(TroopType::Infantry) - home.home.get(TroopType::Infantry),
        a.troops.get(TroopType::Infantry)
    );
    let too_many = troops(&[(TroopType::Infantry, 93)]);
    assert_eq!(ArmyService::settle_fallen(&mut home, &too_many), Err(AppError::InternalError));
    assert_eq!(home.owned.get(TroopType::Infantry), 112);
    home.bury_fallen(TroopType::Infantry, 92);
    assert_eq!((home.owned.get(TroopType::Infantry), home.home.get(TroopType::Infantry)), (20, 20));
}

#[test]
fn a_returning_army_carries_no_more_than_it_can() {
    let defs = catalog();
    let mut a = army(MissionType::Attack, &[(TroopType::Infantry, 3)]);
    let mut v = village(2, 800, 800, 800, 800);
    let mut g = Garrison::new();
    let out = hostile(&mut a, &mut v, &mut g, Vec::new(), Some((0, 0)), &defs, 900, 10).unwrap();
    assert_eq!(ArmyService::calculate_carry_capacity(&a.troops, &defs), 150);
    assert_eq!(out.stolen.total(), 148);
    assert!((a.resources.total() as u128) <= ArmyService::calculate_carry_capacity(&a.troops, &defs));
}
