use tusk_horn::error::AppError;
use tusk_horn::models::army::{Army, ArmyTroops, CarriedResources, MissionType, SendArmyRequest};
use tusk_horn::models::building::{Building, BuildingCost, BuildingType};
use tusk_horn::models::troop::{
    catalog_is_valid, Garrison, TribeType, Troop, TroopCost, TroopDefinition,
    TroopDefinitionResponse, TroopQueue, TroopQueueResponse, TroopResponse, TroopType,
};
use tusk_horn::models::village::{accrue, ProductionRates, Village};
use tusk_horn::services::army_service::{ArmyService, ArrivalAction};
use tusk_horn::services::arrival::ScoutOutcome;
use tusk_horn::services::defense::Defence;
use tusk_horn::services::building_service::BuildingService;
use tusk_horn::services::resource_service::ResourceService;
use tusk_horn::services::troop_service::TroopService;

fn definition(troop_type: TroopType, speed: i32, loyalty_reduction: i32) -> TroopDefinition {
    TroopDefinition {
        id: 1,
        troop_type,
        tribe: TribeType::Kiri,
        name: String::from("unit"),
        description: Some(String::from("a unit")),
        attack: 10,
        defense_infantry: 10,
        defense_cavalry: 10,
        speed,
        carry_capacity: 20,
        crop_consumption: 1,
        training_time_seconds: 90,
        wood_cost: 30,
        clay_cost: 20,
        iron_cost: 10,
        crop_cost: 5,
        required_building: BuildingType::Barracks,
        required_building_level: 2,
        loyalty_reduction,
        created_at: 0,
    }
}

fn catalog() -> Vec<TroopDefinition> {
    vec![
        definition(TroopType::Crossbowman, 16, 0),
        definition(TroopType::MountainWarrior, 8, 0),
        definition(TroopType::ElderChief, 4, 25),
    ]
}

fn troops(entries: &[(TroopType, i32)]) -> ArmyTroops {
    let mut t = ArmyTroops::new();
    for (kind, n) in entries {
        t.insert(*kind, *n);
    }
    t
}

fn village(owner: u128) -> Village {
    Village {
        id: 11,
        user_id: owner,
        name: String::from("home"),
        x: 0,
        y: 0,
        is_capital: true,
        wood: 100,
        clay: 100,
        iron: 100,
        crop: 100,
        warehouse_capacity: 800,
        granary_capacity: 800,
        population: 10,
        culture_points: 0,
        loyalty: 100,
        resources_updated_at: 1_000_000,
        created_at: 0,
        updated_at: 0,
    }
}

fn building(building_type: BuildingType, level: i32) -> Building {
    Building {
        id: 3,
        village_id: 11,
        building_type,
        slot: 4,
        level,
        is_upgrading: false,
        upgrade_ends_at: None,
        created_at: 0,
        updated_at: 0,
    }
}

fn army(mission: MissionType, entries: &[(TroopType, i32)]) -> Army {
    Army {
        id: 5,
        player_id: 1,
        from_village_id: 11,
        to_x: 3,
        to_y: 4,
        to_village_id: Some(77),
        mission,
        troops: troops(entries),
        resources: CarriedResources { wood: 0, clay: 0, iron: 0, crop: 0 },
        departed_at: 0,
        arrives_at: 100,
        returns_at: Some(200),
        is_returning: false,
        is_stationed: false,
        battle_report_id: None,
        created_at: 0,
    }
}

#[test]
fn pure_production_scenario() {
    assert_eq!(accrue(100, 7, 3600, 800), 107);
    let mut v = village(1);
    let rates = ProductionRates {
        wood_per_hour: 7,
        clay_per_hour: 0,
        iron_per_hour: 0,
        crop_per_hour: 0,
    };
    v.refresh(&rates, 1_000_000 + 3_600_000);
    assert_eq!((v.wood, v.clay, v.iron, v.crop), (107, 100, 100, 100));
    assert_eq!(v.resources_updated_at, 4_600_000);
}

#[test]
fn storage_clamp_scenario() {
    assert_eq!(accrue(797, 7, 3600, 800), 800);
    let mut v = village(1);
    v.wood = 797;
    let fields = vec![building(BuildingType::Woodcutter, 3)];
    ResourceService::refresh(&mut v, &fields, 1_000_000 + 3_600_000);
    assert_eq!(v.wood, 800);
}

#[test]
fn fields_produce_by_their_level() {
    let fields = vec![
        building(BuildingType::Woodcutter, 3),
        building(BuildingType::Woodcutter, 1),
        building(BuildingType::ClayPit, 0),
        building(BuildingType::CropField, 10),
        building(BuildingType::Warehouse, 5),
    ];
    assert_eq!(
        ResourceService::production_rates(&fields),
        ProductionRates { wood_per_hour: 11, clay_per_hour: 1, iron_per_hour: 0, crop_per_hour: 320 }
    );
    let mut v = village(1);
    ResourceService::refresh(&mut v, &fields, 1_000_000 + 1_800_999);
    // half an hour: floor(11 / 2), floor(1 / 2), floor(320 / 2)
    assert_eq!((v.wood, v.clay, v.iron, v.crop), (105, 100, 100, 260));
}

#[test]
fn refresh_twice_is_refresh_once() {
    let fields = vec![building(BuildingType::Woodcutter, 6), building(BuildingType::IronMine, 2)];
    let mut v = village(1);
    ResourceService::refresh(&mut v, &fields, 9_000_000);
    let once = (v.wood, v.clay, v.iron, v.crop, v.resources_updated_at);
    ResourceService::refresh(&mut v, &fields, 9_000_000);
    assert_eq!(once, (v.wood, v.clay, v.iron, v.crop, v.resources_updated_at));
    // a clock that runs backwards adds nothing
    ResourceService::refresh(&mut v, &fields, 8_000_000);
    assert_eq!(once.0, v.wood);
}

#[test]
fn deduct_is_all_or_nothing() {
    let mut v = village(1);
    let e = ResourceService::deduct(&mut v, 50, 50, 101, 0).unwrap_err();
    assert_eq!(e, AppError::BadRequest(String::from("Not enough resources")));
    assert_eq!((v.wood, v.clay, v.iron, v.crop), (100, 100, 100, 100));
    ResourceService::deduct(&mut v, 50, 60, 100, 0).unwrap();
    assert_eq!((v.wood, v.clay, v.iron, v.crop), (50, 40, 0, 100));
}

#[test]
fn deduct_then_credit_restores_and_credit_clamps() {
    let mut v = village(1);
    ResourceService::deduct(&mut v, 10, 20, 30, 40).unwrap();
    ResourceService::credit(&mut v, 10, 20, 30, 40);
    assert_eq!((v.wood, v.clay, v.iron, v.crop), (100, 100, 100, 100));
    ResourceService::credit(&mut v, 1000, 0, 699, 701);
    assert_eq!((v.wood, v.clay, v.iron, v.crop), (800, 100, 799, 800));
}

#[test]
fn storage_is_base_plus_every_store() {
    let mut v = village(1);
    let buildings = vec![
        building(BuildingType::Warehouse, 1),
        building(BuildingType::Warehouse, 0),
        building(BuildingType::Granary, 2),
        building(BuildingType::Barracks, 3),
    ];
    BuildingService::update_village_storage(&mut v, &buildings);
    assert_eq!(v.warehouse_capacity, 800 + 480 + 800);
    assert_eq!(v.granary_capacity, 800 + 576);
    assert_eq!(v.wood, 100);
}

#[test]
fn build_pays_and_starts_at_level_zero() {
    let mut v = village(1);
    v.wood = 800;
    v.clay = 800;
    v.iron = 800;
    v.crop = 800;
    let (b, cost) =
        BuildingService::build(&mut v, 1, None, true, 4, BuildingType::Barracks, 9, 5_000).unwrap();
    assert_eq!(cost, BuildingCost { wood: 210, clay: 140, iron: 260, crop: 120, time_seconds: 600 });
    assert_eq!((v.wood, v.clay, v.iron, v.crop), (590, 660, 540, 680));
    assert_eq!(b.level, 0);
    assert!(b.is_upgrading);
    assert_eq!(b.upgrade_ends_at, Some(605_000));
    assert_eq!((b.id, b.village_id, b.slot, b.building_type), (9, 11, 4, BuildingType::Barracks));
}

#[test]
fn build_refusals_come_in_order() {
    let mut v = village(1);
    let taken = Some(building(BuildingType::Market, 1));
    assert_eq!(
        BuildingService::build(&mut v, 2, taken, false, 4, BuildingType::Barracks, 9, 0)
            .unwrap_err(),
        AppError::Forbidden
    );
    assert_eq!(
        BuildingService::build(&mut v, 1, taken, false, 4, BuildingType::Barracks, 9, 0)
            .unwrap_err(),
        AppError::Conflict(String::from("Slot already occupied"))
    );
    assert_eq!(
        BuildingService::build(&mut v, 1, None, false, 4, BuildingType::Barracks, 9, 0)
            .unwrap_err(),
        AppError::BadRequest(String::from("Prerequisites not met"))
    );
    assert_eq!(
        BuildingService::build(&mut v, 1, None, true, 4, BuildingType::Barracks, 9, 0).unwrap_err(),
        AppError::BadRequest(String::from("Not enough resources"))
    );
    assert_eq!((v.wood, v.clay, v.iron, v.crop), (100, 100, 100, 100));
}

#[test]
fn upgrade_pays_the_next_level() {
    let mut v = village(1);
    let (b, cost) = BuildingService::upgrade(
        &mut v,
        1,
        Some(building(BuildingType::MainBuilding, 1)),
        1_000,
    )
    .unwrap();
    assert_eq!(cost, BuildingCost { wood: 89, clay: 51, iron: 76, crop: 25, time_seconds: 384 });
    assert_eq!((v.wood, v.clay, v.iron, v.crop), (11, 49, 24, 75));
    assert_eq!(b.level, 1);
    assert!(b.is_upgrading);
    assert_eq!(b.upgrade_ends_at, Some(385_000));
}

#[test]
fn upgrade_refusals() {
    let mut v = village(1);
    assert_eq!(
        BuildingService::upgrade(&mut v, 2, None, 0).unwrap_err(),
        AppError::Forbidden
    );
    assert_eq!(
        BuildingService::upgrade(&mut v, 1, None, 0).unwrap_err(),
        AppError::NotFound(String::from("Building not found"))
    );
    let mut busy = building(BuildingType::MainBuilding, 1);
    busy.is_upgrading = true;
    busy.upgrade_ends_at = Some(10);
    assert_eq!(
        BuildingService::upgrade(&mut v, 1, Some(busy), 0).unwrap_err(),
        AppError::Conflict(String::from("Building is already upgrading"))
    );
    assert_eq!(
        BuildingService::upgrade(&mut v, 1, Some(building(BuildingType::Wall, 20)), 0).unwrap_err(),
        AppError::BadRequest(String::from("Building is at max level"))
    );
    assert_eq!(
        BuildingService::upgrade(&mut v, 1, Some(building(BuildingType::Barracks, 3)), 0)
            .unwrap_err(),
        AppError::BadRequest(String::from("Not enough resources"))
    );
}

#[test]
fn demolish_spares_the_main_building() {
    let v = village(1);
    assert_eq!(
        BuildingService::demolish(&v, 1, Some(building(BuildingType::MainBuilding, 1)))
            .unwrap_err(),
        AppError::BadRequest(String::from("Cannot demolish Main Building"))
    );
    assert_eq!(
        BuildingService::demolish(&v, 1, Some(building(BuildingType::MainBuilding, 0))).unwrap(),
        building(BuildingType::MainBuilding, 0)
    );
    assert_eq!(
        BuildingService::demolish(&v, 1, Some(building(BuildingType::Market, 7))).unwrap(),
        building(BuildingType::Market, 7)
    );
    assert_eq!(BuildingService::demolish(&v, 2, None).unwrap_err(), AppError::Forbidden);
    assert_eq!(
        BuildingService::demolish(&v, 1, None).unwrap_err(),
        AppError::NotFound(String::from("Building not found"))
    );
}

#[test]
fn completion_is_guarded_and_happens_once() {
    let mut b = building(BuildingType::Granary, 2);
    b.is_upgrading = true;
    b.upgrade_ends_at = Some(500);
    let early = BuildingService::complete_upgrade(&mut b, 499);
    assert!(!early.completed);
    assert_eq!(b.level, 2);
    let done = BuildingService::complete_upgrade(&mut b, 500);
    assert!(done.completed && done.recompute_storage);
    assert_eq!((b.level, b.is_upgrading, b.upgrade_ends_at), (3, false, None));
    let again = BuildingService::complete_upgrade(&mut b, 600);
    assert!(!again.completed && !again.recompute_storage);
    assert_eq!(b.level, 3);
    let mut m = building(BuildingType::Market, 0);
    m.is_upgrading = true;
    m.upgrade_ends_at = Some(1);
    let done = BuildingService::complete_upgrade(&mut m, 2);
    assert!(done.completed && !done.recompute_storage);
}

#[test]
fn training_queues_behind_the_last_batch() {
    let defs = catalog();
    let mut v = village(1);
    let buildings = vec![building(BuildingType::Barracks, 2)];
    let (q, cost) = TroopService::train_troops(
        &mut v,
        &buildings,
        &defs,
        Some(50_000),
        TroopType::Crossbowman,
        3,
        40,
        10_000,
    )
    .unwrap();
    assert_eq!(cost, TroopCost { wood: 90, clay: 60, iron: 30, crop: 15, time_seconds: 270 });
    assert_eq!((v.wood, v.clay, v.iron, v.crop), (10, 40, 70, 85));
    assert_eq!(
        q,
        TroopQueue {
            id: 40,
            village_id: 11,
            troop_type: TroopType::Crossbowman,
            count: 3,
            each_duration_seconds: 90,
            started_at: 50_000,
            ends_at: 320_000,
            created_at: 10_000,
        }
    );
    let mut v = village(1);
    let (q, _) = TroopService::train_troops(
        &mut v,
        &buildings,
        &defs,
        Some(5_000),
        TroopType::ElderChief,
        1,
        41,
        10_000,
    )
    .unwrap();
    assert_eq!((q.started_at, q.ends_at), (10_000, 100_000));
}

#[test]
fn training_refusals() {
    let defs = catalog();
    let mut v = village(1);
    let low = vec![building(BuildingType::Barracks, 1), building(BuildingType::Stable, 9)];
    let ok = vec![building(BuildingType::Barracks, 5)];
    assert_eq!(
        TroopService::train_troops(&mut v, &ok, &defs, None, TroopType::BattleDuck, 1, 1, 0)
            .unwrap_err(),
        AppError::NotFound(String::from("Troop type not found"))
    );
    assert_eq!(
        TroopService::train_troops(&mut v, &ok, &defs, None, TroopType::Crossbowman, 0, 1, 0)
            .unwrap_err(),
        AppError::BadRequest(String::from("Count must be positive"))
    );
    assert_eq!(
        TroopService::train_troops(&mut v, &low, &defs, None, TroopType::Crossbowman, 1, 1, 0)
            .unwrap_err(),
        AppError::BadRequest(String::from("Required building not available"))
    );
    assert_eq!(
        TroopService::train_troops(
            &mut v,
            &ok,
            &defs,
            None,
            TroopType::Crossbowman,
            30_000_000,
            1,
            0
        )
        .unwrap_err(),
        AppError::BadRequest(String::from("Training takes too long"))
    );
    assert_eq!(
        TroopService::train_troops(&mut v, &ok, &defs, None, TroopType::Crossbowman, 4, 1, 0)
            .unwrap_err(),
        AppError::BadRequest(String::from("Not enough resources"))
    );
    assert_eq!((v.wood, v.clay, v.iron, v.crop), (100, 100, 100, 100));
}

fn batch(count: i32) -> TroopQueue {
    TroopQueue {
        id: 40,
        village_id: 11,
        troop_type: TroopType::Crossbowman,
        count,
        each_duration_seconds: 90,
        started_at: 0,
        ends_at: 90_000 * count as i64,
        created_at: 0,
    }
}

#[test]
fn drain_moves_trained_units_into_the_garrison() {
    let mut g = Garrison::new();
    let waiting = TroopService::drain_due(batch(3), &mut g, 269_999).unwrap();
    assert_eq!(waiting.units, 0);
    assert_eq!(waiting.kept, Some(batch(3)));
    let done = TroopService::drain_due(batch(3), &mut g, 270_000).unwrap();
    assert_eq!(done.units, 3);
    assert_eq!(done.kept, None);
    assert_eq!(g.owned.get(TroopType::Crossbowman), 3);
    assert_eq!(g.home.get(TroopType::Crossbowman), 3);
    // a batch whose end was set too early is drained as far as it is trained
    let mut early = batch(3);
    early.ends_at = 100_000;
    let part = TroopService::drain_due(early, &mut g, 200_000).unwrap();
    assert_eq!(part.units, 2);
    let kept = part.kept.unwrap();
    assert_eq!((kept.count, kept.started_at), (1, 180_000));
    assert_eq!(g.owned.get(TroopType::Crossbowman), 5);
}

#[test]
fn drain_refuses_more_troops_than_a_count_holds() {
    let mut g = Garrison::new();
    g.set_row(TroopType::Crossbowman, i32::MAX - 1, 0);
    assert_eq!(
        TroopService::drain_due(batch(3), &mut g, 270_000).unwrap_err(),
        AppError::InternalError
    );
    assert_eq!(g.owned.get(TroopType::Crossbowman), i32::MAX - 1);
}

#[test]
fn cancel_refunds_what_is_not_trained() {
    let defs = catalog();
    let mut v = village(1);
    let c = TroopService::cancel_training(&mut v, Some(batch(3)), &defs, 100_000).unwrap();
    assert_eq!(c.units_refunded, 2);
    let kept = c.kept.unwrap();
    assert_eq!((kept.count, kept.started_at, kept.ends_at), (1, 0, 90_000));
    assert_eq!((v.wood, v.clay, v.iron, v.crop), (160, 140, 120, 110));
    let c = TroopService::cancel_training(&mut v, Some(batch(3)), &defs, 0).unwrap();
    assert_eq!((c.units_refunded, c.kept), (3, None));
    let mut other = batch(3);
    other.village_id = 12;
    assert_eq!(
        TroopService::cancel_training(&mut v, Some(other), &defs, 0).unwrap_err(),
        AppError::NotFound(String::from("Queue entry not found"))
    );
    assert_eq!(
        TroopService::cancel_training(&mut v, None, &defs, 0).unwrap_err(),
        AppError::NotFound(String::from("Queue entry not found"))
    );
}

fn request(mission: MissionType, entries: &[(TroopType, i32)]) -> SendArmyRequest {
    SendArmyRequest {
        to_x: 3,
        to_y: 4,
        mission,
        troops: troops(entries),
        resources: CarriedResources { wood: 0, clay: 0, iron: 0, crop: 0 },
    }
}

fn home_garrison() -> Garrison {
    let mut g = Garrison::new();
    g.set_row(TroopType::Crossbowman, 30, 20);
    g.set_row(TroopType::ElderChief, 2, 2);
    g
}

#[test]
fn send_army_moves_troops_out_of_the_garrison() {
    let defs = catalog();
    let mut from = village(1);
    let mut target = village(2);
    target.id = 77;
    let mut g = home_garrison();
    let a = ArmyService::send_army(
        1,
        &mut from,
        &mut g,
        Some(&target),
        &defs,
        request(MissionType::Raid, &[(TroopType::Crossbowman, 12)]),
        500,
        1_000,
    )
    .unwrap();
    assert_eq!(g.home.get(TroopType::Crossbowman), 8);
    assert_eq!(g.owned.get(TroopType::Crossbowman), 30);
    assert_eq!(a.troops.get(TroopType::Crossbowman), 12);
    assert_eq!((a.id, a.player_id, a.from_village_id, a.to_village_id), (500, 1, 11, Some(77)));
    // 5 fields at speed 16: 1125 seconds
    assert_eq!(a.departed_at, 1_000);
    assert_eq!(a.arrives_at, 1_000 + 1_125_000);
    assert_eq!(a.returns_at, Some(1_000 + 2_250_000));
    assert!(!a.is_returning && !a.is_stationed);
}

#[test]
fn send_army_refusals_come_in_order() {
    let defs = catalog();
    let mut from = village(1);
    let own = village(1);
    let mut g = home_garrison();
    let bad = |e: AppError| match e {
        AppError::BadRequest(m) => m,
        other => panic!("{:?}", other),
    };
    let mut send = |player: u128, target: Option<&Village>, r: SendArmyRequest| {
        ArmyService::send_army(player, &mut from, &mut g, target, &defs, r, 500, 0)
    };
    assert_eq!(
        bad(send(2, None, request(MissionType::Settle, &[])).unwrap_err()),
        "Only Raid, Attack, Scout, Support, and Conquer missions are currently supported"
    );
    assert_eq!(
        bad(send(2, None, request(MissionType::Conquer, &[(TroopType::Crossbowman, 1)]))
            .unwrap_err()),
        "Conquer mission requires at least one Chief unit (Royal Advisor, Harbor Master, or Elder Chief)"
    );
    assert_eq!(
        send(2, None, request(MissionType::Raid, &[(TroopType::Crossbowman, 99)])).unwrap_err(),
        AppError::Forbidden
    );
    let mut negative = request(MissionType::Raid, &[(TroopType::Crossbowman, 99)]);
    negative.troops.counts[0] = -1;
    assert_eq!(bad(send(1, None, negative).unwrap_err()), "Troop counts must be positive");
    assert_eq!(
        bad(send(1, None, request(MissionType::Raid, &[(TroopType::Crossbowman, 21)]))
            .unwrap_err()),
        "Not enough Crossbowman: have 20, need 21"
    );
    assert_eq!(
        bad(send(1, Some(&own), request(MissionType::Raid, &[])).unwrap_err()),
        "Must send at least one troop"
    );
    assert_eq!(
        bad(send(1, Some(&own), request(MissionType::Scout, &[(TroopType::Crossbowman, 1)]))
            .unwrap_err()),
        "Cannot attack your own village"
    );
    assert_eq!(
        bad(send(1, None, request(MissionType::Support, &[(TroopType::Crossbowman, 1)]))
            .unwrap_err()),
        "Support mission requires a target village"
    );
    let mut loaded = request(MissionType::Support, &[(TroopType::Crossbowman, 1)]);
    loaded.resources.iron = -5;
    assert_eq!(
        bad(send(1, Some(&own), loaded).unwrap_err()),
        "Carried resources must not be negative"
    );
    let mut heavy = request(MissionType::Support, &[(TroopType::Crossbowman, 1)]);
    heavy.resources.wood = 21;
    assert_eq!(bad(send(1, Some(&own), heavy).unwrap_err()), "Troops cannot carry that much");
    let mut dear = request(MissionType::Support, &[(TroopType::Crossbowman, 10)]);
    dear.resources.clay = 101;
    assert_eq!(bad(send(1, Some(&own), dear).unwrap_err()), "Not enough resources");
    assert!(send(1, Some(&own), request(MissionType::Support, &[(TroopType::ElderChief, 2)]))
        .is_ok());
    assert_eq!(g.home.get(TroopType::Crossbowman), 20);
    assert_eq!(g.home.get(TroopType::ElderChief), 0);
    assert_eq!((from.wood, from.clay, from.iron, from.crop), (100, 100, 100, 100));
}

#[test]
fn what_an_army_carries_leaves_the_stores() {
    let defs = catalog();
    let mut from = village(1);
    let own = village(1);
    let mut g = home_garrison();
    let mut r = request(MissionType::Support, &[(TroopType::Crossbowman, 5)]);
    r.resources = CarriedResources { wood: 60, clay: 0, iron: 30, crop: 10 };
    let a = ArmyService::send_army(1, &mut from, &mut g, Some(&own), &defs, r, 500, 0).unwrap();
    assert_eq!(a.resources, CarriedResources { wood: 60, clay: 0, iron: 30, crop: 10 });
    assert_eq!((from.wood, from.clay, from.iron, from.crop), (40, 100, 70, 90));
    assert_eq!(ArmyService::calculate_carry_capacity(&a.troops, &defs), 100);
    assert!(a.is_valid() && from.is_valid());
}

#[test]
fn a_request_names_at_least_one_troop_of_each_kind_it_names() {
    let t = ArmyService::request_troops(&vec![
        (TroopType::Spearman, 4),
        (TroopType::Infantry, 1),
        (TroopType::Spearman, 6),
    ])
    .unwrap();
    assert_eq!(t.entries(), vec![(TroopType::Infantry, 1), (TroopType::Spearman, 6)]);
    assert_eq!(ArmyService::request_troops(&Vec::new()).unwrap(), ArmyTroops::new());
    let bad = AppError::BadRequest(String::from("Troop counts must be positive"));
    assert_eq!(
        ArmyService::request_troops(&vec![(TroopType::Infantry, 1), (TroopType::Spearman, 0)]),
        Err(bad.clone())
    );
    assert_eq!(ArmyService::request_troops(&vec![(TroopType::Infantry, -3)]), Err(bad));
}

#[test]
fn a_woodcutter_of_level_three_gives_eight_an_hour() {
    let mut v = village(1);
    let fields = vec![building(BuildingType::Woodcutter, 3)];
    ResourceService::refresh(&mut v, &fields, 1_000_000 + 3_600_000);
    assert_eq!((v.wood, v.clay, v.iron, v.crop), (108, 100, 100, 100));
    assert_eq!(v.resources_updated_at, 4_600_000);
}

#[test]
fn smaller_stores_hold_less() {
    let mut v = village(1);
    v.warehouse_capacity = 1600;
    v.granary_capacity = 1600;
    v.wood = 1600;
    v.clay = 1000;
    v.crop = 1500;
    let buildings = vec![building(BuildingType::Warehouse, 1), building(BuildingType::Granary, 2)];
    BuildingService::update_village_storage(&mut v, &buildings);
    assert_eq!((v.warehouse_capacity, v.granary_capacity), (1280, 1376));
    assert_eq!((v.wood, v.clay, v.iron, v.crop), (1280, 1000, 100, 1376));
    assert!(v.is_valid());
}

fn scout(
    a: &mut Army,
    target: Village,
    g: &mut Garrison,
    home: Option<(i32, i32)>,
    defs: &Vec<TroopDefinition>,
    report_id: u128,
    now: i64,
) -> ScoutOutcome {
    let mut d = Some(Defence {
        village: target,
        garrison: std::mem::replace(g, Garrison::new()),
        armies: Vec::new(),
    });
    let out = ArmyService::handle_scout_arrival(a, &mut d, home, defs, report_id, now);
    *g = d.unwrap().garrison;
    out.unwrap()
}

#[test]
fn scout_failure_scenario() {
    let defs = catalog();
    let mut a = army(MissionType::Scout, &[(TroopType::Crossbowman, 5)]);
    let target = village(2);
    let mut g = Garrison::new();
    g.set_row(TroopType::Crossbowman, 20, 20);
    let out = scout(&mut a, target, &mut g, Some((0, 0)), &defs, 70, 9);
    assert!(!out.result.success);
    assert_eq!(out.result.attacker_losses, 5);
    assert_eq!(out.result.defender_losses, 2);
    assert_eq!(out.report.scouted_resources, None);
    assert_eq!(out.report.scouted_troops, None);
    assert_eq!((out.report.scouts_sent, out.report.defender_scouts), (5, 20));
    assert_eq!(g.home.get(TroopType::Crossbowman), 18);
    assert_eq!(g.owned.get(TroopType::Crossbowman), 18);
    assert_eq!(out.fallen.get(TroopType::Crossbowman), 5);
    assert!(out.army_deleted);
    assert!(!a.is_returning);
}

#[test]
fn scouts_see_an_unguarded_village() {
    let defs = catalog();
    let mut a = army(MissionType::Scout, &[(TroopType::Crossbowman, 5)]);
    let target = village(2);
    let mut g = Garrison::new();
    let out = scout(&mut a, target, &mut g, Some((0, 0)), &defs, 70, 9);
    assert!(out.result.success);
    assert_eq!((out.result.attacker_losses, out.result.defender_losses), (0, 0));
    assert_eq!(
        out.report.scouted_resources,
        Some(CarriedResources { wood: 100, clay: 100, iron: 100, crop: 100 })
    );
    assert_eq!(out.report.scouted_troops, Some(ArmyTroops::new()));
    assert!(!out.army_deleted);
    assert!(a.is_returning);
    assert_eq!(a.arrives_at, 9 + 1_125_000);
}

#[test]
fn successful_scouts_still_pay() {
    // powers 160 against 80: ratio 2/3, scouts lose ceil(10 * 0.8 / 3) = 3,
    // the garrison ceil(10 * 1 / 3) = 4
    let r = ArmyService::resolve_scouting(10, 10, 160, 80);
    assert!(r.success);
    assert_eq!((r.attacker_losses, r.defender_losses), (3, 4));
    let left = ArmyService::calculate_scout_survivors(
        &troops(&[(TroopType::Crossbowman, 7), (TroopType::MountainWarrior, 3)]),
        3,
        10,
    );
    assert_eq!(left.get(TroopType::Crossbowman), 4);
    assert_eq!(left.get(TroopType::MountainWarrior), 2);
    let same = ArmyService::calculate_scout_survivors(&troops(&[(TroopType::Crossbowman, 7)]), 0, 7);
    assert_eq!(same.get(TroopType::Crossbowman), 7);
    assert_eq!(
        ArmyService::calculate_scout_power(&troops(&[(TroopType::Crossbowman, 5)]), &catalog()),
        80
    );
}

#[test]
fn support_is_stationed_and_recalled() {
    let defs = catalog();
    let mut a = army(MissionType::Support, &[(TroopType::MountainWarrior, 4)]);
    assert_eq!(ArmyService::arrival_action(&a), ArrivalAction::Station);
    ArmyService::handle_support_arrival(&mut a, true, Some((0, 0)), &defs, 0);
    assert!(a.is_stationed && !a.is_returning);
    assert_eq!(
        ArmyService::recall_support(&mut a, 2, Some((0, 0)), &defs, 0).unwrap_err(),
        AppError::Forbidden
    );
    assert_eq!(
        ArmyService::recall_support(&mut a, 1, None, &defs, 0).unwrap_err(),
        AppError::NotFound(String::from("Home village not found"))
    );
    ArmyService::recall_support(&mut a, 1, Some((0, 0)), &defs, 1_000).unwrap();
    assert!(!a.is_stationed && a.is_returning);
    // 5 fields at speed 8: 2250 seconds
    assert_eq!(a.arrives_at, 1_000 + 2_250_000);
    assert_eq!(
        ArmyService::recall_support(&mut a, 1, Some((0, 0)), &defs, 0).unwrap_err(),
        AppError::BadRequest(String::from("Army is not stationed"))
    );
    assert_eq!(ArmyService::arrival_action(&a), ArrivalAction::ComeHome);
}

#[test]
fn arrival_goes_by_mission() {
    assert_eq!(ArmyService::arrival_action(&army(MissionType::Raid, &[])), ArrivalAction::Fight);
    assert_eq!(ArmyService::arrival_action(&army(MissionType::Attack, &[])), ArrivalAction::Fight);
    assert_eq!(ArmyService::arrival_action(&army(MissionType::Scout, &[])), ArrivalAction::Scout);
    assert_eq!(
        ArmyService::arrival_action(&army(MissionType::Conquer, &[])),
        ArrivalAction::Conquer
    );
    assert_eq!(ArmyService::arrival_action(&army(MissionType::Settle, &[])), ArrivalAction::Ignore);
    let mut a = army(MissionType::Raid, &[]);
    assert!(!ArmyService::has_arrived(&a, 99));
    assert!(ArmyService::has_arrived(&a, 100));
    a.is_stationed = true;
    assert!(!ArmyService::has_arrived(&a, 100));
}

#[test]
fn returning_army_brings_troops_and_loot_home() {
    let mut a = army(MissionType::Raid, &[(TroopType::Crossbowman, 7)]);
    a.is_returning = true;
    a.resources = CarriedResources { wood: 750, clay: 5, iron: 0, crop: 1 };
    let mut g = home_garrison();
    let mut v = village(1);
    ArmyService::handle_returning_army(&a, &mut g, &mut v).unwrap();
    assert_eq!(g.home.get(TroopType::Crossbowman), 27);
    assert_eq!(g.owned.get(TroopType::Crossbowman), 30);
    assert_eq!((v.wood, v.clay, v.iron, v.crop), (800, 105, 100, 101));
    let many = army(MissionType::Raid, &[(TroopType::Crossbowman, 4)]);
    assert_eq!(
        ArmyService::handle_returning_army(&many, &mut g, &mut v).unwrap_err(),
        AppError::InternalError
    );
    assert_eq!(g.home.get(TroopType::Crossbowman), 27);
}

#[test]
fn empty_tile_sends_the_army_home() {
    let defs = catalog();
    let mut a = army(MissionType::Attack, &[(TroopType::MountainWarrior, 4)]);
    ArmyService::return_home(&mut a, None, &defs, 50);
    assert!(a.is_returning);
    assert_eq!(a.troops.get(TroopType::MountainWarrior), 4);
    assert_eq!(a.resources, CarriedResources { wood: 0, clay: 0, iron: 0, crop: 0 });
    assert_eq!(a.battle_report_id, None);
    assert_eq!(a.arrives_at, 50 + 2_250_000);
}

#[test]
fn troop_row_shows_who_is_away() {
    let row = Troop {
        id: 1,
        village_id: 11,
        troop_type: TroopType::SeaDiver,
        count: 30,
        in_village: 12,
        created_at: 0,
        updated_at: 0,
    };
    assert_eq!(
        TroopResponse::from_troop(row),
        TroopResponse { troop_type: TroopType::SeaDiver, count: 30, in_village: 12, on_mission: 18 }
    );
}

#[test]
fn garrison_rows_keep_home_within_owned() {
    let mut g = Garrison::new();
    g.add_troops(TroopType::Spearman, 10);
    g.remove_troops_from_village(TroopType::Spearman, 4);
    assert_eq!((g.owned.get(TroopType::Spearman), g.home.get(TroopType::Spearman)), (10, 6));
    g.kill_troops(TroopType::Spearman, 7);
    assert_eq!((g.owned.get(TroopType::Spearman), g.home.get(TroopType::Spearman)), (3, 0));
    g.return_troops_to_village(TroopType::Spearman, 3);
    assert_eq!((g.owned.get(TroopType::Spearman), g.home.get(TroopType::Spearman)), (3, 3));
}

#[test]
fn responses_show_what_clients_may_see() {
    let q = TroopQueueResponse::from(batch(3));
    assert_eq!(
        q,
        TroopQueueResponse {
            id: 40,
            troop_type: TroopType::Crossbowman,
            count: 3,
            each_duration_seconds: 90,
            started_at: 0,
            ends_at: 270_000,
        }
    );
    let d = TroopDefinitionResponse::from(definition(TroopType::ElderChief, 4, 25));
    assert_eq!(d.troop_type, TroopType::ElderChief);
    assert_eq!((d.name.as_str(), d.description.as_deref()), ("unit", Some("a unit")));
    assert_eq!((d.attack, d.defense_infantry, d.defense_cavalry, d.speed), (10, 10, 10, 4));
    assert_eq!((d.wood_cost, d.clay_cost, d.iron_cost, d.crop_cost), (30, 20, 10, 5));
    assert_eq!((d.carry_capacity, d.crop_consumption, d.training_time_seconds), (20, 1, 90));
    assert_eq!((d.required_building, d.required_building_level), (BuildingType::Barracks, 2));
    assert_eq!(d.loyalty_reduction, 25);
}

#[test]
fn a_catalog_needs_speed_and_no_negative_stat() {
    assert!(catalog_is_valid(&catalog()));
    let mut slow = catalog();
    slow[1].speed = 0;
    assert!(!catalog_is_valid(&slow));
    let mut weak = catalog();
    weak[2].attack = -1;
    assert!(!catalog_is_valid(&weak));
    assert!(catalog_is_valid(&Vec::new()));
}
