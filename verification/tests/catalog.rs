use tusk_horn::models::building::{BuildingCost, BuildingType};
use tusk_horn::models::troop::{TribeType, TroopType};

#[test]
fn base_cost_of_main_building() {
    assert_eq!(
        BuildingType::MainBuilding.base_cost(),
        BuildingCost { wood: 70, clay: 40, iron: 60, crop: 20, time_seconds: 300 }
    );
}

#[test]
fn cost_at_level_one_is_base_cost() {
    assert_eq!(BuildingType::Barracks.cost_at_level(1), BuildingType::Barracks.base_cost());
}

#[test]
fn cost_grows_by_1_28_per_level() {
    let c = BuildingType::MainBuilding.cost_at_level(2);
    assert_eq!(c, BuildingCost { wood: 89, clay: 51, iron: 76, crop: 25, time_seconds: 384 });
    let c = BuildingType::Embassy.cost_at_level(3);
    assert_eq!(c, BuildingCost { wood: 163, clay: 163, iron: 163, crop: 81, time_seconds: 491 });
    let c = BuildingType::Barracks.cost_at_level(20);
    assert_eq!(c.time_seconds, 65334);
}

#[test]
fn production_curve_values() {
    let expected = [
        1, 3, 4, 8, 13, 22, 37, 63, 108, 185, 320, 557, 976, 1720, 3052, 5453, 9808, 17761,
        32383, 59443, 109858,
    ];
    for level in 0..=20 {
        assert_eq!(BuildingType::Woodcutter.production_per_hour(level), expected[level as usize]);
    }
    assert_eq!(BuildingType::CropField.production_per_hour(3), 8);
    assert_eq!(BuildingType::Warehouse.production_per_hour(3), 0);
}

#[test]
fn storage_capacity_values() {
    assert_eq!(BuildingType::Warehouse.storage_capacity(0), 800);
    assert_eq!(BuildingType::Barracks.storage_capacity(0), 800);
    assert_eq!(BuildingType::Warehouse.storage_capacity(1), 480);
    assert_eq!(BuildingType::Granary.storage_capacity(2), 576);
    assert_eq!(BuildingType::Granary.storage_capacity(20), 15335);
    assert_eq!(BuildingType::Barracks.storage_capacity(5), 0);
}

#[test]
fn every_building_tops_out_at_twenty() {
    assert_eq!(BuildingType::Wall.max_level(), 20);
    assert_eq!(BuildingType::CropField.max_level(), 20);
    assert_eq!(BuildingType::Market.max_level(), 20);
}

#[test]
fn resource_fields_are_the_four_fields() {
    assert!(BuildingType::Woodcutter.is_resource_field());
    assert!(BuildingType::ClayPit.is_resource_field());
    assert!(BuildingType::IronMine.is_resource_field());
    assert!(BuildingType::CropField.is_resource_field());
    assert!(!BuildingType::Warehouse.is_resource_field());
}

#[test]
fn troop_kind_classification() {
    assert!(TroopType::WarElephant.is_cavalry());
    assert!(TroopType::Infantry.is_infantry());
    assert!(!TroopType::Infantry.is_cavalry());
    assert!(TroopType::RoyalAdvisor.is_chief());
    assert!(!TroopType::Spearman.is_chief());
    assert_eq!(TroopType::HarborMaster.tribe(), TribeType::Nava);
    assert_eq!(TroopType::BattleDuck.tribe(), TribeType::Special);
    assert_eq!(TroopType::ElderChief.tribe(), TribeType::Kiri);
    assert_eq!(TroopType::Infantry.tribe(), TribeType::Phasuttha);
}

#[test]
fn troop_kind_order_round_trips() {
    for i in 0..19 {
        assert_eq!(TroopType::from_index(i).index(), i);
    }
}
