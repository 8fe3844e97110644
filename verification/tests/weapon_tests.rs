use vrpg::weapons::{WeaponCategory, WeaponDatabase, WeaponProperty, WeaponType};

#[test]
fn test_weapon_database() {
    let weapons = WeaponDatabase::all_weapons();
    assert!(weapons.len() > 0);

    let longsword = WeaponDatabase::get_weapon("Longsword");
    assert!(longsword.is_some());
    let ls = longsword.unwrap();
    assert_eq!(ls.category, WeaponCategory::Martial);
    assert_eq!(ls.weapon_type, WeaponType::Melee);
    assert!(ls.properties.contains(&WeaponProperty::Versatile));
}

#[test]
fn test_versatile_damage() {
    let longsword = WeaponDatabase::get_weapon("Longsword").unwrap();
    let one_handed = longsword.calculate_damage(false);
    let two_handed = longsword.calculate_damage(true);

    assert_eq!(one_handed.sides, 8);
    assert_eq!(two_handed.sides, 10);
}

#[test]
fn test_finesse_weapon() {
    let rapier = WeaponDatabase::get_weapon("Rapier").unwrap();
    assert!(rapier.uses_dexterity());
    assert!(!rapier.uses_strength());

    let longsword = WeaponDatabase::get_weapon("Longsword").unwrap();
    assert!(!longsword.uses_dexterity());
    assert!(longsword.uses_strength());
}

#[test]
fn test_ranged_weapon() {
    let longbow = WeaponDatabase::get_weapon("Longbow").unwrap();
    assert_eq!(longbow.weapon_type, WeaponType::Ranged);
    assert!(longbow.uses_dexterity());
    assert!(longbow.range_normal.is_some());
    assert_eq!(longbow.range_normal.unwrap(), 150);
}

