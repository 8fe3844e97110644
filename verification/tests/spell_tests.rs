use vrpg::dice::DiceExpression;
use vrpg::spells::{
    AreaOfEffect, CastingTime, Spell, SpellAttackType, SpellCastRequest, SpellCaster, SpellComponents, SpellDatabase,
    SpellDuration, SpellEffect, SpellLevel, SpellRange, SpellSavingThrow, SpellSchool, SpellSlots,
};

#[test]
fn test_spell_level() {
    let level1 = SpellLevel::new(1).unwrap();
    assert!(!level1.is_cantrip());
    assert_eq!(level1.value(), 1);

    let cantrip = SpellLevel::new(0).unwrap();
    assert!(cantrip.is_cantrip());
}

#[test]
fn test_spell_slots_for_full_caster() {
    let slots = SpellSlots::for_full_caster(5).unwrap();
    assert_eq!(slots.available(1), 4);
    assert_eq!(slots.available(2), 3);
    assert_eq!(slots.available(3), 2);
}

#[test]
fn test_spell_slots_use() {
    let mut slots = SpellSlots::for_full_caster(5).unwrap();
    assert_eq!(slots.available(1), 4);
    
    slots.use_slot(1).unwrap();
    assert_eq!(slots.available(1), 3);
    
    slots.use_slot(1).unwrap();
    assert_eq!(slots.available(1), 2);
}

#[test]
fn test_spell_slots_restore_all() {
    let mut slots = SpellSlots::for_full_caster(5).unwrap();
    slots.use_slot(1).unwrap();
    slots.use_slot(2).unwrap();
    
    assert_eq!(slots.available(1), 3);
    assert_eq!(slots.available(2), 2);
    
    slots.restore_all();
    assert_eq!(slots.available(1), 4);
    assert_eq!(slots.available(2), 3);
}

#[test]
fn test_spell_database() {
    let mut db = SpellDatabase::new();
    
    let spell = Spell {
        name: "Fireball".to_string(),
        level: SpellLevel::new(3).unwrap(),
        school: SpellSchool::Evocation,
        casting_time: CastingTime::Action,
        range: SpellRange::Feet(150),
        components: SpellComponents::new()
            .with_verbal()
            .with_somatic()
            .with_material("A tiny ball of bat guano and sulfur".to_string(), false),
        duration: SpellDuration::Instantaneous,
        description: "A bright streak flashes from your pointing finger...".to_string(),
        higher_levels: Some("At higher levels: +1d6 damage per level above 3rd".to_string()),
        classes: vec!["Sorcerer".to_string(), "Wizard".to_string()],
        ritual: false,
        concentration: false,
        area_of_effect: AreaOfEffect::Sphere { radius: 20 },
        attack_type: SpellAttackType::NoAttack,
        saving_throw: Some(SpellSavingThrow {
            ability: "dexterity".to_string(),
            success: "Half damage".to_string(),
            failure: "Full damage".to_string(),
        }),
        effect: SpellEffect {
            damage: Some(DiceExpression {
                count: 8,
                sides: 6,
                modifier: 0,
            }),
            damage_type: Some("fire".to_string()),
            healing: None,
            condition: None,
            description: "Deals fire damage in a 20-foot radius sphere".to_string(),
        },
    };

    db.add_spell(spell);
    
    let found = db.get_spell("Fireball");
    assert!(found.is_some());
    assert_eq!(found.unwrap().name, "Fireball");
}

#[test]
fn test_spell_caster_validate_cantrip() {
    let caster = SpellCaster::new();
    let slots = SpellSlots::for_full_caster(5).unwrap();

    let cantrip = Spell {
        name: "Fire Bolt".to_string(),
        level: SpellLevel::new(0).unwrap(),
        school: SpellSchool::Evocation,
        casting_time: CastingTime::Action,
        range: SpellRange::Feet(120),
        components: SpellComponents::new().with_verbal().with_somatic(),
        duration: SpellDuration::Instantaneous,
        description: "A bolt of fire...".to_string(),
        higher_levels: None,
        classes: vec!["Wizard".to_string()],
        ritual: false,
        concentration: false,
        area_of_effect: AreaOfEffect::NoArea,
        attack_type: SpellAttackType::Ranged,
        saving_throw: None,
        effect: SpellEffect {
            damage: Some(DiceExpression {
                count: 1,
                sides: 10,
                modifier: 0,
            }),
            damage_type: Some("fire".to_string()),
            healing: None,
            condition: None,
            description: "Deals fire damage".to_string(),
        },
    };

    // Cantrips don't require slots
    assert!(caster.validate_cast(&cantrip, &slots, None).is_ok());
}

#[test]
fn test_spell_caster_validate_requires_slot() {
    let caster = SpellCaster::new();
    let mut slots = SpellSlots::for_full_caster(5).unwrap();

    let fireball = Spell {
        name: "Fireball".to_string(),
        level: SpellLevel::new(3).unwrap(),
        school: SpellSchool::Evocation,
        casting_time: CastingTime::Action,
        range: SpellRange::Feet(150),
        components: SpellComponents::new()
            .with_verbal()
            .with_somatic()
            .with_material("A tiny ball of bat guano and sulfur".to_string(), false),
        duration: SpellDuration::Instantaneous,
        description: "A bright streak flashes...".to_string(),
        higher_levels: Some("At higher levels: +1d6 damage per level above 3rd".to_string()),
        classes: vec!["Sorcerer".to_string(), "Wizard".to_string()],
        ritual: false,
        concentration: false,
        area_of_effect: AreaOfEffect::Sphere { radius: 20 },
        attack_type: SpellAttackType::NoAttack,
        saving_throw: Some(SpellSavingThrow {
            ability: "dexterity".to_string(),
            success: "Half damage".to_string(),
            failure: "Full damage".to_string(),
        }),
        effect: SpellEffect {
            damage: Some(DiceExpression {
                count: 8,
                sides: 6,
                modifier: 0,
            }),
            damage_type: Some("fire".to_string()),
            healing: None,
            condition: None,
            description: "Deals fire damage".to_string(),
        },
    };

    // Should validate with available slots
    assert!(caster.validate_cast(&fireball, &slots, None).is_ok());

    // Use all 3rd level slots
    slots.use_slot(3).unwrap();
    slots.use_slot(3).unwrap();

    // Should fail validation
    assert!(caster.validate_cast(&fireball, &slots, None).is_err());
}

#[test]
fn test_spell_caster_cast_cantrip() {
    let caster = SpellCaster::new();
    let mut slots = SpellSlots::for_full_caster(5).unwrap();

    let cantrip = Spell {
        name: "Fire Bolt".to_string(),
        level: SpellLevel::new(0).unwrap(),
        school: SpellSchool::Evocation,
        casting_time: CastingTime::Action,
        range: SpellRange::Feet(120),
        components: SpellComponents::new().with_verbal().with_somatic(),
        duration: SpellDuration::Instantaneous,
        description: "A bolt of fire...".to_string(),
        higher_levels: None,
        classes: vec!["Wizard".to_string()],
        ritual: false,
        concentration: false,
        area_of_effect: AreaOfEffect::NoArea,
        attack_type: SpellAttackType::Ranged,
        saving_throw: None,
        effect: SpellEffect {
            damage: Some(DiceExpression {
                count: 1,
                sides: 10,
                modifier: 0,
            }),
            damage_type: Some("fire".to_string()),
            healing: None,
            condition: None,
            description: "Deals fire damage".to_string(),
        },
    };

    let request = SpellCastRequest {
        spell_name: "Fire Bolt".to_string(),
        slot_level: None,
        caster_level: 5,
        spell_ability_modifier: 3,
        spell_save_dc: 14,
        spell_attack_bonus: 6,
        seed: Some(12345),
    };

    let result = caster.cast(&cantrip, &request, &mut slots).unwrap();
    assert_eq!(result.spell_name, "Fire Bolt");
    assert_eq!(result.slot_used, None); // Cantrips don't use slots
    assert!(result.attack_roll.is_some());
    assert!(result.damage.is_some());
}

#[test]
fn test_spell_database_search() {
    let mut db = SpellDatabase::new();

    let fireball = Spell {
        name: "Fireball".to_string(),
        level: SpellLevel::new(3).unwrap(),
        school: SpellSchool::Evocation,
        casting_time: CastingTime::Action,
        range: SpellRange::Feet(150),
        components: SpellComponents::new().with_verbal().with_somatic(),
        duration: SpellDuration::Instantaneous,
        description: "A bright streak flashes from your pointing finger...".to_string(),
        higher_levels: None,
        classes: vec!["Wizard".to_string()],
        ritual: false,
        concentration: false,
        area_of_effect: AreaOfEffect::Sphere { radius: 20 },
        attack_type: SpellAttackType::NoAttack,
        saving_throw: None,
        effect: SpellEffect {
            damage: Some(DiceExpression {
                count: 8,
                sides: 6,
                modifier: 0,
            }),
            damage_type: Some("fire".to_string()),
            healing: None,
            condition: None,
            description: "Deals fire damage".to_string(),
        },
    };

    let magic_missile = Spell {
        name: "Magic Missile".to_string(),
        level: SpellLevel::new(1).unwrap(),
        school: SpellSchool::Evocation,
        casting_time: CastingTime::Action,
        range: SpellRange::Feet(120),
        components: SpellComponents::new().with_verbal().with_somatic(),
        duration: SpellDuration::Instantaneous,
        description: "You create three glowing darts of magical force...".to_string(),
        higher_levels: None,
        classes: vec!["Wizard".to_string()],
        ritual: false,
        concentration: false,
        area_of_effect: AreaOfEffect::NoArea,
        attack_type: SpellAttackType::NoAttack,
        saving_throw: None,
        effect: SpellEffect {
            damage: Some(DiceExpression {
                count: 3,
                sides: 4,
                modifier: 3,
            }),
            damage_type: Some("force".to_string()),
            healing: None,
            condition: None,
            description: "Deals force damage".to_string(),
        },
    };

    db.add_spell(fireball);
    db.add_spell(magic_missile);

    let results = db.search_spells("fire");
    assert_eq!(results.len(), 1);
    assert_eq!(results[0].name, "Fireball");

    let results = db.search_spells("missile");
    assert_eq!(results.len(), 1);
    assert_eq!(results[0].name, "Magic Missile");
}

#[test]
fn test_spell_database_by_level() {
    let mut db = SpellDatabase::new();

    let fireball = Spell {
        name: "Fireball".to_string(),
        level: SpellLevel::new(3).unwrap(),
        school: SpellSchool::Evocation,
        casting_time: CastingTime::Action,
        range: SpellRange::Feet(150),
        components: SpellComponents::new().with_verbal().with_somatic(),
        duration: SpellDuration::Instantaneous,
        description: "A bright streak...".to_string(),
        higher_levels: None,
        classes: vec!["Wizard".to_string()],
        ritual: false,
        concentration: false,
        area_of_effect: AreaOfEffect::NoArea,
        attack_type: SpellAttackType::NoAttack,
        saving_throw: None,
        effect: SpellEffect {
            damage: Some(DiceExpression {
                count: 8,
                sides: 6,
                modifier: 0,
            }),
            damage_type: Some("fire".to_string()),
            healing: None,
            condition: None,
            description: "Deals fire damage".to_string(),
        },
    };

    let magic_missile = Spell {
        name: "Magic Missile".to_string(),
        level: SpellLevel::new(1).unwrap(),
        school: SpellSchool::Evocation,
        casting_time: CastingTime::Action,
        range: SpellRange::Feet(120),
        components: SpellComponents::new().with_verbal().with_somatic(),
        duration: SpellDuration::Instantaneous,
        description: "You create three glowing darts...".to_string(),
        higher_levels: None,
        classes: vec!["Wizard".to_string()],
        ritual: false,
        concentration: false,
        area_of_effect: AreaOfEffect::NoArea,
        attack_type: SpellAttackType::NoAttack,
        saving_throw: None,
        effect: SpellEffect {
            damage: Some(DiceExpression {
                count: 3,
                sides: 4,
                modifier: 3,
            }),
            damage_type: Some("force".to_string()),
            healing: None,
            condition: None,
            description: "Deals force damage".to_string(),
        },
    };

    db.add_spell(fireball);
    db.add_spell(magic_missile);

    let level_1 = db.get_spells_by_level(1);
    assert_eq!(level_1.len(), 1);
    assert_eq!(level_1[0].name, "Magic Missile");

    let level_3 = db.get_spells_by_level(3);
    assert_eq!(level_3.len(), 1);
    assert_eq!(level_3[0].name, "Fireball");
}

#[test]
fn test_spell_components() {
    let components = SpellComponents::new()
        .with_verbal()
        .with_somatic()
        .with_material("A piece of iron".to_string(), false);

    assert!(components.verbal);
    assert!(components.somatic);
    assert!(components.material);
    assert_eq!(components.material_description, Some("A piece of iron".to_string()));
    assert!(!components.consumes_material);
}

#[test]
fn test_spell_slots_restore() {
    let mut slots = SpellSlots::for_full_caster(5).unwrap();
    
    slots.use_slot(1).unwrap();
    slots.use_slot(2).unwrap();
    
    assert_eq!(slots.available(1), 3);
    assert_eq!(slots.available(2), 2);
    
    slots.restore_slot(1).unwrap();
    assert_eq!(slots.available(1), 4);
    assert_eq!(slots.available(2), 2);
}


fn plain_spell(name: &str, level: u8, description: &str) -> Spell {
    Spell {
        name: name.to_string(),
        level: SpellLevel::new(level).unwrap(),
        school: SpellSchool::Evocation,
        casting_time: CastingTime::Action,
        range: SpellRange::Feet(60),
        components: SpellComponents::new().with_verbal(),
        duration: SpellDuration::Instantaneous,
        description: description.to_string(),
        higher_levels: None,
        classes: vec!["Wizard".to_string()],
        ritual: false,
        concentration: false,
        area_of_effect: AreaOfEffect::NoArea,
        attack_type: SpellAttackType::NoAttack,
        saving_throw: None,
        effect: SpellEffect {
            damage: None,
            damage_type: None,
            healing: None,
            condition: None,
            description: String::new(),
        },
    }
}

#[test]
fn lookup_finds_the_last_spell_added_under_a_name() {
    let mut db = SpellDatabase::new();
    db.add_spell(plain_spell("Shield", 1, "first"));
    db.add_spell(plain_spell("Light", 0, "glow"));
    db.add_spell(plain_spell("Shield", 1, "second"));
    assert_eq!(db.get_spell("Shield").unwrap().description, "second");
    assert_eq!(db.get_spell("Light").unwrap().description, "glow");
    assert!(db.get_spell("shield").is_none());
    assert!(db.get_spell("Sleep").is_none());
}

#[test]
fn available_is_total_less_spent() {
    let mut slots = SpellSlots::for_full_caster(5).unwrap();
    assert_eq!(slots.available(1), 4);
    slots.use_slot(1).unwrap();
    slots.use_slot(1).unwrap();
    assert_eq!(slots.available(1), 2);
    assert_eq!(slots.available(0), 0);
    assert_eq!(slots.available(4), 0);
    assert_eq!(slots.max_level(), 3);
    assert_eq!(slots.total_used(), 2);
    assert_eq!(slots.total_slots(), 9);
}
