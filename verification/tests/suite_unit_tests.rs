use vrpg::ability::{Ability, AbilityCheckRequest, AbilityChecker};
use vrpg::ability_scores::{AbilityScoreGenerator, AbilityScoreType, AbilityScores};
use vrpg::attack::{AttackRequest, AttackResolver};
use vrpg::condition::{ConditionApplication, ConditionManager, ConditionType};
use vrpg::cr_xp::{xp_to_cr_approximate, ChallengeRating};
use vrpg::damage::{Damage, DamageRequest, DamageResolver, DamageType};
use vrpg::dice::{DiceExpression, DiceRoller, RollMode};
use vrpg::skills::{Skill, SkillCalculator};

#[test]
fn test_ability_scores_new() {
    let scores = AbilityScores::new(15, 14, 13, 12, 10, 8);
    assert_eq!(scores.strength, 15);
    assert_eq!(scores.dexterity, 14);
    assert_eq!(scores.constitution, 13);
    assert_eq!(scores.intelligence, 12);
    assert_eq!(scores.wisdom, 10);
    assert_eq!(scores.charisma, 8);
}

#[test]
fn test_ability_modifiers() {
    let scores = AbilityScores::new(15, 10, 8, 20, 12, 16);
    assert_eq!(scores.get_modifier(AbilityScoreType::Strength), 2);
    assert_eq!(scores.get_modifier(AbilityScoreType::Dexterity), 0);
    assert_eq!(scores.get_modifier(AbilityScoreType::Constitution), -1);
    assert_eq!(scores.get_modifier(AbilityScoreType::Intelligence), 5);
    assert_eq!(scores.get_modifier(AbilityScoreType::Wisdom), 1);
    assert_eq!(scores.get_modifier(AbilityScoreType::Charisma), 3);
}

#[test]
fn ability_scores_test_test_standard_array() {
    let scores = AbilityScoreGenerator::generate_standard_array();
    assert_eq!(scores.strength, 15);
    assert_eq!(scores.dexterity, 14);
    assert_eq!(scores.constitution, 13);
    assert_eq!(scores.intelligence, 12);
    assert_eq!(scores.wisdom, 10);
    assert_eq!(scores.charisma, 8);
}

#[test]
fn ability_scores_test_test_rolling_deterministic() {
    let seed = 12345;
    let scores1 = AbilityScoreGenerator::generate_rolling(Some(seed));
    let scores2 = AbilityScoreGenerator::generate_rolling(Some(seed));
    assert_eq!(scores1.strength, scores2.strength);
    assert_eq!(scores1.dexterity, scores2.dexterity);
}

#[test]
fn ability_scores_test_test_score_limits() {
    let mut scores = AbilityScores::new(20, 20, 20, 20, 20, 20);
    assert!(scores.increase_score(AbilityScoreType::Strength, 10).is_ok());
    assert_eq!(scores.strength, 30);
    assert!(scores.increase_score(AbilityScoreType::Strength, 1).is_err());
}


#[test]
fn attack_test_test_attack_hit_calculation() {
    let resolver = AttackResolver::new();
    let request = AttackRequest {
        attack_bonus: 5,
        ac: 15,
        advantage: false,
        disadvantage: false,
        seed: Some(100),
    };
    let result = resolver.resolve(&request).unwrap();
    assert!(result.roll >= 1 && result.roll <= 20);
    assert_eq!(result.total, result.roll + 5);
    assert_eq!(result.ac, 15);
}

#[test]
fn attack_test_test_attack_critical_hit() {
    let resolver = AttackResolver::new();
    // Testar com vários seeds até encontrar um que dê 20
    for seed in 0..1000 {
        let request = AttackRequest {
            attack_bonus: 0,
            ac: 30,
            advantage: false,
            disadvantage: false,
            seed: Some(seed),
        };
        let result = resolver.resolve(&request).unwrap();
        if result.natural_roll == 20 {
            assert!(result.critical_hit);
            assert!(result.hit);
            return;
        }
    }
    // Se não encontrou em 1000 tentativas, algo está errado
    panic!("Could not find natural 20 in 1000 attempts");
}

#[test]
fn attack_test_test_attack_critical_miss() {
    let resolver = AttackResolver::new();
    // Testar com vários seeds até encontrar um que dê 1
    for seed in 0..1000 {
        let request = AttackRequest {
            attack_bonus: 10,
            ac: 5,
            advantage: false,
            disadvantage: false,
            seed: Some(seed),
        };
        let result = resolver.resolve(&request).unwrap();
        if result.natural_roll == 1 {
            assert!(result.critical_miss);
            assert!(!result.hit);
            return;
        }
    }
    panic!("Could not find natural 1 in 1000 attempts");
}

#[test]
fn attack_test_test_attack_with_advantage() {
    let resolver = AttackResolver::new();
    let request = AttackRequest {
        attack_bonus: 5,
        ac: 15,
        advantage: true,
        disadvantage: false,
        seed: Some(50),
    };
    let result = resolver.resolve(&request).unwrap();
    assert!(result.total >= request.attack_bonus + 1);
    assert!(result.total <= request.attack_bonus + 20);
}

#[test]
fn attack_test_test_attack_with_disadvantage() {
    let resolver = AttackResolver::new();
    let request = AttackRequest {
        attack_bonus: 5,
        ac: 15,
        advantage: false,
        disadvantage: true,
        seed: Some(50),
    };
    let result = resolver.resolve(&request).unwrap();
    assert!(result.total >= request.attack_bonus + 1);
    assert!(result.total <= request.attack_bonus + 20);
}

#[test]
fn attack_test_test_attack_advantage_disadvantage_cancel() {
    let resolver = AttackResolver::new();
    let request = AttackRequest {
        attack_bonus: 5,
        ac: 15,
        advantage: true,
        disadvantage: true,
        seed: Some(50),
    };
    let result = resolver.resolve(&request).unwrap();
    // Should resolve as normal (single roll)
    assert!(result.roll >= 1 && result.roll <= 20);
}

#[test]
fn attack_test_test_attack_edge_cases() {
    let resolver = AttackResolver::new();
    
    // Very high AC
    let request = AttackRequest {
        attack_bonus: 0,
        ac: 30,
        advantage: false,
        disadvantage: false,
        seed: Some(100),
    };
    let result = resolver.resolve(&request).unwrap();
    // Only natural 20 should hit
    assert!(!result.hit || result.critical_hit);
    
    // Very low AC
    let request = AttackRequest {
        attack_bonus: 20,
        ac: 0,
        advantage: false,
        disadvantage: false,
        seed: Some(100),
    };
    let result = resolver.resolve(&request).unwrap();
    // Only natural 1 should miss
    assert!(result.hit || result.critical_miss);
}


#[test]
fn condition_test_test_condition_poisoned() {
    let mut manager = ConditionManager::new();
    manager.apply(&ConditionApplication {
        condition_type: ConditionType::Poisoned,
        duration_rounds: Some(10),
        permanent: false,
    });
    assert!(manager.has(ConditionType::Poisoned));
}

#[test]
fn condition_test_test_condition_stunned() {
    let mut manager = ConditionManager::new();
    manager.apply(&ConditionApplication {
        condition_type: ConditionType::Stunned,
        duration_rounds: Some(5),
        permanent: false,
    });
    assert!(manager.has(ConditionType::Stunned));
}

#[test]
fn condition_test_test_condition_multiple() {
    let mut manager = ConditionManager::new();
    manager.apply(&ConditionApplication {
        condition_type: ConditionType::Poisoned,
        duration_rounds: Some(10),
        permanent: false,
    });
    manager.apply(&ConditionApplication {
        condition_type: ConditionType::Stunned,
        duration_rounds: Some(5),
        permanent: false,
    });
    assert!(manager.has(ConditionType::Poisoned));
    assert!(manager.has(ConditionType::Stunned));
    assert_eq!(manager.get_all().len(), 2);
}

#[test]
fn condition_test_test_condition_duplicate() {
    let mut manager = ConditionManager::new();
    manager.apply(&ConditionApplication {
        condition_type: ConditionType::Poisoned,
        duration_rounds: Some(10),
        permanent: false,
    });
    manager.apply(&ConditionApplication {
        condition_type: ConditionType::Poisoned,
        duration_rounds: Some(5),
        permanent: false,
    });
    // Should only have one condition
    assert_eq!(manager.get_all().iter().filter(|c| c.condition_type == ConditionType::Poisoned).count(), 1);
}

#[test]
fn condition_test_test_condition_remove() {
    let mut manager = ConditionManager::new();
    manager.apply(&ConditionApplication {
        condition_type: ConditionType::Poisoned,
        duration_rounds: Some(10),
        permanent: false,
    });
    manager.remove(ConditionType::Poisoned);
    assert!(!manager.has(ConditionType::Poisoned));
}

#[test]
fn condition_test_test_condition_permanent() {
    let mut manager = ConditionManager::new();
    manager.apply(&ConditionApplication {
        condition_type: ConditionType::Blinded,
        duration_rounds: None,
        permanent: true,
    });
    assert!(manager.has(ConditionType::Blinded));
    manager.expire_conditions();
    // Permanent conditions should not expire
    assert!(manager.has(ConditionType::Blinded));
}

#[test]
fn test_condition_edge_cases() {
    let mut manager = ConditionManager::new();
    
    // Condição aplicada duas vezes
    manager.apply(&ConditionApplication {
        condition_type: ConditionType::Poisoned,
        duration_rounds: Some(10),
        permanent: false,
    });
    manager.apply(&ConditionApplication {
        condition_type: ConditionType::Poisoned,
        duration_rounds: Some(5),
        permanent: false,
    });
    assert_eq!(manager.get_all().iter().filter(|c| c.condition_type == ConditionType::Poisoned).count(), 1);
    
    // Múltiplas condições
    manager.apply(&ConditionApplication {
        condition_type: ConditionType::Stunned,
        duration_rounds: Some(5),
        permanent: false,
    });
    manager.apply(&ConditionApplication {
        condition_type: ConditionType::Blinded,
        duration_rounds: None,
        permanent: true,
    });
    assert_eq!(manager.get_all().len(), 3); // Poisoned, Stunned, Blinded
}


#[test]
fn cr_xp_test_test_cr_to_xp() {
    assert_eq!(ChallengeRating::Zero.to_xp(), 0);
    assert_eq!(ChallengeRating::OneEighth.to_xp(), 25);
    assert_eq!(ChallengeRating::OneQuarter.to_xp(), 50);
    assert_eq!(ChallengeRating::OneHalf.to_xp(), 100);
    assert_eq!(ChallengeRating::One.to_xp(), 200);
    assert_eq!(ChallengeRating::Five.to_xp(), 1_800);
    assert_eq!(ChallengeRating::Ten.to_xp(), 5_900);
    assert_eq!(ChallengeRating::Twenty.to_xp(), 25_000);
    assert_eq!(ChallengeRating::Thirty.to_xp(), 155_000);
}

#[test]
fn cr_xp_test_test_cr_to_proficiency_bonus() {
    assert_eq!(ChallengeRating::Zero.to_proficiency_bonus(), 2);
    assert_eq!(ChallengeRating::One.to_proficiency_bonus(), 2);
    assert_eq!(ChallengeRating::Five.to_proficiency_bonus(), 3);
    assert_eq!(ChallengeRating::Ten.to_proficiency_bonus(), 4);
    assert_eq!(ChallengeRating::Fifteen.to_proficiency_bonus(), 5);
    assert_eq!(ChallengeRating::Twenty.to_proficiency_bonus(), 6);
    assert_eq!(ChallengeRating::TwentyFive.to_proficiency_bonus(), 8);
    assert_eq!(ChallengeRating::Thirty.to_proficiency_bonus(), 8);
}

#[test]
fn cr_xp_test_test_cr_from_string() {
    assert_eq!(
        ChallengeRating::from_str("0").unwrap(),
        ChallengeRating::Zero
    );
    assert_eq!(
        ChallengeRating::from_str("1/8").unwrap(),
        ChallengeRating::OneEighth
    );
    assert_eq!(
        ChallengeRating::from_str("1/4").unwrap(),
        ChallengeRating::OneQuarter
    );
    assert_eq!(
        ChallengeRating::from_str("1/2").unwrap(),
        ChallengeRating::OneHalf
    );
    assert_eq!(
        ChallengeRating::from_str("1").unwrap(),
        ChallengeRating::One
    );
    assert_eq!(
        ChallengeRating::from_str("30").unwrap(),
        ChallengeRating::Thirty
    );
    assert!(ChallengeRating::from_str("invalid").is_err());
}

#[test]
fn cr_xp_test_test_xp_to_cr_approximate() {
    assert_eq!(xp_to_cr_approximate(0), ChallengeRating::Zero);
    assert_eq!(xp_to_cr_approximate(25), ChallengeRating::OneEighth);
    assert_eq!(xp_to_cr_approximate(200), ChallengeRating::One);
    assert_eq!(xp_to_cr_approximate(1_800), ChallengeRating::Five);
    assert_eq!(xp_to_cr_approximate(25_000), ChallengeRating::Twenty);
}


#[test]
fn damage_test_test_damage_calculation() {
    let resolver = DamageResolver::new();
    let request = DamageRequest {
        damage: vec![
            Damage {
                amount: 10,
                damage_type: DamageType::Fire,
            },
        ],
        resistances: vec![],
        vulnerabilities: vec![],
        immunities: vec![],
    };
    let result = resolver.resolve(&request);
    assert_eq!(result.total, 10);
}

#[test]
fn damage_test_test_damage_resistance() {
    let resolver = DamageResolver::new();
    let request = DamageRequest {
        damage: vec![
            Damage {
                amount: 10,
                damage_type: DamageType::Fire,
            },
        ],
        resistances: vec![DamageType::Fire],
        vulnerabilities: vec![],
        immunities: vec![],
    };
    let result = resolver.resolve(&request);
    assert_eq!(result.total, 5); // 10 / 2 = 5
}

#[test]
fn damage_test_test_damage_vulnerability() {
    let resolver = DamageResolver::new();
    let request = DamageRequest {
        damage: vec![
            Damage {
                amount: 10,
                damage_type: DamageType::Fire,
            },
        ],
        resistances: vec![],
        vulnerabilities: vec![DamageType::Fire],
        immunities: vec![],
    };
    let result = resolver.resolve(&request);
    assert_eq!(result.total, 20); // 10 * 2 = 20
}

#[test]
fn damage_test_test_damage_immunity() {
    let resolver = DamageResolver::new();
    let request = DamageRequest {
        damage: vec![
            Damage {
                amount: 10,
                damage_type: DamageType::Fire,
            },
        ],
        resistances: vec![],
        vulnerabilities: vec![],
        immunities: vec![DamageType::Fire],
    };
    let result = resolver.resolve(&request);
    assert_eq!(result.total, 0);
}

#[test]
fn damage_test_test_damage_multiple_types() {
    let resolver = DamageResolver::new();
    let request = DamageRequest {
        damage: vec![
            Damage {
                amount: 10,
                damage_type: DamageType::Fire,
            },
            Damage {
                amount: 5,
                damage_type: DamageType::Cold,
            },
        ],
        resistances: vec![DamageType::Fire],
        vulnerabilities: vec![],
        immunities: vec![],
    };
    let result = resolver.resolve(&request);
    assert_eq!(result.total, 10); // 5 (fire) + 5 (cold) = 10
}

#[test]
fn damage_test_test_damage_resistance_vulnerability_cancel() {
    let resolver = DamageResolver::new();
    let request = DamageRequest {
        damage: vec![
            Damage {
                amount: 10,
                damage_type: DamageType::Fire,
            },
        ],
        resistances: vec![DamageType::Fire],
        vulnerabilities: vec![DamageType::Fire],
        immunities: vec![],
    };
    let result = resolver.resolve(&request);
    assert_eq!(result.total, 10); // Cancel out
}

#[test]
fn damage_test_test_damage_round_down() {
    let resolver = DamageResolver::new();
    let request = DamageRequest {
        damage: vec![
            Damage {
                amount: 11,
                damage_type: DamageType::Fire,
            },
        ],
        resistances: vec![DamageType::Fire],
        vulnerabilities: vec![],
        immunities: vec![],
    };
    let result = resolver.resolve(&request);
    assert_eq!(result.total, 5); // 11 / 2 = 5 (round down)
}

#[test]
fn test_damage_edge_cases() {
    let resolver = DamageResolver::new();
    
    // Dano 0
    let request = DamageRequest {
        damage: vec![
            Damage {
                amount: 0,
                damage_type: DamageType::Fire,
            },
        ],
        resistances: vec![],
        vulnerabilities: vec![],
        immunities: vec![],
    };
    let result = resolver.resolve(&request);
    assert_eq!(result.total, 0);
    
    // Dano muito alto
    let request = DamageRequest {
        damage: vec![
            Damage {
                amount: 1000,
                damage_type: DamageType::Fire,
            },
        ],
        resistances: vec![],
        vulnerabilities: vec![],
        immunities: vec![],
    };
    let result = resolver.resolve(&request);
    assert_eq!(result.total, 1000);
}


#[test]
fn dice_roll_test_test_dice_roll_1d20() {
    let mut roller = DiceRoller::new();
    let expr = DiceExpression {
        count: 1,
        sides: 20,
        modifier: 0,
    };
    let result = roller.roll(&expr, RollMode::Normal).unwrap();
    assert!(result.total >= 1 && result.total <= 20);
    assert_eq!(result.rolls.len(), 1);
}

#[test]
fn dice_roll_test_test_dice_roll_2d8_plus_3() {
    let mut roller = DiceRoller::new();
    let expr = DiceExpression {
        count: 2,
        sides: 8,
        modifier: 3,
    };
    let result = roller.roll(&expr, RollMode::Normal).unwrap();
    assert!(result.total >= 5 && result.total <= 19);
    assert_eq!(result.rolls.len(), 2);
}

#[test]
fn dice_roll_test_test_dice_roll_deterministic_seed() {
    let seed = 12345;
    let mut roller1 = DiceRoller::with_seed(seed);
    let mut roller2 = DiceRoller::with_seed(seed);
    
    let expr = DiceExpression {
        count: 1,
        sides: 20,
        modifier: 0,
    };
    
    let result1 = roller1.roll(&expr, RollMode::Normal).unwrap();
    let result2 = roller2.roll(&expr, RollMode::Normal).unwrap();
    
    assert_eq!(result1.total, result2.total);
    assert_eq!(result1.rolls, result2.rolls);
}

#[test]
fn dice_roll_test_test_dice_roll_edge_cases() {
    let mut roller = DiceRoller::new();
    
    // 1d1 (resultado sempre 1)
    let expr = DiceExpression { count: 1, sides: 1, modifier: 0 };
    let result = roller.roll(&expr, RollMode::Normal).unwrap();
    assert_eq!(result.total, 1);
    
    // 0d20 (resultado sempre 0 + modifier)
    let expr = DiceExpression { count: 0, sides: 20, modifier: 5 };
    let result = roller.roll(&expr, RollMode::Normal).unwrap();
    assert_eq!(result.total, 5);
    
    // Modificador negativo
    let expr = DiceExpression { count: 1, sides: 20, modifier: -5 };
    let result = roller.roll(&expr, RollMode::Normal).unwrap();
    assert!(result.total >= -4 && result.total <= 15);
    
    // Modificador muito grande
    let expr = DiceExpression { count: 1, sides: 20, modifier: 100 };
    let result = roller.roll(&expr, RollMode::Normal).unwrap();
    assert!(result.total >= 101 && result.total <= 120);
}

#[test]
fn dice_roll_test_test_dice_roll_distribution() {
    let mut roller = DiceRoller::new();
    let expr = DiceExpression {
        count: 1,
        sides: 20,
        modifier: 0,
    };
    
    let mut counts = [0; 21]; // 0-20
    for _ in 0..10000 {
        let result = roller.roll(&expr, RollMode::Normal).unwrap();
        let value = result.total as usize;
        if value <= 20 {
            counts[value] += 1;
        }
    }
    
    // Verificar que todos os valores ocorreram (aproximadamente uniforme)
    let min_count = counts[1..=20].iter().min().unwrap();
    let max_count = counts[1..=20].iter().max().unwrap();
    
    // Com 10000 rolagens, cada valor deveria aparecer ~500 vezes
    // Aceitamos uma variação de ±200 (400-600)
    assert!(*min_count >= 300, "Distribution too skewed: min={}", min_count);
    assert!(*max_count <= 700, "Distribution too skewed: max={}", max_count);
}

#[test]
fn dice_roll_test_test_dice_roll_advantage() {
    let mut roller = DiceRoller::with_seed(42);
    let expr = DiceExpression {
        count: 2,
        sides: 20,
        modifier: 0,
    };
    let result = roller.roll(&expr, RollMode::Advantage).unwrap();
    assert_eq!(result.rolls.len(), 2);
    assert_eq!(result.total, *result.rolls.iter().max().unwrap() as i32);
}

#[test]
fn dice_roll_test_test_dice_roll_disadvantage() {
    let mut roller = DiceRoller::with_seed(42);
    let expr = DiceExpression {
        count: 2,
        sides: 20,
        modifier: 0,
    };
    let result = roller.roll(&expr, RollMode::Disadvantage).unwrap();
    assert_eq!(result.rolls.len(), 2);
    assert_eq!(result.total, *result.rolls.iter().min().unwrap() as i32);
}



#[test]
fn saving_throw_test_test_saving_throw() {
    let checker = AbilityChecker::new();
    let request = AbilityCheckRequest {
        ability: Ability::Dexterity,
        ability_modifier: 2,
        proficiency_bonus: 3,
        has_proficiency: false,
        has_expertise: false,
        dc: 15,
        advantage: false,
        disadvantage: false,
        seed: Some(100),
    };
    let result = checker.check(&request).unwrap();
    assert!(result.roll >= 1 && result.roll <= 20);
    assert_eq!(result.ability_modifier, 2);
    assert_eq!(result.dc, 15);
}

#[test]
fn saving_throw_test_test_saving_throw_with_proficiency() {
    let checker = AbilityChecker::new();
    let request = AbilityCheckRequest {
        ability: Ability::Dexterity,
        ability_modifier: 2,
        proficiency_bonus: 3,
        has_proficiency: true,
        has_expertise: false,
        dc: 15,
        advantage: false,
        disadvantage: false,
        seed: Some(100),
    };
    let result = checker.check(&request).unwrap();
    assert_eq!(result.proficiency_bonus, 3);
    assert_eq!(result.total, result.roll + 2 + 3);
}

#[test]
fn saving_throw_test_test_saving_throw_edge_cases() {
    let checker = AbilityChecker::new();
    
    // DC muito alto
    let request = AbilityCheckRequest {
        ability: Ability::Constitution,
        ability_modifier: 0,
        proficiency_bonus: 0,
        has_proficiency: false,
        has_expertise: false,
        dc: 30,
        advantage: false,
        disadvantage: false,
        seed: Some(100),
    };
    let result = checker.check(&request).unwrap();
    assert!(!result.success || result.roll == 20);
    
    // DC muito baixo
    let request = AbilityCheckRequest {
        ability: Ability::Constitution,
        ability_modifier: 20,
        proficiency_bonus: 0,
        has_proficiency: false,
        has_expertise: false,
        dc: 0,
        advantage: false,
        disadvantage: false,
        seed: Some(100),
    };
    let result = checker.check(&request).unwrap();
    assert!(result.success || result.roll == 1);
}

