use vrpg::ability::{Ability, AbilityCheckRequest, AbilityChecker};
use vrpg::ability_scores::{AbilityScoreGenerator, AbilityScoreType, AbilityScores};
use vrpg::attack::{AttackRequest, AttackResolver};
use vrpg::condition::{ConditionApplication, ConditionManager, ConditionType};
use vrpg::cr_xp::{xp_to_cr_approximate, ChallengeRating};
use vrpg::damage::{Damage, DamageRequest, DamageResolver, DamageType};
use vrpg::dice::{DiceExpression, DiceRoller, RollMode};
use vrpg::skills::{Skill, SkillCalculator};

#[test]
fn ability_test_ability_check() {
    let checker = AbilityChecker::new();
    let request = AbilityCheckRequest {
        ability: Ability::Strength,
        ability_modifier: 3,
        proficiency_bonus: 2,
        has_proficiency: false,
        has_expertise: false,
        dc: 15,
        advantage: false,
        disadvantage: false,
        seed: Some(100),
    };
    let result = checker.check(&request).unwrap();
    assert!(result.roll >= 1 && result.roll <= 20);
    assert_eq!(result.ability_modifier, 3);
}

#[test]
fn ability_test_ability_check_with_proficiency() {
    let checker = AbilityChecker::new();
    let request = AbilityCheckRequest {
        ability: Ability::Strength,
        ability_modifier: 3,
        proficiency_bonus: 2,
        has_proficiency: true,
        has_expertise: false,
        dc: 15,
        advantage: false,
        disadvantage: false,
        seed: Some(100),
    };
    let result = checker.check(&request).unwrap();
    assert_eq!(result.proficiency_bonus, 2);
    assert_eq!(result.total, result.roll + 3 + 2);
}

#[test]
fn ability_test_ability_check_with_expertise() {
    let checker = AbilityChecker::new();
    let request = AbilityCheckRequest {
        ability: Ability::Strength,
        ability_modifier: 3,
        proficiency_bonus: 2,
        has_proficiency: true,
        has_expertise: true,
        dc: 15,
        advantage: false,
        disadvantage: false,
        seed: Some(100),
    };
    let result = checker.check(&request).unwrap();
    assert_eq!(result.proficiency_bonus, 4); // 2 * 2
    assert_eq!(result.total, result.roll + 3 + 4);
}

#[test]
fn test_ability_check_advantage_disadvantage_cancel() {
    let checker = AbilityChecker::new();
    let request = AbilityCheckRequest {
        ability: Ability::Strength,
        ability_modifier: 3,
        proficiency_bonus: 2,
        has_proficiency: false,
        has_expertise: false,
        dc: 15,
        advantage: true,
        disadvantage: true,
        seed: Some(100),
    };
    let result = checker.check(&request).unwrap();
    // Should be normal roll (single die)
    assert!(result.roll >= 1 && result.roll <= 20);
}


#[test]
fn test_ability_modifier_calculation() {
    let scores = AbilityScores::new(15, 10, 8, 20, 12, 16);
    assert_eq!(scores.get_modifier(AbilityScoreType::Strength), 2); // (15-10)/2 = 2
    assert_eq!(scores.get_modifier(AbilityScoreType::Dexterity), 0); // (10-10)/2 = 0
    assert_eq!(scores.get_modifier(AbilityScoreType::Constitution), -1); // (8-10)/2 = -1
    assert_eq!(scores.get_modifier(AbilityScoreType::Intelligence), 5); // (20-10)/2 = 5
    assert_eq!(scores.get_modifier(AbilityScoreType::Wisdom), 1); // (12-10)/2 = 1
    assert_eq!(scores.get_modifier(AbilityScoreType::Charisma), 3); // (16-10)/2 = 3
}

#[test]
fn ability_scores_test_standard_array() {
    let scores = AbilityScoreGenerator::generate_standard_array();
    assert_eq!(scores.strength, 15);
    assert_eq!(scores.dexterity, 14);
    assert_eq!(scores.constitution, 13);
    assert_eq!(scores.intelligence, 12);
    assert_eq!(scores.wisdom, 10);
    assert_eq!(scores.charisma, 8);
}

#[test]
fn ability_scores_test_rolling_deterministic() {
    let seed = 12345;
    let scores1 = AbilityScoreGenerator::generate_rolling(Some(seed));
    let scores2 = AbilityScoreGenerator::generate_rolling(Some(seed));
    // Should be deterministic with same seed
    assert_eq!(scores1.strength, scores2.strength);
}

#[test]
fn ability_scores_test_score_limits() {
    let mut scores = AbilityScores::new(20, 20, 20, 20, 20, 20);
    // 20 + 10 = 30, should be OK
    assert!(scores
        .increase_score(AbilityScoreType::Strength, 10)
        .is_ok());
    // Now at 30, cannot increase further
    assert!(scores
        .increase_score(AbilityScoreType::Strength, 1)
        .is_err());
    // Reset and test 20 + 11 = 31, should fail
    let mut scores2 = AbilityScores::new(20, 20, 20, 20, 20, 20);
    assert!(scores2
        .increase_score(AbilityScoreType::Strength, 11)
        .is_err());
}


#[test]
fn test_skill_associated_abilities() {
    assert_eq!(
        Skill::Athletics.associated_ability(),
        AbilityScoreType::Strength
    );
    assert_eq!(
        Skill::Stealth.associated_ability(),
        AbilityScoreType::Dexterity
    );
    assert_eq!(
        Skill::Arcana.associated_ability(),
        AbilityScoreType::Intelligence
    );
    assert_eq!(
        Skill::Perception.associated_ability(),
        AbilityScoreType::Wisdom
    );
    assert_eq!(
        Skill::Persuasion.associated_ability(),
        AbilityScoreType::Charisma
    );
}

#[test]
fn test_skill_bonus_calculation() {
    let scores = AbilityScores::new(15, 14, 13, 12, 10, 8);
    let bonus =
        SkillCalculator::calculate_skill_bonus(&scores, Skill::Athletics, 2, true, false);
    assert_eq!(bonus.ability_modifier, 2); // STR 15 = +2
    assert_eq!(bonus.proficiency_bonus, 2);
    assert_eq!(bonus.total_bonus, 4);

    let bonus_no_prof =
        SkillCalculator::calculate_skill_bonus(&scores, Skill::Athletics, 2, false, false);
    assert_eq!(bonus_no_prof.proficiency_bonus, 0);
    assert_eq!(bonus_no_prof.total_bonus, 2);

    let bonus_expertise =
        SkillCalculator::calculate_skill_bonus(&scores, Skill::Athletics, 2, true, true);
    assert_eq!(bonus_expertise.proficiency_bonus, 4); // 2 * 2
    assert_eq!(bonus_expertise.total_bonus, 6);
}

#[test]
fn test_passive_perception() {
    let scores = AbilityScores::new(10, 10, 10, 10, 15, 10);
    // WIS 15 = +2 modifier, proficiency +2, total bonus = +4
    // Passive Perception = 10 + 4 = 14
    let passive = SkillCalculator::passive_perception(&scores, 2, true, false);
    assert_eq!(passive, 14);
}

#[test]
fn test_all_skills() {
    let skills = Skill::all();
    assert_eq!(skills.len(), 18);
}


#[test]
fn test_module_compiles() {
    assert!(true);
}

