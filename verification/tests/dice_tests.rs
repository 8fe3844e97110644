use vrpg::ability::{Ability, AbilityCheckRequest, AbilityChecker};
use vrpg::ability_scores::{AbilityScoreGenerator, AbilityScoreType, AbilityScores};
use vrpg::attack::{AttackRequest, AttackResolver};
use vrpg::condition::{ConditionApplication, ConditionManager, ConditionType};
use vrpg::cr_xp::{xp_to_cr_approximate, ChallengeRating};
use vrpg::damage::{Damage, DamageRequest, DamageResolver, DamageType};
use vrpg::dice::{DiceExpression, DiceRoller, RollMode};
use vrpg::skills::{Skill, SkillCalculator};

#[test]
fn test_parse_1d20() {
    let expr = DiceRoller::parse("1d20").unwrap();
    assert_eq!(expr.count, 1);
    assert_eq!(expr.sides, 20);
    assert_eq!(expr.modifier, 0);
}

#[test]
fn test_parse_2d8_plus_3() {
    let expr = DiceRoller::parse("2d8+3").unwrap();
    assert_eq!(expr.count, 2);
    assert_eq!(expr.sides, 8);
    assert_eq!(expr.modifier, 3);
}

#[test]
fn test_parse_2d8_minus_3() {
    let expr = DiceRoller::parse("2d8-3").unwrap();
    assert_eq!(expr.count, 2);
    assert_eq!(expr.sides, 8);
    assert_eq!(expr.modifier, -3);
}

#[test]
fn test_roll_1d20() {
    let mut roller = DiceRoller::new();
    let expr = DiceExpression {
        count: 1,
        sides: 20,
        modifier: 0,
    };
    let result = roller.roll(&expr, RollMode::Normal).unwrap();
    assert!(result.total >= 1 && result.total <= 20);
    assert_eq!(result.rolls.len(), 1);
}

#[test]
fn test_roll_2d8_plus_3() {
    let mut roller = DiceRoller::new();
    let expr = DiceExpression {
        count: 2,
        sides: 8,
        modifier: 3,
    };
    let result = roller.roll(&expr, RollMode::Normal).unwrap();
    assert!(result.total >= 5 && result.total <= 19);
    assert_eq!(result.rolls.len(), 2);
}

#[test]
fn test_roll_deterministic_seed() {
    let seed = 12345;
    let mut roller1 = DiceRoller::with_seed(seed);
    let mut roller2 = DiceRoller::with_seed(seed);

    let expr = DiceExpression {
        count: 1,
        sides: 20,
        modifier: 0,
    };

    let result1 = roller1.roll(&expr, RollMode::Normal).unwrap();
    let result2 = roller2.roll(&expr, RollMode::Normal).unwrap();

    assert_eq!(result1.total, result2.total);
    assert_eq!(result1.rolls, result2.rolls);
}

#[test]
fn test_roll_advantage() {
    let mut roller = DiceRoller::with_seed(42);
    let expr = DiceExpression {
        count: 2,
        sides: 20,
        modifier: 0,
    };
    let result = roller.roll(&expr, RollMode::Advantage).unwrap();
    assert_eq!(result.total, *result.rolls.iter().max().unwrap() as i32);
}

#[test]
fn test_roll_disadvantage() {
    let mut roller = DiceRoller::with_seed(42);
    let expr = DiceExpression {
        count: 2,
        sides: 20,
        modifier: 0,
    };
    let result = roller.roll(&expr, RollMode::Disadvantage).unwrap();
    assert_eq!(result.total, *result.rolls.iter().min().unwrap() as i32);
}

#[test]
fn test_roll_edge_cases() {
    let mut roller = DiceRoller::new();

    // 1d1
    let expr = DiceExpression {
        count: 1,
        sides: 1,
        modifier: 0,
    };
    let result = roller.roll(&expr, RollMode::Normal).unwrap();
    assert_eq!(result.total, 1);

    // 0d20
    let expr = DiceExpression {
        count: 0,
        sides: 20,
        modifier: 5,
    };
    let result = roller.roll(&expr, RollMode::Normal).unwrap();
    assert_eq!(result.total, 5);

    // Negative modifier
    let expr = DiceExpression {
        count: 1,
        sides: 20,
        modifier: -5,
    };
    let result = roller.roll(&expr, RollMode::Normal).unwrap();
    assert!(result.total >= -4 && result.total <= 15);
}


#[test]
fn roll_totals_stay_within_dice_bounds() {
    let expr = DiceExpression { count: 3, sides: 6, modifier: 2 };
    for seed in 0..200u64 {
        let mut roller = DiceRoller::with_seed(seed);
        let normal = roller.roll(&expr, RollMode::Normal).unwrap();
        assert!(normal.total >= 3 + 2 && normal.total <= 18 + 2);
        let adv = roller.roll(&expr, RollMode::Advantage).unwrap();
        assert!(adv.total >= 1 + 2 && adv.total <= 6 + 2);
        assert_eq!(adv.total, *adv.rolls.iter().max().unwrap() as i32 + 2);
        let dis = roller.roll(&expr, RollMode::Disadvantage).unwrap();
        assert!(dis.total >= 1 + 2 && dis.total <= 6 + 2);
        assert_eq!(dis.total, *dis.rolls.iter().min().unwrap() as i32 + 2);
    }
}

#[test]
fn test_dice_parse_complex() {
    let expr = DiceRoller::parse("2d6+1d4+3").unwrap();
    let expr2 = DiceRoller::parse("2d8+3").unwrap();
    assert_eq!(expr2.count, 2);
    assert_eq!(expr2.sides, 8);
    assert_eq!(expr2.modifier, 3);
    // The sum keeps every term.
    assert_eq!((expr.count, expr.sides, expr.modifier), (2, 6, 3));
    assert_eq!(expr.extra_dice, vec![(1, 4)]);
    assert!(expr2.extra_dice.is_empty());
}

#[test]
fn parse_dice_sums_and_their_errors() {
    let f = DiceRoller::parse(" 1D8+2d6-1+1d4 ").unwrap();
    assert_eq!((f.count, f.sides, f.modifier), (1, 8, -1));
    assert_eq!(f.extra_dice, vec![(2, 6), (1, 4)]);
    let g = DiceRoller::parse("2d6+1d4").unwrap();
    assert_eq!((g.count, g.sides, g.modifier), (2, 6, 0));
    assert_eq!(g.extra_dice, vec![(1, 4)]);
    match DiceRoller::parse("2d6+xd4") {
        Err(e) => assert_eq!(e.text(), "Dice parsing error: Invalid dice count: x"),
        Ok(_) => panic!("a term without a count is no dice"),
    }
    match DiceRoller::parse("2d6d4") {
        Err(e) => assert_eq!(e.text(), "Dice parsing error: Invalid dice expression: 2d6d4"),
        Ok(_) => panic!("two d's without a sum are no dice"),
    }
}

#[test]
fn kept_d20_follows_the_first_two_dice() {
    let two = DiceExpression { count: 2, sides: 20, modifier: 0 };
    for seed in 0..100u64 {
        let rolls = DiceRoller::with_seed(seed).roll(&two, RollMode::Normal).unwrap().rolls;
        let (x1, x2) = (rolls[0], rolls[1]);
        let check = |advantage: bool, disadvantage: bool| {
            let request = AbilityCheckRequest {
                ability: Ability::Wisdom,
                ability_modifier: 0,
                proficiency_bonus: 2,
                has_proficiency: false,
                has_expertise: false,
                dc: 10,
                advantage,
                disadvantage,
                seed: Some(seed),
            };
            AbilityChecker::new().check(&request).unwrap().roll
        };
        assert_eq!(check(true, false) as u32, x1.max(x2));
        assert_eq!(check(false, true) as u32, x1.min(x2));
        assert_eq!(check(true, true) as u32, x1);
        assert_eq!(check(false, false) as u32, x1);
        let attack = AttackRequest { attack_bonus: 4, ac: 12, advantage: false, disadvantage: true, seed: Some(seed) };
        let r = AttackResolver::new().resolve(&attack).unwrap();
        assert_eq!(r.natural_roll, x1.min(x2));
        assert_eq!(r.total, x1.min(x2) as i32 + 4);
    }
}
