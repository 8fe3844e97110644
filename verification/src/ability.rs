use vstd::prelude::*;
use rand::rngs::StdRng;
use crate::dice::{
    lemma_extremes_in_range, roll_fits, roll_sequence, seeded_rng, seq_max, seq_min, DiceExpression,
    DiceRoller, RollMode, RollResult,
};
use crate::error::RulesError;

verus! {

/// The six abilities.
#[derive(Debug, Clone, Copy, PartialEq, Eq, Structural)]
pub enum Ability {
    Strength,
    Dexterity,
    Constitution,
    Intelligence,
    Wisdom,
    Charisma,
}

/// An ability check (or saving throw) to resolve.
#[derive(Debug, Clone, Copy)]
pub struct AbilityCheckRequest {
    pub ability: Ability,
    pub ability_modifier: i32,
    pub proficiency_bonus: i32,
    pub has_proficiency: bool,
    pub has_expertise: bool,
    pub dc: i32,
    pub advantage: bool,
    pub disadvantage: bool,
    pub seed: Option<u64>,
}

/// The outcome of an ability check.
#[derive(Debug, Clone, Copy, PartialEq, Eq, Structural)]
pub struct AbilityCheckResult {
    pub roll: i32,
    pub natural_roll: u32,
    pub ability_modifier: i32,
    pub proficiency_bonus: i32,
    pub total: i32,
    pub dc: i32,
    pub success: bool,
}

/// The mode a d20 test is rolled in: advantage and disadvantage together
/// cancel into a normal roll.
pub open spec fn test_mode(advantage: bool, disadvantage: bool) -> RollMode {
    if advantage && disadvantage {
        RollMode::Normal
    } else if advantage {
        RollMode::Advantage
    } else if disadvantage {
        RollMode::Disadvantage
    } else {
        RollMode::Normal
    }
}

/// One die for a normal roll, two otherwise.
pub open spec fn dice_for(mode: RollMode) -> nat {
    if mode == RollMode::Normal { 1 } else { 2 }
}

/// The die that counts: the only one, the higher or the lower.
pub open spec fn kept_die(rolls: Seq<u32>, mode: RollMode) -> u32 {
    match mode {
        RollMode::Normal => rolls[0],
        RollMode::Advantage => seq_max(rolls),
        RollMode::Disadvantage => seq_min(rolls),
    }
}

/// The natural d20 a generator in state `rng` yields for a test in `mode`.
pub open spec fn natural_d20(rng: StdRng, mode: RollMode) -> u32 {
    kept_die(roll_sequence(rng, dice_for(mode), 20).1, mode)
}

/// The proficiency bonus that applies: none without proficiency, doubled
/// with expertise.
pub open spec fn applied_proficiency(bonus: i32, has_proficiency: bool, has_expertise: bool) -> int {
    if has_proficiency {
        if has_expertise { 2 * bonus } else { bonus as int }
    } else {
        0
    }
}

/// The check's arithmetic stays within `i32` for every natural roll.
pub open spec fn check_fits(r: AbilityCheckRequest) -> bool {
    let p = applied_proficiency(r.proficiency_bonus, r.has_proficiency, r.has_expertise);
    &&& i32::MIN <= p <= i32::MAX
    &&& i32::MIN <= r.ability_modifier + p
    &&& 20 + r.ability_modifier <= i32::MAX
    &&& 20 + r.ability_modifier + p <= i32::MAX
}

/// Whether the check's arithmetic stays within `i32` (see `check_fits`).
pub fn check_in_range(r: &AbilityCheckRequest) -> (b: bool)
    ensures
        b == check_fits(*r),
{
    let bonus = r.proficiency_bonus as i64;
    let p: i64 = if r.has_proficiency {
        if r.has_expertise { 2 * bonus } else { bonus }
    } else {
        0
    };
    let m = r.ability_modifier as i64;
    let lo = i32::MIN as i64;
    let hi = i32::MAX as i64;
    lo <= p && p <= hi && lo <= m + p && 20 + m <= hi && 20 + m + p <= hi
}

/// The result of the check whose natural roll is `natural`.
pub open spec fn check_with_roll(r: AbilityCheckRequest, natural: u32) -> AbilityCheckResult {
    let p = applied_proficiency(r.proficiency_bonus, r.has_proficiency, r.has_expertise);
    let total = natural + r.ability_modifier + p;
    AbilityCheckResult {
        roll: natural as i32,
        natural_roll: natural,
        ability_modifier: r.ability_modifier,
        proficiency_bonus: p as i32,
        total: total as i32,
        dc: r.dc,
        success: total >= r.dc,
    }
}

/// The result of the check rolled from a generator in state `rng`.
pub open spec fn check_outcome(rng: StdRng, r: AbilityCheckRequest) -> AbilityCheckResult {
    check_with_roll(r, natural_d20(rng, test_mode(r.advantage, r.disadvantage)))
}

/// Rolls the d20 for a test: a seeded generator when a seed is given, one
/// seeded by the operating system otherwise.  Returns the natural roll.
pub fn roll_d20_test(seed: Option<u64>, mode: RollMode) -> (natural: u32)
    ensures
        1 <= natural <= 20,
        exists|rng: StdRng| natural == #[trigger] natural_d20(rng, mode),
        seed matches Some(s) ==> natural == natural_d20(seeded_rng(s), mode),
{
    let mut roller = match seed {
        Some(s) => DiceRoller::with_seed(s),
        None => DiceRoller::new(),
    };
    let ghost start = roller.rng_state();
    let expr = DiceExpression { count: if mode == RollMode::Normal { 1 } else { 2 }, sides: 20, modifier: 0 };
    let rolled = roller.roll(&expr, mode);
    let rolls = match rolled {
        Ok(r) => r.rolls,
        Err(_) => { assert(false); Vec::new() },
    };
    proof { lemma_extremes_in_range(rolls@, 20); }
    let natural = match mode {
        RollMode::Normal => rolls[0],
        RollMode::Advantage => {
            proof { lemma_two_extremes(rolls@); }
            if rolls[0] >= rolls[1] { rolls[0] } else { rolls[1] }
        },
        RollMode::Disadvantage => {
            proof { lemma_two_extremes(rolls@); }
            if rolls[0] <= rolls[1] { rolls[0] } else { rolls[1] }
        },
    };
    assert(natural == natural_d20(start, mode));
    natural
}

/// The extremes of two dice.
pub proof fn lemma_two_extremes(s: Seq<u32>)
    requires
        s.len() == 2,
    ensures
        seq_max(s) == if s[0] >= s[1] { s[0] } else { s[1] },
        seq_min(s) == if s[0] <= s[1] { s[0] } else { s[1] },
{
    assert(s.drop_last().len() == 1);
    assert(s.drop_last()[0] == s[0]);
    assert(s.last() == s[1]);
    assert(seq_max(s.drop_last()) == s[0]);
    assert(seq_min(s.drop_last()) == s[0]);
}

/// The d20 kept for a test, from the first two dice a generator gives:
/// the higher with advantage, the lower with disadvantage, and the first
/// when neither or both are asked for (they cancel).
pub proof fn law_kept_d20(rng: StdRng, advantage: bool, disadvantage: bool)
    ensures
        ({
            let two = roll_sequence(rng, 2, 20).1;
            let natural = natural_d20(rng, test_mode(advantage, disadvantage));
            &&& two.len() == 2
            &&& advantage && !disadvantage ==> natural == (if two[0] >= two[1] { two[0] } else { two[1] })
            &&& disadvantage && !advantage ==> natural == (if two[0] <= two[1] { two[0] } else { two[1] })
            &&& advantage == disadvantage ==> natural == two[0]
        }),
{
    let one = roll_sequence(rng, 1, 20);
    let zero = roll_sequence(rng, 0, 20);
    assert(zero.1.len() == 0);
    assert(one.1.len() == 1);
    let two = roll_sequence(rng, 2, 20).1;
    assert(two.len() == 2);
    assert(two[0] == one.1[0]);
    lemma_two_extremes(two);
}

/// A check's total is the natural roll plus the ability modifier plus the
/// proficiency bonus (twice it with expertise, none without proficiency),
/// and the check succeeds exactly when that total meets or beats the DC (a
/// total equal to the DC succeeds).
pub proof fn law_check_meets_dc(r: AbilityCheckRequest, natural: u32)
    requires
        1 <= natural <= 20,
        check_fits(r),
    ensures
        ({
            let p: int = if r.has_proficiency { if r.has_expertise { 2 * r.proficiency_bonus } else { r.proficiency_bonus as int } } else { 0 };
            &&& check_with_roll(r, natural).total == natural + r.ability_modifier + p
            &&& check_with_roll(r, natural).natural_roll == natural
            &&& (check_with_roll(r, natural).success <==> natural + r.ability_modifier + p >= r.dc)
        }),
{
}

/// Resolves ability checks and saving throws.
pub struct AbilityChecker;

impl Default for AbilityChecker {
    fn default() -> (r: Self)
        ensures
            r == AbilityChecker,
    {
        AbilityChecker
    }
}

impl AbilityChecker {
    /// A new one; the type holds no state.
    pub fn new() -> (r: Self)
        ensures
            r == AbilityChecker,
    {
        AbilityChecker
    }

    /// Rolls the check: one d20, the higher of two with advantage, the lower
    /// of two with disadvantage, one when both apply; adds the modifier and
    /// the proficiency bonus (doubled with expertise, none without
    /// proficiency); succeeds when the total reaches the DC.
    pub fn check(&self, request: &AbilityCheckRequest) -> (res: Result<AbilityCheckResult, RulesError>)
        requires
            check_fits(*request),
        ensures
            res matches Ok(r) && (exists|rng: StdRng| r == #[trigger] check_outcome(rng, *request)),
            res matches Ok(r) ==> 1 <= r.natural_roll <= 20
                && r == check_with_roll(*request, r.natural_roll),
            request.seed matches Some(s) ==> res == Ok::<AbilityCheckResult, RulesError>(
                check_outcome(seeded_rng(s), *request)),
            res matches Ok(r) ==> r.total == r.natural_roll + request.ability_modifier
                    + (if request.has_proficiency {
                        if request.has_expertise { 2 * request.proficiency_bonus } else { request.proficiency_bonus as int }
                    } else { 0 })
                && r.success == (r.total >= request.dc),
    {
        let mode = if request.advantage && request.disadvantage {
            RollMode::Normal
        } else if request.advantage {
            RollMode::Advantage
        } else if request.disadvantage {
            RollMode::Disadvantage
        } else {
            RollMode::Normal
        };
        let natural = roll_d20_test(request.seed, mode);
        let mut proficiency_bonus: i32 = 0;
        if request.has_proficiency {
            proficiency_bonus = request.proficiency_bonus;
            if request.has_expertise {
                proficiency_bonus = proficiency_bonus * 2;
            }
        }
        let total = natural as i32 + request.ability_modifier + proficiency_bonus;
        let success = total >= request.dc;
        let result = AbilityCheckResult {
            roll: natural as i32,
            natural_roll: natural,
            ability_modifier: request.ability_modifier,
            proficiency_bonus,
            total,
            dc: request.dc,
            success,
        };
        proof {
            let rng = choose|rng: StdRng| natural == #[trigger] natural_d20(rng, mode);
            assert(result == check_outcome(rng, *request));
        }
        Ok(result)
    }
}

} // verus!
