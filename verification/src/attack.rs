use vstd::prelude::*;
use rand::rngs::StdRng;
use crate::ability::{natural_d20, roll_d20_test, test_mode};
use crate::dice::{seeded_rng, RollMode};
use crate::error::RulesError;

verus! {

/// An attack roll to resolve.
#[derive(Debug, Clone, Copy)]
pub struct AttackRequest {
    pub attack_bonus: i32,
    pub ac: i32,
    pub advantage: bool,
    pub disadvantage: bool,
    pub seed: Option<u64>,
}

/// The outcome of an attack roll.
#[derive(Debug, Clone, Copy, PartialEq, Eq, Structural)]
pub struct AttackResult {
    pub roll: i32,
    pub natural_roll: u32,
    pub total: i32,
    pub hit: bool,
    pub critical_hit: bool,
    pub critical_miss: bool,
    pub ac: i32,
}

/// The attack's arithmetic stays within `i32` for every natural roll.
pub open spec fn attack_fits(r: AttackRequest) -> bool {
    r.attack_bonus + 20 <= i32::MAX
}

/// Whether the attack's arithmetic stays within `i32` (see `attack_fits`).
pub fn attack_in_range(r: &AttackRequest) -> (b: bool)
    ensures
        b == attack_fits(*r),
{
    r.attack_bonus <= i32::MAX - 20
}

/// The result of the attack whose natural roll is `natural`: a natural 1
/// always misses, a natural 20 always hits, otherwise the total must reach
/// the armor class.
pub open spec fn attack_with_roll(r: AttackRequest, natural: u32) -> AttackResult {
    let total = natural + r.attack_bonus;
    AttackResult {
        roll: natural as i32,
        natural_roll: natural,
        total: total as i32,
        hit: if natural == 1 { false } else if natural == 20 { true } else { total >= r.ac },
        critical_hit: natural == 20,
        critical_miss: natural == 1,
        ac: r.ac,
    }
}

/// The result of the attack rolled from a generator in state `rng`.
pub open spec fn attack_outcome(rng: StdRng, r: AttackRequest) -> AttackResult {
    attack_with_roll(r, natural_d20(rng, test_mode(r.advantage, r.disadvantage)))
}

/// An attack hits when the natural roll plus the bonus meets or beats the
/// armor class (a total equal to it hits); a natural 20 always hits and is
/// a critical hit, a natural 1 always misses and is a critical miss.
pub proof fn law_attack_meets_ac(r: AttackRequest, natural: u32)
    requires
        1 <= natural <= 20,
        attack_fits(r),
    ensures
        attack_with_roll(r, natural).total == natural + r.attack_bonus,
        attack_with_roll(r, natural).natural_roll == natural,
        natural != 1 && natural != 20 ==> (attack_with_roll(r, natural).hit <==> natural + r.attack_bonus >= r.ac),
        natural == 20 ==> attack_with_roll(r, natural).hit && attack_with_roll(r, natural).critical_hit,
        natural == 1 ==> !attack_with_roll(r, natural).hit && attack_with_roll(r, natural).critical_miss,
        natural != 20 ==> !attack_with_roll(r, natural).critical_hit,
        natural != 1 ==> !attack_with_roll(r, natural).critical_miss,
{
}

/// Resolves attack rolls.
pub struct AttackResolver;

impl Default for AttackResolver {
    fn default() -> (r: Self)
        ensures
            r == AttackResolver,
    {
        AttackResolver
    }
}

impl AttackResolver {
    /// A new one; the type holds no state.
    pub fn new() -> (r: Self)
        ensures
            r == AttackResolver,
    {
        AttackResolver
    }

    /// Rolls the attack: one d20, the higher of two with advantage, the
    /// lower of two with disadvantage, one when both apply; adds the bonus.
    pub fn resolve(&self, request: &AttackRequest) -> (res: Result<AttackResult, RulesError>)
        requires
            attack_fits(*request),
        ensures
            res matches Ok(r) && (exists|rng: StdRng| r == #[trigger] attack_outcome(rng, *request)),
            res matches Ok(r) ==> 1 <= r.natural_roll <= 20
                && r == attack_with_roll(*request, r.natural_roll),
            request.seed matches Some(s) ==> res == Ok::<AttackResult, RulesError>(
                attack_outcome(seeded_rng(s), *request)),
            res matches Ok(r) ==> r.total == r.natural_roll + request.attack_bonus
                && r.critical_hit == (r.natural_roll == 20) && r.critical_miss == (r.natural_roll == 1)
                && r.hit == (r.natural_roll == 20 || (r.natural_roll != 1 && r.natural_roll + request.attack_bonus >= request.ac)),
    {
        let mode = if request.advantage && request.disadvantage {
            RollMode::Normal
        } else if request.advantage {
            RollMode::Advantage
        } else if request.disadvantage {
            RollMode::Disadvantage
        } else {
            RollMode::Normal
        };
        let natural = roll_d20_test(request.seed, mode);
        let total = natural as i32 + request.attack_bonus;
        let critical_hit = natural == 20;
        let critical_miss = natural == 1;
        let hit = if critical_miss {
            false
        } else if critical_hit {
            true
        } else {
            total >= request.ac
        };
        let result = AttackResult {
            roll: natural as i32,
            natural_roll: natural,
            total,
            hit,
            critical_hit,
            critical_miss,
            ac: request.ac,
        };
        proof {
            let rng = choose|rng: StdRng| natural == #[trigger] natural_d20(rng, mode);
            assert(result == attack_outcome(rng, *request));
        }
        Ok(result)
    }
}

} // verus!
