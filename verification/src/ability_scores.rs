use vstd::prelude::*;
use rand::rngs::StdRng;
use crate::dice::{gen_range_u8_outcome, rng_from_entropy, rng_from_seed, rng_gen_u8_inclusive, seeded_rng};
use crate::error::RulesError;

verus! {

/// The six ability scores by name.
#[derive(Debug, Clone, Copy, PartialEq, Eq, Hash, Structural)]
pub enum AbilityScoreType {
    Strength,
    Dexterity,
    Constitution,
    Intelligence,
    Wisdom,
    Charisma,
}

/// A character's six ability scores.
#[derive(Debug, Clone, Copy, PartialEq, Eq, Structural)]
pub struct AbilityScores {
    pub strength: u8,
    pub dexterity: u8,
    pub constitution: u8,
    pub intelligence: u8,
    pub wisdom: u8,
    pub charisma: u8,
}

/// The highest score the rules allow.
pub const MAX_ABILITY_SCORE: u8 = 30;

/// The score of one ability.
pub open spec fn score_of(s: AbilityScores, a: AbilityScoreType) -> u8 {
    match a {
        AbilityScoreType::Strength => s.strength,
        AbilityScoreType::Dexterity => s.dexterity,
        AbilityScoreType::Constitution => s.constitution,
        AbilityScoreType::Intelligence => s.intelligence,
        AbilityScoreType::Wisdom => s.wisdom,
        AbilityScoreType::Charisma => s.charisma,
    }
}

/// The scores with one ability set to `v`.
pub open spec fn with_score(s: AbilityScores, a: AbilityScoreType, v: u8) -> AbilityScores {
    match a {
        AbilityScoreType::Strength => AbilityScores { strength: v, ..s },
        AbilityScoreType::Dexterity => AbilityScores { dexterity: v, ..s },
        AbilityScoreType::Constitution => AbilityScores { constitution: v, ..s },
        AbilityScoreType::Intelligence => AbilityScores { intelligence: v, ..s },
        AbilityScoreType::Wisdom => AbilityScores { wisdom: v, ..s },
        AbilityScoreType::Charisma => AbilityScores { charisma: v, ..s },
    }
}

/// The modifier of a score: (score - 10) / 2, rounded down.
pub open spec fn modifier_of(score: int) -> int {
    (score - 10) / 2
}

/// The modifier of a score: (score - 10) / 2, rounded down.
pub fn score_modifier(score: u8) -> (m: i32)
    ensures
        m == modifier_of(score as int),
{
    if score >= 10 {
        ((score - 10) / 2) as i32
    } else {
        let k = ((11 - score) / 2) as i32;
        assert(-k == (score - 10) / 2) by (nonlinear_arith)
            requires k == (11 - score) / 2, score < 10, score >= 0;
        -k
    }
}

impl AbilityScores {
    pub fn new(strength: u8, dexterity: u8, constitution: u8, intelligence: u8, wisdom: u8, charisma: u8) -> (s: Self)
        ensures
            s == (AbilityScores { strength, dexterity, constitution, intelligence, wisdom, charisma }),
    {
        AbilityScores { strength, dexterity, constitution, intelligence, wisdom, charisma }
    }

    pub fn get_score(&self, ability: AbilityScoreType) -> (v: u8)
        ensures
            v == score_of(*self, ability),
    {
        match ability {
            AbilityScoreType::Strength => self.strength,
            AbilityScoreType::Dexterity => self.dexterity,
            AbilityScoreType::Constitution => self.constitution,
            AbilityScoreType::Intelligence => self.intelligence,
            AbilityScoreType::Wisdom => self.wisdom,
            AbilityScoreType::Charisma => self.charisma,
        }
    }

    /// Modifier = (score - 10) / 2, rounded down.
    pub fn get_modifier(&self, ability: AbilityScoreType) -> (m: i32)
        ensures
            m == modifier_of(score_of(*self, ability) as int),
    {
        score_modifier(self.get_score(ability))
    }

    /// Sets one score; scores above 30 are refused and leave the scores as
    /// they were.
    pub fn set_score(&mut self, ability: AbilityScoreType, value: u8) -> (res: Result<(), RulesError>)
        ensures
            value > MAX_ABILITY_SCORE ==> (res matches Err(RulesError::InvalidInput(m))
                && m@ == "Ability score cannot exceed 30"@ && *final(self) == *old(self)),
            value <= MAX_ABILITY_SCORE ==> res is Ok && *final(self) == with_score(*old(self), ability, value),
    {
        if value > MAX_ABILITY_SCORE {
            return Err(RulesError::InvalidInput(String::from_str("Ability score cannot exceed 30")));
        }
        match ability {
            AbilityScoreType::Strength => self.strength = value,
            AbilityScoreType::Dexterity => self.dexterity = value,
            AbilityScoreType::Constitution => self.constitution = value,
            AbilityScoreType::Intelligence => self.intelligence = value,
            AbilityScoreType::Wisdom => self.wisdom = value,
            AbilityScoreType::Charisma => self.charisma = value,
        }
        Ok(())
    }

    /// Raises one score by `amount`; a result above 30 is refused and leaves
    /// the scores as they were.
    pub fn increase_score(&mut self, ability: AbilityScoreType, amount: u8) -> (res: Result<(), RulesError>)
        ensures
            score_of(*old(self), ability) + amount > MAX_ABILITY_SCORE ==> (res matches Err(RulesError::InvalidInput(m))
                && m@ == "Ability score cannot exceed 30"@ && *final(self) == *old(self)),
            score_of(*old(self), ability) + amount <= MAX_ABILITY_SCORE ==> res is Ok
                && *final(self) == with_score(*old(self), ability, (score_of(*old(self), ability) + amount) as u8),
    {
        let current = self.get_score(ability);
        if current > MAX_ABILITY_SCORE || amount > MAX_ABILITY_SCORE || current.saturating_add(amount) > MAX_ABILITY_SCORE {
            return Err(RulesError::InvalidInput(String::from_str("Ability score cannot exceed 30")));
        }
        let new_value = current + amount;
        self.set_score(ability, new_value)
    }
}

/// Reading a score gives back what was last set, and setting one score
/// leaves the others as they were.
pub proof fn law_score_read_after_write(s: AbilityScores, a: AbilityScoreType, b: AbilityScoreType, v: u8)
    ensures
        score_of(with_score(s, a, v), a) == v,
        a != b ==> score_of(with_score(s, a, v), b) == score_of(s, b),
{
}

/// A higher score never has a lower modifier, and each step of two points
/// raises the modifier by one.
pub proof fn law_modifier_monotone(x: int, y: int)
    ensures
        x <= y ==> modifier_of(x) <= modifier_of(y),
        modifier_of(x + 2) == modifier_of(x) + 1,
{
    if x <= y {
        assert((x - 10) / 2 <= (y - 10) / 2) by (nonlinear_arith) requires x <= y;
    }
    assert((x + 2 - 10) / 2 == (x - 10) / 2 + 1) by (nonlinear_arith);
}

/// The generator state after, and the four d6 read for, one rolled score.
pub open spec fn four_d6(rng: StdRng) -> (StdRng, Seq<u8>) {
    let a = gen_range_u8_outcome(rng, 1, 6);
    let b = gen_range_u8_outcome(a.0, 1, 6);
    let c = gen_range_u8_outcome(b.0, 1, 6);
    let d = gen_range_u8_outcome(c.0, 1, 6);
    (d.0, seq![a.1, b.1, c.1, d.1])
}

/// The lowest of four dice.
pub open spec fn lowest_of_four(r: Seq<u8>) -> int {
    let ab = if r[0] <= r[1] { r[0] } else { r[1] };
    let cd = if r[2] <= r[3] { r[2] } else { r[3] };
    if ab <= cd { ab as int } else { cd as int }
}

/// A rolled score: four dice with the lowest dropped.
pub open spec fn best_three(r: Seq<u8>) -> int {
    r[0] + r[1] + r[2] + r[3] - lowest_of_four(r)
}

/// A rolled score keeps three of its four dice and drops one no greater
/// than any of them: it is the sum of the four less their minimum, so it is
/// at least the sum of any three of them.
pub proof fn law_rolled_score_drops_lowest(r: Seq<u8>)
    requires
        r.len() == 4,
    ensures
        forall|j: int| 0 <= j < 4 ==> r[0] + r[1] + r[2] + r[3] - best_three(r) <= #[trigger] r[j],
        exists|j: int| 0 <= j < 4 && r[0] + r[1] + r[2] + r[3] - best_three(r) == #[trigger] r[j],
        best_three(r) >= r[0] + r[1] + r[2],
        best_three(r) >= r[1] + r[2] + r[3],
        best_three(r) >= r[0] + r[2] + r[3],
        best_three(r) >= r[0] + r[1] + r[3],
{
    let low = lowest_of_four(r);
    if low == r[0] as int { assert(r[0] + r[1] + r[2] + r[3] - best_three(r) == r[0]); }
    else if low == r[1] as int { assert(r[0] + r[1] + r[2] + r[3] - best_three(r) == r[1]); }
    else if low == r[2] as int { assert(r[0] + r[1] + r[2] + r[3] - best_three(r) == r[2]); }
    else { assert(r[0] + r[1] + r[2] + r[3] - best_three(r) == r[3]); }
}

/// The generator state after, and the scores rolled for, `k` abilities, in
/// the order they were rolled.
pub open spec fn rolled_scores(rng: StdRng, k: nat) -> (StdRng, Seq<u8>)
    decreases k,
{
    if k == 0 {
        (rng, Seq::empty())
    } else {
        let prev = rolled_scores(rng, (k - 1) as nat);
        let dice = four_d6(prev.0);
        (dice.0, prev.1.push(best_three(dice.1) as u8))
    }
}

/// The six scores in field order.
pub open spec fn scores_seq(s: AbilityScores) -> Seq<u8> {
    seq![s.strength, s.dexterity, s.constitution, s.intelligence, s.wisdom, s.charisma]
}

/// Highest first.
pub open spec fn sorted_descending(s: Seq<u8>) -> bool {
    forall|i: int, j: int| 0 <= i < j < s.len() ==> s[i] >= s[j]
}

/// Rolls one score: four d6, the lowest dropped.
fn roll_score(rng: &mut StdRng) -> (v: u8)
    ensures
        v == best_three(four_d6(*old(rng)).1),
        *final(rng) == four_d6(*old(rng)).0,
        3 <= v <= 18,
{
    let a = rng_gen_u8_inclusive(rng, 1, 6);
    let b = rng_gen_u8_inclusive(rng, 1, 6);
    let c = rng_gen_u8_inclusive(rng, 1, 6);
    let d = rng_gen_u8_inclusive(rng, 1, 6);
    let ab = if a <= b { a } else { b };
    let cd = if c <= d { c } else { d };
    let low = if ab <= cd { ab } else { cd };
    a + b + c + d - low
}

/// Inserts `x` into a list sorted highest first, keeping it sorted.
fn insert_descending(sorted: &mut Vec<u8>, x: u8)
    requires
        sorted_descending(old(sorted)@),
    ensures
        sorted_descending(final(sorted)@),
        final(sorted)@.len() == old(sorted)@.len() + 1,
        final(sorted)@.to_multiset() == old(sorted)@.to_multiset().insert(x),
{
    let mut pos: usize = 0;
    while pos < sorted.len() && sorted[pos] >= x
        invariant
            pos <= sorted@.len(),
            sorted@ == old(sorted)@,
            forall|j: int| 0 <= j < pos ==> sorted@[j] >= x,
        decreases sorted@.len() - pos,
    {
        pos = pos + 1;
    }
    proof {
        vstd::seq_lib::to_multiset_insert(sorted@, pos as int, x);
    }
    sorted.insert(pos, x);
}

/// How a character's scores are produced.
#[derive(Debug, Clone, Copy, PartialEq, Eq, Structural)]
pub enum AbilityGenerationMethod {
    StandardArray,
    PointBuy,
    Rolling,
}

/// Produces ability scores.
pub struct AbilityScoreGenerator;

impl AbilityScoreGenerator {
    /// The standard array 15, 14, 13, 12, 10, 8.
    pub fn generate_standard_array() -> (s: AbilityScores)
        ensures
            s == (AbilityScores { strength: 15, dexterity: 14, constitution: 13, intelligence: 12, wisdom: 10, charisma: 8 }),
    {
        AbilityScores::new(15, 14, 13, 12, 10, 8)
    }

    /// Rolls each score as four d6 with the lowest dropped and assigns the
    /// six scores highest first; a seed makes the rolls repeatable.
    pub fn generate_rolling(seed: Option<u64>) -> (s: AbilityScores)
        ensures
            sorted_descending(scores_seq(s)),
            exists|rng: StdRng| scores_seq(s).to_multiset() == #[trigger] rolled_scores(rng, 6).1.to_multiset(),
            seed matches Some(k) ==> scores_seq(s).to_multiset() == rolled_scores(seeded_rng(k), 6).1.to_multiset(),
            forall|i: int| 0 <= i < 6 ==> 3 <= #[trigger] scores_seq(s)[i] <= 18,
    {
        let mut rng = match seed {
            Some(k) => rng_from_seed(k),
            None => rng_from_entropy(),
        };
        let ghost start = rng;
        let mut rolled: Vec<u8> = Vec::new();
        let mut sorted: Vec<u8> = Vec::new();
        let mut i: usize = 0;
        while i < 6
            invariant
                i <= 6,
                rolled_scores(start, i as nat) == (rng, rolled@),
                rolled@.len() == i,
                sorted@.len() == i,
                sorted_descending(sorted@),
                sorted@.to_multiset() == rolled@.to_multiset(),
                forall|j: int| 0 <= j < rolled@.len() ==> 3 <= #[trigger] rolled@[j] <= 18,
            decreases 6 - i,
        {
            let v = roll_score(&mut rng);
            proof {
                vstd::seq_lib::to_multiset_build(rolled@, v);
            }
            rolled.push(v);
            insert_descending(&mut sorted, v);
            i = i + 1;
        }
        proof {
            vstd::seq_lib::to_multiset_len(sorted@);
            vstd::seq_lib::to_multiset_len(rolled@);
            assert forall|j: int| 0 <= j < sorted@.len() implies 3 <= #[trigger] sorted@[j] <= 18 by {
                vstd::seq_lib::to_multiset_contains(sorted@, sorted@[j]);
                vstd::seq_lib::to_multiset_contains(rolled@, sorted@[j]);
            }
        }
        let s = AbilityScores::new(sorted[0], sorted[1], sorted[2], sorted[3], sorted[4], sorted[5]);
        assert(scores_seq(s) =~= sorted@);
        assert(rolled_scores(start, 6).1 == rolled@);
        assert(scores_seq(s).to_multiset() == rolled_scores(start, 6).1.to_multiset());
        s
    }

    /// Point buy, which gives the standard array by default.
    pub fn generate_point_buy() -> (s: AbilityScores)
        ensures
            s == (AbilityScores { strength: 15, dexterity: 14, constitution: 13, intelligence: 12, wisdom: 10, charisma: 8 }),
    {
        Self::generate_standard_array()
    }
}

} // verus!
