use vstd::prelude::*;
use rand::rngs::StdRng;
use crate::error::RulesError;
use crate::text::{
    ascii_lowered, ascii_text, chars_of, find_char, lowercase, message_with, parse_i32, parse_i32_spec, parse_u32, parse_u32_spec, lemma_digits_nonneg,
    split_once, split_once_at, string_of, sub_chars, to_lowercase, trim, trim_chars, first_index,
};

verus! {

#[verifier::external_type_specification]
#[verifier::external_body]
pub struct ExStdRng(rand::rngs::StdRng);

/// The generator state that `StdRng::seed_from_u64` builds from a seed.
pub uninterp spec fn seeded_rng(seed: u64) -> StdRng;

/// The generator state after, and the value drawn by, one call of
/// `Rng::gen_range(low..=high)` on a generator in the given state.
pub uninterp spec fn gen_range_outcome(rng: StdRng, low: u32, high: u32) -> (StdRng, u32);

/// The generator state after, and the value drawn by, one call of
/// `Rng::gen_range(low..=high)` for `u8` values on a generator in the given
/// state.
pub uninterp spec fn gen_range_u8_outcome(rng: StdRng, low: u8, high: u8) -> (StdRng, u8);

/// Calls `StdRng::seed_from_u64`; the state it returns depends on the seed alone.
#[verifier::external_body]
pub(crate) fn rng_from_seed(seed: u64) -> (rng: StdRng)
    ensures
        rng == seeded_rng(seed),
{
    <StdRng as rand::SeedableRng>::seed_from_u64(seed)
}

/// Calls `StdRng::from_entropy`: the state comes from the operating system,
/// so nothing is stated of it.
#[verifier::external_body]
pub(crate) fn rng_from_entropy() -> (rng: StdRng) {
    <StdRng as rand::SeedableRng>::from_entropy()
}

/// Calls `Rng::gen_range(low..=high)`, which returns a value in the inclusive
/// range and advances the generator; value and new state depend on the old
/// state and the bounds alone.
#[verifier::external_body]
fn rng_gen_inclusive(rng: &mut StdRng, low: u32, high: u32) -> (value: u32)
    requires
        low <= high,
    ensures
        low <= value <= high,
        (*final(rng), value) == gen_range_outcome(*old(rng), low, high),
{
    rand::Rng::gen_range(rng, low..=high)
}

/// Calls `Rng::gen_range(low..=high)` for `u8` values, which returns a value
/// in the inclusive range and advances the generator; value and new state
/// depend on the old state and the bounds alone.
#[verifier::external_body]
pub(crate) fn rng_gen_u8_inclusive(rng: &mut StdRng, low: u8, high: u8) -> (value: u8)
    requires
        low <= high,
    ensures
        low <= value <= high,
        (*final(rng), value) == gen_range_u8_outcome(*old(rng), low, high),
{
    rand::Rng::gen_range(rng, low..=high)
}

/// A dice expression `NdM+K`.
#[derive(Debug, Clone, Copy, PartialEq, Eq, Hash, Structural)]
pub struct DiceExpression {
    pub count: u32,
    pub sides: u32,
    pub modifier: i32,
}

/// The outcome of one roll.
#[derive(Debug, Clone)]
pub struct RollResult {
    pub expression: DiceExpression,
    pub rolls: Vec<u32>,
    pub total: i32,
    pub seed: Option<u64>,
}

/// How several dice are combined.
#[derive(Debug, Clone, Copy, PartialEq, Eq, Structural)]
pub enum RollMode {
    Normal,
    Advantage,
    Disadvantage,
}

/// Sum of the values.
pub open spec fn seq_sum(s: Seq<u32>) -> int
    decreases s.len(),
{
    if s.len() == 0 { 0 } else { seq_sum(s.drop_last()) + s.last() }
}

/// Largest value (the first for a one-element sequence).
pub open spec fn seq_max(s: Seq<u32>) -> u32
    decreases s.len(),
{
    if s.len() <= 1 { s[0] } else {
        let m = seq_max(s.drop_last());
        if s.last() > m { s.last() } else { m }
    }
}

/// Smallest value (the first for a one-element sequence).
pub open spec fn seq_min(s: Seq<u32>) -> u32
    decreases s.len(),
{
    if s.len() <= 1 { s[0] } else {
        let m = seq_min(s.drop_last());
        if s.last() < m { s.last() } else { m }
    }
}

/// The generator state after and the dice read by rolling `count` dice of
/// `sides` sides: a one-sided die shows 1 without drawing.
pub open spec fn roll_sequence(rng: StdRng, count: nat, sides: u32) -> (StdRng, Seq<u32>)
    decreases count,
{
    if count == 0 {
        (rng, Seq::empty())
    } else {
        let prev = roll_sequence(rng, (count - 1) as nat, sides);
        if sides == 1 {
            (prev.0, prev.1.push(1u32))
        } else {
            let drawn = gen_range_outcome(prev.0, 1, sides);
            (drawn.0, prev.1.push(drawn.1))
        }
    }
}

/// Total of a roll: the sum for a normal roll, the highest die with
/// advantage and the lowest with disadvantage (the first die when only one
/// was rolled), plus the modifier.
pub open spec fn roll_total(rolls: Seq<u32>, modifier: i32, mode: RollMode) -> int {
    match mode {
        RollMode::Normal => seq_sum(rolls) + modifier,
        RollMode::Advantage => if rolls.len() < 2 { rolls[0] + modifier } else { seq_max(rolls) + modifier },
        RollMode::Disadvantage => if rolls.len() < 2 { rolls[0] + modifier } else { seq_min(rolls) + modifier },
    }
}

/// A roll of the expression cannot overflow the machine integers it is
/// computed in: every total it can reach fits in an `i32`.
pub open spec fn roll_fits(expr: DiceExpression) -> bool {
    expr.count as int * expr.sides as int + (if expr.modifier > 0 { expr.modifier as int } else { 0 }) <= i32::MAX
}

/// Whether a roll of the expression stays within `i32` (see `roll_fits`).
pub fn roll_in_range(d: &DiceExpression) -> (b: bool)
    ensures
        b == roll_fits(*d),
{
    let c = d.count as u64;
    let k = d.sides as u64;
    assert(c * k <= 0xFFFF_FFFF * 0xFFFF_FFFF) by (nonlinear_arith)
        requires c <= 0xFFFF_FFFF, k <= 0xFFFF_FFFF, c >= 0, k >= 0;
    let product: u64 = c * k;
    let extra: u64 = if d.modifier > 0 { d.modifier as u64 } else { 0 };
    product + extra <= 0x7FFF_FFFF
}

/// The extremes of dice that all lie in `1..=sides` lie there too.
pub proof fn lemma_extremes_in_range(s: Seq<u32>, sides: u32)
    requires
        s.len() >= 1,
        forall|j: int| 0 <= j < s.len() ==> 1 <= #[trigger] s[j] <= sides,
    ensures
        1 <= seq_max(s) <= sides,
        1 <= seq_min(s) <= sides,
        seq_sum(s) >= s.len(),
    decreases s.len(),
{
    if s.len() > 1 {
        lemma_extremes_in_range(s.drop_last(), sides);
    } else {
        assert(s.drop_last().len() == 0);
        assert(seq_sum(s.drop_last()) == 0);
    }
    assert(s[s.len() - 1] == s.last());
}

/// Dice that all lie in `1..=sides` sum to at most `len * sides`.
pub proof fn lemma_sum_at_most(s: Seq<u32>, sides: u32)
    requires
        forall|j: int| 0 <= j < s.len() ==> 1 <= #[trigger] s[j] <= sides,
    ensures
        seq_sum(s) <= s.len() * sides,
    decreases s.len(),
{
    if s.len() > 0 {
        let t = s.drop_last();
        assert forall|j: int| 0 <= j < t.len() implies 1 <= #[trigger] t[j] <= sides by {
            assert(t[j] == s[j]);
        }
        lemma_sum_at_most(t, sides);
        assert(s[s.len() - 1] == s.last());
        assert(t.len() * sides + sides == s.len() * sides) by (nonlinear_arith)
            requires t.len() + 1 == s.len();
    }
}

/// A roll's total lies between the least and the most its dice allow: for
/// a normal roll of `n` dice between `n + modifier` and `n * sides + modifier`,
/// with advantage or disadvantage between `1 + modifier` and
/// `sides + modifier`.
pub proof fn law_roll_total_bounds(rolls: Seq<u32>, sides: u32, modifier: i32, mode: RollMode)
    requires
        rolls.len() >= 1,
        forall|j: int| 0 <= j < rolls.len() ==> 1 <= #[trigger] rolls[j] <= sides,
    ensures
        mode == RollMode::Normal ==> rolls.len() + modifier <= roll_total(rolls, modifier, mode)
            <= rolls.len() * sides + modifier,
        mode != RollMode::Normal ==> 1 + modifier <= roll_total(rolls, modifier, mode) <= sides + modifier,
{
    lemma_extremes_in_range(rolls, sides);
    lemma_sum_at_most(rolls, sides);
    assert(1 <= rolls[0] <= sides);
}

/// Rolls dice from a random generator.
pub struct DiceRoller {
    rng: StdRng,
    seed: Option<u64>,
}

impl Default for DiceRoller {
    /// A roller seeded by the operating system.
    fn default() -> (r: Self)
        ensures
            r.seed_used() is None,
    {
        DiceRoller::new()
    }
}

impl DiceRoller {
    /// The generator state.
    pub closed spec fn rng_state(&self) -> StdRng {
        self.rng
    }

    /// The seed the roller was made with, if any.
    pub closed spec fn seed_used(&self) -> Option<u64> {
        self.seed
    }

    /// A roller seeded by the operating system.
    pub fn new() -> (r: Self)
        ensures
            r.seed_used() is None,
    {
        DiceRoller { rng: rng_from_entropy(), seed: None }
    }

    /// A roller whose rolls depend on the seed alone.
    pub fn with_seed(seed: u64) -> (r: Self)
        ensures
            r.seed_used() == Some(seed),
            r.rng_state() == seeded_rng(seed),
    {
        DiceRoller { rng: rng_from_seed(seed), seed: Some(seed) }
    }

    /// Rolls `expression` in the given mode.  Zero dice give the modifier
    /// alone; dice with zero sides are an error; otherwise each die is drawn
    /// in turn and combined as `roll_total` says.
    pub fn roll(&mut self, expression: &DiceExpression, mode: RollMode) -> (res: Result<RollResult, RulesError>)
        requires
            roll_fits(*expression),
        ensures
            final(self).seed_used() == old(self).seed_used(),
            expression.count == 0 ==> (res matches Ok(r) && r.rolls@.len() == 0
                && r.total == expression.modifier && r.expression == *expression
                && r.seed == old(self).seed_used() && final(self).rng_state() == old(self).rng_state()),
            expression.count > 0 && expression.sides == 0 ==> (res matches Err(RulesError::DiceParse(m))
                && m@ == "Dice sides cannot be 0"@ && final(self).rng_state() == old(self).rng_state()),
            expression.count > 0 && expression.sides > 0 ==> (res matches Ok(r)
                && r.expression == *expression
                && r.seed == old(self).seed_used()
                && r.rolls@ == roll_sequence(old(self).rng_state(), expression.count as nat, expression.sides).1
                && final(self).rng_state() == roll_sequence(old(self).rng_state(), expression.count as nat, expression.sides).0
                && r.total == roll_total(r.rolls@, expression.modifier, mode)),
            res matches Ok(r) ==> r.rolls@.len() == expression.count
                && forall|i: int| 0 <= i < r.rolls@.len() ==> 1 <= #[trigger] r.rolls@[i] <= expression.sides,
    {
        if expression.count == 0 {
            return Ok(RollResult { expression: *expression, rolls: Vec::new(), total: expression.modifier, seed: self.seed });
        }
        if expression.sides == 0 {
            return Err(RulesError::DiceParse(String::from_str("Dice sides cannot be 0")));
        }
        let ghost start = self.rng;
        let ghost seed0 = self.seed;
        let mut rolls: Vec<u32> = Vec::new();
        let mut i: u32 = 0;
        let mut sum: u32 = 0;
        let mut hi: u32 = 0;
        let mut lo: u32 = 0;
        while i < expression.count
            invariant
                i <= expression.count,
                self.seed == seed0,
                rolls@.len() == i,
                expression.sides > 0,
                roll_fits(*expression),
                roll_sequence(start, i as nat, expression.sides) == (self.rng, rolls@),
                forall|j: int| 0 <= j < rolls@.len() ==> 1 <= #[trigger] rolls@[j] <= expression.sides,
                sum == seq_sum(rolls@),
                seq_sum(rolls@) <= i as int * expression.sides as int,
                i > 0 ==> hi == seq_max(rolls@) && lo == seq_min(rolls@),
            decreases expression.count - i,
        {
            proof {
                assert(i as int * expression.sides as int + expression.sides as int
                    == (i + 1) as int * expression.sides as int) by (nonlinear_arith);
                assert((i + 1) as int * expression.sides as int <= expression.count as int * expression.sides as int)
                    by (nonlinear_arith) requires i + 1 <= expression.count;
            }
            let v: u32 = if expression.sides == 1 { 1 } else { rng_gen_inclusive(&mut self.rng, 1, expression.sides) };
            let ghost before = rolls@;
            rolls.push(v);
            assert(rolls@.drop_last() == before);
            sum = sum + v;
            if i == 0 {
                hi = v;
                lo = v;
            } else {
                if v > hi { hi = v; }
                if v < lo { lo = v; }
            }
            i = i + 1;
        }
        proof {
            assert(expression.sides as int <= expression.count as int * expression.sides as int)
                by (nonlinear_arith) requires expression.count >= 1;
            lemma_extremes_in_range(rolls@, expression.sides);
        }
        let total: i32 = match mode {
            RollMode::Normal => sum as i32 + expression.modifier,
            RollMode::Advantage => if rolls.len() < 2 { rolls[0] as i32 + expression.modifier } else { hi as i32 + expression.modifier },
            RollMode::Disadvantage => if rolls.len() < 2 { rolls[0] as i32 + expression.modifier } else { lo as i32 + expression.modifier },
        };
        Ok(RollResult { expression: *expression, rolls, total, seed: self.seed })
    }
}

/// Sides and modifier read from what follows the `d`: `M+K`, `M-K` or `M`,
/// or the message of the error.
pub open spec fn dice_modifier_spec(mp: Seq<char>) -> Result<(Seq<char>, i32), Seq<char>> {
    if mp.contains('+') {
        match split_once(mp, '+') {
            None => Err("Invalid modifier: "@ + mp),
            Some(parts) => match parse_i32_spec(parts.1) {
                None => Err("Invalid modifier value: "@ + parts.1),
                Some(m) => Ok((parts.0, m)),
            },
        }
    } else if mp.contains('-') {
        match split_once(mp, '-') {
            None => Err("Invalid modifier: "@ + mp),
            Some(parts) => match parse_i32_spec(parts.1) {
                None => Err("Invalid modifier value: "@ + parts.1),
                Some(m) => Ok((parts.0, (-m) as i32)),
            },
        }
    } else {
        Ok((mp, 0i32))
    }
}

/// The expression written `NdM+K`, `NdM-K` or `NdM` (or `0`) in the
/// normalized text `e`, or the message of the error.
pub open spec fn parse_dice_spec(e: Seq<char>) -> Result<DiceExpression, Seq<char>> {
    if e == "0"@ {
        Ok(DiceExpression { count: 0, sides: 0, modifier: 0 })
    } else {
        match split_once(e, 'd') {
            None => Err("Invalid dice expression: "@ + e),
            Some(parts) => match parse_u32_spec(parts.0) {
                None => Err("Invalid dice count: "@ + parts.0),
                Some(count) => match dice_modifier_spec(parts.1) {
                    Err(m) => Err(m),
                    Ok(sm) => match parse_u32_spec(sm.0) {
                        None => Err("Invalid dice sides: "@ + sm.0),
                        Some(sides) => Ok(DiceExpression { count, sides, modifier: sm.1 }),
                    },
                },
            },
        }
    }
}

/// The text a dice expression is read from: trimmed, then lower-cased.
pub open spec fn normalized_dice_text(s: Seq<char>) -> Seq<char> {
    lowercase(trim(s))
}

/// The characters a dice expression is read from (see
/// `normalized_dice_text`).
fn normalized_chars(expr: &str) -> (e: Vec<char>)
    ensures
        e@ == normalized_dice_text(expr@),
        ascii_text(trim(expr@)) ==> normalized_dice_text(expr@) == ascii_lowered(trim(expr@)),
{
    let raw = chars_of(expr);
    let trimmed = trim_chars(raw.as_slice());
    let trimmed_s = string_of(trimmed.as_slice());
    let lower = to_lowercase(trimmed_s.as_str());
    chars_of(lower.as_str())
}

/// Reads one dice expression `NdM+K`, `NdM-K`, `NdM` or `0`, as the
/// service's roll endpoint does (see `parse_dice_spec`).
pub fn parse_expression(expr: &str) -> (res: Result<DiceExpression, RulesError>)
    ensures
        match parse_dice_spec(normalized_dice_text(expr@)) {
            Ok(d) => res == Ok::<DiceExpression, RulesError>(d),
            Err(m) => res matches Err(RulesError::DiceParse(msg)) && msg@ == m,
        },
        ascii_text(trim(expr@)) ==> normalized_dice_text(expr@) == ascii_lowered(trim(expr@)),
{
    let e = normalized_chars(expr);
    parse_normalized(e.as_slice())
}

/// Reads one dice expression from normalized characters.
fn parse_normalized(e: &[char]) -> (res: Result<DiceExpression, RulesError>)
    ensures
        match parse_dice_spec(e@) {
            Ok(d) => res == Ok::<DiceExpression, RulesError>(d),
            Err(m) => res matches Err(RulesError::DiceParse(msg)) && msg@ == m,
        },
{
        let n = e.len();
        proof { reveal_strlit("0"); }
        if n == 1 && e[0] == '0' {
            assert(e@ == "0"@);
            return Ok(DiceExpression { count: 0, sides: 0, modifier: 0 });
        }
        assert(e@ != "0"@);
        let d = match split_once_at(e, 0, n, 'd') {
            None => {
                assert(e@.subrange(0, n as int) == e@);
                return Err(RulesError::DiceParse(message_with("Invalid dice expression: ", e, 0, n)));
            },
            Some(d) => d,
        };
        assert(e@.subrange(0, n as int) == e@);
        let count = match parse_u32(e, 0, d) {
            None => return Err(RulesError::DiceParse(message_with("Invalid dice count: ", e, 0, d))),
            Some(c) => c,
        };
        let ghost mp = e@.subrange(d + 1, n as int);
        let mstart = d + 1;
        let plus = find_char(e, mstart, n, '+');
        let (sides_end, modifier): (usize, i32) = if plus < n {
            match split_once_at(e, mstart, n, '+') {
                None => return Err(RulesError::DiceParse(message_with("Invalid modifier: ", e, mstart, n))),
                Some(p) => match parse_i32(e, p + 1, n) {
                    None => return Err(RulesError::DiceParse(message_with("Invalid modifier value: ", e, p + 1, n))),
                    Some(m) => (p, m),
                },
            }
        } else {
            let minus = find_char(e, mstart, n, '-');
            if minus < n {
                match split_once_at(e, mstart, n, '-') {
                    None => return Err(RulesError::DiceParse(message_with("Invalid modifier: ", e, mstart, n))),
                    Some(p) => match parse_i32(e, p + 1, n) {
                        None => return Err(RulesError::DiceParse(message_with("Invalid modifier value: ", e, p + 1, n))),
                        Some(m) => {
                            proof {
                                let b = e@.subrange(p + 1, n as int);
                                let sm = e@.subrange(mstart as int, n as int);
                                assert(split_once(sm, '-') is Some);
                                assert(!b.contains('-'));
                                if b.len() > 0 && b[0] == '-' {
                                    assert(b.contains('-'));
                                }
                                let body = if b.len() > 0 && b[0] == '+' { b.drop_first() } else { b };
                                lemma_digits_nonneg(body);
                            }
                            (p, -m)
                        },
                    },
                }
            } else {
                (n, 0)
            }
        };
        let sides = match parse_u32(e, mstart, sides_end) {
            None => return Err(RulesError::DiceParse(message_with("Invalid dice sides: ", e, mstart, sides_end))),
            Some(s) => s,
        };
        Ok(DiceExpression { count, sides, modifier })
}

/// A sum of dice and a constant, such as `2d6+1d4+3`: `count` dice of
/// `sides` sides, then the dice of `extra_dice` (count and sides of each
/// further term, in order), plus `modifier`.
#[derive(Debug, Clone, PartialEq, Eq)]
pub struct DiceFormula {
    pub count: u32,
    pub sides: u32,
    pub modifier: i32,
    pub extra_dice: Vec<(u32, u32)>,
}

/// A sum of dice terms in the normalized text `e`: a single expression
/// reads as `parse_dice_spec` reads it; otherwise the text splits at its
/// first `+` into a dice expression and a further sum (each side holding a
/// `d`), the constants adding up.  The error is that of the part that
/// fails, or of the single expression when the text is no sum.
pub open spec fn parse_formula_spec(e: Seq<char>) -> Result<(DiceExpression, Seq<(u32, u32)>), Seq<char>>
    decreases e.len(),
{
    match parse_dice_spec(e) {
        Ok(d) => Ok((d, Seq::empty())),
        Err(m) => {
            let i = first_index(e, '+') as int;
            if i < e.len() && e.take(i).contains('d') && e.skip(i + 1).contains('d') {
                match parse_dice_spec(e.take(i)) {
                    Err(hm) => Err(hm),
                    Ok(h) => match parse_formula_spec(e.skip(i + 1)) {
                        Err(tm) => Err(tm),
                        Ok(t) => {
                            let total = h.modifier + t.0.modifier;
                            if i32::MIN <= total && total <= i32::MAX {
                                Ok((DiceExpression { count: h.count, sides: h.sides, modifier: total as i32 },
                                    seq![(t.0.count, t.0.sides)] + t.1))
                            } else {
                                Err("Invalid modifier value: "@ + e)
                            }
                        },
                    },
                }
            } else {
                Err(m)
            }
        },
    }
}

/// Reads a sum of dice terms from normalized characters (see
/// `parse_formula_spec`).
fn parse_formula_chars(e: &[char]) -> (res: Result<(DiceExpression, Vec<(u32, u32)>), RulesError>)
    ensures
        match parse_formula_spec(e@) {
            Ok(f) => res matches Ok(r) && r.0 == f.0 && r.1@ == f.1,
            Err(m) => res matches Err(RulesError::DiceParse(msg)) && msg@ == m,
        },
    decreases e@.len(),
{
    let err = match parse_normalized(e) {
        Ok(d) => return Ok((d, Vec::new())),
        Err(err) => err,
    };
    let n = e.len();
    let i = find_char(e, 0, n, '+');
    assert(e@.subrange(0, n as int) == e@);
    if i == n {
        return Err(err);
    }
    let head = sub_chars(e, 0, i);
    let tail = sub_chars(e, i + 1, n);
    assert(head@ == e@.take(i as int));
    assert(tail@ == e@.skip(i + 1));
    let head_d = find_char(e, 0, i, 'd');
    let tail_d = find_char(e, i + 1, n, 'd');
    if head_d == i || tail_d == n {
        return Err(err);
    }
    let h = match parse_normalized(head.as_slice()) {
        Ok(h) => h,
        Err(hm) => return Err(hm),
    };
    let t = match parse_formula_chars(tail.as_slice()) {
        Ok(t) => t,
        Err(tm) => return Err(tm),
    };
    let (first, rest) = t;
    match h.modifier.checked_add(first.modifier) {
        None => Err(RulesError::DiceParse(message_with("Invalid modifier value: ", e, 0, n))),
        Some(total) => {
            let mut extra: Vec<(u32, u32)> = Vec::new();
            extra.push((first.count, first.sides));
            let mut more = rest;
            let ghost a = extra@;
            let ghost b = more@;
            extra.append(&mut more);
            assert(extra@ == a + b);
            Ok((DiceExpression { count: h.count, sides: h.sides, modifier: total }, extra))
        },
    }
}

impl DiceRoller {
    /// Reads a dice expression such as `2d8+3`, `1d20`, `2d8-3` or a sum
    /// of dice such as `2d6+1d4+3`.
    pub fn parse(expr: &str) -> (res: Result<DiceFormula, RulesError>)
        ensures
            match parse_formula_spec(normalized_dice_text(expr@)) {
                Ok(f) => res matches Ok(r) && r.count == f.0.count && r.sides == f.0.sides
                    && r.modifier == f.0.modifier && r.extra_dice@ == f.1,
                Err(m) => res matches Err(RulesError::DiceParse(msg)) && msg@ == m,
            },
            ascii_text(trim(expr@)) ==> normalized_dice_text(expr@) == ascii_lowered(trim(expr@)),
    {
        let e = normalized_chars(expr);
        match parse_formula_chars(e.as_slice()) {
            Ok(f) => {
                let (d, extra) = f;
                Ok(DiceFormula { count: d.count, sides: d.sides, modifier: d.modifier, extra_dice: extra })
            },
            Err(m) => Err(m),
        }
    }
}

} // verus!
