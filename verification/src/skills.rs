use vstd::prelude::*;
use crate::ability::{check_fits, check_in_range, AbilityCheckRequest, AbilityCheckResult, Ability, AbilityChecker, check_outcome, check_with_roll};
use crate::ability_scores::{modifier_of, score_of, AbilityScoreType, AbilityScores};
use crate::dice::seeded_rng;
use crate::error::RulesError;
use rand::rngs::StdRng;

verus! {

/// The eighteen skills.
#[derive(Debug, Clone, Copy, PartialEq, Eq, Hash, Structural)]
pub enum Skill {
    Athletics,
    Acrobatics,
    SleightOfHand,
    Stealth,
    Arcana,
    History,
    Investigation,
    Nature,
    Religion,
    AnimalHandling,
    Insight,
    Medicine,
    Perception,
    Survival,
    Deception,
    Intimidation,
    Performance,
    Persuasion,
}

/// Number of skills.
pub const SKILL_COUNT: usize = 18;

/// The ability a skill is rolled with.
pub open spec fn skill_ability(s: Skill) -> AbilityScoreType {
    match s {
        Skill::Athletics => AbilityScoreType::Strength,
        Skill::Acrobatics => AbilityScoreType::Dexterity,
        Skill::SleightOfHand => AbilityScoreType::Dexterity,
        Skill::Stealth => AbilityScoreType::Dexterity,
        Skill::Arcana => AbilityScoreType::Intelligence,
        Skill::History => AbilityScoreType::Intelligence,
        Skill::Investigation => AbilityScoreType::Intelligence,
        Skill::Nature => AbilityScoreType::Intelligence,
        Skill::Religion => AbilityScoreType::Intelligence,
        Skill::AnimalHandling => AbilityScoreType::Wisdom,
        Skill::Insight => AbilityScoreType::Wisdom,
        Skill::Medicine => AbilityScoreType::Wisdom,
        Skill::Perception => AbilityScoreType::Wisdom,
        Skill::Survival => AbilityScoreType::Wisdom,
        Skill::Deception => AbilityScoreType::Charisma,
        Skill::Intimidation => AbilityScoreType::Charisma,
        Skill::Performance => AbilityScoreType::Charisma,
        Skill::Persuasion => AbilityScoreType::Charisma,
    }
}

/// The abilities of the skills, by ability: Athletics alone uses Strength;
/// Acrobatics, Sleight of Hand and Stealth use Dexterity; Arcana, History,
/// Investigation, Nature and Religion use Intelligence; Animal Handling,
/// Insight, Medicine, Perception and Survival use Wisdom; Deception,
/// Intimidation, Performance and Persuasion use Charisma; no skill uses
/// Constitution.  A skill's bonus starts from that ability's modifier.
pub proof fn law_skill_abilities(s: Skill, scores: AbilityScores, bonus: i32, p: bool, e: bool)
    ensures
        (skill_ability(s) == AbilityScoreType::Strength) <==> s == Skill::Athletics,
        (skill_ability(s) == AbilityScoreType::Dexterity) <==> (s == Skill::Acrobatics || s == Skill::SleightOfHand
            || s == Skill::Stealth),
        (skill_ability(s) == AbilityScoreType::Intelligence) <==> (s == Skill::Arcana || s == Skill::History
            || s == Skill::Investigation || s == Skill::Nature || s == Skill::Religion),
        (skill_ability(s) == AbilityScoreType::Wisdom) <==> (s == Skill::AnimalHandling || s == Skill::Insight
            || s == Skill::Medicine || s == Skill::Perception || s == Skill::Survival),
        (skill_ability(s) == AbilityScoreType::Charisma) <==> (s == Skill::Deception || s == Skill::Intimidation
            || s == Skill::Performance || s == Skill::Persuasion),
        skill_ability(s) != AbilityScoreType::Constitution,
        skill_bonus_spec(scores, s, bonus, p, e).ability_modifier as int
            == (modifier_of(score_of(scores, skill_ability(s)) as int) as i32) as int,
{
}

/// The display name of a skill.
pub open spec fn skill_name(s: Skill) -> Seq<char> {
    match s {
        Skill::Athletics => "Athletics"@,
        Skill::Acrobatics => "Acrobatics"@,
        Skill::SleightOfHand => "Sleight of Hand"@,
        Skill::Stealth => "Stealth"@,
        Skill::Arcana => "Arcana"@,
        Skill::History => "History"@,
        Skill::Investigation => "Investigation"@,
        Skill::Nature => "Nature"@,
        Skill::Religion => "Religion"@,
        Skill::AnimalHandling => "Animal Handling"@,
        Skill::Insight => "Insight"@,
        Skill::Medicine => "Medicine"@,
        Skill::Perception => "Perception"@,
        Skill::Survival => "Survival"@,
        Skill::Deception => "Deception"@,
        Skill::Intimidation => "Intimidation"@,
        Skill::Performance => "Performance"@,
        Skill::Persuasion => "Persuasion"@,
    }
}

/// All skills in their listed order.
pub open spec fn all_skills() -> Seq<Skill> {
    seq![Skill::Athletics, Skill::Acrobatics, Skill::SleightOfHand, Skill::Stealth, Skill::Arcana, Skill::History, Skill::Investigation, Skill::Nature, Skill::Religion, Skill::AnimalHandling, Skill::Insight, Skill::Medicine, Skill::Perception, Skill::Survival, Skill::Deception, Skill::Intimidation, Skill::Performance, Skill::Persuasion]
}

impl Skill {
    /// The ability the skill is rolled with.
    pub fn associated_ability(&self) -> (a: AbilityScoreType)
        ensures
            a == skill_ability(*self),
    {
        match self {
            Skill::Athletics => AbilityScoreType::Strength,
            Skill::Acrobatics => AbilityScoreType::Dexterity,
            Skill::SleightOfHand => AbilityScoreType::Dexterity,
            Skill::Stealth => AbilityScoreType::Dexterity,
            Skill::Arcana => AbilityScoreType::Intelligence,
            Skill::History => AbilityScoreType::Intelligence,
            Skill::Investigation => AbilityScoreType::Intelligence,
            Skill::Nature => AbilityScoreType::Intelligence,
            Skill::Religion => AbilityScoreType::Intelligence,
            Skill::AnimalHandling => AbilityScoreType::Wisdom,
            Skill::Insight => AbilityScoreType::Wisdom,
            Skill::Medicine => AbilityScoreType::Wisdom,
            Skill::Perception => AbilityScoreType::Wisdom,
            Skill::Survival => AbilityScoreType::Wisdom,
            Skill::Deception => AbilityScoreType::Charisma,
            Skill::Intimidation => AbilityScoreType::Charisma,
            Skill::Performance => AbilityScoreType::Charisma,
            Skill::Persuasion => AbilityScoreType::Charisma,
        }
    }

    /// The display name of the skill.
    pub fn name(&self) -> (n: &'static str)
        ensures
            n@ == skill_name(*self),
    {
        match self {
            Skill::Athletics => "Athletics",
            Skill::Acrobatics => "Acrobatics",
            Skill::SleightOfHand => "Sleight of Hand",
            Skill::Stealth => "Stealth",
            Skill::Arcana => "Arcana",
            Skill::History => "History",
            Skill::Investigation => "Investigation",
            Skill::Nature => "Nature",
            Skill::Religion => "Religion",
            Skill::AnimalHandling => "Animal Handling",
            Skill::Insight => "Insight",
            Skill::Medicine => "Medicine",
            Skill::Perception => "Perception",
            Skill::Survival => "Survival",
            Skill::Deception => "Deception",
            Skill::Intimidation => "Intimidation",
            Skill::Performance => "Performance",
            Skill::Persuasion => "Persuasion",
        }
    }

    /// All eighteen skills.
    pub fn all() -> (v: Vec<Skill>)
        ensures
            v@ == all_skills(),
    {
        let v = vec![Skill::Athletics, Skill::Acrobatics, Skill::SleightOfHand, Skill::Stealth, Skill::Arcana, Skill::History, Skill::Investigation, Skill::Nature, Skill::Religion, Skill::AnimalHandling, Skill::Insight, Skill::Medicine, Skill::Perception, Skill::Survival, Skill::Deception, Skill::Intimidation, Skill::Performance, Skill::Persuasion];
        assert(v@ == all_skills());
        v
    }
}

/// Whether a character is proficient, or expert, in a skill.
#[derive(Debug, Clone, Copy, PartialEq, Eq, Structural)]
pub struct SkillProficiency {
    pub skill: Skill,
    pub has_proficiency: bool,
    pub has_expertise: bool,
}

/// A character's bonus in one skill.
#[derive(Debug, Clone, Copy, PartialEq, Eq, Structural)]
pub struct SkillBonus {
    pub skill: Skill,
    pub ability_modifier: i32,
    pub proficiency_bonus: i32,
    pub total_bonus: i32,
    pub has_proficiency: bool,
    pub has_expertise: bool,
}

/// The proficiency part of a skill bonus: doubled with expertise, whole
/// with proficiency, none otherwise.
pub open spec fn skill_proficiency(bonus: i32, has_proficiency: bool, has_expertise: bool) -> int {
    if has_expertise { 2 * bonus } else if has_proficiency { bonus as int } else { 0 }
}

/// The bonus of `skill` for a character with these scores.
pub open spec fn skill_bonus_spec(scores: AbilityScores, skill: Skill, bonus: i32, has_proficiency: bool, has_expertise: bool) -> SkillBonus {
    let m = modifier_of(score_of(scores, skill_ability(skill)) as int);
    let p = skill_proficiency(bonus, has_proficiency, has_expertise);
    SkillBonus {
        skill,
        ability_modifier: m as i32,
        proficiency_bonus: p as i32,
        total_bonus: (m + p) as i32,
        has_proficiency,
        has_expertise,
    }
}

/// The skill bonus arithmetic fits in an `i32`.
pub open spec fn skill_bonus_fits(scores: AbilityScores, skill: Skill, bonus: i32, has_proficiency: bool, has_expertise: bool) -> bool {
    let p = skill_proficiency(bonus, has_proficiency, has_expertise);
    &&& i32::MIN <= p <= i32::MAX
    &&& i32::MIN <= modifier_of(score_of(scores, skill_ability(skill)) as int) + p <= i32::MAX
}

/// The flags the last entry for `skill` gives, or neither when it has none.
pub open spec fn proficiency_flags(profs: Seq<SkillProficiency>, skill: Skill) -> (bool, bool)
    decreases profs.len(),
{
    if profs.len() == 0 {
        (false, false)
    } else if profs.last().skill == skill {
        (profs.last().has_proficiency, profs.last().has_expertise)
    } else {
        proficiency_flags(profs.drop_last(), skill)
    }
}

/// A skill takes its flags from the last entry that names it, so from the
/// only one when no other entry names it; with no entry it has neither.
pub proof fn law_flags_from_entry(profs: Seq<SkillProficiency>, skill: Skill, j: int)
    ensures
        (forall|k: int| 0 <= k < profs.len() ==> (#[trigger] profs[k]).skill != skill)
            ==> proficiency_flags(profs, skill) == (false, false),
        0 <= j < profs.len() && profs[j].skill == skill
            && (forall|k: int| j < k < profs.len() ==> (#[trigger] profs[k]).skill != skill)
            ==> proficiency_flags(profs, skill) == (profs[j].has_proficiency, profs[j].has_expertise),
    decreases profs.len(),
{
    if profs.len() > 0 {
        let rest = profs.drop_last();
        assert forall|k: int| 0 <= k < rest.len() implies rest[k] == profs[k] by {}
        law_flags_from_entry(rest, skill, j);
        if (forall|k: int| 0 <= k < profs.len() ==> (#[trigger] profs[k]).skill != skill) {
            assert(profs[profs.len() - 1].skill != skill);
            assert forall|k: int| 0 <= k < rest.len() implies (#[trigger] rest[k]).skill != skill by {
                assert(rest[k] == profs[k]);
            }
        }
        if 0 <= j < profs.len() && profs[j].skill == skill
            && (forall|k: int| j < k < profs.len() ==> (#[trigger] profs[k]).skill != skill) {
            if j < profs.len() - 1 {
                assert(profs[profs.len() - 1].skill != skill);
                assert(rest[j] == profs[j]);
                assert forall|k: int| j < k < rest.len() implies (#[trigger] rest[k]).skill != skill by {
                    assert(rest[k] == profs[k]);
                }
            }
        }
    }
}

/// Whether the skill bonus arithmetic stays within `i32` (see
/// `skill_bonus_fits`).
pub fn skill_bonus_in_range(scores: &AbilityScores, skill: Skill, bonus: i32, has_proficiency: bool, has_expertise: bool) -> (b: bool)
    ensures
        b == skill_bonus_fits(*scores, skill, bonus, has_proficiency, has_expertise),
{
    let wide = bonus as i64;
    let p: i64 = if has_expertise { 2 * wide } else if has_proficiency { wide } else { 0 };
    let m = scores.get_modifier(skill.associated_ability()) as i64;
    let lo = i32::MIN as i64;
    let hi = i32::MAX as i64;
    lo <= p && p <= hi && lo <= m + p && m + p <= hi
}

/// Whether Passive Perception stays within `i32`: the Perception bonus
/// fits, and so does 10 more.
pub fn passive_perception_in_range(scores: &AbilityScores, bonus: i32, has_proficiency: bool, has_expertise: bool) -> (b: bool)
    ensures
        b == (skill_bonus_fits(*scores, Skill::Perception, bonus, has_proficiency, has_expertise)
            && skill_bonus_spec(*scores, Skill::Perception, bonus, has_proficiency, has_expertise).total_bonus + 10 <= i32::MAX),
{
    if !skill_bonus_in_range(scores, Skill::Perception, bonus, has_proficiency, has_expertise) {
        return false;
    }
    let b = SkillCalculator::calculate_skill_bonus(scores, Skill::Perception, bonus, has_proficiency, has_expertise);
    b.total_bonus <= i32::MAX - 10
}

/// Computes skill bonuses.
pub struct SkillCalculator;

impl SkillCalculator {
    /// The bonus of one skill: the ability modifier plus the proficiency
    /// part.
    pub fn calculate_skill_bonus(
        ability_scores: &AbilityScores,
        skill: Skill,
        proficiency_bonus: i32,
        has_proficiency: bool,
        has_expertise: bool,
    ) -> (b: SkillBonus)
        requires
            skill_bonus_fits(*ability_scores, skill, proficiency_bonus, has_proficiency, has_expertise),
        ensures
            b == skill_bonus_spec(*ability_scores, skill, proficiency_bonus, has_proficiency, has_expertise),
    {
        let ability_type = skill.associated_ability();
        let ability_modifier = ability_scores.get_modifier(ability_type);
        let prof_bonus = if has_expertise {
            proficiency_bonus * 2
        } else if has_proficiency {
            proficiency_bonus
        } else {
            0
        };
        SkillBonus {
            skill,
            ability_modifier,
            proficiency_bonus: prof_bonus,
            total_bonus: ability_modifier + prof_bonus,
            has_proficiency,
            has_expertise,
        }
    }

    /// The bonus of every skill, in the order of `Skill::all`; a skill takes
    /// its flags from the last entry that names it.
    pub fn calculate_all_skills(
        ability_scores: &AbilityScores,
        proficiencies: &[SkillProficiency],
        proficiency_bonus: i32,
    ) -> (v: Vec<SkillBonus>)
        requires
            forall|s: Skill| #[trigger] skill_bonus_fits(*ability_scores, s, proficiency_bonus,
                proficiency_flags(proficiencies@, s).0, proficiency_flags(proficiencies@, s).1),
        ensures
            v@.len() == SKILL_COUNT,
            forall|i: int| 0 <= i < SKILL_COUNT ==> #[trigger] v@[i] == skill_bonus_spec(*ability_scores, all_skills()[i],
                proficiency_bonus, proficiency_flags(proficiencies@, all_skills()[i]).0,
                proficiency_flags(proficiencies@, all_skills()[i]).1),
    {
        let skills = Skill::all();
        let mut out: Vec<SkillBonus> = Vec::new();
        let mut i: usize = 0;
        while i < skills.len()
            invariant
                skills@ == all_skills(),
                i <= SKILL_COUNT,
                out@.len() == i,
                forall|s: Skill| #[trigger] skill_bonus_fits(*ability_scores, s, proficiency_bonus,
                    proficiency_flags(proficiencies@, s).0, proficiency_flags(proficiencies@, s).1),
                forall|k: int| 0 <= k < i ==> #[trigger] out@[k] == skill_bonus_spec(*ability_scores, all_skills()[k],
                    proficiency_bonus, proficiency_flags(proficiencies@, all_skills()[k]).0,
                    proficiency_flags(proficiencies@, all_skills()[k]).1),
            decreases SKILL_COUNT - i,
        {
            let skill = skills[i];
            let flags = flags_for(proficiencies, skill);
            let b = Self::calculate_skill_bonus(ability_scores, skill, proficiency_bonus, flags.0, flags.1);
            out.push(b);
            i = i + 1;
        }
        out
    }

    /// Passive Perception: 10 plus the Perception bonus.
    pub fn passive_perception(
        ability_scores: &AbilityScores,
        proficiency_bonus: i32,
        has_proficiency: bool,
        has_expertise: bool,
    ) -> (p: i32)
        requires
            skill_bonus_fits(*ability_scores, Skill::Perception, proficiency_bonus, has_proficiency, has_expertise),
            skill_bonus_spec(*ability_scores, Skill::Perception, proficiency_bonus, has_proficiency, has_expertise).total_bonus + 10 <= i32::MAX,
        ensures
            p == 10 + skill_bonus_spec(*ability_scores, Skill::Perception, proficiency_bonus, has_proficiency, has_expertise).total_bonus,
    {
        let skill_bonus = Self::calculate_skill_bonus(ability_scores, Skill::Perception, proficiency_bonus, has_proficiency, has_expertise);
        10 + skill_bonus.total_bonus
    }
}

/// The flags the last entry for `skill` gives.
fn flags_for(profs: &[SkillProficiency], skill: Skill) -> (f: (bool, bool))
    ensures
        f == proficiency_flags(profs@, skill),
{
    let mut i = profs.len();
    assert(profs@.take(i as int) == profs@);
    while i > 0
        invariant
            i <= profs@.len(),
            proficiency_flags(profs@, skill) == proficiency_flags(profs@.take(i as int), skill),
        decreases i,
    {
        let p = profs[i - 1];
        assert(profs@.take(i as int).drop_last() == profs@.take(i - 1));
        assert(profs@.take(i as int).last() == p);
        if p.skill == skill {
            return (p.has_proficiency, p.has_expertise);
        }
        i = i - 1;
    }
    (false, false)
}

/// A skill check to resolve.
#[derive(Debug, Clone, Copy)]
pub struct SkillCheckRequest {
    pub skill: Skill,
    pub ability_scores: AbilityScores,
    pub proficiency_bonus: i32,
    pub has_proficiency: bool,
    pub has_expertise: bool,
    pub dc: i32,
    pub advantage: bool,
    pub disadvantage: bool,
    pub seed: Option<u64>,
}

/// The outcome of a skill check.
#[derive(Debug, Clone, Copy, PartialEq, Eq, Structural)]
pub struct SkillCheckResult {
    pub skill: Skill,
    pub skill_bonus: SkillBonus,
    pub roll: i32,
    pub natural_roll: u32,
    pub total: i32,
    pub dc: i32,
    pub success: bool,
}

impl SkillCheckResult {
    /// Combines the skill's bonus with the roll of an ability check.
    pub fn from_ability_check(
        skill: Skill,
        ability_scores: &AbilityScores,
        proficiency_bonus: i32,
        has_proficiency: bool,
        has_expertise: bool,
        ability_check_result: AbilityCheckResult,
    ) -> (r: Self)
        requires
            skill_bonus_fits(*ability_scores, skill, proficiency_bonus, has_proficiency, has_expertise),
        ensures
            r == (SkillCheckResult {
                skill,
                skill_bonus: skill_bonus_spec(*ability_scores, skill, proficiency_bonus, has_proficiency, has_expertise),
                roll: ability_check_result.roll,
                natural_roll: ability_check_result.natural_roll,
                total: ability_check_result.total,
                dc: ability_check_result.dc,
                success: ability_check_result.success,
            }),
    {
        let skill_bonus = SkillCalculator::calculate_skill_bonus(ability_scores, skill, proficiency_bonus, has_proficiency, has_expertise);
        SkillCheckResult {
            skill,
            skill_bonus,
            roll: ability_check_result.roll,
            natural_roll: ability_check_result.natural_roll,
            total: ability_check_result.total,
            dc: ability_check_result.dc,
            success: ability_check_result.success,
        }
    }
}

/// The ability check enum value for an ability score type.
pub open spec fn ability_for(t: AbilityScoreType) -> Ability {
    match t {
        AbilityScoreType::Strength => Ability::Strength,
        AbilityScoreType::Dexterity => Ability::Dexterity,
        AbilityScoreType::Constitution => Ability::Constitution,
        AbilityScoreType::Intelligence => Ability::Intelligence,
        AbilityScoreType::Wisdom => Ability::Wisdom,
        AbilityScoreType::Charisma => Ability::Charisma,
    }
}

/// The ability check a skill check is rolled as: the skill's ability
/// modifier, the skill's proficiency part as the proficiency bonus, and the
/// request's flags, which the check applies again.
pub open spec fn skill_check_request(r: SkillCheckRequest) -> AbilityCheckRequest {
    let b = skill_bonus_spec(r.ability_scores, r.skill, r.proficiency_bonus, r.has_proficiency, r.has_expertise);
    AbilityCheckRequest {
        ability: ability_for(skill_ability(r.skill)),
        ability_modifier: b.ability_modifier,
        proficiency_bonus: b.proficiency_bonus,
        has_proficiency: r.has_proficiency,
        has_expertise: r.has_expertise,
        dc: r.dc,
        advantage: r.advantage,
        disadvantage: r.disadvantage,
        seed: r.seed,
    }
}

/// The result of the skill check whose ability check rolled `c`.
pub open spec fn skill_check_with(r: SkillCheckRequest, c: AbilityCheckResult) -> SkillCheckResult {
    SkillCheckResult {
        skill: r.skill,
        skill_bonus: skill_bonus_spec(r.ability_scores, r.skill, r.proficiency_bonus, r.has_proficiency, r.has_expertise),
        roll: c.roll,
        natural_roll: c.natural_roll,
        total: c.total,
        dc: c.dc,
        success: c.success,
    }
}

/// The ability check a skill check is rolled as (see
/// `skill_check_request`).
fn check_request_for(request: &SkillCheckRequest) -> (c: AbilityCheckRequest)
    requires
        skill_bonus_fits(request.ability_scores, request.skill, request.proficiency_bonus, request.has_proficiency, request.has_expertise),
    ensures
        c == skill_check_request(*request),
{
    let bonus = SkillCalculator::calculate_skill_bonus(&request.ability_scores, request.skill,
        request.proficiency_bonus, request.has_proficiency, request.has_expertise);
    let ability = match request.skill.associated_ability() {
        AbilityScoreType::Strength => Ability::Strength,
        AbilityScoreType::Dexterity => Ability::Dexterity,
        AbilityScoreType::Constitution => Ability::Constitution,
        AbilityScoreType::Intelligence => Ability::Intelligence,
        AbilityScoreType::Wisdom => Ability::Wisdom,
        AbilityScoreType::Charisma => Ability::Charisma,
    };
    AbilityCheckRequest {
        ability,
        ability_modifier: bonus.ability_modifier,
        proficiency_bonus: bonus.proficiency_bonus,
        has_proficiency: request.has_proficiency,
        has_expertise: request.has_expertise,
        dc: request.dc,
        advantage: request.advantage,
        disadvantage: request.disadvantage,
        seed: request.seed,
    }
}

/// Whether a skill check's arithmetic stays within `i32`: its bonus and
/// the ability check it is rolled as.
pub fn skill_check_in_range(request: &SkillCheckRequest) -> (b: bool)
    ensures
        b == (skill_bonus_fits(request.ability_scores, request.skill, request.proficiency_bonus, request.has_proficiency,
            request.has_expertise) && check_fits(skill_check_request(*request))),
{
    if !skill_bonus_in_range(&request.ability_scores, request.skill, request.proficiency_bonus, request.has_proficiency,
        request.has_expertise) {
        return false;
    }
    check_in_range(&check_request_for(request))
}

/// Rolls a skill check as an ability check with the skill's modifier and
/// proficiency part, and reports it with the skill's bonus.
pub fn skill_check(request: &SkillCheckRequest) -> (res: Result<SkillCheckResult, RulesError>)
    requires
        skill_bonus_fits(request.ability_scores, request.skill, request.proficiency_bonus, request.has_proficiency, request.has_expertise),
        check_fits(skill_check_request(*request)),
    ensures
        res matches Ok(r) && (exists|rng: StdRng|
            r == skill_check_with(*request, #[trigger] check_outcome(rng, skill_check_request(*request)))),
        request.seed matches Some(s) ==> res == Ok::<SkillCheckResult, RulesError>(
            skill_check_with(*request, check_outcome(seeded_rng(s), skill_check_request(*request)))),
{
    let check_request = check_request_for(request);
    let checker = AbilityChecker::new();
    let checked = checker.check(&check_request);
    match checked {
        Ok(c) => {
            let r = SkillCheckResult::from_ability_check(request.skill, &request.ability_scores,
                request.proficiency_bonus, request.has_proficiency, request.has_expertise, c);
            Ok(r)
        },
        Err(e) => Err(e),
    }
}

} // verus!
