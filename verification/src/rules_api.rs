use vstd::prelude::*;
use crate::ability::{check_fits, check_in_range, check_outcome, test_mode, Ability, AbilityCheckRequest, AbilityCheckResult, AbilityChecker};
use crate::ability_scores::{
    modifier_of, rolled_scores, score_of, scores_seq, sorted_descending, AbilityScoreGenerator, AbilityScoreType,
    AbilityScores,
};
use crate::cr_xp::{cr_index, cr_label, cr_of_label, cr_proficiency, cr_xp, xp_distance, xp_to_cr_approximate, ChallengeRating};
use crate::dice::{
    normalized_dice_text, parse_dice_spec, parse_expression, roll_fits, roll_in_range, roll_sequence, roll_total, seeded_rng, DiceExpression, DiceRoller,
    RollMode, RollResult,
};
use crate::error::RulesError;
use crate::skills::{
    skill_ability, skill_bonus_fits, skill_bonus_in_range, skill_bonus_spec, skill_check, skill_check_in_range, skill_check_request, skill_check_with, skill_name,
    Skill, SkillBonus, SkillCalculator, SkillCheckRequest, SkillCheckResult,
};
use crate::text::{ascii_lowered, ascii_text, chars_of, decimal, lowercase, same_text, string_of, to_lowercase, u64_text};
use crate::damage::DamageType;
use crate::weapons::{sheets, weapon_named, weapon_table, Weapon, WeaponCategory, WeaponDatabase, WeaponProperty, WeaponSheet, WeaponType};
use crate::spells::{
    attack_expression, cast_expression, cast_fits, cast_refusal, cast_result_shape, cast_rolled, castable_by, effects_rollable, fresh_slots,
    full_caster_totals, matches_query, school_name, select, spell_named, spells_of, Spell, SpellCastRequest,
    SpellCastResult, SpellCaster, SpellDatabase, SpellSchool, SpellSlots, within_dice,
};
use rand::rngs::StdRng;

verus! {

/// A refused request: the HTTP status and the reason.
#[derive(Debug, Clone)]
pub struct ApiError {
    pub status: u16,
    pub message: String,
}

/// `prefix` followed by `rest`.
fn prefixed(prefix: &str, rest: &str) -> (s: String)
    ensures
        s@ == prefix@ + rest@,
{
    let mut s = String::from_str(prefix);
    s.append(rest);
    s
}

/// A bad request with the given reason.
fn bad_request(prefix: &str, rest: &str) -> (e: ApiError)
    ensures
        e.status == 400,
        e.message@ == prefix@ + rest@,
{
    ApiError { status: 400, message: prefixed(prefix, rest) }
}

/// The service's health.
#[derive(Debug, Clone)]
pub struct HealthResponse {
    pub status: String,
    pub service: String,
    pub version: String,
}

/// The service is up.
pub fn health() -> (r: HealthResponse)
    ensures
        r.status@ == "ok"@,
        r.service@ == "rules5e-service"@,
        r.version@ == "1.0.0"@,
{
    HealthResponse {
        status: String::from_str("ok"),
        service: String::from_str("rules5e-service"),
        version: String::from_str("1.0.0"),
    }
}

/// The text with spaces and underscores removed.
pub open spec fn compact(s: Seq<char>) -> Seq<char>
    decreases s.len(),
{
    if s.len() == 0 {
        Seq::empty()
    } else if s.last() == ' ' || s.last() == '_' {
        compact(s.drop_last())
    } else {
        compact(s.drop_last()).push(s.last())
    }
}

fn compact_chars(v: &[char]) -> (r: Vec<char>)
    ensures
        r@ == compact(v@),
{
    let mut out: Vec<char> = Vec::new();
    let mut i: usize = 0;
    while i < v.len()
        invariant
            i <= v@.len(),
            out@ == compact(v@.take(i as int)),
        decreases v@.len() - i,
    {
        assert(v@.take(i + 1).drop_last() == v@.take(i as int));
        assert(v@.take(i + 1).last() == v@[i as int]);
        if v[i] != ' ' && v[i] != '_' {
            out.push(v[i]);
        }
        i = i + 1;
    }
    assert(v@.take(v@.len() as int) == v@);
    out
}

/// The skill a compacted lower-case name denotes.
pub open spec fn skill_of_key(k: Seq<char>) -> Option<Skill> {
    if k == "athletics"@ { Some(Skill::Athletics) }
    else if k == "acrobatics"@ { Some(Skill::Acrobatics) }
    else if k == "sleightofhand"@ || k == "sleight_of_hand"@ { Some(Skill::SleightOfHand) }
    else if k == "stealth"@ { Some(Skill::Stealth) }
    else if k == "arcana"@ { Some(Skill::Arcana) }
    else if k == "history"@ { Some(Skill::History) }
    else if k == "investigation"@ { Some(Skill::Investigation) }
    else if k == "nature"@ { Some(Skill::Nature) }
    else if k == "religion"@ { Some(Skill::Religion) }
    else if k == "animalhandling"@ || k == "animal_handling"@ { Some(Skill::AnimalHandling) }
    else if k == "insight"@ { Some(Skill::Insight) }
    else if k == "medicine"@ { Some(Skill::Medicine) }
    else if k == "perception"@ { Some(Skill::Perception) }
    else if k == "survival"@ { Some(Skill::Survival) }
    else if k == "deception"@ { Some(Skill::Deception) }
    else if k == "intimidation"@ { Some(Skill::Intimidation) }
    else if k == "performance"@ { Some(Skill::Performance) }
    else if k == "persuasion"@ { Some(Skill::Persuasion) }
    else { None }
}

/// The skill a name denotes: letter case, spaces and underscores aside.
pub open spec fn skill_named(s: Seq<char>) -> Option<Skill> {
    skill_of_key(compact(lowercase(s)))
}

/// Reads a skill name, letter case, spaces and underscores aside.
pub fn parse_skill(skill_str: &str) -> (res: Result<Skill, ApiError>)
    ensures
        match skill_named(skill_str@) {
            Some(s) => res matches Ok(x) && x == s,
            None => res matches Err(e) && e.status == 400 && e.message@ == "Invalid skill: "@ + skill_str@,
        },
        ascii_text(skill_str@) ==> lowercase(skill_str@) == ascii_lowered(skill_str@),
{
    let lower = to_lowercase(skill_str);
    let lc = chars_of(lower.as_str());
    let kc = compact_chars(lc.as_slice());
    let key_string = string_of(kc.as_slice());
    let k = key_string.as_str();
    if same_text(k, "athletics") { Ok(Skill::Athletics) }
    else if same_text(k, "acrobatics") { Ok(Skill::Acrobatics) }
    else if same_text(k, "sleightofhand") || same_text(k, "sleight_of_hand") { Ok(Skill::SleightOfHand) }
    else if same_text(k, "stealth") { Ok(Skill::Stealth) }
    else if same_text(k, "arcana") { Ok(Skill::Arcana) }
    else if same_text(k, "history") { Ok(Skill::History) }
    else if same_text(k, "investigation") { Ok(Skill::Investigation) }
    else if same_text(k, "nature") { Ok(Skill::Nature) }
    else if same_text(k, "religion") { Ok(Skill::Religion) }
    else if same_text(k, "animalhandling") || same_text(k, "animal_handling") { Ok(Skill::AnimalHandling) }
    else if same_text(k, "insight") { Ok(Skill::Insight) }
    else if same_text(k, "medicine") { Ok(Skill::Medicine) }
    else if same_text(k, "perception") { Ok(Skill::Perception) }
    else if same_text(k, "survival") { Ok(Skill::Survival) }
    else if same_text(k, "deception") { Ok(Skill::Deception) }
    else if same_text(k, "intimidation") { Ok(Skill::Intimidation) }
    else if same_text(k, "performance") { Ok(Skill::Performance) }
    else if same_text(k, "persuasion") { Ok(Skill::Persuasion) }
    else { Err(bad_request("Invalid skill: ", skill_str)) }
}

/// The ability a lower-case name or abbreviation denotes.
pub open spec fn ability_of_key(k: Seq<char>) -> Option<Ability> {
    if k == "strength"@ || k == "str"@ { Some(Ability::Strength) }
    else if k == "dexterity"@ || k == "dex"@ { Some(Ability::Dexterity) }
    else if k == "constitution"@ || k == "con"@ { Some(Ability::Constitution) }
    else if k == "intelligence"@ || k == "int"@ { Some(Ability::Intelligence) }
    else if k == "wisdom"@ || k == "wis"@ { Some(Ability::Wisdom) }
    else if k == "charisma"@ || k == "cha"@ { Some(Ability::Charisma) }
    else { None }
}

/// Reads an ability name or abbreviation, letter case aside.
pub fn parse_ability(name: &str) -> (res: Result<Ability, ApiError>)
    ensures
        match ability_of_key(lowercase(name@)) {
            Some(a) => res matches Ok(x) && x == a,
            None => res matches Err(e) && e.status == 400 && e.message@ == "Invalid ability: "@ + name@,
        },
        ascii_text(name@) ==> lowercase(name@) == ascii_lowered(name@),
{
    let lower = to_lowercase(name);
    let k = lower.as_str();
    if same_text(k, "strength") || same_text(k, "str") { Ok(Ability::Strength) }
    else if same_text(k, "dexterity") || same_text(k, "dex") { Ok(Ability::Dexterity) }
    else if same_text(k, "constitution") || same_text(k, "con") { Ok(Ability::Constitution) }
    else if same_text(k, "intelligence") || same_text(k, "int") { Ok(Ability::Intelligence) }
    else if same_text(k, "wisdom") || same_text(k, "wis") { Ok(Ability::Wisdom) }
    else if same_text(k, "charisma") || same_text(k, "cha") { Ok(Ability::Charisma) }
    else { Err(bad_request("Invalid ability: ", name)) }
}

/// A saving throw to roll.
#[derive(Debug, Clone)]
pub struct SavingThrowRequest {
    pub ability: String,
    pub ability_modifier: i32,
    pub proficiency_bonus: i32,
    pub has_proficiency: bool,
    pub dc: i32,
    pub advantage: Option<bool>,
    pub disadvantage: Option<bool>,
    pub seed: Option<u64>,
}

/// The check a saving throw is rolled as: no expertise, absent advantage
/// and disadvantage are false.
pub open spec fn saving_throw_check(r: SavingThrowRequest, a: Ability) -> AbilityCheckRequest {
    AbilityCheckRequest {
        ability: a,
        ability_modifier: r.ability_modifier,
        proficiency_bonus: r.proficiency_bonus,
        has_proficiency: r.has_proficiency,
        has_expertise: false,
        dc: r.dc,
        advantage: r.advantage == Some(true),
        disadvantage: r.disadvantage == Some(true),
        seed: r.seed,
    }
}

/// The saving throw's arithmetic fits for the ability it names.
pub open spec fn saving_throw_fits(r: SavingThrowRequest) -> bool {
    ability_of_key(lowercase(r.ability@)) matches Some(a) ==> check_fits(saving_throw_check(r, a))
}

/// The check a saving throw is rolled as (see `saving_throw_check`).
fn saving_throw_check_for(request: &SavingThrowRequest, ability: Ability) -> (c: AbilityCheckRequest)
    ensures
        c == saving_throw_check(*request, ability),
{
    AbilityCheckRequest {
        ability,
        ability_modifier: request.ability_modifier,
        proficiency_bonus: request.proficiency_bonus,
        has_proficiency: request.has_proficiency,
        has_expertise: false,
        dc: request.dc,
        advantage: match request.advantage { Some(b) => b, None => false },
        disadvantage: match request.disadvantage { Some(b) => b, None => false },
        seed: request.seed,
    }
}

/// Whether the saving throw's arithmetic stays within `i32` (see
/// `saving_throw_fits`).
pub fn saving_throw_in_range(request: &SavingThrowRequest) -> (b: bool)
    ensures
        b == saving_throw_fits(*request),
{
    match parse_ability(request.ability.as_str()) {
        Ok(a) => check_in_range(&saving_throw_check_for(request, a)),
        Err(_) => true,
    }
}

/// Rolls a saving throw as an ability check without expertise.
pub fn saving_throw(request: &SavingThrowRequest) -> (res: Result<AbilityCheckResult, ApiError>)
    requires
        saving_throw_fits(*request),
    ensures
        match ability_of_key(lowercase(request.ability@)) {
            None => res matches Err(e) && e.status == 400 && e.message@ == "Invalid ability: "@ + request.ability@,
            Some(a) => (res matches Ok(r) && exists|rng: StdRng| r == #[trigger] check_outcome(rng, saving_throw_check(*request, a)))
                && (request.seed matches Some(s) ==> res matches Ok(r)
                    && r == check_outcome(seeded_rng(s), saving_throw_check(*request, a))),
        },
{
    let ability = match parse_ability(request.ability.as_str()) {
        Ok(a) => a,
        Err(e) => return Err(e),
    };
    let check = saving_throw_check_for(request, ability);
    let checker = AbilityChecker::new();
    match checker.check(&check) {
        Ok(r) => Ok(r),
        Err(e) => Err(ApiError { status: 500, message: prefixed("Saving throw error: ", e.text().as_str()) }),
    }
}

/// Rolls the saving throw when its arithmetic fits the machine's integers
/// for the ability it names (see `saving_throw_fits`); nothing otherwise.
pub fn try_saving_throw(request: &SavingThrowRequest) -> (res: Option<Result<AbilityCheckResult, ApiError>>)
    ensures
        saving_throw_fits(*request) <==> res is Some,
        res matches Some(r) ==> match ability_of_key(lowercase(request.ability@)) {
            None => r matches Err(e) && e.status == 400 && e.message@ == "Invalid ability: "@ + request.ability@,
            Some(a) => (r matches Ok(x) && exists|rng: StdRng| x == #[trigger] check_outcome(rng, saving_throw_check(*request, a)))
                && (request.seed matches Some(k) ==> r matches Ok(x)
                    && x == check_outcome(seeded_rng(k), saving_throw_check(*request, a))),
        },
{
    if !saving_throw_in_range(request) {
        return None;
    }
    Some(saving_throw(request))
}

/// A score whose modifier is wanted.
#[derive(Debug, Clone, Copy)]
pub struct AbilityModifierRequest {
    pub ability_score: u8,
}

/// A score and its modifier.
#[derive(Debug, Clone, Copy, PartialEq, Eq, Structural)]
pub struct AbilityModifierResponse {
    pub score: u8,
    pub modifier: i32,
}

/// The modifier of a score; scores above 30 are refused.
pub fn ability_modifier(request: &AbilityModifierRequest) -> (res: Result<AbilityModifierResponse, ApiError>)
    ensures
        request.ability_score > 30 ==> (res matches Err(e) && e.status == 400
            && e.message@ == "Ability score cannot exceed 30"@),
        request.ability_score <= 30 ==> (res matches Ok(r) && r.score == request.ability_score
            && r.modifier == modifier_of(request.ability_score as int)),
{
    if request.ability_score > 30 {
        return Err(ApiError { status: 400, message: String::from_str("Ability score cannot exceed 30") });
    }
    let modifier = crate::ability_scores::score_modifier(request.ability_score);
    Ok(AbilityModifierResponse { score: request.ability_score, modifier })
}

/// How scores are to be generated.
#[derive(Debug, Clone)]
pub struct GenerateAbilityScoresRequest {
    pub method: String,
    pub seed: Option<u64>,
}

/// The modifier of each score.
#[derive(Debug, Clone, Copy, PartialEq, Eq, Structural)]
pub struct AbilityScoreModifiers {
    pub strength: i32,
    pub dexterity: i32,
    pub constitution: i32,
    pub intelligence: i32,
    pub wisdom: i32,
    pub charisma: i32,
}

/// Generated scores with their modifiers.
#[derive(Debug, Clone, Copy, PartialEq, Eq, Structural)]
pub struct GenerateAbilityScoresResponse {
    pub scores: AbilityScores,
    pub modifiers: AbilityScoreModifiers,
}

/// The modifiers of the scores.
pub open spec fn modifiers_of(s: AbilityScores) -> AbilityScoreModifiers {
    AbilityScoreModifiers {
        strength: modifier_of(s.strength as int) as i32,
        dexterity: modifier_of(s.dexterity as int) as i32,
        constitution: modifier_of(s.constitution as int) as i32,
        intelligence: modifier_of(s.intelligence as int) as i32,
        wisdom: modifier_of(s.wisdom as int) as i32,
        charisma: modifier_of(s.charisma as int) as i32,
    }
}

/// The generation methods by lower-case name: 0 standard array, 1 point
/// buy, 2 rolling.
pub open spec fn method_of_key(k: Seq<char>) -> Option<u8> {
    if k == "standard"@ || k == "standard_array"@ { Some(0u8) }
    else if k == "point_buy"@ || k == "pointbuy"@ { Some(1u8) }
    else if k == "rolling"@ || k == "roll"@ { Some(2u8) }
    else { None }
}

/// The standard array.
pub open spec fn standard_scores() -> AbilityScores {
    AbilityScores { strength: 15, dexterity: 14, constitution: 13, intelligence: 12, wisdom: 10, charisma: 8 }
}

/// Generates scores by the named method, with their modifiers.
pub fn generate_ability_scores(request: &GenerateAbilityScoresRequest) -> (res: Result<GenerateAbilityScoresResponse, ApiError>)
    ensures
        match method_of_key(lowercase(request.method@)) {
            None => res matches Err(e) && e.status == 400 && e.message@ == "Invalid generation method: "@ + request.method@,
            Some(m) => res matches Ok(r) && r.modifiers == modifiers_of(r.scores)
                && (m < 2 ==> r.scores == standard_scores())
                && (m == 2 ==> sorted_descending(scores_seq(r.scores))
                    && (exists|rng: StdRng| scores_seq(r.scores).to_multiset() == #[trigger] rolled_scores(rng, 6).1.to_multiset())
                    && (request.seed matches Some(k) ==> scores_seq(r.scores).to_multiset()
                        == rolled_scores(seeded_rng(k), 6).1.to_multiset())),
        },
{
    let lower = to_lowercase(request.method.as_str());
    let k = lower.as_str();
    let scores = if same_text(k, "standard") || same_text(k, "standard_array") {
        AbilityScoreGenerator::generate_standard_array()
    } else if same_text(k, "point_buy") || same_text(k, "pointbuy") {
        AbilityScoreGenerator::generate_point_buy()
    } else if same_text(k, "rolling") || same_text(k, "roll") {
        AbilityScoreGenerator::generate_rolling(request.seed)
    } else {
        return Err(bad_request("Invalid generation method: ", request.method.as_str()));
    };
    let modifiers = AbilityScoreModifiers {
        strength: scores.get_modifier(AbilityScoreType::Strength),
        dexterity: scores.get_modifier(AbilityScoreType::Dexterity),
        constitution: scores.get_modifier(AbilityScoreType::Constitution),
        intelligence: scores.get_modifier(AbilityScoreType::Intelligence),
        wisdom: scores.get_modifier(AbilityScoreType::Wisdom),
        charisma: scores.get_modifier(AbilityScoreType::Charisma),
    };
    Ok(GenerateAbilityScoresResponse { scores, modifiers })
}

/// A rating whose XP is wanted.
#[derive(Debug, Clone)]
pub struct CrToXpRequest {
    pub cr: String,
}

/// A rating's XP and proficiency bonus.
#[derive(Debug, Clone)]
pub struct CrToXpResponse {
    pub cr: String,
    pub xp: u32,
    pub proficiency_bonus: i32,
}

/// The XP and proficiency bonus of a written rating.
pub fn cr_to_xp(request: &CrToXpRequest) -> (res: Result<CrToXpResponse, ApiError>)
    ensures
        match cr_of_label(request.cr@) {
            None => res matches Err(e) && e.status == 400
                && e.message@ == "Invalid CR: "@ + "Invalid input: "@ + "Invalid CR: "@ + request.cr@,
            Some(c) => res matches Ok(r) && r.cr@ == cr_label(c) && r.xp == cr_xp(c) && r.proficiency_bonus == cr_proficiency(c),
        },
{
    match ChallengeRating::from_str(request.cr.as_str()) {
        Err(e) => Err(ApiError { status: 400, message: prefixed("Invalid CR: ", e.text().as_str()) }),
        Ok(cr) => Ok(CrToXpResponse { cr: cr.to_string(), xp: cr.to_xp(), proficiency_bonus: cr.to_proficiency_bonus() }),
    }
}

/// An XP value whose rating is wanted.
#[derive(Debug, Clone, Copy)]
pub struct XpToCrRequest {
    pub xp: u32,
}

/// The rating nearest an XP value.
#[derive(Debug, Clone)]
pub struct XpToCrResponse {
    pub xp: u32,
    pub cr: String,
    pub approximate: bool,
}

/// `c` is the first rating whose XP is nearest `xp`.
pub open spec fn is_nearest(xp: u32, c: ChallengeRating) -> bool {
    &&& forall|d: ChallengeRating| xp_distance(xp, c) <= #[trigger] xp_distance(xp, d)
    &&& forall|d: ChallengeRating| cr_index(d) < cr_index(c) ==> xp_distance(xp, c) < #[trigger] xp_distance(xp, d)
}

/// The rating whose XP is nearest (see `xp_to_cr_approximate`).
pub fn xp_to_cr(request: &XpToCrRequest) -> (r: XpToCrResponse)
    ensures
        r.xp == request.xp,
        r.approximate,
        exists|c: ChallengeRating| r.cr@ == #[trigger] cr_label(c) && is_nearest(request.xp, c),
{
    let cr = xp_to_cr_approximate(request.xp);
    XpToCrResponse { xp: request.xp, cr: cr.to_string(), approximate: true }
}

/// A rating whose proficiency bonus is wanted.
#[derive(Debug, Clone)]
pub struct CrToProficiencyRequest {
    pub cr: String,
}

/// A rating's proficiency bonus.
#[derive(Debug, Clone)]
pub struct CrToProficiencyResponse {
    pub cr: String,
    pub proficiency_bonus: i32,
}

/// The proficiency bonus of a written rating.
pub fn cr_to_proficiency(request: &CrToProficiencyRequest) -> (res: Result<CrToProficiencyResponse, ApiError>)
    ensures
        match cr_of_label(request.cr@) {
            None => res matches Err(e) && e.status == 400
                && e.message@ == "Invalid CR: "@ + "Invalid input: "@ + "Invalid CR: "@ + request.cr@,
            Some(c) => res matches Ok(r) && r.cr@ == cr_label(c) && r.proficiency_bonus == cr_proficiency(c),
        },
{
    match ChallengeRating::from_str(request.cr.as_str()) {
        Err(e) => Err(ApiError { status: 400, message: prefixed("Invalid CR: ", e.text().as_str()) }),
        Ok(cr) => Ok(CrToProficiencyResponse { cr: cr.to_string(), proficiency_bonus: cr.to_proficiency_bonus() }),
    }
}

/// A skill and the ability it is rolled with.
#[derive(Debug, Clone)]
pub struct SkillInfo {
    pub name: String,
    pub ability: String,
}

/// Every skill.
#[derive(Debug, Clone)]
pub struct ListSkillsResponse {
    pub skills: Vec<SkillInfo>,
}

/// The display name of an ability.
pub open spec fn ability_type_name(a: AbilityScoreType) -> Seq<char> {
    match a {
        AbilityScoreType::Strength => "Strength"@,
        AbilityScoreType::Dexterity => "Dexterity"@,
        AbilityScoreType::Constitution => "Constitution"@,
        AbilityScoreType::Intelligence => "Intelligence"@,
        AbilityScoreType::Wisdom => "Wisdom"@,
        AbilityScoreType::Charisma => "Charisma"@,
    }
}

fn ability_type_text(a: AbilityScoreType) -> (s: &'static str)
    ensures
        s@ == ability_type_name(a),
{
    match a {
        AbilityScoreType::Strength => "Strength",
        AbilityScoreType::Dexterity => "Dexterity",
        AbilityScoreType::Constitution => "Constitution",
        AbilityScoreType::Intelligence => "Intelligence",
        AbilityScoreType::Wisdom => "Wisdom",
        AbilityScoreType::Charisma => "Charisma",
    }
}

/// Every skill with its ability, in the order of `Skill::all`.
pub fn list_skills() -> (r: ListSkillsResponse)
    ensures
        r.skills@.len() == crate::skills::all_skills().len(),
        forall|i: int| 0 <= i < r.skills@.len() ==> (#[trigger] r.skills@[i]).name@ == skill_name(crate::skills::all_skills()[i])
            && r.skills@[i].ability@ == ability_type_name(skill_ability(crate::skills::all_skills()[i])),
{
    let all = Skill::all();
    let mut skills: Vec<SkillInfo> = Vec::new();
    let mut i: usize = 0;
    while i < all.len()
        invariant
            i <= all@.len(),
            all@ == crate::skills::all_skills(),
            skills@.len() == i,
            forall|k: int| 0 <= k < i ==> (#[trigger] skills@[k]).name@ == skill_name(all@[k])
                && skills@[k].ability@ == ability_type_name(skill_ability(all@[k])),
        decreases all@.len() - i,
    {
        let skill = all[i];
        let info = SkillInfo {
            name: String::from_str(skill.name()),
            ability: String::from_str(ability_type_text(skill.associated_ability())),
        };
        skills.push(info);
        i = i + 1;
    }
    ListSkillsResponse { skills }
}

/// A skill bonus to compute, the skill by name.
#[derive(Debug, Clone)]
pub struct CalculateSkillBonusRequest {
    pub ability_scores: AbilityScores,
    pub skill: String,
    pub proficiency_bonus: i32,
    pub has_proficiency: bool,
    pub has_expertise: bool,
}

/// A computed skill bonus.
#[derive(Debug, Clone, Copy)]
pub struct CalculateSkillBonusResponse {
    pub bonus: SkillBonus,
}

/// The bonus of the skill the request names fits in an `i32`.
pub open spec fn skill_bonus_request_fits(r: CalculateSkillBonusRequest) -> bool {
    skill_named(r.skill@) matches Some(s) ==> skill_bonus_fits(r.ability_scores, s, r.proficiency_bonus,
        r.has_proficiency, r.has_expertise)
}

/// Whether the bonus of the named skill stays within `i32` (see
/// `skill_bonus_request_fits`).
pub fn skill_bonus_request_in_range(request: &CalculateSkillBonusRequest) -> (b: bool)
    ensures
        b == skill_bonus_request_fits(*request),
{
    match parse_skill(request.skill.as_str()) {
        Ok(s) => skill_bonus_in_range(&request.ability_scores, s, request.proficiency_bonus, request.has_proficiency,
            request.has_expertise),
        Err(_) => true,
    }
}

/// The bonus of the named skill.
pub fn calculate_skill_bonus(request: &CalculateSkillBonusRequest) -> (res: Result<CalculateSkillBonusResponse, ApiError>)
    requires
        skill_bonus_request_fits(*request),
    ensures
        match skill_named(request.skill@) {
            None => res matches Err(e) && e.status == 400 && e.message@ == "Invalid skill: "@ + request.skill@,
            Some(s) => res matches Ok(r) && r.bonus == skill_bonus_spec(request.ability_scores, s,
                request.proficiency_bonus, request.has_proficiency, request.has_expertise),
        },
{
    let skill = match parse_skill(request.skill.as_str()) {
        Ok(s) => s,
        Err(e) => return Err(e),
    };
    let bonus = SkillCalculator::calculate_skill_bonus(&request.ability_scores, skill, request.proficiency_bonus,
        request.has_proficiency, request.has_expertise);
    Ok(CalculateSkillBonusResponse { bonus })
}

/// The bonus of the named skill when it fits in an `i32` (see
/// `skill_bonus_request_fits`); nothing otherwise.
pub fn try_calculate_skill_bonus(request: &CalculateSkillBonusRequest) -> (res: Option<Result<CalculateSkillBonusResponse, ApiError>>)
    ensures
        skill_bonus_request_fits(*request) <==> res is Some,
        res matches Some(r) ==> match skill_named(request.skill@) {
            None => r matches Err(e) && e.status == 400 && e.message@ == "Invalid skill: "@ + request.skill@,
            Some(k) => r matches Ok(x) && x.bonus == skill_bonus_spec(request.ability_scores, k,
                request.proficiency_bonus, request.has_proficiency, request.has_expertise),
        },
{
    if !skill_bonus_request_in_range(request) {
        return None;
    }
    Some(calculate_skill_bonus(request))
}

/// A skill check to roll, the skill by name.
#[derive(Debug, Clone)]
pub struct SkillCheckRequestHttp {
    pub skill: String,
    pub ability_scores: AbilityScores,
    pub proficiency_bonus: i32,
    pub has_proficiency: bool,
    pub has_expertise: bool,
    pub dc: i32,
    pub advantage: bool,
    pub disadvantage: bool,
    pub seed: Option<u64>,
}

/// The skill check the request asks for, once its skill is known.
pub open spec fn skill_check_of(r: SkillCheckRequestHttp, s: Skill) -> SkillCheckRequest {
    SkillCheckRequest {
        skill: s,
        ability_scores: r.ability_scores,
        proficiency_bonus: r.proficiency_bonus,
        has_proficiency: r.has_proficiency,
        has_expertise: r.has_expertise,
        dc: r.dc,
        advantage: r.advantage,
        disadvantage: r.disadvantage,
        seed: r.seed,
    }
}

/// The skill check the request names fits in an `i32`: its bonus and the
/// ability check it is rolled as.
pub open spec fn skill_check_http_fits(r: SkillCheckRequestHttp) -> bool {
    skill_named(r.skill@) matches Some(s) ==> skill_bonus_fits(r.ability_scores, s, r.proficiency_bonus,
        r.has_proficiency, r.has_expertise) && check_fits(skill_check_request(skill_check_of(r, s)))
}

/// The skill check the request asks for (see `skill_check_of`).
fn skill_check_for(request: &SkillCheckRequestHttp, skill: Skill) -> (c: SkillCheckRequest)
    ensures
        c == skill_check_of(*request, skill),
{
    SkillCheckRequest {
        skill,
        ability_scores: request.ability_scores,
        proficiency_bonus: request.proficiency_bonus,
        has_proficiency: request.has_proficiency,
        has_expertise: request.has_expertise,
        dc: request.dc,
        advantage: request.advantage,
        disadvantage: request.disadvantage,
        seed: request.seed,
    }
}

/// Whether the named skill's check stays within `i32` (see
/// `skill_check_http_fits`).
pub fn skill_check_http_in_range(request: &SkillCheckRequestHttp) -> (b: bool)
    ensures
        b == skill_check_http_fits(*request),
{
    match parse_skill(request.skill.as_str()) {
        Ok(s) => skill_check_in_range(&skill_check_for(request, s)),
        Err(_) => true,
    }
}

/// Rolls the named skill's check (see `skills::skill_check`).
pub fn skill_check_http(request: &SkillCheckRequestHttp) -> (res: Result<SkillCheckResult, ApiError>)
    requires
        skill_check_http_fits(*request),
    ensures
        match skill_named(request.skill@) {
            None => res matches Err(e) && e.status == 400 && e.message@ == "Invalid skill: "@ + request.skill@,
            Some(s) => (res matches Ok(r) && exists|rng: StdRng|
                r == skill_check_with(skill_check_of(*request, s), #[trigger] check_outcome(rng, skill_check_request(skill_check_of(*request, s)))))
                && (request.seed matches Some(k) ==> res matches Ok(r) && r == skill_check_with(skill_check_of(*request, s),
                    check_outcome(seeded_rng(k), skill_check_request(skill_check_of(*request, s))))),
        },
{
    let skill = match parse_skill(request.skill.as_str()) {
        Ok(s) => s,
        Err(e) => return Err(e),
    };
    let check = skill_check_for(request, skill);
    assert(skill_bonus_fits(request.ability_scores, skill, request.proficiency_bonus, request.has_proficiency, request.has_expertise)
        && check_fits(skill_check_request(skill_check_of(*request, skill))));
    match skill_check(&check) {
        Ok(r) => Ok(r),
        Err(e) => Err(ApiError { status: 500, message: prefixed("Skill check error: ", e.text().as_str()) }),
    }
}

/// Rolls the named skill's check when its arithmetic fits the machine's
/// integers (see `skill_check_http_fits`); nothing otherwise.
pub fn try_skill_check_http(request: &SkillCheckRequestHttp) -> (res: Option<Result<SkillCheckResult, ApiError>>)
    ensures
        skill_check_http_fits(*request) <==> res is Some,
        res matches Some(r) ==> match skill_named(request.skill@) {
            None => r matches Err(e) && e.status == 400 && e.message@ == "Invalid skill: "@ + request.skill@,
            Some(k) => (r matches Ok(x) && exists|rng: StdRng|
                x == skill_check_with(skill_check_of(*request, k), #[trigger] check_outcome(rng, skill_check_request(skill_check_of(*request, k)))))
                && (request.seed matches Some(q) ==> r matches Ok(x) && x == skill_check_with(skill_check_of(*request, k),
                    check_outcome(seeded_rng(q), skill_check_request(skill_check_of(*request, k))))),
        },
{
    if !skill_check_http_in_range(request) {
        return None;
    }
    Some(skill_check_http(request))
}

/// Passive Perception to compute.
#[derive(Debug, Clone, Copy)]
pub struct PassivePerceptionRequest {
    pub ability_scores: AbilityScores,
    pub proficiency_bonus: i32,
    pub has_proficiency: bool,
    pub has_expertise: bool,
}

/// A Passive Perception score.
#[derive(Debug, Clone, Copy, PartialEq, Eq, Structural)]
pub struct PassivePerceptionResponse {
    pub passive_perception: i32,
}

/// 10 plus the Perception bonus.
pub fn passive_perception(request: &PassivePerceptionRequest) -> (r: PassivePerceptionResponse)
    requires
        skill_bonus_fits(request.ability_scores, Skill::Perception, request.proficiency_bonus, request.has_proficiency,
            request.has_expertise),
        skill_bonus_spec(request.ability_scores, Skill::Perception, request.proficiency_bonus, request.has_proficiency,
            request.has_expertise).total_bonus + 10 <= i32::MAX,
    ensures
        r.passive_perception == 10 + skill_bonus_spec(request.ability_scores, Skill::Perception,
            request.proficiency_bonus, request.has_proficiency, request.has_expertise).total_bonus,
{
    let p = SkillCalculator::passive_perception(&request.ability_scores, request.proficiency_bonus,
        request.has_proficiency, request.has_expertise);
    PassivePerceptionResponse { passive_perception: p }
}

/// A roll of a written dice expression.
#[derive(Debug, Clone)]
pub struct RollRequest {
    pub expression: String,
    pub seed: Option<u64>,
    pub advantage: Option<bool>,
    pub disadvantage: Option<bool>,
}

/// The outcome of a roll.
#[derive(Debug, Clone)]
pub struct RollResponse {
    pub result: RollResult,
}

/// The dice read and the total of rolling `d` in `mode` from a generator
/// in state `rng`.
pub open spec fn roll_outcome(rng: StdRng, d: DiceExpression, mode: RollMode) -> (Seq<u32>, int) {
    if d.count == 0 {
        (Seq::empty(), d.modifier as int)
    } else {
        let rolls = roll_sequence(rng, d.count as nat, d.sides).1;
        (rolls, roll_total(rolls, d.modifier, mode))
    }
}

/// The mode a roll request asks for: advantage and disadvantage given as
/// true cancel.
pub open spec fn requested_mode(r: RollRequest) -> RollMode {
    test_mode(r.advantage == Some(true), r.disadvantage == Some(true))
}

/// The request's expression, once read, can be rolled without overflow.
pub open spec fn roll_request_fits(r: RollRequest) -> bool {
    parse_dice_spec(normalized_dice_text(r.expression@)) matches Ok(d) ==> roll_fits(d)
}

/// What the roll of a request answers: the expression as read, rolled in
/// the requested mode with a roller for the request's seed.
pub open spec fn roll_answered(request: RollRequest, res: Result<RollResponse, ApiError>) -> bool {
    match parse_dice_spec(normalized_dice_text(request.expression@)) {
            Err(m) => res matches Err(e) && e.status == 400
                && e.message@ == "Invalid dice expression: "@ + ("Dice parsing error: "@ + m),
            Ok(d) => if d.count > 0 && d.sides == 0 {
                res matches Err(e) && e.status == 500
                    && e.message@ == "Roll error: "@ + ("Dice parsing error: "@ + "Dice sides cannot be 0"@)
            } else {
                (res matches Ok(r) && r.result.expression == d && r.result.seed == request.seed
                    && exists|rng: StdRng| (r.result.rolls@, r.result.total as int)
                        == #[trigger] roll_outcome(rng, d, requested_mode(request)))
                && (request.seed matches Some(s) ==> res matches Ok(r)
                    && (r.result.rolls@, r.result.total as int) == roll_outcome(seeded_rng(s), d, requested_mode(request)))
            },
        }
}

/// Reads and rolls the expression.  An expression that cannot be read is a
/// bad request; one that cannot be rolled (dice without sides) is a server
/// error.
pub fn roll(request: &RollRequest) -> (res: Result<RollResponse, ApiError>)
    requires
        roll_request_fits(*request),
    ensures
        roll_answered(*request, res),
{
    let expr = match parse_expression(request.expression.as_str()) {
        Ok(d) => d,
        Err(e) => return Err(ApiError { status: 400, message: prefixed("Invalid dice expression: ", e.text().as_str()) }),
    };
    let advantage = match request.advantage { Some(b) => b, None => false };
    let disadvantage = match request.disadvantage { Some(b) => b, None => false };
    let mode = if advantage && disadvantage {
        RollMode::Normal
    } else if advantage {
        RollMode::Advantage
    } else if disadvantage {
        RollMode::Disadvantage
    } else {
        RollMode::Normal
    };
    assert(mode == requested_mode(*request));
    let mut roller = match request.seed {
        Some(s) => DiceRoller::with_seed(s),
        None => DiceRoller::new(),
    };
    let ghost start = roller.rng_state();
    match roller.roll(&expr, mode) {
        Ok(result) => {
            assert((result.rolls@, result.total as int) == roll_outcome(start, expr, mode));
            Ok(RollResponse { result })
        },
        Err(e) => Err(ApiError { status: 500, message: prefixed("Roll error: ", e.text().as_str()) }),
    }
}

/// Rolls the request when its expression fits the machine's integers;
/// nothing otherwise.
pub fn try_roll(request: &RollRequest) -> (res: Option<Result<RollResponse, ApiError>>)
    ensures
        roll_request_fits(*request) <==> res is Some,
        res matches Some(r) ==> roll_answered(*request, r),
{
    match parse_expression(request.expression.as_str()) {
        Ok(d) => {
            if !roll_in_range(&d) {
                return None;
            }
        },
        Err(_) => {},
    }
    Some(roll(request))
}

/// A weapon as listed.
#[derive(Debug, Clone)]
pub struct WeaponInfo {
    pub name: String,
    pub category: String,
    pub weapon_type: String,
    pub damage: String,
    pub damage_type: String,
    pub properties: Vec<String>,
}

/// Every weapon, as listed.
#[derive(Debug, Clone)]
pub struct ListWeaponsResponse {
    pub weapons: Vec<WeaponInfo>,
}

/// The name of a category.
pub open spec fn category_name(c: WeaponCategory) -> Seq<char> {
    match c {
        WeaponCategory::Simple => "Simple"@,
        WeaponCategory::Martial => "Martial"@,
    }
}

/// The name of a weapon type.
pub open spec fn weapon_type_name(t: WeaponType) -> Seq<char> {
    match t {
        WeaponType::Melee => "Melee"@,
        WeaponType::Ranged => "Ranged"@,
    }
}

/// The name of a damage type.
pub open spec fn damage_type_name(t: DamageType) -> Seq<char> {
    match t {
        DamageType::Acid => "Acid"@,
        DamageType::Bludgeoning => "Bludgeoning"@,
        DamageType::Cold => "Cold"@,
        DamageType::Fire => "Fire"@,
        DamageType::Force => "Force"@,
        DamageType::Lightning => "Lightning"@,
        DamageType::Necrotic => "Necrotic"@,
        DamageType::Piercing => "Piercing"@,
        DamageType::Poison => "Poison"@,
        DamageType::Psychic => "Psychic"@,
        DamageType::Radiant => "Radiant"@,
        DamageType::Slashing => "Slashing"@,
        DamageType::Thunder => "Thunder"@,
    }
}

/// The name of a weapon property.
pub open spec fn property_name(p: WeaponProperty) -> Seq<char> {
    match p {
        WeaponProperty::Light => "Light"@,
        WeaponProperty::Finesse => "Finesse"@,
        WeaponProperty::TwoHanded => "TwoHanded"@,
        WeaponProperty::Versatile => "Versatile"@,
        WeaponProperty::Heavy => "Heavy"@,
        WeaponProperty::Reach => "Reach"@,
        WeaponProperty::Thrown => "Thrown"@,
        WeaponProperty::Ammunition => "Ammunition"@,
        WeaponProperty::Loading => "Loading"@,
        WeaponProperty::Special => "Special"@,
    }
}

/// Dice written `NdM`, with `+K` for a positive modifier.
pub open spec fn dice_text(d: DiceExpression) -> Seq<char> {
    decimal(d.count as nat) + ("d"@ + (decimal(d.sides as nat)
        + (if d.modifier > 0 { "+"@ + decimal(d.modifier as nat) } else { Seq::empty() })))
}

/// How a weapon is listed.
pub open spec fn info_of(info: WeaponInfo, w: WeaponSheet) -> bool {
    &&& info.name@ == w.name
    &&& info.category@ == category_name(w.category)
    &&& info.weapon_type@ == weapon_type_name(w.weapon_type)
    &&& info.damage@ == dice_text(w.damage)
    &&& info.damage_type@ == damage_type_name(w.damage_type)
    &&& info.properties@.len() == w.properties.len()
    &&& forall|i: int| 0 <= i < w.properties.len() ==> (#[trigger] info.properties@[i])@ == property_name(w.properties[i])
}

fn damage_type_text(t: DamageType) -> (s: &'static str)
    ensures
        s@ == damage_type_name(t),
{
    match t {
        DamageType::Acid => "Acid",
        DamageType::Bludgeoning => "Bludgeoning",
        DamageType::Cold => "Cold",
        DamageType::Fire => "Fire",
        DamageType::Force => "Force",
        DamageType::Lightning => "Lightning",
        DamageType::Necrotic => "Necrotic",
        DamageType::Piercing => "Piercing",
        DamageType::Poison => "Poison",
        DamageType::Psychic => "Psychic",
        DamageType::Radiant => "Radiant",
        DamageType::Slashing => "Slashing",
        DamageType::Thunder => "Thunder",
    }
}

fn property_text(p: WeaponProperty) -> (s: &'static str)
    ensures
        s@ == property_name(p),
{
    match p {
        WeaponProperty::Light => "Light",
        WeaponProperty::Finesse => "Finesse",
        WeaponProperty::TwoHanded => "TwoHanded",
        WeaponProperty::Versatile => "Versatile",
        WeaponProperty::Heavy => "Heavy",
        WeaponProperty::Reach => "Reach",
        WeaponProperty::Thrown => "Thrown",
        WeaponProperty::Ammunition => "Ammunition",
        WeaponProperty::Loading => "Loading",
        WeaponProperty::Special => "Special",
    }
}

/// Dice written `NdM`, with `+K` for a positive modifier.
fn dice_string(d: &DiceExpression) -> (s: String)
    ensures
        s@ == dice_text(*d),
{
    let count = u64_text(d.count as u64);
    let sides = u64_text(d.sides as u64);
    let tail = if d.modifier > 0 {
        let m = u64_text(d.modifier as u64);
        prefixed("+", m.as_str())
    } else {
        String::new()
    };
    let a = prefixed(sides.as_str(), tail.as_str());
    let b = prefixed("d", a.as_str());
    prefixed(count.as_str(), b.as_str())
}

/// How a weapon is listed: its name, category, type, dice, damage type and
/// properties by name.
pub fn weapon_info(w: &Weapon) -> (info: WeaponInfo)
    ensures
        info_of(info, w@),
{
    let mut properties: Vec<String> = Vec::new();
    let mut i: usize = 0;
    while i < w.properties.len()
        invariant
            i <= w.properties@.len(),
            properties@.len() == i,
            forall|k: int| 0 <= k < i ==> (#[trigger] properties@[k])@ == property_name(w.properties@[k]),
        decreases w.properties@.len() - i,
    {
        properties.push(String::from_str(property_text(w.properties[i])));
        i = i + 1;
    }
    WeaponInfo {
        name: w.name.clone(),
        category: String::from_str(match w.category {
            WeaponCategory::Simple => "Simple",
            WeaponCategory::Martial => "Martial",
        }),
        weapon_type: String::from_str(match w.weapon_type {
            WeaponType::Melee => "Melee",
            WeaponType::Ranged => "Ranged",
        }),
        damage: dice_string(&w.damage),
        damage_type: String::from_str(damage_type_text(w.damage_type)),
        properties,
    }
}

/// Every weapon of the rules, as listed.
pub fn list_weapons() -> (r: ListWeaponsResponse)
    ensures
        r.weapons@.len() == weapon_table().len(),
        forall|i: int| 0 <= i < r.weapons@.len() ==> info_of(#[trigger] r.weapons@[i], weapon_table()[i]),
{
    let all = WeaponDatabase::all_weapons();
    let mut weapons: Vec<WeaponInfo> = Vec::new();
    let mut i: usize = 0;
    while i < all.len()
        invariant
            i <= all@.len(),
            sheets(all@) == weapon_table(),
            weapons@.len() == i,
            forall|k: int| 0 <= k < i ==> info_of(#[trigger] weapons@[k], weapon_table()[k]),
        decreases all@.len() - i,
    {
        let info = weapon_info(&all[i]);
        assert(weapon_table()[i as int] == all@[i as int]@);
        weapons.push(info);
        i = i + 1;
    }
    ListWeaponsResponse { weapons }
}

/// The weapon of the given name, letter case aside; not found otherwise.
pub fn get_weapon(weapon_name: &str) -> (res: Result<Weapon, ApiError>)
    ensures
        match weapon_named(weapon_name@) {
            None => res matches Err(e) && e.status == 404 && e.message@ == "Weapon not found: "@ + weapon_name@,
            Some(w) => res matches Ok(x) && x@ == w,
        },
{
    match WeaponDatabase::get_weapon(weapon_name) {
        Some(w) => Ok(w),
        None => Err(ApiError { status: 404, message: prefixed("Weapon not found: ", weapon_name) }),
    }
}

/// Weapons wanted by category and type, each written exactly.
#[derive(Debug, Clone)]
pub struct GetWeaponsByCategoryRequest {
    pub category: Option<String>,
    pub weapon_type: Option<String>,
}

/// The weapons found.
#[derive(Debug, Clone)]
pub struct GetWeaponsByCategoryResponse {
    pub weapons: Vec<Weapon>,
}

/// The category written exactly.
pub open spec fn category_named(s: Seq<char>) -> Option<WeaponCategory> {
    if s == "Simple"@ { Some(WeaponCategory::Simple) } else if s == "Martial"@ { Some(WeaponCategory::Martial) } else { None }
}

/// The weapon type written exactly.
pub open spec fn type_named(s: Seq<char>) -> Option<WeaponType> {
    if s == "Melee"@ { Some(WeaponType::Melee) } else if s == "Ranged"@ { Some(WeaponType::Ranged) } else { None }
}

/// The weapons of `t` whose category and type match those given.
pub open spec fn select_where(t: Seq<WeaponSheet>, c: Option<WeaponCategory>, k: Option<WeaponType>) -> Seq<WeaponSheet>
    decreases t.len(),
{
    if t.len() == 0 {
        Seq::empty()
    } else {
        let rest = select_where(t.drop_last(), c, k);
        let w = t.last();
        let keep = (match c { Some(x) => w.category == x, None => true })
            && (match k { Some(x) => w.weapon_type == x, None => true });
        if keep { rest.push(w) } else { rest }
    }
}

/// The weapons a request finds: a category it cannot read stops the search
/// with every weapon; a type it cannot read stops it with those of the
/// category.
pub open spec fn weapons_found(category: Option<Seq<char>>, weapon_type: Option<Seq<char>>) -> Seq<WeaponSheet> {
    let t = weapon_table();
    match category {
        Some(c) => match category_named(c) {
            None => t,
            Some(x) => {
                let a = select_where(t, Some(x), None);
                match weapon_type {
                    None => a,
                    Some(y) => match type_named(y) {
                        None => a,
                        Some(z) => select_where(a, None, Some(z)),
                    },
                }
            },
        },
        None => match weapon_type {
            None => t,
            Some(y) => match type_named(y) {
                None => t,
                Some(z) => select_where(t, None, Some(z)),
            },
        },
    }
}

/// The view of an optional text.
pub open spec fn opt_view(o: Option<String>) -> Option<Seq<char>> {
    match o {
        Some(s) => Some(s@),
        None => None,
    }
}

/// Keeps the weapons whose category and type match those given.
fn keep_where(all: Vec<Weapon>, c: Option<WeaponCategory>, k: Option<WeaponType>) -> (v: Vec<Weapon>)
    ensures
        sheets(v@) == select_where(sheets(all@), c, k),
{
    let ghost whole = all@;
    let mut rest = all;
    let mut out: Vec<Weapon> = Vec::new();
    let n = rest.len();
    let mut i: usize = 0;
    while i < n
        invariant
            i <= n == whole.len(),
            rest@ == whole.skip(i as int),
            sheets(out@) == select_where(sheets(whole.take(i as int)), c, k),
        decreases n - i,
    {
        let w = rest.remove(0);
        assert(w == whole[i as int]);
        assert(whole.skip(i as int).remove(0) =~= whole.skip(i + 1));
        let ghost before = out@;
        assert(sheets(whole.take(i + 1)).drop_last() =~= sheets(whole.take(i as int)));
        assert(sheets(whole.take(i + 1)).last() == w@);
        let keep_c = match c {
            Some(x) => w.category == x,
            None => true,
        };
        let keep_k = match k {
            Some(x) => w.weapon_type == x,
            None => true,
        };
        if keep_c && keep_k {
            out.push(w);
            assert(sheets(out@) =~= sheets(before).push(whole[i as int]@));
        }
        i = i + 1;
    }
    assert(whole.take(n as int) =~= whole);
    out
}

/// The weapons of the written category and type (see `weapons_found`).
pub fn weapons_by_category(request: &GetWeaponsByCategoryRequest) -> (r: GetWeaponsByCategoryResponse)
    ensures
        sheets(r.weapons@) == weapons_found(opt_view(request.category), opt_view(request.weapon_type)),
{
    let mut weapons = WeaponDatabase::all_weapons();
    if let Some(category) = &request.category {
        let c = category.as_str();
        let filter = if same_text(c, "Simple") {
            WeaponCategory::Simple
        } else if same_text(c, "Martial") {
            WeaponCategory::Martial
        } else {
            return GetWeaponsByCategoryResponse { weapons };
        };
        weapons = keep_where(weapons, Some(filter), None);
    }
    if let Some(weapon_type) = &request.weapon_type {
        let t = weapon_type.as_str();
        let filter = if same_text(t, "Melee") {
            WeaponType::Melee
        } else if same_text(t, "Ranged") {
            WeaponType::Ranged
        } else {
            return GetWeaponsByCategoryResponse { weapons };
        };
        weapons = keep_where(weapons, None, Some(filter));
    }
    GetWeaponsByCategoryResponse { weapons }
}

/// A spell as listed.
#[derive(Debug, Clone)]
pub struct SpellInfo {
    pub name: String,
    pub level: u8,
    pub school: String,
    pub classes: Vec<String>,
}

/// Every stored spell, as listed.
#[derive(Debug, Clone)]
pub struct ListSpellsResponse {
    pub spells: Vec<SpellInfo>,
}

/// A search of the spells.
#[derive(Debug, Clone)]
pub struct SearchSpellsRequest {
    pub query: String,
}

/// The spells a search found.
#[derive(Debug, Clone)]
pub struct SearchSpellsResponse {
    pub spells: Vec<SpellInfo>,
}

/// Spells wanted by level.
#[derive(Debug, Clone, Copy)]
pub struct GetSpellsByLevelRequest {
    pub level: u8,
}

/// The spells of a level.
#[derive(Debug, Clone)]
pub struct GetSpellsByLevelResponse {
    pub spells: Vec<SpellInfo>,
}

/// Spells wanted by school, by name.
#[derive(Debug, Clone)]
pub struct GetSpellsBySchoolRequest {
    pub school: String,
}

/// The spells of a school.
#[derive(Debug, Clone)]
pub struct GetSpellsBySchoolResponse {
    pub spells: Vec<SpellInfo>,
}

/// Spells wanted by class.
#[derive(Debug, Clone)]
pub struct GetSpellsByClassRequest {
    pub class: String,
}

/// The spells of a class.
#[derive(Debug, Clone)]
pub struct GetSpellsByClassResponse {
    pub spells: Vec<SpellInfo>,
}

/// How a spell is listed.
pub open spec fn spell_info_of(info: SpellInfo, sp: Spell) -> bool {
    &&& info.name@ == sp.name@
    &&& info.level == sp.level.0
    &&& info.school@ == school_name(sp.school)
    &&& info.classes@.len() == sp.classes@.len()
    &&& forall|i: int| 0 <= i < sp.classes@.len() ==> (#[trigger] info.classes@[i])@ == sp.classes@[i]@
}

/// The spells listed one for one.
pub open spec fn listed(infos: Seq<SpellInfo>, spells: Seq<Spell>) -> bool {
    &&& infos.len() == spells.len()
    &&& forall|i: int| 0 <= i < spells.len() ==> spell_info_of(#[trigger] infos[i], spells[i])
}

/// How a spell is listed: name, level, school name and classes.
pub fn spell_info(sp: &Spell) -> (info: SpellInfo)
    ensures
        spell_info_of(info, *sp),
{
    let mut classes: Vec<String> = Vec::new();
    let mut i: usize = 0;
    while i < sp.classes.len()
        invariant
            i <= sp.classes@.len(),
            classes@.len() == i,
            forall|k: int| 0 <= k < i ==> (#[trigger] classes@[k])@ == sp.classes@[k]@,
        decreases sp.classes@.len() - i,
    {
        classes.push(sp.classes[i].clone());
        i = i + 1;
    }
    SpellInfo {
        name: sp.name.clone(),
        level: sp.level.value(),
        school: String::from_str(sp.school.name()),
        classes,
    }
}

/// The listing of the spells.
fn infos(spells: &Vec<&Spell>) -> (r: Vec<SpellInfo>)
    ensures
        listed(r@, spells_of(spells@)),
{
    let mut out: Vec<SpellInfo> = Vec::new();
    let mut i: usize = 0;
    while i < spells.len()
        invariant
            i <= spells@.len(),
            out@.len() == i,
            forall|k: int| 0 <= k < i ==> spell_info_of(#[trigger] out@[k], spells_of(spells@)[k]),
        decreases spells@.len() - i,
    {
        out.push(spell_info(spells[i]));
        i = i + 1;
    }
    out
}

/// Every stored spell, as listed.
pub fn list_spells(db: &SpellDatabase) -> (r: ListSpellsResponse)
    ensures
        listed(r.spells@, db@),
{
    let found = db.list_spells();
    ListSpellsResponse { spells: infos(&found) }
}

/// The spell stored under the name; not found otherwise.
pub fn get_spell<'a>(db: &'a SpellDatabase, spell_name: &str) -> (res: Result<&'a Spell, ApiError>)
    ensures
        match spell_named(db@, spell_name@) {
            None => res matches Err(e) && e.status == 404 && e.message@ == "Spell not found: "@ + spell_name@,
            Some(sp) => res matches Ok(x) && *x == sp,
        },
{
    match db.get_spell(spell_name) {
        Some(sp) => Ok(sp),
        None => Err(ApiError { status: 404, message: prefixed("Spell not found: ", spell_name) }),
    }
}

/// The spells whose name or description holds the query, as listed.
pub fn search_spells(db: &SpellDatabase, request: &SearchSpellsRequest) -> (r: SearchSpellsResponse)
    ensures
        listed(r.spells@, select(db@, |sp: Spell| matches_query(sp, request.query@))),
{
    let found = db.search_spells(request.query.as_str());
    SearchSpellsResponse { spells: infos(&found) }
}

/// The spells of a level, as listed; levels above 9 are refused.
pub fn spells_by_level(db: &SpellDatabase, request: &GetSpellsByLevelRequest) -> (res: Result<GetSpellsByLevelResponse, ApiError>)
    ensures
        request.level > 9 ==> (res matches Err(e) && e.status == 400 && e.message@ == "Spell level cannot exceed 9"@),
        request.level <= 9 ==> (res matches Ok(r) && listed(r.spells@, select(db@, |sp: Spell| sp.level.0 == request.level))),
{
    if request.level > 9 {
        return Err(ApiError { status: 400, message: String::from_str("Spell level cannot exceed 9") });
    }
    let found = db.get_spells_by_level(request.level);
    Ok(GetSpellsByLevelResponse { spells: infos(&found) })
}

/// The school a lower-case name denotes.
pub open spec fn school_of_key(k: Seq<char>) -> Option<SpellSchool> {
    if k == "abjuration"@ { Some(SpellSchool::Abjuration) }
    else if k == "conjuration"@ { Some(SpellSchool::Conjuration) }
    else if k == "divination"@ { Some(SpellSchool::Divination) }
    else if k == "enchantment"@ { Some(SpellSchool::Enchantment) }
    else if k == "evocation"@ { Some(SpellSchool::Evocation) }
    else if k == "illusion"@ { Some(SpellSchool::Illusion) }
    else if k == "necromancy"@ { Some(SpellSchool::Necromancy) }
    else if k == "transmutation"@ { Some(SpellSchool::Transmutation) }
    else { None }
}

/// Reads a school name, letter case aside.
pub fn parse_school(name: &str) -> (res: Result<SpellSchool, ApiError>)
    ensures
        match school_of_key(lowercase(name@)) {
            Some(s) => res matches Ok(x) && x == s,
            None => res matches Err(e) && e.status == 400 && e.message@ == "Invalid spell school: "@ + name@,
        },
        ascii_text(name@) ==> lowercase(name@) == ascii_lowered(name@),
{
    let lower = to_lowercase(name);
    let k = lower.as_str();
    if same_text(k, "abjuration") { Ok(SpellSchool::Abjuration) }
    else if same_text(k, "conjuration") { Ok(SpellSchool::Conjuration) }
    else if same_text(k, "divination") { Ok(SpellSchool::Divination) }
    else if same_text(k, "enchantment") { Ok(SpellSchool::Enchantment) }
    else if same_text(k, "evocation") { Ok(SpellSchool::Evocation) }
    else if same_text(k, "illusion") { Ok(SpellSchool::Illusion) }
    else if same_text(k, "necromancy") { Ok(SpellSchool::Necromancy) }
    else if same_text(k, "transmutation") { Ok(SpellSchool::Transmutation) }
    else { Err(bad_request("Invalid spell school: ", name)) }
}

/// The spells of the named school, as listed.
pub fn spells_by_school(db: &SpellDatabase, request: &GetSpellsBySchoolRequest) -> (res: Result<GetSpellsBySchoolResponse, ApiError>)
    ensures
        match school_of_key(lowercase(request.school@)) {
            None => res matches Err(e) && e.status == 400 && e.message@ == "Invalid spell school: "@ + request.school@,
            Some(school) => res matches Ok(r) && listed(r.spells@, select(db@, |sp: Spell| sp.school == school)),
        },
{
    let school = match parse_school(request.school.as_str()) {
        Ok(s) => s,
        Err(e) => return Err(e),
    };
    let found = db.get_spells_by_school(school);
    Ok(GetSpellsBySchoolResponse { spells: infos(&found) })
}

/// The spells a class can cast, as listed.
pub fn spells_by_class(db: &SpellDatabase, request: &GetSpellsByClassRequest) -> (r: GetSpellsByClassResponse)
    ensures
        listed(r.spells@, select(db@, |sp: Spell| castable_by(sp, request.class@))),
{
    let found = db.get_spells_by_class(request.class.as_str());
    GetSpellsByClassResponse { spells: infos(&found) }
}

/// The cast of a stored spell by a full caster of the request's level fits
/// the machine's integers.
pub open spec fn cast_request_fits(db: Seq<Spell>, request: SpellCastRequest) -> bool {
    spell_named(db, request.spell_name@) matches Some(sp) ==> (request.caster_level <= 20
        ==> cast_fits(sp, request, fresh_slots(full_caster_totals(request.caster_level))))
}

/// Whether the cast of the request stays within the machine integers (see
/// `cast_request_fits`).
pub fn cast_request_in_range(db: &SpellDatabase, request: &SpellCastRequest) -> (b: bool)
    ensures
        b == cast_request_fits(db@, *request),
{
    let spell = match db.get_spell(request.spell_name.as_str()) {
        Some(sp) => sp,
        None => return true,
    };
    match SpellSlots::for_full_caster(request.caster_level) {
        Ok(slots) => SpellCaster::new().cast_in_range(spell, request, &slots),
        Err(_) => true,
    }
}

/// Casts a stored spell with the slots of a full caster of the request's
/// level: an unknown spell is not found; a level above 20 and a refused
/// cast are bad requests.
pub fn cast_spell(db: &SpellDatabase, request: &SpellCastRequest) -> (res: Result<SpellCastResult, ApiError>)
    requires
        cast_request_fits(db@, *request),
    ensures
        match spell_named(db@, request.spell_name@) {
            None => res matches Err(e) && e.status == 404 && e.message@ == "Spell not found: "@ + request.spell_name@,
            Some(sp) => if request.caster_level > 20 {
                res matches Err(e) && e.status == 400 && e.message@ == "Failed to create spell slots: "@
                    + ("Invalid input: "@ + "Character level cannot exceed 20"@)
            } else {
                let slots = fresh_slots(full_caster_totals(request.caster_level));
                match cast_refusal(sp, slots, request.slot_level) {
                    Some(m) => res matches Err(e) && e.status == 400
                        && e.message@ == "Failed to cast spell: "@ + ("Invalid input: "@ + m),
                    None => (res is Ok <==> effects_rollable(sp, request.slot_level))
                        && (res matches Err(e) ==> e.status == 400 && e.message@ == "Failed to cast spell: "@
                            + ("Dice parsing error: "@ + "Dice sides cannot be 0"@))
                        && (res matches Ok(r) ==> cast_result_shape(r, sp, *request)
                            && (exists|a: StdRng, d: StdRng, h: StdRng| #[trigger] cast_rolled(r, sp, *request, a, d, h))
                            && (request.seed matches Some(s) ==> cast_rolled(r, sp, *request,
                                seeded_rng(s), seeded_rng(s), seeded_rng(s)))),
                }
            },
        },
        res matches Ok(r) ==> (spell_named(db@, request.spell_name@) matches Some(sp)
            && (r.attack_roll matches Some(t) ==> within_dice(t as int, attack_expression(request.spell_attack_bonus)))
            && (r.damage matches Some(v) ==> (sp.effect.damage matches Some(e)
                && within_dice(v as int, cast_expression(sp, request.slot_level, e))))
            && (r.healing matches Some(v) ==> (sp.effect.healing matches Some(e)
                && within_dice(v as int, cast_expression(sp, request.slot_level, e))))),
{
    let spell = match db.get_spell(request.spell_name.as_str()) {
        Some(sp) => sp,
        None => return Err(ApiError { status: 404, message: prefixed("Spell not found: ", request.spell_name.as_str()) }),
    };
    let mut slots = match SpellSlots::for_full_caster(request.caster_level) {
        Ok(s) => s,
        Err(e) => return Err(bad_request("Failed to create spell slots: ", e.text().as_str())),
    };
    let caster = SpellCaster::new();
    match caster.cast(spell, request, &mut slots) {
        Ok(r) => Ok(r),
        Err(e) => Err(bad_request("Failed to cast spell: ", e.text().as_str())),
    }
}

/// The full caster level whose slots are wanted.
#[derive(Debug, Clone, Copy)]
pub struct CreateFullCasterSlotsRequest {
    pub level: u8,
}

/// The slots of a full caster: (spell level, (used, total)) by level.
#[derive(Debug, Clone)]
pub struct CreateFullCasterSlotsResponse {
    pub slots: Vec<(u8, (u32, u32))>,
    pub max_level: u8,
}

/// The slots of a full caster of the requested level; levels above 20 are
/// refused.
pub fn full_caster_slots(request: &CreateFullCasterSlotsRequest) -> (res: Result<CreateFullCasterSlotsResponse, ApiError>)
    ensures
        request.level > 20 ==> (res matches Err(e) && e.status == 400 && e.message@ == "Character level cannot exceed 20"@),
        request.level <= 20 ==> (res matches Ok(r) && r.max_level == full_caster_totals(request.level).len()
            && r.slots@.len() == full_caster_totals(request.level).len()
            && forall|i: int| 0 <= i < r.slots@.len() ==> #[trigger] r.slots@[i] == ((i + 1) as u8, (0u32, full_caster_totals(request.level)[i]))),
{
    if request.level > 20 {
        return Err(ApiError { status: 400, message: String::from_str("Character level cannot exceed 20") });
    }
    let slots = match SpellSlots::for_full_caster(request.level) {
        Ok(s) => s,
        Err(e) => return Err(bad_request("Failed to create spell slots: ", e.text().as_str())),
    };
    proof { crate::spells::lemma_full_caster_row(request.level); }
    let max_level = slots.max_level();
    let mut out: Vec<(u8, (u32, u32))> = Vec::new();
    let mut level: u8 = 1;
    while level <= max_level
        invariant
            1 <= level <= max_level + 1,
            max_level == slots@.len() <= 9,
            slots@ == fresh_slots(full_caster_totals(request.level)),
            out@.len() == level - 1,
            forall|i: int| 0 <= i < out@.len() ==> #[trigger] out@[i] == ((i + 1) as u8, (0u32, full_caster_totals(request.level)[i])),
        decreases max_level + 1 - level,
    {
        match slots.slot(level) {
            Some(e) => out.push((level, e)),
            None => {},
        }
        level = level + 1;
    }
    Ok(CreateFullCasterSlotsResponse { slots: out, max_level })
}

} // verus!
