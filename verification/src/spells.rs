use vstd::prelude::*;
use std::collections::HashMap;
use rand::rngs::StdRng;
use crate::dice::{law_roll_total_bounds, roll_fits, roll_in_range, roll_sequence, roll_total, seeded_rng, DiceExpression, DiceRoller, RollMode};
use crate::error::RulesError;
use crate::text::{concat_text, decimal, has_infix, lowercase, same_text, text_contains, to_lowercase, u64_text};

verus! {

broadcast use vstd::std_specs::hash::group_hash_axioms;

/// A spell level, 0 (cantrip) to 9.
#[derive(Debug, Clone, Copy, PartialEq, Eq, PartialOrd, Ord, Hash, Structural)]
pub struct SpellLevel(pub u8);

impl SpellLevel {
    /// A spell level; levels above 9 are refused.
    pub fn new(level: u8) -> (res: Result<Self, RulesError>)
        ensures
            level <= 9 ==> res == Ok::<SpellLevel, RulesError>(SpellLevel(level)),
            level > 9 ==> (res matches Err(RulesError::InvalidInput(m)) && m@ == "Spell level cannot exceed 9"@),
    {
        if level > 9 {
            return Err(RulesError::InvalidInput(String::from_str("Spell level cannot exceed 9")));
        }
        Ok(SpellLevel(level))
    }

    /// Level 0 is a cantrip.
    pub fn is_cantrip(&self) -> (b: bool)
        ensures
            b == (self.0 == 0),
    {
        self.0 == 0
    }

    pub fn value(&self) -> (v: u8)
        ensures
            v == self.0,
    {
        self.0
    }
}

/// The eight schools of magic.
#[derive(Debug, Clone, Copy, PartialEq, Eq, Hash, Structural)]
pub enum SpellSchool {
    Abjuration,
    Conjuration,
    Divination,
    Enchantment,
    Evocation,
    Illusion,
    Necromancy,
    Transmutation,
}

/// The display name of a school.
pub open spec fn school_name(s: SpellSchool) -> Seq<char> {
    match s {
        SpellSchool::Abjuration => "Abjuration"@,
        SpellSchool::Conjuration => "Conjuration"@,
        SpellSchool::Divination => "Divination"@,
        SpellSchool::Enchantment => "Enchantment"@,
        SpellSchool::Evocation => "Evocation"@,
        SpellSchool::Illusion => "Illusion"@,
        SpellSchool::Necromancy => "Necromancy"@,
        SpellSchool::Transmutation => "Transmutation"@,
    }
}

impl SpellSchool {
    pub fn name(&self) -> (n: &'static str)
        ensures
            n@ == school_name(*self),
    {
        match self {
            SpellSchool::Abjuration => "Abjuration",
            SpellSchool::Conjuration => "Conjuration",
            SpellSchool::Divination => "Divination",
            SpellSchool::Enchantment => "Enchantment",
            SpellSchool::Evocation => "Evocation",
            SpellSchool::Illusion => "Illusion",
            SpellSchool::Necromancy => "Necromancy",
            SpellSchool::Transmutation => "Transmutation",
        }
    }
}

/// Verbal, somatic and material components of a spell.
#[derive(Debug, Clone, PartialEq, Eq, Hash)]
pub struct SpellComponents {
    pub verbal: bool,
    pub somatic: bool,
    pub material: bool,
    /// What the material component is, when there is one.
    pub material_description: Option<String>,
    /// Whether casting consumes the material.
    pub consumes_material: bool,
}

impl SpellComponents {
    /// No components.
    pub fn new() -> (c: Self)
        ensures
            !c.verbal && !c.somatic && !c.material && c.material_description is None && !c.consumes_material,
    {
        SpellComponents { verbal: false, somatic: false, material: false, material_description: None, consumes_material: false }
    }

    pub fn with_verbal(self) -> (c: Self)
        ensures
            c == (SpellComponents { verbal: true, ..self }),
    {
        SpellComponents {
            verbal: true,
            somatic: self.somatic,
            material: self.material,
            material_description: self.material_description,
            consumes_material: self.consumes_material,
        }
    }

    pub fn with_somatic(self) -> (c: Self)
        ensures
            c == (SpellComponents { somatic: true, ..self }),
    {
        SpellComponents {
            verbal: self.verbal,
            somatic: true,
            material: self.material,
            material_description: self.material_description,
            consumes_material: self.consumes_material,
        }
    }

    /// Adds a material component with its description.
    pub fn with_material(self, description: String, consumed: bool) -> (c: Self)
        ensures
            c == (SpellComponents {
                material: true,
                material_description: Some(description),
                consumes_material: consumed,
                ..self
            }),
    {
        SpellComponents {
            verbal: self.verbal,
            somatic: self.somatic,
            material: true,
            material_description: Some(description),
            consumes_material: consumed,
        }
    }
}

impl Default for SpellComponents {
    fn default() -> (c: Self)
        ensures
            !c.verbal && !c.somatic && !c.material && c.material_description is None && !c.consumes_material,
    {
        Self::new()
    }
}

/// How long casting takes.
#[derive(Debug, Clone, PartialEq, Eq, Hash)]
pub enum CastingTime {
    Action,
    BonusAction,
    Reaction { trigger: String },
    Minute(u32),
    Hour(u32),
    LongRest,
}

/// How far a spell reaches (feet or miles).
#[derive(Debug, Clone, PartialEq, Eq, Hash)]
pub enum SpellRange {
    Touch,
    Self_,
    SelfRadius { radius: u32 },
    Feet(u32),
    Miles(u32),
    Unlimited,
    Special(String),
}

/// How long a spell lasts.
#[derive(Debug, Clone, PartialEq, Eq, Hash)]
pub enum SpellDuration {
    Instantaneous,
    Round(u32),
    Minute(u32),
    Hour(u32),
    Day(u32),
    UntilDispelled,
    UntilDispelledOrTriggered,
    Special(String),
}

/// The shape a spell fills (sizes in feet).
#[derive(Debug, Clone, PartialEq, Eq, Hash)]
pub enum AreaOfEffect {
    NoArea,
    Cone { length: u32 },
    Cube { size: u32 },
    Cylinder { radius: u32, height: u32 },
    Line { length: u32, width: u32 },
    Sphere { radius: u32 },
    Square { size: u32 },
}

/// Whether a spell needs an attack roll.
#[derive(Debug, Clone, Copy, PartialEq, Eq, Hash, Structural)]
pub enum SpellAttackType {
    NoAttack,
    Melee,
    Ranged,
}

/// The saving throw a spell calls for.
#[derive(Debug, Clone, PartialEq, Eq, Hash)]
pub struct SpellSavingThrow {
    pub ability: String,
    pub success: String,
    pub failure: String,
}

/// What a spell does.
#[derive(Debug, Clone, PartialEq, Eq, Hash)]
pub struct SpellEffect {
    pub damage: Option<crate::dice::DiceExpression>,
    pub damage_type: Option<String>,
    pub healing: Option<crate::dice::DiceExpression>,
    pub condition: Option<String>,
    pub description: String,
}

/// A spell.
#[derive(Debug, Clone)]
pub struct Spell {
    pub name: String,
    pub level: SpellLevel,
    pub school: SpellSchool,
    pub casting_time: CastingTime,
    pub range: SpellRange,
    pub components: SpellComponents,
    pub duration: SpellDuration,
    pub description: String,
    /// What casting with a higher slot adds.
    pub higher_levels: Option<String>,
    /// The classes that can cast it.
    pub classes: Vec<String>,
    pub ritual: bool,
    pub concentration: bool,
    pub area_of_effect: AreaOfEffect,
    pub attack_type: SpellAttackType,
    pub saving_throw: Option<SpellSavingThrow>,
    pub effect: SpellEffect,
}

impl Spell {
    pub fn can_be_cast_as_ritual(&self) -> (b: bool)
        ensures
            b == self.ritual,
    {
        self.ritual
    }

    pub fn requires_concentration(&self) -> (b: bool)
        ensures
            b == self.concentration,
    {
        self.concentration
    }

    /// A leveled spell that describes higher-level casting can be upcast.
    pub fn can_be_upcast(&self) -> (b: bool)
        ensures
            b == (self.higher_levels is Some && self.level.0 != 0),
    {
        self.higher_levels.is_some() && !self.level.is_cantrip()
    }

    pub fn is_cantrip(&self) -> (b: bool)
        ensures
            b == (self.level.0 == 0),
    {
        self.level.is_cantrip()
    }
}

/// Unused slots of `level` in the table `s`, whose entry `i` holds the
/// (used, total) slots of spell level `i + 1`: none for a level the table
/// lacks, never below zero.
pub open spec fn slots_available(s: Seq<(u32, u32)>, level: u8) -> u32 {
    if 1 <= level && level <= s.len() {
        let e = s[level - 1];
        if e.1 >= e.0 { (e.1 - e.0) as u32 } else { 0 }
    } else {
        0
    }
}

/// Sum of the used slots.
pub open spec fn slots_used_sum(s: Seq<(u32, u32)>) -> int
    decreases s.len(),
{
    if s.len() == 0 { 0 } else { slots_used_sum(s.drop_last()) + s.last().0 }
}

/// Sum of all slots.
pub open spec fn slots_total_sum(s: Seq<(u32, u32)>) -> int
    decreases s.len(),
{
    if s.len() == 0 { 0 } else { slots_total_sum(s.drop_last()) + s.last().1 }
}

/// A slot table as the rules build it: at most nine levels, at most four
/// slots a level, never more used than there are.
pub open spec fn slot_table_ok(s: Seq<(u32, u32)>) -> bool {
    &&& s.len() <= 9
    &&& forall|i: int| 0 <= i < s.len() ==> (#[trigger] s[i]).0 <= s[i].1 <= 4
}

/// The slots per spell level of a full caster of the given character level
/// (spell level 1 first).  Level 0 has the slots of level 1.
pub open spec fn full_caster_totals(level: u8) -> Seq<u32> {
    if level <= 1 { seq![2u32] }
    else if level == 2 { seq![3u32] }
    else if level == 3 { seq![4u32, 2] }
    else if level == 4 { seq![4u32, 3] }
    else if level == 5 { seq![4u32, 3, 2] }
    else if level == 6 { seq![4u32, 3, 3] }
    else if level == 7 { seq![4u32, 3, 3, 1] }
    else if level == 8 { seq![4u32, 3, 3, 2] }
    else if level == 9 { seq![4u32, 3, 3, 3, 1] }
    else if level == 10 { seq![4u32, 3, 3, 3, 2] }
    else if level <= 12 { seq![4u32, 3, 3, 3, 2, 1] }
    else if level <= 14 { seq![4u32, 3, 3, 3, 2, 1, 1] }
    else if level <= 16 { seq![4u32, 3, 3, 3, 2, 1, 1, 1] }
    else if level == 17 { seq![4u32, 3, 3, 3, 2, 1, 1, 1, 1] }
    else if level == 18 { seq![4u32, 3, 3, 3, 3, 1, 1, 1, 1] }
    else if level == 19 { seq![4u32, 3, 3, 3, 3, 2, 1, 1, 1] }
    else { seq![4u32, 3, 3, 3, 3, 2, 2, 1, 1] }
}

/// The unused slot table with these totals.
pub open spec fn fresh_slots(totals: Seq<u32>) -> Seq<(u32, u32)> {
    Seq::new(totals.len(), |i: int| (0u32, totals[i]))
}

/// The table after a long rest: nothing used, totals kept.
pub open spec fn rested_slots(s: Seq<(u32, u32)>) -> Seq<(u32, u32)> {
    Seq::new(s.len(), |i: int| (0u32, s[i].1))
}

/// The table after spending one slot of `level`.
pub open spec fn spent(s: Seq<(u32, u32)>, level: u8) -> Seq<(u32, u32)> {
    s.update(level - 1, ((s[level - 1].0 + 1) as u32, s[level - 1].1))
}

/// The table after giving back one spent slot of `level`.
pub open spec fn given_back(s: Seq<(u32, u32)>, level: u8) -> Seq<(u32, u32)> {
    s.update(level - 1, ((s[level - 1].0 - 1) as u32, s[level - 1].1))
}

/// A character's spell slots.
#[derive(Debug)]
pub struct SpellSlots {
    /// (used, total) slots by spell level, for every level from 1 to
    /// `max_level`.
    slots: HashMap<u8, (u32, u32)>,
    /// The highest spell level the table holds.
    max_level: u8,
}

impl View for SpellSlots {
    type V = Seq<(u32, u32)>;

    /// Entry `i` holds the (used, total) slots of spell level `i + 1`; the
    /// highest level is the length.
    closed spec fn view(&self) -> Seq<(u32, u32)> {
        Seq::new(self.max_level as nat, |i: int| self.slots@[(i + 1) as u8])
    }
}

impl Clone for SpellSlots {
    /// The same table.
    fn clone(&self) -> (r: Self)
        ensures
            r@ == self@,
    {
        proof { use_type_invariant(self); }
        SpellSlots { slots: self.slots.clone(), max_level: self.max_level }
    }
}

fn full_caster_row(level: u8) -> (v: Vec<u32>)
    requires
        level <= 20,
    ensures
        v@ == full_caster_totals(level),
{
    let v = if level <= 1 { vec![2u32] }
    else if level == 2 { vec![3u32] }
    else if level == 3 { vec![4u32, 2] }
    else if level == 4 { vec![4u32, 3] }
    else if level == 5 { vec![4u32, 3, 2] }
    else if level == 6 { vec![4u32, 3, 3] }
    else if level == 7 { vec![4u32, 3, 3, 1] }
    else if level == 8 { vec![4u32, 3, 3, 2] }
    else if level == 9 { vec![4u32, 3, 3, 3, 1] }
    else if level == 10 { vec![4u32, 3, 3, 3, 2] }
    else if level <= 12 { vec![4u32, 3, 3, 3, 2, 1] }
    else if level <= 14 { vec![4u32, 3, 3, 3, 2, 1, 1] }
    else if level <= 16 { vec![4u32, 3, 3, 3, 2, 1, 1, 1] }
    else if level == 17 { vec![4u32, 3, 3, 3, 2, 1, 1, 1, 1] }
    else if level == 18 { vec![4u32, 3, 3, 3, 3, 1, 1, 1, 1] }
    else if level == 19 { vec![4u32, 3, 3, 3, 3, 2, 1, 1, 1] }
    else { vec![4u32, 3, 3, 3, 3, 2, 2, 1, 1] };
    assert(v@ == full_caster_totals(level));
    v
}

/// Every row of the full caster table has one to nine levels of at most
/// four slots.
pub proof fn lemma_full_caster_row(level: u8)
    ensures
        1 <= full_caster_totals(level).len() <= 9,
        forall|i: int| 0 <= i < full_caster_totals(level).len() ==> #[trigger] full_caster_totals(level)[i] <= 4,
{
}

impl SpellSlots {
    /// The table has an entry for exactly the levels from 1 to its highest,
    /// which is at most 9.
    #[verifier::type_invariant]
    spec fn levels_filled(&self) -> bool {
        &&& self.max_level <= 9
        &&& forall|l: u8| #[trigger] self.slots@.contains_key(l) <==> 1 <= l <= self.max_level
        &&& forall|l: u8| 1 <= l <= self.max_level ==> #[trigger] self.slots@[l].0 <= self.slots@[l].1 <= 4
    }

    /// Every table holds at most nine levels and never spends more slots
    /// than a level has (see `slot_table_ok`).
    fn table_ok(&self)
        ensures
            slot_table_ok(self@),
    {
        proof {
            use_type_invariant(self);
            assert forall|i: int| 0 <= i < self@.len() implies (#[trigger] self@[i]).0 <= self@[i].1 <= 4 by {
                let l = (i + 1) as u8;
                assert(self@[i] == self.slots@[l]);
            }
        }
    }

    /// The (used, total) slots of `level`, when the table has that level.
    pub fn slot(&self, level: u8) -> (r: Option<(u32, u32)>)
        ensures
            1 <= level <= self@.len() ==> r == Some(self@[level - 1]),
            !(1 <= level <= self@.len()) ==> r is None,
    {
        proof { use_type_invariant(self); }
        if level >= 1 && level <= self.max_level {
            assert(self.slots@.contains_key(level));
            match self.slots.get(&level) {
                Some(e) => Some(*e),
                None => None,
            }
        } else {
            None
        }
    }

    /// The highest spell level the table holds.
    pub fn max_level(&self) -> (m: u8)
        ensures
            m == self@.len(),
            m <= 9,
    {
        self.table_ok();
        self.max_level
    }

    /// An empty table up to `max_level`: every level from 1 has no slots.
    pub fn new(max_level: u8) -> (res: Result<Self, RulesError>)
        ensures
            max_level > 9 ==> (res matches Err(RulesError::InvalidInput(m)) && m@ == "Spell level cannot exceed 9"@),
            max_level <= 9 ==> (res matches Ok(s) && s@ == Seq::new(max_level as nat, |i: int| (0u32, 0u32))),
            res matches Ok(s) ==> slot_table_ok(s@),
    {
        if max_level > 9 {
            return Err(RulesError::InvalidInput(String::from_str("Spell level cannot exceed 9")));
        }
        let mut slots: HashMap<u8, (u32, u32)> = HashMap::new();
        let mut level: u8 = 1;
        while level <= max_level
            invariant
                1 <= level <= max_level + 1,
                max_level <= 9,
                forall|l: u8| #[trigger] slots@.contains_key(l) <==> 1 <= l < level,
                forall|l: u8| 1 <= l < level ==> #[trigger] slots@[l] == (0u32, 0u32),
            decreases max_level + 1 - level,
        {
            slots.insert(level, (0, 0));
            level = level + 1;
        }
        let r = SpellSlots { slots, max_level };
        assert(r@ =~= Seq::new(max_level as nat, |i: int| (0u32, 0u32)));
        Ok(r)
    }

    /// The slots of a full caster (wizard, cleric, ...) of the given
    /// character level, none used; levels above 20 are refused.
    pub fn for_full_caster(level: u8) -> (res: Result<Self, RulesError>)
        ensures
            level > 20 ==> (res matches Err(RulesError::InvalidInput(m)) && m@ == "Character level cannot exceed 20"@),
            level <= 20 ==> (res matches Ok(s) && s@ == fresh_slots(full_caster_totals(level))),
            res matches Ok(s) ==> slot_table_ok(s@),
    {
        if level > 20 {
            return Err(RulesError::InvalidInput(String::from_str("Character level cannot exceed 20")));
        }
        let row = full_caster_row(level);
        proof { lemma_full_caster_row(level); }
        let n = row.len();
        let mut slots: HashMap<u8, (u32, u32)> = HashMap::new();
        let mut i: usize = 0;
        while i < n
            invariant
                i <= n == row@.len() <= 9,
                row@ == full_caster_totals(level),
                forall|l: u8| #[trigger] slots@.contains_key(l) <==> 1 <= l <= i,
                forall|l: u8| 1 <= l <= i ==> #[trigger] slots@[l] == (0u32, row@[l - 1]),
            decreases n - i,
        {
            let l = (i + 1) as u8;
            slots.insert(l, (0, row[i]));
            i = i + 1;
        }
        let r = SpellSlots { slots, max_level: n as u8 };
        assert(r@ =~= fresh_slots(full_caster_totals(level)));
        Ok(r)
    }

    /// Unused slots of `level`: the total less the spent, none for a level
    /// the table lacks.
    pub fn available(&self, level: u8) -> (n: u32)
        ensures
            n == slots_available(self@, level),
            1 <= level <= self@.len() ==> n == self@[level - 1].1 - self@[level - 1].0 && n <= self@[level - 1].1,
            !(1 <= level <= self@.len()) ==> n == 0,
    {
        self.table_ok();
        match self.slot(level) {
            Some((used, total)) => total.saturating_sub(used),
            None => 0,
        }
    }

    /// Puts `e` at `level`, which the table holds.
    fn set_level(&mut self, level: u8, e: (u32, u32))
        requires
            1 <= level <= old(self)@.len(),
            e.0 <= e.1 <= 4,
        ensures
            final(self)@ == old(self)@.update(level - 1, e),
    {
        let ghost before = self@;
        let mut table = SpellSlots { slots: HashMap::new(), max_level: 0 };
        std::mem::swap(&mut table, self);
        proof { use_type_invariant(&table); }
        assert(table@ == before);
        let SpellSlots { mut slots, max_level } = table;
        slots.insert(level, e);
        *self = SpellSlots { slots, max_level };
        assert(self@ =~= before.update(level - 1, e));
    }

    /// Spends one slot of `level`.  Cantrips (level 0) spend nothing; a
    /// level the table lacks, or one with no unused slot, is refused and
    /// leaves the table as it was.
    pub fn use_slot(&mut self, level: u8) -> (res: Result<(), RulesError>)
        ensures
            level == 0 ==> res is Ok && final(self)@ == old(self)@,
            level > 0 && level > old(self)@.len() ==> (res matches Err(RulesError::InvalidInput(m))
                && m@ == "No spell slots at level "@ + decimal(level as nat) && final(self)@ == old(self)@),
            1 <= level <= old(self)@.len() && old(self)@[level - 1].0 >= old(self)@[level - 1].1 ==> (
                res matches Err(RulesError::InvalidInput(m))
                && m@ == "No available spell slots at level "@ + decimal(level as nat) && final(self)@ == old(self)@),
            1 <= level <= old(self)@.len() && old(self)@[level - 1].0 < old(self)@[level - 1].1 ==> (res is Ok
                && final(self)@ == spent(old(self)@, level)),
            slot_table_ok(old(self)@) ==> slot_table_ok(final(self)@),
    {
        if level == 0 {
            return Ok(());
        }
        self.table_ok();
        let (used, total) = match self.slot(level) {
            None => {
                let n = u64_text(level as u64);
                return Err(RulesError::InvalidInput(concat_text("No spell slots at level ", n.as_str())));
            },
            Some(e) => e,
        };
        if used >= total {
            let n = u64_text(level as u64);
            return Err(RulesError::InvalidInput(concat_text("No available spell slots at level ", n.as_str())));
        }
        self.set_level(level, (used + 1, total));
        Ok(())
    }

    /// Gives back one spent slot of `level`.  Cantrips and levels with
    /// nothing spent are left as they are; a level the table lacks is
    /// refused.
    pub fn restore_slot(&mut self, level: u8) -> (res: Result<(), RulesError>)
        ensures
            level == 0 ==> res is Ok && final(self)@ == old(self)@,
            level > 0 && level > old(self)@.len() ==> (res matches Err(RulesError::InvalidInput(m))
                && m@ == "No spell slots at level "@ + decimal(level as nat) && final(self)@ == old(self)@),
            1 <= level <= old(self)@.len() && old(self)@[level - 1].0 == 0 ==> (res is Ok && final(self)@ == old(self)@),
            1 <= level <= old(self)@.len() && old(self)@[level - 1].0 > 0 ==> (res is Ok
                && final(self)@ == given_back(old(self)@, level)),
            slot_table_ok(old(self)@) ==> slot_table_ok(final(self)@),
    {
        if level == 0 {
            return Ok(());
        }
        self.table_ok();
        let (used, total) = match self.slot(level) {
            None => {
                let n = u64_text(level as u64);
                return Err(RulesError::InvalidInput(concat_text("No spell slots at level ", n.as_str())));
            },
            Some(e) => e,
        };
        if used == 0 {
            return Ok(());
        }
        self.set_level(level, (used - 1, total));
        Ok(())
    }

    /// A long rest: every slot is unused again.
    pub fn restore_all(&mut self)
        ensures
            final(self)@ == rested_slots(old(self)@),
            slot_table_ok(old(self)@) ==> slot_table_ok(final(self)@),
    {
        proof { use_type_invariant(&*self); }
        self.table_ok();
        let n = self.max_level;
        let mut level: u8 = 1;
        while level <= n
            invariant
                1 <= level <= n + 1,
                slot_table_ok(old(self)@),
                n == self@.len() == old(self)@.len() <= 9,
                forall|k: int| 0 <= k < level - 1 ==> self@[k] == (0u32, old(self)@[k].1),
                forall|k: int| level - 1 <= k < n ==> self@[k] == old(self)@[k],
            decreases n + 1 - level,
        {
            let (_, total) = match self.slot(level) {
                Some(e) => e,
                None => (0, 0),
            };
            self.set_level(level, (0, total));
            level = level + 1;
        }
        assert(self@ =~= rested_slots(old(self)@));
    }

    /// All spent slots.
    pub fn total_used(&self) -> (n: u32)
        ensures
            n == slots_used_sum(self@),
    {
        self.table_ok();
        let ghost v = self@;
        let mut sum: u32 = 0;
        let mut i: u8 = 0;
        let top = self.max_level();
        while i < top
            invariant
                i <= top == v.len() <= 9,
                v == self@,
                slot_table_ok(v),
                sum == slots_used_sum(v.take(i as int)),
                sum <= 4 * i,
            decreases top - i,
        {
            assert(v.take(i + 1).drop_last() == v.take(i as int));
            let e = match self.slot(i + 1) {
                Some(e) => e,
                None => (0, 0),
            };
            sum = sum + e.0;
            i = i + 1;
        }
        assert(v.take(v.len() as int) == v);
        sum
    }

    /// All slots, spent or not.
    pub fn total_slots(&self) -> (n: u32)
        ensures
            n == slots_total_sum(self@),
    {
        self.table_ok();
        let ghost v = self@;
        let mut sum: u32 = 0;
        let mut i: u8 = 0;
        let top = self.max_level();
        while i < top
            invariant
                i <= top == v.len() <= 9,
                v == self@,
                slot_table_ok(v),
                sum == slots_total_sum(v.take(i as int)),
                sum <= 4 * i,
            decreases top - i,
        {
            assert(v.take(i + 1).drop_last() == v.take(i as int));
            let e = match self.slot(i + 1) {
                Some(e) => e,
                None => (0, 0),
            };
            sum = sum + e.1;
            i = i + 1;
        }
        assert(v.take(v.len() as int) == v);
        sum
    }
}

/// Changing one entry changes the sums by the difference at that entry.
pub proof fn lemma_sums_update(s: Seq<(u32, u32)>, i: int, e: (u32, u32))
    requires
        0 <= i < s.len(),
    ensures
        slots_used_sum(s.update(i, e)) == slots_used_sum(s) - s[i].0 + e.0,
        slots_total_sum(s.update(i, e)) == slots_total_sum(s) - s[i].1 + e.1,
    decreases s.len(),
{
    let t = s.update(i, e);
    if i == s.len() - 1 {
        assert(t.drop_last() == s.drop_last());
    } else {
        lemma_sums_update(s.drop_last(), i, e);
        assert(t.drop_last() == s.drop_last().update(i, e));
    }
}

/// Giving back a slot right after spending it restores the table.
pub proof fn law_restore_undoes_use(s: Seq<(u32, u32)>, level: u8)
    requires
        1 <= level <= s.len(),
        s[level - 1].0 < s[level - 1].1,
    ensures
        spent(s, level)[level - 1].0 > 0,
        given_back(spent(s, level), level) == s,
{
    assert(given_back(spent(s, level), level) =~= s);
}

/// Spending a slot leaves one fewer unused at that level, the others as
/// they were, and one more spent in all; the total is unchanged.
pub proof fn law_use_spends_one(s: Seq<(u32, u32)>, level: u8, other: u8)
    requires
        1 <= level <= s.len(),
        s[level - 1].0 < s[level - 1].1,
    ensures
        slots_available(spent(s, level), level) == slots_available(s, level) - 1,
        other != level ==> slots_available(spent(s, level), other) == slots_available(s, other),
        slots_used_sum(spent(s, level)) == slots_used_sum(s) + 1,
        slots_total_sum(spent(s, level)) == slots_total_sum(s),
{
    lemma_sums_update(s, level - 1, ((s[level - 1].0 + 1) as u32, s[level - 1].1));
}

/// After a long rest every level has all its slots, nothing is spent and
/// the total is unchanged.
pub proof fn law_rest_restores_all(s: Seq<(u32, u32)>, level: u8)
    ensures
        1 <= level <= s.len() ==> slots_available(rested_slots(s), level) == s[level - 1].1,
        slots_used_sum(rested_slots(s)) == 0,
        slots_total_sum(rested_slots(s)) == slots_total_sum(s),
    decreases s.len(),
{
    if s.len() > 0 {
        law_rest_restores_all(s.drop_last(), level);
        assert(rested_slots(s).drop_last() == rested_slots(s.drop_last()));
    }
}

/// In a table as the rules build it the spent slots never exceed the
/// total, which is at most four a level.
pub proof fn law_slot_table_bounds(s: Seq<(u32, u32)>)
    requires
        slot_table_ok(s),
    ensures
        slots_used_sum(s) <= slots_total_sum(s),
        slots_total_sum(s) <= 4 * s.len(),
    decreases s.len(),
{
    if s.len() > 0 {
        law_slot_table_bounds(s.drop_last());
        assert(s.last() == s[s.len() - 1]);
    }
}

/// A full caster never has fewer slots of a spell level at a higher
/// character level.
pub proof fn law_full_caster_slots_grow(a: u8, b: u8, i: int)
    requires
        a <= b <= 20,
        0 <= i < full_caster_totals(a).len(),
    ensures
        i < full_caster_totals(b).len(),
        full_caster_totals(a)[i] <= full_caster_totals(b)[i],
    decreases b - a,
{
    if a < b {
        lemma_full_caster_step(a);
        law_full_caster_slots_grow((a + 1) as u8, b, i);
    }
}

proof fn lemma_full_caster_step(a: u8)
    requires
        a < 20,
    ensures
        full_caster_totals(a).len() <= full_caster_totals((a + 1) as u8).len(),
        forall|i: int| 0 <= i < full_caster_totals(a).len() ==>
            #[trigger] full_caster_totals(a)[i] <= full_caster_totals((a + 1) as u8)[i],
{
}

/// A request to cast a spell.
#[derive(Debug, Clone)]
pub struct SpellCastRequest {
    pub spell_name: String,
    /// The slot level to cast with; the spell's own level when absent.
    pub slot_level: Option<u8>,
    pub caster_level: u8,
    pub spell_ability_modifier: i32,
    pub spell_save_dc: i32,
    pub spell_attack_bonus: i32,
    pub seed: Option<u64>,
}

/// The outcome of casting a spell.
#[derive(Debug, Clone)]
pub struct SpellCastResult {
    pub spell_name: String,
    pub slot_used: Option<u8>,
    pub success: bool,
    pub attack_roll: Option<i32>,
    /// Left for the caller, who knows the targets and the DC.
    pub saving_throw_result: Option<bool>,
    pub damage: Option<i32>,
    pub healing: Option<i32>,
    pub effects_applied: Vec<String>,
}

/// The level a cast asks for: the requested slot, or the spell's level.
pub open spec fn requested_level(spell: Spell, slot_level: Option<u8>) -> u8 {
    match slot_level {
        Some(l) => l,
        None => spell.level.0,
    }
}

/// The slot a cast spends: none for a cantrip.
pub open spec fn slot_spent_by(spell: Spell, slot_level: Option<u8>) -> Option<u8> {
    if spell.level.0 == 0 { None } else { Some(requested_level(spell, slot_level)) }
}

/// The level the spell's effects are rolled at.
pub open spec fn effective_level(spell: Spell, slot_level: Option<u8>) -> u8 {
    match slot_spent_by(spell, slot_level) {
        Some(l) => l,
        None => spell.level.0,
    }
}

/// An effect cast above its base level gains one die per level.
pub open spec fn upcast(e: DiceExpression, base_level: u8, cast_level: u8) -> DiceExpression {
    if cast_level <= base_level {
        e
    } else {
        DiceExpression { count: (e.count + (cast_level - base_level)) as u32, sides: e.sides, modifier: e.modifier }
    }
}

/// Upcasting the expression does not overflow its die count.
pub open spec fn upcast_fits(e: DiceExpression, base_level: u8, cast_level: u8) -> bool {
    cast_level > base_level ==> e.count + (cast_level - base_level) <= u32::MAX
}

/// The dice of an effect when the spell is cast with `slot_level`.
pub open spec fn cast_expression(spell: Spell, slot_level: Option<u8>, e: DiceExpression) -> DiceExpression {
    upcast(e, spell.level.0, effective_level(spell, slot_level))
}

/// A leveled spell cast with a slot above its level rolls one more die of
/// each effect per level of difference; at its own level (and for a
/// cantrip) the dice are the effect's own.
pub proof fn law_upcast_one_die_per_level(spell: Spell, slot: u8, e: DiceExpression)
    ensures
        spell.level.0 >= 1 && slot > spell.level.0 ==> cast_expression(spell, Some(slot), e)
            == (DiceExpression { count: (e.count + (slot - spell.level.0)) as u32, sides: e.sides, modifier: e.modifier }),
        spell.level.0 >= 1 && slot <= spell.level.0 ==> cast_expression(spell, Some(slot), e) == e,
        spell.level.0 >= 1 ==> cast_expression(spell, None, e) == e,
        spell.level.0 == 0 ==> cast_expression(spell, Some(slot), e) == e,
{
}

/// The spell attack roll: a d20 plus the attack bonus.
pub open spec fn attack_expression(bonus: i32) -> DiceExpression {
    DiceExpression { count: 1, sides: 20, modifier: bonus }
}

/// The expression can be rolled: no dice, or dice with sides.
pub open spec fn rollable(e: DiceExpression) -> bool {
    e.count == 0 || e.sides > 0
}

/// The total of a normal roll of `e` from a generator in state `rng`.
pub open spec fn normal_total(rng: StdRng, e: DiceExpression) -> int {
    if e.count == 0 {
        e.modifier as int
    } else {
        roll_total(roll_sequence(rng, e.count as nat, e.sides).1, e.modifier, RollMode::Normal)
    }
}

/// Why a cast is refused before anything is rolled, if it is: a leveled
/// spell cannot be cast below its level or without an unused slot.
pub open spec fn cast_refusal(spell: Spell, s: Seq<(u32, u32)>, slot_level: Option<u8>) -> Option<Seq<char>> {
    let cast_level = requested_level(spell, slot_level);
    if spell.level.0 == 0 {
        None
    } else if cast_level < spell.level.0 {
        Some("Cannot cast "@ + spell.name@ + " at level "@ + decimal(cast_level as nat) + " (minimum level "@
            + decimal(spell.level.0 as nat) + ")"@)
    } else if slots_available(s, cast_level) == 0 {
        Some("No available spell slots at level "@ + decimal(cast_level as nat))
    } else {
        None
    }
}

/// The table after a cast that was not refused.
pub open spec fn slots_after_cast(spell: Spell, slot_level: Option<u8>, s: Seq<(u32, u32)>) -> Seq<(u32, u32)> {
    match slot_spent_by(spell, slot_level) {
        None => s,
        Some(l) => spent(s, l),
    }
}

/// Every effect of the cast can be rolled.
pub open spec fn effects_rollable(spell: Spell, slot_level: Option<u8>) -> bool {
    &&& spell.effect.damage matches Some(e) ==> rollable(cast_expression(spell, slot_level, e))
    &&& spell.effect.healing matches Some(e) ==> rollable(cast_expression(spell, slot_level, e))
}

/// The rolls of a cast that is not refused stay within the machine
/// integers they are computed in.
pub open spec fn cast_fits(spell: Spell, request: SpellCastRequest, s: Seq<(u32, u32)>) -> bool {
    cast_refusal(spell, s, request.slot_level) is None ==> {
        &&& spell.attack_type != SpellAttackType::NoAttack ==> roll_fits(attack_expression(request.spell_attack_bonus))
        &&& spell.effect.damage matches Some(e) ==> upcast_fits(e, spell.level.0, effective_level(spell, request.slot_level))
            && roll_fits(cast_expression(spell, request.slot_level, e))
        &&& spell.effect.healing matches Some(e) ==> upcast_fits(e, spell.level.0, effective_level(spell, request.slot_level))
            && roll_fits(cast_expression(spell, request.slot_level, e))
    }
}

/// The result's fields that do not depend on the dice.
pub open spec fn cast_result_shape(r: SpellCastResult, spell: Spell, request: SpellCastRequest) -> bool {
    &&& r.spell_name@ == spell.name@
    &&& r.slot_used == slot_spent_by(spell, request.slot_level)
    &&& r.saving_throw_result is None
    &&& r.effects_applied@.len() == 0
}

/// The result's rolls when the attack, damage and healing dice come from
/// generators in states `a`, `d` and `h`: an attack hits armor class 10.
pub open spec fn cast_rolled(r: SpellCastResult, spell: Spell, request: SpellCastRequest, a: StdRng, d: StdRng, h: StdRng) -> bool {
    &&& r.attack_roll == (if spell.attack_type == SpellAttackType::NoAttack {
        None
    } else {
        Some(normal_total(a, attack_expression(request.spell_attack_bonus)) as i32)
    })
    &&& r.success == (match r.attack_roll { None => true, Some(t) => t >= 10 })
    &&& r.damage == (match spell.effect.damage {
        None => None,
        Some(e) => Some(normal_total(d, cast_expression(spell, request.slot_level, e)) as i32),
    })
    &&& r.healing == (match spell.effect.healing {
        None => None,
        Some(e) => Some(normal_total(h, cast_expression(spell, request.slot_level, e)) as i32),
    })
}

/// A roller seeded with `seed` when there is one, by the operating system
/// otherwise.
fn roller_for(seed: Option<u64>) -> (r: DiceRoller)
    ensures
        r.seed_used() == seed,
        seed matches Some(s) ==> r.rng_state() == seeded_rng(s),
{
    match seed {
        Some(s) => DiceRoller::with_seed(s),
        None => DiceRoller::new(),
    }
}

/// The total lies between all dice showing one and all showing their
/// highest face, plus the modifier.
pub open spec fn within_dice(total: int, e: DiceExpression) -> bool {
    e.count + e.modifier <= total <= e.count * e.sides + e.modifier
}

/// Rolls `e` normally with a fresh roller for `seed`.
fn roll_effect(seed: Option<u64>, e: &DiceExpression) -> (res: (Result<i32, RulesError>, Ghost<StdRng>))
    requires
        roll_fits(*e),
    ensures
        seed matches Some(s) ==> res.1@ == seeded_rng(s),
        rollable(*e) ==> res.0 == Ok::<i32, RulesError>(normal_total(res.1@, *e) as i32),
        !rollable(*e) ==> (res.0 matches Err(RulesError::DiceParse(m)) && m@ == "Dice sides cannot be 0"@),
        res.0 matches Ok(t) ==> within_dice(t as int, *e),
{
    let mut roller = roller_for(seed);
    let ghost start = roller.rng_state();
    match roller.roll(e, RollMode::Normal) {
        Ok(r) => {
            proof {
                if e.count > 0 {
                    law_roll_total_bounds(r.rolls@, e.sides, e.modifier, RollMode::Normal);
                }
            }
            (Ok(r.total), Ghost(start))
        },
        Err(err) => (Err(err), Ghost(start)),
    }
}

/// Resolves spell casting.
pub struct SpellCaster;

impl Default for SpellCaster {
    fn default() -> (r: Self)
        ensures
            r == SpellCaster,
    {
        SpellCaster
    }
}

impl SpellCaster {
    /// A new one; the type holds no state.
    pub fn new() -> (r: Self)
        ensures
            r == SpellCaster,
    {
        SpellCaster
    }

    /// Damage dice at `cast_level`: one more die per level above the base.
    fn calculate_upcast_damage(&self, base_expr: &DiceExpression, base_level: u8, cast_level: u8) -> (e: DiceExpression)
        requires
            upcast_fits(*base_expr, base_level, cast_level),
        ensures
            e == upcast(*base_expr, base_level, cast_level),
    {
        if cast_level <= base_level {
            return *base_expr;
        }
        let level_diff = cast_level - base_level;
        DiceExpression { count: base_expr.count + level_diff as u32, sides: base_expr.sides, modifier: base_expr.modifier }
    }

    /// Healing dice at `cast_level`: one more die per level above the base.
    fn calculate_upcast_healing(&self, base_expr: &DiceExpression, base_level: u8, cast_level: u8) -> (e: DiceExpression)
        requires
            upcast_fits(*base_expr, base_level, cast_level),
        ensures
            e == upcast(*base_expr, base_level, cast_level),
    {
        if cast_level <= base_level {
            return *base_expr;
        }
        let level_diff = cast_level - base_level;
        DiceExpression { count: base_expr.count + level_diff as u32, sides: base_expr.sides, modifier: base_expr.modifier }
    }

    /// Whether an effect's dice at `cast_level` can be counted and rolled
    /// within the machine integers.
    fn effect_in_range(e: &DiceExpression, base_level: u8, cast_level: u8) -> (b: bool)
        ensures
            b == (upcast_fits(*e, base_level, cast_level) && roll_fits(upcast(*e, base_level, cast_level))),
    {
        if cast_level > base_level {
            let count = e.count as u64 + (cast_level - base_level) as u64;
            if count > 0xFFFF_FFFF {
                return false;
            }
            roll_in_range(&DiceExpression { count: count as u32, sides: e.sides, modifier: e.modifier })
        } else {
            roll_in_range(e)
        }
    }

    /// Whether the rolls of the cast stay within the machine integers (see
    /// `cast_fits`).
    pub fn cast_in_range(&self, spell: &Spell, request: &SpellCastRequest, slots: &SpellSlots) -> (b: bool)
        ensures
            b == cast_fits(*spell, *request, slots@),
    {
        if self.validate_cast(spell, slots, request.slot_level).is_err() {
            return true;
        }
        if spell.attack_type != SpellAttackType::NoAttack {
            let expr = DiceExpression { count: 1, sides: 20, modifier: request.spell_attack_bonus };
            if !roll_in_range(&expr) {
                return false;
            }
        }
        let base_level = spell.level.value();
        let cast_level = if spell.is_cantrip() {
            base_level
        } else {
            match request.slot_level {
                Some(l) => l,
                None => base_level,
            }
        };
        assert(cast_level == effective_level(*spell, request.slot_level));
        if let Some(e) = &spell.effect.damage {
            if !Self::effect_in_range(e, base_level, cast_level) {
                return false;
            }
        }
        if let Some(e) = &spell.effect.healing {
            if !Self::effect_in_range(e, base_level, cast_level) {
                return false;
            }
        }
        true
    }

    /// Checks that the spell can be cast with `slot_level` (its own level
    /// when absent): cantrips always can; a leveled spell needs a level at
    /// least its own with an unused slot.
    pub fn validate_cast(&self, spell: &Spell, slots: &SpellSlots, slot_level: Option<u8>) -> (res: Result<(), RulesError>)
        ensures
            match cast_refusal(*spell, slots@, slot_level) {
                None => res is Ok,
                Some(m) => res matches Err(RulesError::InvalidInput(msg)) && msg@ == m,
            },
    {
        if spell.is_cantrip() {
            return Ok(());
        }
        let cast_level = match slot_level {
            Some(l) => l,
            None => spell.level.value(),
        };
        if cast_level < spell.level.value() {
            let a = concat_text("Cannot cast ", spell.name.as_str());
            let b = concat_text(a.as_str(), " at level ");
            let c = concat_text(b.as_str(), u64_text(cast_level as u64).as_str());
            let d = concat_text(c.as_str(), " (minimum level ");
            let e = concat_text(d.as_str(), u64_text(spell.level.value() as u64).as_str());
            let f = concat_text(e.as_str(), ")");
            return Err(RulesError::InvalidInput(f));
        }
        if slots.available(cast_level) == 0 {
            let n = u64_text(cast_level as u64);
            return Err(RulesError::InvalidInput(concat_text("No available spell slots at level ", n.as_str())));
        }
        Ok(())
    }

    /// Casts a spell: checks it as `validate_cast` does, spends the slot
    /// (none for a cantrip), rolls the attack (a d20 plus the attack bonus,
    /// hitting armor class 10), then the damage and the healing, each with
    /// one more die per level above the spell's own.  Each roll uses a fresh
    /// roller for the request's seed.
    pub fn cast(&self, spell: &Spell, request: &SpellCastRequest, slots: &mut SpellSlots) -> (res: Result<SpellCastResult, RulesError>)
        requires
            cast_fits(*spell, *request, old(slots)@),
        ensures
            match cast_refusal(*spell, old(slots)@, request.slot_level) {
                Some(m) => (res matches Err(RulesError::InvalidInput(msg)) && msg@ == m) && final(slots)@ == old(slots)@,
                None => final(slots)@ == slots_after_cast(*spell, request.slot_level, old(slots)@)
                    && (res is Ok <==> effects_rollable(*spell, request.slot_level))
                    && (res matches Err(e) ==> (e matches RulesError::DiceParse(m) && m@ == "Dice sides cannot be 0"@)),
            },
            res matches Ok(r) ==> cast_result_shape(r, *spell, *request)
                && (exists|a: StdRng, d: StdRng, h: StdRng| #[trigger] cast_rolled(r, *spell, *request, a, d, h)),
            res matches Ok(r) ==> (request.seed matches Some(s) ==> cast_rolled(r, *spell, *request,
                seeded_rng(s), seeded_rng(s), seeded_rng(s))),
            res matches Ok(r) ==> (r.attack_roll matches Some(t) ==> within_dice(t as int, attack_expression(request.spell_attack_bonus)))
                && (r.damage matches Some(v) ==> (spell.effect.damage matches Some(e)
                    && within_dice(v as int, cast_expression(*spell, request.slot_level, e))))
                && (r.healing matches Some(v) ==> (spell.effect.healing matches Some(e)
                    && within_dice(v as int, cast_expression(*spell, request.slot_level, e)))),
            slot_table_ok(old(slots)@) ==> slot_table_ok(final(slots)@),
    {
        match self.validate_cast(spell, slots, request.slot_level) {
            Err(e) => return Err(e),
            Ok(()) => {},
        }
        let slot_level: Option<u8> = if spell.is_cantrip() {
            None
        } else {
            Some(match request.slot_level {
                Some(l) => l,
                None => spell.level.value(),
            })
        };
        if let Some(level) = slot_level {
            match slots.use_slot(level) {
                Err(e) => return Err(e),
                Ok(()) => {},
            }
        }
        let ghost mut a_rng: StdRng = seeded_rng(0);
        let ghost mut d_rng: StdRng = seeded_rng(0);
        let ghost mut h_rng: StdRng = seeded_rng(0);
        proof {
            if let Some(s) = request.seed {
                a_rng = seeded_rng(s);
                d_rng = seeded_rng(s);
                h_rng = seeded_rng(s);
            }
        }
        let mut attack_roll: Option<i32> = None;
        let mut success = true;
        if spell.attack_type != SpellAttackType::NoAttack {
            let expr = DiceExpression { count: 1, sides: 20, modifier: request.spell_attack_bonus };
            let (rolled, Ghost(start)) = roll_effect(request.seed, &expr);
            proof { a_rng = start; }
            match rolled {
                Ok(t) => {
                    attack_roll = Some(t);
                    success = t >= 10;
                },
                Err(e) => return Err(e),
            }
        }
        let base_level = spell.level.value();
        let cast_level = match slot_level {
            Some(l) => l,
            None => base_level,
        };
        let mut damage: Option<i32> = None;
        if let Some(damage_expr) = &spell.effect.damage {
            let expr = if cast_level > base_level {
                self.calculate_upcast_damage(damage_expr, base_level, cast_level)
            } else {
                *damage_expr
            };
            let (rolled, Ghost(start)) = roll_effect(request.seed, &expr);
            proof { d_rng = start; }
            match rolled {
                Ok(t) => damage = Some(t),
                Err(e) => return Err(e),
            }
        }
        let mut healing: Option<i32> = None;
        if let Some(healing_expr) = &spell.effect.healing {
            let expr = if cast_level > base_level {
                self.calculate_upcast_healing(healing_expr, base_level, cast_level)
            } else {
                *healing_expr
            };
            let (rolled, Ghost(start)) = roll_effect(request.seed, &expr);
            proof { h_rng = start; }
            match rolled {
                Ok(t) => healing = Some(t),
                Err(e) => return Err(e),
            }
        }
        let result = SpellCastResult {
            spell_name: spell.name.clone(),
            slot_used: slot_level,
            success,
            attack_roll,
            saving_throw_result: None,
            damage,
            healing,
            effects_applied: Vec::new(),
        };
        assert(cast_rolled(result, *spell, *request, a_rng, d_rng, h_rng));
        Ok(result)
    }
}

/// Index of the first spell named `name` (the length when there is none).
pub open spec fn first_named(db: Seq<Spell>, name: Seq<char>) -> nat
    decreases db.len(),
{
    if db.len() == 0 {
        0
    } else if db[0].name@ == name {
        0
    } else {
        1 + first_named(db.drop_first(), name)
    }
}

/// The spell stored under `name`.
pub open spec fn spell_named(db: Seq<Spell>, name: Seq<char>) -> Option<Spell> {
    let i = first_named(db, name) as int;
    if i < db.len() { Some(db[i]) } else { None }
}

/// The spells after storing `spell`: it replaces the spell of the same
/// name, or joins the end.
pub open spec fn with_spell(db: Seq<Spell>, spell: Spell) -> Seq<Spell> {
    let i = first_named(db, spell.name@) as int;
    if i < db.len() { db.update(i, spell) } else { db.push(spell) }
}

/// The spells that `keep` accepts, in stored order.
pub open spec fn select(db: Seq<Spell>, keep: spec_fn(Spell) -> bool) -> Seq<Spell>
    decreases db.len(),
{
    if db.len() == 0 {
        Seq::empty()
    } else if keep(db.last()) {
        select(db.drop_last(), keep).push(db.last())
    } else {
        select(db.drop_last(), keep)
    }
}

/// The spells a list of references points to.
pub open spec fn spells_of(v: Seq<&Spell>) -> Seq<Spell> {
    v.map_values(|r: &Spell| *r)
}

/// A spell matches a search when the query occurs in its name or its
/// description, letter case aside.
pub open spec fn matches_query(spell: Spell, query: Seq<char>) -> bool {
    has_infix(lowercase(spell.name@), lowercase(query)) || has_infix(lowercase(spell.description@), lowercase(query))
}

/// A class can cast the spell when the spell lists it, letter case aside.
pub open spec fn castable_by(spell: Spell, class: Seq<char>) -> bool {
    exists|j: int| 0 <= j < spell.classes@.len() && lowercase((#[trigger] spell.classes@[j])@) == lowercase(class)
}

pub proof fn lemma_first_named(db: Seq<Spell>, name: Seq<char>, k: int)
    requires
        0 <= k <= db.len(),
        forall|j: int| 0 <= j < k ==> (#[trigger] db[j]).name@ != name,
        k < db.len() ==> db[k].name@ == name,
    ensures
        first_named(db, name) == k,
    decreases k,
{
    if k > 0 {
        assert forall|j: int| 0 <= j < k - 1 implies (#[trigger] db.drop_first()[j]).name@ != name by {
            assert(db.drop_first()[j] == db[j + 1]);
        }
        lemma_first_named(db.drop_first(), name, k - 1);
    }
}

proof fn lemma_first_named_bound(db: Seq<Spell>, name: Seq<char>)
    ensures
        first_named(db, name) <= db.len(),
        first_named(db, name) < db.len() ==> db[first_named(db, name) as int].name@ == name,
        forall|j: int| 0 <= j < first_named(db, name) ==> (#[trigger] db[j]).name@ != name,
    decreases db.len(),
{
    if db.len() > 0 && db[0].name@ != name {
        lemma_first_named_bound(db.drop_first(), name);
        assert forall|j: int| 0 <= j < first_named(db, name) implies (#[trigger] db[j]).name@ != name by {
            if j > 0 {
                assert(db[j] == db.drop_first()[j - 1]);
            }
        }
    }
}

proof fn lemma_select_step(db: Seq<Spell>, keep: spec_fn(Spell) -> bool, i: int)
    requires
        0 <= i < db.len(),
    ensures
        select(db.take(i + 1), keep) == if keep(db[i]) {
            select(db.take(i), keep).push(db[i])
        } else {
            select(db.take(i), keep)
        },
{
    assert(db.take(i + 1).drop_last() == db.take(i));
    assert(db.take(i + 1).last() == db[i]);
}

/// The selection holds every spell that `keep` accepts and nothing else.
proof fn lemma_select_members(db: Seq<Spell>, keep: spec_fn(Spell) -> bool)
    ensures
        forall|i: int| 0 <= i < db.len() && keep(db[i]) ==> #[trigger] select(db, keep).contains(db[i]),
        forall|x: Spell| #[trigger] select(db, keep).contains(x) ==> db.contains(x) && keep(x),
    decreases db.len(),
{
    if db.len() > 0 {
        let rest = db.drop_last();
        lemma_select_members(rest, keep);
        let sel = select(db, keep);
        let rsel = select(rest, keep);
        assert forall|i: int| 0 <= i < db.len() && keep(db[i]) implies #[trigger] sel.contains(db[i]) by {
            if i < db.len() - 1 {
                assert(rest[i] == db[i]);
                assert(rsel.contains(rest[i]));
                let k = choose|k: int| 0 <= k < rsel.len() && rsel[k] == rest[i];
                if keep(db.last()) {
                    assert(sel[k] == rsel[k]);
                }
            } else {
                assert(db[i] == db.last());
                assert(sel[sel.len() - 1] == db.last());
            }
        }
        assert forall|x: Spell| #[trigger] sel.contains(x) implies db.contains(x) && keep(x) by {
            let k = choose|k: int| 0 <= k < sel.len() && sel[k] == x;
            if keep(db.last()) && k == sel.len() - 1 {
                assert(db[db.len() - 1] == x);
            } else {
                assert(rsel[k] == x);
                assert(rsel.contains(x));
                let m = choose|m: int| 0 <= m < rest.len() && rest[m] == x;
                assert(db[m] == x);
            }
        }
    }
}

/// The spells a search for `query` returns, in stored order.
pub open spec fn search_result(db: Seq<Spell>, query: Seq<char>) -> Seq<Spell> {
    select(db, |sp: Spell| matches_query(sp, query))
}

/// A search finds every stored spell whose name or whose description
/// contains the query (letter case aside), and only such stored spells:
/// a match in the description alone is enough.
pub proof fn law_search_names_and_descriptions(db: Seq<Spell>, query: Seq<char>)
    ensures
        forall|i: int| 0 <= i < db.len() && has_infix(lowercase(db[i].description@), lowercase(query))
            ==> #[trigger] search_result(db, query).contains(db[i]),
        forall|i: int| 0 <= i < db.len() && has_infix(lowercase(db[i].name@), lowercase(query))
            ==> #[trigger] search_result(db, query).contains(db[i]),
        forall|x: Spell| #[trigger] search_result(db, query).contains(x) ==> db.contains(x)
            && (has_infix(lowercase(x.name@), lowercase(query)) || has_infix(lowercase(x.description@), lowercase(query))),
{
    lemma_select_members(db, |sp: Spell| matches_query(sp, query));
}

/// A collection of spells, one per name.
pub struct SpellDatabase {
    spells: Vec<Spell>,
}

impl Default for SpellDatabase {
    /// No spells.
    fn default() -> (db: Self)
        ensures
            db@.len() == 0,
    {
        SpellDatabase::new()
    }
}

impl View for SpellDatabase {
    type V = Seq<Spell>;

    /// The stored spells in the order they were first added.
    closed spec fn view(&self) -> Seq<Spell> {
        self.spells@
    }
}

impl SpellDatabase {
    /// An empty collection.
    pub fn new() -> (db: Self)
        ensures
            db@.len() == 0,
    {
        SpellDatabase { spells: Vec::new() }
    }

    /// Stores a spell under its name, replacing any spell of that name.
    pub fn add_spell(&mut self, spell: Spell)
        ensures
            final(self)@ == with_spell(old(self)@, spell),
    {
        let mut i: usize = 0;
        while i < self.spells.len()
            invariant
                i <= self.spells@.len(),
                self.spells@ == old(self)@,
                forall|j: int| 0 <= j < i ==> (#[trigger] self.spells@[j]).name@ != spell.name@,
            decreases self.spells@.len() - i,
        {
            if same_text(self.spells[i].name.as_str(), spell.name.as_str()) {
                proof { lemma_first_named(self.spells@, spell.name@, i as int); }
                self.spells.set(i, spell);
                return;
            }
            i = i + 1;
        }
        proof { lemma_first_named(self.spells@, spell.name@, i as int); }
        self.spells.push(spell);
    }

    /// The spell stored under `name`.
    pub fn get_spell(&self, name: &str) -> (r: Option<&Spell>)
        ensures
            match spell_named(self@, name@) {
                None => r is None,
                Some(sp) => r matches Some(x) && *x == sp,
            },
    {
        let mut i: usize = 0;
        while i < self.spells.len()
            invariant
                i <= self.spells@.len(),
                forall|j: int| 0 <= j < i ==> (#[trigger] self.spells@[j]).name@ != name@,
            decreases self.spells@.len() - i,
        {
            if same_text(self.spells[i].name.as_str(), name) {
                proof { lemma_first_named(self.spells@, name@, i as int); }
                return Some(&self.spells[i]);
            }
            i = i + 1;
        }
        proof { lemma_first_named(self.spells@, name@, i as int); }
        None
    }

    /// Every stored spell.
    pub fn list_spells(&self) -> (r: Vec<&Spell>)
        ensures
            spells_of(r@) == self@,
    {
        let mut out: Vec<&Spell> = Vec::new();
        let mut i: usize = 0;
        while i < self.spells.len()
            invariant
                i <= self.spells@.len(),
                spells_of(out@) == self.spells@.take(i as int),
            decreases self.spells@.len() - i,
        {
            let ghost before = out@;
            out.push(&self.spells[i]);
            assert(spells_of(out@) =~= spells_of(before).push(self.spells@[i as int]));
            i = i + 1;
            assert(spells_of(out@) =~= self.spells@.take(i as int));
        }
        assert(self.spells@.take(self.spells@.len() as int) == self.spells@);
        out
    }

    /// The spells whose name or description holds `query`, letter case
    /// aside.
    pub fn search_spells(&self, query: &str) -> (r: Vec<&Spell>)
        ensures
            spells_of(r@) == select(self@, |sp: Spell| matches_query(sp, query@)),
            forall|i: int| 0 <= i < self@.len() && (has_infix(lowercase(self@[i].name@), lowercase(query@))
                || has_infix(lowercase(self@[i].description@), lowercase(query@)))
                ==> #[trigger] spells_of(r@).contains(self@[i]),
            forall|x: Spell| #[trigger] spells_of(r@).contains(x) ==> self@.contains(x)
                && (has_infix(lowercase(x.name@), lowercase(query@)) || has_infix(lowercase(x.description@), lowercase(query@))),
    {
        let ghost keep = |sp: Spell| matches_query(sp, query@);
        let query_lower = to_lowercase(query);
        let mut out: Vec<&Spell> = Vec::new();
        let mut i: usize = 0;
        while i < self.spells.len()
            invariant
                i <= self.spells@.len(),
                query_lower@ == lowercase(query@),
                keep == (|sp: Spell| matches_query(sp, query@)),
                spells_of(out@) == select(self.spells@.take(i as int), keep),
            decreases self.spells@.len() - i,
        {
            proof { lemma_select_step(self.spells@, keep, i as int); }
            let spell = &self.spells[i];
            let name_lower = to_lowercase(spell.name.as_str());
            let description_lower = to_lowercase(spell.description.as_str());
            if text_contains(name_lower.as_str(), query_lower.as_str())
                || text_contains(description_lower.as_str(), query_lower.as_str()) {
                out.push(spell);
            }
            i = i + 1;
        }
        assert(self.spells@.take(self.spells@.len() as int) == self.spells@);
        proof {
            law_search_names_and_descriptions(self@, query@);
            let found = search_result(self@, query@);
            assert(spells_of(out@) == found);
            assert forall|i: int| 0 <= i < self@.len() && (has_infix(lowercase(self@[i].name@), lowercase(query@))
                || has_infix(lowercase(self@[i].description@), lowercase(query@)))
                implies #[trigger] spells_of(out@).contains(self@[i]) by {
                assert(found.contains(self@[i]));
            }
            assert forall|x: Spell| #[trigger] spells_of(out@).contains(x) implies self@.contains(x)
                && (has_infix(lowercase(x.name@), lowercase(query@)) || has_infix(lowercase(x.description@), lowercase(query@))) by {
                assert(found.contains(x));
            }
        }
        out
    }

    /// The spells of one level.
    pub fn get_spells_by_level(&self, level: u8) -> (r: Vec<&Spell>)
        ensures
            spells_of(r@) == select(self@, |sp: Spell| sp.level.0 == level),
    {
        let ghost keep = |sp: Spell| sp.level.0 == level;
        let mut out: Vec<&Spell> = Vec::new();
        let mut i: usize = 0;
        while i < self.spells.len()
            invariant
                i <= self.spells@.len(),
                keep == (|sp: Spell| sp.level.0 == level),
                spells_of(out@) == select(self.spells@.take(i as int), keep),
            decreases self.spells@.len() - i,
        {
            proof { lemma_select_step(self.spells@, keep, i as int); }
            let spell = &self.spells[i];
            if spell.level.value() == level {
                out.push(spell);
            }
            i = i + 1;
        }
        assert(self.spells@.take(self.spells@.len() as int) == self.spells@);
        out
    }

    /// The spells of one school.
    pub fn get_spells_by_school(&self, school: SpellSchool) -> (r: Vec<&Spell>)
        ensures
            spells_of(r@) == select(self@, |sp: Spell| sp.school == school),
    {
        let ghost keep = |sp: Spell| sp.school == school;
        let mut out: Vec<&Spell> = Vec::new();
        let mut i: usize = 0;
        while i < self.spells.len()
            invariant
                i <= self.spells@.len(),
                keep == (|sp: Spell| sp.school == school),
                spells_of(out@) == select(self.spells@.take(i as int), keep),
            decreases self.spells@.len() - i,
        {
            proof { lemma_select_step(self.spells@, keep, i as int); }
            let spell = &self.spells[i];
            if spell.school == school {
                out.push(spell);
            }
            i = i + 1;
        }
        assert(self.spells@.take(self.spells@.len() as int) == self.spells@);
        out
    }

    /// The spells a class can cast, letter case aside.
    pub fn get_spells_by_class(&self, class: &str) -> (r: Vec<&Spell>)
        ensures
            spells_of(r@) == select(self@, |sp: Spell| castable_by(sp, class@)),
    {
        let ghost keep = |sp: Spell| castable_by(sp, class@);
        let class_lower = to_lowercase(class);
        let mut out: Vec<&Spell> = Vec::new();
        let mut i: usize = 0;
        while i < self.spells.len()
            invariant
                i <= self.spells@.len(),
                class_lower@ == lowercase(class@),
                keep == (|sp: Spell| castable_by(sp, class@)),
                spells_of(out@) == select(self.spells@.take(i as int), keep),
            decreases self.spells@.len() - i,
        {
            proof { lemma_select_step(self.spells@, keep, i as int); }
            let spell = &self.spells[i];
            let mut found = false;
            let mut k: usize = 0;
            while k < spell.classes.len()
                invariant
                    k <= spell.classes@.len(),
                    class_lower@ == lowercase(class@),
                    found == exists|j: int| 0 <= j < k && lowercase((#[trigger] spell.classes@[j])@) == lowercase(class@),
                decreases spell.classes@.len() - k,
            {
                let c = to_lowercase(spell.classes[k].as_str());
                if c == class_lower {
                    found = true;
                }
                k = k + 1;
            }
            if found {
                out.push(spell);
            }
            i = i + 1;
        }
        assert(self.spells@.take(self.spells@.len() as int) == self.spells@);
        out
    }
}

/// Storing a spell makes it the one found under its name, and leaves what
/// is found under every other name as it was.
pub proof fn law_spell_read_after_write(db: Seq<Spell>, spell: Spell, other: Seq<char>)
    ensures
        spell_named(with_spell(db, spell), spell.name@) == Some(spell),
        other != spell.name@ ==> spell_named(with_spell(db, spell), other) == spell_named(db, other),
{
    let after = with_spell(db, spell);
    lemma_first_named_bound(db, spell.name@);
    let i = first_named(db, spell.name@) as int;
    if i < db.len() {
        assert forall|j: int| 0 <= j < i implies (#[trigger] after[j]).name@ != spell.name@ by {}
        lemma_first_named(after, spell.name@, i);
    } else {
        assert forall|j: int| 0 <= j < db.len() implies (#[trigger] after[j]).name@ != spell.name@ by {}
        lemma_first_named(after, spell.name@, db.len() as int);
    }
    if other != spell.name@ {
        lemma_first_named_bound(db, other);
        let k = first_named(db, other) as int;
        if k < db.len() {
            assert forall|j: int| 0 <= j < k implies (#[trigger] after[j]).name@ != other by {
                assert(db[j].name@ != other);
            }
            lemma_first_named(after, other, k);
        } else {
            assert forall|j: int| 0 <= j < after.len() implies (#[trigger] after[j]).name@ != other by {
                if j < db.len() {
                    assert(db[j].name@ != other);
                }
            }
            lemma_first_named(after, other, after.len() as int);
        }
    }
}

/// The spells stored by adding `ss` in order to an empty database.
pub open spec fn stored_all(ss: Seq<Spell>) -> Seq<Spell>
    decreases ss.len(),
{
    if ss.len() == 0 { Seq::empty() } else { with_spell(stored_all(ss.drop_last()), ss.last()) }
}

/// The last of `ss` named `name`, if any.
pub open spec fn last_named(ss: Seq<Spell>, name: Seq<char>) -> Option<Spell>
    decreases ss.len(),
{
    if ss.len() == 0 {
        None
    } else if ss.last().name@ == name {
        Some(ss.last())
    } else {
        last_named(ss.drop_last(), name)
    }
}

/// After adding spells one by one to an empty database, looking up a name
/// finds the last spell added under exactly that name, and nothing when
/// none was.
pub proof fn law_lookup_after_adds(ss: Seq<Spell>, name: Seq<char>)
    ensures
        spell_named(stored_all(ss), name) == last_named(ss, name),
    decreases ss.len(),
{
    if ss.len() == 0 {
        let empty = Seq::<Spell>::empty();
        lemma_first_named_bound(empty, name);
    } else {
        law_lookup_after_adds(ss.drop_last(), name);
        law_spell_read_after_write(stored_all(ss.drop_last()), ss.last(), name);
    }
}

} // verus!
