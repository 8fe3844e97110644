use vstd::prelude::*;
use crate::damage::DamageType;
use crate::dice::DiceExpression;
use crate::text::{lowercase, to_lowercase};

verus! {

/// Simple or martial.
#[derive(Debug, Clone, Copy, PartialEq, Eq, Hash, Structural)]
pub enum WeaponCategory {
    Simple,
    Martial,
}

/// Melee or ranged.
#[derive(Debug, Clone, Copy, PartialEq, Eq, Hash, Structural)]
pub enum WeaponType {
    Melee,
    Ranged,
}

/// The weapon properties of the rules.
#[derive(Debug, Clone, Copy, PartialEq, Eq, Hash, Structural)]
pub enum WeaponProperty {
    Light,
    Finesse,
    TwoHanded,
    Versatile,
    Heavy,
    Reach,
    Thrown,
    Ammunition,
    Loading,
    Special,
}

/// A weapon.
#[derive(Debug, Clone)]
pub struct Weapon {
    pub name: String,
    pub category: WeaponCategory,
    pub weapon_type: WeaponType,
    pub damage: DiceExpression,
    pub damage_type: DamageType,
    pub properties: Vec<WeaponProperty>,
    /// Price in copper pieces.
    pub cost: u32,
    /// Weight in hundredths of a pound.
    pub weight_hundredths: u32,
    /// Normal range in feet, for ranged and thrown weapons.
    pub range_normal: Option<u32>,
    /// Long range in feet, for ranged and thrown weapons.
    pub range_long: Option<u32>,
    /// Damage when wielded with two hands, for versatile weapons.
    pub versatile_damage: Option<DiceExpression>,
}

/// What a weapon holds, as plain values.
#[verifier::ext_equal]
pub struct WeaponSheet {
    pub name: Seq<char>,
    pub category: WeaponCategory,
    pub weapon_type: WeaponType,
    pub damage: DiceExpression,
    pub damage_type: DamageType,
    pub properties: Seq<WeaponProperty>,
    pub cost: u32,
    pub weight_hundredths: u32,
    pub range_normal: Option<u32>,
    pub range_long: Option<u32>,
    pub versatile_damage: Option<DiceExpression>,
}

impl View for Weapon {
    type V = WeaponSheet;

    open spec fn view(&self) -> WeaponSheet {
        WeaponSheet {
            name: self.name@,
            category: self.category,
            weapon_type: self.weapon_type,
            damage: self.damage,
            damage_type: self.damage_type,
            properties: self.properties@,
            cost: self.cost,
            weight_hundredths: self.weight_hundredths,
            range_normal: self.range_normal,
            range_long: self.range_long,
            versatile_damage: self.versatile_damage,
        }
    }
}

/// The sheets of a list of weapons.
pub open spec fn sheets(v: Seq<Weapon>) -> Seq<WeaponSheet> {
    v.map_values(|w: Weapon| w@)
}

/// The dice of an attack: the two-handed dice when asked for and the weapon
/// is versatile (its one-handed dice if it names none), the normal dice
/// otherwise.
pub open spec fn damage_dice(w: WeaponSheet, use_versatile: bool) -> DiceExpression {
    if use_versatile && w.properties.contains(WeaponProperty::Versatile) {
        match w.versatile_damage {
            Some(d) => d,
            None => w.damage,
        }
    } else {
        w.damage
    }
}

/// Whether the property list holds `p`.
fn has_property(props: &Vec<WeaponProperty>, p: WeaponProperty) -> (b: bool)
    ensures
        b == props@.contains(p),
{
    let mut i: usize = 0;
    while i < props.len()
        invariant
            i <= props@.len(),
            forall|j: int| 0 <= j < i ==> props@[j] != p,
        decreases props@.len() - i,
    {
        if props[i] == p {
            return true;
        }
        i = i + 1;
    }
    false
}

impl Weapon {
    /// The dice of an attack with this weapon.
    pub fn calculate_damage(&self, use_versatile: bool) -> (d: DiceExpression)
        ensures
            d == damage_dice(self@, use_versatile),
    {
        if use_versatile && has_property(&self.properties, WeaponProperty::Versatile) {
            match self.versatile_damage {
                Some(v) => v,
                None => self.damage,
            }
        } else {
            self.damage
        }
    }

    /// Melee weapons without finesse attack with Strength.
    pub fn uses_strength(&self) -> (b: bool)
        ensures
            b == (!self.properties@.contains(WeaponProperty::Finesse) && self.weapon_type == WeaponType::Melee),
    {
        !has_property(&self.properties, WeaponProperty::Finesse) && self.weapon_type == WeaponType::Melee
    }

    /// Finesse and ranged weapons attack with Dexterity.
    pub fn uses_dexterity(&self) -> (b: bool)
        ensures
            b == (self.properties@.contains(WeaponProperty::Finesse) || self.weapon_type == WeaponType::Ranged),
    {
        has_property(&self.properties, WeaponProperty::Finesse) || self.weapon_type == WeaponType::Ranged
    }
}

/// Builds a weapon from its values.
fn make_weapon(
    name: &str,
    category: WeaponCategory,
    weapon_type: WeaponType,
    damage: DiceExpression,
    damage_type: DamageType,
    properties: Vec<WeaponProperty>,
    cost: u32,
    weight_hundredths: u32,
    range_normal: Option<u32>,
    range_long: Option<u32>,
    versatile_damage: Option<DiceExpression>,
) -> (w: Weapon)
    ensures
        w@ == (WeaponSheet {
            name: name@,
            category,
            weapon_type,
            damage,
            damage_type,
            properties: properties@,
            cost,
            weight_hundredths,
            range_normal,
            range_long,
            versatile_damage,
        }),
{
    Weapon {
        name: String::from_str(name),
        category,
        weapon_type,
        damage,
        damage_type,
        properties,
        cost,
        weight_hundredths,
        range_normal,
        range_long,
        versatile_damage,
    }
}

/// The simple melee weapons of the rules, in the order they are listed.
pub open spec fn simple_melee_table() -> Seq<WeaponSheet> {
    seq![
        WeaponSheet { name: "Club"@, category: WeaponCategory::Simple, weapon_type: WeaponType::Melee, damage: DiceExpression { count: 1, sides: 4, modifier: 0 }, damage_type: DamageType::Bludgeoning, properties: seq![WeaponProperty::Light], cost: 10, weight_hundredths: 200, range_normal: None, range_long: None, versatile_damage: None },
        WeaponSheet { name: "Dagger"@, category: WeaponCategory::Simple, weapon_type: WeaponType::Melee, damage: DiceExpression { count: 1, sides: 4, modifier: 0 }, damage_type: DamageType::Piercing, properties: seq![WeaponProperty::Finesse, WeaponProperty::Light, WeaponProperty::Thrown], cost: 200, weight_hundredths: 100, range_normal: Some(20u32), range_long: Some(60u32), versatile_damage: None },
        WeaponSheet { name: "Greatclub"@, category: WeaponCategory::Simple, weapon_type: WeaponType::Melee, damage: DiceExpression { count: 1, sides: 8, modifier: 0 }, damage_type: DamageType::Bludgeoning, properties: seq![WeaponProperty::TwoHanded], cost: 20, weight_hundredths: 1000, range_normal: None, range_long: None, versatile_damage: None },
        WeaponSheet { name: "Handaxe"@, category: WeaponCategory::Simple, weapon_type: WeaponType::Melee, damage: DiceExpression { count: 1, sides: 6, modifier: 0 }, damage_type: DamageType::Slashing, properties: seq![WeaponProperty::Light, WeaponProperty::Thrown], cost: 500, weight_hundredths: 200, range_normal: Some(20u32), range_long: Some(60u32), versatile_damage: None },
        WeaponSheet { name: "Javelin"@, category: WeaponCategory::Simple, weapon_type: WeaponType::Melee, damage: DiceExpression { count: 1, sides: 6, modifier: 0 }, damage_type: DamageType::Piercing, properties: seq![WeaponProperty::Thrown], cost: 50, weight_hundredths: 200, range_normal: Some(30u32), range_long: Some(120u32), versatile_damage: None },
        WeaponSheet { name: "Light Hammer"@, category: WeaponCategory::Simple, weapon_type: WeaponType::Melee, damage: DiceExpression { count: 1, sides: 4, modifier: 0 }, damage_type: DamageType::Bludgeoning, properties: seq![WeaponProperty::Light, WeaponProperty::Thrown], cost: 200, weight_hundredths: 200, range_normal: Some(20u32), range_long: Some(60u32), versatile_damage: None },
        WeaponSheet { name: "Mace"@, category: WeaponCategory::Simple, weapon_type: WeaponType::Melee, damage: DiceExpression { count: 1, sides: 6, modifier: 0 }, damage_type: DamageType::Bludgeoning, properties: seq![], cost: 500, weight_hundredths: 400, range_normal: None, range_long: None, versatile_damage: None },
        WeaponSheet { name: "Quarterstaff"@, category: WeaponCategory::Simple, weapon_type: WeaponType::Melee, damage: DiceExpression { count: 1, sides: 6, modifier: 0 }, damage_type: DamageType::Bludgeoning, properties: seq![WeaponProperty::Versatile], cost: 20, weight_hundredths: 400, range_normal: None, range_long: None, versatile_damage: Some(DiceExpression { count: 1, sides: 8, modifier: 0 }) },
        WeaponSheet { name: "Sickle"@, category: WeaponCategory::Simple, weapon_type: WeaponType::Melee, damage: DiceExpression { count: 1, sides: 4, modifier: 0 }, damage_type: DamageType::Slashing, properties: seq![WeaponProperty::Light], cost: 100, weight_hundredths: 200, range_normal: None, range_long: None, versatile_damage: None },
        WeaponSheet { name: "Spear"@, category: WeaponCategory::Simple, weapon_type: WeaponType::Melee, damage: DiceExpression { count: 1, sides: 6, modifier: 0 }, damage_type: DamageType::Piercing, properties: seq![WeaponProperty::Thrown, WeaponProperty::Versatile], cost: 100, weight_hundredths: 300, range_normal: Some(20u32), range_long: Some(60u32), versatile_damage: Some(DiceExpression { count: 1, sides: 8, modifier: 0 }) },
    ]
}

fn simple_melee_list() -> (v: Vec<Weapon>)
    ensures
        sheets(v@) == simple_melee_table(),
{
    let mut v: Vec<Weapon> = Vec::new();
    v.push(make_weapon("Club", WeaponCategory::Simple, WeaponType::Melee, DiceExpression { count: 1, sides: 4, modifier: 0 }, DamageType::Bludgeoning, vec![WeaponProperty::Light], 10, 200, None, None, None));
    v.push(make_weapon("Dagger", WeaponCategory::Simple, WeaponType::Melee, DiceExpression { count: 1, sides: 4, modifier: 0 }, DamageType::Piercing, vec![WeaponProperty::Finesse, WeaponProperty::Light, WeaponProperty::Thrown], 200, 100, Some(20u32), Some(60u32), None));
    v.push(make_weapon("Greatclub", WeaponCategory::Simple, WeaponType::Melee, DiceExpression { count: 1, sides: 8, modifier: 0 }, DamageType::Bludgeoning, vec![WeaponProperty::TwoHanded], 20, 1000, None, None, None));
    v.push(make_weapon("Handaxe", WeaponCategory::Simple, WeaponType::Melee, DiceExpression { count: 1, sides: 6, modifier: 0 }, DamageType::Slashing, vec![WeaponProperty::Light, WeaponProperty::Thrown], 500, 200, Some(20u32), Some(60u32), None));
    v.push(make_weapon("Javelin", WeaponCategory::Simple, WeaponType::Melee, DiceExpression { count: 1, sides: 6, modifier: 0 }, DamageType::Piercing, vec![WeaponProperty::Thrown], 50, 200, Some(30u32), Some(120u32), None));
    v.push(make_weapon("Light Hammer", WeaponCategory::Simple, WeaponType::Melee, DiceExpression { count: 1, sides: 4, modifier: 0 }, DamageType::Bludgeoning, vec![WeaponProperty::Light, WeaponProperty::Thrown], 200, 200, Some(20u32), Some(60u32), None));
    v.push(make_weapon("Mace", WeaponCategory::Simple, WeaponType::Melee, DiceExpression { count: 1, sides: 6, modifier: 0 }, DamageType::Bludgeoning, vec![], 500, 400, None, None, None));
    v.push(make_weapon("Quarterstaff", WeaponCategory::Simple, WeaponType::Melee, DiceExpression { count: 1, sides: 6, modifier: 0 }, DamageType::Bludgeoning, vec![WeaponProperty::Versatile], 20, 400, None, None, Some(DiceExpression { count: 1, sides: 8, modifier: 0 })));
    v.push(make_weapon("Sickle", WeaponCategory::Simple, WeaponType::Melee, DiceExpression { count: 1, sides: 4, modifier: 0 }, DamageType::Slashing, vec![WeaponProperty::Light], 100, 200, None, None, None));
    v.push(make_weapon("Spear", WeaponCategory::Simple, WeaponType::Melee, DiceExpression { count: 1, sides: 6, modifier: 0 }, DamageType::Piercing, vec![WeaponProperty::Thrown, WeaponProperty::Versatile], 100, 300, Some(20u32), Some(60u32), Some(DiceExpression { count: 1, sides: 8, modifier: 0 })));
    assert(sheets(v@) =~~= simple_melee_table());
    v
}

/// The simple ranged weapons of the rules, in the order they are listed.
pub open spec fn simple_ranged_table() -> Seq<WeaponSheet> {
    seq![
        WeaponSheet { name: "Light Crossbow"@, category: WeaponCategory::Simple, weapon_type: WeaponType::Ranged, damage: DiceExpression { count: 1, sides: 8, modifier: 0 }, damage_type: DamageType::Piercing, properties: seq![WeaponProperty::Ammunition, WeaponProperty::Loading, WeaponProperty::TwoHanded], cost: 2500, weight_hundredths: 500, range_normal: Some(80u32), range_long: Some(320u32), versatile_damage: None },
        WeaponSheet { name: "Dart"@, category: WeaponCategory::Simple, weapon_type: WeaponType::Ranged, damage: DiceExpression { count: 1, sides: 4, modifier: 0 }, damage_type: DamageType::Piercing, properties: seq![WeaponProperty::Finesse, WeaponProperty::Thrown], cost: 5, weight_hundredths: 25, range_normal: Some(20u32), range_long: Some(60u32), versatile_damage: None },
        WeaponSheet { name: "Shortbow"@, category: WeaponCategory::Simple, weapon_type: WeaponType::Ranged, damage: DiceExpression { count: 1, sides: 6, modifier: 0 }, damage_type: DamageType::Piercing, properties: seq![WeaponProperty::Ammunition, WeaponProperty::TwoHanded], cost: 2500, weight_hundredths: 200, range_normal: Some(80u32), range_long: Some(320u32), versatile_damage: None },
        WeaponSheet { name: "Sling"@, category: WeaponCategory::Simple, weapon_type: WeaponType::Ranged, damage: DiceExpression { count: 1, sides: 4, modifier: 0 }, damage_type: DamageType::Bludgeoning, properties: seq![WeaponProperty::Ammunition], cost: 10, weight_hundredths: 0, range_normal: Some(30u32), range_long: Some(120u32), versatile_damage: None },
    ]
}

fn simple_ranged_list() -> (v: Vec<Weapon>)
    ensures
        sheets(v@) == simple_ranged_table(),
{
    let mut v: Vec<Weapon> = Vec::new();
    v.push(make_weapon("Light Crossbow", WeaponCategory::Simple, WeaponType::Ranged, DiceExpression { count: 1, sides: 8, modifier: 0 }, DamageType::Piercing, vec![WeaponProperty::Ammunition, WeaponProperty::Loading, WeaponProperty::TwoHanded], 2500, 500, Some(80u32), Some(320u32), None));
    v.push(make_weapon("Dart", WeaponCategory::Simple, WeaponType::Ranged, DiceExpression { count: 1, sides: 4, modifier: 0 }, DamageType::Piercing, vec![WeaponProperty::Finesse, WeaponProperty::Thrown], 5, 25, Some(20u32), Some(60u32), None));
    v.push(make_weapon("Shortbow", WeaponCategory::Simple, WeaponType::Ranged, DiceExpression { count: 1, sides: 6, modifier: 0 }, DamageType::Piercing, vec![WeaponProperty::Ammunition, WeaponProperty::TwoHanded], 2500, 200, Some(80u32), Some(320u32), None));
    v.push(make_weapon("Sling", WeaponCategory::Simple, WeaponType::Ranged, DiceExpression { count: 1, sides: 4, modifier: 0 }, DamageType::Bludgeoning, vec![WeaponProperty::Ammunition], 10, 0, Some(30u32), Some(120u32), None));
        assert(v@[0]@ == simple_ranged_table()[0]);
    assert(v@[1]@ == simple_ranged_table()[1]);
    assert(v@[2]@ == simple_ranged_table()[2]);
    assert(sheets(v@) =~~= simple_ranged_table());
    v
}

/// The martial melee weapons of the rules, in the order they are listed.
pub open spec fn martial_melee_table() -> Seq<WeaponSheet> {
    seq![
        WeaponSheet { name: "Battleaxe"@, category: WeaponCategory::Martial, weapon_type: WeaponType::Melee, damage: DiceExpression { count: 1, sides: 8, modifier: 0 }, damage_type: DamageType::Slashing, properties: seq![WeaponProperty::Versatile], cost: 1000, weight_hundredths: 400, range_normal: None, range_long: None, versatile_damage: Some(DiceExpression { count: 1, sides: 10, modifier: 0 }) },
        WeaponSheet { name: "Flail"@, category: WeaponCategory::Martial, weapon_type: WeaponType::Melee, damage: DiceExpression { count: 1, sides: 8, modifier: 0 }, damage_type: DamageType::Bludgeoning, properties: seq![], cost: 1000, weight_hundredths: 200, range_normal: None, range_long: None, versatile_damage: None },
        WeaponSheet { name: "Glaive"@, category: WeaponCategory::Martial, weapon_type: WeaponType::Melee, damage: DiceExpression { count: 1, sides: 10, modifier: 0 }, damage_type: DamageType::Slashing, properties: seq![WeaponProperty::Heavy, WeaponProperty::Reach, WeaponProperty::TwoHanded], cost: 2000, weight_hundredths: 600, range_normal: None, range_long: None, versatile_damage: None },
        WeaponSheet { name: "Greataxe"@, category: WeaponCategory::Martial, weapon_type: WeaponType::Melee, damage: DiceExpression { count: 1, sides: 12, modifier: 0 }, damage_type: DamageType::Slashing, properties: seq![WeaponProperty::Heavy, WeaponProperty::TwoHanded], cost: 3000, weight_hundredths: 700, range_normal: None, range_long: None, versatile_damage: None },
        WeaponSheet { name: "Greatsword"@, category: WeaponCategory::Martial, weapon_type: WeaponType::Melee, damage: DiceExpression { count: 2, sides: 6, modifier: 0 }, damage_type: DamageType::Slashing, properties: seq![WeaponProperty::Heavy, WeaponProperty::TwoHanded], cost: 5000, weight_hundredths: 600, range_normal: None, range_long: None, versatile_damage: None },
        WeaponSheet { name: "Halberd"@, category: WeaponCategory::Martial, weapon_type: WeaponType::Melee, damage: DiceExpression { count: 1, sides: 10, modifier: 0 }, damage_type: DamageType::Slashing, properties: seq![WeaponProperty::Heavy, WeaponProperty::Reach, WeaponProperty::TwoHanded], cost: 2000, weight_hundredths: 600, range_normal: None, range_long: None, versatile_damage: None },
        WeaponSheet { name: "Lance"@, category: WeaponCategory::Martial, weapon_type: WeaponType::Melee, damage: DiceExpression { count: 1, sides: 12, modifier: 0 }, damage_type: DamageType::Piercing, properties: seq![WeaponProperty::Reach, WeaponProperty::Special], cost: 1000, weight_hundredths: 600, range_normal: None, range_long: None, versatile_damage: None },
        WeaponSheet { name: "Longsword"@, category: WeaponCategory::Martial, weapon_type: WeaponType::Melee, damage: DiceExpression { count: 1, sides: 8, modifier: 0 }, damage_type: DamageType::Slashing, properties: seq![WeaponProperty::Versatile], cost: 1500, weight_hundredths: 300, range_normal: None, range_long: None, versatile_damage: Some(DiceExpression { count: 1, sides: 10, modifier: 0 }) },
        WeaponSheet { name: "Maul"@, category: WeaponCategory::Martial, weapon_type: WeaponType::Melee, damage: DiceExpression { count: 2, sides: 6, modifier: 0 }, damage_type: DamageType::Bludgeoning, properties: seq![WeaponProperty::Heavy, WeaponProperty::TwoHanded], cost: 1000, weight_hundredths: 1000, range_normal: None, range_long: None, versatile_damage: None },
        WeaponSheet { name: "Morningstar"@, category: WeaponCategory::Martial, weapon_type: WeaponType::Melee, damage: DiceExpression { count: 1, sides: 8, modifier: 0 }, damage_type: DamageType::Piercing, properties: seq![], cost: 1500, weight_hundredths: 400, range_normal: None, range_long: None, versatile_damage: None },
        WeaponSheet { name: "Pike"@, category: WeaponCategory::Martial, weapon_type: WeaponType::Melee, damage: DiceExpression { count: 1, sides: 10, modifier: 0 }, damage_type: DamageType::Piercing, properties: seq![WeaponProperty::Heavy, WeaponProperty::Reach, WeaponProperty::TwoHanded], cost: 500, weight_hundredths: 1800, range_normal: None, range_long: None, versatile_damage: None },
        WeaponSheet { name: "Rapier"@, category: WeaponCategory::Martial, weapon_type: WeaponType::Melee, damage: DiceExpression { count: 1, sides: 8, modifier: 0 }, damage_type: DamageType::Piercing, properties: seq![WeaponProperty::Finesse], cost: 2500, weight_hundredths: 200, range_normal: None, range_long: None, versatile_damage: None },
        WeaponSheet { name: "Scimitar"@, category: WeaponCategory::Martial, weapon_type: WeaponType::Melee, damage: DiceExpression { count: 1, sides: 6, modifier: 0 }, damage_type: DamageType::Slashing, properties: seq![WeaponProperty::Finesse, WeaponProperty::Light], cost: 2500, weight_hundredths: 300, range_normal: None, range_long: None, versatile_damage: None },
        WeaponSheet { name: "Shortsword"@, category: WeaponCategory::Martial, weapon_type: WeaponType::Melee, damage: DiceExpression { count: 1, sides: 6, modifier: 0 }, damage_type: DamageType::Piercing, properties: seq![WeaponProperty::Finesse, WeaponProperty::Light], cost: 1000, weight_hundredths: 200, range_normal: None, range_long: None, versatile_damage: None },
        WeaponSheet { name: "Trident"@, category: WeaponCategory::Martial, weapon_type: WeaponType::Melee, damage: DiceExpression { count: 1, sides: 6, modifier: 0 }, damage_type: DamageType::Piercing, properties: seq![WeaponProperty::Thrown, WeaponProperty::Versatile], cost: 500, weight_hundredths: 400, range_normal: Some(20u32), range_long: Some(60u32), versatile_damage: Some(DiceExpression { count: 1, sides: 8, modifier: 0 }) },
        WeaponSheet { name: "War Pick"@, category: WeaponCategory::Martial, weapon_type: WeaponType::Melee, damage: DiceExpression { count: 1, sides: 8, modifier: 0 }, damage_type: DamageType::Piercing, properties: seq![], cost: 500, weight_hundredths: 200, range_normal: None, range_long: None, versatile_damage: None },
        WeaponSheet { name: "Warhammer"@, category: WeaponCategory::Martial, weapon_type: WeaponType::Melee, damage: DiceExpression { count: 1, sides: 8, modifier: 0 }, damage_type: DamageType::Bludgeoning, properties: seq![WeaponProperty::Versatile], cost: 1500, weight_hundredths: 200, range_normal: None, range_long: None, versatile_damage: Some(DiceExpression { count: 1, sides: 10, modifier: 0 }) },
        WeaponSheet { name: "Whip"@, category: WeaponCategory::Martial, weapon_type: WeaponType::Melee, damage: DiceExpression { count: 1, sides: 4, modifier: 0 }, damage_type: DamageType::Slashing, properties: seq![WeaponProperty::Finesse, WeaponProperty::Reach], cost: 200, weight_hundredths: 300, range_normal: None, range_long: None, versatile_damage: None },
    ]
}

fn martial_melee_list() -> (v: Vec<Weapon>)
    ensures
        sheets(v@) == martial_melee_table(),
{
    let mut v: Vec<Weapon> = Vec::new();
    v.push(make_weapon("Battleaxe", WeaponCategory::Martial, WeaponType::Melee, DiceExpression { count: 1, sides: 8, modifier: 0 }, DamageType::Slashing, vec![WeaponProperty::Versatile], 1000, 400, None, None, Some(DiceExpression { count: 1, sides: 10, modifier: 0 })));
    v.push(make_weapon("Flail", WeaponCategory::Martial, WeaponType::Melee, DiceExpression { count: 1, sides: 8, modifier: 0 }, DamageType::Bludgeoning, vec![], 1000, 200, None, None, None));
    v.push(make_weapon("Glaive", WeaponCategory::Martial, WeaponType::Melee, DiceExpression { count: 1, sides: 10, modifier: 0 }, DamageType::Slashing, vec![WeaponProperty::Heavy, WeaponProperty::Reach, WeaponProperty::TwoHanded], 2000, 600, None, None, None));
    v.push(make_weapon("Greataxe", WeaponCategory::Martial, WeaponType::Melee, DiceExpression { count: 1, sides: 12, modifier: 0 }, DamageType::Slashing, vec![WeaponProperty::Heavy, WeaponProperty::TwoHanded], 3000, 700, None, None, None));
    v.push(make_weapon("Greatsword", WeaponCategory::Martial, WeaponType::Melee, DiceExpression { count: 2, sides: 6, modifier: 0 }, DamageType::Slashing, vec![WeaponProperty::Heavy, WeaponProperty::TwoHanded], 5000, 600, None, None, None));
    v.push(make_weapon("Halberd", WeaponCategory::Martial, WeaponType::Melee, DiceExpression { count: 1, sides: 10, modifier: 0 }, DamageType::Slashing, vec![WeaponProperty::Heavy, WeaponProperty::Reach, WeaponProperty::TwoHanded], 2000, 600, None, None, None));
    v.push(make_weapon("Lance", WeaponCategory::Martial, WeaponType::Melee, DiceExpression { count: 1, sides: 12, modifier: 0 }, DamageType::Piercing, vec![WeaponProperty::Reach, WeaponProperty::Special], 1000, 600, None, None, None));
    v.push(make_weapon("Longsword", WeaponCategory::Martial, WeaponType::Melee, DiceExpression { count: 1, sides: 8, modifier: 0 }, DamageType::Slashing, vec![WeaponProperty::Versatile], 1500, 300, None, None, Some(DiceExpression { count: 1, sides: 10, modifier: 0 })));
    v.push(make_weapon("Maul", WeaponCategory::Martial, WeaponType::Melee, DiceExpression { count: 2, sides: 6, modifier: 0 }, DamageType::Bludgeoning, vec![WeaponProperty::Heavy, WeaponProperty::TwoHanded], 1000, 1000, None, None, None));
    v.push(make_weapon("Morningstar", WeaponCategory::Martial, WeaponType::Melee, DiceExpression { count: 1, sides: 8, modifier: 0 }, DamageType::Piercing, vec![], 1500, 400, None, None, None));
    v.push(make_weapon("Pike", WeaponCategory::Martial, WeaponType::Melee, DiceExpression { count: 1, sides: 10, modifier: 0 }, DamageType::Piercing, vec![WeaponProperty::Heavy, WeaponProperty::Reach, WeaponProperty::TwoHanded], 500, 1800, None, None, None));
    v.push(make_weapon("Rapier", WeaponCategory::Martial, WeaponType::Melee, DiceExpression { count: 1, sides: 8, modifier: 0 }, DamageType::Piercing, vec![WeaponProperty::Finesse], 2500, 200, None, None, None));
    v.push(make_weapon("Scimitar", WeaponCategory::Martial, WeaponType::Melee, DiceExpression { count: 1, sides: 6, modifier: 0 }, DamageType::Slashing, vec![WeaponProperty::Finesse, WeaponProperty::Light], 2500, 300, None, None, None));
    v.push(make_weapon("Shortsword", WeaponCategory::Martial, WeaponType::Melee, DiceExpression { count: 1, sides: 6, modifier: 0 }, DamageType::Piercing, vec![WeaponProperty::Finesse, WeaponProperty::Light], 1000, 200, None, None, None));
    v.push(make_weapon("Trident", WeaponCategory::Martial, WeaponType::Melee, DiceExpression { count: 1, sides: 6, modifier: 0 }, DamageType::Piercing, vec![WeaponProperty::Thrown, WeaponProperty::Versatile], 500, 400, Some(20u32), Some(60u32), Some(DiceExpression { count: 1, sides: 8, modifier: 0 })));
    v.push(make_weapon("War Pick", WeaponCategory::Martial, WeaponType::Melee, DiceExpression { count: 1, sides: 8, modifier: 0 }, DamageType::Piercing, vec![], 500, 200, None, None, None));
    v.push(make_weapon("Warhammer", WeaponCategory::Martial, WeaponType::Melee, DiceExpression { count: 1, sides: 8, modifier: 0 }, DamageType::Bludgeoning, vec![WeaponProperty::Versatile], 1500, 200, None, None, Some(DiceExpression { count: 1, sides: 10, modifier: 0 })));
    v.push(make_weapon("Whip", WeaponCategory::Martial, WeaponType::Melee, DiceExpression { count: 1, sides: 4, modifier: 0 }, DamageType::Slashing, vec![WeaponProperty::Finesse, WeaponProperty::Reach], 200, 300, None, None, None));
    assert(sheets(v@) =~~= martial_melee_table());
    v
}

/// The martial ranged weapons of the rules, in the order they are listed.
pub open spec fn martial_ranged_table() -> Seq<WeaponSheet> {
    seq![
        WeaponSheet { name: "Blowgun"@, category: WeaponCategory::Martial, weapon_type: WeaponType::Ranged, damage: DiceExpression { count: 1, sides: 1, modifier: 0 }, damage_type: DamageType::Piercing, properties: seq![WeaponProperty::Ammunition, WeaponProperty::Loading], cost: 1000, weight_hundredths: 100, range_normal: Some(25u32), range_long: Some(100u32), versatile_damage: None },
        WeaponSheet { name: "Hand Crossbow"@, category: WeaponCategory::Martial, weapon_type: WeaponType::Ranged, damage: DiceExpression { count: 1, sides: 6, modifier: 0 }, damage_type: DamageType::Piercing, properties: seq![WeaponProperty::Ammunition, WeaponProperty::Light, WeaponProperty::Loading], cost: 7500, weight_hundredths: 300, range_normal: Some(30u32), range_long: Some(120u32), versatile_damage: None },
        WeaponSheet { name: "Heavy Crossbow"@, category: WeaponCategory::Martial, weapon_type: WeaponType::Ranged, damage: DiceExpression { count: 1, sides: 10, modifier: 0 }, damage_type: DamageType::Piercing, properties: seq![WeaponProperty::Ammunition, WeaponProperty::Heavy, WeaponProperty::Loading, WeaponProperty::TwoHanded], cost: 5000, weight_hundredths: 1800, range_normal: Some(100u32), range_long: Some(400u32), versatile_damage: None },
        WeaponSheet { name: "Longbow"@, category: WeaponCategory::Martial, weapon_type: WeaponType::Ranged, damage: DiceExpression { count: 1, sides: 8, modifier: 0 }, damage_type: DamageType::Piercing, properties: seq![WeaponProperty::Ammunition, WeaponProperty::Heavy, WeaponProperty::TwoHanded], cost: 5000, weight_hundredths: 200, range_normal: Some(150u32), range_long: Some(600u32), versatile_damage: None },
        WeaponSheet { name: "Net"@, category: WeaponCategory::Martial, weapon_type: WeaponType::Ranged, damage: DiceExpression { count: 0, sides: 0, modifier: 0 }, damage_type: DamageType::Bludgeoning, properties: seq![WeaponProperty::Special, WeaponProperty::Thrown], cost: 100, weight_hundredths: 300, range_normal: Some(5u32), range_long: Some(15u32), versatile_damage: None },
    ]
}

fn martial_ranged_list() -> (v: Vec<Weapon>)
    ensures
        sheets(v@) == martial_ranged_table(),
{
    let mut v: Vec<Weapon> = Vec::new();
    v.push(make_weapon("Blowgun", WeaponCategory::Martial, WeaponType::Ranged, DiceExpression { count: 1, sides: 1, modifier: 0 }, DamageType::Piercing, vec![WeaponProperty::Ammunition, WeaponProperty::Loading], 1000, 100, Some(25u32), Some(100u32), None));
    v.push(make_weapon("Hand Crossbow", WeaponCategory::Martial, WeaponType::Ranged, DiceExpression { count: 1, sides: 6, modifier: 0 }, DamageType::Piercing, vec![WeaponProperty::Ammunition, WeaponProperty::Light, WeaponProperty::Loading], 7500, 300, Some(30u32), Some(120u32), None));
    v.push(make_weapon("Heavy Crossbow", WeaponCategory::Martial, WeaponType::Ranged, DiceExpression { count: 1, sides: 10, modifier: 0 }, DamageType::Piercing, vec![WeaponProperty::Ammunition, WeaponProperty::Heavy, WeaponProperty::Loading, WeaponProperty::TwoHanded], 5000, 1800, Some(100u32), Some(400u32), None));
    v.push(make_weapon("Longbow", WeaponCategory::Martial, WeaponType::Ranged, DiceExpression { count: 1, sides: 8, modifier: 0 }, DamageType::Piercing, vec![WeaponProperty::Ammunition, WeaponProperty::Heavy, WeaponProperty::TwoHanded], 5000, 200, Some(150u32), Some(600u32), None));
    v.push(make_weapon("Net", WeaponCategory::Martial, WeaponType::Ranged, DiceExpression { count: 0, sides: 0, modifier: 0 }, DamageType::Bludgeoning, vec![WeaponProperty::Special, WeaponProperty::Thrown], 100, 300, Some(5u32), Some(15u32), None));
    assert(sheets(v@) =~~= martial_ranged_table());
    v
}

/// Every weapon of the rules: simple melee, simple ranged, martial melee,
/// martial ranged, each group in its listed order.
pub open spec fn weapon_table() -> Seq<WeaponSheet> {
    simple_melee_table() + simple_ranged_table() + martial_melee_table() + martial_ranged_table()
}

/// Index of the first weapon named `name`, letter case aside (the length
/// when there is none).
pub open spec fn first_weapon_named(t: Seq<WeaponSheet>, name: Seq<char>) -> nat
    decreases t.len(),
{
    if t.len() == 0 {
        0
    } else if lowercase(t[0].name) == lowercase(name) {
        0
    } else {
        1 + first_weapon_named(t.drop_first(), name)
    }
}

/// The weapon of the rules named `name`, letter case aside.
pub open spec fn weapon_named(name: Seq<char>) -> Option<WeaponSheet> {
    let i = first_weapon_named(weapon_table(), name) as int;
    if i < weapon_table().len() { Some(weapon_table()[i]) } else { None }
}

/// The weapons of one category and type, in order.
pub open spec fn select_kind(t: Seq<WeaponSheet>, category: WeaponCategory, weapon_type: WeaponType) -> Seq<WeaponSheet>
    decreases t.len(),
{
    if t.len() == 0 {
        Seq::empty()
    } else if t.last().category == category && t.last().weapon_type == weapon_type {
        select_kind(t.drop_last(), category, weapon_type).push(t.last())
    } else {
        select_kind(t.drop_last(), category, weapon_type)
    }
}

proof fn lemma_first_weapon_named(t: Seq<WeaponSheet>, name: Seq<char>, k: int)
    requires
        0 <= k <= t.len(),
        forall|j: int| 0 <= j < k ==> lowercase((#[trigger] t[j]).name) != lowercase(name),
        k < t.len() ==> lowercase(t[k].name) == lowercase(name),
    ensures
        first_weapon_named(t, name) == k,
    decreases k,
{
    if k > 0 {
        assert forall|j: int| 0 <= j < k - 1 implies lowercase((#[trigger] t.drop_first()[j]).name) != lowercase(name) by {
            assert(t.drop_first()[j] == t[j + 1]);
        }
        lemma_first_weapon_named(t.drop_first(), name, k - 1);
    }
}

/// The weapons of `all` of one category and type, in order.
fn keep_kind(all: Vec<Weapon>, category: WeaponCategory, weapon_type: WeaponType) -> (v: Vec<Weapon>)
    ensures
        sheets(v@) == select_kind(sheets(all@), category, weapon_type),
{
    let ghost whole = all@;
    let mut rest = all;
    let mut out: Vec<Weapon> = Vec::new();
    let n = rest.len();
    let mut i: usize = 0;
    while i < n
        invariant
            i <= n == whole.len(),
            rest@ == whole.skip(i as int),
            sheets(out@) == select_kind(sheets(whole.take(i as int)), category, weapon_type),
        decreases n - i,
    {
        let w = rest.remove(0);
        assert(w == whole[i as int]);
        assert(whole.skip(i as int).remove(0) =~= whole.skip(i + 1));
        let ghost before = out@;
        assert(sheets(whole.take(i + 1)).drop_last() =~= sheets(whole.take(i as int)));
        assert(sheets(whole.take(i + 1)).last() == w@);
        if w.category == category && w.weapon_type == weapon_type {
            out.push(w);
            assert(sheets(out@) =~= sheets(before).push(whole[i as int]@));
        }
        i = i + 1;
    }
    assert(whole.take(n as int) =~= whole);
    out
}

/// The weapons of the rules.
pub struct WeaponDatabase;

impl WeaponDatabase {
    /// The weapon named `name`, letter case aside.
    pub fn get_weapon(name: &str) -> (r: Option<Weapon>)
        ensures
            match weapon_named(name@) {
                None => r is None,
                Some(w) => r matches Some(x) && x@ == w,
            },
    {
        let mut all = Self::all_weapons();
        let target = to_lowercase(name);
        let mut i: usize = 0;
        while i < all.len()
            invariant
                i <= all@.len(),
                sheets(all@) == weapon_table(),
                target@ == lowercase(name@),
                forall|j: int| 0 <= j < i ==> lowercase((#[trigger] weapon_table()[j]).name) != lowercase(name@),
            decreases all@.len() - i,
        {
            let candidate = to_lowercase(all[i].name.as_str());
            assert(weapon_table()[i as int] == all@[i as int]@);
            if candidate == target {
                proof { lemma_first_weapon_named(weapon_table(), name@, i as int); }
                let w = all.remove(i);
                return Some(w);
            }
            i = i + 1;
        }
        proof { lemma_first_weapon_named(weapon_table(), name@, i as int); }
        None
    }

    /// Every weapon of the rules.
    pub fn all_weapons() -> (v: Vec<Weapon>)
        ensures
            sheets(v@) == weapon_table(),
    {
        let mut v = simple_melee_list();
        let mut b = simple_ranged_list();
        let mut c = martial_melee_list();
        let mut d = martial_ranged_list();
        let ghost (va, vb, vc, vd) = (v@, b@, c@, d@);
        v.append(&mut b);
        v.append(&mut c);
        v.append(&mut d);
        assert(v@ == va + vb + vc + vd);
        assert(sheets(v@) =~= sheets(va) + sheets(vb) + sheets(vc) + sheets(vd));
        v
    }

    /// The simple melee weapons.
    pub fn simple_melee() -> (v: Vec<Weapon>)
        ensures
            sheets(v@) == select_kind(weapon_table(), WeaponCategory::Simple, WeaponType::Melee),
    {
        keep_kind(Self::all_weapons(), WeaponCategory::Simple, WeaponType::Melee)
    }

    /// The simple ranged weapons.
    pub fn simple_ranged() -> (v: Vec<Weapon>)
        ensures
            sheets(v@) == select_kind(weapon_table(), WeaponCategory::Simple, WeaponType::Ranged),
    {
        keep_kind(Self::all_weapons(), WeaponCategory::Simple, WeaponType::Ranged)
    }

    /// The martial melee weapons.
    pub fn martial_melee() -> (v: Vec<Weapon>)
        ensures
            sheets(v@) == select_kind(weapon_table(), WeaponCategory::Martial, WeaponType::Melee),
    {
        keep_kind(Self::all_weapons(), WeaponCategory::Martial, WeaponType::Melee)
    }

    /// The martial ranged weapons.
    pub fn martial_ranged() -> (v: Vec<Weapon>)
        ensures
            sheets(v@) == select_kind(weapon_table(), WeaponCategory::Martial, WeaponType::Ranged),
    {
        keep_kind(Self::all_weapons(), WeaponCategory::Martial, WeaponType::Ranged)
    }
}

proof fn lemma_select_concat(x: Seq<WeaponSheet>, y: Seq<WeaponSheet>, c: WeaponCategory, t: WeaponType)
    ensures
        select_kind(x + y, c, t) == select_kind(x, c, t) + select_kind(y, c, t),
    decreases y.len(),
{
    if y.len() == 0 {
        assert(x + y =~= x);
        assert(select_kind(x, c, t) + select_kind(y, c, t) =~= select_kind(x, c, t));
    } else {
        lemma_select_concat(x, y.drop_last(), c, t);
        assert((x + y).drop_last() =~= x + y.drop_last());
        assert((x + y).last() == y.last());
        assert(select_kind(x, c, t) + select_kind(y.drop_last(), c, t).push(y.last())
            =~= (select_kind(x, c, t) + select_kind(y.drop_last(), c, t)).push(y.last()));
    }
}

proof fn lemma_select_uniform(x: Seq<WeaponSheet>, c: WeaponCategory, t: WeaponType)
    ensures
        (forall|i: int| 0 <= i < x.len() ==> (#[trigger] x[i]).category == c && x[i].weapon_type == t)
            ==> select_kind(x, c, t) == x,
        (forall|i: int| 0 <= i < x.len() ==> !((#[trigger] x[i]).category == c && x[i].weapon_type == t))
            ==> select_kind(x, c, t) == Seq::<WeaponSheet>::empty(),
    decreases x.len(),
{
    if x.len() > 0 {
        lemma_select_uniform(x.drop_last(), c, t);
        assert(x.last() == x[x.len() - 1]);
        assert(x.drop_last().push(x.last()) =~= x);
    }
}

proof fn lemma_group_kinds()
    ensures
        forall|i: int| 0 <= i < simple_melee_table().len() ==>
            (#[trigger] simple_melee_table()[i]).category == WeaponCategory::Simple && simple_melee_table()[i].weapon_type == WeaponType::Melee,
        forall|i: int| 0 <= i < simple_ranged_table().len() ==>
            (#[trigger] simple_ranged_table()[i]).category == WeaponCategory::Simple && simple_ranged_table()[i].weapon_type == WeaponType::Ranged,
        forall|i: int| 0 <= i < martial_melee_table().len() ==>
            (#[trigger] martial_melee_table()[i]).category == WeaponCategory::Martial && martial_melee_table()[i].weapon_type == WeaponType::Melee,
        forall|i: int| 0 <= i < martial_ranged_table().len() ==>
            (#[trigger] martial_ranged_table()[i]).category == WeaponCategory::Martial && martial_ranged_table()[i].weapon_type == WeaponType::Ranged,
{
}

proof fn lemma_group_select(g: Seq<WeaponSheet>, gc: WeaponCategory, gt: WeaponType, c: WeaponCategory, t: WeaponType)
    requires
        forall|i: int| 0 <= i < g.len() ==> (#[trigger] g[i]).category == gc && g[i].weapon_type == gt,
    ensures
        select_kind(g, c, t) == if gc == c && gt == t { g } else { Seq::<WeaponSheet>::empty() },
{
    lemma_select_uniform(g, c, t);
}

/// The weapon lists by category and type are the rules' table filtered by
/// category and type.
pub proof fn law_weapon_groups(c: WeaponCategory, t: WeaponType)
    ensures
        select_kind(weapon_table(), c, t) == match (c, t) {
            (WeaponCategory::Simple, WeaponType::Melee) => simple_melee_table(),
            (WeaponCategory::Simple, WeaponType::Ranged) => simple_ranged_table(),
            (WeaponCategory::Martial, WeaponType::Melee) => martial_melee_table(),
            (WeaponCategory::Martial, WeaponType::Ranged) => martial_ranged_table(),
        },
{
    let a = simple_melee_table();
    let b = simple_ranged_table();
    let m = martial_melee_table();
    let r = martial_ranged_table();
    lemma_group_kinds();
    lemma_select_concat(a + b + m, r, c, t);
    lemma_select_concat(a + b, m, c, t);
    lemma_select_concat(a, b, c, t);
    lemma_group_select(a, WeaponCategory::Simple, WeaponType::Melee, c, t);
    lemma_group_select(b, WeaponCategory::Simple, WeaponType::Ranged, c, t);
    lemma_group_select(m, WeaponCategory::Martial, WeaponType::Melee, c, t);
    lemma_group_select(r, WeaponCategory::Martial, WeaponType::Ranged, c, t);
    let e = Seq::<WeaponSheet>::empty();
    assert(a + e =~= a);
    assert(e + b =~= b);
    assert(e + e =~= e);
    assert(b + e =~= b);
    assert(m + e =~= m);
    assert(e + m =~= m);
    assert(e + r =~= r);
}

/// Every weapon attacks with exactly one of Strength and Dexterity.
pub proof fn law_one_attack_ability(w: WeaponSheet)
    ensures
        (!w.properties.contains(WeaponProperty::Finesse) && w.weapon_type == WeaponType::Melee)
            != (w.properties.contains(WeaponProperty::Finesse) || w.weapon_type == WeaponType::Ranged),
{
}

} // verus!
