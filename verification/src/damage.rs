use vstd::prelude::*;

verus! {

/// The thirteen damage types.
#[derive(Debug, Clone, Copy, PartialEq, Eq, Hash, Structural)]
pub enum DamageType {
    Acid,
    Bludgeoning,
    Cold,
    Fire,
    Force,
    Lightning,
    Necrotic,
    Piercing,
    Poison,
    Psychic,
    Radiant,
    Slashing,
    Thunder,
}

/// An amount of damage of one type.
#[derive(Debug, Clone, Copy, PartialEq, Eq, Structural)]
pub struct Damage {
    pub amount: i32,
    pub damage_type: DamageType,
}

/// Damage dealt to a target with its resistances, vulnerabilities and
/// immunities.
#[derive(Debug, Clone)]
pub struct DamageRequest {
    pub damage: Vec<Damage>,
    pub resistances: Vec<DamageType>,
    pub vulnerabilities: Vec<DamageType>,
    pub immunities: Vec<DamageType>,
}

/// The damage before and after the target's defenses, and its total.
#[derive(Debug, Clone)]
pub struct DamageResult {
    pub original_damage: Vec<Damage>,
    pub final_damage: Vec<Damage>,
    pub total: i32,
}

/// Half of `a`, rounded toward zero.
pub open spec fn half_toward_zero(a: int) -> int {
    if a >= 0 { a / 2 } else { -((-a) / 2) }
}

/// The amount of one damage after the defenses: immunity makes it 0;
/// vulnerability and resistance together cancel; vulnerability doubles it;
/// resistance halves it, rounding toward zero.
pub open spec fn adjusted_amount(d: Damage, resist: Seq<DamageType>, vuln: Seq<DamageType>, immune: Seq<DamageType>) -> int {
    if immune.contains(d.damage_type) {
        0
    } else if vuln.contains(d.damage_type) && resist.contains(d.damage_type) {
        d.amount as int
    } else if vuln.contains(d.damage_type) {
        2 * d.amount
    } else if resist.contains(d.damage_type) {
        half_toward_zero(d.amount as int)
    } else {
        d.amount as int
    }
}

/// Sum of the adjusted amounts of the first `k` damages.
pub open spec fn adjusted_total(r: DamageRequest, k: int) -> int
    decreases k,
{
    if k <= 0 {
        0
    } else {
        adjusted_total(r, k - 1) + adjusted_amount(r.damage@[k - 1], r.resistances@, r.vulnerabilities@, r.immunities@)
    }
}

/// Every adjusted amount and every running total fits in an `i32`.
pub open spec fn damage_fits(r: DamageRequest) -> bool {
    forall|k: int| 0 <= k < r.damage@.len() ==> {
        &&& i32::MIN <= #[trigger] adjusted_amount(r.damage@[k], r.resistances@, r.vulnerabilities@, r.immunities@) <= i32::MAX
        &&& i32::MIN <= adjusted_total(r, k + 1) <= i32::MAX
    }
}

/// Whether `t` is among `types`.
pub fn has_type(types: &Vec<DamageType>, t: DamageType) -> (b: bool)
    ensures
        b == types@.contains(t),
{
    let mut i: usize = 0;
    while i < types.len()
        invariant
            i <= types@.len(),
            forall|j: int| 0 <= j < i ==> types@[j] != t,
        decreases types@.len() - i,
    {
        if types[i] == t {
            assert(types@.contains(t));
            return true;
        }
        i = i + 1;
    }
    false
}

/// Half of `a`, rounded toward zero.
pub fn halve(a: i32) -> (h: i32)
    ensures
        h == half_toward_zero(a as int),
{
    if a >= 0 {
        a / 2
    } else {
        let n: i64 = 0 - (a as i64);
        (0 - n / 2) as i32
    }
}

/// The amount of one damage after the defenses, computed wide.
fn wide_adjusted(d: Damage, request: &DamageRequest) -> (a: i64)
    ensures
        a == adjusted_amount(d, request.resistances@, request.vulnerabilities@, request.immunities@),
{
    let amount = d.amount as i64;
    if has_type(&request.immunities, d.damage_type) {
        0
    } else {
        let has_vulnerability = has_type(&request.vulnerabilities, d.damage_type);
        let has_resistance = has_type(&request.resistances, d.damage_type);
        if has_vulnerability && has_resistance {
            amount
        } else if has_vulnerability {
            2 * amount
        } else if has_resistance {
            halve(d.amount) as i64
        } else {
            amount
        }
    }
}

/// Whether every adjusted amount and every running total fits in an `i32`
/// (see `damage_fits`).
pub fn damage_in_range(request: &DamageRequest) -> (b: bool)
    ensures
        b == damage_fits(*request),
{
    let lo = i32::MIN as i64;
    let hi = i32::MAX as i64;
    let mut total: i64 = 0;
    let mut i: usize = 0;
    while i < request.damage.len()
        invariant
            i <= request.damage@.len(),
            total == adjusted_total(*request, i as int),
            lo == i32::MIN,
            hi == i32::MAX,
            lo <= total <= hi,
            forall|k: int| 0 <= k < i ==> {
                &&& i32::MIN <= #[trigger] adjusted_amount(request.damage@[k], request.resistances@, request.vulnerabilities@, request.immunities@) <= i32::MAX
                &&& i32::MIN <= adjusted_total(*request, k + 1) <= i32::MAX
            },
        decreases request.damage@.len() - i,
    {
        let a = wide_adjusted(request.damage[i], request);
        assert(adjusted_total(*request, i + 1) == total + a);
        if a < lo || a > hi {
            assert(!(i32::MIN <= adjusted_amount(request.damage@[i as int], request.resistances@, request.vulnerabilities@, request.immunities@) <= i32::MAX));
            return false;
        }
        total = total + a;
        if total < lo || total > hi {
            assert(!(i32::MIN <= adjusted_total(*request, i + 1) <= i32::MAX));
            assert(adjusted_amount(request.damage@[i as int], request.resistances@, request.vulnerabilities@, request.immunities@) == a);
            return false;
        }
        i = i + 1;
    }
    true
}

/// Applies resistances, vulnerabilities and immunities to damage.
pub struct DamageResolver;

impl Default for DamageResolver {
    fn default() -> (r: Self)
        ensures
            r == DamageResolver,
    {
        DamageResolver
    }
}

impl DamageResolver {
    /// A new one; the type holds no state.
    pub fn new() -> (r: Self)
        ensures
            r == DamageResolver,
    {
        DamageResolver
    }

    /// Adjusts each damage for the target's defenses and totals them.
    pub fn resolve(&self, request: &DamageRequest) -> (r: DamageResult)
        requires
            damage_fits(*request),
        ensures
            r.original_damage@ == request.damage@,
            r.final_damage@.len() == request.damage@.len(),
            forall|i: int| 0 <= i < r.final_damage@.len() ==> #[trigger] r.final_damage@[i] == (Damage {
                amount: adjusted_amount(request.damage@[i], request.resistances@, request.vulnerabilities@, request.immunities@) as i32,
                damage_type: request.damage@[i].damage_type,
            }),
            r.total == adjusted_total(*request, request.damage@.len() as int),
    {
        let mut final_damage: Vec<Damage> = Vec::new();
        let mut dealt: Vec<Damage> = Vec::new();
        let mut total: i32 = 0;
        let mut i: usize = 0;
        while i < request.damage.len()
            invariant
                i <= request.damage@.len(),
                damage_fits(*request),
                dealt@ == request.damage@.take(i as int),
                final_damage@.len() == i,
                forall|j: int| 0 <= j < i ==> #[trigger] final_damage@[j] == (Damage {
                    amount: adjusted_amount(request.damage@[j], request.resistances@, request.vulnerabilities@, request.immunities@) as i32,
                    damage_type: request.damage@[j].damage_type,
                }),
                total == adjusted_total(*request, i as int),
            decreases request.damage@.len() - i,
        {
            let damage = request.damage[i];
            let ghost adj = adjusted_amount(damage, request.resistances@, request.vulnerabilities@, request.immunities@);
            assert(i32::MIN <= adj <= i32::MAX);
            let mut amount = damage.amount;
            if has_type(&request.immunities, damage.damage_type) {
                amount = 0;
            } else {
                let has_vulnerability = has_type(&request.vulnerabilities, damage.damage_type);
                let has_resistance = has_type(&request.resistances, damage.damage_type);
                if has_vulnerability && has_resistance {
                } else if has_vulnerability {
                    amount = amount * 2;
                } else if has_resistance {
                    amount = halve(amount);
                }
            }
            assert(amount == adj);
            final_damage.push(Damage { amount, damage_type: damage.damage_type });
            dealt.push(damage);
            assert(i32::MIN <= adjusted_total(*request, i + 1) <= i32::MAX);
            total = total + amount;
            i = i + 1;
            assert(dealt@ == request.damage@.take(i as int));
        }
        assert(request.damage@.take(i as int) == request.damage@);
        DamageResult { original_damage: dealt, final_damage, total }
    }
}

/// Immunity always wins: an immune target takes no damage of that type,
/// whatever its other defenses.
pub proof fn law_immunity_wins(d: Damage, resist: Seq<DamageType>, vuln: Seq<DamageType>, immune: Seq<DamageType>)
    requires
        immune.contains(d.damage_type),
    ensures
        adjusted_amount(d, resist, vuln, immune) == 0,
{
}

/// For non-negative damage, resistance never raises and vulnerability never
/// lowers the amount taken.
pub proof fn law_defenses_order(d: Damage, resist: Seq<DamageType>, vuln: Seq<DamageType>, immune: Seq<DamageType>)
    requires
        d.amount >= 0,
    ensures
        0 <= adjusted_amount(d, resist, vuln, immune),
        !vuln.contains(d.damage_type) ==> adjusted_amount(d, resist, vuln, immune) <= d.amount,
        !resist.contains(d.damage_type) && !immune.contains(d.damage_type) ==> adjusted_amount(d, resist, vuln, immune) >= d.amount,
{
}

} // verus!
