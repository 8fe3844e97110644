use vstd::prelude::*;

verus! {

/// The conditions of the rules.
#[derive(Debug, Clone, Copy, PartialEq, Eq, Hash, Structural)]
pub enum ConditionType {
    Blinded,
    Charmed,
    Deafened,
    Frightened,
    Grappled,
    Incapacitated,
    Invisible,
    Paralyzed,
    Petrified,
    Poisoned,
    Prone,
    Restrained,
    Stunned,
    Unconscious,
    Exhaustion,
}

/// A moment in UTC: whole seconds since 1970-01-01 and the nanoseconds
/// past that second.
#[derive(Debug, Clone, Copy, PartialEq, Eq, Hash, Structural)]
pub struct Timestamp {
    pub seconds: i64,
    pub nanos: u32,
}

/// `a` is strictly later than `b`.
pub open spec fn is_later(a: Timestamp, b: Timestamp) -> bool {
    a.seconds > b.seconds || (a.seconds == b.seconds && a.nanos > b.nanos)
}

/// Whether `a` is strictly later than `b`.
pub fn later(a: Timestamp, b: Timestamp) -> (r: bool)
    ensures
        r == is_later(a, b),
{
    a.seconds > b.seconds || (a.seconds == b.seconds && a.nanos > b.nanos)
}

/// A moment the clock can report: not before 1970 and inside the range of
/// dates `chrono` represents.
pub open spec fn clock_reading(t: Timestamp) -> bool {
    0 <= t.seconds < 0x1000_0000_0000 && t.nanos < 1_000_000_000
}

/// Calls `chrono::Utc::now`.  The reading comes from the system clock, so
/// only its range is stated: `Utc::now` measures the time since the Unix
/// epoch (it panics before it) and builds a `DateTime`, whose years stop
/// before 262143, with nanoseconds below one second.
#[verifier::external_body]
fn clock_now() -> (t: Timestamp)
    ensures
        clock_reading(t),
{
    let now = chrono::Utc::now();
    Timestamp { seconds: now.timestamp(), nanos: now.timestamp_subsec_nanos() }
}

/// A condition on a creature.
#[derive(Debug, Clone, Copy, PartialEq, Eq, Structural)]
pub struct Condition {
    pub condition_type: ConditionType,
    pub applied_at: Timestamp,
    pub expires_at: Option<Timestamp>,
    pub duration_rounds: Option<u32>,
    pub permanent: bool,
}

/// A request to apply a condition.
#[derive(Debug, Clone, Copy, PartialEq, Eq, Structural)]
pub struct ConditionApplication {
    pub condition_type: ConditionType,
    pub duration_rounds: Option<u32>,
    pub permanent: bool,
}

/// A round lasts six seconds.
pub open spec fn expiry(application: ConditionApplication, now: Timestamp) -> Option<Timestamp> {
    if application.permanent {
        None
    } else {
        match application.duration_rounds {
            None => None,
            Some(r) => Some(Timestamp { seconds: (now.seconds + 6 * r) as i64, nanos: now.nanos }),
        }
    }
}

/// The condition an application made at `now` puts on the creature.
pub open spec fn condition_made(application: ConditionApplication, now: Timestamp) -> Condition {
    Condition {
        condition_type: application.condition_type,
        applied_at: now,
        expires_at: expiry(application, now),
        duration_rounds: application.duration_rounds,
        permanent: application.permanent,
    }
}

/// The conditions other than those of type `t`, in order.
pub open spec fn without_type(cs: Seq<Condition>, t: ConditionType) -> Seq<Condition>
    decreases cs.len(),
{
    if cs.len() == 0 {
        Seq::empty()
    } else if cs.last().condition_type == t {
        without_type(cs.drop_last(), t)
    } else {
        without_type(cs.drop_last(), t).push(cs.last())
    }
}

/// A condition still holds at `now`: it is permanent, has no end, or ends
/// later.
pub open spec fn still_holds(c: Condition, now: Timestamp) -> bool {
    c.permanent || match c.expires_at {
        None => true,
        Some(e) => is_later(e, now),
    }
}

/// The conditions that still hold at `now`, in order.
pub open spec fn holding_at(cs: Seq<Condition>, now: Timestamp) -> Seq<Condition>
    decreases cs.len(),
{
    if cs.len() == 0 {
        Seq::empty()
    } else if still_holds(cs.last(), now) {
        holding_at(cs.drop_last(), now).push(cs.last())
    } else {
        holding_at(cs.drop_last(), now)
    }
}

/// Some condition has type `t`.
pub open spec fn has_type(cs: Seq<Condition>, t: ConditionType) -> bool {
    exists|i: int| 0 <= i < cs.len() && (#[trigger] cs[i]).condition_type == t
}

/// No type occurs twice.
pub open spec fn types_distinct(cs: Seq<Condition>) -> bool {
    forall|i: int, j: int| 0 <= i < j < cs.len() ==> (#[trigger] cs[i]).condition_type != (#[trigger] cs[j]).condition_type
}

proof fn lemma_without_type(cs: Seq<Condition>, t: ConditionType)
    ensures
        !has_type(without_type(cs, t), t),
        forall|c: Condition| #[trigger] without_type(cs, t).contains(c) ==> cs.contains(c),
        forall|u: ConditionType| u != t ==> (has_type(without_type(cs, t), u) == has_type(cs, u)),
        types_distinct(cs) ==> types_distinct(without_type(cs, t)),
    decreases cs.len(),
{
    if cs.len() > 0 {
        let rest = cs.drop_last();
        lemma_without_type(rest, t);
        let w = without_type(cs, t);
        assert forall|c: Condition| #[trigger] w.contains(c) implies cs.contains(c) by {
            let k = choose|k: int| 0 <= k < w.len() && w[k] == c;
            if cs.last().condition_type != t && k == w.len() - 1 {
                assert(cs[cs.len() - 1] == c);
            } else {
                assert(without_type(rest, t).contains(c));
                let m = choose|m: int| 0 <= m < rest.len() && rest[m] == c;
                assert(cs[m] == c);
            }
        }
        assert forall|u: ConditionType| u != t implies (has_type(w, u) == has_type(cs, u)) by {
            if has_type(cs, u) {
                let i = choose|i: int| 0 <= i < cs.len() && (#[trigger] cs[i]).condition_type == u;
                if i == cs.len() - 1 {
                    assert(w[w.len() - 1] == cs.last());
                } else {
                    assert(rest[i] == cs[i]);
                    assert(has_type(rest, u));
                    let j = choose|j: int| 0 <= j < without_type(rest, t).len() && (#[trigger] without_type(rest, t)[j]).condition_type == u;
                    assert(w[j] == without_type(rest, t)[j]);
                }
            }
            if has_type(w, u) {
                let j = choose|j: int| 0 <= j < w.len() && (#[trigger] w[j]).condition_type == u;
                assert(w.contains(w[j]));
                let k = choose|k: int| 0 <= k < cs.len() && cs[k] == w[j];
                assert(cs[k].condition_type == u);
            }
        }
        if types_distinct(cs) {
            assert(types_distinct(rest));
            if cs.last().condition_type != t {
                assert forall|i: int| 0 <= i < w.len() - 1 implies (#[trigger] w[i]).condition_type != cs.last().condition_type by {
                    assert(without_type(rest, t).contains(w[i]));
                    let k = choose|k: int| 0 <= k < rest.len() && rest[k] == w[i];
                    assert(cs[k] == rest[k]);
                }
            }
        }
        assert(!has_type(w, t)) by {
            if has_type(w, t) {
                let j = choose|j: int| 0 <= j < w.len() && (#[trigger] w[j]).condition_type == t;
                if cs.last().condition_type != t && j == w.len() - 1 {
                } else {
                    assert(without_type(rest, t)[j] == w[j]);
                }
            }
        }
    }
}

proof fn lemma_holding_at(cs: Seq<Condition>, now: Timestamp)
    ensures
        forall|c: Condition| #[trigger] holding_at(cs, now).contains(c) ==> cs.contains(c),
        forall|c: Condition| cs.contains(c) && still_holds(c, now) ==> #[trigger] holding_at(cs, now).contains(c),
        types_distinct(cs) ==> types_distinct(holding_at(cs, now)),
    decreases cs.len(),
{
    if cs.len() > 0 {
        let rest = cs.drop_last();
        lemma_holding_at(rest, now);
        let h = holding_at(cs, now);
        assert forall|c: Condition| #[trigger] h.contains(c) implies cs.contains(c) by {
            let k = choose|k: int| 0 <= k < h.len() && h[k] == c;
            if still_holds(cs.last(), now) && k == h.len() - 1 {
                assert(cs[cs.len() - 1] == c);
            } else {
                assert(holding_at(rest, now).contains(c));
                let m = choose|m: int| 0 <= m < rest.len() && rest[m] == c;
                assert(cs[m] == c);
            }
        }
        assert forall|c: Condition| cs.contains(c) && still_holds(c, now) implies #[trigger] h.contains(c) by {
            let k = choose|k: int| 0 <= k < cs.len() && cs[k] == c;
            if k == cs.len() - 1 {
                assert(h[h.len() - 1] == c);
            } else {
                assert(rest[k] == c);
                assert(holding_at(rest, now).contains(c));
                let m = choose|m: int| 0 <= m < holding_at(rest, now).len() && holding_at(rest, now)[m] == c;
                assert(h[m] == c);
            }
        }
        if types_distinct(cs) {
            assert(types_distinct(rest));
            if still_holds(cs.last(), now) {
                assert forall|i: int| 0 <= i < h.len() - 1 implies (#[trigger] h[i]).condition_type != cs.last().condition_type by {
                    assert(holding_at(rest, now).contains(h[i]));
                    let k = choose|k: int| 0 <= k < rest.len() && rest[k] == h[i];
                    assert(cs[k] == rest[k]);
                }
            }
        }
    }
}

/// The conditions on one creature, at most one of each type.
pub struct ConditionManager {
    conditions: Vec<Condition>,
}

impl View for ConditionManager {
    type V = Seq<Condition>;

    /// The conditions in the order they were applied.
    closed spec fn view(&self) -> Seq<Condition> {
        self.conditions@
    }
}

/// The conditions of `cs` other than those of type `t`, in order.
fn drop_type(cs: &Vec<Condition>, t: ConditionType) -> (r: Vec<Condition>)
    ensures
        r@ == without_type(cs@, t),
{
    let mut out: Vec<Condition> = Vec::new();
    let mut i: usize = 0;
    while i < cs.len()
        invariant
            i <= cs@.len(),
            out@ == without_type(cs@.take(i as int), t),
        decreases cs@.len() - i,
    {
        assert(cs@.take(i + 1).drop_last() == cs@.take(i as int));
        assert(cs@.take(i + 1).last() == cs@[i as int]);
        let c = cs[i];
        if c.condition_type != t {
            out.push(c);
        }
        i = i + 1;
    }
    assert(cs@.take(cs@.len() as int) == cs@);
    out
}

impl ConditionManager {
    /// No conditions.
    pub fn new() -> (m: Self)
        ensures
            m@.len() == 0,
    {
        ConditionManager { conditions: Vec::new() }
    }

    /// Applies a condition at the moment `now`: a condition of the same type
    /// is replaced, and the new one comes last.  A permanent condition, or
    /// one without a duration, never ends; otherwise it ends six seconds a
    /// round later.
    pub fn apply_at(&mut self, application: &ConditionApplication, now: Timestamp)
        requires
            clock_reading(now),
        ensures
            final(self)@ == without_type(old(self)@, application.condition_type).push(condition_made(*application, now)),
    {
        let expires_at = if application.permanent {
            None
        } else {
            match application.duration_rounds {
                None => None,
                Some(rounds) => Some(Timestamp { seconds: now.seconds + 6 * (rounds as i64), nanos: now.nanos }),
            }
        };
        let condition = Condition {
            condition_type: application.condition_type,
            applied_at: now,
            expires_at,
            duration_rounds: application.duration_rounds,
            permanent: application.permanent,
        };
        let mut kept = drop_type(&self.conditions, application.condition_type);
        kept.push(condition);
        self.conditions = kept;
    }

    /// Applies a condition now (see `apply_at`).
    pub fn apply(&mut self, application: &ConditionApplication)
        ensures
            exists|now: Timestamp| clock_reading(now) && final(self)@ == #[trigger] without_type(old(self)@, application.condition_type).push(
                condition_made(*application, now)),
    {
        let now = clock_now();
        self.apply_at(application, now);
    }

    /// Removes the condition of type `condition_type`, if any.
    pub fn remove(&mut self, condition_type: ConditionType)
        ensures
            final(self)@ == without_type(old(self)@, condition_type),
    {
        let kept = drop_type(&self.conditions, condition_type);
        self.conditions = kept;
    }

    /// Whether a condition of the type is on the creature.
    pub fn has(&self, condition_type: ConditionType) -> (b: bool)
        ensures
            b == has_type(self@, condition_type),
    {
        let mut i: usize = 0;
        while i < self.conditions.len()
            invariant
                i <= self.conditions@.len(),
                forall|j: int| 0 <= j < i ==> (#[trigger] self.conditions@[j]).condition_type != condition_type,
            decreases self.conditions@.len() - i,
        {
            if self.conditions[i].condition_type == condition_type {
                return true;
            }
            i = i + 1;
        }
        false
    }

    /// The conditions in the order they were applied.
    pub fn get_all(&self) -> (r: &[Condition])
        ensures
            r@ == self@,
    {
        self.conditions.as_slice()
    }

    /// Drops the conditions that have ended by `now`.
    pub fn expire_at(&mut self, now: Timestamp)
        ensures
            final(self)@ == holding_at(old(self)@, now),
    {
        let mut out: Vec<Condition> = Vec::new();
        let mut i: usize = 0;
        while i < self.conditions.len()
            invariant
                i <= self.conditions@.len(),
                self.conditions@ == old(self)@,
                out@ == holding_at(self.conditions@.take(i as int), now),
            decreases self.conditions@.len() - i,
        {
            assert(self.conditions@.take(i + 1).drop_last() == self.conditions@.take(i as int));
            assert(self.conditions@.take(i + 1).last() == self.conditions@[i as int]);
            let c = self.conditions[i];
            let keep = if c.permanent {
                true
            } else {
                match c.expires_at {
                    None => true,
                    Some(e) => later(e, now),
                }
            };
            if keep {
                out.push(c);
            }
            i = i + 1;
        }
        assert(self.conditions@.take(self.conditions@.len() as int) == self.conditions@);
        self.conditions = out;
    }

    /// Drops the conditions that have ended by now (see `expire_at`).
    pub fn expire_conditions(&mut self)
        ensures
            exists|now: Timestamp| clock_reading(now) && final(self)@ == #[trigger] holding_at(old(self)@, now),
    {
        let now = clock_now();
        self.expire_at(now);
    }

    /// Removes every condition.
    pub fn clear(&mut self)
        ensures
            final(self)@.len() == 0,
    {
        self.conditions.clear();
    }
}

impl Default for ConditionManager {
    fn default() -> (m: Self)
        ensures
            m@.len() == 0,
    {
        Self::new()
    }
}

/// After applying a condition the creature has it, exactly once, as made by
/// the application; the other types are as they were; and no type ever
/// occurs twice.
pub proof fn law_apply_replaces(cs: Seq<Condition>, application: ConditionApplication, now: Timestamp, other: ConditionType)
    requires
        types_distinct(cs),
    ensures
        ({
            let after = without_type(cs, application.condition_type).push(condition_made(application, now));
            &&& has_type(after, application.condition_type)
            &&& types_distinct(after)
            &&& forall|i: int| 0 <= i < after.len() && (#[trigger] after[i]).condition_type == application.condition_type
                ==> after[i] == condition_made(application, now)
            &&& other != application.condition_type ==> has_type(after, other) == has_type(cs, other)
        }),
{
    let w = without_type(cs, application.condition_type);
    let after = w.push(condition_made(application, now));
    lemma_without_type(cs, application.condition_type);
    assert(after[after.len() - 1].condition_type == application.condition_type);
    assert forall|i: int| 0 <= i < after.len() && (#[trigger] after[i]).condition_type == application.condition_type
        implies after[i] == condition_made(application, now) by {
        if i < w.len() {
            assert(w[i] == after[i]);
        }
    }
    assert forall|i: int, j: int| 0 <= i < j < after.len() implies (#[trigger] after[i]).condition_type != (#[trigger] after[j]).condition_type by {
        if j == after.len() - 1 {
            assert(w[i] == after[i]);
        } else {
            assert(w[i] == after[i] && w[j] == after[j]);
        }
    }
    if other != application.condition_type {
        if has_type(after, other) {
            let i = choose|i: int| 0 <= i < after.len() && (#[trigger] after[i]).condition_type == other;
            assert(w[i] == after[i]);
        }
        if has_type(w, other) {
            let i = choose|i: int| 0 <= i < w.len() && (#[trigger] w[i]).condition_type == other;
            assert(after[i] == w[i]);
        }
    }
}

/// After removing a type the creature no longer has it, other types are
/// untouched, and no type occurs twice.
pub proof fn law_remove(cs: Seq<Condition>, t: ConditionType, other: ConditionType)
    ensures
        !has_type(without_type(cs, t), t),
        other != t ==> has_type(without_type(cs, t), other) == has_type(cs, other),
        types_distinct(cs) ==> types_distinct(without_type(cs, t)),
{
    lemma_without_type(cs, t);
}

/// Expiring keeps every condition that still holds, in particular every
/// permanent one, drops the others, and keeps types distinct.
pub proof fn law_expire(cs: Seq<Condition>, now: Timestamp, c: Condition)
    ensures
        cs.contains(c) && (c.permanent || still_holds(c, now)) ==> holding_at(cs, now).contains(c),
        holding_at(cs, now).contains(c) ==> cs.contains(c) && still_holds(c, now),
        types_distinct(cs) ==> types_distinct(holding_at(cs, now)),
{
    lemma_holding_at(cs, now);
    if holding_at(cs, now).contains(c) {
        lemma_holding_kept(cs, now, c);
    }
}

proof fn lemma_holding_kept(cs: Seq<Condition>, now: Timestamp, c: Condition)
    requires
        holding_at(cs, now).contains(c),
    ensures
        still_holds(c, now),
    decreases cs.len(),
{
    let rest = cs.drop_last();
    let h = holding_at(cs, now);
    let k = choose|k: int| 0 <= k < h.len() && h[k] == c;
    if still_holds(cs.last(), now) && k == h.len() - 1 {
    } else {
        assert(holding_at(rest, now)[k] == c);
        assert(holding_at(rest, now).contains(c));
        lemma_holding_kept(rest, now, c);
    }
}

} // verus!
