use vstd::prelude::*;
use std::collections::VecDeque;
use crate::text::same_text;

verus! {

/// How often each interjection was used.
#[derive(Debug, Clone)]
pub struct UseCounts {
    entries: Vec<(String, usize)>,
}

/// The count of `id` in the entries: that of its first entry, 0 without one.
pub open spec fn count_in(entries: Seq<(Seq<char>, usize)>, id: Seq<char>) -> nat
    decreases entries.len(),
{
    if entries.len() == 0 {
        0
    } else if entries[0].0 == id {
        entries[0].1 as nat
    } else {
        count_in(entries.drop_first(), id)
    }
}

/// The entries after one more use of `id`.
pub open spec fn bumped(entries: Seq<(Seq<char>, usize)>, id: Seq<char>) -> Seq<(Seq<char>, usize)>
    decreases entries.len(),
{
    if entries.len() == 0 {
        seq![(id, 1usize)]
    } else if entries[0].0 == id {
        entries.update(0, (id, (entries[0].1 + 1) as usize))
    } else {
        seq![entries[0]] + bumped(entries.drop_first(), id)
    }
}

impl View for UseCounts {
    type V = Seq<(Seq<char>, usize)>;

    /// One entry per interjection used, in order of first use.
    closed spec fn view(&self) -> Seq<(Seq<char>, usize)> {
        self.entries@.map_values(|e: (String, usize)| (e.0@, e.1))
    }
}

/// One more use of an interjection adds one to its count and leaves every
/// other count as it was.
pub proof fn law_use_counted(entries: Seq<(Seq<char>, usize)>, id: Seq<char>, other: Seq<char>)
    requires
        count_in(entries, id) < usize::MAX,
    ensures
        count_in(bumped(entries, id), id) == count_in(entries, id) + 1,
        other != id ==> count_in(bumped(entries, id), other) == count_in(entries, other),
    decreases entries.len(),
{
    let b = bumped(entries, id);
    if entries.len() == 0 {
        assert(b.drop_first() =~= Seq::<(Seq<char>, usize)>::empty());
        assert(count_in(b.drop_first(), other) == 0);
        if other != id {
            assert(b[0].0 != other);
            assert(count_in(b, other) == count_in(b.drop_first(), other));
        }
    } else if entries[0].0 == id {
        assert(b.drop_first() =~= entries.drop_first());
        assert(b[0] == (id, (entries[0].1 + 1) as usize));
        if other != id {
            assert(count_in(b, other) == count_in(b.drop_first(), other));
        }
    } else {
        law_use_counted(entries.drop_first(), id, other);
        assert(b.drop_first() =~= bumped(entries.drop_first(), id));
        assert(b[0] == entries[0]);
        if other != id {
            assert(count_in(b, other) == count_in(entries, other));
        }
    }
}

impl UseCounts {
    pub fn new() -> (c: Self)
        ensures
            c@.len() == 0,
    {
        UseCounts { entries: Vec::new() }
    }

    /// Number of interjections used at least once.
    pub fn len(&self) -> (n: usize)
        ensures
            n == self@.len(),
    {
        self.entries.len()
    }

    /// How often `id` was used, if at all.
    pub fn get(&self, id: &str) -> (r: Option<&usize>)
        ensures
            count_in(self@, id@) == 0 ==> r is None,
            count_in(self@, id@) > 0 ==> r == Some(&(count_in(self@, id@) as usize)),
    {
        let mut i: usize = 0;
        assert(self@.skip(0) =~= self@);
        while i < self.entries.len()
            invariant
                i <= self.entries@.len(),
                forall|j: int| 0 <= j < i ==> (#[trigger] self.entries@[j]).0@ != id@,
                count_in(self@, id@) == count_in(self@.skip(i as int), id@),
            decreases self.entries@.len() - i,
        {
            assert(self@.skip(i as int).drop_first() =~= self@.skip(i + 1));
            assert(self@.skip(i as int)[0] == self@[i as int]);
            if same_text(self.entries[i].0.as_str(), id) {
                if self.entries[i].1 == 0 {
                    return None;
                }
                return Some(&self.entries[i].1);
            }
            i = i + 1;
        }
        None
    }

    /// Counts one more use of `id`.
    fn bump(&mut self, id: &str)
        requires
            count_in(old(self)@, id@) < usize::MAX,
        ensures
            final(self)@ == bumped(old(self)@, id@),
    {
        let mut i: usize = 0;
        while i < self.entries.len()
            invariant
                i <= self.entries@.len(),
                self.entries@ == old(self).entries@,
                count_in(old(self)@, id@) < usize::MAX,
                forall|j: int| 0 <= j < i ==> (#[trigger] self.entries@[j]).0@ != id@,
            decreases self.entries@.len() - i,
        {
            if same_text(self.entries[i].0.as_str(), id) {
                proof { lemma_bumped_at(old(self)@, id@, i as int); }
                let (name, n) = self.entries.remove(i);
                let ghost before = self.entries@;
                self.entries.insert(i, (name, n + 1));
                assert(self@ =~= bumped(old(self)@, id@));
                return;
            }
            i = i + 1;
        }
        proof { lemma_bumped_absent(old(self)@, id@); }
        self.entries.push((String::from_str(id), 1));
        assert(self@ =~= bumped(old(self)@, id@));
    }
}

proof fn lemma_bumped_at(entries: Seq<(Seq<char>, usize)>, id: Seq<char>, i: int)
    requires
        0 <= i < entries.len(),
        entries[i].0 == id,
        forall|j: int| 0 <= j < i ==> (#[trigger] entries[j]).0 != id,
    ensures
        count_in(entries, id) == entries[i].1,
        bumped(entries, id) == entries.update(i, (id, (entries[i].1 + 1) as usize)),
    decreases i,
{
    if i > 0 {
        assert forall|j: int| 0 <= j < i - 1 implies (#[trigger] entries.drop_first()[j]).0 != id by {
            assert(entries.drop_first()[j] == entries[j + 1]);
        }
        lemma_bumped_at(entries.drop_first(), id, i - 1);
        assert(seq![entries[0]] + entries.drop_first().update(i - 1, (id, (entries[i].1 + 1) as usize))
            =~= entries.update(i, (id, (entries[i].1 + 1) as usize)));
    }
}

proof fn lemma_bumped_absent(entries: Seq<(Seq<char>, usize)>, id: Seq<char>)
    requires
        forall|j: int| 0 <= j < entries.len() ==> (#[trigger] entries[j]).0 != id,
    ensures
        count_in(entries, id) == 0,
        bumped(entries, id) == entries.push((id, 1usize)),
    decreases entries.len(),
{
    if entries.len() > 0 {
        assert forall|j: int| 0 <= j < entries.len() - 1 implies (#[trigger] entries.drop_first()[j]).0 != id by {
            assert(entries.drop_first()[j] == entries[j + 1]);
        }
        lemma_bumped_absent(entries.drop_first(), id);
        assert(seq![entries[0]] + entries.drop_first().push((id, 1usize)) =~= entries.push((id, 1usize)));
    }
}

/// The recent list after `id` is used: with a window of 0 nothing is
/// remembered; otherwise the oldest entry leaves when the list holds
/// `limit` or more, then `id` joins at the end.
pub open spec fn recent_after(recent: Seq<Seq<char>>, limit: nat, id: Seq<char>) -> Seq<Seq<char>> {
    if limit == 0 {
        recent
    } else {
        (if recent.len() >= limit { recent.drop_first() } else { recent }).push(id)
    }
}

/// The recent list after the uses `ids`, in order, starting from none.
pub open spec fn recent_after_all(ids: Seq<Seq<char>>, limit: nat) -> Seq<Seq<char>>
    decreases ids.len(),
{
    if ids.len() == 0 {
        Seq::empty()
    } else {
        recent_after(recent_after_all(ids.drop_last(), limit), limit, ids.last())
    }
}

/// The texts of a list of strings.
pub open spec fn id_texts(v: Seq<String>) -> Seq<Seq<char>> {
    v.map_values(|s: String| s@)
}

/// The available interjections not used recently, in order.
pub open spec fn fresh_ids(available: Seq<Seq<char>>, recent: Seq<Seq<char>>) -> Seq<Seq<char>>
    decreases available.len(),
{
    if available.len() == 0 {
        Seq::empty()
    } else if recent.contains(available.last()) {
        fresh_ids(available.drop_last(), recent)
    } else {
        fresh_ids(available.drop_last(), recent).push(available.last())
    }
}

/// The candidates for the next interjection: the available ones not used
/// recently, or all available ones when every one was.
pub open spec fn candidate_ids(available: Seq<Seq<char>>, recent: Seq<Seq<char>>) -> Seq<Seq<char>> {
    let fresh = fresh_ids(available, recent);
    if fresh.len() == 0 { available } else { fresh }
}

proof fn lemma_fresh_ids(available: Seq<Seq<char>>, recent: Seq<Seq<char>>)
    ensures
        forall|k: int| 0 <= k < fresh_ids(available, recent).len() ==>
            available.contains(#[trigger] fresh_ids(available, recent)[k])
            && !recent.contains(fresh_ids(available, recent)[k]),
        forall|k: int| 0 <= k < available.len() && !recent.contains(#[trigger] available[k]) ==>
            fresh_ids(available, recent).len() > 0,
    decreases available.len(),
{
    if available.len() > 0 {
        let rest = available.drop_last();
        lemma_fresh_ids(rest, recent);
        let f = fresh_ids(available, recent);
        assert forall|k: int| 0 <= k < f.len() implies available.contains(#[trigger] f[k]) && !recent.contains(f[k]) by {
            if !recent.contains(available.last()) && k == f.len() - 1 {
                assert(available[available.len() - 1] == f[k]);
            } else {
                assert(f[k] == fresh_ids(rest, recent)[k]);
                assert(rest.contains(f[k]));
                let j = choose|j: int| 0 <= j < rest.len() && rest[j] == f[k];
                assert(available[j] == f[k]);
            }
        }
        assert forall|k: int| 0 <= k < available.len() && !recent.contains(#[trigger] available[k]) implies
            fresh_ids(available, recent).len() > 0 by {
            if k < available.len() - 1 {
                assert(rest[k] == available[k]);
            }
        }
    }
}

/// Calls `rand::thread_rng().gen_range(0..len)`: a random index below
/// `len`, from a generator seeded by the operating system, so only its
/// range is stated.
#[verifier::external_body]
fn random_index(len: usize) -> (i: usize)
    requires
        len > 0,
    ensures
        i < len,
{
    rand::Rng::gen_range(&mut rand::thread_rng(), 0..len)
}

/// Which interjections were used, and how often.
#[derive(Debug, Clone)]
pub struct InterjectionState {
    /// The most recent interjections, oldest first.
    pub recent_ids: VecDeque<String>,
    /// Uses per interjection.
    pub use_counts: UseCounts,
    total_uses: usize,
    avoid_last_n: usize,
}

impl InterjectionState {
    /// The recent interjections, oldest first.
    pub closed spec fn recent(&self) -> Seq<Seq<char>> {
        self.recent_ids@.map_values(|s: String| s@)
    }

    /// Uses per interjection.
    pub closed spec fn counts(&self) -> Seq<(Seq<char>, usize)> {
        self.use_counts@
    }

    /// Uses in the session.
    pub closed spec fn uses(&self) -> nat {
        self.total_uses as nat
    }

    /// How many recent interjections are avoided.
    pub closed spec fn window(&self) -> nat {
        self.avoid_last_n as nat
    }

    /// A fresh state that avoids the last `avoid_last_n` interjections.
    pub fn new(avoid_last_n: usize) -> (s: Self)
        ensures
            s.recent().len() == 0,
            s.counts().len() == 0,
            s.uses() == 0,
            s.window() == avoid_last_n,
    {
        InterjectionState {
            recent_ids: VecDeque::with_capacity(avoid_last_n),
            use_counts: UseCounts::new(),
            total_uses: 0,
            avoid_last_n,
        }
    }

    /// Records a use of `id`: it becomes the most recent, its count and the
    /// session's grow by one.
    pub fn record_use(&mut self, id: &str)
        requires
            old(self).uses() < usize::MAX,
            count_in(old(self).counts(), id@) < usize::MAX,
        ensures
            final(self).recent() == recent_after(old(self).recent(), old(self).window(), id@),
            final(self).counts() == bumped(old(self).counts(), id@),
            final(self).uses() == old(self).uses() + 1,
            final(self).window() == old(self).window(),
    {
        let ghost before = self.recent();
        if self.avoid_last_n > 0 {
            if self.recent_ids.len() >= self.avoid_last_n {
                let _ = self.recent_ids.pop_front();
                assert(self.recent() =~= before.drop_first());
            }
            let ghost mid = self.recent();
            self.recent_ids.push_back(String::from_str(id));
            assert(self.recent() =~= mid.push(id@));
        }
        self.use_counts.bump(id);
        self.total_uses = self.total_uses + 1;
    }

    /// Uses in the session.
    pub fn total_uses(&self) -> (n: usize)
        ensures
            n == self.uses(),
    {
        self.total_uses
    }

    /// Whether the session used `max_uses` or more interjections.
    pub fn has_reached_max_uses(&self, max_uses: usize) -> (b: bool)
        ensures
            b == (self.uses() >= max_uses),
    {
        self.total_uses >= max_uses
    }

    /// Whether `id` is among the recent interjections.
    fn is_recent(&self, id: &str) -> (b: bool)
        ensures
            b == self.recent().contains(id@),
    {
        let mut i: usize = 0;
        while i < self.recent_ids.len()
            invariant
                i <= self.recent_ids@.len(),
                forall|j: int| 0 <= j < i ==> (#[trigger] self.recent()[j]) != id@,
            decreases self.recent_ids@.len() - i,
        {
            if same_text(self.recent_ids[i].as_str(), id) {
                assert(self.recent()[i as int] == id@);
                return true;
            }
            i = i + 1;
        }
        false
    }

    /// The interjections the next choice is made from (see
    /// `candidate_ids`).
    pub fn candidates(&self, available_ids: &[String]) -> (v: Vec<String>)
        ensures
            id_texts(v@) == candidate_ids(id_texts(available_ids@), self.recent()),
    {
        let ghost all = id_texts(available_ids@);
        let mut fresh: Vec<String> = Vec::new();
        let mut i: usize = 0;
        while i < available_ids.len()
            invariant
                i <= available_ids@.len(),
                all == id_texts(available_ids@),
                id_texts(fresh@) == fresh_ids(all.take(i as int), self.recent()),
            decreases available_ids@.len() - i,
        {
            let ghost before = fresh@;
            assert(all.take(i + 1).drop_last() =~= all.take(i as int));
            assert(all.take(i + 1).last() == available_ids@[i as int]@);
            let id = &available_ids[i];
            if !self.is_recent(id.as_str()) {
                fresh.push(id.clone());
                assert(id_texts(fresh@) =~= id_texts(before).push(id@));
            }
            i = i + 1;
        }
        assert(all.take(all.len() as int) =~= all);
        if fresh.len() == 0 {
            let mut every: Vec<String> = Vec::new();
            let mut k: usize = 0;
            while k < available_ids.len()
                invariant
                    k <= available_ids@.len(),
                    id_texts(every@) == all.take(k as int),
                    all == id_texts(available_ids@),
                decreases available_ids@.len() - k,
            {
                let ghost before = every@;
                every.push(available_ids[k].clone());
                assert(id_texts(every@) =~= id_texts(before).push(available_ids@[k as int]@));
                assert(all.take(k + 1) =~= all.take(k as int).push(all[k as int]));
                k = k + 1;
                assert(id_texts(every@) =~= all.take(k as int));
            }
            return every;
        }
        fresh
    }

    /// Picks an interjection at random among the candidates and records its
    /// use; none when nothing is available.
    pub fn select_interjection(&mut self, available_ids: &[String]) -> (r: Option<String>)
        requires
            old(self).uses() < usize::MAX,
            forall|i: int| 0 <= i < available_ids@.len() ==>
                count_in(old(self).counts(), (#[trigger] available_ids@[i])@) < usize::MAX,
        ensures
            available_ids@.len() == 0 ==> r is None && *final(self) == *old(self),
            available_ids@.len() > 0 ==> (r matches Some(id) && candidate_ids(id_texts(available_ids@), old(self).recent()).contains(id@)
                && final(self).recent() == recent_after(old(self).recent(), old(self).window(), id@)
                && final(self).counts() == bumped(old(self).counts(), id@)
                && final(self).uses() == old(self).uses() + 1
                && final(self).window() == old(self).window()),
    {
        if available_ids.len() == 0 {
            return None;
        }
        let candidates = self.candidates(available_ids);
        proof {
            let all = id_texts(available_ids@);
            lemma_fresh_ids(all, self.recent());
            assert forall|k: int| 0 <= k < candidates@.len() implies
                count_in(self.counts(), (#[trigger] candidates@[k])@) < usize::MAX by {
                let c = candidate_ids(all, self.recent());
                assert(id_texts(candidates@)[k] == c[k]);
                if fresh_ids(all, self.recent()).len() > 0 {
                    assert(all.contains(c[k]));
                } else {
                    assert(all[k] == c[k]);
                }
                let j = choose|j: int| 0 <= j < all.len() && all[j] == c[k];
                assert(all[j] == available_ids@[j]@);
            }
        }
        let pick = random_index(candidates.len());
        let selected = candidates[pick].clone();
        assert(id_texts(candidates@)[pick as int] == selected@);
        self.record_use(selected.as_str());
        Some(selected)
    }
}

/// The recent list never holds more than the window, and the interjection
/// just used is the most recent unless the window is 0, when nothing is
/// remembered.
pub proof fn law_recent_window(recent: Seq<Seq<char>>, limit: nat, id: Seq<char>)
    requires
        recent.len() <= limit,
    ensures
        recent_after(recent, limit, id).len() <= limit,
        limit > 0 ==> recent_after(recent, limit, id).last() == id,
        limit == 0 ==> recent_after(recent, limit, id) == recent,
{
}

/// After any uses from a fresh state, the recent list is the last
/// `min(uses, limit)` interjections used, oldest first; with a window of 0
/// it is empty.
pub proof fn law_recent_is_last_uses(ids: Seq<Seq<char>>, limit: nat)
    ensures
        recent_after_all(ids, limit) == ids.skip(ids.len() - (if ids.len() < limit { ids.len() } else { limit })),
    decreases ids.len(),
{
    if ids.len() > 0 {
        let d = ids.drop_last();
        law_recent_is_last_uses(d, limit);
        let r = recent_after_all(d, limit);
        let k = if ids.len() < limit { ids.len() as int } else { limit as int };
        if limit == 0 {
            assert(r =~= Seq::<Seq<char>>::empty());
            assert(ids.skip(ids.len() as int) =~= Seq::<Seq<char>>::empty());
        } else if d.len() >= limit {
            assert(r.len() == limit);
            assert(r.drop_first().push(ids.last()) =~= ids.skip(ids.len() - k));
        } else {
            assert(r =~= d);
            assert(d.push(ids.last()) =~= ids);
            assert(ids.skip(0) =~= ids);
        }
    } else {
        assert(ids.skip(0) =~= ids);
    }
}

/// When some available interjection was not used recently, the choice
/// avoids every recent one; it is always one of the available ones.
pub proof fn law_selection_avoids_recent(available: Seq<Seq<char>>, recent: Seq<Seq<char>>, c: Seq<char>)
    requires
        candidate_ids(available, recent).contains(c),
    ensures
        available.contains(c),
        (exists|k: int| 0 <= k < available.len() && !recent.contains(#[trigger] available[k])) ==> !recent.contains(c),
{
    lemma_fresh_ids(available, recent);
    let cs = candidate_ids(available, recent);
    let j = choose|j: int| 0 <= j < cs.len() && cs[j] == c;
    if fresh_ids(available, recent).len() > 0 {
        assert(available.contains(cs[j]));
    } else {
        assert(available[j] == c);
    }
}

/// An interjection clip as the choice sees it: its id, and whether its
/// duration is known (only such clips are offered).
#[derive(Debug, Clone)]
pub struct ClipEntry {
    pub id: String,
    pub has_duration: bool,
}

/// The ids of the clips whose duration is known, in order.
pub open spec fn timed_ids(clips: Seq<ClipEntry>) -> Seq<Seq<char>>
    decreases clips.len(),
{
    if clips.len() == 0 {
        Seq::empty()
    } else if clips.last().has_duration {
        timed_ids(clips.drop_last()).push(clips.last().id@)
    } else {
        timed_ids(clips.drop_last())
    }
}

/// The position of the first clip with the id, or the number of clips.
pub open spec fn first_clip_with(clips: Seq<ClipEntry>, id: Seq<char>) -> nat
    decreases clips.len(),
{
    if clips.len() == 0 {
        0
    } else if clips[0].id@ == id {
        0
    } else {
        1 + first_clip_with(clips.drop_first(), id)
    }
}

proof fn lemma_first_clip_with(clips: Seq<ClipEntry>, id: Seq<char>, i: int)
    requires
        0 <= i <= clips.len(),
        forall|j: int| 0 <= j < i ==> (#[trigger] clips[j]).id@ != id,
        i < clips.len() ==> clips[i].id@ == id,
    ensures
        first_clip_with(clips, id) == i,
    decreases i,
{
    if i > 0 {
        assert forall|j: int| 0 <= j < i - 1 implies (#[trigger] clips.drop_first()[j]).id@ != id by {
            assert(clips.drop_first()[j] == clips[j + 1]);
        }
        lemma_first_clip_with(clips.drop_first(), id, i - 1);
    }
}

proof fn lemma_timed_in_clips(clips: Seq<ClipEntry>, id: Seq<char>)
    requires
        timed_ids(clips).contains(id),
    ensures
        exists|j: int| 0 <= j < clips.len() && (#[trigger] clips[j]).id@ == id,
    decreases clips.len(),
{
    let rest = clips.drop_last();
    if clips.last().has_duration && id == clips.last().id@ {
        assert(clips[clips.len() - 1].id@ == id);
    } else {
        if clips.last().has_duration {
            let k = choose|k: int| 0 <= k < timed_ids(clips).len() && timed_ids(clips)[k] == id;
            assert(timed_ids(rest)[k] == id);
        }
        lemma_timed_in_clips(rest, id);
        let j = choose|j: int| 0 <= j < rest.len() && (#[trigger] rest[j]).id@ == id;
        assert(clips[j] == rest[j]);
    }
}

/// The ids of the clips whose duration is known.
fn timed_clip_ids(clips: &[ClipEntry]) -> (v: Vec<String>)
    ensures
        id_texts(v@) == timed_ids(clips@),
{
    let mut v: Vec<String> = Vec::new();
    let mut i: usize = 0;
    while i < clips.len()
        invariant
            i <= clips@.len(),
            id_texts(v@) == timed_ids(clips@.take(i as int)),
        decreases clips@.len() - i,
    {
        let ghost before = v@;
        assert(clips@.take(i + 1).drop_last() =~= clips@.take(i as int));
        assert(clips@.take(i + 1).last() == clips@[i as int]);
        if clips[i].has_duration {
            v.push(clips[i].id.clone());
            assert(id_texts(v@) =~= id_texts(before).push(clips@[i as int].id@));
        }
        i = i + 1;
    }
    assert(clips@.take(clips@.len() as int) =~= clips@);
    v
}

/// The position of the first clip with the id, which some clip has.
fn position_of_clip(clips: &[ClipEntry], id: &str) -> (i: usize)
    requires
        exists|j: int| 0 <= j < clips@.len() && (#[trigger] clips@[j]).id@ == id@,
    ensures
        i < clips@.len(),
        clips@[i as int].id@ == id@,
        i == first_clip_with(clips@, id@),
{
    let mut i: usize = 0;
    while i < clips.len()
        invariant
            i <= clips@.len(),
            exists|j: int| 0 <= j < clips@.len() && (#[trigger] clips@[j]).id@ == id@,
            forall|j: int| 0 <= j < i ==> (#[trigger] clips@[j]).id@ != id@,
        decreases clips@.len() - i,
    {
        if same_text(clips[i].id.as_str(), id) {
            proof { lemma_first_clip_with(clips@, id@, i as int); }
            return i;
        }
        i = i + 1;
    }
    proof {
        let j = choose|j: int| 0 <= j < clips@.len() && (#[trigger] clips@[j]).id@ == id@;
        assert(clips@[j].id@ != id@);
    }
    0
}

/// Chooses the next interjection clip: none once the session used
/// `max_uses_per_session` clips (0 is no limit) or when no clip has a known
/// duration; otherwise the state picks among the clips with a known
/// duration and records the use, and the first clip with that id is
/// returned, by position.
pub fn select_clip(state: &mut InterjectionState, clips: &[ClipEntry], max_uses_per_session: usize) -> (r: Option<usize>)
    requires
        old(state).uses() < usize::MAX,
        forall|i: int| 0 <= i < clips@.len() ==> count_in(old(state).counts(), (#[trigger] clips@[i]).id@) < usize::MAX,
    ensures
        (max_uses_per_session > 0 && old(state).uses() >= max_uses_per_session) || timed_ids(clips@).len() == 0
            ==> r is None && *final(state) == *old(state),
        !(max_uses_per_session > 0 && old(state).uses() >= max_uses_per_session) && timed_ids(clips@).len() > 0
            ==> (r matches Some(i) && i < clips@.len()
                && i == first_clip_with(clips@, clips@[i as int].id@)
                && candidate_ids(timed_ids(clips@), old(state).recent()).contains(clips@[i as int].id@)
                && final(state).recent() == recent_after(old(state).recent(), old(state).window(), clips@[i as int].id@)
                && final(state).counts() == bumped(old(state).counts(), clips@[i as int].id@)
                && final(state).uses() == old(state).uses() + 1
                && final(state).window() == old(state).window()),
{
    let available = timed_clip_ids(clips);
    if max_uses_per_session > 0 && state.total_uses() >= max_uses_per_session {
        return None;
    }
    proof {
        assert forall|k: int| 0 <= k < available@.len() implies
            count_in(state.counts(), (#[trigger] available@[k])@) < usize::MAX by {
            assert(id_texts(available@)[k] == available@[k]@);
            assert(timed_ids(clips@).contains(available@[k]@));
            lemma_timed_in_clips(clips@, available@[k]@);
        }
    }
    let selected = match state.select_interjection(available.as_slice()) {
        None => return None,
        Some(id) => id,
    };
    let ghost chosen = selected@;
    proof {
        law_selection_avoids_recent(timed_ids(clips@), old(state).recent(), chosen);
        lemma_timed_in_clips(clips@, chosen);
    }
    Some(position_of_clip(clips, selected.as_str()))
}

} // verus!
