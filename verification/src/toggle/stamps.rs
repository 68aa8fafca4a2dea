//! Names with the time at which each was last noted.
//!
//! Times are nanoseconds since some fixed moment.

use crate::text;
use vstd::prelude::*;

verus! {

/// Names, each with a time.
#[derive(Debug)]
pub struct Stamps {
    entries: Vec<(String, u64)>,
}

/// The time between two moments; nothing where the second is not after the first.
pub open spec fn age(noted: u64, now: u64) -> int {
    if now >= noted {
        now - noted
    } else {
        0
    }
}

/// What is left of some names once those that are older than a limit are dropped.
pub open spec fn recent(stamps: Map<Seq<char>, u64>, now: u64, limit: int) -> Map<Seq<char>, u64> {
    Map::new(
        |name: Seq<char>| stamps.contains_key(name) && age(stamps[name], now) <= limit,
        |name: Seq<char>| stamps[name],
    )
}

spec fn map_of(entries: Seq<(String, u64)>) -> Map<Seq<char>, u64>
    decreases entries.len(),
{
    if entries.len() == 0 {
        Map::empty()
    } else {
        map_of(entries.drop_last()).insert(entries.last().0@, entries.last().1)
    }
}

spec fn distinct(entries: Seq<(String, u64)>) -> bool {
    forall|i: int, j: int|
        0 <= i < j < entries.len() ==> (#[trigger] entries[i]).0@ != (#[trigger] entries[j]).0@
}

proof fn lemma_map_of(entries: Seq<(String, u64)>)
    requires
        distinct(entries),
    ensures
        forall|i: int|
            0 <= i < entries.len() ==> map_of(entries).contains_key((#[trigger] entries[i]).0@)
                && map_of(entries)[entries[i].0@] == entries[i].1,
        forall|name: Seq<char>| #[trigger]
            map_of(entries).contains_key(name) ==> exists|i: int|
                0 <= i < entries.len() && (#[trigger] entries[i]).0@ == name,
    decreases entries.len(),
{
    if entries.len() > 0 {
        let before = entries.drop_last();
        assert(distinct(before));
        lemma_map_of(before);
        assert forall|i: int| 0 <= i < entries.len() implies map_of(entries).contains_key(
            (#[trigger] entries[i]).0@,
        ) && map_of(entries)[entries[i].0@] == entries[i].1 by {
            if i < before.len() {
                assert(before[i] == entries[i]);
            }
        }
        assert forall|name: Seq<char>| #[trigger] map_of(entries).contains_key(name) implies exists|
            i: int,
        |
            0 <= i < entries.len() && (#[trigger] entries[i]).0@ == name by {
            if name == entries.last().0@ {
                assert(entries[entries.len() - 1].0@ == name);
            } else {
                assert(map_of(before).contains_key(name));
                let i = choose|i: int| 0 <= i < before.len() && (#[trigger] before[i]).0@ == name;
                assert(entries[i].0@ == name);
            }
        }
    }
}

/// The next name is none of those already walked.
proof fn lemma_next_is_fresh(entries: Seq<(String, u64)>, i: int)
    requires
        distinct(entries),
        0 <= i < entries.len(),
    ensures
        distinct(entries.take(i)),
        !map_of(entries.take(i)).contains_key(entries[i].0@),
        entries.take(i + 1).drop_last() == entries.take(i),
{
    let walked = entries.take(i);
    let name = entries[i].0@;
    lemma_map_of(walked);
    if map_of(walked).contains_key(name) {
        let j = choose|j: int| 0 <= j < walked.len() && (#[trigger] walked[j]).0@ == name;
        assert(entries[j].0@ == entries[i].0@);
    }
    assert(entries.take(i + 1).drop_last() =~= walked);
}

/// One more entry with a fresh name leaves the names distinct.
proof fn lemma_push_fresh(entries: Seq<(String, u64)>, entry: (String, u64))
    requires
        distinct(entries),
        !map_of(entries).contains_key(entry.0@),
    ensures
        distinct(entries.push(entry)),
        map_of(entries.push(entry)) == map_of(entries).insert(entry.0@, entry.1),
{
    let more = entries.push(entry);
    lemma_map_of(entries);
    assert(more.drop_last() =~= entries);
    assert forall|a: int, b: int| 0 <= a < b < more.len() implies (#[trigger] more[a]).0@ != (
    #[trigger] more[b]).0@ by {
        if b == entries.len() {
            assert(map_of(entries).contains_key(entries[a].0@));
        } else {
            assert(entries[a].0@ != entries[b].0@);
        }
    }
}

impl View for Stamps {
    type V = Map<Seq<char>, u64>;

    closed spec fn view(&self) -> Map<Seq<char>, u64> {
        map_of(self.entries@)
    }
}

impl Stamps {
    #[verifier::type_invariant]
    spec fn well_formed(self) -> bool {
        distinct(self.entries@)
    }

    /// No names.
    pub fn new() -> (s: Stamps)
        ensures
            s@ == Map::<Seq<char>, u64>::empty(),
    {
        Stamps { entries: Vec::new() }
    }

    /// The time at which the name was noted.
    pub fn get(&self, name: &str) -> (at: Option<u64>)
        ensures
            at == if self@.contains_key(name@) {
                Some(self@[name@])
            } else {
                None
            },
    {
        proof {
            use_type_invariant(self);
            lemma_map_of(self.entries@);
        }
        let mut i: usize = 0;
        while i < self.entries.len()
            invariant
                i <= self.entries@.len(),
                forall|j: int| 0 <= j < i ==> (#[trigger] self.entries@[j]).0@ != name@,
                forall|j: int|
                    0 <= j < self.entries@.len() ==> self@.contains_key(
                        (#[trigger] self.entries@[j]).0@,
                    ) && self@[self.entries@[j].0@] == self.entries@[j].1,
            decreases self.entries.len() - i,
        {
            if text::same_text(self.entries[i].0.as_str(), name) {
                return Some(self.entries[i].1);
            }
            i += 1;
        }
        None
    }

    /// Drops the names that were noted longer ago than the limit.
    pub fn drop_older(&mut self, now: u64, limit: u64)
        ensures
            final(self)@ == recent(old(self)@, now, limit as int),
    {
        proof {
            use_type_invariant(&*self);
        }
        let mut kept: Vec<(String, u64)> = Vec::new();
        let mut i: usize = 0;
        let ghost all = self.entries@;
        while i < self.entries.len()
            invariant
                all == self.entries@,
                i <= all.len(),
                distinct(all),
                distinct(kept@),
                map_of(kept@) == recent(map_of(all.take(i as int)), now, limit as int),
            decreases self.entries.len() - i,
        {
            let noted: u64 = self.entries[i].1;
            proof {
                lemma_next_is_fresh(all, i as int);
            }
            if now < noted || now - noted <= limit {
                proof {
                    lemma_push_fresh(kept@, all[i as int]);
                }
                kept.push((self.entries[i].0.clone(), noted));
            }
            i += 1;
            assert(map_of(kept@) =~= recent(map_of(all.take(i as int)), now, limit as int));
        }
        assert(all.take(all.len() as int) == all);
        self.entries = kept;
    }

    /// Forgets the name.
    pub fn remove(&mut self, name: &str)
        ensures
            final(self)@ == old(self)@.remove(name@),
    {
        proof {
            use_type_invariant(&*self);
        }
        let mut kept: Vec<(String, u64)> = Vec::new();
        let mut i: usize = 0;
        let ghost all = self.entries@;
        assert(map_of(kept@) =~= map_of(all.take(0)).remove(name@));
        while i < self.entries.len()
            invariant
                all == self.entries@,
                i <= all.len(),
                distinct(all),
                distinct(kept@),
                map_of(kept@) == map_of(all.take(i as int)).remove(name@),
            decreases self.entries.len() - i,
        {
            proof {
                lemma_next_is_fresh(all, i as int);
            }
            if !text::same_text(self.entries[i].0.as_str(), name) {
                proof {
                    lemma_push_fresh(kept@, all[i as int]);
                }
                kept.push((self.entries[i].0.clone(), self.entries[i].1));
            }
            i += 1;
            assert(map_of(kept@) =~= map_of(all.take(i as int)).remove(name@));
        }
        assert(all.take(all.len() as int) == all);
        self.entries = kept;
    }

    /// Notes the name at the given time, in place of any time before.
    pub fn insert(&mut self, name: &str, at: u64)
        ensures
            final(self)@ == old(self)@.insert(name@, at),
    {
        self.remove(name);
        proof {
            use_type_invariant(&*self);
        }
        let mut entries: Vec<(String, u64)> = Vec::new();
        std::mem::swap(&mut entries, &mut self.entries);
        let entry = (name.to_owned(), at);
        proof {
            lemma_push_fresh(entries@, entry);
        }
        entries.push(entry);
        assert(map_of(entries@) =~= old(self)@.insert(name@, at));
        self.entries = entries;
    }
}

} // verus!
