//! A sparse map from account identifiers to values, stored as a vector of
//! entries in which no account occurs twice.

use crate::types::AccountId;
use vstd::prelude::*;

verus! {

/// One stored association of an account with a value.
#[derive(Debug)]
struct Entry<V> {
    account: AccountId,
    value: V,
}

/// A map from account identifiers to values of type `V`.
///
/// Its view is the mathematical map from an account's characters to the value
/// stored for it. Accounts that were never inserted are not in its domain.
#[derive(Debug)]
pub struct AccountMap<V> {
    entries: Vec<Entry<V>>,
}

/// Entry `i` of `entries` is the one stored for `who`.
spec fn holds_at<V>(entries: Seq<Entry<V>>, who: Seq<char>, i: int) -> bool {
    0 <= i < entries.len() && entries[i].account@ == who
}

/// No account occurs in two entries.
spec fn distinct<V>(entries: Seq<Entry<V>>) -> bool {
    forall|i: int, j: int|
        0 <= i < entries.len() && 0 <= j < entries.len() && i != j
            ==> entries[i].account@ != entries[j].account@
}

/// The map that a sequence of entries stands for.
spec fn map_of<V>(entries: Seq<Entry<V>>) -> Map<Seq<char>, V> {
    Map::new(
        |who: Seq<char>| exists|i: int| holds_at(entries, who, i),
        |who: Seq<char>| entries[choose|i: int| holds_at(entries, who, i)].value,
    )
}

/// With distinct accounts, the entry at `i` is what the map holds for its account.
proof fn lemma_map_of_entry<V>(entries: Seq<Entry<V>>, i: int)
    requires
        distinct(entries),
        0 <= i < entries.len(),
    ensures
        map_of(entries).contains_key(entries[i].account@),
        map_of(entries)[entries[i].account@] == entries[i].value,
{
    let who = entries[i].account@;
    assert(holds_at(entries, who, i));
    let j = choose|j: int| holds_at(entries, who, j);
    assert(j == i);
}

/// Overwriting the value of the entry at `i` is an insertion for its account.
proof fn lemma_map_of_update<V>(entries: Seq<Entry<V>>, i: int, entry: Entry<V>)
    requires
        distinct(entries),
        0 <= i < entries.len(),
        entry.account@ == entries[i].account@,
    ensures
        distinct(entries.update(i, entry)),
        map_of(entries.update(i, entry)) == map_of(entries).insert(entry.account@, entry.value),
{
    let updated = entries.update(i, entry);
    assert(distinct(updated)) by {
        assert forall|a: int, b: int|
            0 <= a < updated.len() && 0 <= b < updated.len() && a != b implies updated[a].account@
            != updated[b].account@ by {
            assert(updated[a].account@ == entries[a].account@);
            assert(updated[b].account@ == entries[b].account@);
        }
    }
    let expected = map_of(entries).insert(entry.account@, entry.value);
    assert forall|who: Seq<char>| map_of(updated).contains_key(who) <==> expected.contains_key(
        who,
    ) by {
        if map_of(updated).contains_key(who) {
            let j = choose|j: int| holds_at(updated, who, j);
            assert(holds_at(entries, who, j));
        }
        if expected.contains_key(who) {
            if who == entry.account@ {
                assert(holds_at(updated, who, i));
            } else {
                let j = choose|j: int| holds_at(entries, who, j);
                assert(holds_at(updated, who, j));
            }
        }
    }
    assert forall|who: Seq<char>| map_of(updated).contains_key(who) implies map_of(updated)[who]
        == expected[who] by {
        let j = choose|j: int| holds_at(updated, who, j);
        lemma_map_of_entry(updated, j);
        if j != i {
            lemma_map_of_entry(entries, j);
        }
    }
    assert(map_of(updated) =~= expected);
}

/// Appending an entry for an account that is not yet stored is an insertion.
proof fn lemma_map_of_push<V>(entries: Seq<Entry<V>>, entry: Entry<V>)
    requires
        distinct(entries),
        forall|i: int| !holds_at(entries, entry.account@, i),
    ensures
        distinct(entries.push(entry)),
        map_of(entries.push(entry)) == map_of(entries).insert(entry.account@, entry.value),
{
    let pushed = entries.push(entry);
    let last = entries.len() as int;
    assert(distinct(pushed)) by {
        assert forall|a: int, b: int|
            0 <= a < pushed.len() && 0 <= b < pushed.len() && a != b implies pushed[a].account@
            != pushed[b].account@ by {
            if a == last {
                assert(!holds_at(entries, entry.account@, b));
            } else if b == last {
                assert(!holds_at(entries, entry.account@, a));
            }
        }
    }
    let expected = map_of(entries).insert(entry.account@, entry.value);
    assert forall|who: Seq<char>| map_of(pushed).contains_key(who) <==> expected.contains_key(
        who,
    ) by {
        if map_of(pushed).contains_key(who) {
            let j = choose|j: int| holds_at(pushed, who, j);
            if j != last {
                assert(holds_at(entries, who, j));
            }
        }
        if expected.contains_key(who) {
            if who == entry.account@ {
                assert(holds_at(pushed, who, last));
            } else {
                let j = choose|j: int| holds_at(entries, who, j);
                assert(holds_at(pushed, who, j));
            }
        }
    }
    assert forall|who: Seq<char>| map_of(pushed).contains_key(who) implies map_of(pushed)[who]
        == expected[who] by {
        let j = choose|j: int| holds_at(pushed, who, j);
        lemma_map_of_entry(pushed, j);
        if j != last {
            lemma_map_of_entry(entries, j);
        }
    }
    assert(map_of(pushed) =~= expected);
}

/// Finitely many entries stand for a map with finitely many accounts.
proof fn lemma_map_of_is_finite<V>(entries: Seq<Entry<V>>)
    ensures
        map_of(entries).dom().finite(),
    decreases entries.len(),
{
    if entries.len() == 0 {
        assert(map_of(entries).dom() =~= Set::<Seq<char>>::empty());
    } else {
        let earlier = entries.drop_last();
        let last = entries.len() - 1;
        lemma_map_of_is_finite(earlier);
        let expected = map_of(earlier).dom().insert(entries[last].account@);
        assert forall|who: Seq<char>| map_of(entries).dom().contains(who) <==> expected.contains(
            who,
        ) by {
            if map_of(entries).dom().contains(who) {
                let j = choose|j: int| holds_at(entries, who, j);
                if j != last {
                    assert(holds_at(earlier, who, j));
                }
            }
            if expected.contains(who) {
                if who == entries[last].account@ {
                    assert(holds_at(entries, who, last));
                } else {
                    let j = choose|j: int| holds_at(earlier, who, j);
                    assert(holds_at(entries, who, j));
                }
            }
        }
        assert(map_of(entries).dom() =~= expected);
    }
}

impl<V> AccountMap<V> {
    #[verifier::type_invariant]
    spec fn accounts_are_distinct(self) -> bool {
        distinct(self.entries@)
    }

    /// The mathematical map that this value stands for.
    pub closed spec fn view(&self) -> Map<Seq<char>, V> {
        map_of(self.entries@)
    }

    /// A map holds finitely many accounts.
    pub proof fn lemma_finite(self)
        ensures
            self@.dom().finite(),
    {
        lemma_map_of_is_finite(self.entries@);
    }
}

impl<V: Copy> AccountMap<V> {
    /// The empty map.
    pub fn new() -> (map: Self)
        ensures
            map@ == Map::<Seq<char>, V>::empty(),
    {
        let map = AccountMap { entries: Vec::new() };
        assert(map@ =~= Map::<Seq<char>, V>::empty());
        map
    }

    /// The index of the entry stored for `who`, if there is one.
    fn position(&self, who: &AccountId) -> (found: Option<usize>)
        ensures
            found matches Some(i) ==> holds_at(self.entries@, who@, i as int),
            found.is_none() ==> forall|i: int| !holds_at(self.entries@, who@, i),
    {
        let mut i: usize = 0;
        while i < self.entries.len()
            invariant
                i <= self.entries.len(),
                forall|j: int| 0 <= j < i ==> !holds_at(self.entries@, who@, j),
            decreases self.entries.len() - i,
        {
            if self.entries[i].account == *who {
                return Some(i);
            }
            i += 1;
        }
        None
    }

    /// The value stored for `who`, or `None` where nothing was ever stored for it.
    pub fn get(&self, who: &AccountId) -> (value: Option<V>)
        ensures
            value == (if self@.contains_key(who@) {
                Some(self@[who@])
            } else {
                None::<V>
            }),
    {
        proof {
            use_type_invariant(self);
        }
        match self.position(who) {
            Some(i) => {
                proof {
                    lemma_map_of_entry(self.entries@, i as int);
                }
                Some(self.entries[i].value)
            },
            None => None,
        }
    }

    /// Stores `value` for `who`, replacing what was stored for it before.
    pub fn insert(&mut self, who: AccountId, value: V)
        ensures
            final(self)@ == old(self)@.insert(who@, value),
    {
        proof {
            use_type_invariant(&*self);
        }
        let found = self.position(&who);
        // The entries leave `self` while they change: `push` may unwind, and
        // `self` is never left holding a half-changed vector.
        let mut entries: Vec<Entry<V>> = Vec::new();
        core::mem::swap(&mut self.entries, &mut entries);
        match found {
            Some(i) => {
                proof {
                    lemma_map_of_update(entries@, i as int, Entry { account: who, value });
                }
                entries.set(i, Entry { account: who, value });
            },
            None => {
                proof {
                    lemma_map_of_push(entries@, Entry { account: who, value });
                }
                entries.push(Entry { account: who, value });
            },
        }
        self.entries = entries;
    }
}

} // verus!
