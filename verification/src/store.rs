//! Where kitties are kept: a map from owner and kitty id to the kitty.

use crate::account::AccountId;
use crate::kitty::Kitty;
use vstd::prelude::*;

verus! {

/// One stored kitty with the key it is stored under.
struct Entry {
    owner: AccountId,
    kitty_id: u32,
    kitty: Kitty,
}

impl Entry {
    spec fn key(self) -> (AccountId, u32) {
        (self.owner, self.kitty_id)
    }
}

/// The kitties of all owners. Seen from outside it is a map from
/// `(owner, kitty id)` to the kitty. Inside it is a list of entries, of
/// which the first under a key is the one that counts.
pub struct KittyStore {
    entries: Vec<Entry>,
}

/// `i` is the first place in `entries` that holds `key`.
spec fn first_at(entries: Seq<Entry>, key: (AccountId, u32), i: int) -> bool {
    &&& 0 <= i < entries.len()
    &&& entries[i].key() == key
    &&& forall|j: int| 0 <= j < i ==> #[trigger] entries[j].key() != key
}

/// The map that a list of entries stands for.
spec fn map_of(entries: Seq<Entry>) -> Map<(AccountId, u32), Kitty> {
    Map::new(
        |key: (AccountId, u32)| exists|i: int| first_at(entries, key, i),
        |key: (AccountId, u32)| entries[choose|i: int| first_at(entries, key, i)].kitty,
    )
}

/// A key that occurs at `i` is in the map, and the map holds for it what
/// stands at `i`.
proof fn lemma_first_at(entries: Seq<Entry>, key: (AccountId, u32), i: int)
    requires
        first_at(entries, key, i),
    ensures
        map_of(entries).contains_key(key),
        map_of(entries)[key] == entries[i].kitty,
{
    let c = choose|c: int| first_at(entries, key, c);
    assert(c == i);
}

/// A key that occurs nowhere is not in the map.
proof fn lemma_absent(entries: Seq<Entry>, key: (AccountId, u32))
    requires
        forall|i: int| 0 <= i < entries.len() ==> #[trigger] entries[i].key() != key,
    ensures
        !map_of(entries).contains_key(key),
{
}

impl View for KittyStore {
    type V = Map<(AccountId, u32), Kitty>;

    closed spec fn view(&self) -> Map<(AccountId, u32), Kitty> {
        map_of(self.entries@)
    }
}

impl KittyStore {
    /// A store that holds nothing.
    pub fn new() -> (store: KittyStore)
        ensures
            store@ == Map::<(AccountId, u32), Kitty>::empty(),
    {
        let store = KittyStore { entries: Vec::new() };
        assert(store@ =~= Map::<(AccountId, u32), Kitty>::empty());
        store
    }

    /// Index of the first entry under `(owner, kitty_id)`, if there is one.
    fn find(&self, owner: &AccountId, kitty_id: u32) -> (at: Option<usize>)
        ensures
            match at {
                Some(i) => first_at(self.entries@, (*owner, kitty_id), i as int),
                None => forall|i: int|
                    0 <= i < self.entries.len() ==> #[trigger] self.entries[i].key() != (
                        *owner,
                        kitty_id,
                    ),
            },
    {
        let mut i: usize = 0;
        while i < self.entries.len()
            invariant
                i <= self.entries.len(),
                forall|j: int| 0 <= j < i ==> #[trigger] self.entries[j].key() != (*owner, kitty_id),
            decreases self.entries.len() - i,
        {
            if self.entries[i].kitty_id == kitty_id && self.entries[i].owner == *owner {
                return Some(i);
            }
            i += 1;
        }
        None
    }

    /// The kitty that `owner` holds under `kitty_id`, if any.
    pub fn get(&self, owner: &AccountId, kitty_id: u32) -> (kitty: Option<Kitty>)
        ensures
            kitty == if self@.contains_key((*owner, kitty_id)) {
                Some(self@[(*owner, kitty_id)])
            } else {
                None
            },
    {
        match self.find(owner, kitty_id) {
            Some(i) => {
                proof {
                    lemma_first_at(self.entries@, (*owner, kitty_id), i as int);
                }
                Some(self.entries[i].kitty)
            },
            None => {
                proof {
                    lemma_absent(self.entries@, (*owner, kitty_id));
                }
                None
            },
        }
    }

    /// Stores `kitty` under `(owner, kitty_id)`, in place of what was there.
    pub fn insert(&mut self, owner: AccountId, kitty_id: u32, kitty: Kitty)
        ensures
            final(self)@ == old(self)@.insert((owner, kitty_id), kitty),
    {
        let entry = Entry { owner, kitty_id, kitty };
        let ghost key = (owner, kitty_id);
        let ghost before = self.entries@;
        let found = self.find(&owner, kitty_id);
        match found {
            Some(i) => {
                self.entries[i] = entry;
            },
            None => {
                self.entries.push(entry);
            },
        }
        proof {
            let after = self.entries@;
            let at = match found {
                Some(i) => i as int,
                None => before.len() as int,
            };
            lemma_first_at(after, key, at);
            assert forall|other: (AccountId, u32), i: int| other != key implies (first_at(
                before,
                other,
                i,
            ) <==> first_at(after, other, i)) by {
                assert(forall|j: int| 0 <= j < before.len() ==> before[j].key() == after[j].key());
            }
            assert forall|other: (AccountId, u32)| other != key && map_of(before).contains_key(
                other,
            ) implies map_of(after)[other] == map_of(before)[other] by {
                let i = choose|i: int| first_at(before, other, i);
                lemma_first_at(after, other, i);
            }
            assert(map_of(after) =~= map_of(before).insert(key, kitty));
        }
    }
}

} // verus!
