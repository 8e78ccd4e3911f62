//! Card record store: a durable mapping from card identifier to card
//! record, with key uniqueness enforced at creation. The store is an
//! association list whose mathematical image is a `Map` from the
//! identifier's character sequence to the record's image.

use vstd::prelude::*;
use crate::types::{Card, CardView};

verus! {

/// The map an entry sequence stands for; a later entry for the same key
/// would win, but a well-formed store keeps its keys distinct.
pub open spec fn entries_map(entries: Seq<(String, Card)>) -> Map<Seq<char>, CardView>
    decreases entries.len(),
{
    if entries.len() == 0 {
        Map::empty()
    } else {
        entries_map(entries.drop_last()).insert(entries.last().0@, entries.last().1@)
    }
}

/// No two entries carry the same key.
pub open spec fn distinct_keys(entries: Seq<(String, Card)>) -> bool {
    forall|p: int, q: int|
        0 <= p < q < entries.len() ==> (#[trigger] entries[p]).0@ != (#[trigger] entries[q]).0@
}

/// A key is in the map exactly when some entry carries it.
pub proof fn lemma_entries_map_domain(entries: Seq<(String, Card)>, k: Seq<char>)
    ensures
        entries_map(entries).contains_key(k) <==> (exists|i: int|
            0 <= i < entries.len() && (#[trigger] entries[i]).0@ == k),
    decreases entries.len(),
{
    if entries.len() > 0 {
        let prefix = entries.drop_last();
        lemma_entries_map_domain(prefix, k);
        if entries.last().0@ == k {
            assert(entries[entries.len() - 1].0@ == k);
        } else {
            if entries_map(entries).contains_key(k) {
                let i = choose|i: int| 0 <= i < prefix.len() && (#[trigger] prefix[i]).0@ == k;
                assert(entries[i].0@ == k);
            }
            if exists|i: int| 0 <= i < entries.len() && (#[trigger] entries[i]).0@ == k {
                let i = choose|i: int| 0 <= i < entries.len() && (#[trigger] entries[i]).0@ == k;
                assert(i < entries.len() - 1);
                assert(prefix[i].0@ == k);
            }
        }
    }
}

/// With distinct keys, the entry carrying a key gives its map value.
pub proof fn lemma_entries_map_value(entries: Seq<(String, Card)>, i: int)
    requires
        distinct_keys(entries),
        0 <= i < entries.len(),
    ensures
        entries_map(entries).contains_key(entries[i].0@),
        entries_map(entries)[entries[i].0@] == entries[i].1@,
    decreases entries.len(),
{
    let prefix = entries.drop_last();
    if i == entries.len() - 1 {
    } else {
        assert(entries[i].0@ != entries.last().0@);
        assert(prefix[i] == entries[i]);
        lemma_entries_map_value(prefix, i);
    }
}

/// Appending an entry inserts its key.
pub proof fn lemma_entries_map_push(entries: Seq<(String, Card)>, e: (String, Card))
    ensures
        entries_map(entries.push(e)) == entries_map(entries).insert(e.0@, e.1@),
{
    assert(entries.push(e).drop_last() =~= entries);
    assert(entries.push(e).last() == e);
}

/// Replacing the entry that carries a key overwrites that key's value.
pub proof fn lemma_entries_map_update(entries: Seq<(String, Card)>, i: int, e: (String, Card))
    requires
        distinct_keys(entries),
        0 <= i < entries.len(),
        e.0@ == entries[i].0@,
    ensures
        entries_map(entries.update(i, e)) == entries_map(entries).insert(e.0@, e.1@),
        distinct_keys(entries.update(i, e)),
    decreases entries.len(),
{
    let updated = entries.update(i, e);
    assert forall|p: int, q: int| 0 <= p < q < updated.len() implies (#[trigger] updated[p]).0@
        != (#[trigger] updated[q]).0@ by {
        assert(entries[p].0@ != entries[q].0@);
    }
    if i == entries.len() - 1 {
        assert(updated.drop_last() =~= entries.drop_last());
        assert(updated.last() == e);
        assert(entries_map(updated) == entries_map(entries.drop_last()).insert(e.0@, e.1@));
        assert(entries_map(entries).insert(e.0@, e.1@) =~= entries_map(entries.drop_last()).insert(
            e.0@,
            e.1@,
        ));
    } else {
        let prefix = entries.drop_last();
        assert(updated.drop_last() =~= prefix.update(i, e));
        assert(updated.last() == entries.last());
        assert(prefix[i] == entries[i]);
        lemma_entries_map_update(prefix, i, e);
        assert(entries_map(updated) == entries_map(prefix).insert(e.0@, e.1@).insert(
            entries.last().0@,
            entries.last().1@,
        ));
        assert(e.0@ != entries.last().0@);
        assert(entries_map(prefix).insert(e.0@, e.1@).insert(entries.last().0@, entries.last().1@)
            =~= entries_map(prefix).insert(entries.last().0@, entries.last().1@).insert(
            e.0@,
            e.1@,
        ));
    }
}

/// Durable card record store.
#[derive(Clone)]
pub struct CardStore {
    pub entries: Vec<(String, Card)>,
}

impl View for CardStore {
    type V = Map<Seq<char>, CardView>;

    open spec fn view(&self) -> Map<Seq<char>, CardView> {
        entries_map(self.entries@)
    }
}

impl CardStore {
    /// Key uniqueness, the store's structural invariant.
    pub open spec fn wf(&self) -> bool {
        distinct_keys(self.entries@)
    }

    /// An empty store.
    pub fn new() -> (store: Self)
        ensures
            store.wf(),
            store@ == Map::<Seq<char>, CardView>::empty(),
    {
        CardStore { entries: Vec::new() }
    }

    /// The position of the entry carrying `card_id`, if any.
    fn find(&self, card_id: &String) -> (r: Option<usize>)
        ensures
            match r {
                Some(i) => i < self.entries@.len() && self.entries@[i as int].0@ == card_id@,
                None => forall|j: int|
                    0 <= j < self.entries@.len() ==> (#[trigger] self.entries@[j]).0@ != card_id@,
            },
    {
        let n = self.entries.len();
        let mut i: usize = 0;
        while i < n
            invariant
                i <= n,
                n == self.entries@.len(),
                forall|j: int| 0 <= j < i ==> (#[trigger] self.entries@[j]).0@ != card_id@,
            decreases n - i,
        {
            if self.entries[i].0 == *card_id {
                return Some(i);
            }
            i += 1;
        }
        None
    }

    /// Read the record stored under `card_id`.
    pub fn get(&self, card_id: &String) -> (r: Option<Card>)
        requires
            self.wf(),
        ensures
            match r {
                Some(card) => self@.contains_key(card_id@) && card@ == self@[card_id@],
                None => !self@.contains_key(card_id@),
            },
    {
        let found = self.find(card_id);
        proof {
            lemma_entries_map_domain(self.entries@, card_id@);
        }
        match found {
            Some(i) => {
                proof {
                    lemma_entries_map_value(self.entries@, i as int);
                }
                Some(self.entries[i].1)
            },
            None => None,
        }
    }

    /// Write `card` under `card_id`, overwriting an existing record or
    /// creating a fresh one.
    pub fn set(&mut self, card_id: &String, card: Card)
        requires
            old(self).wf(),
        ensures
            final(self).wf(),
            final(self)@ == old(self)@.insert(card_id@, card@),
    {
        let found = self.find(card_id);
        match found {
            Some(i) => {
                let ghost entries0 = self.entries@;
                self.entries[i].1 = card;
                proof {
                    let e = (entries0[i as int].0, card);
                    assert(self.entries@ =~= entries0.update(i as int, e));
                    lemma_entries_map_update(entries0, i as int, e);
                }
            },
            None => {
                let ghost entries0 = self.entries@;
                self.entries.push((card_id.clone(), card));
                proof {
                    let e = (self.entries@.last().0, card);
                    assert(self.entries@ =~= entries0.push(e));
                    lemma_entries_map_push(entries0, e);
                    lemma_entries_map_domain(entries0, card_id@);
                    assert forall|p: int, q: int|
                        0 <= p < q < self.entries@.len() implies (#[trigger] self.entries@[p]).0@
                        != (#[trigger] self.entries@[q]).0@ by {
                        if q < entries0.len() {
                            assert(entries0[p].0@ != entries0[q].0@);
                        } else {
                            assert(self.entries@[q].0@ == card_id@);
                            assert(entries0[p].0@ != card_id@);
                        }
                    }
                }
            },
        }
    }
}

} // verus!
