//! A small table from names to values, with one slot for each name.

use vstd::prelude::*;

verus! {

struct Slot<V> {
    name: String,
    value: V,
}

/// A finite map from names to values.
pub(crate) struct Table<V> {
    slots: Vec<Slot<V>>,
}

spec fn holds<V>(slots: Seq<Slot<V>>, name: Seq<char>) -> bool {
    exists|i: int| 0 <= i < slots.len() && #[trigger] slots[i].name@ == name
}

spec fn place<V>(slots: Seq<Slot<V>>, name: Seq<char>) -> int {
    choose|i: int| 0 <= i < slots.len() && #[trigger] slots[i].name@ == name
}

spec fn one_slot_each<V>(slots: Seq<Slot<V>>) -> bool {
    forall|i: int, j: int|
        0 <= i < j < slots.len() ==> #[trigger] slots[i].name@ != #[trigger] slots[j].name@
}

spec fn contents_of<V>(slots: Seq<Slot<V>>) -> Map<Seq<char>, V> {
    Map::new(
        |name: Seq<char>| holds(slots, name),
        |name: Seq<char>| slots[place(slots, name)].value,
    )
}

proof fn lemma_place_is_the_slot<V>(slots: Seq<Slot<V>>, i: int)
    requires
        one_slot_each(slots),
        0 <= i < slots.len(),
    ensures
        holds(slots, slots[i].name@),
        place(slots, slots[i].name@) == i,
{
    let found = place(slots, slots[i].name@);
    assert(0 <= found < slots.len() && slots[found].name@ == slots[i].name@);
    if found < i {
        assert(slots[found].name@ != slots[i].name@);
    } else if i < found {
        assert(slots[i].name@ != slots[found].name@);
    }
}

proof fn lemma_overwrite<V>(before: Seq<Slot<V>>, after: Seq<Slot<V>>, i: int)
    requires
        one_slot_each(before),
        0 <= i < before.len(),
        after.len() == before.len(),
        after[i].name@ == before[i].name@,
        forall|k: int| 0 <= k < before.len() && k != i ==> after[k] == before[k],
    ensures
        one_slot_each(after),
        contents_of(after) == contents_of(before).insert(before[i].name@, after[i].value),
{
    assert forall|k: int| 0 <= k < before.len() implies #[trigger] after[k].name@
        == before[k].name@ by {}
    assert(one_slot_each(after)) by {
        assert forall|a: int, b: int| 0 <= a < b < after.len() implies #[trigger] after[a].name@
            != #[trigger] after[b].name@ by {
            assert(before[a].name@ != before[b].name@);
        }
    }
    let expected = contents_of(before).insert(before[i].name@, after[i].value);
    assert forall|name: Seq<char>| contents_of(after).contains_key(name) == expected.contains_key(
        name,
    ) by {
        if holds(after, name) {
            let k = place(after, name);
            assert(before[k].name@ == name);
        }
        if holds(before, name) {
            let k = place(before, name);
            assert(after[k].name@ == name);
        }
        assert(after[i].name@ == before[i].name@);
    }
    assert forall|name: Seq<char>| contents_of(after).contains_key(name) implies contents_of(
        after,
    )[name] == expected[name] by {
        let k = place(after, name);
        lemma_place_is_the_slot(after, k);
        lemma_place_is_the_slot(before, k);
    }
    assert(contents_of(after) =~= expected);
}

proof fn lemma_append<V>(before: Seq<Slot<V>>, slot: Slot<V>)
    requires
        one_slot_each(before),
        !holds(before, slot.name@),
    ensures
        one_slot_each(before.push(slot)),
        contents_of(before.push(slot)) == contents_of(before).insert(slot.name@, slot.value),
{
    let after = before.push(slot);
    let last = before.len() as int;
    assert(one_slot_each(after)) by {
        assert forall|a: int, b: int| 0 <= a < b < after.len() implies #[trigger] after[a].name@
            != #[trigger] after[b].name@ by {
            if b < last {
                assert(before[a].name@ != before[b].name@);
            } else {
                assert(before[a].name@ == after[a].name@);
            }
        }
    }
    let expected = contents_of(before).insert(slot.name@, slot.value);
    assert(after[last].name@ == slot.name@);
    assert forall|name: Seq<char>| contents_of(after).contains_key(name) == expected.contains_key(
        name,
    ) by {
        if holds(after, name) {
            let k = place(after, name);
            if k < last {
                assert(before[k].name@ == name);
            }
        }
        if holds(before, name) {
            let k = place(before, name);
            assert(after[k].name@ == name);
        }
    }
    assert forall|name: Seq<char>| contents_of(after).contains_key(name) implies contents_of(
        after,
    )[name] == expected[name] by {
        let k = place(after, name);
        lemma_place_is_the_slot(after, k);
        if k < last {
            assert(after[k] == before[k]);
            lemma_place_is_the_slot(before, k);
        }
    }
    assert(contents_of(after) =~= expected);
}

/// Where `name` is kept among `slots`, if it is.
fn find<V>(slots: &Vec<Slot<V>>, name: &String) -> (found: Option<usize>)
    ensures
        match found {
            Some(i) => i < slots.len() && slots[i as int].name@ == name@,
            None => !holds(slots@, name@),
        },
{
    let mut i: usize = 0;
    while i < slots.len()
        invariant
            i <= slots.len(),
            forall|k: int| 0 <= k < i ==> #[trigger] slots[k].name@ != name@,
        decreases slots.len() - i,
    {
        if slots[i].name == *name {
            return Some(i);
        }
        i += 1;
    }
    None
}

impl<V> Table<V> {
    #[verifier::type_invariant]
    spec fn well_formed(&self) -> bool {
        one_slot_each(self.slots@)
    }

    /// What the table holds.
    pub(crate) closed spec fn contents(&self) -> Map<Seq<char>, V> {
        contents_of(self.slots@)
    }

    /// The table that holds nothing.
    pub(crate) fn new() -> (table: Table<V>)
        ensures
            table.contents() == Map::<Seq<char>, V>::empty(),
    {
        let table = Table { slots: Vec::new() };
        assert(table.contents() =~= Map::<Seq<char>, V>::empty());
        table
    }

    /// The value kept under `name`, if there is one.
    pub(crate) fn get(&self, name: &String) -> (value: Option<&V>)
        ensures
            match value {
                Some(value) => self.contents().contains_key(name@) && *value
                    == self.contents()[name@],
                None => !self.contents().contains_key(name@),
            },
    {
        proof {
            use_type_invariant(self);
        }
        match find(&self.slots, name) {
            Some(i) => {
                proof {
                    lemma_place_is_the_slot(self.slots@, i as int);
                }
                Some(&self.slots[i].value)
            },
            None => None,
        }
    }

    /// Keeps `value` under `name`, in place of any value kept there, which is
    /// handed back.
    pub(crate) fn put(&mut self, name: &String, value: V) -> (replaced: Option<V>)
        ensures
            final(self).contents() == old(self).contents().insert(name@, value),
            match replaced {
                Some(replaced) => old(self).contents().contains_key(name@) && replaced == old(
                    self,
                ).contents()[name@],
                None => !old(self).contents().contains_key(name@),
            },
    {
        proof {
            use_type_invariant(&*self);
        }
        let mut slots: Vec<Slot<V>> = Vec::new();
        core::mem::swap(&mut self.slots, &mut slots);
        let replaced = match find(&slots, name) {
            Some(i) => {
                let ghost before = slots@;
                let mut slot = Slot { name: name.clone(), value };
                proof {
                    lemma_place_is_the_slot(before, i as int);
                }
                slots.set_and_swap(i, &mut slot);
                proof {
                    lemma_overwrite(before, slots@, i as int);
                }
                Some(slot.value)
            },
            None => {
                let slot = Slot { name: name.clone(), value };
                proof {
                    lemma_append(slots@, slot);
                }
                slots.push(slot);
                None
            },
        };
        core::mem::swap(&mut self.slots, &mut slots);
        replaced
    }
}

} // verus!
