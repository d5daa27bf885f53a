//! A map from text to values that is listed in the order of its keys.

use crate::order::{
    compare, precedes, precedes_irreflexive, precedes_total, precedes_transitive, Place,
};
use vstd::prelude::*;

verus! {

/// Values under different keys, in the order of the keys.
#[derive(Debug)]
pub struct OrderedMap<T> {
    entries: Vec<(String, T)>,
}

/// Keys in strict order.
pub open spec fn sorted_keys(keys: Seq<Seq<char>>) -> bool {
    forall|i: int, j: int|
        0 <= i < j < keys.len() ==> precedes(#[trigger] keys[i], #[trigger] keys[j])
}

spec fn keys_of<T>(entries: Seq<(String, T)>) -> Seq<Seq<char>> {
    entries.map_values(|entry: (String, T)| entry.0@)
}

spec fn has_key<T>(entries: Seq<(String, T)>, key: Seq<char>) -> bool {
    exists|i: int| 0 <= i < entries.len() && (#[trigger] entries[i]).0@ == key
}

spec fn place_of_key<T>(entries: Seq<(String, T)>, key: Seq<char>) -> int {
    choose|i: int| 0 <= i < entries.len() && (#[trigger] entries[i]).0@ == key
}

spec fn map_of<T>(entries: Seq<(String, T)>) -> Map<Seq<char>, T> {
    Map::new(
        |key: Seq<char>| has_key(entries, key),
        |key: Seq<char>| entries[place_of_key(entries, key)].1,
    )
}

/// In ordered entries a key stands at one place only.
proof fn one_place<T>(entries: Seq<(String, T)>, i: int, j: int)
    requires
        sorted_keys(keys_of(entries)),
        0 <= i < entries.len(),
        0 <= j < entries.len(),
        entries[i].0@ == entries[j].0@,
    ensures
        i == j,
{
    let keys = keys_of(entries);
    precedes_irreflexive(entries[i].0@);
    if i < j {
        assert(precedes(keys[i], keys[j]));
    } else if j < i {
        assert(precedes(keys[j], keys[i]));
    }
}

proof fn found_at<T>(entries: Seq<(String, T)>, i: int)
    requires
        sorted_keys(keys_of(entries)),
        0 <= i < entries.len(),
    ensures
        map_of(entries).dom().contains(entries[i].0@),
        map_of(entries)[entries[i].0@] == entries[i].1,
{
    let key = entries[i].0@;
    assert(has_key(entries, key));
    one_place(entries, i, place_of_key(entries, key));
}

impl<T> View for OrderedMap<T> {
    type V = Map<Seq<char>, T>;

    closed spec fn view(&self) -> Map<Seq<char>, T> {
        map_of(self.entries@)
    }
}

impl<T> OrderedMap<T> {
    #[verifier::type_invariant]
    spec fn inv(self) -> bool {
        sorted_keys(keys_of(self.entries@))
    }

    /// The keys, in order.
    pub closed spec fn keys(&self) -> Seq<Seq<char>> {
        keys_of(self.entries@)
    }

    pub fn new() -> (map: Self)
        ensures
            map@ == Map::<Seq<char>, T>::empty(),
            map.keys() == Seq::<Seq<char>>::empty(),
    {
        let map = OrderedMap { entries: Vec::new() };
        proof {
            assert(map@ =~= Map::<Seq<char>, T>::empty());
            assert(map.keys() =~= Seq::<Seq<char>>::empty());
        }
        map
    }

    /// The number of keys. They are listed in strict order, and are those of
    /// the map.
    pub fn len(&self) -> (length: usize)
        ensures
            length == self.keys().len(),
            sorted_keys(self.keys()),
            forall|key: Seq<char>| self.keys().contains(key) <==> self@.dom().contains(key),
    {
        proof {
            use_type_invariant(self);
            assert forall|key: Seq<char>| self.keys().contains(key) <==> self@.dom().contains(
                key,
            ) by {
                if self.keys().contains(key) {
                    let i = choose|i: int| 0 <= i < self.keys().len() && self.keys()[i] == key;
                    found_at(self.entries@, i);
                    assert(self.entries@[i].0@ == key);
                }
                if self@.dom().contains(key) {
                    let i = place_of_key(self.entries@, key);
                    assert(self.keys()[i] == key);
                }
            }
        }
        self.entries.len()
    }

    pub fn key_at(&self, index: usize) -> (key: &str)
        requires
            index < self.keys().len(),
        ensures
            key@ == self.keys()[index as int],
            self@.dom().contains(key@),
    {
        proof {
            use_type_invariant(self);
            found_at(self.entries@, index as int);
        }
        self.entries[index].0.as_str()
    }

    pub fn value_at(&self, index: usize) -> (value: &T)
        requires
            index < self.keys().len(),
        ensures
            self@.dom().contains(self.keys()[index as int]),
            *value == self@[self.keys()[index as int]],
    {
        proof {
            use_type_invariant(self);
            found_at(self.entries@, index as int);
        }
        &self.entries[index].1
    }

    /// Where a key stands, or where it belongs.
    fn locate(&self, key: &str) -> (located: (bool, usize))
        ensures
            located.1 <= self.entries@.len(),
            located.0 ==> located.1 < self.entries@.len() && self.entries@[located.1 as int].0@
                == key@,
            !located.0 ==> {
                &&& !has_key(self.entries@, key@)
                &&& forall|i: int|
                    0 <= i < located.1 ==> precedes((#[trigger] self.entries@[i]).0@, key@)
                &&& forall|i: int|
                    located.1 <= i < self.entries@.len() ==> precedes(
                        key@,
                        (#[trigger] self.entries@[i]).0@,
                    )
            },
    {
        proof {
            use_type_invariant(self);
        }
        let ghost keys = keys_of(self.entries@);
        let mut index: usize = 0;
        while index < self.entries.len()
            invariant
                index <= self.entries@.len(),
                keys == keys_of(self.entries@),
                sorted_keys(keys),
                forall|i: int|
                    0 <= i < index ==> precedes((#[trigger] self.entries@[i]).0@, key@),
            decreases self.entries@.len() - index,
        {
            match compare(self.entries[index].0.as_str(), key) {
                Place::Same => {
                    return (true, index);
                },
                Place::After => {
                    proof {
                        let here = self.entries@[index as int].0@;
                        precedes_total(here, key@);
                        assert forall|i: int| index <= i < self.entries@.len() implies precedes(
                            key@,
                            (#[trigger] self.entries@[i]).0@,
                        ) by {
                            if i > index {
                                assert(precedes(keys[index as int], keys[i]));
                                precedes_transitive(key@, here, self.entries@[i].0@);
                            }
                        }
                        precedes_irreflexive(key@);
                    }
                    return (false, index);
                },
                Place::Before => {},
            }
            index += 1;
        }
        proof {
            precedes_irreflexive(key@);
        }
        (false, index)
    }

    pub fn get(&self, key: &str) -> (found: Option<&T>)
        ensures
            match found {
                Some(value) => self@.dom().contains(key@) && *value == self@[key@],
                None => !self@.dom().contains(key@),
            },
    {
        let (present, place) = self.locate(key);
        if present {
            proof {
                use_type_invariant(self);
                found_at(self.entries@, place as int);
            }
            Some(&self.entries[place].1)
        } else {
            None
        }
    }

    pub fn contains(&self, key: &str) -> (present: bool)
        ensures
            present == self@.dom().contains(key@),
    {
        self.get(key).is_some()
    }

    /// Put a value under a key; what stood there before is handed back.
    pub fn insert(&mut self, key: &str, value: T) -> (previous: Option<T>)
        ensures
            final(self)@ == old(self)@.insert(key@, value),
            match previous {
                Some(before) => old(self)@.dom().contains(key@) && before == old(self)@[key@],
                None => !old(self)@.dom().contains(key@),
            },
            old(self)@.dom().contains(key@) ==> final(self).keys() == old(self).keys(),
            !old(self)@.dom().contains(key@) ==> final(self).keys().len() == old(
                self,
            ).keys().len() + 1,
    {
        let (present, place) = self.locate(key);
        proof {
            use_type_invariant(&*self);
        }
        let ghost before = self.entries@;
        let mut entries: Vec<(String, T)> = Vec::new();
        proof {
            assert(keys_of(entries@) =~= Seq::empty());
        }
        core::mem::swap(&mut self.entries, &mut entries);
        if present {
            let (text, previous) = entries.remove(place);
            let ghost without = entries@;
            entries.insert(place, (text, value));
            proof {
                let after = entries@;
                assert(after =~= before.update(place as int, (text, value)));
                assert(keys_of(after) =~= keys_of(before));
                assert forall|other: Seq<char>| has_key(after, other) <==> has_key(
                    before,
                    other,
                ) by {
                    if has_key(before, other) {
                        let i = place_of_key(before, other);
                        assert(after[i].0@ == other);
                    }
                    if has_key(after, other) {
                        let i = place_of_key(after, other);
                        assert(before[i].0@ == other);
                    }
                }
                found_at(before, place as int);
                assert forall|other: Seq<char>| has_key(after, other) implies map_of(after)[other]
                    == map_of(before).insert(key@, value)[other] by {
                    let i = place_of_key(after, other);
                    found_at(after, i);
                    found_at(before, i);
                    if other == key@ {
                        one_place(after, i, place as int);
                    }
                }
                assert(map_of(after) =~= map_of(before).insert(key@, value));
            }
            self.entries = entries;
            Some(previous)
        } else {
            let text = key.to_owned();
            entries.insert(place, (text, value));
            proof {
                let after = entries@;
                assert(after =~= before.insert(place as int, (text, value)));
                inserted_keys(before, place as int, (text, value));
                assert forall|other: Seq<char>| has_key(after, other) <==> other == key@
                    || has_key(before, other) by {
                    if other == key@ {
                        assert(after[place as int].0@ == other);
                    } else if has_key(before, other) {
                        let i = place_of_key(before, other);
                        let j = if i < place {
                            i
                        } else {
                            i + 1
                        };
                        assert(after[j].0@ == other);
                    }
                    if has_key(after, other) && other != key@ {
                        let i = place_of_key(after, other);
                        let j = if i < place {
                            i
                        } else {
                            i - 1
                        };
                        assert(before[j].0@ == other);
                    }
                }
                assert forall|other: Seq<char>| has_key(after, other) implies map_of(after)[other]
                    == map_of(before).insert(key@, value)[other] by {
                    let i = place_of_key(after, other);
                    found_at(after, i);
                    if other == key@ {
                        one_place(after, i, place as int);
                    } else {
                        let j = if i < place {
                            i
                        } else {
                            i - 1
                        };
                        found_at(before, j);
                        assert(before[j] == after[i]);
                    }
                }
                assert(map_of(after) =~= map_of(before).insert(key@, value));
            }
            self.entries = entries;
            None
        }
    }

    /// Take a key out; its value is handed back.
    pub fn remove(&mut self, key: &str) -> (previous: Option<T>)
        ensures
            final(self)@ == old(self)@.remove(key@),
            match previous {
                Some(before) => old(self)@.dom().contains(key@) && before == old(self)@[key@],
                None => !old(self)@.dom().contains(key@),
            },
            old(self)@.dom().contains(key@) ==> final(self).keys().len() + 1 == old(
                self,
            ).keys().len(),
            !old(self)@.dom().contains(key@) ==> final(self).keys() == old(self).keys(),
    {
        let (present, place) = self.locate(key);
        proof {
            use_type_invariant(&*self);
        }
        let ghost before = self.entries@;
        if !present {
            proof {
                assert(map_of(before).remove(key@) =~= map_of(before));
            }
            return None;
        }
        let mut entries: Vec<(String, T)> = Vec::new();
        proof {
            assert(keys_of(entries@) =~= Seq::empty());
        }
        core::mem::swap(&mut self.entries, &mut entries);
        let (text, previous) = entries.remove(place);
        proof {
            let after = entries@;
            let keys = keys_of(before);
            assert(after =~= before.remove(place as int));
            assert forall|i: int, j: int| 0 <= i < j < keys_of(after).len() implies precedes(
                #[trigger] keys_of(after)[i],
                #[trigger] keys_of(after)[j],
            ) by {
                let k = if i < place {
                    i
                } else {
                    i + 1
                };
                let l = if j < place {
                    j
                } else {
                    j + 1
                };
                assert(keys_of(after)[i] == keys[k]);
                assert(keys_of(after)[j] == keys[l]);
            }
            found_at(before, place as int);
            assert forall|other: Seq<char>| has_key(after, other) <==> other != key@ && has_key(
                before,
                other,
            ) by {
                if has_key(after, other) {
                    let i = place_of_key(after, other);
                    let j = if i < place {
                        i
                    } else {
                        i + 1
                    };
                    assert(before[j].0@ == other);
                    if other == key@ {
                        one_place(before, j, place as int);
                    }
                }
                if other != key@ && has_key(before, other) {
                    let i = place_of_key(before, other);
                    let j = if i < place {
                        i
                    } else {
                        i - 1
                    };
                    assert(after[j].0@ == other);
                }
            }
            assert forall|other: Seq<char>| has_key(after, other) implies map_of(after)[other]
                == map_of(before)[other] by {
                let i = place_of_key(after, other);
                let j = if i < place {
                    i
                } else {
                    i + 1
                };
                found_at(after, i);
                found_at(before, j);
                assert(before[j] == after[i]);
            }
            assert(map_of(after) =~= map_of(before).remove(key@));
        }
        self.entries = entries;
        Some(previous)
    }
}

/// A new key at the place where it belongs keeps the order.
proof fn inserted_keys<T>(entries: Seq<(String, T)>, place: int, entry: (String, T))
    requires
        sorted_keys(keys_of(entries)),
        0 <= place <= entries.len(),
        forall|i: int| 0 <= i < place ==> precedes((#[trigger] entries[i]).0@, entry.0@),
        forall|i: int|
            place <= i < entries.len() ==> precedes(entry.0@, (#[trigger] entries[i]).0@),
    ensures
        sorted_keys(keys_of(entries.insert(place, entry))),
{
    let after = entries.insert(place, entry);
    let keys = keys_of(entries);
    assert forall|i: int, j: int| 0 <= i < j < keys_of(after).len() implies precedes(
        #[trigger] keys_of(after)[i],
        #[trigger] keys_of(after)[j],
    ) by {
        if i == place {
            assert(after[j] == entries[j - 1]);
        } else if j == place {
            assert(after[i] == entries[i]);
        } else {
            let k = if i < place {
                i
            } else {
                i - 1
            };
            let l = if j < place {
                j
            } else {
                j - 1
            };
            assert(after[i] == entries[k]);
            assert(after[j] == entries[l]);
            assert(precedes(keys[k], keys[l]));
        }
    }
}

} // verus!
