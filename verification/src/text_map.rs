//! A map from texts to values that keeps its keys in ascending order.

use vstd::prelude::*;

use crate::text;
use crate::text::{is_before, same};

verus! {

/// A map from texts to values, walked in ascending order of its keys.
#[derive(Debug)]
pub struct TextMap<V> {
    keys: Vec<String>,
    values: Vec<V>,
}

/// The keys of a map in ascending order.
pub open spec fn in_order(keys: Set<Seq<char>>) -> Seq<Seq<char>> {
    choose|s: Seq<Seq<char>>| text::ascending(s) && (forall|x: Seq<char>| s.contains(x) <==> keys.contains(x))
}

impl<V> View for TextMap<V> {
    type V = Map<Seq<char>, V>;

    closed spec fn view(&self) -> Map<Seq<char>, V> {
        Map::new(
            |k: Seq<char>| text::texts(self.keys@).contains(k),
            |k: Seq<char>| self.values@[text::texts(self.keys@).index_of(k)],
        )
    }
}

impl<V> TextMap<V> {
    #[verifier::type_invariant]
    spec fn well_formed(self) -> bool {
        &&& text::ascending(text::texts(self.keys@))
        &&& self.keys@.len() == self.values@.len()
    }

    /// The keys in ascending order.
    pub closed spec fn order(self) -> Seq<Seq<char>> {
        text::texts(self.keys@)
    }

    /// A map without entries.
    pub fn new() -> (r: TextMap<V>)
        ensures
            r@ == Map::<Seq<char>, V>::empty(),
    {
        let r = TextMap { keys: Vec::new(), values: Vec::new() };
        assert(r@ =~= Map::<Seq<char>, V>::empty());
        r
    }

    /// The number of entries.
    pub fn len(&self) -> (r: usize)
        ensures
            r == self.order().len(),
            self.order() == in_order(self@.dom()),
            text::ascending(self.order()),
            forall|x: Seq<char>| self.order().contains(x) <==> self@.dom().contains(x),
    {
        proof {
            use_type_invariant(self);
            let s = self.order();
            assert(text::ascending(s) && (forall|x: Seq<char>| s.contains(x) <==> self@.dom().contains(x)));
            text::ascending_is_determined(s, in_order(self@.dom()));
        }
        self.keys.len()
    }

    /// The key at a place of the walk.
    pub fn key_at(&self, i: usize) -> (r: &String)
        requires
            i < self.order().len(),
        ensures
            r@ == self.order()[i as int],
            self@.dom().contains(r@),
    {
        proof {
            assert(text::texts(self.keys@)[i as int] == self.keys@[i as int]@);
        }
        &self.keys[i]
    }

    /// The value at a place of the walk.
    pub fn value_at(&self, i: usize) -> (r: &V)
        requires
            i < self.order().len(),
        ensures
            self@.dom().contains(self.order()[i as int]),
            *r == self@[self.order()[i as int]],
    {
        proof {
            use_type_invariant(self);
            let s = text::texts(self.keys@);
            assert(s[i as int] == self.keys@[i as int]@);
            place_is_unique(s, i as int);
        }
        &self.values[i]
    }

    /// The place of `key`, or the place where it would stand.
    fn place(&self, key: &str) -> (r: (usize, bool))
        ensures
            r.0 <= self.keys@.len(),
            r.1 == self@.dom().contains(key@),
            r.1 ==> r.0 < self.keys@.len() && self.keys@[r.0 as int]@ == key@,
            !r.1 ==> (forall|j: int| 0 <= j < r.0 ==> text::before(#[trigger] self.keys@[j]@, key@)),
            !r.1 ==> (forall|j: int|
                r.0 <= j < self.keys@.len() ==> text::before(key@, #[trigger] self.keys@[j]@)),
    {
        proof {
            use_type_invariant(self);
        }
        let n: usize = self.keys.len();
        let mut at: usize = 0;
        while at < n && is_before(self.keys[at].as_str(), key)
            invariant
                n == self.keys@.len(),
                at <= n,
                forall|j: int| 0 <= j < at ==> text::before(#[trigger] self.keys@[j]@, key@),
            decreases n - at,
        {
            at += 1;
        }
        let ghost s = text::texts(self.keys@);
        if at < n && same(self.keys[at].as_str(), key) {
            proof {
                assert(s[at as int] == key@);
            }
            return (at, true);
        }
        proof {
            assert forall|j: int| at <= j < n implies text::before(key@, #[trigger] self.keys@[j]@) by {
                text::before_total(self.keys@[at as int]@, key@);
                if j > at {
                    assert(text::before(s[at as int], s[j]));
                    text::before_transitive(key@, s[at as int], s[j]);
                }
            }
            if s.contains(key@) {
                let k = choose|k: int| 0 <= k < s.len() && s[k] == key@;
                assert(self.keys@[k]@ == key@);
                text::before_irreflexive(key@);
            }
        }
        (at, false)
    }

    /// The value of `key`.
    pub fn get(&self, key: &str) -> (r: Option<&V>)
        ensures
            r == (if self@.dom().contains(key@) {
                Some(&self@[key@])
            } else {
                None
            }),
    {
        let (at, found) = self.place(key);
        if found {
            proof {
                use_type_invariant(self);
                assert(text::texts(self.keys@)[at as int] == key@);
                place_is_unique(text::texts(self.keys@), at as int);
            }
            Some(&self.values[at])
        } else {
            None
        }
    }

    /// Gives `key` the value `value`.
    pub fn insert(&mut self, key: &str, value: V)
        ensures
            final(self)@ == old(self)@.insert(key@, value),
    {
        let (at, found) = self.place(key);
        let ghost s = text::texts(self.keys@);
        let ghost before_map = self@;
        proof {
            use_type_invariant(&*self);
        }
        let mut own: TextMap<V> = TextMap::new();
        std::mem::swap(self, &mut own);
        let mut keys: Vec<String> = own.keys;
        let mut values: Vec<V> = own.values;
        let ghost old_values = values@;
        if found {
            values.set(at, value);
            proof {
                assert(s[at as int] == key@);
                place_is_unique(s, at as int);
            }
        } else {
            keys.insert(at, key.to_owned());
            values.insert(at, value);
        }
        proof {
            let t = text::texts(keys@);
            if !found {
                assert(t =~= s.insert(at as int, key@));
                assert forall|i: int, j: int| 0 <= i < j < t.len() implies text::before(
                    #[trigger] t[i],
                    #[trigger] t[j],
                ) by {
                    let x = if i < at {
                        i
                    } else {
                        i - 1
                    };
                    let y = if j < at {
                        j
                    } else {
                        j - 1
                    };
                    if i != at && j != at {
                        assert(text::before(s[x], s[y]));
                    }
                }
            } else {
                assert(t == s);
            }
        }
        *self = TextMap { keys, values };
        proof {
            let t = text::texts(self.keys@);
            assert forall|k: Seq<char>| #[trigger] t.contains(k) <==> s.contains(k) || k == key@ by {
                if !found {
                    if t.contains(k) {
                        let i = choose|i: int| 0 <= i < t.len() && t[i] == k;
                        if i < at {
                            assert(s[i] == k);
                        } else if i > at {
                            assert(s[i - 1] == k);
                        }
                    }
                    if s.contains(k) {
                        let i = choose|i: int| 0 <= i < s.len() && s[i] == k;
                        if i < at {
                            assert(t[i] == k);
                        } else {
                            assert(t[i + 1] == k);
                        }
                    }
                    assert(t[at as int] == key@);
                } else {
                    assert(s[at as int] == key@);
                }
            }
            assert forall|k: Seq<char>| t.contains(k) implies #[trigger] self@[k] == before_map.insert(
                key@,
                value,
            )[k] by {
                let i = t.index_of(k);
                assert(0 <= i < t.len() && t[i] == k);
                place_is_unique(t, i);
                if k == key@ {
                    if found {
                        place_is_unique(s, at as int);
                    } else {
                        assert(t[at as int] == key@);
                        place_is_unique(t, at as int);
                    }
                } else if found {
                    assert(i != at);
                } else {
                    assert(i != at);
                    if i < at {
                        assert(s[i] == k);
                        place_is_unique(s, i);
                    } else {
                        assert(s[i - 1] == k);
                        place_is_unique(s, i - 1);
                    }
                }
            }
            assert(self@.dom() =~= before_map.insert(key@, value).dom());
            assert(self@ =~= before_map.insert(key@, value));
        }
    }
}

/// In an ascending list each text has one place.
proof fn place_is_unique(s: Seq<Seq<char>>, i: int)
    requires
        text::ascending(s),
        0 <= i < s.len(),
    ensures
        s.contains(s[i]),
        s.index_of(s[i]) == i,
{
    let k = s.index_of(s[i]);
    assert(s.contains(s[i]));
    assert(0 <= k < s.len() && s[k] == s[i]);
    text::before_irreflexive(s[i]);
    if k < i {
        assert(text::before(s[k], s[i]));
    }
    if i < k {
        assert(text::before(s[i], s[k]));
    }
}

/// Where `item` would stand in an ascending list that does not hold it.
proof fn place_for(s: Seq<Seq<char>>, item: Seq<char>) -> (at: int)
    requires
        text::ascending(s),
        !s.contains(item),
    ensures
        0 <= at <= s.len(),
        forall|j: int| 0 <= j < at ==> text::before(#[trigger] s[j], item),
        forall|j: int| at <= j < s.len() ==> text::before(item, #[trigger] s[j]),
    decreases s.len(),
{
    if s.len() == 0 {
        0
    } else {
        let shorter = s.drop_last();
        assert forall|i: int, j: int| 0 <= i < j < shorter.len() implies text::before(
            #[trigger] shorter[i],
            #[trigger] shorter[j],
        ) by {
            assert(text::before(s[i], s[j]));
        }
        if shorter.contains(item) {
            let k = choose|k: int| 0 <= k < shorter.len() && shorter[k] == item;
            assert(s[k] == item);
        }
        let at = place_for(shorter, item);
        text::before_total(s.last(), item);
        assert(s[s.len() - 1] == s.last());
        if text::before(s.last(), item) {
            if at < shorter.len() {
                assert(text::before(item, shorter[at]));
                assert(text::before(s[at], s[s.len() - 1]));
                text::before_transitive(item, s[at], s.last());
                text::before_transitive(item, s.last(), item);
                text::before_irreflexive(item);
            }
            assert forall|j: int| 0 <= j < s.len() implies text::before(#[trigger] s[j], item) by {
                if j < shorter.len() {
                    assert(text::before(shorter[j], item));
                }
            }
            s.len() as int
        } else {
            assert forall|j: int| at <= j < s.len() implies text::before(item, #[trigger] s[j]) by {
                if j < shorter.len() {
                    assert(text::before(item, shorter[j]));
                }
            }
            assert forall|j: int| 0 <= j < at implies text::before(#[trigger] s[j], item) by {
                assert(text::before(shorter[j], item));
            }
            at
        }
    }
}

/// A finite set of texts can be listed in ascending order.
proof fn ascending_exists(keys: Set<Seq<char>>) -> (s: Seq<Seq<char>>)
    requires
        keys.finite(),
    ensures
        text::ascending(s),
        forall|x: Seq<char>| s.contains(x) <==> keys.contains(x),
    decreases keys.len(),
{
    if keys.len() == 0 {
        assert(keys =~= Set::empty());
        Seq::empty()
    } else {
        let item = keys.choose();
        let s = ascending_exists(keys.remove(item));
        let at = place_for(s, item);
        let t = s.insert(at, item);
        assert forall|i: int, j: int| 0 <= i < j < t.len() implies text::before(
            #[trigger] t[i],
            #[trigger] t[j],
        ) by {
            let x = if i < at {
                i
            } else {
                i - 1
            };
            let y = if j < at {
                j
            } else {
                j - 1
            };
            if i != at && j != at {
                assert(text::before(s[x], s[y]));
            }
        }
        assert forall|x: Seq<char>| t.contains(x) <==> keys.contains(x) by {
            if t.contains(x) {
                let k = choose|k: int| 0 <= k < t.len() && t[k] == x;
                if k < at {
                    assert(s[k] == x);
                } else if k > at {
                    assert(s[k - 1] == x);
                }
            }
            if keys.contains(x) {
                if x == item {
                    assert(t[at] == x);
                } else {
                    assert(s.contains(x));
                    let k = choose|k: int| 0 <= k < s.len() && s[k] == x;
                    if k < at {
                        assert(t[k] == x);
                    } else {
                        assert(t[k + 1] == x);
                    }
                }
            }
        }
        t
    }
}

/// The order of a finite set of texts is ascending and lists exactly its members.
pub proof fn in_order_lists_members(keys: Set<Seq<char>>)
    requires
        keys.finite(),
    ensures
        text::ascending(in_order(keys)),
        forall|x: Seq<char>| in_order(keys).contains(x) <==> keys.contains(x),
{
    let s = ascending_exists(keys);
    assert(text::ascending(s) && (forall|x: Seq<char>| s.contains(x) <==> keys.contains(x)));
}

} // verus!
