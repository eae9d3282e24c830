//! JSON values as the records of the runtime hold them.

use vstd::prelude::*;

use crate::text::same;

verus! {

/// A JSON value.
#[derive(Debug)]
pub enum Json {
    Null,
    Bool(bool),
    /// An integer that fits in an `i64`.
    Int(i64),
    /// An integer of an `u64`.
    Large(u64),
    /// A number with a fraction or an exponent, as it is spelled.
    Real(String),
    Text(String),
    Array(Vec<Json>),
    Object(JsonMap),
}

/// A JSON object: of two entries with one key the later one counts.
#[derive(Debug)]
pub struct JsonMap {
    pub entries: Vec<(String, Json)>,
}

/// What a JSON value stands for.
#[verifier::ext_equal]
pub enum JsonTree {
    Null,
    Bool(bool),
    Int(int),
    Real(Seq<char>),
    Text(Seq<char>),
    Array(Seq<JsonTree>),
    Object(Map<Seq<char>, JsonTree>),
}

/// What the values of an array stand for.
pub open spec fn array_view(items: Seq<Json>) -> Seq<JsonTree>
    decreases items,
{
    Seq::new(
        items.len(),
        |i: int|
            if 0 <= i < items.len() {
                items[i].view()
            } else {
                JsonTree::Null
            },
    )
}

/// What the entries of an object stand for.
pub open spec fn entries_view(entries: Seq<(String, Json)>) -> Map<Seq<char>, JsonTree>
    decreases entries,
{
    if entries.len() == 0 {
        Map::empty()
    } else {
        entries_view(entries.drop_last()).insert(entries.last().0@, entries.last().1.view())
    }
}

impl View for Json {
    type V = JsonTree;

    open spec fn view(&self) -> JsonTree
        decreases self,
    {
        match self {
            Json::Null => JsonTree::Null,
            Json::Bool(b) => JsonTree::Bool(*b),
            Json::Int(n) => JsonTree::Int(*n as int),
            Json::Large(n) => JsonTree::Int(*n as int),
            Json::Real(s) => JsonTree::Real(s@),
            Json::Text(s) => JsonTree::Text(s@),
            Json::Array(items) => JsonTree::Array(array_view(items@)),
            Json::Object(map) => JsonTree::Object(entries_view(map.entries@)),
        }
    }
}

impl View for JsonMap {
    type V = Map<Seq<char>, JsonTree>;

    open spec fn view(&self) -> Map<Seq<char>, JsonTree> {
        entries_view(self.entries@)
    }
}

/// Where no entry after `at` has the key of entry `at`, that entry's value counts.
proof fn latest_entry_counts(entries: Seq<(String, Json)>, at: int)
    requires
        0 <= at < entries.len(),
        forall|j: int| at < j < entries.len() ==> #[trigger] entries[j].0@ != entries[at].0@,
    ensures
        entries_view(entries).dom().contains(entries[at].0@),
        entries_view(entries)[entries[at].0@] == entries[at].1.view(),
    decreases entries.len(),
{
    reveal_with_fuel(entries_view, 2);
    if at < entries.len() - 1 {
        let shorter = entries.drop_last();
        assert forall|j: int| at < j < shorter.len() implies #[trigger] shorter[j].0@
            != shorter[at].0@ by {
            assert(entries[j].0@ != entries[at].0@);
        }
        latest_entry_counts(shorter, at);
        assert(entries[entries.len() - 1].0@ != entries[at].0@);
    }
}

/// A key that no entry has is not in the object.
proof fn absent_key(entries: Seq<(String, Json)>, key: Seq<char>)
    requires
        forall|j: int| 0 <= j < entries.len() ==> #[trigger] entries[j].0@ != key,
    ensures
        !entries_view(entries).dom().contains(key),
    decreases entries.len(),
{
    reveal_with_fuel(entries_view, 2);
    if entries.len() > 0 {
        let shorter = entries.drop_last();
        assert forall|j: int| 0 <= j < shorter.len() implies #[trigger] shorter[j].0@ != key by {
            assert(entries[j].0@ != key);
        }
        absent_key(shorter, key);
        assert(entries[entries.len() - 1].0@ != key);
    }
}

/// Each key of the object stands in some entry.
pub proof fn key_has_entry(entries: Seq<(String, Json)>, key: Seq<char>)
    requires
        entries_view(entries).dom().contains(key),
    ensures
        exists|j: int| 0 <= j < entries.len() && #[trigger] entries[j].0@ == key,
{
    if forall|j: int| 0 <= j < entries.len() ==> #[trigger] entries[j].0@ != key {
        absent_key(entries, key);
    }
}

/// Each entry's key is in the object.
pub proof fn entry_has_key(entries: Seq<(String, Json)>, at: int)
    requires
        0 <= at < entries.len(),
    ensures
        entries_view(entries).dom().contains(entries[at].0@),
    decreases entries.len(),
{
    reveal_with_fuel(entries_view, 2);
    if at < entries.len() - 1 {
        assert(entries.drop_last()[at] == entries[at]);
        entry_has_key(entries.drop_last(), at);
    }
}

/// Taking an entry out changes nothing for the other keys.
proof fn removing_entry(entries: Seq<(String, Json)>, at: int)
    requires
        0 <= at < entries.len(),
    ensures
        entries_view(entries.remove(at)).remove(entries[at].0@) == entries_view(entries).remove(
            entries[at].0@,
        ),
    decreases entries.len(),
{
    reveal_with_fuel(entries_view, 2);
    let key = entries[at].0@;
    let shorter = entries.drop_last();
    if at == entries.len() - 1 {
        assert(entries.remove(at) =~= shorter);
        assert(entries_view(shorter).insert(key, entries.last().1.view()).remove(key)
            =~= entries_view(shorter).remove(key));
    } else {
        assert(shorter[at] == entries[at]);
        removing_entry(shorter, at);
        assert(entries.remove(at).drop_last() =~= shorter.remove(at));
        assert(entries.remove(at).last() == entries.last());
        let left = entries_view(shorter.remove(at));
        let right = entries_view(shorter);
        let k = entries.last().0@;
        let v = entries.last().1.view();
        assert(left.remove(key) == right.remove(key));
        if k == key {
            assert(left.insert(k, v).remove(key) =~= left.remove(key));
            assert(right.insert(k, v).remove(key) =~= right.remove(key));
        } else {
            assert(left.insert(k, v).remove(key) =~= left.remove(key).insert(k, v));
            assert(right.insert(k, v).remove(key) =~= right.remove(key).insert(k, v));
        }
    }
}

/// The values of an array stand for their own views, one by one.
pub broadcast proof fn array_view_members(items: Seq<Json>)
    ensures
        #![trigger array_view(items)]
        array_view(items) == items.map_values(|item: Json| item@),
{
    reveal_with_fuel(array_view, 2);
    assert(array_view(items) =~= items.map_values(|item: Json| item@));
}

impl JsonMap {
    /// An object without entries.
    pub fn new() -> (r: JsonMap)
        ensures
            r@ == Map::<Seq<char>, JsonTree>::empty(),
    {
        JsonMap { entries: Vec::new() }
    }

    /// The index of the entry that counts for `key`.
    pub fn find(&self, key: &str) -> (r: Option<usize>)
        ensures
            r is Some <==> self@.dom().contains(key@),
            r matches Some(at) ==> at < self.entries.len() && self.entries@[at as int].0@ == key@
                && self@[key@] == self.entries@[at as int].1@,
    {
        let mut i: usize = self.entries.len();
        while i > 0
            invariant
                i <= self.entries.len(),
                forall|j: int| i <= j < self.entries.len() ==> #[trigger] self.entries@[j].0@ != key@,
            decreases i,
        {
            if same(self.entries[i - 1].0.as_str(), key) {
                proof {
                    latest_entry_counts(self.entries@, i - 1);
                }
                return Some(i - 1);
            }
            i -= 1;
        }
        proof {
            absent_key(self.entries@, key@);
        }
        None
    }

    /// The value of `key`.
    pub fn get(&self, key: &str) -> (r: Option<&Json>)
        ensures
            r is Some <==> self@.dom().contains(key@),
            r matches Some(v) ==> v@ == self@[key@],
    {
        match self.find(key) {
            Some(at) => Some(&self.entries[at].1),
            None => None,
        }
    }

    /// Whether the object has `key`.
    pub fn contains_key(&self, key: &str) -> (r: bool)
        ensures
            r == self@.dom().contains(key@),
    {
        self.find(key).is_some()
    }

    /// Takes `key` out of the object.
    pub fn remove(&mut self, key: &str)
        ensures
            final(self)@ == old(self)@.remove(key@),
    {
        let mut found = self.find(key);
        while found.is_some()
            invariant
                found is Some <==> self@.dom().contains(key@),
                found matches Some(at) ==> at < self.entries.len() && self.entries@[at as int].0@
                    == key@,
                self@.remove(key@) == old(self)@.remove(key@),
            decreases self.entries.len(),
        {
            if let Some(at) = found {
                proof {
                    removing_entry(self.entries@, at as int);
                }
                let _gone = self.entries.remove(at);
            }
            found = self.find(key);
        }
        assert(self@.remove(key@) =~= self@);
    }

    /// Gives `key` the value `value`.
    pub fn insert(&mut self, key: &str, value: Json)
        ensures
            final(self)@ == old(self)@.insert(key@, value@),
    {
        self.remove(key);
        let ghost rest = self.entries@;
        self.entries.push((key.to_owned(), value));
        proof {
            assert(self.entries@.drop_last() =~= rest);
            assert(old(self)@.remove(key@).insert(key@, value@) =~= old(self)@.insert(key@, value@));
        }
    }

    /// The object with `key` set to `value`.
    pub fn with(self, key: &str, value: Json) -> (r: JsonMap)
        ensures
            r@ == self@.insert(key@, value@),
    {
        let mut out = self;
        out.insert(key, value);
        out
    }
}

/// The value of `key` where `tree` is an object that has it.
pub open spec fn member(tree: JsonTree, key: Seq<char>) -> Option<JsonTree> {
    match tree {
        JsonTree::Object(map) => if map.dom().contains(key) {
            Some(map[key])
        } else {
            None
        },
        _ => None,
    }
}

/// The text of `key` where `tree` is an object in which that key has a text.
pub open spec fn text_member(tree: JsonTree, key: Seq<char>) -> Option<Seq<char>> {
    match member(tree, key) {
        Some(JsonTree::Text(t)) => Some(t),
        _ => None,
    }
}

/// The number of `key` where `tree` is an object in which that key has an integer of an `i64`.
pub open spec fn i64_member(tree: JsonTree, key: Seq<char>) -> Option<int> {
    match member(tree, key) {
        Some(JsonTree::Int(n)) => if i64::MIN <= n <= i64::MAX {
            Some(n)
        } else {
            None
        },
        _ => None,
    }
}

/// An optional text as a JSON value: the text, or null.
pub open spec fn text_or_null(value: Option<Seq<char>>) -> JsonTree {
    match value {
        Some(t) => JsonTree::Text(t),
        None => JsonTree::Null,
    }
}

/// A list of texts as a JSON array.
pub open spec fn text_array(list: Seq<Seq<char>>) -> JsonTree {
    JsonTree::Array(list.map_values(|t: Seq<char>| JsonTree::Text(t)))
}

impl Json {
    /// A text.
    pub fn text(value: &str) -> (r: Json)
        ensures
            r@ == JsonTree::Text(value@),
    {
        Json::Text(value.to_owned())
    }

    /// A text, or null.
    pub fn optional_text(value: &Option<String>) -> (r: Json)
        ensures
            r@ == text_or_null(crate::text::option_text(*value)),
    {
        match value {
            Some(t) => Json::Text(t.clone()),
            None => Json::Null,
        }
    }

    /// An array of texts.
    pub fn texts(list: &Vec<String>) -> (r: Json)
        ensures
            r@ == text_array(crate::text::texts(list@)),
    {
        let mut out: Vec<Json> = Vec::new();
        let mut i: usize = 0;
        while i < list.len()
            invariant
                i <= list.len(),
                out.len() == i,
                forall|j: int| 0 <= j < i ==> #[trigger] out@[j]@ == JsonTree::Text(list@[j]@),
            decreases list.len() - i,
        {
            out.push(Json::Text(list[i].clone()));
            i += 1;
        }
        let r = Json::Array(out);
        proof {
            array_view_members(out@);
            assert(array_view(out@) =~= crate::text::texts(list@).map_values(
                |t: Seq<char>| JsonTree::Text(t),
            ));
        }
        r
    }

    /// The value of `key` where this is an object that has it.
    pub fn field(&self, key: &str) -> (r: Option<&Json>)
        ensures
            r is Some <==> member(self@, key@) is Some,
            r matches Some(v) ==> v@ == member(self@, key@)->0,
    {
        match self {
            Json::Object(map) => map.get(key),
            _ => None,
        }
    }

    /// The text that this value is.
    pub fn as_text(&self) -> (r: Option<&String>)
        ensures
            r is Some <==> self@ is Text,
            r matches Some(t) ==> self@ == JsonTree::Text(t@),
    {
        match self {
            Json::Text(t) => Some(t),
            _ => None,
        }
    }

    /// The integer of an `i64` that this value is.
    pub fn as_i64(&self) -> (r: Option<i64>)
        ensures
            r is Some <==> (self@ is Int && i64::MIN <= self@->Int_0 <= i64::MAX),
            r matches Some(n) ==> self@ == JsonTree::Int(n as int),
    {
        match self {
            Json::Int(n) => Some(*n),
            Json::Large(n) => if *n <= i64::MAX as u64 {
                Some(*n as i64)
            } else {
                None
            },
            _ => None,
        }
    }

    /// The text of `key`.
    pub fn text_field(&self, key: &str) -> (r: Option<String>)
        ensures
            crate::text::option_text(r) == text_member(self@, key@),
    {
        match self.field(key) {
            Some(v) => match v.as_text() {
                Some(t) => Some(t.clone()),
                None => None,
            },
            None => None,
        }
    }

    /// The integer of `key`.
    pub fn i64_field(&self, key: &str) -> (r: Option<i64>)
        ensures
            r is Some <==> i64_member(self@, key@) is Some,
            r matches Some(n) ==> i64_member(self@, key@) == Some(n as int),
    {
        match self.field(key) {
            Some(v) => v.as_i64(),
            None => None,
        }
    }

    /// Whether the text of `key` is `value`.
    pub fn field_is(&self, key: &str, value: &str) -> (r: bool)
        ensures
            r == (text_member(self@, key@) == Some(value@)),
    {
        match self.text_field(key) {
            Some(t) => same(t.as_str(), value),
            None => false,
        }
    }
}

impl Json {
    /// An object.
    pub fn object(map: JsonMap) -> (r: Json)
        ensures
            r@ == JsonTree::Object(map@),
    {
        Json::Object(map)
    }

    /// A copy of this value.
    pub fn copy(&self) -> (r: Json)
        ensures
            r@ == self@,
        decreases self,
    {
        match self {
            Json::Null => Json::Null,
            Json::Bool(b) => Json::Bool(*b),
            Json::Int(n) => Json::Int(*n),
            Json::Large(n) => Json::Large(*n),
            Json::Real(s) => Json::Real(s.clone()),
            Json::Text(s) => Json::Text(s.clone()),
            Json::Array(items) => {
                let mut out: Vec<Json> = Vec::new();
                let mut i: usize = 0;
                while i < items.len()
                    invariant
                        i <= items.len(),
                        out.len() == i,
                        self matches Json::Array(own) && own == items,
                        forall|j: int| 0 <= j < i ==> #[trigger] out@[j]@ == items@[j]@,
                    decreases items.len() - i,
                {
                    let item = items[i].copy();
                    out.push(item);
                    i += 1;
                }
                proof {
                    array_view_members(items@);
                    array_view_members(out@);
                    assert(array_view(out@) =~= array_view(items@));
                }
                Json::Array(out)
            },
            Json::Object(map) => {
                let mut out: Vec<(String, Json)> = Vec::new();
                let mut i: usize = 0;
                while i < map.entries.len()
                    invariant
                        i <= map.entries.len(),
                        out.len() == i,
                        self matches Json::Object(own) && own == map,
                        forall|j: int|
                            0 <= j < i ==> (#[trigger] out@[j]).0@ == map.entries@[j].0@ && out@[j].1@
                                == map.entries@[j].1@,
                    decreases map.entries.len() - i,
                {
                    let item = map.entries[i].1.copy();
                    out.push((map.entries[i].0.clone(), item));
                    i += 1;
                }
                proof {
                    same_entries(out@, map.entries@);
                }
                Json::Object(JsonMap { entries: out })
            },
        }
    }

    /// Whether two values are alike.
    pub fn equals(&self, other: &Json) -> (r: bool)
        ensures
            r == alike(self@, other@),
        decreases self,
    {
        match (self, other) {
            (Json::Null, Json::Null) => true,
            (Json::Bool(a), Json::Bool(b)) => *a == *b,
            (Json::Int(a), Json::Int(b)) => *a == *b,
            (Json::Large(a), Json::Large(b)) => *a == *b,
            (Json::Int(a), Json::Large(b)) => *a >= 0 && *a as u64 == *b,
            (Json::Large(a), Json::Int(b)) => *b >= 0 && *a == *b as u64,
            (Json::Real(a), Json::Real(b)) => same(a.as_str(), b.as_str()) || (is_zero(a.as_str())
                && is_zero(b.as_str())),
            (Json::Text(a), Json::Text(b)) => same(a.as_str(), b.as_str()),
            (Json::Array(a), Json::Array(b)) => {
                proof {
                    array_view_members(a@);
                    array_view_members(b@);
                }
                if a.len() != b.len() {
                    assert(array_view(a@).len() != array_view(b@).len());
                    return false;
                }
                let mut i: usize = 0;
                while i < a.len()
                    invariant
                        i <= a.len() == b.len(),
                        self matches Json::Array(own) && own == a,
                        self@ == JsonTree::Array(array_view(a@)),
                        other@ == JsonTree::Array(array_view(b@)),
                        array_view(a@) == a@.map_values(|item: Json| item@),
                        array_view(b@) == b@.map_values(|item: Json| item@),
                        forall|j: int| 0 <= j < i ==> alike(#[trigger] a@[j]@, b@[j]@),
                    decreases a.len() - i,
                {
                    if !a[i].equals(&b[i]) {
                        proof {
                            let x = array_view(a@);
                            let y = array_view(b@);
                            assert(x[i as int] == a@[i as int]@ && y[i as int] == b@[i as int]@);
                            assert(!alike(x[i as int], y[i as int]));
                        }
                        return false;
                    }
                    i += 1;
                }
                proof {
                    let x = array_view(a@);
                    let y = array_view(b@);
                    assert forall|j: int| 0 <= j < x.len() implies alike(#[trigger] x[j], y[j]) by {
                        assert(x[j] == a@[j]@ && y[j] == b@[j]@);
                    }
                }
                true
            },
            (Json::Object(a), Json::Object(b)) => {
                let mut i: usize = 0;
                while i < a.entries.len()
                    invariant
                        i <= a.entries.len(),
                        self matches Json::Object(own) && own == a,
                        self@ == JsonTree::Object(a@),
                        other@ == JsonTree::Object(b@),
                        forall|j: int|
                            0 <= j < i ==> b@.dom().contains((#[trigger] a.entries@[j]).0@) && alike(
                                a@[a.entries@[j].0@],
                                b@[a.entries@[j].0@],
                            ),
                    decreases a.entries.len() - i,
                {
                    let key: &str = a.entries[i].0.as_str();
                    proof {
                        entry_has_key(a.entries@, i as int);
                    }
                    match (a.find(key), b.find(key)) {
                        (Some(x), Some(y)) => {
                            if !a.entries[x].1.equals(&b.entries[y].1) {
                                proof {
                                    assert(!alike(a@[key@], b@[key@]));
                                }
                                return false;
                            }
                        },
                        _ => {
                            proof {
                                assert(a@.dom().contains(key@));
                                assert(!b@.dom().contains(key@));
                            }
                            return false;
                        },
                    }
                    i += 1;
                }
                let mut k: usize = 0;
                while k < b.entries.len()
                    invariant
                        k <= b.entries.len(),
                        self@ == JsonTree::Object(a@),
                        other@ == JsonTree::Object(b@),
                        forall|j: int|
                            0 <= j < a.entries.len() ==> b@.dom().contains(
                                (#[trigger] a.entries@[j]).0@,
                            ) && alike(a@[a.entries@[j].0@], b@[a.entries@[j].0@]),
                        forall|j: int|
                            0 <= j < k ==> a@.dom().contains((#[trigger] b.entries@[j]).0@),
                    decreases b.entries.len() - k,
                {
                    proof {
                        entry_has_key(b.entries@, k as int);
                    }
                    if !a.contains_key(b.entries[k].0.as_str()) {
                        proof {
                            assert(!a@.dom().contains(b.entries@[k as int].0@));
                        }
                        return false;
                    }
                    k += 1;
                }
                proof {
                    assert forall|x: Seq<char>| #[trigger]
                        a@.dom().contains(x) implies b@.dom().contains(x) && alike(a@[x], b@[x]) by {
                        key_has_entry(a.entries@, x);
                    }
                    assert forall|x: Seq<char>| #[trigger]
                        b@.dom().contains(x) implies a@.dom().contains(x) by {
                        key_has_entry(b.entries@, x);
                    }
                    assert(a@.dom() =~= b@.dom());
                }
                true
            },
            _ => false,
        }
    }
}

/// Whether a number is spelled as zero: it is the same number with either sign.
pub open spec fn spells_zero(spelled: Seq<char>) -> bool {
    spelled == "0.0"@ || spelled == "-0.0"@
}

fn is_zero(spelled: &str) -> (r: bool)
    ensures
        r == spells_zero(spelled@),
{
    same(spelled, "0.0") || same(spelled, "-0.0")
}

/// Whether two values are alike: they are the same, where zero counts as one number
/// whatever its sign.
pub open spec fn alike(a: JsonTree, b: JsonTree) -> bool
    decreases a,
{
    match (a, b) {
        (JsonTree::Real(x), JsonTree::Real(y)) => x == y || (spells_zero(x) && spells_zero(y)),
        (JsonTree::Array(x), JsonTree::Array(y)) => x.len() == y.len() && forall|i: int|
            0 <= i < x.len() ==> alike(#[trigger] x[i], y[i]),
        (JsonTree::Object(x), JsonTree::Object(y)) => x.dom() == y.dom() && forall|k: Seq<char>| #[trigger]
            x.dom().contains(k) ==> alike(x[k], y[k]),
        _ => a == b,
    }
}

/// A value is like itself.
pub proof fn alike_to_itself(a: JsonTree)
    ensures
        alike(a, a),
    decreases a,
{
    match a {
        JsonTree::Array(x) => {
            assert forall|i: int| 0 <= i < x.len() implies alike(#[trigger] x[i], x[i]) by {
                alike_to_itself(x[i]);
            }
        },
        JsonTree::Object(x) => {
            assert forall|k: Seq<char>| #[trigger] x.dom().contains(k) implies alike(x[k], x[k]) by {
                alike_to_itself(x[k]);
            }
        },
        _ => {},
    }
}

/// Entries that stand for the same make objects that stand for the same.
proof fn same_entries(a: Seq<(String, Json)>, b: Seq<(String, Json)>)
    requires
        a.len() == b.len(),
        forall|j: int|
            0 <= j < a.len() ==> (#[trigger] a[j]).0@ == b[j].0@ && a[j].1@ == b[j].1@,
    ensures
        entries_view(a) == entries_view(b),
    decreases a.len(),
{
    reveal_with_fuel(entries_view, 2);
    if a.len() > 0 {
        assert(a.last().0@ == b.last().0@ && a.last().1@ == b.last().1@) by {
            assert(a[a.len() - 1].0@ == b[a.len() - 1].0@);
        }
        assert forall|j: int| 0 <= j < a.drop_last().len() implies (#[trigger] a.drop_last()[j]).0@
            == b.drop_last()[j].0@ && a.drop_last()[j].1@ == b.drop_last()[j].1@ by {
            assert(a[j].0@ == b[j].0@);
        }
        same_entries(a.drop_last(), b.drop_last());
    }
}

impl JsonMap {
    /// The same object once more.
    pub fn copy(&self) -> (r: JsonMap)
        ensures
            r@ == self@,
    {
        let mut out: Vec<(String, Json)> = Vec::new();
        let mut i: usize = 0;
        while i < self.entries.len()
            invariant
                i <= self.entries.len(),
                out.len() == i,
                forall|j: int|
                    0 <= j < i ==> (#[trigger] out@[j]).0@ == self.entries@[j].0@ && out@[j].1@
                        == self.entries@[j].1@,
            decreases self.entries.len() - i,
        {
            let item = self.entries[i].1.copy();
            out.push((self.entries[i].0.clone(), item));
            i += 1;
        }
        proof {
            same_entries(out@, self.entries@);
        }
        JsonMap { entries: out }
    }
}

/// `serde_json::Value`, the form in which a value is handed to the serializers.
#[verifier::external_type_specification]
#[verifier::external_body]
pub struct ExValue(serde_json::Value);

/// The compact JSON text of a value.
pub uninterp spec fn json_text_of(tree: JsonTree) -> Seq<char>;

/// The canonical JSON bytes of a value, where it has such a form.
pub uninterp spec fn canonical_json_of(tree: JsonTree) -> Option<Seq<u8>>;

/// Builds the `serde_json::Value` with the same contents. Nothing is claimed of it:
/// what the serializers make of it is named where they are called.
#[verifier::external_body]
fn to_value(value: &Json) -> serde_json::Value {
    match value {
        Json::Null => serde_json::Value::Null,
        Json::Bool(b) => serde_json::Value::Bool(*b),
        Json::Int(n) => serde_json::Value::from(*n),
        Json::Large(n) => serde_json::Value::from(*n),
        Json::Real(s) => serde_json::from_str(s).unwrap_or_default(),
        Json::Text(s) => serde_json::Value::from(s.as_str()),
        Json::Array(items) => items.iter().map(to_value).collect(),
        Json::Object(map) => map.entries.iter().map(|(k, v)| (k.clone(), to_value(v))).collect(),
    }
}

/// Calls `serde_json::to_string`, which writes the compact text of a value: it
/// depends on the value alone.
#[verifier::external_body]
pub(crate) fn json_text(value: &Json) -> (r: String)
    ensures
        r@ == json_text_of(value@),
{
    serde_json::to_string(&to_value(value)).unwrap_or_default()
}

/// Calls `serde_json_canonicalizer::to_vec`, which writes the canonical form of a
/// value or fails: the outcome depends on the value alone.
#[verifier::external_body]
pub(crate) fn canonical_bytes(value: &Json) -> (r: Option<Vec<u8>>)
    ensures
        canonical_json_of(value@) == (match r {
            Some(bytes) => Some(bytes@),
            None => None,
        }),
{
    serde_json_canonicalizer::to_vec(&to_value(value)).ok()
}

/// How deep arrays and objects may lie in one another for `serde_json` to read them.
pub const READER_DEPTH: usize = 127;

/// Whether a value, at most so deep, is read back as it is written: no number in it has a
/// fraction or an exponent, which may be spelled otherwise when it is written.
pub open spec fn reads_back(tree: JsonTree, depth: nat) -> bool
    decreases tree,
{
    match tree {
        JsonTree::Real(_) => false,
        JsonTree::Int(n) => i64::MIN <= n <= u64::MAX,
        JsonTree::Array(items) => depth > 0 && forall|i: int|
            0 <= i < items.len() ==> reads_back(#[trigger] items[i], (depth - 1) as nat),
        JsonTree::Object(map) => depth > 0 && map.dom().finite() && forall|k: Seq<char>| #[trigger]
            map.dom().contains(k) ==> reads_back(map[k], (depth - 1) as nat),
        _ => true,
    }
}

/// The value that a JSON text spells, or what is said of a text that spells none.
pub uninterp spec fn json_value_of(text: Seq<char>) -> Result<JsonTree, Seq<char>>;

/// Builds the value with the contents of a `serde_json::Value`. Nothing is claimed of
/// it: what a parse hands back is named where it is called.
#[verifier::external_body]
fn from_value(value: serde_json::Value) -> Json {
    match value {
        serde_json::Value::Null => Json::Null,
        serde_json::Value::Bool(b) => Json::Bool(b),
        serde_json::Value::Number(n) => match (n.as_i64(), n.as_u64()) {
            (Some(i), _) => Json::Int(i),
            (None, Some(u)) => Json::Large(u),
            (None, None) => Json::Real(n.to_string()),
        },
        serde_json::Value::String(s) => Json::Text(s),
        serde_json::Value::Array(items) => Json::Array(items.into_iter().map(from_value).collect()),
        serde_json::Value::Object(map) => Json::Object(
            JsonMap { entries: map.into_iter().map(|(k, v)| (k, from_value(v))).collect() }),
    }
}

/// Calls `serde_json::from_str`, which reads a value out of a JSON text or fails, and
/// takes the message of the failure: the outcome depends on the text alone. Out of what
/// `serde_json::to_string` wrote of a value it reads that value, where no number in it has a
/// fraction or an exponent and it is nested no deeper than `serde_json` reads.
#[verifier::external_body]
pub(crate) fn parse_json(text: &str) -> (r: Result<Json, String>)
    ensures
        json_value_of(text@) == (match r {
            Ok(value) => Ok::<JsonTree, Seq<char>>(value@),
            Err(message) => Err::<JsonTree, Seq<char>>(message@),
        }),
        forall|tree: JsonTree|
            reads_back(tree, READER_DEPTH as nat) && text@ == #[trigger] json_text_of(tree)
                ==> match r {
                Ok(value) => value@ == tree,
                Err(_) => false,
            },
{
    match serde_json::from_str::<serde_json::Value>(text) {
        Ok(value) => Ok(from_value(value)),
        Err(error) => Err(error.to_string()),
    }
}

/// The value that JSON bytes spell, or what is said of bytes that spell none.
pub uninterp spec fn json_value_of_bytes(bytes: Seq<u8>) -> Result<JsonTree, Seq<char>>;

/// Calls `serde_json::from_slice`, which reads a value out of the bytes of a JSON text or
/// fails, and takes the message of the failure: the outcome depends on the bytes alone. It
/// is that of `serde_json::from_str` on the text that the bytes encode, and a failure where
/// they are no UTF-8. Of what `serde_json::to_string` wrote it reads what was written, as
/// `serde_json::from_str` does.
#[verifier::external_body]
pub(crate) fn parse_json_bytes(bytes: &[u8]) -> (r: Result<Json, String>)
    ensures
        json_value_of_bytes(bytes@) == (match r {
            Ok(value) => Ok::<JsonTree, Seq<char>>(value@),
            Err(message) => Err::<JsonTree, Seq<char>>(message@),
        }),
        vstd::utf8::valid_utf8(bytes@) ==> json_value_of(vstd::utf8::decode_utf8(bytes@)) == (match r {
            Ok(value) => Ok::<JsonTree, Seq<char>>(value@),
            Err(message) => Err::<JsonTree, Seq<char>>(message@),
        }),
        !vstd::utf8::valid_utf8(bytes@) ==> r is Err,
        forall|tree: JsonTree|
            reads_back(tree, READER_DEPTH as nat) && bytes@ == vstd::utf8::encode_utf8(
                #[trigger] json_text_of(tree),
            ) ==> match r {
                Ok(value) => value@ == tree,
                Err(_) => false,
            },
{
    match serde_json::from_slice::<serde_json::Value>(bytes) {
        Ok(value) => Ok(from_value(value)),
        Err(error) => Err(error.to_string()),
    }
}

/// The texts that a JSON text lists, or what is said of a text that lists none.
pub uninterp spec fn json_texts_of(text: Seq<char>) -> Result<Seq<Seq<char>>, Seq<char>>;

/// Calls `serde_json::from_str` for a list of texts, which reads them out of a JSON text or
/// fails, and takes the message of the failure: the outcome depends on the text alone. Out
/// of what `serde_json::to_string` wrote of a list of texts it reads that list.
#[verifier::external_body]
pub(crate) fn parse_texts(text: &str) -> (r: Result<Vec<String>, String>)
    ensures
        forall|list: Seq<Seq<char>>|
            text@ == #[trigger] json_text_of(text_array(list)) ==> match r {
                Ok(read) => crate::text::texts(read@) == list,
                Err(_) => false,
            },
        json_texts_of(text@) == (match r {
            Ok(list) => Ok::<Seq<Seq<char>>, Seq<char>>(crate::text::texts(list@)),
            Err(message) => Err::<Seq<Seq<char>>, Seq<char>>(message@),
        }),
{
    serde_json::from_str::<Vec<String>>(text).map_err(|error| error.to_string())
}

/// Reads a value as it is stored or handed in: a JSON text. What [`value_text`] wrote is read
/// back as it was, but for numbers that can be spelled otherwise.
pub fn stored_value(text: &str) -> (r: Result<Json, String>)
    ensures
        json_value_of(text@) == (match r {
            Ok(value) => Ok::<JsonTree, Seq<char>>(value@),
            Err(message) => Err::<JsonTree, Seq<char>>(message@),
        }),
        forall|tree: JsonTree|
            reads_back(tree, READER_DEPTH as nat) && text@ == #[trigger] json_text_of(tree)
                ==> match r {
                Ok(value) => value@ == tree,
                Err(_) => false,
            },
{
    parse_json(text)
}

/// Writes a value as it is stored or handed out: the compact JSON text.
pub fn value_text(value: &Json) -> (r: String)
    ensures
        r@ == json_text_of(value@),
{
    json_text(value)
}

/// The bytes as which a value is sent.
pub open spec fn json_bytes_of(tree: JsonTree) -> Seq<u8> {
    vstd::utf8::encode_utf8(json_text_of(tree))
}

/// Writes a value as it is sent: the bytes of the compact JSON text.
pub fn value_bytes(value: &Json) -> (r: Vec<u8>)
    ensures
        r@ == json_bytes_of(value@),
{
    let written = json_text(value);
    vstd::slice::slice_to_vec(written.as_str().as_bytes())
}

/// The labelled digest of the canonical form of a value.
pub open spec fn canonical_digest(tree: JsonTree) -> Option<Seq<char>> {
    match canonical_json_of(tree) {
        Some(bytes) => Some(crate::digest::labelled_digest(bytes)),
        None => None,
    }
}

/// Computes the labelled digest of the canonical form of a value.
pub fn canonical_hash(value: &Json) -> (r: Option<String>)
    ensures
        crate::text::option_text(r) == canonical_digest(value@),
{
    match canonical_bytes(value) {
        Some(bytes) => Some(crate::digest::labelled_sha256(bytes.as_slice())),
        None => None,
    }
}

} // verus!
