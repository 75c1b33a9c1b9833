//! A JSON value as plain data, and the mathematical model that the contracts speak of.

use vstd::prelude::*;

verus! {

/// A JSON number: an integer as JSON texts usually carry it, or the bits of a double.
#[derive(Clone, Copy, Debug, PartialEq, Eq)]
pub enum JsonNumber {
    /// A non-negative integer.
    Unsigned(u64),
    /// An integer below zero. A non-negative integer stands in `Unsigned`, and is read as an
    /// unsigned integer only there.
    Negative(i64),
    /// Any other number, as the bit pattern of an IEEE 754 double.
    Float(u64),
}

/// What a `JsonValue` stands for.
pub enum JsonModel {
    Null,
    Bool(bool),
    Number(JsonNumber),
    String(Seq<char>),
    Array(Seq<JsonModel>),
    Object(Seq<(Seq<char>, JsonModel)>),
}

/// A JSON object: its members in the order in which they are written.
#[derive(Debug, PartialEq, Eq)]
pub struct JsonObject {
    pub members: Vec<(String, JsonValue)>,
}

/// A JSON value.
#[derive(Debug, PartialEq, Eq)]
pub enum JsonValue {
    Null,
    Bool(bool),
    Number(JsonNumber),
    String(String),
    Array(Vec<JsonValue>),
    Object(JsonObject),
}

impl View for JsonObject {
    type V = Seq<(Seq<char>, JsonModel)>;

    open spec fn view(&self) -> Seq<(Seq<char>, JsonModel)>
        decreases self,
    {
        Seq::new(
            self.members@.len(),
            |i: int|
                if 0 <= i < self.members@.len() {
                    (self.members@[i].0@, self.members@[i].1@)
                } else {
                    (Seq::empty(), JsonModel::Null)
                },
        )
    }
}

impl View for JsonValue {
    type V = JsonModel;

    open spec fn view(&self) -> JsonModel
        decreases self,
    {
        match self {
            JsonValue::Null => JsonModel::Null,
            JsonValue::Bool(b) => JsonModel::Bool(*b),
            JsonValue::Number(n) => JsonModel::Number(*n),
            JsonValue::String(s) => JsonModel::String(s@),
            JsonValue::Array(items) => JsonModel::Array(
                Seq::new(
                    items@.len(),
                    |i: int|
                        if 0 <= i < items@.len() {
                            items@[i]@
                        } else {
                            JsonModel::Null
                        },
                ),
            ),
            JsonValue::Object(object) => JsonModel::Object(object@),
        }
    }
}

/// Whether `i` is the place of the first member of `members` that is named `key`.
pub open spec fn first_named(members: Seq<(Seq<char>, JsonModel)>, key: Seq<char>, i: int) -> bool {
    &&& 0 <= i < members.len()
    &&& members[i].0 == key
    &&& forall|j: int| 0 <= j < i ==> members[j].0 != key
}

/// The value of the first member of `members` that is named `key`, if there is one.
pub open spec fn lookup(members: Seq<(Seq<char>, JsonModel)>, key: Seq<char>) -> Option<JsonModel> {
    if exists|i: int| first_named(members, key, i) {
        Some(members[choose|i: int| first_named(members, key, i)].1)
    } else {
        None
    }
}

/// What an optional field holds: the value that `lookup` finds, where `null` counts as no value.
pub open spec fn field(members: Seq<(Seq<char>, JsonModel)>, key: Seq<char>) -> Option<JsonModel> {
    match lookup(members, key) {
        Some(JsonModel::Null) => None,
        found => found,
    }
}

/// A member that is named `key` and has no member of that name before it is the one that
/// `lookup` finds.
pub proof fn lemma_lookup_first(members: Seq<(Seq<char>, JsonModel)>, key: Seq<char>, i: int)
    requires
        first_named(members, key, i),
    ensures
        lookup(members, key) == Some(members[i].1),
{
    let k = choose|k: int| first_named(members, key, k);
    assert(first_named(members, key, k));
    if k < i {
        assert(members[k].0 != key);
    } else if i < k {
        assert(members[i].0 != key);
    }
}

/// Where no member is named `key`, `lookup` finds nothing.
pub proof fn lemma_lookup_absent(members: Seq<(Seq<char>, JsonModel)>, key: Seq<char>)
    requires
        forall|i: int| 0 <= i < members.len() ==> members[i].0 != key,
    ensures
        lookup(members, key) is None,
{
}

/// Among the members named `key` up to place `j`, one comes first.
proof fn lemma_first_named_exists(members: Seq<(Seq<char>, JsonModel)>, key: Seq<char>, j: int)
    requires
        0 <= j < members.len(),
        members[j].0 == key,
    ensures
        exists|i: int| first_named(members, key, i),
    decreases j,
{
    if forall|k: int| 0 <= k < j ==> members[k].0 != key {
        assert(first_named(members, key, j));
    } else {
        let k = choose|k: int| 0 <= k < j && members[k].0 == key;
        lemma_first_named_exists(members, key, k);
    }
}

/// `lookup` finds a value exactly where some member is named `key`.
pub proof fn lemma_lookup_finds_named(members: Seq<(Seq<char>, JsonModel)>, key: Seq<char>)
    ensures
        lookup(members, key) is Some <==> exists|i: int|
            0 <= i < members.len() && members[i].0 == key,
{
    if exists|i: int| 0 <= i < members.len() && members[i].0 == key {
        let j = choose|i: int| 0 <= i < members.len() && members[i].0 == key;
        lemma_first_named_exists(members, key, j);
    }
    if lookup(members, key) is Some {
        let i = choose|i: int| first_named(members, key, i);
        assert(0 <= i < members.len() && members[i].0 == key);
    }
}

/// In members written one after the other, `lookup` finds what it finds in the first run,
/// and only where that holds no member of the name what it finds in the second.
pub proof fn lemma_lookup_concat(
    front: Seq<(Seq<char>, JsonModel)>,
    back: Seq<(Seq<char>, JsonModel)>,
    key: Seq<char>,
)
    ensures
        lookup(front + back, key) == (if lookup(front, key) is Some {
            lookup(front, key)
        } else {
            lookup(back, key)
        }),
{
    let all = front + back;
    lemma_lookup_finds_named(front, key);
    if lookup(front, key) is Some {
        let i = choose|i: int| first_named(front, key, i);
        assert(first_named(all, key, i)) by {
            assert(all[i] == front[i]);
            assert forall|j: int| 0 <= j < i implies all[j].0 != key by {
                assert(all[j] == front[j]);
            }
        }
        lemma_lookup_first(all, key, i);
    } else if lookup(back, key) is Some {
        let i = choose|i: int| first_named(back, key, i);
        let at = front.len() + i;
        assert(first_named(all, key, at)) by {
            assert(all[at] == back[i]);
            assert forall|j: int| 0 <= j < at implies all[j].0 != key by {
                if j < front.len() {
                    assert(all[j] == front[j]);
                } else {
                    assert(all[j] == back[j - front.len()]);
                }
            }
        }
        lemma_lookup_first(all, key, at);
    } else {
        lemma_lookup_finds_named(back, key);
        assert forall|j: int| 0 <= j < all.len() implies all[j].0 != key by {
            if j < front.len() {
                assert(all[j] == front[j]);
            } else {
                assert(all[j] == back[j - front.len()]);
            }
        }
        lemma_lookup_absent(all, key);
    }
}

/// A member of another name, put in at any place, changes nothing of what `lookup` finds
/// under `key`.
pub proof fn lemma_lookup_ignores_other_names(
    members: Seq<(Seq<char>, JsonModel)>,
    at: int,
    member: (Seq<char>, JsonModel),
    key: Seq<char>,
)
    requires
        0 <= at <= members.len(),
        member.0 != key,
    ensures
        lookup(members.insert(at, member), key) == lookup(members, key),
{
    let front = members.subrange(0, at);
    let back = members.subrange(at, members.len() as int);
    let one = seq![member];
    assert(members =~= front + back);
    assert(members.insert(at, member) =~= (front + one) + back);
    lemma_lookup_concat(front, back, key);
    lemma_lookup_concat(front + one, back, key);
    lemma_lookup_concat(front, one, key);
    lemma_lookup_finds_named(one, key);
}

impl JsonObject {
    /// An object without members.
    pub fn new() -> (r: Self)
        ensures
            r@ == Seq::<(Seq<char>, JsonModel)>::empty(),
    {
        let r = JsonObject { members: Vec::new() };
        assert(r@ =~= Seq::<(Seq<char>, JsonModel)>::empty());
        r
    }

    /// Appends the member `key: value` after those that the object holds.
    pub fn push(&mut self, key: String, value: JsonValue)
        ensures
            final(self)@ == old(self)@.push((key@, value@)),
    {
        self.members.push((key, value));
        assert(self@ =~= old(self)@.push((key@, value@)));
    }

    /// The value of the first member named `key`.
    pub fn get(&self, key: &str) -> (r: Option<&JsonValue>)
        ensures
            match r {
                Some(value) => lookup(self@, key@) == Some(value@),
                None => lookup(self@, key@) is None,
            },
    {
        let name = key.to_owned();
        let mut i: usize = 0;
        while i < self.members.len()
            invariant
                i <= self.members.len(),
                name@ == key@,
                forall|j: int| 0 <= j < i ==> self@[j].0 != key@,
            decreases self.members.len() - i,
        {
            if self.members[i].0 == name {
                proof {
                    lemma_lookup_first(self@, key@, i as int);
                }
                return Some(&self.members[i].1);
            }
            i += 1;
        }
        proof {
            lemma_lookup_absent(self@, key@);
        }
        None
    }

    /// What the optional field `key` holds: the value of the first member named `key`, unless
    /// that value is `null`.
    pub fn field(&self, key: &str) -> (r: Option<&JsonValue>)
        ensures
            match r {
                Some(value) => field(self@, key@) == Some(value@),
                None => field(self@, key@) is None,
            },
    {
        match self.get(key) {
            Some(JsonValue::Null) => None,
            found => found,
        }
    }
}

impl Clone for JsonObject {
    fn clone(&self) -> (r: Self)
        ensures
            r@ == self@,
        decreases self,
    {
        let mut members: Vec<(String, JsonValue)> = Vec::new();
        let mut i: usize = 0;
        while i < self.members.len()
            invariant
                i <= self.members.len(),
                members@.len() == i,
                forall|j: int|
                    0 <= j < i ==> members@[j].0@ == self.members@[j].0@ && members@[j].1@
                        == self.members@[j].1@,
            decreases self.members.len() - i,
        {
            let member = &self.members[i];
            members.push((member.0.clone(), member.1.clone()));
            i += 1;
        }
        let r = JsonObject { members };
        assert(r@ =~= self@);
        r
    }
}

impl Clone for JsonValue {
    fn clone(&self) -> (r: Self)
        ensures
            r@ == self@,
        decreases self,
    {
        match self {
            JsonValue::Null => JsonValue::Null,
            JsonValue::Bool(b) => JsonValue::Bool(*b),
            JsonValue::Number(n) => JsonValue::Number(*n),
            JsonValue::String(s) => JsonValue::String(s.clone()),
            JsonValue::Array(items) => {
                let mut copies: Vec<JsonValue> = Vec::new();
                let mut i: usize = 0;
                while i < items.len()
                    invariant
                        self is Array,
                        self->Array_0 == *items,
                        i <= items.len(),
                        copies@.len() == i,
                        forall|j: int| 0 <= j < i ==> copies@[j]@ == items@[j]@,
                    decreases items.len() - i,
                {
                    copies.push(items[i].clone());
                    i += 1;
                }
                let r = JsonValue::Array(copies);
                assert(r@->Array_0 =~= self@->Array_0);
                r
            },
            JsonValue::Object(object) => JsonValue::Object(object.clone()),
        }
    }
}

} // verus!
