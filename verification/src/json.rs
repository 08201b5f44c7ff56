//! A plain model of the JSON values that the node's RPC interface exchanges.

use vstd::prelude::*;
use vstd::string::StringExecFns;
use crate::text::opt_chars;

verus! {

#[derive(Debug, Clone, PartialEq)]
/// A JSON number as the RPC layer distinguishes them: non-negative integers,
/// negative integers, and other numbers, kept as their decimal text.
pub enum JsonNumber {
    PosInt(u64),
    NegInt(i64),
    Float(String),
}

#[derive(Debug, PartialEq)]
/// A JSON value. Object entries keep the order in which they were read.
pub enum JsonValue {
    Null,
    Bool(bool),
    Number(JsonNumber),
    Str(String),
    Array(Vec<JsonValue>),
    Object(Vec<(String, JsonValue)>),
}

/// Mathematical view of a JSON number.
pub enum Num {
    PosInt(u64),
    NegInt(i64),
    Float(Seq<char>),
}

/// Mathematical view of a JSON value.
pub enum Json {
    Null,
    Bool(bool),
    Number(Num),
    Str(Seq<char>),
    Arr(Seq<Json>),
    Obj(Seq<(Seq<char>, Json)>),
}

impl JsonNumber {
    pub open spec fn view_num(&self) -> Num {
        match self {
            JsonNumber::PosInt(n) => Num::PosInt(*n),
            JsonNumber::NegInt(n) => Num::NegInt(*n),
            JsonNumber::Float(s) => Num::Float(s@),
        }
    }
}

impl JsonValue {
    pub open spec fn deep(self) -> Json
        decreases self,
    {
        match self {
            JsonValue::Null => Json::Null,
            JsonValue::Bool(b) => Json::Bool(b),
            JsonValue::Number(n) => Json::Number(n.view_num()),
            JsonValue::Str(s) => Json::Str(s@),
            JsonValue::Array(v) => Json::Arr(
                Seq::new(
                    v@.len(),
                    |i: int|
                        if 0 <= i < v@.len() {
                            v@[i].deep()
                        } else {
                            Json::Null
                        },
                ),
            ),
            JsonValue::Object(m) => Json::Obj(
                Seq::new(
                    m@.len(),
                    |i: int|
                        if 0 <= i < m@.len() {
                            (m@[i].0@, m@[i].1.deep())
                        } else {
                            (Seq::empty(), Json::Null)
                        },
                ),
            ),
        }
    }
}

impl View for JsonValue {
    type V = Json;

    open spec fn view(&self) -> Json {
        self.deep()
    }
}

/// The value stored under `key` among object entries: the first entry with
/// that key.
pub open spec fn lookup(es: Seq<(Seq<char>, Json)>, key: Seq<char>) -> Option<Json>
    decreases es.len(),
{
    if es.len() == 0 {
        None
    } else if es[0].0 == key {
        Some(es[0].1)
    } else {
        lookup(es.drop_first(), key)
    }
}

impl Json {
    /// `value.get(key)`: the member of an object, `None` for anything else.
    pub open spec fn get(self, key: Seq<char>) -> Option<Json> {
        match self {
            Json::Obj(es) => lookup(es, key),
            _ => None,
        }
    }

    /// `value[0].get(key)` for an array of exactly one value: the member
    /// `key` of the one object that the array holds.
    pub open spec fn param(self, key: Seq<char>) -> Option<Json> {
        match self {
            Json::Arr(vs) => if vs.len() == 1 {
                vs[0].get(key)
            } else {
                None
            },
            _ => None,
        }
    }

    /// `value.as_str()`.
    pub open spec fn as_str(self) -> Option<Seq<char>> {
        match self {
            Json::Str(s) => Some(s),
            _ => None,
        }
    }

    /// `value.as_u64()`: only non-negative integers have one.
    pub open spec fn as_u64(self) -> Option<u64> {
        match self {
            Json::Number(Num::PosInt(n)) => Some(n),
            _ => None,
        }
    }

    /// `value.as_bool()`.
    pub open spec fn as_bool(self) -> Option<bool> {
        match self {
            Json::Bool(b) => Some(b),
            _ => None,
        }
    }

    /// `value.get(key).and_then(|v| v.as_str())`.
    pub open spec fn str_at(self, key: Seq<char>) -> Option<Seq<char>> {
        match self.get(key) {
            Some(v) => v.as_str(),
            None => None,
        }
    }

    /// `value.get(key).and_then(|v| v.as_u64())`.
    pub open spec fn u64_at(self, key: Seq<char>) -> Option<u64> {
        match self.get(key) {
            Some(v) => v.as_u64(),
            None => None,
        }
    }

    /// `value.get(key).and_then(|v| v.as_bool())`.
    pub open spec fn bool_at(self, key: Seq<char>) -> Option<bool> {
        match self.get(key) {
            Some(v) => v.as_bool(),
            None => None,
        }
    }
}

/// A view of optional references to values.
pub open spec fn opt_json(o: Option<&JsonValue>) -> Option<Json> {
    match o {
        Some(v) => Some(v@),
        None => None,
    }
}

impl JsonValue {
    /// The member stored under `key` when this is an object.
    pub fn get(&self, key: &str) -> (r: Option<&JsonValue>)
        ensures
            opt_json(r) == self@.get(key@),
    {
        match self {
            JsonValue::Object(m) => {
                let k = String::from_str(key);
                let ghost es = self@->Obj_0;
                assert(self@ == Json::Obj(es));
                assert(es.len() == m@.len());
                assert(es.subrange(0, es.len() as int) =~= es);
                let mut i: usize = 0;
                while i < m.len()
                    invariant
                        i <= m@.len(),
                        es.len() == m@.len(),
                        forall|j: int| 0 <= j < m@.len() ==> #[trigger] es[j] == (m@[j].0@, m@[j].1@),
                        k@ == key@,
                        self@ == Json::Obj(es),
                        lookup(es, key@) == lookup(es.subrange(i as int, es.len() as int), key@),
                    decreases m@.len() - i,
                {
                    let ghost rest = es.subrange(i as int, es.len() as int);
                    assert(rest[0] == es[i as int]);
                    if m[i].0 == k {
                        assert(rest.len() > 0 && rest[0].0 == key@);
                        assert(lookup(rest, key@) == Some(rest[0].1));
                        return Some(&m[i].1);
                    }
                    assert(rest.drop_first() =~= es.subrange(i + 1, es.len() as int));
                    i = i + 1;
                }
                None
            },
            _ => None,
        }
    }

    /// `self.get(key).and_then(|v| v.as_str())`, copied out.
    pub fn str_at(&self, key: &str) -> (r: Option<String>)
        ensures
            opt_chars(r) == self@.str_at(key@),
    {
        match self.get(key) {
            Some(JsonValue::Str(s)) => Some(s.clone()),
            _ => None,
        }
    }

    /// `self.get(key).and_then(|v| v.as_u64())`.
    pub fn u64_at(&self, key: &str) -> (r: Option<u64>)
        ensures
            r == self@.u64_at(key@),
    {
        match self.get(key) {
            Some(JsonValue::Number(JsonNumber::PosInt(n))) => Some(*n),
            _ => None,
        }
    }

    /// `self.get(key).and_then(|v| v.as_bool())`.
    pub fn bool_at(&self, key: &str) -> (r: Option<bool>)
        ensures
            r == self@.bool_at(key@),
    {
        match self.get(key) {
            Some(JsonValue::Bool(b)) => Some(*b),
            _ => None,
        }
    }
}

/// Keys and values of object entries.
pub open spec fn entries_view(s: Seq<(String, JsonValue)>) -> Seq<(Seq<char>, Json)> {
    Seq::new(s.len(), |i: int| (s[i].0@, s[i].1@))
}

/// Appends an entry to the entries of an object under construction.
pub fn put(es: &mut Vec<(String, JsonValue)>, key: &str, v: JsonValue)
    ensures
        entries_view(final(es)@) == entries_view(old(es)@).push((key@, v@)),
{
    let ghost before = es@;
    es.push((String::from_str(key), v));
    assert(entries_view(es@) =~= entries_view(before).push((key@, v@)));
}

/// The object with the given entries, in order.
pub fn object(es: Vec<(String, JsonValue)>) -> (r: JsonValue)
    ensures
        r@ == Json::Obj(entries_view(es@)),
{
    let r = JsonValue::Object(es);
    assert(r@->Obj_0 =~= entries_view(es@));
    r
}

/// The array with the given elements, in order.
pub fn array(vs: Vec<JsonValue>) -> (r: JsonValue)
    ensures
        r@ == Json::Arr(Seq::new(vs@.len(), |i: int| vs@[i]@)),
{
    let r = JsonValue::Array(vs);
    assert(r@->Arr_0 =~= Seq::new(vs@.len(), |i: int| vs@[i]@));
    r
}

/// The array holding the single element `v`.
pub fn singleton(v: JsonValue) -> (r: JsonValue)
    ensures
        r@ == Json::Arr(seq![v@]),
{
    let mut vs: Vec<JsonValue> = Vec::new();
    vs.push(v);
    let r = array(vs);
    assert(r@->Arr_0 =~= seq![v@]);
    r
}

/// Reading back what an object stores: when no earlier entry has the key of
/// entry `i`, looking that key up gives the value of entry `i`.
pub proof fn lemma_lookup_finds(es: Seq<(Seq<char>, Json)>, i: int)
    requires
        0 <= i < es.len(),
        forall|a: int| 0 <= a < i ==> #[trigger] es[a].0 != es[i].0,
    ensures
        lookup(es, es[i].0) == Some(es[i].1),
    decreases i,
{
    if i > 0 {
        let rest = es.drop_first();
        assert(rest[i - 1] == es[i]);
        assert forall|a: int| 0 <= a < i - 1 implies #[trigger] rest[a].0 != rest[i - 1].0 by {
            assert(rest[a] == es[a + 1]);
        }
        lemma_lookup_finds(rest, i - 1);
        assert(es[0].0 != es[i].0);
    }
}

} // verus!
