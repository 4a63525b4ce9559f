//! A model of JSON values as the rest of the crate reads them: the stored
//! content blocks, navigation links, social links and theme configurations.
use vstd::prelude::*;
use crate::text::chars_of;
use crate::text::chars_eq_str;

verus! {

/// A JSON value. Object entries are kept in the order given; keys are
/// expected to be distinct, as in a parsed JSON object, and lookups take the
/// first entry with a key. A number is kept as the `i64` it denotes when it
/// is an integer in `i64`'s range (what `as_i64` answers), and as `None`
/// otherwise.
pub enum Json {
    Null,
    Bool(bool),
    Number(Option<i64>),
    Str(String),
    Array(Vec<Json>),
    Object(Vec<(String, Json)>),
}

/// The mathematical value of a [`Json`]: texts as character sequences.
pub enum JsonVal {
    Null,
    Bool(bool),
    Number(Option<i64>),
    Str(Seq<char>),
    Array(Seq<JsonVal>),
    Object(Seq<(Seq<char>, JsonVal)>),
}

/// The value that a [`Json`] denotes.
pub open spec fn json_val(j: Json) -> JsonVal
    decreases j, 1int,
{
    match j {
        Json::Null => JsonVal::Null,
        Json::Bool(b) => JsonVal::Bool(b),
        Json::Number(n) => JsonVal::Number(n),
        Json::Str(s) => JsonVal::Str(s@),
        Json::Array(v) => JsonVal::Array(json_vals(v@)),
        Json::Object(v) => JsonVal::Object(json_entries(v@)),
    }
}

/// The values that a sequence of [`Json`] denotes.
pub open spec fn json_vals(s: Seq<Json>) -> Seq<JsonVal>
    decreases s, 0int,
{
    if s.len() == 0 {
        Seq::empty()
    } else {
        json_vals(s.subrange(0, s.len() - 1)).push(json_val(s[s.len() - 1]))
    }
}

/// The entries that a sequence of keyed [`Json`] denotes.
pub open spec fn json_entries(s: Seq<(String, Json)>) -> Seq<(Seq<char>, JsonVal)>
    decreases s, 0int,
{
    if s.len() == 0 {
        Seq::empty()
    } else {
        json_entries(s.subrange(0, s.len() - 1)).push((s[s.len() - 1].0@, json_val(s[s.len() - 1].1)))
    }
}

/// The denotation of a sequence has its length, element by element.
pub broadcast proof fn lemma_json_vals(s: Seq<Json>)
    ensures
        #[trigger] json_vals(s).len() == s.len(),
        forall|i: int| 0 <= i < s.len() ==> #[trigger] json_vals(s)[i] == json_val(s[i]),
    decreases s.len(),
{
    if s.len() > 0 {
        lemma_json_vals(s.subrange(0, s.len() - 1));
    }
}

/// The denotation of keyed entries has their length, entry by entry.
pub broadcast proof fn lemma_json_entries(s: Seq<(String, Json)>)
    ensures
        #[trigger] json_entries(s).len() == s.len(),
        forall|i: int| 0 <= i < s.len() ==> #[trigger] json_entries(s)[i] == (s[i].0@, json_val(s[i].1)),
    decreases s.len(),
{
    if s.len() > 0 {
        lemma_json_entries(s.subrange(0, s.len() - 1));
    }
}

impl View for Json {
    type V = JsonVal;

    open spec fn view(&self) -> JsonVal {
        json_val(*self)
    }
}

/// The value of the first entry of `es` with key `key`.
pub open spec fn entries_get(es: Seq<(Seq<char>, JsonVal)>, key: Seq<char>) -> Option<JsonVal>
    decreases es.len(),
{
    if es.len() == 0 {
        None
    } else if es[0].0 == key {
        Some(es[0].1)
    } else {
        entries_get(es.skip(1), key)
    }
}

/// `v.get(key)`: the member `key` of an object, and nothing for other values.
pub open spec fn val_get(v: JsonVal, key: Seq<char>) -> Option<JsonVal> {
    match v {
        JsonVal::Object(es) => entries_get(es, key),
        _ => None,
    }
}

/// `v.as_str()`.
pub open spec fn val_as_str(v: JsonVal) -> Option<Seq<char>> {
    match v {
        JsonVal::Str(s) => Some(s),
        _ => None,
    }
}

/// `o.and_then(|c| c.get(key)).and_then(|t| t.as_str())`.
pub open spec fn opt_get_str(o: Option<JsonVal>, key: Seq<char>) -> Option<Seq<char>> {
    match o {
        Some(c) => match val_get(c, key) {
            Some(t) => val_as_str(t),
            None => None,
        },
        None => None,
    }
}

/// `o.and_then(|c| c.get(key)).and_then(|t| t.as_str()).unwrap_or(default)`.
pub open spec fn str_field(o: Option<JsonVal>, key: Seq<char>, default: Seq<char>) -> Seq<char> {
    match opt_get_str(o, key) {
        Some(s) => s,
        None => default,
    }
}

/// `o.and_then(|c| c.as_str())`.
pub open spec fn opt_as_str(o: Option<JsonVal>) -> Option<Seq<char>> {
    match o {
        Some(c) => val_as_str(c),
        None => None,
    }
}

impl Json {
    /// `self.get(key)`: the member `key` of an object.
    pub fn get(&self, key: &str) -> (r: Option<&Json>)
        ensures
            r matches Some(j) ==> val_get(self@, key@) == Some(j@),
            r is None ==> val_get(self@, key@) is None,
    {
        match self {
            Json::Object(es) => {
                let mut i: usize = 0;
                let ghost ves = json_entries(es@);
                proof { lemma_json_entries(es@); }
                assert(ves.len() == es@.len());
                assert(forall|k: int| 0 <= k < es@.len() ==> #[trigger] ves[k] == (es@[k].0@, json_val(es@[k].1)));
                assert(ves.skip(0) =~= ves);
                while i < es.len()
                    invariant
                        i <= es.len(),
                        val_get(self@, key@) == entries_get(ves, key@),
                        ves.len() == es@.len(),
                        forall|k: int| 0 <= k < es@.len() ==> #[trigger] ves[k] == (es@[k].0@, json_val(es@[k].1)),
                        entries_get(ves, key@) == entries_get(ves.skip(i as int), key@),
                    decreases es.len() - i,
                {
                    let kv = chars_of(es[i].0.as_str());
                    assert(ves.skip(i as int)[0] == ves[i as int]);
                    if chars_eq_str(kv.as_slice(), key) {
                        return Some(&es[i].1);
                    }
                    assert(ves.skip(i as int).skip(1) =~= ves.skip(i + 1));
                    i = i + 1;
                }
                None
            },
            _ => None,
        }
    }

    /// `self.as_str()`.
    pub fn as_str(&self) -> (r: Option<&str>)
        ensures
            r matches Some(s) ==> val_as_str(self@) == Some(s@),
            r is None ==> val_as_str(self@) is None,
    {
        match self {
            Json::Str(s) => Some(s.as_str()),
            _ => None,
        }
    }

    /// `self.as_i64()`.
    pub fn as_i64(&self) -> (r: Option<i64>)
        ensures
            r == (match self@ {
                JsonVal::Number(n) => n,
                _ => None,
            }),
    {
        match self {
            Json::Number(n) => *n,
            _ => None,
        }
    }

    /// A copy of this value.
    #[verifier::loop_isolation(false)]
    pub fn deep_clone(&self) -> (r: Json)
        ensures
            r@ == self@,
        decreases self,
    {
        match self {
            Json::Null => Json::Null,
            Json::Bool(b) => Json::Bool(*b),
            Json::Number(n) => Json::Number(*n),
            Json::Str(s) => Json::Str(s.clone()),
            Json::Array(v) => {
                let mut out: Vec<Json> = Vec::new();
                for i in 0..v.len()
                    invariant
                        out@.len() == i,
                        forall|k: int| 0 <= k < i ==> json_val(#[trigger] out@[k]) == json_val(v@[k]),
                {
                    proof {
                        assert(decreases_to!(*self => v@[i as int]));
                    }
                    out.push(v[i].deep_clone());
                }
                let r = Json::Array(out);
                assert(r@ == self@) by {
                    lemma_json_vals(out@);
                    lemma_json_vals(v@);
                    assert(json_vals(out@) =~= json_vals(v@));
                }
                r
            },
            Json::Object(v) => {
                let mut out: Vec<(String, Json)> = Vec::new();
                for i in 0..v.len()
                    invariant
                        out@.len() == i,
                        forall|k: int| 0 <= k < i ==> (#[trigger] out@[k]).0@ == v@[k].0@ && json_val(out@[k].1) == json_val(v@[k].1),
                {
                    proof {
                        assert(decreases_to!(*self => v@[i as int]));
                        assert(decreases_to!(v@[i as int] => v@[i as int].1));
                    }
                    out.push((v[i].0.clone(), v[i].1.deep_clone()));
                }
                let r = Json::Object(out);
                assert(r@ == self@) by {
                    lemma_json_entries(out@);
                    lemma_json_entries(v@);
                    assert(json_entries(out@) =~= json_entries(v@));
                }
                r
            },
        }
    }
}

/// `o.and_then(|c| c.get(key)).and_then(|t| t.as_str())`, as characters.
pub fn get_str_field(o: Option<&Json>, key: &str) -> (r: Option<Vec<char>>)
    ensures
        r matches Some(s) ==> opt_get_str(match o { Some(c) => Some(c@), None => None }, key@) == Some(s@),
        r is None ==> opt_get_str(match o { Some(c) => Some(c@), None => None }, key@) is None,
{
    match o {
        Some(c) => match c.get(key) {
            Some(t) => match t.as_str() {
                Some(s) => Some(chars_of(s)),
                None => None,
            },
            None => None,
        },
        None => None,
    }
}

/// `o.and_then(|c| c.get(key)).and_then(|t| t.as_str()).unwrap_or(default)`,
/// as characters.
pub fn str_field_or(o: Option<&Json>, key: &str, default: &str) -> (r: Vec<char>)
    ensures
        r@ == str_field(match o { Some(c) => Some(c@), None => None }, key@, default@),
{
    match get_str_field(o, key) {
        Some(s) => s,
        None => chars_of(default),
    }
}

/// The view of an optional reference to a JSON value.
pub open spec fn opt_val(o: Option<&Json>) -> Option<JsonVal> {
    match o {
        Some(c) => Some(c@),
        None => None,
    }
}


/// The JSON value of an optional text: the text, or null.
pub open spec fn text_or_null(o: Option<String>) -> JsonVal {
    match o {
        Some(s) => JsonVal::Str(s@),
        None => JsonVal::Null,
    }
}

/// The JSON value of an optional text: the text, or null.
pub fn json_text_or_null(o: &Option<String>) -> (j: Json)
    ensures
        j@ == text_or_null(*o),
{
    match o {
        Some(s) => Json::Str(s.clone()),
        None => Json::Null,
    }
}

/// Appends the entry `key: v` to the entries of an object.
pub fn push_entry(es: &mut Vec<(String, Json)>, key: &str, v: Json)
    ensures
        json_entries(final(es)@) == json_entries(old(es)@).push((key@, v@)),
{
    let ghost before = es@;
    es.push((String::from_str(key), v));
    assert(es@.subrange(0, es@.len() - 1) =~= before);
}

/// Appends an item to the items of an array.
pub fn push_item(items: &mut Vec<Json>, v: Json)
    ensures
        json_vals(final(items)@) == json_vals(old(items)@).push(v@),
{
    let ghost before = items@;
    items.push(v);
    assert(items@.subrange(0, items@.len() - 1) =~= before);
}


/// The view of an optional text.
pub open spec fn opt_text_view(o: Option<String>) -> Option<Seq<char>> {
    match o {
        Some(s) => Some(s@),
        None => None,
    }
}

/// The view of an optional JSON value.
pub open spec fn opt_json_view(o: Option<Json>) -> Option<JsonVal> {
    match o {
        Some(j) => Some(j@),
        None => None,
    }
}

/// `j.get(key).and_then(|v| v.as_str())`, as an owned text.
pub fn member_text(j: &Json, key: &str) -> (r: Option<String>)
    ensures
        opt_text_view(r) == opt_get_str(Some(j@), key@),
{
    match j.get(key) {
        Some(t) => match t.as_str() {
            Some(s) => Some(String::from_str(s)),
            None => None,
        },
        None => None,
    }
}

/// `j.get(key)`, as an owned value.
pub fn member(j: &Json, key: &str) -> (r: Option<Json>)
    ensures
        opt_json_view(r) == val_get(j@, key@),
{
    match j.get(key) {
        Some(t) => Some(t.deep_clone()),
        None => None,
    }
}

}
