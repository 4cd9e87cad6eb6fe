//! A JSON value owned by the library, with its mathematical model.
//!
//! Every configuration the extension reads or builds is one of these values.
//! Numbers are held as their JSON literal text, so no value is ever rounded.
use vstd::prelude::*;
use crate::text::str_equal;

verus! {

/// A JSON value. Objects keep their entries in insertion order.
#[derive(Debug, PartialEq)]
pub enum Json {
    Null,
    Bool(bool),
    /// A number, held as its JSON literal text (e.g. `100` or `0.01`).
    Number(String),
    Str(String),
    Array(Vec<Json>),
    Object(Vec<(String, Json)>),
}

/// The mathematical model of a [`Json`] value.
pub enum JsonV {
    Null,
    Bool(bool),
    Number(Seq<char>),
    Str(Seq<char>),
    Array(Seq<JsonV>),
    Object(Seq<(Seq<char>, JsonV)>),
}

impl Json {
    /// The model of a value: strings by their characters, containers element by element.
    pub open spec fn model(self) -> JsonV
        decreases self,
    {
        match self {
            Json::Null => JsonV::Null,
            Json::Bool(b) => JsonV::Bool(b),
            Json::Number(t) => JsonV::Number(t@),
            Json::Str(s) => JsonV::Str(s@),
            Json::Array(items) => JsonV::Array(
                Seq::new(
                    items.len() as nat,
                    |i: int|
                        if 0 <= i < items.len() {
                            items[i].model()
                        } else {
                            JsonV::Null
                        },
                ),
            ),
            Json::Object(entries) => JsonV::Object(
                Seq::new(
                    entries.len() as nat,
                    |i: int|
                        if 0 <= i < entries.len() {
                            (entries[i].0@, entries[i].1.model())
                        } else {
                            (Seq::empty(), JsonV::Null)
                        },
                ),
            ),
        }
    }
}

impl View for Json {
    type V = JsonV;

    open spec fn view(&self) -> JsonV {
        self.model()
    }
}

/// The value stored under `key` in a list of object entries: the first entry
/// with that key wins, as when the entries are read front to back.
pub open spec fn entries_lookup(entries: Seq<(Seq<char>, JsonV)>, key: Seq<char>) -> Option<JsonV>
    decreases entries.len(),
{
    if entries.len() == 0 {
        None
    } else if entries[0].0 == key {
        Some(entries[0].1)
    } else {
        entries_lookup(entries.drop_first(), key)
    }
}

/// Whether no key occurs twice in a list of object entries.
pub open spec fn keys_distinct(entries: Seq<(Seq<char>, JsonV)>) -> bool {
    forall|i: int, j: int|
        0 <= i < entries.len() && 0 <= j < entries.len() && i != j ==> entries[i].0
            != entries[j].0
}

impl JsonV {
    /// `self[key]` for an object, `None` for a missing key or any other kind of value.
    pub open spec fn get(self, key: Seq<char>) -> Option<JsonV> {
        match self {
            JsonV::Object(entries) => entries_lookup(entries, key),
            _ => None,
        }
    }

    /// The characters of a string value.
    pub open spec fn as_str(self) -> Option<Seq<char>> {
        match self {
            JsonV::Str(s) => Some(s),
            _ => None,
        }
    }

    /// The truth value of a boolean value.
    pub open spec fn as_bool(self) -> Option<bool> {
        match self {
            JsonV::Bool(b) => Some(b),
            _ => None,
        }
    }

    /// `self[key]` read as a string, or `default` when absent or of another kind.
    pub open spec fn str_or(self, key: Seq<char>, default: Seq<char>) -> Seq<char> {
        match self.get(key) {
            Some(JsonV::Str(s)) => s,
            _ => default,
        }
    }

    /// `self[key]` read as a boolean, or `default` when absent or of another kind.
    pub open spec fn bool_or(self, key: Seq<char>, default: bool) -> bool {
        match self.get(key) {
            Some(JsonV::Bool(b)) => b,
            _ => default,
        }
    }

    /// Well-formed: no object, at any depth, holds a key twice.
    pub open spec fn wf(self) -> bool
        decreases self,
    {
        match self {
            JsonV::Array(items) => items_wf(items),
            JsonV::Object(entries) => keys_distinct(entries) && entries_wf(entries),
            _ => true,
        }
    }
}

/// Every element is well-formed.
pub open spec fn items_wf(items: Seq<JsonV>) -> bool
    decreases items,
{
    if items.len() == 0 {
        true
    } else {
        proof {
            vstd::seq::axiom_seq_index_decreases(items, 0);
        }
        items[0].wf() && items_wf(items.drop_first())
    }
}

/// Every entry's value is well-formed.
pub open spec fn entries_wf(entries: Seq<(Seq<char>, JsonV)>) -> bool
    decreases entries,
{
    if entries.len() == 0 {
        true
    } else {
        proof {
            vstd::seq::axiom_seq_index_decreases(entries, 0);
        }
        entries[0].1.wf() && entries_wf(entries.drop_first())
    }
}

/// Reading `entries` front to back finds the first entry whose key is `key`.
pub proof fn lemma_entries_lookup_first(entries: Seq<(Seq<char>, JsonV)>, key: Seq<char>, i: int)
    requires
        0 <= i < entries.len(),
        entries[i].0 == key,
        forall|j: int| 0 <= j < i ==> entries[j].0 != key,
    ensures
        entries_lookup(entries, key) == Some(entries[i].1),
    decreases i,
{
    if i > 0 {
        lemma_entries_lookup_first(entries.drop_first(), key, i - 1);
    }
}

/// A key that no entry carries is not found.
pub proof fn lemma_entries_lookup_absent(entries: Seq<(Seq<char>, JsonV)>, key: Seq<char>)
    requires
        forall|j: int| 0 <= j < entries.len() ==> entries[j].0 != key,
    ensures
        entries_lookup(entries, key) is None,
    decreases entries.len(),
{
    if entries.len() > 0 {
        lemma_entries_lookup_absent(entries.drop_first(), key);
    }
}

impl Json {
    /// A string value holding a copy of `s`.
    pub fn from_str(s: &str) -> (r: Json)
        ensures
            r@ == JsonV::Str(s@),
    {
        Json::Str(String::from_str(s))
    }

    /// `self[key]`: the value of the first entry with that key, if `self` is an object.
    pub fn get(&self, key: &str) -> (r: Option<&Json>)
        ensures
            match r {
                Some(v) => self@.get(key@) == Some(v@),
                None => self@.get(key@) is None,
            },
    {
        match self {
            Json::Object(entries) => {
                let ghost model = self@;
                let ghost es = model->Object_0;
                assert(es.len() == entries.len());
                let mut i: usize = 0;
                while i < entries.len()
                    invariant
                        i <= entries.len(),
                        self@ == JsonV::Object(es),
                        es.len() == entries.len(),
                        forall|j: int|
                            0 <= j < entries.len() ==> #[trigger] es[j] == (
                                entries@[j].0@,
                                entries@[j].1@,
                            ),
                        forall|j: int| 0 <= j < i ==> es[j].0 != key@,
                    decreases entries.len() - i,
                {
                    if str_equal(entries[i].0.as_str(), key) {
                        proof {
                            lemma_entries_lookup_first(es, key@, i as int);
                        }
                        return Some(&entries[i].1);
                    }
                    i = i + 1;
                }
                proof {
                    lemma_entries_lookup_absent(es, key@);
                }
                None
            },
            _ => None,
        }
    }

    /// The characters of a string value.
    pub fn as_str(&self) -> (r: Option<&str>)
        ensures
            match r {
                Some(s) => self@.as_str() == Some(s@),
                None => self@.as_str() is None,
            },
    {
        match self {
            Json::Str(s) => Some(s.as_str()),
            _ => None,
        }
    }

    /// The truth value of a boolean value.
    pub fn as_bool(&self) -> (r: Option<bool>)
        ensures
            r == self@.as_bool(),
    {
        match self {
            Json::Bool(b) => Some(*b),
            _ => None,
        }
    }

    /// Whether this is `null`.
    pub fn is_null(&self) -> (r: bool)
        ensures
            r == (self@ is Null),
    {
        match self {
            Json::Null => true,
            _ => false,
        }
    }

    /// Whether this is an array.
    pub fn is_array(&self) -> (r: bool)
        ensures
            r == (self@ is Array),
    {
        match self {
            Json::Array(_) => true,
            _ => false,
        }
    }

    /// The element at `index`, if this is an array long enough.
    pub fn at(&self, index: usize) -> (r: Option<&Json>)
        ensures
            match self@ {
                JsonV::Array(items) => match r {
                    Some(v) => index < items.len() && v@ == items[index as int],
                    None => index >= items.len(),
                },
                _ => r is None,
            },
    {
        match self {
            Json::Array(items) => {
                if index < items.len() {
                    Some(&items[index])
                } else {
                    None
                }
            },
            _ => None,
        }
    }

    /// The literal text of a number value.
    pub fn as_number_text(&self) -> (r: Option<&str>)
        ensures
            match r {
                Some(t) => self@ == JsonV::Number(t@),
                None => !(self@ is Number),
            },
    {
        match self {
            Json::Number(t) => Some(t.as_str()),
            _ => None,
        }
    }

    /// A copy of this value, element by element.
    #[verifier::loop_isolation(false)]
    pub fn deep_clone(&self) -> (r: Json)
        ensures
            r@ == self@,
        decreases self,
    {
        match self {
            Json::Null => Json::Null,
            Json::Bool(b) => Json::Bool(*b),
            Json::Number(t) => Json::Number(String::from_str(t.as_str())),
            Json::Str(s) => Json::Str(String::from_str(s.as_str())),
            Json::Array(items) => {
                let mut out: Vec<Json> = Vec::new();
                let mut i: usize = 0;
                while i < items.len()
                    invariant
                        i <= items.len(),
                        out.len() == i,
                        forall|j: int| 0 <= j < i ==> #[trigger] out@[j]@ == items@[j]@,
                    decreases items.len() - i,
                {
                    proof {
                        assert(decreases_to!(*self => items[i as int]));
                    }
                    let c = items[i].deep_clone();
                    out.push(c);
                    i = i + 1;
                }
                let r = Json::Array(out);
                assert(r@ =~= self@) by {
                    let a = r@->Array_0;
                    let b = self@->Array_0;
                    assert forall|j: int| 0 <= j < a.len() implies a[j] == b[j] by {
                        assert(out@[j]@ == items@[j]@);
                    }
                    assert(a =~= b);
                }
                r
            },
            Json::Object(entries) => {
                let mut out: Vec<(String, Json)> = Vec::new();
                let mut i: usize = 0;
                while i < entries.len()
                    invariant
                        i <= entries.len(),
                        out.len() == i,
                        forall|j: int|
                            0 <= j < i ==> #[trigger] out@[j].0@ == entries@[j].0@
                                && out@[j].1@ == entries@[j].1@,
                    decreases entries.len() - i,
                {
                    let k = String::from_str(entries[i].0.as_str());
                    proof {
                        assert(decreases_to!(*self => entries[i as int]));
                    }
                    let v = entries[i].1.deep_clone();
                    out.push((k, v));
                    i = i + 1;
                }
                let r = Json::Object(out);
                assert(r@ =~= self@) by {
                    let a = r@->Object_0;
                    let b = self@->Object_0;
                    assert forall|j: int| 0 <= j < a.len() implies a[j] == b[j] by {
                        assert(out@[j].0@ == entries@[j].0@ && out@[j].1@ == entries@[j].1@);
                    }
                    assert(a =~= b);
                }
                r
            },
        }
    }
}

/// An object entry by its key's characters and its value's model.
pub open spec fn entry_view(e: (String, Json)) -> (Seq<char>, JsonV) {
    (e.0@, e.1@)
}

/// An array element by its model.
pub open spec fn item_view(j: Json) -> JsonV {
    j@
}

/// The model of an object is the list of its entries' models.
pub proof fn lemma_object_view(entries: Vec<(String, Json)>)
    ensures
        Json::Object(entries)@ == JsonV::Object(entries@.map_values(|e: (String, Json)| entry_view(e))),
{
    let m = Json::Object(entries)@->Object_0;
    assert(m =~= entries@.map_values(|e: (String, Json)| entry_view(e)));
}

/// The model of an array is the list of its elements' models.
pub proof fn lemma_array_view(items: Vec<Json>)
    ensures
        Json::Array(items)@ == JsonV::Array(items@.map_values(|j: Json| item_view(j))),
{
    let m = Json::Array(items)@->Array_0;
    assert(m =~= items@.map_values(|j: Json| item_view(j)));
}

/// Appends the entry `key: value` to a list of object entries.
pub fn push_entry(entries: &mut Vec<(String, Json)>, key: &str, value: Json)
    ensures
        final(entries)@.map_values(|e: (String, Json)| entry_view(e)) == old(
            entries,
        )@.map_values(|e: (String, Json)| entry_view(e)).push((key@, value@)),
{
    entries.push((String::from_str(key), value));
    assert(entries@.map_values(|e: (String, Json)| entry_view(e)) =~= old(
        entries,
    )@.map_values(|e: (String, Json)| entry_view(e)).push((key@, value@)));
}

impl Json {
    /// `self[key]` as a string, or `default` when absent or of another kind.
    pub fn str_or(&self, key: &str, default: &str) -> (r: String)
        ensures
            r@ == self@.str_or(key@, default@),
    {
        match self.get(key) {
            Some(v) => match v.as_str() {
                Some(s) => String::from_str(s),
                None => String::from_str(default),
            },
            None => String::from_str(default),
        }
    }

    /// `self[key]` as a boolean, or `default` when absent or of another kind.
    pub fn bool_or(&self, key: &str, default: bool) -> (r: bool)
        ensures
            r == self@.bool_or(key@, default),
    {
        match self.get(key) {
            Some(v) => match v.as_bool() {
                Some(b) => b,
                None => default,
            },
            None => default,
        }
    }
}

/// Reading a key from an object gives the value of the first entry with that
/// key, and nothing when no entry has it.
pub proof fn lemma_get_finds_first(entries: Seq<(Seq<char>, JsonV)>, key: Seq<char>)
    ensures
        match JsonV::Object(entries).get(key) {
            Some(v) => exists|i: int|
                0 <= i < entries.len() && #[trigger] entries[i] == (key, v) && forall|j: int|
                    0 <= j < i ==> entries[j].0 != key,
            None => forall|j: int| 0 <= j < entries.len() ==> entries[j].0 != key,
        },
    decreases entries.len(),
{
    if entries.len() > 0 {
        let rest = entries.drop_first();
        lemma_get_finds_first(rest, key);
        if entries[0].0 == key {
            assert(entries[0] == (key, entries[0].1));
        } else {
            match entries_lookup(rest, key) {
                Some(v) => {
                    let i = choose|i: int|
                        0 <= i < rest.len() && #[trigger] rest[i] == (key, v) && forall|j: int|
                            0 <= j < i ==> rest[j].0 != key;
                    assert(entries[i + 1] == (key, v));
                    assert forall|j: int| 0 <= j < i + 1 implies entries[j].0 != key by {
                        if j > 0 {
                            assert(entries[j] == rest[j - 1]);
                        }
                    }
                },
                None => {
                    assert forall|j: int| 0 <= j < entries.len() implies entries[j].0 != key by {
                        if j > 0 {
                            assert(entries[j] == rest[j - 1]);
                        }
                    }
                },
            }
        }
    }
}

/// Whatever a lookup finds is one of the entries' values.
pub proof fn lemma_entries_lookup_member(entries: Seq<(Seq<char>, JsonV)>, key: Seq<char>)
    ensures
        match entries_lookup(entries, key) {
            Some(v) => exists|i: int| 0 <= i < entries.len() && #[trigger] entries[i] == (key, v),
            None => true,
        },
    decreases entries.len(),
{
    if entries.len() > 0 && entries[0].0 != key {
        let rest = entries.drop_first();
        lemma_entries_lookup_member(rest, key);
        if let Some(v) = entries_lookup(rest, key) {
            let i = choose|i: int| 0 <= i < rest.len() && #[trigger] rest[i] == (key, v);
            assert(entries[i + 1] == (key, v));
        }
    } else if entries.len() > 0 {
        assert(entries[0] == (key, entries[0].1));
    }
}

/// A value read out of a well-formed object is well-formed.
pub proof fn lemma_get_wf(v: JsonV, key: Seq<char>)
    requires
        v.wf(),
    ensures
        match v.get(key) {
            Some(x) => x.wf(),
            None => true,
        },
{
    if let JsonV::Object(entries) = v {
        lemma_entries_lookup_member(entries, key);
        lemma_entries_wf(entries);
        if let Some(x) = entries_lookup(entries, key) {
            let i = choose|i: int| 0 <= i < entries.len() && #[trigger] entries[i] == (key, x);
            assert(entries[i].1.wf());
        }
    }
}

/// `items_wf` holds exactly when every element is well-formed.
pub proof fn lemma_items_wf(items: Seq<JsonV>)
    ensures
        items_wf(items) <==> forall|i: int| 0 <= i < items.len() ==> #[trigger] items[i].wf(),
    decreases items.len(),
{
    if items.len() > 0 {
        let rest = items.drop_first();
        lemma_items_wf(rest);
        if items_wf(items) {
            assert forall|i: int| 0 <= i < items.len() implies #[trigger] items[i].wf() by {
                if i > 0 {
                    assert(items[i] == rest[i - 1]);
                    assert(rest[i - 1].wf());
                }
            }
        }
        if forall|i: int| 0 <= i < items.len() ==> #[trigger] items[i].wf() {
            assert forall|i: int| 0 <= i < rest.len() implies #[trigger] rest[i].wf() by {
                assert(rest[i] == items[i + 1]);
                assert(items[i + 1].wf());
            }
            assert(items[0].wf());
        }
    }
}

/// `entries_wf` holds exactly when every entry's value is well-formed.
pub proof fn lemma_entries_wf(entries: Seq<(Seq<char>, JsonV)>)
    ensures
        entries_wf(entries) <==> forall|i: int| 0 <= i < entries.len() ==> #[trigger] entries[i].1.wf(),
    decreases entries.len(),
{
    if entries.len() > 0 {
        let rest = entries.drop_first();
        lemma_entries_wf(rest);
        if entries_wf(entries) {
            assert forall|i: int| 0 <= i < entries.len() implies #[trigger] entries[i].1.wf() by {
                if i > 0 {
                    assert(entries[i] == rest[i - 1]);
                    assert(rest[i - 1].1.wf());
                }
            }
        }
        if forall|i: int| 0 <= i < entries.len() ==> #[trigger] entries[i].1.wf() {
            assert forall|i: int| 0 <= i < rest.len() implies #[trigger] rest[i].1.wf() by {
                assert(rest[i] == entries[i + 1]);
                assert(entries[i + 1].1.wf());
            }
            assert(entries[0].1.wf());
        }
    }
}

impl JsonV {
    /// How deeply containers nest: 1 for a scalar or an empty container, one
    /// more than the deepest element for a container.
    pub open spec fn depth(self) -> nat
        decreases self,
    {
        match self {
            JsonV::Array(items) => 1 + items_depth(items),
            JsonV::Object(entries) => 1 + entries_depth(entries),
            _ => 1,
        }
    }
}

/// The greatest depth of the elements, 0 for none.
pub open spec fn items_depth(items: Seq<JsonV>) -> nat
    decreases items,
{
    if items.len() == 0 {
        0
    } else {
        proof {
            vstd::seq::axiom_seq_index_decreases(items, 0);
        }
        let first = items[0].depth();
        let rest = items_depth(items.drop_first());
        if first >= rest {
            first
        } else {
            rest
        }
    }
}

/// The greatest depth of the entries' values, 0 for none.
pub open spec fn entries_depth(entries: Seq<(Seq<char>, JsonV)>) -> nat
    decreases entries,
{
    if entries.len() == 0 {
        0
    } else {
        proof {
            vstd::seq::axiom_seq_index_decreases(entries, 0);
        }
        let first = entries[0].1.depth();
        let rest = entries_depth(entries.drop_first());
        if first >= rest {
            first
        } else {
            rest
        }
    }
}

/// The elements are at most `bound` deep exactly when their greatest depth is.
pub proof fn lemma_items_depth(items: Seq<JsonV>, bound: nat)
    ensures
        items_depth(items) <= bound <==> forall|i: int|
            0 <= i < items.len() ==> #[trigger] items[i].depth() <= bound,
    decreases items.len(),
{
    if items.len() > 0 {
        let rest = items.drop_first();
        lemma_items_depth(rest, bound);
        assert forall|i: int| 0 < i < items.len() implies #[trigger] items[i] == rest[i - 1] by {}
        if forall|i: int| 0 <= i < items.len() ==> #[trigger] items[i].depth() <= bound {
            assert forall|i: int| 0 <= i < rest.len() implies #[trigger] rest[i].depth() <= bound by {
                assert(rest[i] == items[i + 1]);
            }
            assert(items[0].depth() <= bound);
        }
    }
}

/// The entries' values are at most `bound` deep exactly when their greatest depth is.
pub proof fn lemma_entries_depth(entries: Seq<(Seq<char>, JsonV)>, bound: nat)
    ensures
        entries_depth(entries) <= bound <==> forall|i: int|
            0 <= i < entries.len() ==> #[trigger] entries[i].1.depth() <= bound,
    decreases entries.len(),
{
    if entries.len() > 0 {
        let rest = entries.drop_first();
        lemma_entries_depth(rest, bound);
        assert forall|i: int| 0 < i < entries.len() implies #[trigger] entries[i] == rest[i - 1] by {}
        if forall|i: int| 0 <= i < entries.len() ==> #[trigger] entries[i].1.depth() <= bound {
            assert forall|i: int| 0 <= i < rest.len() implies #[trigger] rest[i].1.depth() <= bound by {
                assert(rest[i] == entries[i + 1]);
            }
            assert(entries[0].1.depth() <= bound);
        }
    }
}

/// A value read out of an object lies strictly inside it.
pub proof fn lemma_get_depth(v: JsonV, key: Seq<char>)
    ensures
        match v.get(key) {
            Some(x) => x.depth() < v.depth(),
            None => true,
        },
{
    if let JsonV::Object(entries) = v {
        lemma_entries_lookup_member(entries, key);
        if let Some(x) = entries_lookup(entries, key) {
            let i = choose|i: int| 0 <= i < entries.len() && #[trigger] entries[i] == (key, x);
            lemma_entries_depth(entries, entries_depth(entries));
            assert(entries[i].1.depth() <= entries_depth(entries));
        }
    }
}

// ── JSON text ────────────────────────────────────────────────────────────────

/// `serde_json::Value`, which carries a value between the JSON text and [`Json`].
#[verifier::external_type_specification]
#[verifier::external_body]
pub struct ExJsonValue(serde_json::Value);

/// The value `serde_json::from_str::<serde_json::Value>` reads from a text,
/// `None` when the text is not one JSON value.
pub uninterp spec fn spec_parse_json(text: Seq<char>) -> Option<JsonV>;

/// The text `serde_json` writes for a value (`Value::to_string`).
pub uninterp spec fn spec_json_text(v: JsonV) -> Seq<char>;

/// A `serde_json` value as a [`Json`], variant for variant; a number keeps the
/// text `serde_json` writes for it.
#[verifier::external_body]
fn json_of_value(v: serde_json::Value) -> Json {
    match v {
        serde_json::Value::Null => Json::Null,
        serde_json::Value::Bool(b) => Json::Bool(b),
        serde_json::Value::Number(n) => Json::Number(n.to_string()),
        serde_json::Value::String(s) => Json::Str(s),
        serde_json::Value::Array(items) => Json::Array(items.into_iter().map(json_of_value).collect()),
        serde_json::Value::Object(map) => Json::Object(
            map.into_iter().map(|(k, x)| (k, json_of_value(x))).collect(),
        ),
    }
}

/// A [`Json`] as a `serde_json` value, variant for variant; a number is read
/// from its text by `serde_json::Number`'s `FromStr` (null where that fails),
/// and of two entries with one key the later one stays.
#[verifier::external_body]
fn value_of_json(j: &Json) -> serde_json::Value {
    match j {
        Json::Null => serde_json::Value::Null,
        Json::Bool(b) => serde_json::Value::Bool(*b),
        Json::Number(t) => t.parse::<serde_json::Number>().map_or(serde_json::Value::Null, serde_json::Value::Number),
        Json::Str(s) => serde_json::Value::String(s.clone()),
        Json::Array(items) => serde_json::Value::Array(items.iter().map(value_of_json).collect()),
        Json::Object(es) => serde_json::Value::Object(
            es.iter().map(|(k, x)| (k.clone(), value_of_json(x))).collect(),
        ),
    }
}

/// Parse a JSON text with `serde_json::from_str::<serde_json::Value>`.
///
/// Trusted: the result is `spec_parse_json` of the text, and a parsed value
/// nests at most 128 deep, as `serde_json`'s recursion limit (128 nested
/// containers refused) gives. What `spec_parse_json` is on a given text is not stated.
#[verifier::external_body]
pub(crate) fn parse_json(text: &str) -> (r: Option<Json>)
    ensures
        match r {
            Some(j) => spec_parse_json(text@) == Some(j@) && j@.depth() <= 128,
            None => spec_parse_json(text@) is None,
        },
{
    serde_json::from_str::<serde_json::Value>(text).ok().map(json_of_value)
}

/// Write a value as JSON text with `serde_json` (`Value::to_string`).
///
/// Trusted: the result is `spec_json_text` of the value. Values nesting deeper
/// than the parser accepts are left out, since the writer recurses once per
/// level. What `spec_json_text` is on a given value is not stated.
#[verifier::external_body]
pub(crate) fn json_text(j: &Json) -> (r: String)
    requires
        j@.depth() <= 128,
    ensures
        r@ == spec_json_text(j@),
{
    value_of_json(j).to_string()
}

} // verus!
