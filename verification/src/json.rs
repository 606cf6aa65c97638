//! JSON documents.
//!
//! `serde_json` parses and prints; what it parsed is carried over into the
//! plain [`Json`] tree, which the rest of the library reads.

use vstd::prelude::*;

verus! {

// ---------------------------------------------------------------------------
// The tree
// ---------------------------------------------------------------------------

/// A JSON number, as everything that is ever read of it.
pub struct JsonNumber {
    /// Its value, when it is an integer that fits.
    pub unsigned: Option<u64>,
    /// Its value, when it is an integer that fits.
    pub signed: Option<i64>,
    /// The bits of the double that the parser gives for it.
    pub double: u64,
    /// That double written with two decimals.
    pub fixed2: String,
    /// That double written with three decimals.
    pub fixed3: String,
}

/// The model of a [`JsonNumber`].
pub struct NumberTree {
    pub unsigned: Option<u64>,
    pub signed: Option<i64>,
    pub double: u64,
    pub fixed2: Seq<char>,
    pub fixed3: Seq<char>,
}

impl View for JsonNumber {
    type V = NumberTree;

    open spec fn view(&self) -> NumberTree {
        NumberTree {
            unsigned: self.unsigned,
            signed: self.signed,
            double: self.double,
            fixed2: self.fixed2@,
            fixed3: self.fixed3@,
        }
    }
}

/// A JSON value.
pub enum Json {
    Null,
    Bool(bool),
    Number(JsonNumber),
    Text(String),
    Array(Vec<Json>),
    Object(Vec<(String, Json)>),
}

/// The model of a [`Json`] value.
pub enum JsonTree {
    Null,
    Bool(bool),
    Number(NumberTree),
    Text(Seq<char>),
    Array(Seq<JsonTree>),
    Object(Seq<(Seq<char>, JsonTree)>),
}

impl Json {
    /// The tree that a value stands for.
    pub open spec fn tree(self) -> JsonTree
        decreases self,
    {
        match self {
            Json::Null => JsonTree::Null,
            Json::Bool(b) => JsonTree::Bool(b),
            Json::Number(n) => JsonTree::Number(n@),
            Json::Text(t) => JsonTree::Text(t@),
            Json::Array(items) => JsonTree::Array(
                Seq::new(
                    items@.len(),
                    |i: int|
                        if 0 <= i < items@.len() {
                            items@[i].tree()
                        } else {
                            JsonTree::Null
                        },
                ),
            ),
            Json::Object(fields) => JsonTree::Object(
                Seq::new(
                    fields@.len(),
                    |i: int|
                        if 0 <= i < fields@.len() {
                            (fields@[i].0@, fields@[i].1.tree())
                        } else {
                            (seq![], JsonTree::Null)
                        },
                ),
            ),
        }
    }
}

/// The trees of a list of values.
pub open spec fn trees(items: Seq<Json>) -> Seq<JsonTree> {
    items.map_values(|j: Json| j.tree())
}

// ---------------------------------------------------------------------------
// The outside parser
// ---------------------------------------------------------------------------

/// A parsed document of `serde_json`.
#[verifier::external_type_specification]
#[verifier::external_body]
pub struct ExValue(serde_json::Value);

/// A number of `serde_json`.
#[verifier::external_type_specification]
#[verifier::external_body]
pub struct ExNumber(serde_json::Number);

/// What a document of `serde_json` holds.
pub uninterp spec fn value_tree(v: serde_json::Value) -> JsonTree;

/// What a number of `serde_json` holds.
pub uninterp spec fn number_tree(n: serde_json::Number) -> NumberTree;

/// The document that a text stands for, or why it stands for none.
pub uninterp spec fn parsed_json(text: Seq<char>) -> Result<JsonTree, Seq<char>>;

/// The compact JSON text of a document.
pub uninterp spec fn compact_json(tree: JsonTree) -> Option<Seq<char>>;

/// One level of a document: its children are still closed.
pub enum Node {
    Null,
    Bool(bool),
    Number(serde_json::Number),
    Text(String),
    Array(Vec<serde_json::Value>),
    Object(Vec<(String, serde_json::Value)>),
}

/// The tree under one level of a document.
pub open spec fn node_tree(node: Node) -> JsonTree {
    match node {
        Node::Null => JsonTree::Null,
        Node::Bool(b) => JsonTree::Bool(b),
        Node::Number(n) => JsonTree::Number(number_tree(n)),
        Node::Text(t) => JsonTree::Text(t@),
        Node::Array(items) => JsonTree::Array(
            items@.map_values(|v: serde_json::Value| value_tree(v)),
        ),
        Node::Object(fields) => JsonTree::Object(
            fields@.map_values(|f: (String, serde_json::Value)| (f.0@, value_tree(f.1))),
        ),
    }
}

/// Parses a text with `serde_json::from_str` into a `serde_json::Value`. The
/// result, and the message of the error, depend on the text alone.
#[verifier::external_body]
fn parse_value(text: &str) -> (r: Result<serde_json::Value, String>)
    ensures
        match r {
            Ok(v) => parsed_json(text@) == Ok::<JsonTree, Seq<char>>(value_tree(v)),
            Err(e) => parsed_json(text@) == Err::<JsonTree, Seq<char>>(e@),
        },
{
    serde_json::from_str::<serde_json::Value>(text).map_err(|e| e.to_string())
}

/// Tells the variants of a `serde_json::Value` apart and hands its fields
/// over: an array's items in their order, an object's entries in the order
/// in which `serde_json::Map` walks them.
#[verifier::external_body]
fn open_value(v: serde_json::Value) -> (r: Node)
    ensures
        node_tree(r) == value_tree(v),
{
    match v {
        serde_json::Value::Null => Node::Null,
        serde_json::Value::Bool(b) => Node::Bool(b),
        serde_json::Value::Number(n) => Node::Number(n),
        serde_json::Value::String(s) => Node::Text(s),
        serde_json::Value::Array(items) => Node::Array(items),
        serde_json::Value::Object(map) => Node::Object(map.into_iter().collect()),
    }
}

/// Reads a `serde_json::Number` with `as_u64`, `as_i64` and `as_f64`; the
/// double is kept by its bits and written with two and with three decimals.
/// An integer from zero on is read by the first, and by the second as far as
/// it fits; a negative one is read by the second alone.
#[verifier::external_body]
fn open_number(n: serde_json::Number) -> (r: JsonNumber)
    ensures
        r@ == number_tree(n),
        match r.unsigned {
            Some(u) => r.signed == if u <= i64::MAX {
                Some(u as i64)
            } else {
                None
            },
            None => match r.signed {
                Some(i) => i < 0,
                None => true,
            },
        },
{
    JsonNumber {
        unsigned: n.as_u64(),
        signed: n.as_i64(),
        double: n.as_f64().unwrap_or_default().to_bits(),
        fixed2: format!("{:.2}", n.as_f64().unwrap_or_default()),
        fixed3: format!("{:.3}", n.as_f64().unwrap_or_default()),
    }
}

/// Prints a document with `serde_json::to_string`; nothing when that fails.
#[verifier::external_body]
fn print_value(v: &serde_json::Value) -> (r: Option<String>)
    ensures
        match r {
            Some(t) => compact_json(value_tree(*v)) == Some(t@),
            None => compact_json(value_tree(*v)) is None,
        },
{
    serde_json::to_string(v).ok()
}

/// The entry of an object with a name, by `serde_json::Value::get`; a value
/// that is no object has none. The names in an object of `serde_json` are
/// distinct, so the first entry with a name is the only one.
#[verifier::external_body]
fn value_entry(v: &serde_json::Value, key: &str) -> (r: Option<serde_json::Value>)
    ensures
        match r {
            Some(x) => value_tree(*v).field(key@) == Some(value_tree(x)),
            None => value_tree(*v).field(key@) is None,
        },
{
    v.get(key).cloned()
}

/// The null of `serde_json`, its `Value::Null`.
#[verifier::external_body]
fn null_value() -> (r: serde_json::Value)
    ensures
        value_tree(r) == JsonTree::Null,
{
    serde_json::Value::Null
}

/// Carries a whole document over.
pub fn from_value(v: serde_json::Value) -> (r: Json)
    ensures
        r.tree() == value_tree(v),
    decreases value_tree(v),
{
    match open_value(v) {
        Node::Null => Json::Null,
        Node::Bool(b) => Json::Bool(b),
        Node::Number(n) => Json::Number(open_number(n)),
        Node::Text(t) => Json::Text(t),
        Node::Array(items) => {
            let mut out: Vec<Json> = Vec::new();
            let ghost all = items@;
            for item in it: items
                invariant
                    it.seq() == all,
                    out@.len() == it.index(),
                    value_tree(v) == JsonTree::Array(
                        all.map_values(|x: serde_json::Value| value_tree(x)),
                    ),
                    forall|k: int| 0 <= k < out@.len() ==> out@[k].tree() == value_tree(all[k]),
            {
                let ghost held = value_tree(v)->Array_0;
                assert(decreases_to!(value_tree(v) => held));
                assert(decreases_to!(held => held[out@.len() as int]));
                assert(held[out@.len() as int] == value_tree(item));
                out.push(from_value(item));
            }
            let r = Json::Array(out);
            assert(r.tree()->Array_0 =~= value_tree(v)->Array_0);
            r
        },
        Node::Object(fields) => {
            let mut out: Vec<(String, Json)> = Vec::new();
            let ghost all = fields@;
            for field in it: fields
                invariant
                    it.seq() == all,
                    out@.len() == it.index(),
                    value_tree(v) == JsonTree::Object(
                        all.map_values(|f: (String, serde_json::Value)| (f.0@, value_tree(f.1))),
                    ),
                    forall|k: int|
                        0 <= k < out@.len() ==> (#[trigger] out@[k]).0@ == all[k].0@
                            && out@[k].1.tree() == value_tree(all[k].1),
            {
                let ghost held = value_tree(v)->Object_0;
                assert(decreases_to!(value_tree(v) => held));
                assert(decreases_to!(held => held[out@.len() as int]));
                assert(decreases_to!(held[out@.len() as int] => held[out@.len() as int].1));
                assert(held[out@.len() as int].1 == value_tree(field.1));
                out.push((field.0, from_value(field.1)));
            }
            let r = Json::Object(out);
            assert(r.tree()->Object_0 =~= value_tree(v)->Object_0);
            r
        },
    }
}

/// Parses a text.
pub fn parse(text: &str) -> (r: Result<Json, String>)
    ensures
        match r {
            Ok(j) => parsed_json(text@) == Ok::<JsonTree, Seq<char>>(j.tree()),
            Err(e) => parsed_json(text@) == Err::<JsonTree, Seq<char>>(e@),
        },
{
    match parse_value(text) {
        Ok(v) => Ok(from_value(v)),
        Err(e) => Err(e),
    }
}

/// A document together with its compact text.
pub struct Payload {
    pub json: Json,
    pub compact: Option<String>,
}

/// The model of a [`Payload`].
pub struct PayloadView {
    pub tree: JsonTree,
    pub compact: Option<Seq<char>>,
}

impl View for Payload {
    type V = PayloadView;

    open spec fn view(&self) -> PayloadView {
        PayloadView {
            tree: self.json.tree(),
            compact: match self.compact {
                Some(t) => Some(t@),
                None => None,
            },
        }
    }
}

/// Parses a text; the entry with a name, or null, comes with its compact
/// text.
pub fn parse_with_payload(text: &str, key: &str) -> (r: Result<(Json, Payload), String>)
    ensures
        match r {
            Ok((j, p)) => {
                &&& parsed_json(text@) == Ok::<JsonTree, Seq<char>>(j.tree())
                &&& p@.tree == j.tree().field_or_null(key@)
                &&& p@.compact == compact_json(j.tree().field_or_null(key@))
            },
            Err(e) => parsed_json(text@) == Err::<JsonTree, Seq<char>>(e@),
        },
{
    match parse_value(text) {
        Ok(v) => {
            let inner = match value_entry(&v, key) {
                Some(x) => x,
                None => null_value(),
            };
            let compact = print_value(&inner);
            let payload = Payload { json: from_value(inner), compact };
            Ok((from_value(v), payload))
        },
        Err(e) => Err(e),
    }
}

// ---------------------------------------------------------------------------
// Reading a tree
// ---------------------------------------------------------------------------

/// The first entry with a name.
pub open spec fn lookup<T>(fields: Seq<(Seq<char>, T)>, key: Seq<char>) -> Option<T>
    decreases fields.len(),
{
    if fields.len() == 0 {
        None
    } else if fields[0].0 == key {
        Some(fields[0].1)
    } else {
        lookup(fields.subrange(1, fields.len() as int), key)
    }
}

impl JsonTree {
    /// The entry of an object with a name; other values have none.
    pub open spec fn field(self, key: Seq<char>) -> Option<JsonTree> {
        match self {
            JsonTree::Object(fields) => lookup(fields, key),
            _ => None,
        }
    }

    /// The entry of an object with a name, or null.
    pub open spec fn field_or_null(self, key: Seq<char>) -> JsonTree {
        match self.field(key) {
            Some(t) => t,
            None => JsonTree::Null,
        }
    }

    /// The text under a name.
    pub open spec fn text(self, key: Seq<char>) -> Option<Seq<char>> {
        match self.field(key) {
            Some(JsonTree::Text(t)) => Some(t),
            _ => None,
        }
    }

    /// The number under a name.
    pub open spec fn number(self, key: Seq<char>) -> Option<NumberTree> {
        match self.field(key) {
            Some(JsonTree::Number(n)) => Some(n),
            _ => None,
        }
    }

    /// The number under a name as an unsigned integer, or zero.
    pub open spec fn unsigned_or_zero(self, key: Seq<char>) -> u64 {
        match self.number(key) {
            Some(n) => match n.unsigned {
                Some(u) => u,
                None => 0,
            },
            None => 0,
        }
    }

    /// The number under a name as a signed integer, or zero.
    pub open spec fn signed_or_zero(self, key: Seq<char>) -> i64 {
        match self.number(key) {
            Some(n) => match n.signed {
                Some(i) => i,
                None => 0,
            },
            None => 0,
        }
    }

    /// The bits of the number under a name, or those of zero.
    pub open spec fn double_or_zero(self, key: Seq<char>) -> u64 {
        match self.number(key) {
            Some(n) => n.double,
            None => 0,
        }
    }

    /// The text under a name, or another text.
    pub open spec fn text_or(self, key: Seq<char>, other: Seq<char>) -> Seq<char> {
        match self.text(key) {
            Some(t) => t,
            None => other,
        }
    }

    /// Whether the value under a name is true.
    pub open spec fn is_true(self, key: Seq<char>) -> bool {
        self.field(key) == Some(JsonTree::Bool(true))
    }
}

impl Json {
    /// The entry of an object with a name.
    pub fn get(&self, key: &str) -> (r: Option<&Json>)
        ensures
            match r {
                Some(j) => self.tree().field(key@) == Some(j.tree()),
                None => self.tree().field(key@) is None,
            },
    {
        match self {
            Json::Object(fields) => {
                let n: usize = fields.len();
                let mut i: usize = 0;
                let ghost held = self.tree()->Object_0;
                assert(held.subrange(0, held.len() as int) =~= held);
                while i < n
                    invariant
                        i <= n,
                        n == fields@.len(),
                        *self == Json::Object(*fields),
                        held == self.tree()->Object_0,
                        self.tree().field(key@) == lookup(
                            held.subrange(i as int, held.len() as int),
                            key@,
                        ),
                    decreases n - i,
                {
                    let ghost rest = held.subrange(i as int, held.len() as int);
                    assert(rest[0] == (fields@[i as int].0@, fields@[i as int].1.tree()));
                    if crate::text::same_text(fields[i].0.as_str(), key) {
                        return Some(&fields[i].1);
                    }
                    assert(rest.subrange(1, rest.len() as int) =~= held.subrange(
                        i + 1,
                        held.len() as int,
                    ));
                    i = i + 1;
                }
                None
            },
            _ => None,
        }
    }

    /// The text under a name.
    pub fn text(&self, key: &str) -> (r: Option<String>)
        ensures
            match r {
                Some(t) => self.tree().text(key@) == Some(t@),
                None => self.tree().text(key@) is None,
            },
    {
        match self.get(key) {
            Some(Json::Text(t)) => Some(t.clone()),
            _ => None,
        }
    }

    /// The text under a name, or another text.
    pub fn text_or(&self, key: &str, other: &str) -> (r: String)
        ensures
            r@ == self.tree().text_or(key@, other@),
    {
        match self.text(key) {
            Some(t) => t,
            None => other.to_owned(),
        }
    }

    /// The number under a name.
    pub fn number(&self, key: &str) -> (r: Option<&JsonNumber>)
        ensures
            match r {
                Some(n) => self.tree().number(key@) == Some(n@),
                None => self.tree().number(key@) is None,
            },
    {
        match self.get(key) {
            Some(Json::Number(n)) => Some(n),
            _ => None,
        }
    }

    /// The number under a name as an unsigned integer, or zero.
    pub fn unsigned_or_zero(&self, key: &str) -> (r: u64)
        ensures
            r == self.tree().unsigned_or_zero(key@),
    {
        match self.number(key) {
            Some(n) => match n.unsigned {
                Some(u) => u,
                None => 0,
            },
            None => 0,
        }
    }

    /// The number under a name as a signed integer, or zero.
    pub fn signed_or_zero(&self, key: &str) -> (r: i64)
        ensures
            r == self.tree().signed_or_zero(key@),
    {
        match self.number(key) {
            Some(n) => match n.signed {
                Some(i) => i,
                None => 0,
            },
            None => 0,
        }
    }

    /// The bits of the number under a name, or those of zero.
    pub fn double_or_zero(&self, key: &str) -> (r: u64)
        ensures
            r == self.tree().double_or_zero(key@),
    {
        match self.number(key) {
            Some(n) => n.double,
            None => 0,
        }
    }

    /// Whether the value under a name is true.
    pub fn is_true(&self, key: &str) -> (r: bool)
        ensures
            r == self.tree().is_true(key@),
    {
        match self.get(key) {
            Some(Json::Bool(b)) => *b,
            _ => false,
        }
    }
}

} // verus!
