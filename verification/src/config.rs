//! The agent's name and the place of the `kannaka` binary.

use crate::json::lookup;
use crate::text::same_text;
use vstd::prelude::*;

verus! {

// ---------------------------------------------------------------------------
// TOML documents
// ---------------------------------------------------------------------------

/// A TOML value, as far as it is ever read.
pub enum Toml {
    Text(String),
    Table(Vec<(String, Toml)>),
    /// Neither a string nor a table.
    Other,
}

/// The model of a [`Toml`] value.
pub enum TomlTree {
    Text(Seq<char>),
    Table(Seq<(Seq<char>, TomlTree)>),
    Other,
}

impl Toml {
    /// The tree that a value stands for.
    pub open spec fn tree(self) -> TomlTree
        decreases self,
    {
        match self {
            Toml::Text(t) => TomlTree::Text(t@),
            Toml::Table(fields) => TomlTree::Table(
                Seq::new(
                    fields@.len(),
                    |i: int|
                        if 0 <= i < fields@.len() {
                            (fields@[i].0@, fields@[i].1.tree())
                        } else {
                            (seq![], TomlTree::Other)
                        },
                ),
            ),
            Toml::Other => TomlTree::Other,
        }
    }
}

/// A value of `toml`.
#[verifier::external_type_specification]
#[verifier::external_body]
pub struct ExTomlValue(toml::Value);

/// What a value of `toml` holds.
pub uninterp spec fn toml_tree(v: toml::Value) -> TomlTree;

/// The document that a text stands for, where it stands for one.
pub uninterp spec fn parsed_toml(text: Seq<char>) -> Option<TomlTree>;

/// One level of a document: its children are still closed.
pub enum TomlNode {
    Text(String),
    Table(Vec<(String, toml::Value)>),
    Other,
}

/// The tree under one level of a document.
pub open spec fn toml_node_tree(node: TomlNode) -> TomlTree {
    match node {
        TomlNode::Text(t) => TomlTree::Text(t@),
        TomlNode::Table(fields) => TomlTree::Table(
            fields@.map_values(|f: (String, toml::Value)| (f.0@, toml_tree(f.1))),
        ),
        TomlNode::Other => TomlTree::Other,
    }
}

/// Parses a text as a `toml::Table` by its `FromStr`, and takes the table as
/// a value. The result depends on the text alone; why a text is no document
/// is left out.
#[verifier::external_body]
fn parse_toml_value(text: &str) -> (r: Option<toml::Value>)
    ensures
        match r {
            Some(v) => parsed_toml(text@) == Some(toml_tree(v)) && toml_tree(v) is Table,
            None => parsed_toml(text@) is None,
        },
{
    text.parse::<toml::Table>().ok().map(toml::Value::Table)
}

/// Tells the variants of a `toml::Value` apart and hands the text of a string
/// and the entries of a table over, in the order in which `toml::map::Map`
/// walks them. The other variants are told apart no further.
#[verifier::external_body]
fn open_toml(v: toml::Value) -> (r: TomlNode)
    ensures
        toml_node_tree(r) == toml_tree(v),
{
    match v {
        toml::Value::String(s) => TomlNode::Text(s),
        toml::Value::Table(map) => TomlNode::Table(map.into_iter().collect()),
        toml::Value::Integer(_) => TomlNode::Other,
        toml::Value::Float(_) => TomlNode::Other,
        toml::Value::Boolean(_) => TomlNode::Other,
        toml::Value::Datetime(_) => TomlNode::Other,
        toml::Value::Array(_) => TomlNode::Other,
    }
}

/// Carries a whole document over.
pub fn from_toml(v: toml::Value) -> (r: Toml)
    ensures
        r.tree() == toml_tree(v),
    decreases toml_tree(v),
{
    match open_toml(v) {
        TomlNode::Text(t) => Toml::Text(t),
        TomlNode::Other => Toml::Other,
        TomlNode::Table(fields) => {
            let mut out: Vec<(String, Toml)> = Vec::new();
            let ghost all = fields@;
            for field in it: fields
                invariant
                    it.seq() == all,
                    out@.len() == it.index(),
                    toml_tree(v) == TomlTree::Table(
                        all.map_values(|f: (String, toml::Value)| (f.0@, toml_tree(f.1))),
                    ),
                    forall|k: int|
                        0 <= k < out@.len() ==> (#[trigger] out@[k]).0@ == all[k].0@
                            && out@[k].1.tree() == toml_tree(all[k].1),
            {
                let ghost held = toml_tree(v)->Table_0;
                assert(decreases_to!(toml_tree(v) => held));
                assert(decreases_to!(held => held[out@.len() as int]));
                assert(decreases_to!(held[out@.len() as int] => held[out@.len() as int].1));
                assert(held[out@.len() as int].1 == toml_tree(field.1));
                out.push((field.0, from_toml(field.1)));
            }
            let r = Toml::Table(out);
            assert(r.tree()->Table_0 =~= toml_tree(v)->Table_0);
            r
        },
    }
}

/// Parses a text as a document, where it is one.
pub fn parse_toml(text: &str) -> (r: Option<Toml>)
    ensures
        match r {
            Some(t) => parsed_toml(text@) == Some(t.tree()) && t.tree() is Table,
            None => parsed_toml(text@) is None,
        },
{
    match parse_toml_value(text) {
        Some(v) => Some(from_toml(v)),
        None => None,
    }
}

impl TomlTree {
    /// The entry of a table with a name; other values have none.
    pub open spec fn field(self, key: Seq<char>) -> Option<TomlTree> {
        match self {
            TomlTree::Table(fields) => lookup(fields, key),
            _ => None,
        }
    }

    /// The string under a name.
    pub open spec fn text(self, key: Seq<char>) -> Option<Seq<char>> {
        match self.field(key) {
            Some(TomlTree::Text(t)) => Some(t),
            _ => None,
        }
    }
}

impl Toml {
    /// The entry of a table with a name.
    pub fn get(&self, key: &str) -> (r: Option<&Toml>)
        ensures
            match r {
                Some(t) => self.tree().field(key@) == Some(t.tree()),
                None => self.tree().field(key@) is None,
            },
    {
        match self {
            Toml::Table(fields) => {
                let n: usize = fields.len();
                let mut i: usize = 0;
                let ghost held = self.tree()->Table_0;
                assert(held.subrange(0, held.len() as int) =~= held);
                while i < n
                    invariant
                        i <= n,
                        n == fields@.len(),
                        *self == Toml::Table(*fields),
                        held == self.tree()->Table_0,
                        self.tree().field(key@) == lookup(
                            held.subrange(i as int, held.len() as int),
                            key@,
                        ),
                    decreases n - i,
                {
                    let ghost rest = held.subrange(i as int, held.len() as int);
                    assert(rest[0] == (fields@[i as int].0@, fields@[i as int].1.tree()));
                    if same_text(fields[i].0.as_str(), key) {
                        return Some(&fields[i].1);
                    }
                    assert(rest.subrange(1, rest.len() as int) =~= held.subrange(
                        i + 1,
                        held.len() as int,
                    ));
                    i = i + 1;
                }
                None
            },
            _ => None,
        }
    }

    /// The string under a name.
    pub fn text(&self, key: &str) -> (r: Option<String>)
        ensures
            match r {
                Some(t) => self.tree().text(key@) == Some(t@),
                None => self.tree().text(key@) is None,
            },
    {
        match self.get(key) {
            Some(Toml::Text(t)) => Some(t.clone()),
            _ => None,
        }
    }
}

// ---------------------------------------------------------------------------
// The agent's name
// ---------------------------------------------------------------------------

/// The agent's name, given its display name and its id where the
/// configuration has them: an empty display name does not count.
pub open spec fn name_from(display_name: Option<Seq<char>>, id: Option<Seq<char>>) -> Seq<char> {
    match display_name {
        Some(n) if n.len() > 0 => n,
        _ => match id {
            Some(i) => i,
            None => "unknown"@,
        },
    }
}

/// Chooses between the display name and the id.
pub fn choose_name(display_name: Option<String>, id: Option<String>) -> (r: String)
    ensures
        r@ == name_from(
            match display_name {
                Some(n) => Some(n@),
                None => None,
            },
            match id {
                Some(i) => Some(i@),
                None => None,
            },
        ),
{
    match display_name {
        Some(n) => {
            if !n.as_str().is_empty() {
                return n;
            }
        },
        None => {},
    }
    match id {
        Some(i) => i,
        None => "unknown".to_owned(),
    }
}

/// The agent's name in a configuration: the strings that count stand in the
/// table `agent`.
pub open spec fn name_in(document: TomlTree) -> Seq<char> {
    match document.field("agent"@) {
        Some(agent) => name_from(agent.text("display_name"@), agent.text("id"@)),
        None => "unknown"@,
    }
}

/// Reads the agent's name out of a configuration.
pub fn agent_name_in(document: &Toml) -> (r: String)
    ensures
        r@ == name_in(document.tree()),
{
    match document.get("agent") {
        Some(agent) => choose_name(agent.text("display_name"), agent.text("id")),
        None => "unknown".to_owned(),
    }
}

/// The agent's name by the text of the configuration file, where there is
/// one: a text that is no document names nobody.
pub fn load_agent_name(content: Option<String>) -> (r: String)
    ensures
        r@ == match content {
            Some(c) => match parsed_toml(c@) {
                Some(document) => name_in(document),
                None => "unknown"@,
            },
            None => "unknown"@,
        },
{
    match content {
        Some(c) => match parse_toml(c.as_str()) {
            Some(document) => agent_name_in(&document),
            None => "unknown".to_owned(),
        },
        None => "unknown".to_owned(),
    }
}

/// Chooses the binary: the first of the places where one was found, and the
/// bare name, left to the search path, when there is none.
pub fn find_kannaka_binary(found: &Vec<Option<String>>) -> (r: String)
    ensures
        (forall|i: int| 0 <= i < found@.len() ==> found@[i] is None) ==> r@ == "kannaka"@,
        forall|i: int|
            0 <= i < found@.len() && (#[trigger] found@[i]) is Some && (forall|j: int|
                0 <= j < i ==> found@[j] is None) ==> r@ == found@[i]->0@,
{
    let n: usize = found.len();
    let mut i: usize = 0;
    while i < n
        invariant
            i <= n,
            n == found@.len(),
            forall|j: int| 0 <= j < i ==> found@[j] is None,
        decreases n - i,
    {
        match &found[i] {
            Some(path) => {
                return path.clone();
            },
            None => {},
        }
        i = i + 1;
    }
    "kannaka".to_owned()
}

} // verus!
