//! JSON documents as plain trees.
//!
//! The text of a document is read by `serde_json`. What it reads is taken apart
//! into a [`Json`] tree, on which everything else works.
use crate::double::Double;
use crate::text::same_text;
use vstd::prelude::*;

verus! {

/// A JSON document in specifications.
///
/// A number holds what it is as an `i64`, where it is one, and what it is as a
/// double.
pub enum Tree {
    Null,
    Bool(bool),
    Number(Option<i64>, Option<Double>),
    Text(Seq<char>),
    Array(Seq<Tree>),
    Object(Seq<(Seq<char>, Tree)>),
}

/// A JSON document. The fields of an object stand in the order in which they
/// are looked up.
#[derive(Debug)]
pub enum Json {
    Null,
    Bool(bool),
    Number(Option<i64>, Option<Double>),
    Text(String),
    Array(Vec<Json>),
    Object(Vec<(String, Json)>),
}

impl Json {
    /// The document in specifications.
    pub open spec fn tree(self) -> Tree
        decreases self,
    {
        match self {
            Json::Null => Tree::Null,
            Json::Bool(b) => Tree::Bool(b),
            Json::Number(whole, double) => Tree::Number(whole, double),
            Json::Text(s) => Tree::Text(s@),
            Json::Array(items) => Tree::Array(
                Seq::new(
                    items@.len(),
                    |i: int|
                        if 0 <= i < items@.len() {
                            items@[i].tree()
                        } else {
                            Tree::Null
                        },
                ),
            ),
            Json::Object(fields) => Tree::Object(
                Seq::new(
                    fields@.len(),
                    |i: int|
                        if 0 <= i < fields@.len() {
                            (fields@[i].0@, fields@[i].1.tree())
                        } else {
                            (Seq::empty(), Tree::Null)
                        },
                ),
            ),
        }
    }
}

impl View for Json {
    type V = Tree;

    open spec fn view(&self) -> Tree {
        self.tree()
    }
}

/// The value of the first field called `key`.
pub open spec fn lookup(fields: Seq<(Seq<char>, Tree)>, key: Seq<char>) -> Option<Tree>
    decreases fields.len(),
{
    if fields.len() == 0 {
        None
    } else if fields[0].0 == key {
        Some(fields[0].1)
    } else {
        lookup(fields.drop_first(), key)
    }
}

impl Tree {
    /// The field `key` of an object; nothing where there is none, or where the
    /// document is no object.
    pub open spec fn field(self, key: Seq<char>) -> Option<Tree> {
        match self {
            Tree::Object(fields) => lookup(fields, key),
            _ => None,
        }
    }

    /// The field `key` of an object, or null.
    pub open spec fn at(self, key: Seq<char>) -> Tree {
        match self.field(key) {
            Some(t) => t,
            None => Tree::Null,
        }
    }

    pub open spec fn as_text(self) -> Option<Seq<char>> {
        match self {
            Tree::Text(s) => Some(s),
            _ => None,
        }
    }

    pub open spec fn as_int(self) -> Option<i64> {
        match self {
            Tree::Number(whole, _) => whole,
            _ => None,
        }
    }

    pub open spec fn as_double(self) -> Option<Double> {
        match self {
            Tree::Number(_, double) => double,
            _ => None,
        }
    }

    pub open spec fn as_bool(self) -> Option<bool> {
        match self {
            Tree::Bool(b) => Some(b),
            _ => None,
        }
    }

    /// The items of an array; none where the document is no array.
    pub open spec fn items(self) -> Seq<Tree> {
        match self {
            Tree::Array(items) => items,
            _ => Seq::empty(),
        }
    }

    /// The text of the field `key`, where there is such a field and it is a text.
    pub open spec fn text_field(self, key: Seq<char>) -> Option<Seq<char>> {
        self.at(key).as_text()
    }
}

/// What an object holds, field by field.
pub(crate) proof fn lemma_object_fields(fields: Vec<(String, Json)>)
    ensures
        Json::Object(fields)@ is Object,
        Json::Object(fields)@->Object_0.len() == fields@.len(),
        forall|i: int|
            0 <= i < fields@.len() ==> #[trigger] Json::Object(fields)@->Object_0[i] == (
                fields@[i].0@,
                fields@[i].1@,
            ),
{
}

/// What an array holds, item by item.
pub(crate) proof fn lemma_array_items(items: Vec<Json>)
    ensures
        Json::Array(items)@ is Array,
        Json::Array(items)@->Array_0.len() == items@.len(),
        forall|i: int|
            0 <= i < items@.len() ==> #[trigger] Json::Array(items)@->Array_0[i] == items@[i]@,
{
}

impl Json {
    /// The field `key` of an object.
    pub fn get(&self, key: &str) -> (r: Option<&Json>)
        ensures
            match r {
                Some(j) => self@.field(key@) == Some(j@),
                None => self@.field(key@) is None,
            },
    {
        match self {
            Json::Object(fields) => {
                let mut i: usize = 0;
                proof {
                    lemma_object_fields(*fields);
                }
                assert(self@->Object_0.skip(0) =~= self@->Object_0);
                while i < fields.len()
                    invariant
                        i <= fields@.len(),
                        self@->Object_0.len() == fields@.len(),
                        forall|j: int|
                            0 <= j < fields@.len() ==> #[trigger] self@->Object_0[j] == (
                                fields@[j].0@,
                                fields@[j].1@,
                            ),
                        self@ is Object,
                        lookup(self@->Object_0, key@) == lookup(
                            self@->Object_0.skip(i as int),
                            key@,
                        ),
                    decreases fields.len() - i,
                {
                    let ghost rest = self@->Object_0.skip(i as int);
                    assert(rest[0] == (fields@[i as int].0@, fields@[i as int].1@));
                    if same_text(fields[i].0.as_str(), key) {
                        return Some(&fields[i].1);
                    }
                    assert(rest.drop_first() =~= self@->Object_0.skip(i + 1));
                    i += 1;
                }
                None
            },
            _ => None,
        }
    }

    /// The text, where the document is one.
    pub fn as_str(&self) -> (r: Option<&str>)
        ensures
            match r {
                Some(s) => self@.as_text() == Some(s@),
                None => self@.as_text() is None,
            },
    {
        match self {
            Json::Text(s) => Some(s.as_str()),
            _ => None,
        }
    }

    /// The number as an `i64`, where it is one.
    pub fn as_i64(&self) -> (r: Option<i64>)
        ensures
            r == self@.as_int(),
    {
        match self {
            Json::Number(whole, _) => *whole,
            _ => None,
        }
    }

    /// The number as a double.
    pub fn as_double(&self) -> (r: Option<Double>)
        ensures
            r == self@.as_double(),
    {
        match self {
            Json::Number(_, double) => *double,
            _ => None,
        }
    }

    /// The truth value, where the document is one.
    pub fn as_bool(&self) -> (r: Option<bool>)
        ensures
            r == self@.as_bool(),
    {
        match self {
            Json::Bool(b) => Some(*b),
            _ => None,
        }
    }

    /// The text of the field `key`.
    pub fn text_at(&self, key: &str) -> (r: Option<String>)
        ensures
            crate::text::view_text(r) == self@.text_field(key@),
    {
        match self.get(key) {
            Some(j) => match j.as_str() {
                Some(s) => Some(s.to_owned()),
                None => None,
            },
            None => None,
        }
    }

    /// The field `key` as an `i64`.
    pub fn int_at(&self, key: &str) -> (r: Option<i64>)
        ensures
            r == self@.at(key@).as_int(),
    {
        match self.get(key) {
            Some(j) => j.as_i64(),
            None => None,
        }
    }

    /// The field `key` as a double.
    pub fn double_at(&self, key: &str) -> (r: Option<Double>)
        ensures
            r == self@.at(key@).as_double(),
    {
        match self.get(key) {
            Some(j) => j.as_double(),
            None => None,
        }
    }

    /// Whether the field `key` is true.
    pub fn flag_at(&self, key: &str) -> (r: bool)
        ensures
            r == (self@.at(key@).as_bool() == Some(true)),
    {
        match self.get(key) {
            Some(j) => match j.as_bool() {
                Some(b) => b,
                None => false,
            },
            None => false,
        }
    }
}

/// A JSON value of `serde_json`.
#[verifier::external_type_specification]
#[verifier::external_body]
pub struct ExValue(serde_json::Value);

/// The error with which `serde_json` refuses a text.
#[verifier::external_type_specification]
#[verifier::external_body]
pub struct ExJsonError(serde_json::Error);

/// The document that a `serde_json::Value` holds.
pub uninterp spec fn value_tree(value: serde_json::Value) -> Tree;

/// The document that `serde_json` reads in a text; nothing where it refuses the
/// text.
pub uninterp spec fn parsed_json(text: Seq<char>) -> Option<Tree>;

/// One level of a document: what is below it is still in the form of
/// `serde_json`.
pub enum Level {
    Null,
    Bool(bool),
    Number(Option<i64>, Option<Double>),
    Text(String),
    Array(Vec<serde_json::Value>),
    Object(Vec<(String, serde_json::Value)>),
}

impl Level {
    /// The document with this top level.
    pub open spec fn tree(self) -> Tree {
        match self {
            Level::Null => Tree::Null,
            Level::Bool(b) => Tree::Bool(b),
            Level::Number(whole, double) => Tree::Number(whole, double),
            Level::Text(s) => Tree::Text(s@),
            Level::Array(items) => Tree::Array(items@.map_values(|v| value_tree(v))),
            Level::Object(fields) => Tree::Object(
                fields@.map_values(|f: (String, serde_json::Value)| (f.0@, value_tree(f.1))),
            ),
        }
    }
}

/// Calls `serde_json::from_str` for a `serde_json::Value`.
///
/// Claimed: whether the text is accepted, and the document that comes out,
/// depend on the text alone; `parsed_json` names both.
#[verifier::external_body]
fn read_value(text: &str) -> (r: Result<serde_json::Value, serde_json::Error>)
    ensures
        match r {
            Ok(value) => parsed_json(text@) == Some(value_tree(value)),
            Err(_) => parsed_json(text@) is None,
        },
{
    serde_json::from_str(text)
}

/// Takes a `serde_json::Value` apart by its variants; a number is asked for
/// itself with `Number::as_i64` and `Number::as_f64`, whose double is handed on
/// as its bits.
///
/// Claimed: the level shows the document that the value holds.
#[verifier::external_body]
fn open_value(value: serde_json::Value) -> (r: Level)
    ensures
        r.tree() == value_tree(value),
{
    match value {
        serde_json::Value::Null => Level::Null,
        serde_json::Value::Bool(b) => Level::Bool(b),
        serde_json::Value::Number(n) => Level::Number(
            n.as_i64(),
            n.as_f64().map(|d| Double { bits: d.to_bits() }),
        ),
        serde_json::Value::String(s) => Level::Text(s),
        serde_json::Value::Array(items) => Level::Array(items),
        serde_json::Value::Object(fields) => Level::Object(fields.into_iter().collect()),
    }
}

/// The tree of a value.
fn tree_from(value: serde_json::Value) -> (r: Json)
    ensures
        r@ == value_tree(value),
    decreases value_tree(value),
{
    let ghost doc = value_tree(value);
    match open_value(value) {
        Level::Null => Json::Null,
        Level::Bool(b) => Json::Bool(b),
        Level::Number(whole, double) => Json::Number(whole, double),
        Level::Text(s) => Json::Text(s),
        Level::Array(items) => {
            let ghost all = items@;
            let mut out: Vec<Json> = Vec::new();
            for item in it: items
                invariant
                    it.seq() == all,
                    out@.len() == it.index(),
                    doc == value_tree(value),
                    doc is Array,
                    doc->Array_0 == all.map_values(|v| value_tree(v)),
                    forall|j: int|
                        0 <= j < out@.len() ==> (#[trigger] out@[j])@ == value_tree(all[j]),
            {
                proof {
                    let below = doc->Array_0;
                    assert(below[it.index()] == value_tree(item));
                    assert(decreases_to!(doc => below));
                    assert(decreases_to!(below => below[it.index()]));
                }
                out.push(tree_from(item));
            }
            let r = Json::Array(out);
            assert(r@->Array_0 =~= doc->Array_0);
            r
        },
        Level::Object(fields) => {
            let ghost all = fields@;
            let mut out: Vec<(String, Json)> = Vec::new();
            for field in it: fields
                invariant
                    it.seq() == all,
                    out@.len() == it.index(),
                    doc == value_tree(value),
                    doc is Object,
                    doc->Object_0 == all.map_values(
                        |f: (String, serde_json::Value)| (f.0@, value_tree(f.1)),
                    ),
                    forall|j: int|
                        0 <= j < out@.len() ==> (#[trigger] out@[j]).0@ == all[j].0@ && out@[j].1@
                            == value_tree(all[j].1),
            {
                proof {
                    let below = doc->Object_0;
                    assert(below[it.index()] == (field.0@, value_tree(field.1)));
                    assert(decreases_to!(doc => below));
                    assert(decreases_to!(below => below[it.index()]));
                    assert(decreases_to!(below[it.index()] => below[it.index()].1));
                }
                let (key, below) = field;
                out.push((key, tree_from(below)));
            }
            let r = Json::Object(out);
            assert(r@->Object_0 =~= doc->Object_0);
            r
        },
    }
}

/// Reads a JSON document.
pub fn parse_json(text: &str) -> (r: Option<Json>)
    ensures
        match r {
            Some(j) => parsed_json(text@) == Some(j@),
            None => parsed_json(text@) is None,
        },
{
    match read_value(text) {
        Ok(value) => Some(tree_from(value)),
        Err(_) => None,
    }
}

/// The field of an object is the first one under the key; there is none where no field
/// has the key, or the document is no object.
pub proof fn law_field_is_the_first(fields: Seq<(Seq<char>, Tree)>, key: Seq<char>)
    ensures
        match Tree::Object(fields).field(key) {
            Some(tree) => exists|i: int|
                {
                    &&& 0 <= i < fields.len()
                    &&& (#[trigger] fields[i]).0 == key
                    &&& fields[i].1 == tree
                    &&& forall|j: int| 0 <= j < i ==> (#[trigger] fields[j]).0 != key
                },
            None => forall|j: int| 0 <= j < fields.len() ==> (#[trigger] fields[j]).0 != key,
        },
    decreases fields.len(),
{
    if fields.len() > 0 && fields[0].0 != key {
        let rest = fields.drop_first();
        law_field_is_the_first(rest, key);
        assert forall|j: int| 1 <= j < fields.len() implies #[trigger] fields[j] == rest[j - 1] by {}
        match Tree::Object(rest).field(key) {
            Some(tree) => {
                let i = choose|i: int|
                    {
                        &&& 0 <= i < rest.len()
                        &&& (#[trigger] rest[i]).0 == key
                        &&& rest[i].1 == tree
                        &&& forall|j: int| 0 <= j < i ==> (#[trigger] rest[j]).0 != key
                    };
                assert(fields[i + 1] == rest[i]);
                assert forall|j: int| 0 <= j < i + 1 implies (#[trigger] fields[j]).0 != key by {
                    if j > 0 {
                        assert(rest[j - 1].0 != key);
                    }
                }
            },
            None => {
                assert forall|j: int| 0 <= j < fields.len() implies (#[trigger] fields[j]).0
                    != key by {
                    if j > 0 {
                        assert(rest[j - 1].0 != key);
                    }
                }
            },
        }
    }
}

/// What a document is read as: each reading gives what documents of its kind hold, and
/// nothing of the others.
pub proof fn law_readings_give_what_is_held(
    b: bool,
    n: Option<i64>,
    d: Option<Double>,
    text: Seq<char>,
    items: Seq<Tree>,
    tree: Tree,
    key: Seq<char>,
)
    ensures
        Tree::Bool(b).as_bool() == Some(b),
        Tree::Number(n, d).as_int() == n,
        Tree::Number(n, d).as_double() == d,
        Tree::Text(text).as_text() == Some(text),
        Tree::Array(items).items() == items,
        tree.as_bool() is Some ==> tree is Bool,
        tree.as_int() is Some ==> tree is Number,
        tree.as_double() is Some ==> tree is Number,
        tree.as_text() is Some ==> tree is Text,
        tree.items().len() > 0 ==> tree is Array,
        tree.field(key) is Some ==> tree is Object,
        tree.field(key) matches Some(t) ==> tree.at(key) == t,
        tree.field(key) is None ==> tree.at(key) == Tree::Null,
{
}

/// In specifications a list keeps its items in order, and an object its fields, each
/// under its name.
pub proof fn law_parts_in_specifications(
    items: Vec<Json>,
    fields: Vec<(String, Json)>,
    i: int,
    k: int,
)
    requires
        0 <= i < items@.len(),
        0 <= k < fields@.len(),
    ensures
        Json::Array(items)@->Array_0.len() == items@.len(),
        Json::Array(items)@->Array_0[i] == items@[i]@,
        Json::Object(fields)@->Object_0.len() == fields@.len(),
        Json::Object(fields)@->Object_0[k] == (fields@[k].0@, fields@[k].1@),
{
    lemma_array_items(items);
    lemma_object_fields(fields);
}

/// In specifications a plain value is what it is.
pub proof fn law_plain_values_in_specifications(
    b: bool,
    whole: Option<i64>,
    double: Option<Double>,
    text: String,
)
    ensures
        Json::Null@ == Tree::Null,
        Json::Bool(b)@ == Tree::Bool(b),
        Json::Number(whole, double)@ == Tree::Number(whole, double),
        Json::Text(text)@ == Tree::Text(text@),
{
}

}
