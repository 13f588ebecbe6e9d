//! A JSON document tree with a mathematical view, and the bridge to the
//! `serde_json` parser and printer.

use vstd::prelude::*;

verus! {

/// `serde_json::Number`, a JSON number; it is carried through as it is.
#[verifier::external_type_specification]
#[verifier::external_body]
pub struct ExNumber(serde_json::Number);

/// `serde_json::Value`, the parser's own document type; it only occurs
/// between the parser or printer and the conversion.
#[verifier::external_type_specification]
#[verifier::external_body]
pub struct ExValue(serde_json::Value);

/// `serde_json::Error`, what the parser reports; it is carried through as
/// it is.
#[verifier::external_type_specification]
#[verifier::external_body]
pub struct ExJsonError(serde_json::Error);

/// The mathematical model of a JSON document.
pub enum JsonTree {
    Null,
    Bool(bool),
    Number(serde_json::Number),
    String(Seq<char>),
    Array(Seq<JsonTree>),
    Object(Seq<(Seq<char>, JsonTree)>),
}

/// The member that a lookup of `key` finds among `members`: the last one
/// listed under that key.
pub open spec fn find_member(members: Seq<(Seq<char>, JsonTree)>, key: Seq<char>) -> Option<
    JsonTree,
>
    decreases members.len(),
{
    if members.len() == 0 {
        None
    } else if members.last().0 == key {
        Some(members.last().1)
    } else {
        find_member(members.drop_last(), key)
    }
}

impl JsonTree {
    /// The child named `key`; `None` unless this is an object that has it.
    pub open spec fn member(self, key: Seq<char>) -> Option<JsonTree> {
        match self {
            JsonTree::Object(members) => find_member(members, key),
            _ => None,
        }
    }

    /// The child at `index`; `None` unless this is an array that long.
    pub open spec fn element(self, index: int) -> Option<JsonTree> {
        match self {
            JsonTree::Array(items) => if 0 <= index < items.len() {
                Some(items[index])
            } else {
                None
            },
            _ => None,
        }
    }

    /// The text of a string node; `None` for every other kind of node.
    pub open spec fn text(self) -> Option<Seq<char>> {
        match self {
            JsonTree::String(s) => Some(s),
            _ => None,
        }
    }
}

/// Whether no two of `members` share a key.
pub open spec fn keys_are_unique(members: Seq<(Seq<char>, JsonTree)>) -> bool {
    forall|i: int, j: int|
        0 <= i < j < members.len() ==> (#[trigger] members[i]).0 != (#[trigger] members[j]).0
}

/// Whether no object of a document, at any depth, lists a key twice. The
/// documents that the parser reads are of this kind.
pub open spec fn has_unique_keys(tree: JsonTree) -> bool
    decreases tree,
{
    match tree {
        JsonTree::Array(items) => forall|i: int|
            0 <= i < items.len() ==> has_unique_keys(#[trigger] items[i]),
        JsonTree::Object(members) => keys_are_unique(members) && forall|i: int|
            0 <= i < members.len() ==> has_unique_keys((#[trigger] members[i]).1),
        _ => true,
    }
}

/// Where no key occurs twice, a lookup finds the one member that has the
/// key.
pub proof fn lemma_unique_member(members: Seq<(Seq<char>, JsonTree)>, i: int)
    requires
        keys_are_unique(members),
        0 <= i < members.len(),
    ensures
        find_member(members, members[i].0) == Some(members[i].1),
    decreases members.len(),
{
    if i < members.len() - 1 {
        let front = members.drop_last();
        assert(front[i] == members[i]);
        assert(keys_are_unique(front)) by {
            assert forall|a: int, b: int| 0 <= a < b < front.len() implies (#[trigger] front[a]).0
                != (#[trigger] front[b]).0 by {
                assert(front[a] == members[a]);
                assert(front[b] == members[b]);
            }
        }
        lemma_unique_member(front, i);
    }
}

/// A JSON document held as plain data.
///
/// An object keeps its members in the order in which they are listed; where
/// a key occurs more than once, the last member with that key is the one
/// that a lookup finds and that the printed text shows. A document that was
/// parsed has no such key ([`has_unique_keys`]); one built by hand may.
#[derive(Debug, PartialEq)]
pub enum JsonValue {
    Null,
    Bool(bool),
    Number(serde_json::Number),
    String(String),
    Array(Vec<JsonValue>),
    Object(Vec<(String, JsonValue)>),
}

/// The document that a value holds.
pub open spec fn tree_of(value: JsonValue) -> JsonTree
    decreases value,
{
    match value {
        JsonValue::Null => JsonTree::Null,
        JsonValue::Bool(b) => JsonTree::Bool(b),
        JsonValue::Number(n) => JsonTree::Number(n),
        JsonValue::String(s) => JsonTree::String(s@),
        JsonValue::Array(items) => JsonTree::Array(
            Seq::new(
                items@.len(),
                |i: int|
                    if 0 <= i < items@.len() {
                        tree_of(items@[i])
                    } else {
                        JsonTree::Null
                    },
            ),
        ),
        JsonValue::Object(members) => JsonTree::Object(
            Seq::new(
                members@.len(),
                |i: int|
                    if 0 <= i < members@.len() {
                        (members@[i].0@, tree_of(members@[i].1))
                    } else {
                        (Seq::empty(), JsonTree::Null)
                    },
            ),
        ),
    }
}

impl View for JsonValue {
    type V = JsonTree;

    open spec fn view(&self) -> JsonTree {
        tree_of(*self)
    }
}

/// What `serde_json` reads from `text`: the document, or `None` where the
/// parser reports an error.
pub uninterp spec fn json_parse(text: Seq<char>) -> Option<JsonTree>;

/// The compact text that `serde_json` prints for `tree`.
pub uninterp spec fn json_text(tree: JsonTree) -> Seq<char>;

/// The JSON number that stands for an unsigned integer.
pub uninterp spec fn json_number(n: u64) -> serde_json::Number;

/// `serde_json::Number::from` on a `u64`: the number named by
/// [`json_number`].
#[verifier::external_body]
pub(crate) fn number_from(n: u64) -> (res: serde_json::Number)
    ensures
        res == json_number(n),
{
    serde_json::Number::from(n)
}

/// Moves a `serde_json::Value` into a [`JsonValue`], node for node. An
/// object's members come in the order in which the outside map hands them
/// out.
#[verifier::external_body]
fn from_outside(value: serde_json::Value) -> JsonValue {
    match value {
        serde_json::Value::Null => JsonValue::Null,
        serde_json::Value::Bool(b) => JsonValue::Bool(b),
        serde_json::Value::Number(n) => JsonValue::Number(n),
        serde_json::Value::String(s) => JsonValue::String(s),
        serde_json::Value::Array(a) => JsonValue::Array(a.into_iter().map(from_outside).collect()),
        serde_json::Value::Object(m) => JsonValue::Object(
            m.into_iter().map(|(k, v)| (k, from_outside(v))).collect(),
        ),
    }
}

/// Copies a [`JsonValue`] into a `serde_json::Value`, node for node. An
/// object's members are inserted in order with `serde_json::Map::insert`,
/// so that a later member replaces an earlier one with the same key.
#[verifier::external_body]
fn to_outside(value: &JsonValue) -> serde_json::Value {
    match value {
        JsonValue::Null => serde_json::Value::Null,
        JsonValue::Bool(b) => serde_json::Value::Bool(*b),
        JsonValue::Number(n) => serde_json::Value::Number(n.clone()),
        JsonValue::String(s) => serde_json::Value::String(s.clone()),
        JsonValue::Array(a) => serde_json::Value::Array(a.iter().map(to_outside).collect()),
        JsonValue::Object(m) => {
            let mut map = serde_json::Map::new();
            m.iter().for_each(|(k, v)| { map.insert(k.clone(), to_outside(v)); });
            serde_json::Value::Object(map)
        },
    }
}

/// `serde_json::from_str` at type `serde_json::Value`: the result is the
/// document named by [`json_parse`], and an error exactly where there is
/// none. The parser keeps the members of an object in a map, so that no
/// object of the result lists a key twice.
#[verifier::external_body]
pub(crate) fn parse_json(text: &str) -> (res: Result<JsonValue, serde_json::Error>)
    ensures
        match res {
            Ok(value) => json_parse(text@) == Some(value@) && has_unique_keys(value@),
            Err(_) => json_parse(text@) is None,
        },
{
    serde_json::from_str::<serde_json::Value>(text).map(from_outside)
}

/// `to_string` of `serde_json::Value` (its `Display`, compact form): the
/// result is the text named by [`json_text`]. The compact form is never
/// empty and holds no line feed, since the printer writes no white space
/// between tokens and escapes control characters inside strings.
#[verifier::external_body]
pub(crate) fn print_json(value: &JsonValue) -> (res: String)
    ensures
        res@ == json_text(value@),
        res@.len() > 0,
        !res@.contains('\n'),
{
    to_outside(value).to_string()
}

/// The view of an object lists its members in order, each by its view.
pub proof fn lemma_object_view(members: &Vec<(String, JsonValue)>)
    ensures
        JsonValue::Object(*members)@ is Object,
        JsonValue::Object(*members)@->Object_0.len() == members@.len(),
        forall|j: int|
            0 <= j < members@.len() ==> (#[trigger] JsonValue::Object(*members)@->Object_0[j]) == (
                members@[j].0@,
                members@[j].1@,
            ),
{
}

/// The view of an array lists its items in order, each by its view.
pub proof fn lemma_array_view(items: &Vec<JsonValue>)
    ensures
        JsonValue::Array(*items)@ is Array,
        JsonValue::Array(*items)@->Array_0.len() == items@.len(),
        forall|j: int|
            0 <= j < items@.len() ==> (#[trigger] JsonValue::Array(*items)@->Array_0[j])
                == items@[j]@,
{
}

/// One member of a JSON object under construction.
pub fn member(key: &str, value: JsonValue) -> (res: (String, JsonValue))
    ensures
        res.0@ == key@,
        res.1 == value,
{
    (String::from_str(key), value)
}

impl JsonValue {
    /// A string node with the characters of `text`.
    pub fn string(text: &str) -> (res: JsonValue)
        ensures
            res@ == JsonTree::String(text@),
    {
        JsonValue::String(String::from_str(text))
    }

    /// A string node where there is a text, `null` where there is none.
    pub fn optional_string(text: Option<&str>) -> (res: JsonValue)
        ensures
            res@ == match text {
                Some(t) => JsonTree::String(t@),
                None => JsonTree::Null,
            },
    {
        match text {
            Some(t) => JsonValue::string(t),
            None => JsonValue::Null,
        }
    }

    /// An object with the members listed, in that order.
    pub fn object(members: Vec<(String, JsonValue)>) -> (res: JsonValue)
        ensures
            res@ is Object,
            res@->Object_0.len() == members@.len(),
            forall|j: int|
                0 <= j < members@.len() ==> (#[trigger] res@->Object_0[j]) == (
                    members@[j].0@,
                    members@[j].1@,
                ),
    {
        proof {
            lemma_object_view(&members);
        }
        JsonValue::Object(members)
    }

    /// An array with the items listed, in that order.
    pub fn array(items: Vec<JsonValue>) -> (res: JsonValue)
        ensures
            res@ is Array,
            res@->Array_0.len() == items@.len(),
            forall|j: int| 0 <= j < items@.len() ==> (#[trigger] res@->Array_0[j]) == items@[j]@,
    {
        proof {
            lemma_array_view(&items);
        }
        JsonValue::Array(items)
    }

    /// The child named `key` of an object, by reference.
    pub fn get_key<'a>(&'a self, key: &str) -> (res: Option<&'a JsonValue>)
        ensures
            match res {
                Some(child) => self@.member(key@) == Some(child@),
                None => self@.member(key@) is None,
            },
    {
        match self {
            JsonValue::Object(members) => {
                let ghost all = self@->Object_0;
                proof {
                    lemma_object_view(members);
                    assert(all.take(members@.len() as int) =~= all);
                }
                let mut i: usize = members.len();
                while i > 0
                    invariant
                        i <= members.len(),
                        self@ == JsonTree::Object(all),
                        all.len() == members@.len(),
                        forall|j: int|
                            0 <= j < members@.len() ==> all[j] == (
                                members@[j].0@,
                                members@[j].1@,
                            ),
                        find_member(all, key@) == find_member(all.take(i as int), key@),
                    decreases i,
                {
                    i = i - 1;
                    proof {
                        let shorter = all.take(i + 1);
                        assert(shorter.drop_last() == all.take(i as int));
                    }
                    if crate::text::same_text(members[i].0.as_str(), key) {
                        return Some(&members[i].1);
                    }
                }
                None
            },
            _ => None,
        }
    }

    /// The child at `index` of an array, by reference.
    pub fn get_index<'a>(&'a self, index: usize) -> (res: Option<&'a JsonValue>)
        ensures
            match res {
                Some(child) => self@.element(index as int) == Some(child@),
                None => self@.element(index as int) is None,
            },
    {
        match self {
            JsonValue::Array(items) => {
                if index < items.len() {
                    Some(&items[index])
                } else {
                    None
                }
            },
            _ => None,
        }
    }

    /// The text of a string node, by reference.
    pub fn as_str<'a>(&'a self) -> (res: Option<&'a str>)
        ensures
            match res {
                Some(s) => self@.text() == Some(s@),
                None => self@.text() is None,
            },
    {
        match self {
            JsonValue::String(s) => Some(s.as_str()),
            _ => None,
        }
    }
}

} // verus!
