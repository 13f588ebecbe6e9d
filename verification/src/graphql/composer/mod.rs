//! Building the selection part of a GraphQL query from typed field lists.

pub mod global;
pub mod product;

use std::collections::HashMap;
use vstd::prelude::*;

verus! {

/// A GraphQL query under construction.
#[derive(Clone, Debug)]
pub struct ShopifyGraphQLComposer {
    /// The generated GraphQL query.
    query_str: String,
    /// The operations of the query, by name.
    queries: HashMap<String, ShopifyGraphQLComposerQuery>,
    /// The variables of the query, required or optional.
    variables: Vec<ShopifyGraphQLComposerVariableType>,
}

/// A variable of a query, by the name of its type.
#[derive(Clone, Debug)]
pub enum ShopifyGraphQLComposerVariableType {
    Required(String),
    Optional(String),
}

/// An operation of a query.
#[derive(Clone, Debug)]
pub enum ShopifyGraphQLComposerQuery {
    Query(String),
    Mutation(String),
}

/// A field, or a field with its sub-selection, that can be written into a
/// query.
pub trait ToGraphString {
    /// The text of the selection.
    spec fn graph_string(&self) -> Seq<char>;

    /// Writes the selection as query text.
    fn to_graph_string(&self) -> (res: String)
        ensures
            res@ == self.graph_string(),
    ;
}

/// The lower-case form of an ASCII capital letter; every other character
/// stands for itself.
pub open spec fn ascii_lower(c: char) -> char {
    if 'A' <= c <= 'Z' {
        ((c as u8) + 32) as char
    } else {
        c
    }
}

/// The lower-case form of an ASCII capital letter; every other character
/// is returned unchanged.
pub fn lower_char(c: char) -> (res: char)
    ensures
        res == ascii_lower(c),
{
    if 'A' <= c && c <= 'Z' {
        ((c as u8) + 32) as char
    } else {
        c
    }
}

/// A name with its first character in lower case.
pub open spec fn first_lower(name: Seq<char>) -> Seq<char> {
    if name.len() == 0 {
        name
    } else {
        seq![ascii_lower(name[0])] + name.subrange(1, name.len() as int)
    }
}

/// Turns the name of a variant into the name of its field: the first
/// character goes to lower case, the rest stays.
pub fn to_first_lower(s: &str) -> (res: String)
    ensures
        res@ == first_lower(s@),
{
    let mut res = String::new();
    for c in it: s.chars()
        invariant
            it.seq() == s@,
            res@ == first_lower(s@.take(it.index() as int)),
    {
        if res.as_str().is_empty() {
            res.push(lower_char(c));
        } else {
            res.push(c);
        }
    }
    res
}

/// The lines of a sub-selection: each field's text after a line feed.
pub open spec fn selection_lines(fields: Seq<Seq<char>>) -> Seq<char>
    decreases fields.len(),
{
    if fields.len() == 0 {
        Seq::empty()
    } else {
        selection_lines(fields.drop_last()) + seq!['\n'] + fields.last()
    }
}

/// A field with a sub-selection: the name, an opening brace, the fields
/// line by line, and the closing brace on a line of its own.
pub open spec fn selection_block(name: Seq<char>, fields: Seq<Seq<char>>) -> Seq<char> {
    name + " {"@ + selection_lines(fields) + "\n }"@
}

/// The texts of a list of fields.
pub open spec fn graph_strings<T: ToGraphString>(fields: Seq<T>) -> Seq<Seq<char>> {
    Seq::new(fields.len(), |i: int| fields[i].graph_string())
}

/// Writes a field with its sub-selection.
pub fn write_selection<T: ToGraphString>(name: &str, fields: &Vec<T>) -> (res: String)
    ensures
        res@ == selection_block(name@, graph_strings(fields@)),
{
    let mut s = String::from_str(name);
    s.append(" {");
    let ghost texts = graph_strings(fields@);
    let mut i: usize = 0;
    while i < fields.len()
        invariant
            i <= fields.len(),
            texts == graph_strings(fields@),
            s@ == name@ + " {"@ + selection_lines(texts.take(i as int)),
        decreases fields.len() - i,
    {
        let field = fields[i].to_graph_string();
        proof {
            reveal_strlit("\n");
            assert(texts.take(i + 1).drop_last() =~= texts.take(i as int));
            assert(name@ + " {"@ + selection_lines(texts.take(i as int)) + seq!['\n'] + field@
                =~= name@ + " {"@ + (selection_lines(texts.take(i as int)) + seq!['\n']
                + field@));
        }
        s.append("\n");
        s.append(field.as_str());
        i = i + 1;
    }
    proof {
        assert(texts.take(fields@.len() as int) =~= texts);
    }
    s.append("\n }");
    s
}

} // verus!
