//! Comma-separated values that a spreadsheet cannot mistake for formulas.

use vstd::prelude::*;

use crate::json;
use crate::json::{json_text, Json, JsonTree};
use crate::text;
use crate::text::{chars_of, join, join2, join3};

verus! {

/// Whether a spreadsheet would take a text for a formula.
pub open spec fn is_formula(value: Seq<char>) -> bool {
    value.len() > 0 && (value[0] == '=' || value[0] == '+' || value[0] == '-' || value[0] == '@')
}

/// A text with each quotation mark doubled.
pub open spec fn doubled(value: Seq<char>) -> Seq<char>
    decreases value.len(),
{
    if value.len() == 0 {
        Seq::empty()
    } else if value.last() == '"' {
        doubled(value.drop_last()).push('"').push('"')
    } else {
        doubled(value.drop_last()).push(value.last())
    }
}

/// A text as one field: quoted, with what could be a formula marked as text.
pub open spec fn field(value: Seq<char>) -> Seq<char> {
    "\""@ + doubled(
        if is_formula(value) {
            "'"@ + value
        } else {
            value
        },
    ) + "\""@
}

fn double_quotes(value: &str) -> (r: String)
    ensures
        r@ == doubled(value@),
{
    let chars = chars_of(value);
    let mut out: String = String::new();
    let mut i: usize = 0;
    assert(chars@.take(0) =~= Seq::empty());
    while i < chars.len()
        invariant
            i <= chars.len(),
            out@ == doubled(chars@.take(i as int)),
        decreases chars.len() - i,
    {
        proof {
            assert(chars@.take(i + 1).drop_last() =~= chars@.take(i as int));
            assert(chars@.take(i + 1).last() == chars@[i as int]);
        }
        let c: char = chars[i];
        if c == '"' {
            out.push('"');
            out.push('"');
        } else {
            out.push(c);
        }
        i += 1;
    }
    assert(chars@.take(chars@.len() as int) =~= value@);
    out
}

/// Writes a text as one field.
pub fn csv_field(value: &str) -> (r: String)
    ensures
        r@ == field(value@),
{
    let chars = chars_of(value);
    let risky: bool = chars.len() > 0 && (chars[0] == '=' || chars[0] == '+' || chars[0] == '-'
        || chars[0] == '@');
    let prefixed: String = if risky {
        join2("'", value)
    } else {
        value.to_owned()
    };
    let body = double_quotes(prefixed.as_str());
    join3("\"", body.as_str(), "\"")
}

/// A value as the text of a field.
pub open spec fn value_text(tree: JsonTree) -> Seq<char> {
    match tree {
        JsonTree::Null => Seq::empty(),
        JsonTree::Text(t) => t,
        _ => json::json_text_of(tree),
    }
}

/// The text of a field of a value; nothing where it has no such field.
pub open spec fn member_text(tree: JsonTree, key: Seq<char>) -> Seq<char> {
    match json::member(tree, key) {
        Some(t) => value_text(t),
        None => Seq::empty(),
    }
}

/// Writes a value as the text of a field.
pub fn csv_value(value: &Json) -> (r: String)
    ensures
        r@ == value_text(value@),
{
    match value {
        Json::Null => String::new(),
        Json::Text(t) => t.clone(),
        _ => json_text(value),
    }
}

/// Writes the text of a field of a value.
pub fn csv_member(value: &Json, key: &str) -> (r: String)
    ensures
        r@ == member_text(value@, key@),
{
    match value.field(key) {
        Some(v) => csv_value(v),
        None => String::new(),
    }
}

/// Fields as one row.
pub open spec fn row(values: Seq<Seq<char>>) -> Seq<char> {
    text::joined(values.map_values(|v: Seq<char>| field(v)), ","@) + "\n"@
}

/// Writes fields as one row.
pub fn csv_row(values: &Vec<String>) -> (r: String)
    ensures
        r@ == row(text::texts(values@)),
{
    let ghost shown = text::texts(values@).map_values(|v: Seq<char>| field(v));
    let mut fields: Vec<String> = Vec::new();
    let mut i: usize = 0;
    assert(text::texts(fields@) =~= shown.take(0));
    while i < values.len()
        invariant
            i <= values.len(),
            shown == text::texts(values@).map_values(|v: Seq<char>| field(v)),
            text::texts(fields@) == shown.take(i as int),
        decreases values.len() - i,
    {
        let item = csv_field(values[i].as_str());
        let ghost before = text::texts(fields@);
        fields.push(item);
        proof {
            assert(item@ == shown[i as int]);
            assert(text::texts(fields@) =~= before.push(item@));
            assert(shown.take(i + 1) =~= shown.take(i as int).push(shown[i as int]));
        }
        i += 1;
    }
    assert(shown.take(shown.len() as int) =~= shown);
    let line = join(&fields, ",");
    join2(line.as_str(), "\n")
}

/// A field never begins with a character that a spreadsheet takes for a formula: it
/// begins with a quotation mark, and behind that stands no such character either.
pub proof fn field_is_no_formula(value: Seq<char>)
    ensures
        field(value)[0] == '"',
        !is_formula(field(value).skip(1)),
    decreases value.len(),
{
    reveal_strlit("\"");
    reveal_strlit("'");
    let marked = if is_formula(value) {
        "'"@ + value
    } else {
        value
    };
    doubling_keeps_the_start(marked);
    let inner = doubled(marked);
    assert(field(value) =~= "\""@ + inner + "\""@);
    assert(field(value)[0] == '"');
    let rest = field(value).skip(1);
    if marked.len() > 0 {
        assert(rest[0] == inner[0]);
    } else {
        assert(inner.len() == 0);
        assert(rest[0] == '"');
    }
}

proof fn doubling_keeps_the_start(value: Seq<char>)
    ensures
        value.len() > 0 ==> doubled(value).len() > 0 && doubled(value)[0] == value[0],
    decreases value.len(),
{
    if value.len() > 1 {
        doubling_keeps_the_start(value.drop_last());
        assert(value.drop_last()[0] == value[0]);
    } else if value.len() == 1 {
        assert(doubled(value.drop_last()) =~= Seq::empty());
        assert(value.last() == value[0]);
    }
}

} // verus!
