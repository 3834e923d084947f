//! The value renderer: walks a [`DynamicValue`] and emits indented,
//! human-readable lines.
//!
//! The formatting policy is deliberately asymmetric: descending into an
//! object keeps the current indent prefix (each field is announced by a
//! bracketed key header line), while descending into a list deepens the
//! prefix by one indent unit for every item.

use vstd::prelude::*;
use vstd::string::StringExecFns;

use crate::value::DynamicValue;

verus! {

/// One indentation step: a single tab character.
pub open spec fn indent_unit() -> Seq<char> {
    "\t"@
}

/// A key header line: the key wrapped in square brackets.
pub open spec fn bracketed(key: Seq<char>) -> Seq<char> {
    "["@ + key + "]"@
}

/// The lines produced by rendering `v` with the given indent prefix.
///
/// Scalars occupy exactly one line at the prefix; an object contributes a
/// bracketed header per field followed by the field's rendering at the same
/// prefix; a list renders each item one indent unit deeper.
pub open spec fn render_lines(v: DynamicValue, prefix: Seq<char>) -> Seq<Seq<char>>
    decreases v,
{
    match v {
        DynamicValue::Null => seq![prefix + "NullValue"@],
        DynamicValue::Number(n) => seq![prefix + n@],
        DynamicValue::Text(s) => seq![prefix + "\""@ + s@ + "\""@],
        DynamicValue::Bool(b) => seq![prefix + (if b {
            "true"@
        } else {
            "false"@
        })],
        DynamicValue::Object(fields) => render_fields(fields@, prefix),
        DynamicValue::List(items) => render_seq(items@, prefix + indent_unit()),
    }
}

/// The lines of an object's fields in order: each key's header line, then
/// the key's value rendered at the object's own prefix.
pub open spec fn render_fields(fields: Seq<(String, DynamicValue)>, prefix: Seq<char>) -> Seq<
    Seq<char>,
>
    decreases fields,
{
    if fields.len() == 0 {
        Seq::empty()
    } else {
        seq![bracketed(fields[0].0@)] + render_lines(fields[0].1, prefix) + render_fields(
            fields.drop_first(),
            prefix,
        )
    }
}

/// The lines of a list's items in order, each rendered at the given prefix
/// (already deepened by the caller).
pub open spec fn render_seq(items: Seq<DynamicValue>, at: Seq<char>) -> Seq<Seq<char>>
    decreases items,
{
    if items.len() == 0 {
        Seq::empty()
    } else {
        render_lines(items[0], at) + render_seq(items.drop_first(), at)
    }
}

/// Concatenation of two string slices.
fn line_text(prefix: &str, text: &str) -> (r: String)
    ensures
        r@ == prefix@ + text@,
{
    let mut s: String = prefix.to_owned();
    s.append(text);
    s
}

/// A scalar string line: the text wrapped in double quotes at the prefix.
fn quoted_line(prefix: &str, text: &str) -> (r: String)
    ensures
        r@ == prefix@ + "\""@ + text@ + "\""@,
{
    let mut s: String = prefix.to_owned();
    s.append("\"");
    s.append(text);
    s.append("\"");
    s
}

/// A key header line for an object field.
fn bracket_line(key: &str) -> (r: String)
    ensures
        r@ == bracketed(key@),
{
    let mut s: String = "[".to_owned();
    s.append(key);
    s.append("]");
    s
}

/// Renders `v` at the given indent prefix, returning the output lines.
pub fn render(v: &DynamicValue, prefix: &str) -> (out: Vec<String>)
    ensures
        out.deep_view() == render_lines(*v, prefix@),
    decreases *v, 0int,
{
    match v {
        DynamicValue::Null => {
            let mut out: Vec<String> = Vec::new();
            out.push(line_text(prefix, "NullValue"));
            proof {
                assert(out.deep_view() =~= render_lines(*v, prefix@));
            }
            out
        },
        DynamicValue::Number(n) => {
            let mut out: Vec<String> = Vec::new();
            out.push(line_text(prefix, n.as_str()));
            proof {
                assert(out.deep_view() =~= render_lines(*v, prefix@));
            }
            out
        },
        DynamicValue::Text(s) => {
            let mut out: Vec<String> = Vec::new();
            out.push(quoted_line(prefix, s.as_str()));
            proof {
                assert(out.deep_view() =~= render_lines(*v, prefix@));
            }
            out
        },
        DynamicValue::Bool(b) => {
            let mut out: Vec<String> = Vec::new();
            let text: &str = if *b {
                "true"
            } else {
                "false"
            };
            out.push(line_text(prefix, text));
            proof {
                assert(out.deep_view() =~= render_lines(*v, prefix@));
            }
            out
        },
        DynamicValue::Object(fields) => {
            proof {
                assert(decreases_to!(*v => fields@));
            }
            let out = render_fields_from(fields, 0, prefix);
            proof {
                assert(fields@.skip(0) =~= fields@);
            }
            out
        },
        DynamicValue::List(items) => {
            proof {
                assert(decreases_to!(*v => items@));
            }
            let deeper = line_text(prefix, "\t");
            let out = render_list_from(items, 0, deeper.as_str());
            proof {
                assert(items@.skip(0) =~= items@);
            }
            out
        },
    }
}

/// Renders the fields of an object from position `i` on.
fn render_fields_from(fields: &Vec<(String, DynamicValue)>, i: usize, prefix: &str) -> (out: Vec<
    String,
>)
    requires
        i <= fields@.len(),
    ensures
        out.deep_view() == render_fields(fields@.skip(i as int), prefix@),
    decreases fields@, fields@.len() - i,
{
    if i == fields.len() {
        let out: Vec<String> = Vec::new();
        proof {
            assert(out.deep_view() =~= render_fields(fields@.skip(i as int), prefix@));
        }
        out
    } else {
        proof {
            assert(decreases_to!(fields@ => fields@[i as int].1));
        }
        let mut out: Vec<String> = Vec::new();
        out.push(bracket_line(fields[i].0.as_str()));
        let mut mid = render(&fields[i].1, prefix);
        out.append(&mut mid);
        let mut rest = render_fields_from(fields, i + 1, prefix);
        out.append(&mut rest);
        proof {
            assert(fields@.skip(i as int).drop_first() =~= fields@.skip(i as int + 1));
            assert(fields@.skip(i as int)[0] == fields@[i as int]);
            assert(out.deep_view() =~= render_fields(fields@.skip(i as int), prefix@));
        }
        out
    }
}

/// Renders the items of a list from position `i` on, each at prefix `at`.
fn render_list_from(items: &Vec<DynamicValue>, i: usize, at: &str) -> (out: Vec<String>)
    requires
        i <= items@.len(),
    ensures
        out.deep_view() == render_seq(items@.skip(i as int), at@),
    decreases items@, items@.len() - i,
{
    if i == items.len() {
        let out: Vec<String> = Vec::new();
        proof {
            assert(out.deep_view() =~= render_seq(items@.skip(i as int), at@));
        }
        out
    } else {
        proof {
            assert(decreases_to!(items@ => items@[i as int]));
        }
        let mut out = render(&items[i], at);
        let mut rest = render_list_from(items, i + 1, at);
        out.append(&mut rest);
        proof {
            assert(items@.skip(i as int).drop_first() =~= items@.skip(i as int + 1));
            assert(items@.skip(i as int)[0] == items@[i as int]);
            assert(out.deep_view() =~= render_seq(items@.skip(i as int), at@));
        }
        out
    }
}

/// Rendering is exhaustive over the six cases and never falls through:
/// every scalar (null, number, string, bool) produces exactly one line, and
/// an object or list produces exactly the recursively defined lines of its
/// fields or items.
pub proof fn lemma_render_exhaustive(v: DynamicValue, prefix: Seq<char>)
    ensures
        !(v is Object) && !(v is List) ==> render_lines(v, prefix).len() == 1,
        v matches DynamicValue::Object(fields) ==> render_lines(v, prefix) == render_fields(
            fields@,
            prefix,
        ),
        v matches DynamicValue::List(items) ==> render_lines(v, prefix) == render_seq(
            items@,
            prefix + indent_unit(),
        ),
{
}

/// Object descent keeps the prefix: a one-field object renders as the
/// bracketed key header followed by the field's own rendering at the very
/// same prefix.
pub proof fn lemma_object_keeps_prefix(fields: Vec<(String, DynamicValue)>, prefix: Seq<char>)
    requires
        fields@.len() == 1,
    ensures
        render_lines(DynamicValue::Object(fields), prefix) == seq![bracketed(fields@[0].0@)]
            + render_lines(fields@[0].1, prefix),
{
    assert(fields@.drop_first() =~= Seq::<(String, DynamicValue)>::empty());
    assert(render_fields(Seq::<(String, DynamicValue)>::empty(), prefix) == Seq::<
        Seq<char>,
    >::empty());
    assert(render_fields(fields@, prefix) =~= seq![bracketed(fields@[0].0@)] + render_lines(
        fields@[0].1,
        prefix,
    ));
}

/// List descent deepens the prefix: a one-item list renders as the item's
/// own rendering at the prefix extended by exactly one indent unit.
pub proof fn lemma_list_deepens_prefix(items: Vec<DynamicValue>, prefix: Seq<char>)
    requires
        items@.len() == 1,
    ensures
        render_lines(DynamicValue::List(items), prefix) == render_lines(
            items@[0],
            prefix + indent_unit(),
        ),
{
    assert(items@.drop_first() =~= Seq::<DynamicValue>::empty());
    assert(render_seq(Seq::<DynamicValue>::empty(), prefix + indent_unit()) == Seq::<
        Seq<char>,
    >::empty());
    assert(render_seq(items@, prefix + indent_unit()) =~= render_lines(
        items@[0],
        prefix + indent_unit(),
    ));
}

/// Rendering is deterministic: it is a pure function of the value and the
/// prefix, so rendering the same value twice with the same prefix gives
/// identical output.
pub proof fn lemma_render_deterministic(
    v: DynamicValue,
    prefix: Seq<char>,
    first: Seq<Seq<char>>,
    second: Seq<Seq<char>>,
)
    requires
        first == render_lines(v, prefix),
        second == render_lines(v, prefix),
    ensures
        first == second,
{
}

} // verus!
