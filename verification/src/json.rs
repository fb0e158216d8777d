//! JSON values as the views read them, their compact text, and the tests on
//! text that the views hand to `serde_json`.
use vstd::prelude::*;

use crate::text::{chars_equal, chars_of, push_char, push_str};

verus! {

/// A JSON value. A number is held as its JSON text; an object as its
/// entries, in the order the object lists them.
#[derive(Debug)]
pub enum JsonValue {
    Null,
    Bool(bool),
    Number(String),
    String(String),
    Array(Vec<JsonValue>),
    Object(Vec<(String, JsonValue)>),
}

/// The JSON string literal for a text, as `serde_json` writes it: the text
/// in double quotes, with quotes, backslashes and control characters
/// escaped.
pub uninterp spec fn json_string_literal(text: Seq<char>) -> Seq<char>;

/// Calls `serde_json::to_string` on a `&str`: the text as a JSON string
/// literal. Writing a string to memory cannot fail, so the empty fallback
/// is never taken. The contract names the result and says nothing of its
/// characters.
#[verifier::external_body]
fn quote_json_string(text: &str) -> (q: String)
    ensures
        q@ == json_string_literal(text@),
{
    serde_json::to_string(text).unwrap_or_default()
}

/// Whether a text parses as a JSON document, as
/// `serde_json::from_str::<serde_json::Value>` decides it.
pub uninterp spec fn is_json_text(text: Seq<char>) -> bool;

/// Calls `serde_json::from_str::<serde_json::Value>` on `text` and tells
/// whether it succeeded. The contract names the outcome and says nothing of
/// which texts parse.
#[verifier::external_body]
pub(crate) fn parses_as_json(text: &str) -> (b: bool)
    ensures
        b == is_json_text(text@),
{
    serde_json::from_str::<serde_json::Value>(text).is_ok()
}

/// `null`.
pub open spec fn null_text() -> Seq<char> {
    seq!['n', 'u', 'l', 'l']
}

/// `true` or `false`.
pub open spec fn bool_text(b: bool) -> Seq<char> {
    if b {
        seq!['t', 'r', 'u', 'e']
    } else {
        seq!['f', 'a', 'l', 's', 'e']
    }
}

/// The compact JSON text of a value, as `serde_json` writes it: no
/// whitespace, array items and object entries separated by commas, each
/// object key written as a string literal followed by a colon.
pub open spec fn compact_json(v: JsonValue) -> Seq<char>
    decreases v,
{
    match v {
        JsonValue::Null => null_text(),
        JsonValue::Bool(b) => bool_text(b),
        JsonValue::Number(n) => n@,
        JsonValue::String(s) => json_string_literal(s@),
        JsonValue::Array(items) => seq!['['] + compact_items(items@) + seq![']'],
        JsonValue::Object(entries) => seq!['{'] + compact_entries(entries@) + seq!['}'],
    }
}

/// The compact texts of `items`, separated by commas.
pub open spec fn compact_items(items: Seq<JsonValue>) -> Seq<char>
    decreases items,
{
    if items.len() == 0 {
        seq![]
    } else if items.len() == 1 {
        compact_json(items[0])
    } else {
        compact_items(items.drop_last()) + seq![','] + compact_json(items.last())
    }
}

/// The compact texts of object entries (`"key":value`), separated by commas.
pub open spec fn compact_entries(entries: Seq<(String, JsonValue)>) -> Seq<char>
    decreases entries,
{
    if entries.len() == 0 {
        seq![]
    } else if entries.len() == 1 {
        json_string_literal(entries[0].0@) + seq![':'] + compact_json(entries[0].1)
    } else {
        compact_entries(entries.drop_last()) + seq![','] + json_string_literal(entries.last().0@)
            + seq![':'] + compact_json(entries.last().1)
    }
}

/// Appends `null`, `true` or `false`.
pub(crate) fn push_literal(out: &mut String, which: u8)
    requires
        which < 3,
    ensures
        final(out)@ == old(out)@ + (if which == 0 {
            null_text()
        } else {
            bool_text(which == 1)
        }),
{
    if which == 0 {
        push_char(out, 'n');
        push_char(out, 'u');
        push_char(out, 'l');
        push_char(out, 'l');
    } else if which == 1 {
        push_char(out, 't');
        push_char(out, 'r');
        push_char(out, 'u');
        push_char(out, 'e');
    } else {
        push_char(out, 'f');
        push_char(out, 'a');
        push_char(out, 'l');
        push_char(out, 's');
        push_char(out, 'e');
    }
    assert(old(out)@.push('n').push('u').push('l').push('l') == old(out)@ + null_text());
    assert(old(out)@.push('t').push('r').push('u').push('e') == old(out)@ + bool_text(true));
    assert(old(out)@.push('f').push('a').push('l').push('s').push('e') == old(out)@ + bool_text(
        false,
    ));
}

/// Appends the compact JSON text of `v` to `out`.
fn write_compact(v: &JsonValue, out: &mut String)
    ensures
        final(out)@ == old(out)@ + compact_json(*v),
    decreases v,
{
    match v {
        JsonValue::Null => push_literal(out, 0),
        JsonValue::Bool(b) => push_literal(
            out,
            if *b {
                1
            } else {
                2
            },
        ),
        JsonValue::Number(n) => push_str(out, n.as_str()),
        JsonValue::String(s) => {
            let q = quote_json_string(s.as_str());
            push_str(out, q.as_str());
        },
        JsonValue::Array(items) => {
            let ghost start = out@;
            push_char(out, '[');
            for i in 0..items.len()
                invariant
                    out@ == start + seq!['['] + compact_items(items@.take(i as int)),
                *v == JsonValue::Array(*items),
            {
                let ghost before = out@;
                if i > 0 {
                    push_char(out, ',');
                }
                proof {
                    assert(decreases_to!(*v => (*v)->Array_0));
                    assert(decreases_to!(*items => items@));
                    assert(decreases_to!(items@ => items@[i as int]));
                    assert(decreases_to!(*v => items@[i as int]));
                }
                write_compact(&items[i], out);
                assert(items@.take(i + 1).drop_last() == items@.take(i as int));
                if i == 0 {
                    assert(items@.take(1) == seq![items@[0]]);
                }
            }
            assert(items@.take(items@.len() as int) == items@);
            push_char(out, ']');
        },
        JsonValue::Object(entries) => {
            let ghost start = out@;
            push_char(out, '{');
            for i in 0..entries.len()
                invariant
                    out@ == start + seq!['{'] + compact_entries(entries@.take(i as int)),
                *v == JsonValue::Object(*entries),
            {
                if i > 0 {
                    push_char(out, ',');
                }
                let q = quote_json_string(entries[i].0.as_str());
                push_str(out, q.as_str());
                push_char(out, ':');
                proof {
                    assert(decreases_to!(*v => (*v)->Object_0));
                    assert(decreases_to!(*entries => entries@));
                    assert(decreases_to!(entries@ => entries@[i as int]));
                    assert(decreases_to!(entries@[i as int] => entries@[i as int].1));
                    assert(decreases_to!(*v => entries@[i as int].1));
                }
                write_compact(&entries[i].1, out);
                assert(entries@.take(i + 1).drop_last() == entries@.take(i as int));
                if i == 0 {
                    assert(entries@.take(1) == seq![entries@[0]]);
                }
            }
            assert(entries@.take(entries@.len() as int) == entries@);
            push_char(out, '}');
        },
    }
}

/// The compact JSON text of `v` (see `compact_json`).
pub fn to_compact_json(v: &JsonValue) -> (s: String)
    ensures
        s@ == compact_json(*v),
{
    let mut out = String::new();
    write_compact(v, &mut out);
    assert(out@ == Seq::<char>::empty() + compact_json(*v));
    out
}

/// The text shown for a value: a string as it is, anything else as its
/// compact JSON text.
pub open spec fn value_text(v: JsonValue) -> Seq<char> {
    match v {
        JsonValue::String(s) => s@,
        _ => compact_json(v),
    }
}

/// The text shown for a value (see `value_text`).
pub fn value_to_string(v: &JsonValue) -> (s: String)
    ensures
        s@ == value_text(*v),
{
    match v {
        JsonValue::String(s) => s.clone(),
        _ => to_compact_json(v),
    }
}

/// `default`.
pub open spec fn default_key() -> Seq<char> {
    seq!['d', 'e', 'f', 'a', 'u', 'l', 't']
}

/// The value of the first of `entries` whose key is `key`, if any.
pub open spec fn lookup(entries: Seq<(String, JsonValue)>, key: Seq<char>) -> Option<JsonValue>
    decreases entries.len(),
{
    if entries.len() == 0 {
        None
    } else if entries[0].0@ == key {
        Some(entries[0].1)
    } else {
        lookup(entries.drop_first(), key)
    }
}

/// The text of a parameter's value: where the parameter is an object with a
/// `default` entry, the text of that entry, else the text of the value.
pub open spec fn default_text(v: JsonValue) -> Seq<char> {
    match v {
        JsonValue::Object(entries) => match lookup(entries@, default_key()) {
            Some(d) => value_text(d),
            None => value_text(v),
        },
        _ => value_text(v),
    }
}

/// The index of the first of `entries` whose key is `key`, if any.
fn find_entry(entries: &Vec<(String, JsonValue)>, key: &[char]) -> (i: Option<usize>)
    ensures
        match i {
            Some(i) => i < entries@.len() && lookup(entries@, key@) == Some(entries@[i as int].1),
            None => lookup(entries@, key@) is None,
        },
        match i {
            Some(i) => entries@[i as int].0@ == key@ && forall|j: int|
                0 <= j < i ==> (#[trigger] entries@[j]).0@ != key@,
            None => forall|j: int| 0 <= j < entries@.len() ==> (#[trigger] entries@[j]).0@ != key@,
        },
{
    proof {
        if let Some(_) = lookup(entries@, key@) {
        }
    }
    let mut i: usize = 0;
    assert(entries@.skip(0) == entries@);
    while i < entries.len()
        invariant
            i <= entries@.len(),
            lookup(entries@.skip(i as int), key@) == lookup(entries@, key@),
            forall|j: int| 0 <= j < i ==> (#[trigger] entries@[j]).0@ != key@,
        decreases entries@.len() - i,
    {
        let k = chars_of(entries[i].0.as_str());
        assert(entries@.skip(i as int).drop_first() == entries@.skip(i + 1));
        if chars_equal(k.as_slice(), key) {
            return Some(i);
        }
        i = i + 1;
    }
    None
}

/// The text of a parameter's value (see `default_text`).
pub fn extract_default_value(v: &JsonValue) -> (s: String)
    ensures
        s@ == default_text(*v),
{
    if let JsonValue::Object(entries) = v {
        let key = vec!['d', 'e', 'f', 'a', 'u', 'l', 't'];
        assert(key@ == default_key());
        if let Some(i) = find_entry(entries, key.as_slice()) {
            return value_to_string(&entries[i].1);
        }
    }
    value_to_string(v)
}

/// How deeply arrays and objects nest in a value: 0 for a scalar, one more
/// than the deepest item or entry for an array or object.
pub open spec fn depth(v: JsonValue) -> nat
    decreases v,
{
    match v {
        JsonValue::Array(items) => 1 + depth_items(items@),
        JsonValue::Object(entries) => 1 + depth_entries(entries@),
        _ => 0,
    }
}

/// The deepest nesting among `items` (0 for none).
pub open spec fn depth_items(items: Seq<JsonValue>) -> nat
    decreases items,
{
    if items.len() == 0 {
        0
    } else {
        let d = depth(items[items.len() - 1]);
        let rest = depth_items(items.drop_last());
        if d < rest {
            rest
        } else {
            d
        }
    }
}

/// The deepest nesting among the values of `entries` (0 for none).
pub open spec fn depth_entries(entries: Seq<(String, JsonValue)>) -> nat
    decreases entries,
{
    if entries.len() == 0 {
        0
    } else {
        let d = depth(entries[entries.len() - 1].1);
        let rest = depth_entries(entries.drop_last());
        if d < rest {
            rest
        } else {
            d
        }
    }
}

/// Every item nests no deeper than the deepest.
pub proof fn lemma_depth_items(items: Seq<JsonValue>, i: int)
    requires
        0 <= i < items.len(),
    ensures
        depth(items[i]) <= depth_items(items),
    decreases items.len(),
{
    if i < items.len() - 1 {
        lemma_depth_items(items.drop_last(), i);
    }
}

/// Every entry's value nests no deeper than the deepest.
pub proof fn lemma_depth_entries(entries: Seq<(String, JsonValue)>, i: int)
    requires
        0 <= i < entries.len(),
    ensures
        depth(entries[i].1) <= depth_entries(entries),
    decreases entries.len(),
{
    if i < entries.len() - 1 {
        lemma_depth_entries(entries.drop_last(), i);
    }
}

/// How deeply arrays and objects nest in `v` (see `depth`), or the largest
/// `usize` where the depth does not fit.
pub fn nesting_depth(v: &JsonValue) -> (d: usize)
    ensures
        d == (if depth(*v) <= usize::MAX {
            depth(*v) as usize
        } else {
            usize::MAX
        }),
    decreases v,
{
    match v {
        JsonValue::Array(items) => {
            let mut deepest: usize = 0;
            for i in 0..items.len()
                invariant
                    *v == JsonValue::Array(*items),
                    deepest == (if depth_items(items@.take(i as int)) <= usize::MAX {
                        depth_items(items@.take(i as int)) as usize
                    } else {
                        usize::MAX
                    }),
            {
                proof {
                    assert(decreases_to!(*v => (*v)->Array_0));
                    assert(decreases_to!(*items => items@));
                    assert(decreases_to!(items@ => items@[i as int]));
                    assert(items@.take(i + 1).drop_last() == items@.take(i as int));
                    assert(items@.take(i + 1)[i as int] == items@[i as int]);
                }
                let d = nesting_depth(&items[i]);
                if d > deepest {
                    deepest = d;
                }
            }
            assert(items@.take(items@.len() as int) == items@);
            deepest.saturating_add(1)
        },
        JsonValue::Object(entries) => {
            let mut deepest: usize = 0;
            for i in 0..entries.len()
                invariant
                    *v == JsonValue::Object(*entries),
                    deepest == (if depth_entries(entries@.take(i as int)) <= usize::MAX {
                        depth_entries(entries@.take(i as int)) as usize
                    } else {
                        usize::MAX
                    }),
            {
                proof {
                    assert(decreases_to!(*v => (*v)->Object_0));
                    assert(decreases_to!(*entries => entries@));
                    assert(decreases_to!(entries@ => entries@[i as int]));
                    assert(decreases_to!(entries@[i as int] => entries@[i as int].1));
                    assert(entries@.take(i + 1).drop_last() == entries@.take(i as int));
                    assert(entries@.take(i + 1)[i as int] == entries@[i as int]);
                }
                let d = nesting_depth(&entries[i].1);
                if d > deepest {
                    deepest = d;
                }
            }
            assert(entries@.take(entries@.len() as int) == entries@);
            deepest.saturating_add(1)
        },
        _ => 0,
    }
}

/// A string is shown as it is; a number as its JSON text; `null`, `true`
/// and `false` as those words.
pub proof fn scalar_texts(v: JsonValue)
    ensures
        v matches JsonValue::String(s) ==> value_text(v) == s@,
        v matches JsonValue::Number(n) ==> value_text(v) == n@,
        v is Null ==> value_text(v) == null_text(),
        v matches JsonValue::Bool(b) ==> value_text(v) == bool_text(b),
{
}

/// An object without a `default` entry, and anything that is not an
/// object, shows its own text as a parameter default.
pub proof fn default_falls_back_to_value(v: JsonValue)
    ensures
        !(v is Object) ==> default_text(v) == value_text(v),
        v matches JsonValue::Object(entries) ==> (lookup(entries@, default_key()) is None
            ==> default_text(v) == compact_json(v)),
{
}

/// The lookup finds the first entry with the key, wherever it stands, and
/// finds nothing only where no entry has the key.
pub proof fn lookup_finds_first(entries: Seq<(String, JsonValue)>, key: Seq<char>, i: int)
    requires
        0 <= i < entries.len(),
        entries[i].0@ == key,
        forall|j: int| 0 <= j < i ==> (#[trigger] entries[j]).0@ != key,
    ensures
        lookup(entries, key) == Some(entries[i].1),
    decreases i,
{
    if i > 0 {
        lookup_finds_first(entries.drop_first(), key, i - 1);
        assert forall|j: int| 0 <= j < i - 1 implies (#[trigger] entries.drop_first()[j]).0@ != key by {
            assert(entries.drop_first()[j] == entries[j + 1]);
        }
    }
}

/// Where no entry has the key, the lookup finds nothing.
pub proof fn lookup_finds_nothing(entries: Seq<(String, JsonValue)>, key: Seq<char>)
    requires
        forall|j: int| 0 <= j < entries.len() ==> (#[trigger] entries[j]).0@ != key,
    ensures
        lookup(entries, key) is None,
    decreases entries.len(),
{
    if entries.len() > 0 {
        assert forall|j: int| 0 <= j < entries.len() - 1 implies (#[trigger] entries.drop_first()[j]).0@ != key by {
            assert(entries.drop_first()[j] == entries[j + 1]);
        }
        lookup_finds_nothing(entries.drop_first(), key);
    }
}

/// A parameter described by an object takes the text of the value of its
/// first `default` entry, wherever that entry stands among the others; an
/// object without one is shown whole.
pub proof fn default_is_found_anywhere(entries: Vec<(String, JsonValue)>, i: int)
    requires
        0 <= i < entries@.len(),
        entries@[i].0@ == default_key(),
        forall|j: int| 0 <= j < i ==> (#[trigger] entries@[j]).0@ != default_key(),
    ensures
        default_text(JsonValue::Object(entries)) == value_text(entries@[i].1),
{
    lookup_finds_first(entries@, default_key(), i);
}

/// An object with no `default` entry is shown whole as a parameter's text.
pub proof fn object_without_default_shown_whole(entries: Vec<(String, JsonValue)>)
    requires
        forall|j: int| 0 <= j < entries@.len() ==> (#[trigger] entries@[j]).0@ != default_key(),
    ensures
        default_text(JsonValue::Object(entries)) == compact_json(JsonValue::Object(entries)),
{
    lookup_finds_nothing(entries@, default_key());
}

} // verus!
