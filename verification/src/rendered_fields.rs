//! The viewer for a task instance's rendered template fields: the fields
//! laid out as styled lines, and scrolling through them.
use vstd::prelude::*;

use crate::event::KeyCode;
use crate::json::{
    value_text, bool_text, depth, nesting_depth, depth_entries, depth_items, lemma_depth_entries, lemma_depth_items, null_text,
    push_literal, JsonValue,
};
use crate::logs::ScrollbarState;
use crate::text::{
    chars_of, push_char, push_chars, push_str, spaces, spaces_string, split_lines, text_lines,
};

verus! {

/// The role of a piece of text, which the caller maps to its colours.
#[derive(Clone, Copy, Debug, PartialEq, Eq, Structural)]
pub enum SpanStyle {
    /// Unstyled text.
    Plain,
    /// The note shown when there are no fields.
    Message,
    /// A field's name.
    FieldName,
    /// The rule under a field's name.
    Separator,
    /// A key inside an object.
    NestedKey,
    /// An opening or closing bracket or brace.
    Bracket,
    Str,
    Number,
    Bool,
    /// `null`, and the empty `[]` and `{}`.
    Null,
}

/// A piece of text in one style.
#[derive(Debug)]
pub struct StyledSpan {
    pub text: String,
    pub style: SpanStyle,
}

/// A line of styled text.
#[derive(Debug)]
pub struct StyledLine {
    pub spans: Vec<StyledSpan>,
}

/// A line as (text, style) pieces.
pub open spec fn line_view(line: StyledLine) -> Seq<(Seq<char>, SpanStyle)> {
    line.spans@.map_values(|s: StyledSpan| (s.text@, s.style))
}

/// Lines as (text, style) pieces.
pub open spec fn lines_view(lines: Seq<StyledLine>) -> Seq<Seq<(Seq<char>, SpanStyle)>> {
    lines.map_values(|l: StyledLine| line_view(l))
}

/// A line of one piece.
pub open spec fn single(text: Seq<char>, style: SpanStyle) -> Seq<(Seq<char>, SpanStyle)> {
    seq![(text, style)]
}

/// Whether a value fits on its key's line: anything but an array or object.
pub open spec fn is_simple(v: JsonValue) -> bool {
    !(v is Array) && !(v is Object)
}

/// A simple value as one piece: its text in its type's style.
pub open spec fn simple_piece(v: JsonValue) -> (Seq<char>, SpanStyle) {
    match v {
        JsonValue::Null => (null_text(), SpanStyle::Null),
        JsonValue::Bool(b) => (bool_text(b), SpanStyle::Bool),
        JsonValue::Number(n) => (n@, SpanStyle::Number),
        JsonValue::String(s) => (s@, SpanStyle::Str),
        _ => (seq![], SpanStyle::Plain),
    }
}

/// The rows of a string value: its lines where it has a line feed, else the
/// string itself.
pub open spec fn string_rows(s: Seq<char>) -> Seq<Seq<char>> {
    if s.contains('\n') {
        text_lines(s)
    } else {
        seq![s]
    }
}

/// The lines of `rows`, each indented by `indent` spaces, in string style.
pub open spec fn string_lines(rows: Seq<Seq<char>>, indent: nat) -> Seq<
    Seq<(Seq<char>, SpanStyle)>,
> {
    rows.map_values(|r: Seq<char>| single(spaces(indent) + r, SpanStyle::Str))
}

/// The lines that show a value indented by `indent` spaces: a simple value
/// on one line (a string with line feeds on one line per line); an array
/// as `[`, its items two spaces further in, and `]`; an object as `{`, one
/// line `key: value` per simple entry or a line `key:` and the value four
/// spaces further in, and `}`; an empty array or object as `[]` or `{}`.
pub open spec fn value_lines(v: JsonValue, indent: nat) -> Seq<Seq<(Seq<char>, SpanStyle)>>
    decreases v,
{
    let pad = spaces(indent);
    match v {
        JsonValue::String(s) => string_lines(string_rows(s@), indent),
        JsonValue::Array(items) => if items@.len() == 0 {
            seq![single(pad + seq!['[', ']'], SpanStyle::Null)]
        } else {
            seq![single(pad + seq!['['], SpanStyle::Bracket)] + items_lines(items@, indent + 2)
                + seq![single(pad + seq![']'], SpanStyle::Bracket)]
        },
        JsonValue::Object(entries) => if entries@.len() == 0 {
            seq![single(pad + seq!['{', '}'], SpanStyle::Null)]
        } else {
            seq![single(pad + seq!['{'], SpanStyle::Bracket)] + entries_lines(entries@, indent)
                + seq![single(pad + seq!['}'], SpanStyle::Bracket)]
        },
        _ => seq![single(pad + simple_piece(v).0, simple_piece(v).1)],
    }
}

/// The lines of array items, each indented by `indent`.
pub open spec fn items_lines(items: Seq<JsonValue>, indent: nat) -> Seq<
    Seq<(Seq<char>, SpanStyle)>,
>
    decreases items,
{
    if items.len() == 0 {
        seq![]
    } else {
        items_lines(items.drop_last(), indent) + value_lines(items[items.len() - 1], indent)
    }
}

/// The lines of an object's entries inside braces indented by `indent`.
pub open spec fn entries_lines(entries: Seq<(String, JsonValue)>, indent: nat) -> Seq<
    Seq<(Seq<char>, SpanStyle)>,
>
    decreases entries,
{
    if entries.len() == 0 {
        seq![]
    } else {
        let e = entries[entries.len() - 1];
        let lead = spaces(indent + 2) + e.0@;
        entries_lines(entries.drop_last(), indent) + if is_simple(e.1) {
            seq![seq![(lead + seq![':', ' '], SpanStyle::NestedKey), simple_piece(e.1)]]
        } else {
            seq![single(lead + seq![':'], SpanStyle::NestedKey)] + value_lines(e.1, indent + 4)
        }
    }
}

proof fn lemma_lines_push(lines: Seq<StyledLine>, line: StyledLine)
    ensures
        lines_view(lines.push(line)) == lines_view(lines) + seq![line_view(line)],
{
    assert(lines_view(lines.push(line)) =~= lines_view(lines) + seq![line_view(line)]);
}

/// Appends a line.
fn push_line(lines: &mut Vec<StyledLine>, line: StyledLine)
    ensures
        lines_view(final(lines)@) == lines_view(old(lines)@) + seq![line_view(line)],
{
    proof {
        lemma_lines_push(lines@, line);
    }
    lines.push(line);
}

/// A line of one piece.
fn single_line(text: String, style: SpanStyle) -> (l: StyledLine)
    ensures
        line_view(l) == single(text@, style),
{
    let mut spans = Vec::new();
    spans.push(StyledSpan { text, style });
    let l = StyledLine { spans };
    assert(line_view(l) =~= single(text@, style));
    l
}

/// `n` spaces followed by `t`.
fn indented(n: usize, t: &str) -> (s: String)
    ensures
        s@ == spaces(n as nat) + t@,
{
    let mut s = spaces_string(n);
    push_str(&mut s, t);
    s
}

/// Whether a text holds a line feed.
fn has_line_feed(chars: &[char]) -> (b: bool)
    ensures
        b == chars@.contains('\n'),
{
    for i in 0..chars.len()
        invariant
            forall|k: int| 0 <= k < i ==> chars@[k] != '\n',
    {
        if chars[i] == '\n' {
            assert(chars@[i as int] == '\n');
            return true;
        }
    }
    false
}

/// A simple value as one piece (see `simple_piece`).
fn simple_span(v: &JsonValue) -> (span: StyledSpan)
    ensures
        (span.text@, span.style) == simple_piece(*v),
        is_simple(*v) ==> span.text@ == value_text(*v),
{
    let mut text = String::new();
    let style = match v {
        JsonValue::Null => {
            push_literal(&mut text, 0);
            SpanStyle::Null
        },
        JsonValue::Bool(b) => {
            push_literal(
                &mut text,
                if *b {
                    1
                } else {
                    2
                },
            );
            SpanStyle::Bool
        },
        JsonValue::Number(n) => {
            push_str(&mut text, n.as_str());
            SpanStyle::Number
        },
        JsonValue::String(s) => {
            push_str(&mut text, s.as_str());
            SpanStyle::Str
        },
        _ => SpanStyle::Plain,
    };
    assert(text@ =~= simple_piece(*v).0);
    StyledSpan { text, style }
}

/// Appends the lines of a string value indented by `indent` (see
/// `string_lines`).
fn push_string_lines(s: &String, lines: &mut Vec<StyledLine>, indent: usize)
    ensures
        lines_view(final(lines)@) == lines_view(old(lines)@) + string_lines(
            string_rows(s@),
            indent as nat,
        ),
{
    let chars = chars_of(s.as_str());
    if has_line_feed(chars.as_slice()) {
        let rows = split_lines(chars.as_slice());
        let ghost start = lines_view(lines@);
        let ghost all = text_lines(s@);
        for i in 0..rows.len()
            invariant
                all == text_lines(s@),
                rows@.len() == all.len(),
                forall|k: int| 0 <= k < rows@.len() ==> #[trigger] rows@[k]@ == all[k],
                lines_view(lines@) == start + string_lines(all.take(i as int), indent as nat),
        {
            let mut text = spaces_string(indent);
            push_chars(&mut text, rows[i].as_slice());
            push_line(lines, single_line(text, SpanStyle::Str));
            assert(string_lines(all.take(i + 1), indent as nat) =~= string_lines(
                all.take(i as int),
                indent as nat,
            ) + seq![single(spaces(indent as nat) + all[i as int], SpanStyle::Str)]);
        }
        assert(all.take(rows@.len() as int) == all);
    } else {
        let text = indented(indent, s.as_str());
        push_line(lines, single_line(text, SpanStyle::Str));
        assert(string_lines(seq![s@], indent as nat) =~= seq![
            single(spaces(indent as nat) + s@, SpanStyle::Str),
        ]);
    }
}

/// Appends the lines that show `v` indented by `indent` (see
/// `value_lines`).
fn render_value(v: &JsonValue, lines: &mut Vec<StyledLine>, indent: usize)
    requires
        indent + 4 * depth(*v) <= usize::MAX,
    ensures
        lines_view(final(lines)@) == lines_view(old(lines)@) + value_lines(*v, indent as nat),
    decreases v,
{
    let ghost start = lines_view(lines@);
    match v {
        JsonValue::String(s) => {
            push_string_lines(s, lines, indent);
            assert(lines_view(lines@) =~~= start + value_lines(*v, indent as nat));
        },
        JsonValue::Array(items) => {
            if items.len() == 0 {
                let mut text = spaces_string(indent);
                push_char(&mut text, '[');
                push_char(&mut text, ']');
                push_line(lines, single_line(text, SpanStyle::Null));
                assert(lines_view(lines@) =~~= start + value_lines(*v, indent as nat));
                return ;
            }
            let mut open = spaces_string(indent);
            push_char(&mut open, '[');
            push_line(lines, single_line(open, SpanStyle::Bracket));
            assert(items@.take(0) =~~= Seq::<JsonValue>::empty());
            assert(lines_view(lines@) =~~= start + seq![
                single(spaces(indent as nat) + seq!['['], SpanStyle::Bracket),
            ] + items_lines(items@.take(0), (indent + 2) as nat));
            for i in 0..items.len()
                invariant
                    *v == JsonValue::Array(*items),
                    indent + 4 * depth(*v) <= usize::MAX,
                    lines_view(lines@) == start + seq![
                        single(spaces(indent as nat) + seq!['['], SpanStyle::Bracket),
                    ] + items_lines(items@.take(i as int), (indent + 2) as nat),
            {
                proof {
                    lemma_depth_items(items@, i as int);
                    assert(decreases_to!(*v => (*v)->Array_0));
                    assert(decreases_to!(*items => items@));
                    assert(decreases_to!(items@ => items@[i as int]));
                }
                let ghost before = lines_view(lines@);
                render_value(&items[i], lines, indent + 2);
                assert(items@.take(i + 1).drop_last() == items@.take(i as int));
                assert(lines_view(lines@) =~~= start + seq![
                    single(spaces(indent as nat) + seq!['['], SpanStyle::Bracket),
                ] + items_lines(items@.take(i + 1), (indent + 2) as nat));
            }
            assert(items@.take(items@.len() as int) == items@);
            let mut close = spaces_string(indent);
            push_char(&mut close, ']');
            push_line(lines, single_line(close, SpanStyle::Bracket));
            assert(lines_view(lines@) =~~= start + value_lines(*v, indent as nat));
        },
        JsonValue::Object(entries) => {
            if entries.len() == 0 {
                let mut text = spaces_string(indent);
                push_char(&mut text, '{');
                push_char(&mut text, '}');
                push_line(lines, single_line(text, SpanStyle::Null));
                assert(lines_view(lines@) =~~= start + value_lines(*v, indent as nat));
                return ;
            }
            let mut open = spaces_string(indent);
            push_char(&mut open, '{');
            push_line(lines, single_line(open, SpanStyle::Bracket));
            assert(entries@.take(0) =~~= Seq::<(String, JsonValue)>::empty());
            assert(lines_view(lines@) =~~= start + seq![
                single(spaces(indent as nat) + seq!['{'], SpanStyle::Bracket),
            ] + entries_lines(entries@.take(0), indent as nat));
            for i in 0..entries.len()
                invariant
                    *v == JsonValue::Object(*entries),
                    indent + 4 * depth(*v) <= usize::MAX,
                    lines_view(lines@) == start + seq![
                        single(spaces(indent as nat) + seq!['{'], SpanStyle::Bracket),
                    ] + entries_lines(entries@.take(i as int), indent as nat),
            {
                proof {
                    lemma_depth_entries(entries@, i as int);
                }
                let ghost before = lines_view(lines@);
                let value = &entries[i].1;
                let mut lead = spaces_string(indent + 2);
                push_str(&mut lead, entries[i].0.as_str());
                push_char(&mut lead, ':');
                if !matches!(value, JsonValue::Array(_) | JsonValue::Object(_)) {
                    push_char(&mut lead, ' ');
                    let mut spans = Vec::new();
                    spans.push(StyledSpan { text: lead, style: SpanStyle::NestedKey });
                    spans.push(simple_span(value));
                    let line = StyledLine { spans };
                    assert(line_view(line) =~~= seq![
                        (spaces((indent + 2) as nat) + entries@[i as int].0@ + seq![':', ' '], SpanStyle::NestedKey),
                        simple_piece(entries@[i as int].1),
                    ]);
                    push_line(lines, line);
                } else {
                    push_line(lines, single_line(lead, SpanStyle::NestedKey));
                    proof {
                        assert(decreases_to!(*v => (*v)->Object_0));
                        assert(decreases_to!(*entries => entries@));
                        assert(decreases_to!(entries@ => entries@[i as int]));
                        assert(decreases_to!(entries@[i as int] => entries@[i as int].1));
                    }
                    render_value(value, lines, indent + 4);
                }
                assert(entries@.take(i + 1).drop_last() == entries@.take(i as int));
                assert(entries@.take(i + 1)[i as int] == entries@[i as int]);
                assert(lines_view(lines@) =~~= start + seq![
                    single(spaces(indent as nat) + seq!['{'], SpanStyle::Bracket),
                ] + entries_lines(entries@.take(i + 1), indent as nat));
            }
            assert(entries@.take(entries@.len() as int) == entries@);
            let mut close = spaces_string(indent);
            push_char(&mut close, '}');
            push_line(lines, single_line(close, SpanStyle::Bracket));
            assert(lines_view(lines@) =~~= start + value_lines(*v, indent as nat));
        },
        _ => {
            let span = simple_span(v);
            let text = indented(indent, span.text.as_str());
            push_line(lines, single_line(text, span.style));
            assert(lines_view(lines@) =~~= start + value_lines(*v, indent as nat));
        },
    }
}

/// The rule under a field's name: a `─` for each byte of the name's UTF-8
/// encoding, and two more.
pub open spec fn rule(name: Seq<char>) -> Seq<char> {
    Seq::new((vstd::utf8::encode_utf8(name).len() + 2) as nat, |_i: int| '─')
}

/// The lines of the fields of the rendered-fields object: for each field a
/// blank line (but before the first), its name indented by two, a rule, and
/// its value indented by four.
pub open spec fn field_entries_lines(entries: Seq<(String, JsonValue)>) -> Seq<
    Seq<(Seq<char>, SpanStyle)>,
>
    decreases entries.len(),
{
    if entries.len() == 0 {
        seq![]
    } else {
        let e = entries[entries.len() - 1];
        field_entries_lines(entries.drop_last()) + (if entries.len() > 1 {
            seq![single(seq![], SpanStyle::Plain)]
        } else {
            seq![]
        }) + seq![
            single(spaces(2) + e.0@, SpanStyle::FieldName),
            single(spaces(2) + rule(e.0@), SpanStyle::Separator),
        ] + value_lines(e.1, 4)
    }
}

/// The note shown in place of fields that are not an object.
pub open spec fn no_fields_note() -> Seq<char> {
    "No rendered fields available"@
}

/// The lines that show the rendered fields: the fields of an object (see
/// `field_entries_lines`), or a note for anything else.
pub open spec fn field_lines(fields: JsonValue) -> Seq<Seq<(Seq<char>, SpanStyle)>> {
    match fields {
        JsonValue::Object(entries) => field_entries_lines(entries@),
        _ => seq![single(no_fields_note(), SpanStyle::Message)],
    }
}

/// Whether fields can be laid out without overflowing a `usize`: each field
/// name's rule length, and each value's deepest indentation.
pub open spec fn entries_fit(entries: Seq<(String, JsonValue)>) -> bool {
    forall|i: int|
        #![trigger entries[i]]
        0 <= i < entries.len() ==> vstd::utf8::encode_utf8(entries[i].0@).len() + 2 <= usize::MAX
            && 4 + 4 * depth(entries[i].1) <= usize::MAX
}

/// Whether the rendered fields can be laid out without overflowing a
/// `usize` (see `entries_fit`).
pub open spec fn fields_fit(fields: JsonValue) -> bool {
    match fields {
        JsonValue::Object(entries) => entries_fit(entries@),
        _ => true,
    }
}

/// Whether the rendered fields can be laid out (see `fields_fit`).
pub fn fields_can_be_laid_out(fields: &JsonValue) -> (ok: bool)
    ensures
        ok == fields_fit(*fields),
{
    match fields {
        JsonValue::Object(entries) => {
            for i in 0..entries.len()
                invariant
                    *fields == JsonValue::Object(*entries),
                    forall|k: int|
                        #![trigger entries@[k]]
                        0 <= k < i ==> vstd::utf8::encode_utf8(entries@[k].0@).len() + 2
                            <= usize::MAX && 4 + 4 * depth(entries@[k].1) <= usize::MAX,
            {
                let ghost e = entries@[i as int];
                let n = entries[i].0.as_str().as_bytes().len();
                let d = nesting_depth(&entries[i].1);
                assert(n == vstd::utf8::encode_utf8(e.0@).len());
                if n > usize::MAX - 2 || d > (usize::MAX - 4) / 4 {
                    assert(!(vstd::utf8::encode_utf8(e.0@).len() + 2 <= usize::MAX && 4 + 4 * depth(
                        e.1,
                    ) <= usize::MAX));
                    assert(!entries_fit(entries@));
                    return false;
                }
            }
            true
        },
        _ => true,
    }
}

/// The rule under a field's name (see `rule`).
fn rule_string(name: &str) -> (s: String)
    requires
        vstd::utf8::encode_utf8(name@).len() + 2 <= usize::MAX,
    ensures
        s@ == rule(name@),
{
    let n = name.len() + 2;
    let mut s = String::new();
    for i in 0..n
        invariant
            s@ == Seq::new(i as nat, |_i: int| '─'),
    {
        push_char(&mut s, '─');
        assert(s@ =~= Seq::new((i + 1) as nat, |_i: int| '─'));
    }
    s
}

/// Lays out the rendered fields as styled lines (see `field_lines`).
pub fn fields_to_lines(fields: &JsonValue) -> (lines: Vec<StyledLine>)
    requires
        fields_fit(*fields),
    ensures
        lines_view(lines@) == field_lines(*fields),
{
    let mut lines: Vec<StyledLine> = Vec::new();
    match fields {
        JsonValue::Object(entries) => {
            assert(entries@.take(0) =~= Seq::<(String, JsonValue)>::empty());
            assert(lines_view(lines@) =~= field_entries_lines(entries@.take(0)));
            for i in 0..entries.len()
                invariant
                    *fields == JsonValue::Object(*entries),
                    entries_fit(entries@),
                    lines_view(lines@) == field_entries_lines(entries@.take(i as int)),
            {
                let ghost before = lines_view(lines@);
                let name = &entries[i].0;
                let ghost entry = entries@[i as int];
                assert(vstd::utf8::encode_utf8(entry.0@).len() + 2 <= usize::MAX);
                if i > 0 {
                    push_line(&mut lines, single_line(String::new(), SpanStyle::Plain));
                }
                let ghost after_blank = lines_view(lines@);
                push_line(&mut lines, single_line(indented(2, name.as_str()), SpanStyle::FieldName));
                let rule_text = rule_string(name.as_str());
                push_line(
                    &mut lines,
                    single_line(indented(2, rule_text.as_str()), SpanStyle::Separator),
                );
                render_value(&entries[i].1, &mut lines, 4);
                assert(entries@.take(i + 1).drop_last() == entries@.take(i as int));
                assert(entries@.take(i + 1)[i as int] == entries@[i as int]);
                assert(lines_view(lines@) =~~= field_entries_lines(entries@.take(i + 1)));
            }
            assert(entries@.take(entries@.len() as int) == entries@);
        },
        _ => {
            let mut note = String::new();
            push_str(&mut note, "No rendered fields available");
            push_line(&mut lines, single_line(note, SpanStyle::Message));
            assert(lines_view(lines@) =~~= field_lines(*fields));
        },
    }
    lines
}

/// The viewer of a task instance's rendered fields: the laid-out lines,
/// the offset of the first line on screen, the scrollbar, and the keys
/// held for a two-key command (`gg`).
pub struct RenderedFieldsView {
    pub lines: Vec<StyledLine>,
    pub vertical_scroll: usize,
    pub vertical_scroll_state: ScrollbarState,
    pub event_buffer: Vec<KeyCode>,
}

/// Whether a key closes the viewer: Esc, `q`, `r` or Enter.
pub open spec fn closes_view(code: KeyCode) -> bool {
    code == KeyCode::Esc || code == KeyCode::Char('q') || code == KeyCode::Char('r') || code
        == KeyCode::Enter
}

impl RenderedFieldsView {
    /// Whether the keys held end in a `g`.
    pub open spec fn g_pending(self) -> bool {
        self.event_buffer@.len() > 0 && self.event_buffer@.last() == KeyCode::Char('g')
    }

    /// The offset a key scrolls to, if it scrolls: one line down (`j`,
    /// Down) or up (`k`, Up), to the last line (`G`), or to the top (`g`
    /// after a `g`).
    pub open spec fn scroll_target(self, code: KeyCode) -> Option<usize> {
        match code {
            KeyCode::Down | KeyCode::Char('j') => Some(self.vertical_scroll.saturating_add(1)),
            KeyCode::Up | KeyCode::Char('k') => Some(self.vertical_scroll.saturating_sub(1)),
            KeyCode::Char('G') => Some((self.lines@.len() as usize).saturating_sub(1)),
            KeyCode::Char('g') => if self.g_pending() {
                Some(0usize)
            } else {
                None
            },
            _ => None,
        }
    }

    /// The keys held after a key: a `g` takes the held `g` that completes
    /// `gg`, or else replaces the last key held (if any) with itself; other
    /// keys leave them.
    pub open spec fn buffer_after(self, code: KeyCode) -> Seq<KeyCode> {
        let b = self.event_buffer@;
        if code == KeyCode::Char('g') {
            if self.g_pending() {
                b.drop_last()
            } else if b.len() > 0 {
                b.drop_last().push(code)
            } else {
                b.push(code)
            }
        } else {
            b
        }
    }

    /// The viewer for the rendered fields of a task instance, at the top,
    /// with no keys held.
    pub fn new(rendered_fields: &JsonValue) -> (v: Self)
        requires
            fields_fit(*rendered_fields),
        ensures
            lines_view(v.lines@) == field_lines(*rendered_fields),
            v.vertical_scroll == 0,
            v.vertical_scroll_state == (ScrollbarState {
                content_length: v.lines@.len() as usize,
                position: 0,
            }),
            v.event_buffer@.len() == 0,
    {
        let lines = fields_to_lines(rendered_fields);
        let content_length = lines.len();
        RenderedFieldsView {
            lines,
            vertical_scroll: 0,
            vertical_scroll_state: ScrollbarState::default().content_length(content_length),
            event_buffer: Vec::new(),
        }
    }

    /// Handle a key event. Returns `true` if the view should be closed.
    pub fn update(&mut self, key_code: KeyCode) -> (close: bool)
        ensures
            close == closes_view(key_code),
            final(self).lines == old(self).lines,
            close ==> final(self).vertical_scroll == old(self).vertical_scroll
                && final(self).vertical_scroll_state == old(self).vertical_scroll_state
                && final(self).event_buffer@ == old(self).event_buffer@,
            !close ==> final(self).event_buffer@ == old(self).buffer_after(key_code),
            !close ==> match old(self).scroll_target(key_code) {
                Some(p) => final(self).vertical_scroll == p && final(self).vertical_scroll_state
                    == old(self).vertical_scroll_state.at_position(p),
                None => final(self).vertical_scroll == old(self).vertical_scroll
                    && final(self).vertical_scroll_state == old(self).vertical_scroll_state,
            },
    {
        match key_code {
            KeyCode::Esc | KeyCode::Char('q') | KeyCode::Char('r') | KeyCode::Enter => {
                return true;
            },
            KeyCode::Down | KeyCode::Char('j') => {
                self.vertical_scroll = self.vertical_scroll.saturating_add(1);
                self.vertical_scroll_state = self.vertical_scroll_state.position(
                    self.vertical_scroll,
                );
            },
            KeyCode::Up | KeyCode::Char('k') => {
                self.vertical_scroll = self.vertical_scroll.saturating_sub(1);
                self.vertical_scroll_state = self.vertical_scroll_state.position(
                    self.vertical_scroll,
                );
            },
            KeyCode::Char('G') => {
                self.vertical_scroll = self.lines.len().saturating_sub(1);
                self.vertical_scroll_state = self.vertical_scroll_state.position(
                    self.vertical_scroll,
                );
            },
            KeyCode::Char('g') => {
                if let Some(KeyCode::Char('g')) = self.event_buffer.pop() {
                    self.vertical_scroll = 0;
                    self.vertical_scroll_state = self.vertical_scroll_state.position(0);
                } else {
                    self.event_buffer.push(key_code);
                }
            },
            _ => {},
        }
        false
    }
}

/// A line down and then a line up give back the offset (short of the
/// largest offset, where the line down saturates).
pub proof fn down_then_up_returns(v: RenderedFieldsView, w: RenderedFieldsView)
    requires
        v.vertical_scroll < usize::MAX,
        w.vertical_scroll == v.scroll_target(KeyCode::Down)->0,
    ensures
        w.scroll_target(KeyCode::Up) == Some(v.vertical_scroll),
{
}

/// A `g` that does not scroll leaves a `g` held, so that the next `g` goes
/// to the top.
pub proof fn second_g_goes_to_top(v: RenderedFieldsView, w: RenderedFieldsView)
    requires
        v.scroll_target(KeyCode::Char('g')) is None,
        w.event_buffer@ == v.buffer_after(KeyCode::Char('g')),
    ensures
        w.scroll_target(KeyCode::Char('g')) == Some(0usize),
{
}

/// `G` goes to the last line (to the first where there are none).
pub proof fn capital_g_goes_to_last_line(v: RenderedFieldsView)
    requires
        v.lines@.len() <= usize::MAX,
    ensures
        v.lines@.len() > 0 ==> v.scroll_target(KeyCode::Char('G')) == Some(
            (v.lines@.len() - 1) as usize,
        ),
        v.lines@.len() == 0 ==> v.scroll_target(KeyCode::Char('G')) == Some(0usize),
{
}

/// A value's lines: a scalar takes one line, a string as many as its rows,
/// and an array or object one line more than its contents at each end (one
/// line in all where it is empty).
pub proof fn value_line_counts(v: JsonValue, indent: nat)
    ensures
        !(v is String) && is_simple(v) ==> value_lines(v, indent).len() == 1,
        v matches JsonValue::String(s) ==> value_lines(v, indent).len() == string_rows(s@).len(),
        v matches JsonValue::Array(items) ==> value_lines(v, indent).len() == if items@.len()
            == 0 {
            1
        } else {
            items_lines(items@, indent + 2).len() + 2
        },
        v matches JsonValue::Object(entries) ==> value_lines(v, indent).len() == if entries@.len()
            == 0 {
            1
        } else {
            entries_lines(entries@, indent).len() + 2
        },
{
}

/// Every field takes at least its name line and its rule.
pub proof fn field_line_count(entries: Seq<(String, JsonValue)>)
    ensures
        field_entries_lines(entries).len() >= 2 * entries.len(),
    decreases entries.len(),
{
    if entries.len() > 0 {
        field_line_count(entries.drop_last());
    }
}

/// A simple value is shown as its own text (a string as it is, anything
/// else as its JSON text: `false` as "false"), in the style of its type.
pub proof fn simple_values_show_their_text(v: JsonValue, indent: nat)
    requires
        is_simple(v),
        !(v is String),
    ensures
        simple_piece(v).0 == value_text(v),
        value_lines(v, indent) == seq![single(spaces(indent) + value_text(v), simple_piece(v).1)],
        v matches JsonValue::Bool(b) ==> simple_piece(v) == (bool_text(b), SpanStyle::Bool),
{
}

/// A true and a false value are shown differently.
pub proof fn booleans_differ(indent: nat)
    ensures
        value_lines(JsonValue::Bool(true), indent) != value_lines(JsonValue::Bool(false), indent),
{
    simple_values_show_their_text(JsonValue::Bool(true), indent);
    simple_values_show_their_text(JsonValue::Bool(false), indent);
    let t = value_lines(JsonValue::Bool(true), indent);
    let f = value_lines(JsonValue::Bool(false), indent);
    assert(t[0][0].0[indent as int] == 't');
    assert(f[0][0].0[indent as int] == 'f');
}

} // verus!
