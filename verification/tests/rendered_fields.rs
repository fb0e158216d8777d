use flowrs_model::event::KeyCode;
use flowrs_model::json::JsonValue;
use flowrs_model::logs::ScrollbarState;
use flowrs_model::rendered_fields::{
    fields_can_be_laid_out, fields_to_lines, RenderedFieldsView, SpanStyle, StyledLine,
};

fn s(text: &str) -> JsonValue {
    JsonValue::String(text.to_string())
}

fn object(entries: Vec<(&str, JsonValue)>) -> JsonValue {
    JsonValue::Object(entries.into_iter().map(|(k, v)| (k.to_string(), v)).collect())
}

fn texts(lines: &[StyledLine]) -> Vec<String> {
    lines.iter().map(|l| l.spans.iter().map(|s| s.text.as_str()).collect::<String>()).collect()
}

#[test]
fn non_object_fields_show_a_note() {
    let lines = fields_to_lines(&JsonValue::Null);
    assert_eq!(texts(&lines), vec!["No rendered fields available".to_string()]);
    assert_eq!(lines[0].spans[0].style, SpanStyle::Message);
}

#[test]
fn fields_are_laid_out_with_names_rules_and_values() {
    let fields = object(vec![
        ("sql", s("SELECT 1\nFROM t")),
        ("retries", JsonValue::Number("3".to_string())),
        ("env", object(vec![("A", s("x")), ("list", JsonValue::Array(vec![JsonValue::Bool(true)]))])),
        ("none", JsonValue::Array(vec![])),
        ("empty", object(vec![])),
        ("nil", JsonValue::Null),
    ]);
    let lines = fields_to_lines(&fields);
    let expected: Vec<&str> = vec![
        "  sql",
        "  ─────",
        "    SELECT 1",
        "    FROM t",
        "",
        "  retries",
        "  ─────────",
        "    3",
        "",
        "  env",
        "  ─────",
        "    {",
        "      A: x",
        "      list:",
        "        [",
        "          true",
        "        ]",
        "    }",
        "",
        "  none",
        "  ──────",
        "    []",
        "",
        "  empty",
        "  ───────",
        "    {}",
        "",
        "  nil",
        "  ─────",
        "    null",
    ];
    assert_eq!(texts(&lines), expected);
    assert_eq!(lines[0].spans[0].style, SpanStyle::FieldName);
    assert_eq!(lines[1].spans[0].style, SpanStyle::Separator);
    assert_eq!(lines[2].spans[0].style, SpanStyle::Str);
    assert_eq!(lines[7].spans[0].style, SpanStyle::Number);
    assert_eq!(lines[11].spans[0].style, SpanStyle::Bracket);
    assert_eq!(lines[12].spans.len(), 2);
    assert_eq!(lines[12].spans[0].style, SpanStyle::NestedKey);
    assert_eq!(lines[12].spans[1].style, SpanStyle::Str);
    assert_eq!(lines[15].spans[0].style, SpanStyle::Bool);
    assert_eq!(lines[21].spans[0].style, SpanStyle::Null);
    assert_eq!(lines[29].spans[0].style, SpanStyle::Null);
}

#[test]
fn rule_counts_bytes_of_the_name() {
    // "é" takes two bytes, so its rule is four long.
    let lines = fields_to_lines(&object(vec![("é", JsonValue::Null)]));
    assert_eq!(texts(&lines)[1], "  ────");
}

#[test]
fn strings_split_into_rows_like_str_lines() {
    let lines = fields_to_lines(&object(vec![("k", s("a\r\nb\n"))]));
    assert_eq!(texts(&lines), vec!["  k", "  ───", "    a", "    b"]);
    let lines = fields_to_lines(&object(vec![("k", s(""))]));
    assert_eq!(texts(&lines), vec!["  k", "  ───", "    "]);
}

#[test]
fn fields_fit_check() {
    assert!(fields_can_be_laid_out(&object(vec![("k", JsonValue::Array(vec![]))])));
    assert!(fields_can_be_laid_out(&s("x")));
}

fn viewer() -> RenderedFieldsView {
    RenderedFieldsView::new(&object(vec![("a", s("1")), ("b", s("2"))]))
}

#[test]
fn new_view_starts_at_the_top() {
    let view = viewer();
    assert_eq!(view.lines.len(), 7);
    assert_eq!(view.vertical_scroll, 0);
    assert_eq!(view.vertical_scroll_state, ScrollbarState { content_length: 7, position: 0 });
    assert!(view.event_buffer.is_empty());
}

#[test]
fn close_keys() {
    for code in [KeyCode::Esc, KeyCode::Char('q'), KeyCode::Char('r'), KeyCode::Enter] {
        let mut view = viewer();
        assert!(view.update(code));
        assert_eq!(view.vertical_scroll, 0);
    }
    let mut view = viewer();
    assert!(!view.update(KeyCode::Char('x')));
}

#[test]
fn scrolling_keys() {
    let mut view = viewer();
    assert!(!view.update(KeyCode::Char('j')));
    assert!(!view.update(KeyCode::Down));
    assert_eq!(view.vertical_scroll, 2);
    assert_eq!(view.vertical_scroll_state.position, 2);
    view.update(KeyCode::Char('k'));
    assert_eq!(view.vertical_scroll, 1);
    view.update(KeyCode::Up);
    view.update(KeyCode::Up);
    assert_eq!(view.vertical_scroll, 0);
    view.update(KeyCode::Char('G'));
    assert_eq!(view.vertical_scroll, 6);
    assert_eq!(view.vertical_scroll_state, ScrollbarState { content_length: 7, position: 6 });
    view.update(KeyCode::Char('g'));
    assert_eq!(view.vertical_scroll, 6);
    // Other keys between the two presses do not drop the held `g`.
    view.update(KeyCode::Char('j'));
    view.update(KeyCode::Char('g'));
    assert_eq!(view.vertical_scroll, 0);
    assert!(view.event_buffer.is_empty());
}
