use flowrs_model::event::{
    ConfValue, FlowrsEvent, KeyCode, KeyEvent, KeyEventKind, NavigationContext, WorkerMessage,
};
use flowrs_model::json::{extract_default_value, to_compact_json, value_to_string, JsonValue};
use flowrs_model::trigger::{SelectedButton, TriggerDagRunPopUp, ValueDisplay};

fn key(code: KeyCode) -> FlowrsEvent {
    FlowrsEvent::Key(KeyEvent { code, modifiers: 0, kind: KeyEventKind::Press, state: 0 })
}

fn ctx() -> NavigationContext {
    NavigationContext { dag_id: None, dag_run_id: None, task_id: None, task_try: None }
}

fn s(text: &str) -> JsonValue {
    JsonValue::String(text.to_string())
}

fn object(entries: Vec<(&str, JsonValue)>) -> JsonValue {
    JsonValue::Object(entries.into_iter().map(|(k, v)| (k.to_string(), v)).collect())
}

fn params_of(popup: &TriggerDagRunPopUp) -> Vec<(String, String)> {
    popup.params().clone()
}

fn press(popup: &mut TriggerDagRunPopUp, code: KeyCode) -> (Option<FlowrsEvent>, Vec<WorkerMessage>) {
    popup.update(&key(code), &ctx())
}

#[test]
fn simple_dialog_triggers_on_enter_with_yes() {
    let mut popup = TriggerDagRunPopUp::new("etl".to_string(), None);
    assert!(!popup.has_params());
    assert!(popup.yes_selected());
    let (event, msgs) = press(&mut popup, KeyCode::Enter);
    assert_eq!(event, Some(key(KeyCode::Enter)));
    assert_eq!(msgs.len(), 1);
    match &msgs[0] {
        WorkerMessage::TriggerDagRun { dag_id, conf } => {
            assert_eq!(dag_id, "etl");
            assert!(conf.is_none());
        }
        other => panic!("unexpected message {other:?}"),
    }
}

#[test]
fn simple_dialog_toggles_and_cancels() {
    let mut popup = TriggerDagRunPopUp::new("etl".to_string(), Some(&JsonValue::Null));
    let (event, msgs) = press(&mut popup, KeyCode::Char('l'));
    assert_eq!(event, None);
    assert!(msgs.is_empty());
    assert!(!popup.yes_selected());
    let (event, msgs) = press(&mut popup, KeyCode::Enter);
    assert_eq!(event, Some(key(KeyCode::Enter)));
    assert!(msgs.is_empty());
    let (event, msgs) = press(&mut popup, KeyCode::Esc);
    assert_eq!(event, Some(key(KeyCode::Esc)));
    assert!(msgs.is_empty());
    let (event, _) = press(&mut popup, KeyCode::Char('x'));
    assert_eq!(event, Some(key(KeyCode::Char('x'))));
    let (event, _) = popup.update(&FlowrsEvent::Tick, &ctx());
    assert_eq!(event, Some(FlowrsEvent::Tick));
}

#[test]
fn parameters_take_their_defaults() {
    let raw = object(vec![
        ("date", object(vec![("default", s("2024-01-01")), ("type", s("string"))])),
        ("count", JsonValue::Number("3".to_string())),
        ("flag", object(vec![("default", JsonValue::Bool(true))])),
        ("nothing", JsonValue::Null),
        ("list", object(vec![("default", JsonValue::Array(vec![s("a\"b"), JsonValue::Number("1".to_string())]))])),
        ("nested", object(vec![("type", s("object"))])),
    ]);
    let popup = TriggerDagRunPopUp::new("etl".to_string(), Some(&raw));
    assert!(popup.has_params());
    let params = params_of(&popup);
    let expected: Vec<(String, String)> = vec![
        ("date".to_string(), "2024-01-01".to_string()),
        ("count".to_string(), "3".to_string()),
        ("flag".to_string(), "true".to_string()),
        ("nothing".to_string(), "null".to_string()),
        ("list".to_string(), "[\"a\\\"b\",1]".to_string()),
        ("nested".to_string(), "{\"type\":\"object\"}".to_string()),
    ];
    assert_eq!(params, expected);
}

#[test]
fn compact_json_matches_serde_json() {
    let value = object(vec![
        ("a", JsonValue::Array(vec![JsonValue::Null, JsonValue::Bool(false), s("x\ny\u{1}")])),
        ("b", object(vec![])),
        ("c", JsonValue::Array(vec![JsonValue::Number("2.5".to_string())])),
    ]);
    let mut map = serde_json::Map::new();
    map.insert(
        "a".to_string(),
        serde_json::Value::Array(vec![
            serde_json::Value::Null,
            serde_json::Value::Bool(false),
            serde_json::Value::String("x\ny\u{1}".to_string()),
        ]),
    );
    map.insert("b".to_string(), serde_json::Value::Object(serde_json::Map::new()));
    map.insert("c".to_string(), serde_json::Value::Array(vec![serde_json::Value::from(2.5)]));
    let expected = serde_json::to_string(&serde_json::Value::Object(map)).unwrap();
    assert_eq!(to_compact_json(&value), expected);
}

#[test]
fn value_texts() {
    assert_eq!(value_to_string(&s("plain \"text\"")), "plain \"text\"");
    assert_eq!(value_to_string(&JsonValue::Null), "null");
    assert_eq!(value_to_string(&JsonValue::Bool(false)), "false");
    assert_eq!(value_to_string(&JsonValue::Number("-1e3".to_string())), "-1e3");
    assert_eq!(value_to_string(&JsonValue::Array(vec![s("q\"")])), "[\"q\\\"\"]");
    assert_eq!(extract_default_value(&object(vec![("default", s("d"))])), "d");
    assert_eq!(extract_default_value(&object(vec![("other", s("d"))])), "{\"other\":\"d\"}");
    assert_eq!(extract_default_value(&s("v")), "v");
}

fn two_params() -> TriggerDagRunPopUp {
    let raw = object(vec![
        ("count", object(vec![("default", JsonValue::Number("3".to_string()))])),
        ("name", object(vec![("default", s("abc"))])),
    ]);
    TriggerDagRunPopUp::new("etl".to_string(), Some(&raw))
}

#[test]
fn editing_a_parameter() {
    let mut popup = two_params();
    press(&mut popup, KeyCode::Char('j'));
    let (event, msgs) = press(&mut popup, KeyCode::Enter);
    assert_eq!(event, None);
    assert!(msgs.is_empty());
    // The cursor starts at the end of "abc".
    press(&mut popup, KeyCode::Char('d'));
    assert_eq!(params_of(&popup)[1].1, "abcd");
    press(&mut popup, KeyCode::Left);
    press(&mut popup, KeyCode::Left);
    press(&mut popup, KeyCode::Char('é'));
    assert_eq!(params_of(&popup)[1].1, "abécd");
    press(&mut popup, KeyCode::Backspace);
    assert_eq!(params_of(&popup)[1].1, "abcd");
    press(&mut popup, KeyCode::Right);
    press(&mut popup, KeyCode::Right);
    press(&mut popup, KeyCode::Right);
    press(&mut popup, KeyCode::Char('!'));
    assert_eq!(params_of(&popup)[1].1, "abcd!");
    // Keys like `q` are typed while editing, not passed on.
    let (event, _) = press(&mut popup, KeyCode::Char('q'));
    assert_eq!(event, None);
    assert_eq!(params_of(&popup)[1].1, "abcd!q");
    press(&mut popup, KeyCode::Enter);
    let (event, _) = press(&mut popup, KeyCode::Char('q'));
    assert_eq!(event, Some(key(KeyCode::Char('q'))));
}

#[test]
fn backspace_at_start_and_cursor_bounds() {
    let mut popup = two_params();
    press(&mut popup, KeyCode::Enter);
    for _ in 0..3 {
        press(&mut popup, KeyCode::Left);
    }
    press(&mut popup, KeyCode::Backspace);
    assert_eq!(params_of(&popup)[0].1, "3");
    press(&mut popup, KeyCode::Char('1'));
    assert_eq!(params_of(&popup)[0].1, "13");
    press(&mut popup, KeyCode::Esc);
    let (event, _) = press(&mut popup, KeyCode::Esc);
    assert_eq!(event, Some(key(KeyCode::Esc)));
}

#[test]
fn confirming_with_parameters_sends_their_values() {
    let mut popup = two_params();
    press(&mut popup, KeyCode::Tab);
    // `j` does not move the selection while the buttons have the focus.
    press(&mut popup, KeyCode::Char('j'));
    let (event, msgs) = press(&mut popup, KeyCode::Enter);
    assert_eq!(event, Some(key(KeyCode::Enter)));
    assert_eq!(msgs.len(), 1);
    match &msgs[0] {
        WorkerMessage::TriggerDagRun { dag_id, conf } => {
            assert_eq!(dag_id, "etl");
            let conf = conf.as_ref().expect("a configuration");
            assert_eq!(conf.len(), 2);
            assert_eq!(conf[0].0, "count");
            assert!(matches!(&conf[0].1, ConfValue::Json(t) if t == "3"));
            assert_eq!(conf[1].0, "name");
            assert!(matches!(&conf[1].1, ConfValue::Text(t) if t == "abc"));
        }
        other => panic!("unexpected message {other:?}"),
    }
}

#[test]
fn declining_with_parameters_sends_nothing() {
    let mut popup = two_params();
    press(&mut popup, KeyCode::BackTab);
    press(&mut popup, KeyCode::Right);
    let (event, msgs) = press(&mut popup, KeyCode::Enter);
    assert_eq!(event, Some(key(KeyCode::Enter)));
    assert!(msgs.is_empty());
    // Tab gives the focus back to the list; Enter then edits.
    press(&mut popup, KeyCode::Tab);
    let (event, _) = press(&mut popup, KeyCode::Enter);
    assert_eq!(event, None);
}

#[test]
fn selection_stays_in_the_list() {
    let mut popup = two_params();
    for _ in 0..5 {
        press(&mut popup, KeyCode::Down);
    }
    let layout = popup.layout_params(10);
    assert!(layout.rows[1].active);
    assert!(!layout.rows[0].active);
    for _ in 0..5 {
        press(&mut popup, KeyCode::Char('k'));
    }
    let layout = popup.layout_params(10);
    assert!(layout.rows[0].active);
    let (event, msgs) = press(&mut popup, KeyCode::Char('x'));
    assert_eq!(event, None);
    assert!(msgs.is_empty());
}

#[test]
fn layout_pads_and_cuts_names() {
    let raw = object(vec![("a", s("1")), ("a_rather_long_parameter_name", s("2")), ("ab", s("3"))]);
    let mut popup = TriggerDagRunPopUp::new("etl".to_string(), Some(&raw));
    assert!(popup.can_layout_params(5));
    let layout = popup.layout_params(5);
    assert_eq!(layout.rows.len(), 3);
    assert_eq!(layout.rows[0].key, format!("{:20}", "a"));
    assert_eq!(layout.rows[1].key, "a_rather_long_param…");
    assert_eq!(layout.rows[2].key, format!("{:20}", "ab"));
    assert!(matches!(&layout.rows[1].value, ValueDisplay::Plain(t) if t == "2"));
    assert!(!layout.yes_highlighted);
    assert!(!layout.no_highlighted);
}

#[test]
fn layout_scrolls_the_selection_into_view() {
    let raw = object(vec![("p0", s("a")), ("p1", s("b")), ("p2", s("c")), ("p3", s("d"))]);
    let mut popup = TriggerDagRunPopUp::new("etl".to_string(), Some(&raw));
    for _ in 0..3 {
        press(&mut popup, KeyCode::Char('j'));
    }
    let layout = popup.layout_params(2);
    assert_eq!(layout.rows.len(), 2);
    assert_eq!(layout.rows[0].index, 2);
    assert_eq!(layout.rows[1].index, 3);
    press(&mut popup, KeyCode::Up);
    press(&mut popup, KeyCode::Up);
    let layout = popup.layout_params(2);
    assert_eq!(layout.rows[0].index, 1);
    assert_eq!(layout.rows[1].index, 2);
    press(&mut popup, KeyCode::Tab);
    let layout = popup.layout_params(2);
    assert!(layout.yes_highlighted);
    assert!(!layout.rows[0].active);
}

#[test]
fn layout_splits_the_edited_value_at_the_cursor() {
    let mut popup = two_params();
    press(&mut popup, KeyCode::Down);
    press(&mut popup, KeyCode::Enter);
    let layout = popup.layout_params(4);
    match &layout.rows[1].value {
        ValueDisplay::Editing { before, cursor, rest } => {
            assert_eq!(before, "abc");
            assert_eq!(*cursor, ' ');
            assert_eq!(rest, "");
        }
        other => panic!("unexpected display {other:?}"),
    }
    press(&mut popup, KeyCode::Left);
    press(&mut popup, KeyCode::Left);
    let layout = popup.layout_params(4);
    match &layout.rows[1].value {
        ValueDisplay::Editing { before, cursor, rest } => {
            assert_eq!(before, "a");
            assert_eq!(*cursor, 'b');
            assert_eq!(rest, "c");
        }
        other => panic!("unexpected display {other:?}"),
    }
}

#[test]
fn cutting_a_name_inside_a_character_is_refused() {
    // 21 bytes, cut after 19: the cut falls inside the two-byte 'é'.
    let raw = object(vec![("aaaaaaaaaaaaaaaaaaéb", s("1"))]);
    let popup = TriggerDagRunPopUp::new("etl".to_string(), Some(&raw));
    assert!(!popup.can_layout_params(3));
    let raw = object(vec![("aaaaaaaaaaaaaaaaaaaé", s("1"))]);
    let mut popup = TriggerDagRunPopUp::new("etl".to_string(), Some(&raw));
    assert!(popup.can_layout_params(3));
    let layout = popup.layout_params(3);
    assert_eq!(layout.rows[0].key, "aaaaaaaaaaaaaaaaaaa…");
}

#[test]
fn selected_button_toggles() {
    let mut b = SelectedButton::default();
    assert!(b.is_yes());
    b.toggle();
    assert!(!b.is_yes());
    b.toggle();
    assert_eq!(b, SelectedButton::Yes);
}
