use flowrs_model::event::{
    FlowrsEvent, KeyCode, KeyEvent, KeyEventKind, NavigationContext, OpenItem, WorkerMessage,
};
use flowrs_model::logs::{
    bottom_scroll_position, checked_wrapped_line_count, wrapped_line_count, ErrorPopup, Log,
    LogModel, ScrollMode, ScrollbarState,
};

fn key(code: KeyCode) -> FlowrsEvent {
    FlowrsEvent::Key(KeyEvent { code, modifiers: 0, kind: KeyEventKind::Press, state: 0 })
}

fn no_context() -> NavigationContext {
    NavigationContext { dag_id: None, dag_run_id: None, task_id: None, task_try: None }
}

fn task_context() -> NavigationContext {
    NavigationContext {
        dag_id: Some("etl".to_string()),
        dag_run_id: Some("run_1".to_string()),
        task_id: Some("load".to_string()),
        task_try: Some(2),
    }
}

fn log(content: &str) -> Log {
    Log { content: content.to_string() }
}

fn assert_manual_position(scroll_mode: &ScrollMode, expected: usize) {
    match scroll_mode {
        ScrollMode::Manual { position } => assert_eq!(*position, expected),
        ScrollMode::Following => panic!("expected manual scroll position {expected}"),
    }
}

#[test]
fn follow_mode_uses_bottom_visible_offset() {
    assert_eq!(ScrollMode::Following.position(100, 20), 80);
    assert_eq!(ScrollMode::Following.position(10, 20), 0);
}

#[test]
fn manual_mode_is_clamped_to_bottom_offset() {
    assert_eq!(ScrollMode::Manual { position: 12 }.position(100, 20), 12);
    assert_eq!(ScrollMode::Manual { position: 90 }.position(100, 20), 80);
}

#[test]
fn bottom_scroll_offset_saturates_when_content_fits() {
    assert_eq!(bottom_scroll_position(5, 20), 0);
    assert_eq!(bottom_scroll_position(20, 20), 0);
    assert_eq!(bottom_scroll_position(21, 20), 1);
}

#[test]
fn wrapped_line_count_counts_visual_rows() {
    assert_eq!(wrapped_line_count("12345\n1234567890\n12345678901", 10), 4);
    assert_eq!(wrapped_line_count("", 10), 0);
    assert_eq!(wrapped_line_count("abc", 0), 1);
}

#[test]
fn fast_scroll_uses_viewport_relative_amounts() {
    let mut model = LogModel::default();
    model.last_scroll_position = 50;
    model.last_bottom_scroll_position = 100;
    model.last_viewport_height = 20;

    model.scroll_up(model.half_page_height());
    assert_manual_position(&model.scroll_mode, 40);

    model.last_scroll_position = 50;
    model.scroll_down(model.half_page_height());
    assert_manual_position(&model.scroll_mode, 60);

    model.last_scroll_position = 50;
    model.scroll_up(model.last_viewport_height);
    assert_manual_position(&model.scroll_mode, 30);

    model.last_scroll_position = 50;
    model.scroll_down(model.last_viewport_height);
    assert_manual_position(&model.scroll_mode, 70);
}

#[test]
fn fast_scroll_down_resumes_follow_at_bottom() {
    let mut model = LogModel::default();
    model.last_scroll_position = 95;
    model.last_bottom_scroll_position = 100;
    model.last_viewport_height = 20;

    model.scroll_down(model.half_page_height());

    assert!(model.scroll_mode.is_following());
}

#[test]
fn wrapped_line_count_uses_display_width_of_wide_characters() {
    // Each full-width letter takes two columns: six columns wrap to two rows
    // of four, where three characters alone would fit on one.
    assert_eq!(wrapped_line_count("ＡＢＣ", 4), 2);
    assert_eq!(wrapped_line_count("ＡＢＣ\nabc", 4), 3);
}

#[test]
fn wrapped_line_count_follows_str_lines() {
    assert_eq!(wrapped_line_count("ab\r\ncd\n", 1), 4);
    assert_eq!(wrapped_line_count("\n\n", 5), 2);
    assert_eq!(wrapped_line_count("a\rb", 0), 1);
    assert_eq!(wrapped_line_count("x\n\ny", 0), 3);
}

#[test]
fn checked_wrapped_line_count_matches_when_it_fits() {
    assert_eq!(checked_wrapped_line_count("12345\n1234567890\n12345678901", 10), Some(4));
    assert_eq!(checked_wrapped_line_count("", 3), Some(0));
}

#[test]
fn scroll_position_laws_on_values() {
    // Following always shows the bottom; a manual offset never passes it.
    for content in [0usize, 5, 20, 21, 100] {
        let bottom = bottom_scroll_position(content, 20);
        assert_eq!(ScrollMode::Following.position(content, 20), bottom);
        assert!(ScrollMode::Manual { position: 1000 }.position(content, 20) <= bottom);
        assert!(bottom + 20 >= content);
    }
}

#[test]
fn new_model_starts_following_with_no_logs() {
    let model = LogModel::new(3);
    assert!(model.all.is_empty());
    assert_eq!(model.current, 0);
    assert!(model.scroll_mode.is_following());
    assert_eq!(model.poll_tick_multiplier, 3);
    assert_eq!(model.last_viewport_height, 1);
    assert_eq!(model.selected_tab(), None);
}

#[test]
fn ticks_poll_for_logs_every_multiplier_ticks() {
    let mut model = LogModel::new(3);
    let ctx = task_context();
    for _ in 0..2 {
        let (event, msgs) = model.update(&FlowrsEvent::Tick, &ctx);
        assert_eq!(event, Some(FlowrsEvent::Tick));
        assert!(msgs.is_empty());
    }
    let (event, msgs) = model.update(&FlowrsEvent::Tick, &ctx);
    assert_eq!(event, Some(FlowrsEvent::Tick));
    assert_eq!(msgs.len(), 1);
    match &msgs[0] {
        WorkerMessage::UpdateTaskLogs { dag_id, dag_run_id, task_id, task_try } => {
            assert_eq!(dag_id, "etl");
            assert_eq!(dag_run_id, "run_1");
            assert_eq!(task_id, "load");
            assert_eq!(*task_try, 2);
        }
        other => panic!("unexpected message {other:?}"),
    }
    assert_eq!(model.ticks, 3);
}

#[test]
fn ticks_without_a_task_ask_for_nothing() {
    let mut model = LogModel::new(1);
    let (event, msgs) = model.update(&FlowrsEvent::Tick, &no_context());
    assert_eq!(event, Some(FlowrsEvent::Tick));
    assert!(msgs.is_empty());
}

#[test]
fn gg_goes_to_top_and_needs_consecutive_presses() {
    let mut model = LogModel::default();
    let ctx = no_context();
    model.update(&key(KeyCode::Char('g')), &ctx);
    assert!(model.pending_g);
    assert!(model.scroll_mode.is_following());
    model.update(&key(KeyCode::Char('g')), &ctx);
    assert_manual_position(&model.scroll_mode, 0);
    assert!(!model.pending_g);

    let mut model = LogModel::default();
    model.update(&key(KeyCode::Char('g')), &ctx);
    model.update(&key(KeyCode::Char('j')), &ctx);
    assert!(!model.pending_g);
    model.update(&key(KeyCode::Char('g')), &ctx);
    assert!(model.pending_g);
    assert!(model.scroll_mode.is_following());
}

#[test]
fn follow_key_toggles_following() {
    let mut model = LogModel::default();
    model.last_scroll_position = 42;
    let ctx = no_context();
    model.update(&key(KeyCode::Char('F')), &ctx);
    assert_manual_position(&model.scroll_mode, 42);
    model.update(&key(KeyCode::Char('F')), &ctx);
    assert!(model.scroll_mode.is_following());
    model.update(&key(KeyCode::Up), &ctx);
    assert_manual_position(&model.scroll_mode, 41);
    model.update(&key(KeyCode::Char('G')), &ctx);
    assert!(model.scroll_mode.is_following());
}

#[test]
fn scroll_keys_move_from_last_rendered_offset() {
    let mut model = LogModel::default();
    model.last_scroll_position = 10;
    model.last_bottom_scroll_position = 30;
    model.last_viewport_height = 8;
    let ctx = no_context();
    model.update(&key(KeyCode::Char('k')), &ctx);
    assert_manual_position(&model.scroll_mode, 9);
    model.update(&key(KeyCode::Char('u')), &ctx);
    assert_manual_position(&model.scroll_mode, 6);
    model.update(&key(KeyCode::Char('b')), &ctx);
    assert_manual_position(&model.scroll_mode, 2);
    model.update(&key(KeyCode::Char('d')), &ctx);
    assert_manual_position(&model.scroll_mode, 14);
    model.update(&key(KeyCode::Char('f')), &ctx);
    assert_manual_position(&model.scroll_mode, 18);
    model.update(&key(KeyCode::Down), &ctx);
    assert_manual_position(&model.scroll_mode, 11);
    model.last_scroll_position = 0;
    model.update(&key(KeyCode::Up), &ctx);
    assert_manual_position(&model.scroll_mode, 0);
}

#[test]
fn switching_tries_stays_within_the_logs() {
    let mut model = LogModel::default();
    model.update_logs(vec![log("a"), log("b")]);
    let ctx = no_context();
    model.update(&key(KeyCode::Char('l')), &ctx);
    assert_eq!(model.current, 1);
    model.update(&key(KeyCode::Right), &ctx);
    assert_eq!(model.current, 1);
    let (event, _) = model.update(&key(KeyCode::Char('h')), &ctx);
    assert_eq!(model.current, 0);
    assert_eq!(event, None);
    // At the first try, going left hands the key back to the parent.
    let (event, msgs) = model.update(&key(KeyCode::Left), &ctx);
    assert_eq!(event, Some(key(KeyCode::Left)));
    assert!(msgs.is_empty());
    assert_eq!(model.current, 0);
}

#[test]
fn unknown_keys_are_passed_on() {
    let mut model = LogModel::default();
    let (event, msgs) = model.update(&key(KeyCode::Char('z')), &no_context());
    assert_eq!(event, Some(key(KeyCode::Char('z'))));
    assert!(msgs.is_empty());
    let (event, _) = model.update(&FlowrsEvent::Mouse, &no_context());
    assert_eq!(event, None);
}

#[test]
fn open_key_asks_to_open_the_selected_try() {
    let mut model = LogModel::default();
    model.update_logs(vec![log("a"), log("b"), log("c")]);
    model.current = 1;
    let (event, msgs) = model.update(&key(KeyCode::Char('o')), &task_context());
    assert_eq!(event, Some(key(KeyCode::Char('o'))));
    assert_eq!(msgs.len(), 1);
    match &msgs[0] {
        WorkerMessage::OpenItem(OpenItem::Log { dag_id, dag_run_id, task_id, task_try }) => {
            assert_eq!(dag_id, "etl");
            assert_eq!(dag_run_id, "run_1");
            assert_eq!(task_id, "load");
            assert_eq!(*task_try, 2);
        }
        other => panic!("unexpected message {other:?}"),
    }
    let (event, msgs) = model.update(&key(KeyCode::Char('o')), &no_context());
    assert_eq!(event, None);
    assert!(msgs.is_empty());
}

#[test]
fn accepts_event_tells_where_update_is_defined() {
    let mut model = LogModel::default();
    assert!(!model.accepts_event(&key(KeyCode::Char('o')), &task_context()));
    assert!(model.accepts_event(&key(KeyCode::Char('j')), &task_context()));
    model.update_logs(vec![log("a")]);
    assert!(model.accepts_event(&key(KeyCode::Char('o')), &task_context()));
    model.ticks = u32::MAX;
    assert!(!model.accepts_event(&FlowrsEvent::Tick, &no_context()));
}

#[test]
fn error_popup_takes_every_key_until_closed() {
    let mut model = LogModel::default();
    model.error_popup = Some(ErrorPopup { errors: vec!["boom".to_string()] });
    let ctx = no_context();
    let (event, msgs) = model.update(&key(KeyCode::Char('j')), &ctx);
    assert_eq!(event, None);
    assert!(msgs.is_empty());
    assert!(model.error_popup.is_some());
    assert!(model.scroll_mode.is_following());
    model.update(&key(KeyCode::Esc), &ctx);
    assert!(model.error_popup.is_none());

    model.error_popup = Some(ErrorPopup { errors: vec![] });
    model.update(&key(KeyCode::Char('q')), &ctx);
    assert!(model.error_popup.is_none());
}

#[test]
fn reset_scroll_follows_again() {
    let mut model = LogModel::default();
    model.scroll_mode = ScrollMode::Manual { position: 7 };
    model.reset_scroll();
    assert!(model.scroll_mode.is_following());
}

#[test]
fn prepare_render_records_the_layout() {
    let mut model = LogModel::default();
    assert_eq!(model.prepare_render(80, 22), None);

    let content: Vec<String> = (0..100).map(|i| format!("line {i}")).collect();
    model.update_logs(vec![log(&content.join("\n"))]);
    // A box of 22 rows shows 20 rows inside its borders.
    assert_eq!(model.prepare_render(80, 22), Some(80));
    assert_eq!(model.last_viewport_height, 20);
    assert_eq!(model.last_bottom_scroll_position, 80);
    assert_eq!(model.last_scroll_position, 80);
    assert_eq!(model.vertical_scroll_state, ScrollbarState { content_length: 100, position: 80 });

    model.scroll_mode = ScrollMode::Manual { position: 5 };
    assert_eq!(model.prepare_render(80, 22), Some(5));
    assert_eq!(model.last_scroll_position, 5);

    // A box too small for its borders: viewport 0, remembered as 1.
    assert_eq!(model.prepare_render(80, 1), Some(5));
    assert_eq!(model.last_viewport_height, 1);
    assert_eq!(model.last_bottom_scroll_position, 100);
}

#[test]
fn prepare_render_wraps_long_lines() {
    let mut model = LogModel::default();
    model.update_logs(vec![log("0123456789012345678901234")]);
    // 10 columns inside the borders: 25 characters take 3 rows.
    assert_eq!(model.prepare_render(12, 4), Some(1));
    assert_eq!(model.vertical_scroll_state, ScrollbarState { content_length: 3, position: 1 });
    assert_eq!(model.selected_tab(), Some(0));
}
