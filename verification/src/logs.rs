//! The log viewer: scrolling through a task's logs, switching between the
//! logs of its tries, and following new content.
use vstd::prelude::*;

use crate::event::{FlowrsEvent, KeyCode, KeyEvent, NavigationContext, OpenItem, WorkerMessage};
use crate::text::{chars_of, display_width, split_lines, text_display_width, text_lines};

verus! {

/// The scroll offset that shows the last `viewport_height` rows of
/// `content_height` rows: the content height less the viewport, or 0 when
/// the content fits.
pub open spec fn bottom_offset(content_height: usize, viewport_height: usize) -> usize {
    content_height.saturating_sub(viewport_height)
}

/// The scroll offset at which the last row of the content is at the bottom
/// of the viewport (0 when everything fits).
pub fn bottom_scroll_position(content_height: usize, viewport_height: usize) -> (p: usize)
    ensures
        p == bottom_offset(content_height, viewport_height),
        p + viewport_height >= content_height,
        p == 0 || p + viewport_height == content_height,
{
    content_height.saturating_sub(viewport_height)
}

/// Represents the log viewer's scroll behavior.
///
/// There is no state in which the view follows new content but is scrolled
/// anywhere but the bottom.
#[derive(Clone, Copy, Debug, PartialEq, Eq, Structural)]
pub enum ScrollMode {
    /// Automatically scroll to the bottom when new content arrives (tail
    /// mode). The offset is computed from the content length at render time.
    Following,
    /// The user scrolls by hand and the view stays at a fixed offset.
    Manual { position: usize },
}

impl Default for ScrollMode {
    fn default() -> (m: Self)
        ensures
            m == ScrollMode::Following,
    {
        ScrollMode::Following
    }
}

impl ScrollMode {
    /// The offset shown for this mode, for content and viewport heights.
    pub open spec fn offset(self, content_height: usize, viewport_height: usize) -> usize {
        let bottom = bottom_offset(content_height, viewport_height);
        match self {
            ScrollMode::Following => bottom,
            ScrollMode::Manual { position } => if position < bottom {
                position
            } else {
                bottom
            },
        }
    }

    /// Returns the concrete scroll position for the rendered content height:
    /// the bottom when following, else the chosen offset, clamped to the bottom.
    pub fn position(&self, content_height: usize, viewport_height: usize) -> (p: usize)
        ensures
            p == self.offset(content_height, viewport_height),
            p <= bottom_offset(content_height, viewport_height),
    {
        let bottom = bottom_scroll_position(content_height, viewport_height);
        match self {
            ScrollMode::Following => bottom,
            ScrollMode::Manual { position } => if *position < bottom {
                *position
            } else {
                bottom
            },
        }
    }

    /// Whether the view follows new content.
    pub fn is_following(&self) -> (b: bool)
        ensures
            b == (*self is Following),
    {
        match self {
            ScrollMode::Following => true,
            ScrollMode::Manual { .. } => false,
        }
    }
}

/// The number of terminal rows one line of display width `width` takes when
/// wrapped at `line_width` columns; every line takes at least one row, and
/// with no width to wrap at each line takes one.
pub open spec fn line_rows(width: usize, line_width: usize) -> nat {
    if line_width == 0 {
        1
    } else {
        (width.saturating_sub(1) / line_width + 1) as nat
    }
}

/// The rows that `lines` take, wrapped at `line_width` columns.
pub open spec fn rows_of_lines(lines: Seq<Seq<char>>, line_width: usize) -> nat
    decreases lines.len(),
{
    if lines.len() == 0 {
        0
    } else {
        rows_of_lines(lines.drop_last(), line_width) + line_rows(
            display_width(lines.last()),
            line_width,
        )
    }
}

/// The number of terminal rows that `content` takes, each of its lines
/// wrapped at `line_width` columns.
pub open spec fn wrapped_rows(content: Seq<char>, line_width: usize) -> nat {
    rows_of_lines(text_lines(content), line_width)
}

/// Each line takes at least a row, so the rows of a prefix of the lines are
/// at most those of all of them.
proof fn lemma_rows_prefix(lines: Seq<Seq<char>>, line_width: usize, k: int)
    requires
        0 <= k <= lines.len(),
    ensures
        rows_of_lines(lines.take(k), line_width) <= rows_of_lines(lines, line_width),
        rows_of_lines(lines.take(k), line_width) >= k,
    decreases lines.len(),
{
    if lines.len() == 0 {
        assert(lines.take(k) == lines);
    } else if k == lines.len() {
        assert(lines.take(k) == lines);
        lemma_rows_prefix(lines.drop_last(), line_width, k - 1);
        assert(lines.drop_last().take(k - 1) == lines.drop_last());
    } else {
        lemma_rows_prefix(lines.drop_last(), line_width, k);
        assert(lines.drop_last().take(k) == lines.take(k));
    }
}

/// The rows of the first `k + 1` lines: those of the first `k`, and the
/// `k`th line's.
proof fn lemma_rows_step(lines: Seq<Seq<char>>, line_width: usize, k: int)
    requires
        0 <= k < lines.len(),
    ensures
        rows_of_lines(lines.take(k + 1), line_width) == rows_of_lines(lines.take(k), line_width)
            + line_rows(display_width(lines[k]), line_width),
{
    assert(lines.take(k + 1).drop_last() == lines.take(k));
}

/// The rows of one line of display width `width` wrapped at `line_width`.
fn rows_for_width(width: usize, line_width: usize) -> (r: usize)
    ensures
        r == line_rows(width, line_width),
{
    if line_width == 0 {
        1
    } else {
        width.saturating_sub(1) / line_width + 1
    }
}

/// The number of terminal rows that `content` takes when each of its lines
/// is wrapped at `line_width` columns (with no width, one row per line).
pub fn wrapped_line_count(content: &str, line_width: usize) -> (n: usize)
    requires
        wrapped_rows(content@, line_width) <= usize::MAX,
    ensures
        n == wrapped_rows(content@, line_width),
{
    let chars = chars_of(content);
    let lines = split_lines(chars.as_slice());
    let ghost all = text_lines(content@);
    let mut total: usize = 0;
    for i in 0..lines.len()
        invariant
            lines@.len() == all.len(),
            forall|k: int| 0 <= k < lines@.len() ==> #[trigger] lines@[k]@ == all[k],
            rows_of_lines(all, line_width) <= usize::MAX,
            total == rows_of_lines(all.take(i as int), line_width),
    {
        let width = text_display_width(lines[i].as_slice());
        let rows = rows_for_width(width, line_width);
        proof {
            lemma_rows_step(all, line_width, i as int);
            lemma_rows_prefix(all, line_width, i + 1);
        }
        total = total + rows;
    }
    assert(all.take(lines@.len() as int) == all);
    total
}

/// The wrapped row count of `content` (see `wrapped_line_count`), or `None`
/// where that count does not fit in a `usize`.
pub fn checked_wrapped_line_count(content: &str, line_width: usize) -> (n: Option<usize>)
    ensures
        n == (if wrapped_rows(content@, line_width) <= usize::MAX {
            Some(wrapped_rows(content@, line_width) as usize)
        } else {
            None::<usize>
        }),
{
    let chars = chars_of(content);
    let lines = split_lines(chars.as_slice());
    let ghost all = text_lines(content@);
    let mut total: usize = 0;
    for i in 0..lines.len()
        invariant
            all == text_lines(content@),
            lines@.len() == all.len(),
            forall|k: int| 0 <= k < lines@.len() ==> #[trigger] lines@[k]@ == all[k],
            total == rows_of_lines(all.take(i as int), line_width),
    {
        let width = text_display_width(lines[i].as_slice());
        let rows = rows_for_width(width, line_width);
        proof {
            lemma_rows_step(all, line_width, i as int);
        }
        match total.checked_add(rows) {
            Some(t) => {
                total = t;
            },
            None => {
                proof {
                    lemma_rows_prefix(all, line_width, i + 1);
                    assert(total + rows > usize::MAX);
                    assert(rows_of_lines(all.take(i + 1), line_width) > usize::MAX);
                    assert(wrapped_rows(content@, line_width) > usize::MAX);
                }
                return None;
            },
        }
    }
    assert(all.take(lines@.len() as int) == all);
    Some(wrapped_line_count(content, line_width))
}

/// A task's log: the text of one try.
#[derive(Clone, Debug)]
pub struct Log {
    pub content: String,
}

/// An error message box shown over the view; while it is open it takes all
/// keys.
#[derive(Clone, Debug)]
pub struct ErrorPopup {
    pub errors: Vec<String>,
}

/// The state of a vertical scrollbar: the length of the scrollable content
/// and the current offset within it.
#[derive(Clone, Copy, Debug, PartialEq, Eq, Structural)]
pub struct ScrollbarState {
    pub content_length: usize,
    pub position: usize,
}

impl ScrollbarState {
    /// The state with the offset set to `position`.
    pub open spec fn at_position(self, position: usize) -> Self {
        ScrollbarState { position, ..self }
    }

    /// The state with the offset set to `position`.
    pub fn position(self, position: usize) -> (s: Self)
        ensures
            s == self.at_position(position),
    {
        ScrollbarState { position, ..self }
    }

    /// The state with the content length set to `content_length`.
    pub fn content_length(self, content_length: usize) -> (s: Self)
        ensures
            s == (ScrollbarState { content_length, ..self }),
    {
        ScrollbarState { content_length, ..self }
    }
}

impl Default for ScrollbarState {
    fn default() -> (s: Self)
        ensures
            s.content_length == 0,
            s.position == 0,
    {
        ScrollbarState { content_length: 0, position: 0 }
    }
}

/// The log viewer.
///
/// `all` holds the logs of a task's tries and `current` the selected one.
/// The `last_*` fields remember the geometry of the last rendering, which
/// the scroll keys work from.
pub struct LogModel {
    pub all: Vec<Log>,
    pub current: usize,
    pub error_popup: Option<ErrorPopup>,
    pub ticks: u32,
    pub poll_tick_multiplier: u32,
    pub scroll_mode: ScrollMode,
    pub vertical_scroll_state: ScrollbarState,
    pub last_scroll_position: usize,
    pub last_bottom_scroll_position: usize,
    pub last_viewport_height: usize,
    pub pending_g: bool,
}

/// Whether `ticks` is a tick on which the logs are polled: every
/// `multiplier`th tick (with a multiplier of 0, only tick 0).
pub open spec fn poll_due(ticks: u32, multiplier: u32) -> bool {
    if multiplier == 0 {
        ticks == 0
    } else {
        ticks % multiplier == 0
    }
}

impl LogModel {
    /// The offset `amount` rows (at least one) above the last rendered one,
    /// stopping at the top.
    pub open spec fn offset_up(self, amount: usize) -> usize {
        self.last_scroll_position.saturating_sub(if amount < 1 {
            1
        } else {
            amount
        })
    }

    /// The offset `amount` rows (at least one) below the last rendered one,
    /// stopping at the largest `usize`.
    pub open spec fn offset_down(self, amount: usize) -> usize {
        self.last_scroll_position.saturating_add(if amount < 1 {
            1
        } else {
            amount
        })
    }

    /// The scroll mode after scrolling down by `amount` rows: following
    /// where the bottom is reached, else held at the new offset.
    pub open spec fn mode_after_down(self, amount: usize) -> ScrollMode {
        if self.offset_down(amount) >= self.last_bottom_scroll_position {
            ScrollMode::Following
        } else {
            ScrollMode::Manual { position: self.offset_down(amount) }
        }
    }

    /// Half the last viewport height, at least 1.
    pub open spec fn half_page(self) -> usize {
        if self.last_viewport_height / 2 < 1 {
            1
        } else {
            self.last_viewport_height / 2
        }
    }

    /// The model with a new scroll mode and nothing else changed.
    pub open spec fn with_mode(self, mode: ScrollMode) -> Self {
        LogModel { scroll_mode: mode, ..self }
    }

    /// Whether the navigation context names a DAG, a DAG run and a task.
    pub open spec fn names_task(ctx: NavigationContext) -> bool {
        ctx.dag_id is Some && ctx.dag_run_id is Some && ctx.task_id is Some
    }

    /// The message that asks for the logs of the task in `ctx`, where the
    /// context names the task and its try.
    pub open spec fn poll_messages(ctx: NavigationContext) -> Seq<WorkerMessage> {
        if Self::names_task(ctx) && ctx.task_try is Some {
            seq![
                WorkerMessage::UpdateTaskLogs {
                    dag_id: ctx.dag_id->0,
                    dag_run_id: ctx.dag_run_id->0,
                    task_id: ctx.task_id->0,
                    task_try: ctx.task_try->0,
                },
            ]
        } else {
            seq![]
        }
    }

    /// What a tick does: count it, and on every `poll_tick_multiplier`th
    /// tick ask the worker for the task's logs. The tick is passed on.
    pub open spec fn tick_step(self, ctx: NavigationContext) -> (
        Self,
        Option<FlowrsEvent>,
        Seq<WorkerMessage>,
    ) {
        let next = LogModel { ticks: (self.ticks + 1) as u32, ..self };
        (
            next,
            Some(FlowrsEvent::Tick),
            if poll_due(next.ticks, self.poll_tick_multiplier) {
                Self::poll_messages(ctx)
            } else {
                seq![]
            },
        )
    }

    /// What a key does while no error popup is open, `self` being the model
    /// with the pending `g` already cleared for any other key.
    pub open spec fn view_key_step(self, key: KeyEvent, ctx: NavigationContext) -> (
        Self,
        Option<FlowrsEvent>,
        Seq<WorkerMessage>,
    ) {
        let unchanged = (self, None::<FlowrsEvent>, Seq::<WorkerMessage>::empty());
        match key.code {
            KeyCode::Char('l') | KeyCode::Right => {
                let next = if self.all.len() > 0 && self.current < self.all.len() - 1 {
                    LogModel { current: (self.current + 1) as usize, ..self }
                } else {
                    self
                };
                (next, None, seq![])
            },
            KeyCode::Char('h') | KeyCode::Left => {
                if self.all.len() == 0 || self.current == 0 {
                    (self, Some(FlowrsEvent::Key(key)), seq![])
                } else {
                    (LogModel { current: (self.current - 1) as usize, ..self }, None, seq![])
                }
            },
            KeyCode::Down | KeyCode::Char('j') => (
                self.with_mode(self.mode_after_down(1)),
                None,
                seq![],
            ),
            KeyCode::Up | KeyCode::Char('k') => (
                self.with_mode(ScrollMode::Manual { position: self.offset_up(1) }),
                None,
                seq![],
            ),
            KeyCode::Char('u') => (
                self.with_mode(ScrollMode::Manual { position: self.offset_up(self.half_page()) }),
                None,
                seq![],
            ),
            KeyCode::Char('d') => (
                self.with_mode(self.mode_after_down(self.half_page())),
                None,
                seq![],
            ),
            KeyCode::Char('b') => (
                self.with_mode(
                    ScrollMode::Manual { position: self.offset_up(self.last_viewport_height) },
                ),
                None,
                seq![],
            ),
            KeyCode::Char('f') => (
                self.with_mode(self.mode_after_down(self.last_viewport_height)),
                None,
                seq![],
            ),
            KeyCode::Char('o') => {
                if Self::names_task(ctx) {
                    (
                        self,
                        Some(FlowrsEvent::Key(key)),
                        seq![
                            WorkerMessage::OpenItem(
                                OpenItem::Log {
                                    dag_id: ctx.dag_id->0,
                                    dag_run_id: ctx.dag_run_id->0,
                                    task_id: ctx.task_id->0,
                                    task_try: (self.current + 1) as u32,
                                },
                            ),
                        ],
                    )
                } else {
                    unchanged
                }
            },
            KeyCode::Char('G') => (self.with_mode(ScrollMode::Following), None, seq![]),
            KeyCode::Char('F') => (
                self.with_mode(
                    if self.scroll_mode is Following {
                        ScrollMode::Manual { position: self.last_scroll_position }
                    } else {
                        ScrollMode::Following
                    },
                ),
                None,
                seq![],
            ),
            KeyCode::Char('g') => {
                if self.pending_g {
                    (
                        LogModel {
                            scroll_mode: ScrollMode::Manual { position: 0 },
                            pending_g: false,
                            ..self
                        },
                        None,
                        seq![],
                    )
                } else {
                    (LogModel { pending_g: true, ..self }, None, seq![])
                }
            },
            _ => (self, Some(FlowrsEvent::Key(key)), seq![]),
        }
    }

    /// What a key does. An open error popup takes every key and closes on
    /// `q` or Esc. Otherwise any key but `g` drops a pending `g`, and the key
    /// acts on the view (see `view_key_step`).
    pub open spec fn key_step(self, key: KeyEvent, ctx: NavigationContext) -> (
        Self,
        Option<FlowrsEvent>,
        Seq<WorkerMessage>,
    ) {
        if self.error_popup is Some {
            let closes = key.code == KeyCode::Char('q') || key.code == KeyCode::Esc;
            (
                LogModel { error_popup: if closes { None } else { self.error_popup }, ..self },
                None,
                seq![],
            )
        } else {
            let cleared = if key.code == KeyCode::Char('g') {
                self
            } else {
                LogModel { pending_g: false, ..self }
            };
            cleared.view_key_step(key, ctx)
        }
    }

    /// What an event does to the view: the next state, the event handed
    /// back to the caller, and the work for the background worker.
    pub open spec fn step(self, event: FlowrsEvent, ctx: NavigationContext) -> (
        Self,
        Option<FlowrsEvent>,
        Seq<WorkerMessage>,
    ) {
        match event {
            FlowrsEvent::Tick => self.tick_step(ctx),
            FlowrsEvent::Key(key) => self.key_step(key, ctx),
            _ => (self, None, seq![]),
        }
    }

    /// The events on which `update` is defined: a tick needs room in the
    /// tick counter, and `o` (with no error popup open) needs a log to open
    /// and, where the context names the task, a try number `current + 1`.
    pub open spec fn accepts(self, event: FlowrsEvent, ctx: NavigationContext) -> bool {
        match event {
            FlowrsEvent::Tick => self.ticks < u32::MAX,
            FlowrsEvent::Key(key) => (self.error_popup is None && key.code == KeyCode::Char('o'))
                ==> (self.all.len() > 0 && (Self::names_task(ctx) ==> self.current < usize::MAX)),
            _ => true,
        }
    }
}

impl Default for LogModel {
    fn default() -> (m: Self)
        ensures
            m.all@.len() == 0,
            m.current == 0,
            m.error_popup is None,
            m.ticks == 0,
            m.poll_tick_multiplier == 10,
            m.scroll_mode == ScrollMode::Following,
            m.vertical_scroll_state == (ScrollbarState { content_length: 0, position: 0 }),
            m.last_scroll_position == 0,
            m.last_bottom_scroll_position == 0,
            m.last_viewport_height == 1,
            !m.pending_g,
    {
        LogModel {
            all: Vec::new(),
            current: 0,
            error_popup: None,
            ticks: 0,
            poll_tick_multiplier: 10,
            scroll_mode: ScrollMode::default(),
            vertical_scroll_state: ScrollbarState::default(),
            last_scroll_position: 0,
            last_bottom_scroll_position: 0,
            last_viewport_height: 1,
            pending_g: false,
        }
    }
}

impl LogModel {
    /// A log viewer with no logs that polls for them every
    /// `poll_tick_multiplier`th tick.
    pub fn new(poll_tick_multiplier: u32) -> (m: Self)
        ensures
            m.all@.len() == 0,
            m.current == 0,
            m.error_popup is None,
            m.ticks == 0,
            m.poll_tick_multiplier == poll_tick_multiplier,
            m.scroll_mode == ScrollMode::Following,
            m.vertical_scroll_state == (ScrollbarState { content_length: 0, position: 0 }),
            m.last_scroll_position == 0,
            m.last_bottom_scroll_position == 0,
            m.last_viewport_height == 1,
            !m.pending_g,
    {
        let mut m = LogModel::default();
        m.poll_tick_multiplier = poll_tick_multiplier;
        m
    }

    /// Reset scroll to follow mode (used when navigating to a new context).
    pub fn reset_scroll(&mut self)
        ensures
            *final(self) == old(self).with_mode(ScrollMode::Following),
    {
        self.scroll_mode = ScrollMode::Following;
    }

    /// Update the logs content. When in follow mode, the scroll position
    /// will automatically track the bottom at render time.
    pub fn update_logs(&mut self, logs: Vec<Log>)
        ensures
            *final(self) == (LogModel { all: logs, ..*old(self) }),
    {
        self.all = logs;
    }

    /// Scrolls up by `amount` rows (at least one) from the last rendered
    /// offset and holds the view there.
    pub fn scroll_up(&mut self, amount: usize)
        ensures
            *final(self) == old(self).with_mode(
                ScrollMode::Manual { position: old(self).offset_up(amount) },
            ),
    {
        let step = if amount < 1 {
            1
        } else {
            amount
        };
        self.scroll_mode = ScrollMode::Manual {
            position: self.last_scroll_position.saturating_sub(step),
        };
    }

    /// Scrolls down by `amount` rows (at least one) from the last rendered
    /// offset; reaching the bottom resumes following.
    pub fn scroll_down(&mut self, amount: usize)
        ensures
            *final(self) == old(self).with_mode(old(self).mode_after_down(amount)),
    {
        let step = if amount < 1 {
            1
        } else {
            amount
        };
        let new_pos = self.last_scroll_position.saturating_add(step);
        if new_pos >= self.last_bottom_scroll_position {
            self.scroll_mode = ScrollMode::Following;
        } else {
            self.scroll_mode = ScrollMode::Manual { position: new_pos };
        }
    }

    /// Half the last viewport height, at least 1.
    pub fn half_page_height(&self) -> (h: usize)
        ensures
            h == self.half_page(),
            h >= 1,
    {
        let half = self.last_viewport_height / 2;
        if half < 1 {
            1
        } else {
            half
        }
    }

    /// The context's DAG, DAG run and task, where it names all three.
    fn task_of(ctx: &NavigationContext) -> (r: Option<(String, String, String)>)
        ensures
            r is Some <==> Self::names_task(*ctx),
            r matches Some(t) ==> t.0 == ctx.dag_id->0 && t.1 == ctx.dag_run_id->0 && t.2
                == ctx.task_id->0,
    {
        match (&ctx.dag_id, &ctx.dag_run_id, &ctx.task_id) {
            (Some(dag_id), Some(dag_run_id), Some(task_id)) => Some(
                (dag_id.clone(), dag_run_id.clone(), task_id.clone()),
            ),
            _ => None,
        }
    }

    /// Whether `update` is defined on `event` (see `accepts`).
    pub fn accepts_event(&self, event: &FlowrsEvent, ctx: &NavigationContext) -> (ok: bool)
        ensures
            ok == self.accepts(*event, *ctx),
    {
        match event {
            FlowrsEvent::Tick => self.ticks < u32::MAX,
            FlowrsEvent::Key(key) => {
                if self.error_popup.is_none() && key.code == KeyCode::Char('o') {
                    self.all.len() > 0 && (Self::task_of(ctx).is_none() || self.current
                        < usize::MAX)
                } else {
                    true
                }
            },
            _ => true,
        }
    }

    /// Handles an event: a tick polls for new logs every
    /// `poll_tick_multiplier`th time; keys switch between tries (`h`/`l`),
    /// scroll (`j`/`k` by a row, `u`/`d` by half a page, `b`/`f` by a page,
    /// `gg` to the top, `G` to follow the bottom, `F` to toggle following)
    /// and open the log in the browser (`o`). Returns the event to pass on
    /// to the parent, if any, and the work for the background worker.
    pub fn update(&mut self, event: &FlowrsEvent, ctx: &NavigationContext) -> (res: (
        Option<FlowrsEvent>,
        Vec<WorkerMessage>,
    ))
        requires
            old(self).accepts(*event, *ctx),
        ensures
            *final(self) == old(self).step(*event, *ctx).0,
            res.0 == old(self).step(*event, *ctx).1,
            res.1@ == old(self).step(*event, *ctx).2,
    {
        match event {
            FlowrsEvent::Tick => {
                self.ticks = self.ticks + 1;
                if !self.ticks.is_multiple_of(self.poll_tick_multiplier) {
                    return (Some(FlowrsEvent::Tick), Vec::new());
                }
                if let Some((dag_id, dag_run_id, task_id)) = Self::task_of(ctx) {
                    if let Some(task_try) = ctx.task_try {
                        let mut msgs = Vec::new();
                        msgs.push(
                            WorkerMessage::UpdateTaskLogs { dag_id, dag_run_id, task_id, task_try },
                        );
                        return (Some(FlowrsEvent::Tick), msgs);
                    }
                }
                return (Some(FlowrsEvent::Tick), Vec::new());
            },
            FlowrsEvent::Key(key) => {
                if self.error_popup.is_some() {
                    match key.code {
                        KeyCode::Char('q') | KeyCode::Esc => {
                            self.error_popup = None;
                        },
                        _ => {},
                    }
                    return (None, Vec::new());
                }
                // Clear a pending 'g' on any other key, so that `gg` takes two
                // presses in a row.

                if key.code != KeyCode::Char('g') {
                    self.pending_g = false;
                }
                match key.code {
                    KeyCode::Char('l') | KeyCode::Right => {
                        if self.all.len() > 0 && self.current < self.all.len() - 1 {
                            self.current = self.current + 1;
                        }
                    },
                    KeyCode::Char('h') | KeyCode::Left => {
                        if self.all.len() == 0 || self.current == 0 {
                            // Navigate back to the previous panel
                            return (Some(FlowrsEvent::Key(*key)), Vec::new());
                        }
                        self.current = self.current - 1;
                    },
                    KeyCode::Down | KeyCode::Char('j') => {
                        self.scroll_down(1);
                    },
                    KeyCode::Up | KeyCode::Char('k') => {
                        self.scroll_up(1);
                    },
                    KeyCode::Char('u') => {
                        let h = self.half_page_height();
                        self.scroll_up(h);
                    },
                    KeyCode::Char('d') => {
                        let h = self.half_page_height();
                        self.scroll_down(h);
                    },
                    KeyCode::Char('b') => {
                        let h = self.last_viewport_height;
                        self.scroll_up(h);
                    },
                    KeyCode::Char('f') => {
                        let h = self.last_viewport_height;
                        self.scroll_down(h);
                    },
                    KeyCode::Char('o') => {
                        if self.current % self.all.len() < self.all.len() {
                            if let Some((dag_id, dag_run_id, task_id)) = Self::task_of(ctx) {
                                let mut msgs = Vec::new();
                                msgs.push(
                                    WorkerMessage::OpenItem(
                                        OpenItem::Log {
                                            dag_id,
                                            dag_run_id,
                                            task_id,
                                            task_try: (self.current + 1) as u32,
                                        },
                                    ),
                                );
                                return (Some(FlowrsEvent::Key(*key)), msgs);
                            }
                        }
                    },
                    KeyCode::Char('G') => {
                        self.scroll_mode = ScrollMode::Following;
                    },
                    KeyCode::Char('F') => {
                        // Toggle follow mode
                        if self.scroll_mode.is_following() {
                            self.scroll_mode = ScrollMode::Manual {
                                position: self.last_scroll_position,
                            };
                        } else {
                            self.scroll_mode = ScrollMode::Following;
                        }
                    },
                    KeyCode::Char('g') => {
                        // gg: go to the top of the log
                        if self.pending_g {
                            self.scroll_mode = ScrollMode::Manual { position: 0 };
                            self.pending_g = false;
                        } else {
                            self.pending_g = true;
                        }
                    },
                    _ => {
                        // Not ours: hand the event back
                        return (Some(FlowrsEvent::Key(*key)), Vec::new());
                    },
                }
            },
            FlowrsEvent::Mouse | FlowrsEvent::FocusGained | FlowrsEvent::FocusLost => {},
        }
        (None, Vec::new())
    }
}

/// The height of the text inside a bordered box of `height` rows (or width
/// inside `width` columns): two less, and 0 for a box too small for borders.
pub open spec fn inner_extent(extent: u16) -> usize {
    extent.saturating_sub(2) as usize
}

impl LogModel {
    /// The log on screen: the selected try, counted round the logs.
    pub open spec fn shown_log(self) -> Log
        recommends
            self.all.len() > 0,
    {
        self.all@[(self.current % self.all.len()) as int]
    }

    /// The rows that the log on screen takes in a log box of the given size.
    pub open spec fn shown_rows(self, width: u16) -> nat {
        wrapped_rows(self.shown_log().content@, inner_extent(width))
    }

    /// The model after rendering the log on screen in a bordered box
    /// `height` rows high whose content takes `rows` rows: it
    /// remembers the viewport, the bottom offset and the offset shown, and
    /// the scrollbar shows that offset within the rows.
    pub open spec fn rendered(self, height: u16, rows: usize) -> Self {
        let viewport = inner_extent(height);
        let shown = self.scroll_mode.offset(rows, viewport);
        LogModel {
            last_viewport_height: if viewport < 1 {
                1
            } else {
                viewport
            },
            last_bottom_scroll_position: bottom_offset(rows, viewport),
            last_scroll_position: shown,
            vertical_scroll_state: ScrollbarState { content_length: rows, position: shown },
            ..self
        }
    }

    /// The index of the tab on screen, where there are logs.
    pub fn selected_tab(&self) -> (i: Option<usize>)
        ensures
            i == (if self.all.len() > 0 {
                Some((self.current % self.all.len()) as usize)
            } else {
                None::<usize>
            }),
    {
        if self.all.len() == 0 {
            None
        } else {
            Some(self.current % self.all.len())
        }
    }

    /// Lays out the log on screen in a bordered log box of `width` by
    /// `height` cells and returns the row offset to show it from. It records
    /// the viewport, the bottom offset, the offset shown and the scrollbar
    /// state for the scroll keys. With no logs, or where the log's row count
    /// does not fit in a `usize`, nothing changes and there is no offset.
    pub fn prepare_render(&mut self, width: u16, height: u16) -> (r: Option<usize>)
        ensures
            r is None <==> (old(self).all.len() == 0 || old(self).shown_rows(width)
                > usize::MAX),
            r is None ==> *final(self) == *old(self),
            r matches Some(p) ==> {
                &&& *final(self) == old(self).rendered(height, old(self).shown_rows(width) as usize)
                &&& p == final(self).last_scroll_position
                &&& p <= final(self).last_bottom_scroll_position
            },
            r is Some ==> {
                let selected = old(self).all@[(old(self).current as int) % (old(self).all@.len() as int)];
                let rows = wrapped_rows(
                    selected.content@,
                    width.saturating_sub(2) as usize,
                );
                &&& rows <= usize::MAX
                &&& final(self).vertical_scroll_state.content_length == rows
                &&& final(self).last_bottom_scroll_position == crate::text::sat_sub(
                    rows as int,
                    height.saturating_sub(2) as int,
                )
            },
    {
        if self.all.len() == 0 {
            return None;
        }
        let idx = self.current % self.all.len();
        assert(self.all@[idx as int] == old(self).all@[(old(self).current as int) % (old(self).all@.len() as int)]);
        let viewport_height = height.saturating_sub(2) as usize;
        let line_width = width.saturating_sub(2) as usize;
        let rendered_line_count = match checked_wrapped_line_count(
            self.all[idx].content.as_str(),
            line_width,
        ) {
            Some(n) => n,
            None => {
                return None;
            },
        };
        self.last_viewport_height = if viewport_height < 1 {
            1
        } else {
            viewport_height
        };
        self.last_bottom_scroll_position = bottom_scroll_position(
            rendered_line_count,
            viewport_height,
        );
        let scroll_pos = self.scroll_mode.position(rendered_line_count, viewport_height);
        self.last_scroll_position = scroll_pos;
        self.vertical_scroll_state = ScrollbarState {
            content_length: rendered_line_count,
            position: scroll_pos,
        };
        Some(scroll_pos)
    }
}

/// The offset shown never passes the bottom, and a view that follows new
/// content shows the bottom.
pub proof fn shown_offset_within_bottom(
    mode: ScrollMode,
    content_height: usize,
    viewport_height: usize,
)
    ensures
        mode.offset(content_height, viewport_height) <= bottom_offset(
            content_height,
            viewport_height,
        ),
        mode is Following ==> mode.offset(content_height, viewport_height) == bottom_offset(
            content_height,
            viewport_height,
        ),
{
}

/// Every line takes at least one row, so a text takes at least as many rows
/// as it has lines; with no width to wrap at, exactly as many.
pub proof fn rows_at_least_lines(content: Seq<char>, line_width: usize)
    ensures
        wrapped_rows(content, line_width) >= text_lines(content).len(),
        line_width == 0 ==> wrapped_rows(content, line_width) == text_lines(content).len(),
{
    let lines = text_lines(content);
    lemma_rows_prefix(lines, line_width, lines.len() as int);
    assert(lines.take(lines.len() as int) == lines);
    if line_width == 0 {
        lemma_rows_unwrapped(lines);
    }
}

/// With no width to wrap at, each line takes one row.
proof fn lemma_rows_unwrapped(lines: Seq<Seq<char>>)
    ensures
        rows_of_lines(lines, 0) == lines.len(),
    decreases lines.len(),
{
    if lines.len() > 0 {
        lemma_rows_unwrapped(lines.drop_last());
    }
}

/// Pressing `g` twice in a row, with no error popup open, always shows the
/// top of the log (a `g` already pending makes the first press go to the
/// top, and the second one is then pending again).
pub proof fn gg_goes_to_top(m: LogModel, key: KeyEvent, ctx: NavigationContext)
    requires
        m.error_popup is None,
        key.code == KeyCode::Char('g'),
    ensures
        m.step(FlowrsEvent::Key(key), ctx).0.step(FlowrsEvent::Key(key), ctx).0.scroll_mode
            == (ScrollMode::Manual { position: 0 }),
{
}

/// Any key but `g`, with no error popup open, cancels a pending `g`: `gg`
/// takes two presses in a row.
pub proof fn other_key_cancels_g(m: LogModel, key: KeyEvent, ctx: NavigationContext)
    requires
        m.error_popup is None,
        key.code != KeyCode::Char('g'),
    ensures
        !m.step(FlowrsEvent::Key(key), ctx).0.pending_g,
{
}

/// `F` toggles following: from following it holds the view at the offset
/// last shown, and a second `F` follows again.
pub proof fn follow_toggles(m: LogModel, key: KeyEvent, ctx: NavigationContext)
    requires
        m.error_popup is None,
        key.code == KeyCode::Char('F'),
        m.scroll_mode is Following,
    ensures
        m.step(FlowrsEvent::Key(key), ctx).0.scroll_mode == (ScrollMode::Manual {
            position: m.last_scroll_position,
        }),
        m.step(FlowrsEvent::Key(key), ctx).0.step(FlowrsEvent::Key(key), ctx).0.scroll_mode
            == ScrollMode::Following,
{
}

/// Scrolling down reaches the bottom exactly when the new offset is at or
/// past the last bottom offset, and then follows; scrolling up never
/// follows and never passes the top.
pub proof fn scrolling_follows_at_bottom(m: LogModel, amount: usize)
    ensures
        (m.mode_after_down(amount) is Following) <==> m.offset_down(amount)
            >= m.last_bottom_scroll_position,
        m.offset_up(amount) <= m.last_scroll_position,
        m.last_scroll_position > 0 ==> m.offset_up(amount) < m.last_scroll_position,
{
}

/// The selected try stays one of the logs: every event keeps `current`
/// below the number of logs.
pub proof fn selection_stays_in_range(m: LogModel, event: FlowrsEvent, ctx: NavigationContext)
    requires
        m.current < m.all.len(),
    ensures
        m.step(event, ctx).0.current < m.step(event, ctx).0.all.len(),
        m.step(event, ctx).0.all == m.all,
{
}

/// An open error popup takes every key: nothing but the popup changes, and
/// nothing is passed on or asked of the worker.
pub proof fn error_popup_takes_keys(m: LogModel, key: KeyEvent, ctx: NavigationContext)
    requires
        m.error_popup is Some,
    ensures
        m.step(FlowrsEvent::Key(key), ctx).0 == (LogModel {
            error_popup: m.step(FlowrsEvent::Key(key), ctx).0.error_popup,
            ..m
        }),
        m.step(FlowrsEvent::Key(key), ctx).1 is None,
        m.step(FlowrsEvent::Key(key), ctx).2.len() == 0,
{
}

/// A tick is always passed on, and asks for the logs at most once.
pub proof fn tick_is_passed_on(m: LogModel, ctx: NavigationContext)
    ensures
        m.step(FlowrsEvent::Tick, ctx).1 == Some(FlowrsEvent::Tick),
        m.step(FlowrsEvent::Tick, ctx).2.len() <= 1,
        m.step(FlowrsEvent::Tick, ctx).0.ticks == (m.ticks + 1) as u32,
{
}

/// The log laid out before drawing is the one on the selected tab: its
/// wrapped rows, at the box's inner width, are the content length recorded
/// for the scrollbar.
pub proof fn render_uses_selected_tab(m: LogModel, width: u16, height: u16)
    requires
        m.all@.len() > 0,
        m.shown_rows(width) <= usize::MAX,
    ensures
        m.rendered(height, m.shown_rows(width) as usize).vertical_scroll_state.content_length
            == wrapped_rows(
            m.all@[(m.current as int) % (m.all@.len() as int)].content@,
            width.saturating_sub(2) as usize,
        ),
{
}

/// With no error popup open, `l` and Right select the next try, staying on
/// the last; `h` and Left select the previous one, and on the first try (or
/// with no logs) hand the key back to the parent instead.
pub proof fn tries_move_by_one(m: LogModel, key: KeyEvent, ctx: NavigationContext)
    requires
        m.error_popup is None,
        m.current < m.all.len(),
    ensures
        (key.code == KeyCode::Char('l') || key.code == KeyCode::Right) ==> {
            &&& m.current + 1 < m.all.len() ==> m.step(FlowrsEvent::Key(key), ctx).0.current
                == m.current + 1
            &&& m.current + 1 == m.all.len() ==> m.step(FlowrsEvent::Key(key), ctx).0.current
                == m.current
            &&& m.step(FlowrsEvent::Key(key), ctx).1 is None
        },
        (key.code == KeyCode::Char('h') || key.code == KeyCode::Left) ==> {
            &&& m.current > 0 ==> m.step(FlowrsEvent::Key(key), ctx).0.current + 1 == m.current
                && m.step(FlowrsEvent::Key(key), ctx).1 is None
            &&& m.current == 0 ==> m.step(FlowrsEvent::Key(key), ctx).0.current == 0
                && m.step(FlowrsEvent::Key(key), ctx).1 == Some(FlowrsEvent::Key(key))
        },
{
}

} // verus!
