//! Input events, navigation context and the messages the views hand to the
//! background worker.
use vstd::prelude::*;

verus! {

/// A key on the keyboard, as the terminal reports it.
#[derive(Clone, Copy, Debug, PartialEq, Eq, Structural)]
pub enum KeyCode {
    Backspace,
    Enter,
    Left,
    Right,
    Up,
    Down,
    Home,
    End,
    PageUp,
    PageDown,
    Tab,
    BackTab,
    Delete,
    Insert,
    /// A function key, by its number.
    F(u8),
    Char(char),
    Null,
    Esc,
    CapsLock,
    ScrollLock,
    NumLock,
    PrintScreen,
    Pause,
    Menu,
    KeypadBegin,
    /// A media key, by its index in the terminal library's list of media keys.
    Media(u8),
    /// A modifier key pressed alone, by its index in the terminal library's list.
    Modifier(u8),
}

/// Whether a key went down, repeats, or went up.
#[derive(Clone, Copy, Debug, PartialEq, Eq, Structural)]
pub enum KeyEventKind {
    Press,
    Repeat,
    Release,
}

/// A key event: the key, and the modifier and keyboard-state bits that came
/// with it. The views read only the key; the rest is handed back untouched.
#[derive(Clone, Copy, Debug, PartialEq, Eq, Structural)]
pub struct KeyEvent {
    pub code: KeyCode,
    pub modifiers: u8,
    pub kind: KeyEventKind,
    pub state: u8,
}

/// An event of the application's event loop.
#[derive(Clone, Copy, Debug, PartialEq, Eq, Structural)]
pub enum FlowrsEvent {
    Tick,
    Key(KeyEvent),
    Mouse,
    FocusGained,
    FocusLost,
}

/// What the user has navigated to: the DAG, the DAG run, the task and the
/// task's try number, as far as they are chosen.
#[derive(Clone, Debug)]
pub struct NavigationContext {
    pub dag_id: Option<String>,
    pub dag_run_id: Option<String>,
    pub task_id: Option<String>,
    pub task_try: Option<u32>,
}

/// An item to open in the browser.
#[derive(Clone, Debug)]
pub enum OpenItem {
    Log { dag_id: String, dag_run_id: String, task_id: String, task_try: u32 },
}

/// One parameter value of a DAG run configuration: either a text that is
/// JSON and is sent as the JSON value it denotes, or a plain text that is
/// sent as a JSON string.
#[derive(Clone, Debug)]
pub enum ConfValue {
    Json(String),
    Text(String),
}

/// Work for the background worker.
#[derive(Clone, Debug)]
pub enum WorkerMessage {
    UpdateTaskLogs { dag_id: String, dag_run_id: String, task_id: String, task_try: u32 },
    OpenItem(OpenItem),
    TriggerDagRun { dag_id: String, conf: Option<Vec<(String, ConfValue)>> },
}

} // verus!
