//! The dialog that triggers a new DAG run, optionally with edited
//! parameters.
use vstd::prelude::*;

use crate::event::{ConfValue, FlowrsEvent, KeyCode, KeyEvent, NavigationContext, WorkerMessage};
use crate::json::{default_text, extract_default_value, is_json_text, parses_as_json, JsonValue};
use crate::text::{
    char_count, chars_of, sat_sub, insert_char_at, push_char, push_str, remove_char_at, spaces, spaces_string,
    string_of_range,
};
use vstd::utf8::{decode_utf8, encode_utf8, is_char_boundary};

verus! {

/// Which part of the dialog has the keyboard: the parameter list or the
/// Yes/No buttons.
#[derive(Clone, Copy, Debug, PartialEq, Eq, Structural)]
pub enum FocusZone {
    Params,
    Buttons,
}

/// The button of a Yes/No dialog that is selected.
#[derive(Clone, Copy, Debug, PartialEq, Eq, Structural)]
pub enum SelectedButton {
    Yes,
    No,
}

impl Default for SelectedButton {
    fn default() -> (b: Self)
        ensures
            b == SelectedButton::Yes,
    {
        SelectedButton::Yes
    }
}

impl SelectedButton {
    /// The other button.
    pub open spec fn toggled(self) -> Self {
        match self {
            SelectedButton::Yes => SelectedButton::No,
            SelectedButton::No => SelectedButton::Yes,
        }
    }

    /// Whether Yes is selected.
    pub fn is_yes(&self) -> (b: bool)
        ensures
            b == (*self == SelectedButton::Yes),
    {
        match self {
            SelectedButton::Yes => true,
            SelectedButton::No => false,
        }
    }

    /// Selects the other button.
    pub fn toggle(&mut self)
        ensures
            *final(self) == old(self).toggled(),
    {
        *self = match self {
            SelectedButton::Yes => SelectedButton::No,
            SelectedButton::No => SelectedButton::Yes,
        };
    }
}

#[verifier::ext_equal]
/// What the dialog holds: the DAG, its parameters as (name, value text)
/// pairs, the parameter that is selected, whether its value is being
/// edited and the cursor's place in it (a character index), the first
/// parameter row on screen, the focus and the selected button.
pub struct TriggerView {
    pub dag_id: Seq<char>,
    pub params: Seq<(Seq<char>, Seq<char>)>,
    pub active_param: usize,
    pub editing: bool,
    pub cursor: usize,
    pub scroll_offset: usize,
    pub focus: FocusZone,
    pub selected_button: SelectedButton,
}

/// The request to the worker that a key press makes, if any.
pub enum TriggerRequest {
    Nothing,
    /// Trigger a run of the DAG with the dialog's parameters.
    Trigger,
}

impl TriggerView {
    /// Whether the DAG has parameters to edit.
    pub open spec fn has_params(self) -> bool {
        self.params.len() > 0
    }

    /// The selected parameter's value text.
    pub open spec fn active_value(self) -> Seq<char> {
        self.params[self.active_param as int].1
    }

    /// The selected parameter with its value text replaced.
    pub open spec fn with_active_value(self, value: Seq<char>) -> Self {
        TriggerView {
            params: self.params.update(
                self.active_param as int,
                (self.params[self.active_param as int].0, value),
            ),
            ..self
        }
    }

    /// The dialog's invariant: the selected parameter and the first row on
    /// screen are parameters, and an edit's cursor lies within the value.
    pub open spec fn wf(self) -> bool {
        &&& self.has_params() ==> self.active_param < self.params.len() && self.scroll_offset
            < self.params.len()
        &&& self.editing ==> self.has_params() && self.cursor <= self.active_value().len()
    }

    /// What a key does while a value is edited: Esc or Enter ends the edit;
    /// a character goes in at the cursor, which moves past it; Backspace
    /// takes out the character before the cursor; Left and Right move the
    /// cursor by a character within the value.
    pub open spec fn editing_step(self, code: KeyCode) -> Self {
        let value = self.active_value();
        let c = self.cursor;
        match code {
            KeyCode::Esc | KeyCode::Enter => TriggerView { editing: false, ..self },
            KeyCode::Char(ch) => TriggerView {
                cursor: (c + 1) as usize,
                ..self.with_active_value(value.take(c as int) + seq![ch] + value.skip(c as int))
            },
            KeyCode::Backspace => if c > 0 {
                TriggerView {
                    cursor: (c - 1) as usize,
                    ..self.with_active_value(value.take(c - 1) + value.skip(c as int))
                }
            } else {
                self
            },
            KeyCode::Left => if c > 0 {
                TriggerView { cursor: (c - 1) as usize, ..self }
            } else {
                self
            },
            KeyCode::Right => if c < value.len() {
                TriggerView { cursor: (c + 1) as usize, ..self }
            } else {
                self
            },
            _ => self,
        }
    }

    /// What a key does in the dialog for a DAG without parameters: Enter
    /// closes it (the key is passed on) and, with Yes selected, triggers the
    /// run; the arrow keys and `hjkl` switch the button; `q`, Esc and any
    /// other key are passed on.
    pub open spec fn simple_step(self, key: KeyEvent) -> (Self, Option<FlowrsEvent>, TriggerRequest) {
        match key.code {
            KeyCode::Enter => (
                self,
                Some(FlowrsEvent::Key(key)),
                if self.selected_button == SelectedButton::Yes {
                    TriggerRequest::Trigger
                } else {
                    TriggerRequest::Nothing
                },
            ),
            KeyCode::Char('j') | KeyCode::Char('k') | KeyCode::Char('h') | KeyCode::Char('l')
            | KeyCode::Down | KeyCode::Up | KeyCode::Left | KeyCode::Right => (
                TriggerView { selected_button: self.selected_button.toggled(), ..self },
                None,
                TriggerRequest::Nothing,
            ),
            _ => (self, Some(FlowrsEvent::Key(key)), TriggerRequest::Nothing),
        }
    }

    /// What a key does in the dialog for a DAG with parameters. While a
    /// value is edited, see `editing_step`. Otherwise Esc and `q` are passed
    /// on (closing the dialog); Tab and BackTab move the focus; Enter on the
    /// buttons closes the dialog and, with Yes selected, triggers the run,
    /// and on the parameters starts editing the selected value with the
    /// cursor at its end; `j`/Down and `k`/Up select the next or previous
    /// parameter, and `h`/`l`/Left/Right switch the button, each where its
    /// zone has the focus. Other keys do nothing.
    pub open spec fn params_step(self, key: KeyEvent) -> (Self, Option<FlowrsEvent>, TriggerRequest) {
        if self.editing {
            (self.editing_step(key.code), None, TriggerRequest::Nothing)
        } else {
            match key.code {
                KeyCode::Esc | KeyCode::Char('q') => (
                    self,
                    Some(FlowrsEvent::Key(key)),
                    TriggerRequest::Nothing,
                ),
                KeyCode::Tab | KeyCode::BackTab => (
                    TriggerView {
                        focus: if self.focus == FocusZone::Params {
                            FocusZone::Buttons
                        } else {
                            FocusZone::Params
                        },
                        ..self
                    },
                    None,
                    TriggerRequest::Nothing,
                ),
                KeyCode::Enter => if self.focus == FocusZone::Buttons {
                    (
                        self,
                        Some(FlowrsEvent::Key(key)),
                        if self.selected_button == SelectedButton::Yes {
                            TriggerRequest::Trigger
                        } else {
                            TriggerRequest::Nothing
                        },
                    )
                } else {
                    (
                        TriggerView {
                            editing: true,
                            cursor: self.active_value().len() as usize,
                            ..self
                        },
                        None,
                        TriggerRequest::Nothing,
                    )
                },
                KeyCode::Char('j') | KeyCode::Down => (
                    if self.focus == FocusZone::Params && self.has_params() {
                        TriggerView {
                            active_param: if self.active_param + 1 < self.params.len() - 1 {
                                (self.active_param + 1) as usize
                            } else {
                                (self.params.len() - 1) as usize
                            },
                            ..self
                        }
                    } else {
                        self
                    },
                    None,
                    TriggerRequest::Nothing,
                ),
                KeyCode::Char('k') | KeyCode::Up => (
                    if self.focus == FocusZone::Params {
                        TriggerView { active_param: self.active_param.saturating_sub(1), ..self }
                    } else {
                        self
                    },
                    None,
                    TriggerRequest::Nothing,
                ),
                KeyCode::Char('h') | KeyCode::Char('l') | KeyCode::Left | KeyCode::Right => (
                    if self.focus == FocusZone::Buttons {
                        TriggerView { selected_button: self.selected_button.toggled(), ..self }
                    } else {
                        self
                    },
                    None,
                    TriggerRequest::Nothing,
                ),
                _ => (self, None, TriggerRequest::Nothing),
            }
        }
    }

    /// What an event does: keys go to `params_step` or `simple_step` as
    /// the DAG has parameters or not; anything else is passed on.
    pub open spec fn step(self, event: FlowrsEvent) -> (Self, Option<FlowrsEvent>, TriggerRequest) {
        match event {
            FlowrsEvent::Key(key) => if self.has_params() {
                self.params_step(key)
            } else {
                self.simple_step(key)
            },
            _ => (self, Some(event), TriggerRequest::Nothing),
        }
    }
}

/// Whether a configuration entry carries a parameter: the same name, and
/// the value text marked as JSON exactly where it parses as JSON.
pub open spec fn conf_entry_for(entry: (String, ConfValue), param: (Seq<char>, Seq<char>)) -> bool {
    &&& entry.0@ == param.0
    &&& match entry.1 {
        ConfValue::Json(t) => t@ == param.1 && is_json_text(param.1),
        ConfValue::Text(t) => t@ == param.1 && !is_json_text(param.1),
    }
}

/// Whether `conf` is the run configuration for `params`: none without
/// parameters, else one entry per parameter, in order.
pub open spec fn conf_for(
    conf: Option<Vec<(String, ConfValue)>>,
    params: Seq<(Seq<char>, Seq<char>)>,
) -> bool {
    match conf {
        None => params.len() == 0,
        Some(entries) => {
            &&& params.len() > 0
            &&& entries@.len() == params.len()
            &&& forall|i: int|
                0 <= i < params.len() ==> #[trigger] conf_entry_for(entries@[i], params[i])
        },
    }
}

/// Whether `msg` asks to trigger a run of the dialog's DAG with its
/// parameters.
pub open spec fn triggers_run(msg: WorkerMessage, dialog: TriggerView) -> bool {
    match msg {
        WorkerMessage::TriggerDagRun { dag_id, conf } => dag_id@ == dialog.dag_id && conf_for(
            conf,
            dialog.params,
        ),
        _ => false,
    }
}

/// Whether `msgs` is the work that `request` asks for in `dialog`.
pub open spec fn messages_for(
    msgs: Seq<WorkerMessage>,
    request: TriggerRequest,
    dialog: TriggerView,
) -> bool {
    match request {
        TriggerRequest::Nothing => msgs.len() == 0,
        TriggerRequest::Trigger => msgs.len() == 1 && triggers_run(msgs[0], dialog),
    }
}

/// The dialog that asks whether to trigger a new run of a DAG and lets the
/// user edit the DAG's parameters first.
pub struct TriggerDagRunPopUp {
    pub dag_id: String,
    params: Vec<(String, String)>,
    active_param: usize,
    editing: bool,
    cursor_pos: usize,
    scroll_offset: usize,
    focus: FocusZone,
    selected_button: SelectedButton,
}

/// The (name, value text) pairs of the parameters.
pub open spec fn params_view(params: Seq<(String, String)>) -> Seq<(Seq<char>, Seq<char>)> {
    params.map_values(|p: (String, String)| (p.0@, p.1@))
}

impl View for TriggerDagRunPopUp {
    type V = TriggerView;

    closed spec fn view(&self) -> TriggerView {
        TriggerView {
            dag_id: self.dag_id@,
            params: params_view(self.params@),
            active_param: self.active_param,
            editing: self.editing,
            cursor: self.cursor_pos,
            scroll_offset: self.scroll_offset,
            focus: self.focus,
            selected_button: self.selected_button,
        }
    }
}

/// The parameters of a DAG's parameter description: for each entry of an
/// object, its name and the text of its default (see `default_text`); none
/// for anything but an object.
pub open spec fn params_from(raw_params: Option<JsonValue>) -> Seq<(Seq<char>, Seq<char>)> {
    match raw_params {
        Some(JsonValue::Object(entries)) => entries@.map_values(
            |e: (String, JsonValue)| (e.0@, default_text(e.1)),
        ),
        _ => seq![],
    }
}

impl TriggerDagRunPopUp {
    /// The dialog for `dag_id`, with the parameters that `raw_params`
    /// describes, the first one selected, the focus on the parameters and
    /// Yes selected.
    pub fn new(dag_id: String, raw_params: Option<&JsonValue>) -> (p: Self)
        ensures
            p@ == (TriggerView {
                dag_id: dag_id@,
                params: params_from(
                    match raw_params {
                        Some(v) => Some(*v),
                        None => None,
                    },
                ),
                active_param: 0,
                editing: false,
                cursor: 0,
                scroll_offset: 0,
                focus: FocusZone::Params,
                selected_button: SelectedButton::Yes,
            }),
            p@.wf(),
    {
        let mut params: Vec<(String, String)> = Vec::new();
        if let Some(JsonValue::Object(entries)) = raw_params {
            for i in 0..entries.len()
                invariant
                    params@.len() == i,
                    forall|k: int|
                        0 <= k < i ==> (#[trigger] params@[k]).0@ == entries@[k].0@ && params@[k].1@
                            == default_text(entries@[k].1),
            {
                let name = entries[i].0.clone();
                let value = extract_default_value(&entries[i].1);
                params.push((name, value));
            }
            assert(params_view(params@) =~= params_from(Some(JsonValue::Object(*entries))));
        } else {
            assert(params_view(params@) =~= seq![]);
        }
        let p = TriggerDagRunPopUp {
            dag_id,
            params,
            active_param: 0,
            editing: false,
            cursor_pos: 0,
            scroll_offset: 0,
            focus: FocusZone::Params,
            selected_button: SelectedButton::default(),
        };
        assert(p@.params == params_from(
            match raw_params {
                Some(v) => Some(*v),
                None => None,
            },
        ));
        p
    }

    /// Whether the DAG has parameters to edit.
    pub fn has_params(&self) -> (b: bool)
        ensures
            b == self@.has_params(),
    {
        self.params.len() > 0
    }

    /// The run configuration: none without parameters, else each
    /// parameter's name with its value text, marked as JSON where the text
    /// parses as JSON.
    fn build_conf(&self) -> (conf: Option<Vec<(String, ConfValue)>>)
        ensures
            conf_for(conf, self@.params),
    {
        if self.params.len() == 0 {
            return None;
        }
        let mut entries: Vec<(String, ConfValue)> = Vec::new();
        for i in 0..self.params.len()
            invariant
                entries@.len() == i,
                forall|k: int|
                    0 <= k < i ==> #[trigger] conf_entry_for(entries@[k], self@.params[k]),
        {
            let name = self.params[i].0.clone();
            let text = self.params[i].1.clone();
            let value = if parses_as_json(self.params[i].1.as_str()) {
                ConfValue::Json(text)
            } else {
                ConfValue::Text(text)
            };
            entries.push((name, value));
        }
        Some(entries)
    }

    /// Replaces the selected parameter's value text.
    fn set_active_value(&mut self, value: String)
        requires
            old(self)@.wf(),
            old(self)@.has_params(),
        ensures
            final(self)@ == old(self)@.with_active_value(value@),
    {
        let active = self.active_param;
        let name = self.params[active].0.clone();
        let ghost before = self.params@;
        self.params.set(active, (name, value));
        assert(params_view(self.params@) =~= params_view(before).update(
            active as int,
            (params_view(before)[active as int].0, value@),
        ));
    }

    /// Handles a key while the selected value is edited (see
    /// `TriggerView::editing_step`).
    fn handle_editing(&mut self, code: KeyCode, key_event: KeyEvent) -> (res: (
        Option<FlowrsEvent>,
        Vec<WorkerMessage>,
    ))
        requires
            old(self)@.wf(),
            old(self)@.editing,
        ensures
            final(self)@ == old(self)@.editing_step(code),
            final(self)@.wf(),
            res.0 is None,
            res.1@.len() == 0,
    {
        let active = self.active_param;
        let ghost old_view = self@;
        assert(self.params@[active as int].1@ == old_view.active_value());
        match code {
            KeyCode::Esc | KeyCode::Enter => {
                self.editing = false;
            },
            KeyCode::Char(c) => {
                let value = insert_char_at(self.params[active].1.as_str(), self.cursor_pos, c);
                self.set_active_value(value);
                self.cursor_pos = self.cursor_pos + 1;
            },
            KeyCode::Backspace => {
                if self.cursor_pos > 0 {
                    let value = remove_char_at(
                        self.params[active].1.as_str(),
                        self.cursor_pos - 1,
                    );
                    assert(value@ == old_view.active_value().take(self.cursor_pos - 1)
                        + old_view.active_value().skip(self.cursor_pos as int));
                    self.set_active_value(value);
                    self.cursor_pos = self.cursor_pos - 1;
                }
            },
            KeyCode::Left => {
                if self.cursor_pos > 0 {
                    self.cursor_pos = self.cursor_pos - 1;
                }
            },
            KeyCode::Right => {
                if self.cursor_pos < char_count(self.params[active].1.as_str()) {
                    self.cursor_pos = self.cursor_pos + 1;
                }
            },
            _ => {},
        }
        let _ = key_event;
        (None, Vec::new())
    }

    /// The request to trigger a run of this DAG with the given
    /// configuration.
    fn trigger_message(&self, with_params: bool) -> (msgs: Vec<WorkerMessage>)
        requires
            with_params == self@.has_params(),
        ensures
            messages_for(msgs@, TriggerRequest::Trigger, self@),
    {
        let conf = if with_params {
            self.build_conf()
        } else {
            None
        };
        let mut msgs = Vec::new();
        msgs.push(WorkerMessage::TriggerDagRun { dag_id: self.dag_id.clone(), conf });
        msgs
    }

    /// Handles a key in the dialog for a DAG without parameters (see
    /// `TriggerView::simple_step`).
    fn update_simple(&mut self, code: KeyCode, key_event: KeyEvent) -> (res: (
        Option<FlowrsEvent>,
        Vec<WorkerMessage>,
    ))
        requires
            old(self)@.wf(),
            !old(self)@.has_params(),
            key_event.code == code,
        ensures
            final(self)@ == old(self)@.simple_step(key_event).0,
            res.0 == old(self)@.simple_step(key_event).1,
            messages_for(res.1@, old(self)@.simple_step(key_event).2, old(self)@),
            final(self)@.wf(),
    {
        match code {
            KeyCode::Enter => {
                // Enter always hands the key back so that the parent closes the
                // dialog; with Yes selected it also asks for the run.
                if self.selected_button.is_yes() {
                    return (Some(FlowrsEvent::Key(key_event)), self.trigger_message(false));
                }
                (Some(FlowrsEvent::Key(key_event)), Vec::new())
            },
            KeyCode::Char('j')
            | KeyCode::Char('k')
            | KeyCode::Char('h')
            | KeyCode::Char('l')
            | KeyCode::Down
            | KeyCode::Up
            | KeyCode::Left
            | KeyCode::Right => {
                self.selected_button.toggle();
                (None, Vec::new())
            },
            // On Esc the key goes back so that the parent closes the dialog
            // without a run.
            KeyCode::Char('q') | KeyCode::Esc => (Some(FlowrsEvent::Key(key_event)), Vec::new()),
            _ => (Some(FlowrsEvent::Key(key_event)), Vec::new()),
        }
    }

    /// Handles a key in the dialog for a DAG with parameters (see
    /// `TriggerView::params_step`).
    fn update_with_params(&mut self, code: KeyCode, key_event: KeyEvent) -> (res: (
        Option<FlowrsEvent>,
        Vec<WorkerMessage>,
    ))
        requires
            old(self)@.wf(),
            old(self)@.has_params(),
            key_event.code == code,
        ensures
            final(self)@ == old(self)@.params_step(key_event).0,
            res.0 == old(self)@.params_step(key_event).1,
            messages_for(res.1@, old(self)@.params_step(key_event).2, old(self)@),
            final(self)@.wf(),
    {
        if self.editing {
            return self.handle_editing(code, key_event);
        }
        match code {
            KeyCode::Esc | KeyCode::Char('q') => (Some(FlowrsEvent::Key(key_event)), Vec::new()),
            KeyCode::Tab | KeyCode::BackTab => {
                self.focus = match self.focus {
                    FocusZone::Params => FocusZone::Buttons,
                    FocusZone::Buttons => FocusZone::Params,
                };
                (None, Vec::new())
            },
            KeyCode::Enter => {
                if self.focus == FocusZone::Buttons {
                    if self.selected_button.is_yes() {
                        return (Some(FlowrsEvent::Key(key_event)), self.trigger_message(true));
                    }
                    return (Some(FlowrsEvent::Key(key_event)), Vec::new());
                }
                // Enter on the parameters starts editing the selected value.
                self.cursor_pos = char_count(self.params[self.active_param].1.as_str());
                self.editing = true;
                (None, Vec::new())
            },
            KeyCode::Char('j') | KeyCode::Down => {
                if self.focus == FocusZone::Params && self.params.len() > 0 {
                    let last = self.params.len() - 1;
                    self.active_param = if self.active_param + 1 < last {
                        self.active_param + 1
                    } else {
                        last
                    };
                }
                (None, Vec::new())
            },
            KeyCode::Char('k') | KeyCode::Up => {
                if self.focus == FocusZone::Params {
                    self.active_param = self.active_param.saturating_sub(1);
                }
                (None, Vec::new())
            },
            KeyCode::Char('h') | KeyCode::Char('l') | KeyCode::Left | KeyCode::Right => {
                if self.focus == FocusZone::Buttons {
                    self.selected_button.toggle();
                }
                (None, Vec::new())
            },
            _ => (None, Vec::new()),
        }
    }

    /// Handles an event (see `TriggerView::step`): returns the event to pass
    /// on to the parent, if any, and the request to trigger the run, where
    /// the user confirmed it.
    pub fn update(&mut self, event: &FlowrsEvent, _ctx: &NavigationContext) -> (res: (
        Option<FlowrsEvent>,
        Vec<WorkerMessage>,
    ))
        requires
            old(self)@.wf(),
        ensures
            final(self)@ == old(self)@.step(*event).0,
            res.0 == old(self)@.step(*event).1,
            messages_for(res.1@, old(self)@.step(*event).2, old(self)@),
            final(self)@.wf(),
    {
        if let FlowrsEvent::Key(key_event) = event {
            if !self.has_params() {
                return self.update_simple(key_event.code, *key_event);
            }
            return self.update_with_params(key_event.code, *key_event);
        }
        (Some(*event), Vec::new())
    }
}

/// The number of bytes in the UTF-8 encoding of a text.
pub open spec fn utf8_len(text: Seq<char>) -> nat {
    encode_utf8(text).len()
}

/// The longest parameter name, in bytes.
pub open spec fn longest_key(params: Seq<(Seq<char>, Seq<char>)>) -> nat
    decreases params.len(),
{
    if params.len() == 0 {
        0
    } else {
        let k = utf8_len(params.last().0);
        let rest = longest_key(params.drop_last());
        if k < rest {
            rest
        } else {
            k
        }
    }
}

/// The width of the name column: the longest name in bytes, at most 20.
pub open spec fn key_column(params: Seq<(Seq<char>, Seq<char>)>) -> nat {
    if longest_key(params) < 20 {
        longest_key(params)
    } else {
        20
    }
}

/// A parameter name as shown in a column `width` wide: a name longer (in
/// bytes) than the column is cut to its first `width - 1` bytes and marked
/// with `…`; a shorter one is padded with spaces to `width` characters.
pub open spec fn key_label(key: Seq<char>, width: nat) -> Seq<char> {
    if utf8_len(key) > width {
        decode_utf8(encode_utf8(key).take(sat_sub(width as int, 1) as int)) + seq!['…']
    } else {
        key + spaces(sat_sub(width as int, key.len() as int))
    }
}

/// How a parameter's value is shown: while it is edited, split at the
/// cursor into the text before it, the character under it (a space at the
/// end) and the rest; otherwise whole, in brackets.
#[derive(Debug)]
pub enum ValueDisplay {
    Editing { before: String, cursor: char, rest: String },
    Plain(String),
}

/// One row of the parameter list.
#[derive(Debug)]
pub struct ParamRow {
    /// The parameter's place in the list.
    pub index: usize,
    /// The name, cut or padded to the name column.
    pub key: String,
    /// Whether the row is the selected one and the list has the focus.
    pub active: bool,
    pub value: ValueDisplay,
}

/// What the dialog for a DAG with parameters shows: the rows on screen and
/// which button is highlighted.
#[derive(Debug)]
pub struct ParamsLayout {
    pub rows: Vec<ParamRow>,
    pub yes_highlighted: bool,
    pub no_highlighted: bool,
}

impl TriggerView {
    /// The first row on screen once the selected parameter is brought into
    /// a list `visible` rows high: the list scrolls down just far enough to
    /// show it below, or up to it above.
    pub open spec fn offset_for(self, visible: nat) -> usize {
        let lowered = if self.active_param >= self.scroll_offset + visible {
            (self.active_param + 1 - visible) as usize
        } else {
            self.scroll_offset
        };
        if self.active_param < lowered {
            self.active_param
        } else {
            lowered
        }
    }

    /// One past the last row on screen from `offset` in a list `visible`
    /// rows high.
    pub open spec fn rows_end(self, offset: int, visible: nat) -> int {
        if offset + visible < self.params.len() {
            offset + visible
        } else {
            self.params.len() as int
        }
    }

    /// Where the parameter list can be laid out in a list `visible` rows
    /// high: the scroll arithmetic fits in a `usize`, and each name on
    /// screen that must be cut is cut at a character boundary.
    pub open spec fn layout_defined(self, visible: u16) -> bool {
        let offset = self.offset_for(visible as nat);
        let width = key_column(self.params);
        &&& self.scroll_offset + visible <= usize::MAX
        &&& forall|i: int|
            offset <= i < self.rows_end(offset as int, visible as nat) && utf8_len(
                #[trigger] self.params[i].0,
            ) > width ==> is_char_boundary(encode_utf8(self.params[i].0), sat_sub(width as int, 1) as int)
    }
}

/// Whether `row` shows the `i`th parameter of `dialog` with a name column
/// `width` wide.
pub open spec fn shows_param(row: ParamRow, dialog: TriggerView, i: int, width: nat) -> bool {
    let p = dialog.params[i];
    let active = i == dialog.active_param && dialog.focus == FocusZone::Params;
    let c = if dialog.cursor < p.1.len() {
        dialog.cursor as int
    } else {
        p.1.len() as int
    };
    &&& row.index == i
    &&& row.key@ == key_label(p.0, width)
    &&& row.active == active
    &&& match row.value {
        ValueDisplay::Editing { before, cursor, rest } => {
            &&& active && dialog.editing
            &&& before@ == p.1.take(c)
            &&& if c < p.1.len() {
                cursor == p.1[c] && rest@ == p.1.skip(c + 1)
            } else {
                cursor == ' ' && rest@ == Seq::<char>::empty()
            }
        },
        ValueDisplay::Plain(t) => !(active && dialog.editing) && t@ == p.1,
    }
}

/// The number of bytes in the UTF-8 encoding of `s`.
fn byte_len(s: &str) -> (n: usize)
    ensures
        n == utf8_len(s@),
{
    s.as_bytes().len()
}

/// The name as shown in a column `width` wide (see `key_label`).
fn label_key(key: &String, width: usize) -> (label: String)
    requires
        utf8_len(key@) > width ==> is_char_boundary(
            encode_utf8(key@),
            sat_sub(width as int, 1) as int,
        ),
    ensures
        label@ == key_label(key@, width as nat),
{
    if byte_len(key.as_str()) > width {
        let cut = width.saturating_sub(1);
        let (head, _) = key.as_str().split_at(cut);
        proof {
            vstd::utf8::encode_utf8_decode_utf8(head@);
            assert(encode_utf8(head@) =~= encode_utf8(key@).take(cut as int));
        }
        let mut label = String::new();
        push_str(&mut label, head);
        push_char(&mut label, '…');
        assert(label@ =~= key_label(key@, width as nat));
        label
    } else {
        let n = char_count(key.as_str());
        let mut label = String::new();
        push_str(&mut label, key.as_str());
        let pad = spaces_string(width.saturating_sub(n));
        push_str(&mut label, pad.as_str());
        assert(label@ =~= key_label(key@, width as nat));
        label
    }
}

impl TriggerDagRunPopUp {
    /// The width of the name column (see `key_column`).
    fn key_column_width(&self) -> (w: usize)
        ensures
            w == key_column(self@.params),
    {
        let mut longest: usize = 0;
        for i in 0..self.params.len()
            invariant
                longest == longest_key(params_view(self.params@).take(i as int)),
        {
            let n = byte_len(self.params[i].0.as_str());
            proof {
                let ps = params_view(self.params@);
                assert(ps[i as int].0 == self.params@[i as int].0@);
                assert(n == utf8_len(ps[i as int].0));
                assert(ps.take(i + 1).drop_last() == ps.take(i as int));
                assert(ps.take(i + 1).last() == ps[i as int]);
            }
            if n > longest {
                longest = n;
            }
        }
        assert(params_view(self.params@).take(self.params@.len() as int) == params_view(
            self.params@,
        ));
        if longest < 20 {
            longest
        } else {
            20
        }
    }

    /// The first row on screen once the selected parameter is brought into
    /// a list `visible_rows` high (see `TriggerView::offset_for`).
    fn offset_for(&self, visible_rows: usize) -> (o: usize)
        requires
            self@.scroll_offset + visible_rows <= usize::MAX,
            self@.wf(),
            self@.has_params(),
        ensures
            o == self@.offset_for(visible_rows as nat),
            o <= self@.active_param,
    {
        let mut offset = self.scroll_offset;
        let len = self.params.len();
        assert(self.active_param < len);
        if self.active_param >= offset + visible_rows {
            offset = self.active_param + 1 - visible_rows;
        }
        if self.active_param < offset {
            offset = self.active_param;
        }
        offset
    }

    /// Whether `layout_params` is defined for a list `visible_rows` high
    /// (see `TriggerView::layout_defined`).
    pub fn can_layout_params(&self, visible_rows: u16) -> (ok: bool)
        requires
            self@.wf(),
            self@.has_params(),
        ensures
            ok == self@.layout_defined(visible_rows),
    {
        let visible = visible_rows as usize;
        if self.scroll_offset.checked_add(visible).is_none() {
            return false;
        }
        let offset = self.offset_for(visible);
        let width = self.key_column_width();
        let end = if visible < self.params.len() - offset {
            offset + visible
        } else {
            self.params.len()
        };
        let ghost ps = params_view(self.params@);
        for i in offset..end
            invariant
                ps == params_view(self.params@),
                end <= ps.len(),
                width == key_column(ps),
                visible == visible_rows as usize,
                offset == self@.offset_for(visible as nat),
                end == self@.rows_end(offset as int, visible as nat),
                self@.scroll_offset + visible <= usize::MAX,
                forall|k: int|
                    offset <= k < i && utf8_len(#[trigger] ps[k].0) > width ==> is_char_boundary(
                        encode_utf8(ps[k].0),
                        sat_sub(width as int, 1) as int,
                    ),
        {
            let key = self.params[i].0.as_str();
            assert(ps[i as int].0 == key@);
            if byte_len(key) > width && !key.is_char_boundary(width.saturating_sub(1)) {
                assert(self@.params[i as int].0 == key@);
                assert(end == self@.rows_end(offset as int, visible as nat));
                assert(!self@.layout_defined(visible_rows));
                return false;
            }
        }
        true
    }

    /// Brings the selected parameter into a list `visible_rows` high and
    /// lays out the rows on screen: each row's name in the name column, and
    /// its value split at the cursor while it is edited. The buttons are
    /// highlighted only while they have the focus.
    pub fn layout_params(&mut self, visible_rows: u16) -> (layout: ParamsLayout)
        requires
            old(self)@.wf(),
            old(self)@.has_params(),
            old(self)@.layout_defined(visible_rows),
        ensures
            final(self)@ == (TriggerView {
                scroll_offset: old(self)@.offset_for(visible_rows as nat),
                ..old(self)@
            }),
            final(self)@.wf(),
            layout.rows@.len() == final(self)@.rows_end(
                final(self)@.scroll_offset as int,
                visible_rows as nat,
            ) - final(self)@.scroll_offset,
            forall|j: int|
                0 <= j < layout.rows@.len() ==> shows_param(
                    #[trigger] layout.rows@[j],
                    final(self)@,
                    final(self)@.scroll_offset + j,
                    key_column(final(self)@.params),
                ),
            layout.yes_highlighted == (old(self)@.focus == FocusZone::Buttons
                && old(self)@.selected_button == SelectedButton::Yes),
            layout.no_highlighted == (old(self)@.focus == FocusZone::Buttons
                && old(self)@.selected_button == SelectedButton::No),
            visible_rows > 0 ==> final(self)@.scroll_offset <= old(self)@.active_param
                < final(self)@.scroll_offset + visible_rows,
            visible_rows > 0 ==> exists|j: int|
                0 <= j < layout.rows@.len() && (#[trigger] layout.rows@[j]).index
                    == old(self)@.active_param,
    {
        proof {
            if visible_rows > 0 {
                selection_scrolled_into_view(old(self)@, visible_rows as nat);
            }
        }
        let visible = visible_rows as usize;
        let offset = self.offset_for(visible);
        self.scroll_offset = offset;
        let width = self.key_column_width();
        let end = if visible < self.params.len() - offset {
            offset + visible
        } else {
            self.params.len()
        };
        let ghost ps = params_view(self.params@);
        let ghost dialog = self@;
        let mut rows: Vec<ParamRow> = Vec::new();
        for i in offset..end
            invariant
                dialog == self@,
                ps == params_view(self.params@),
                ps == dialog.params,
                dialog.wf(),
                dialog.scroll_offset == offset,
                end <= ps.len(),
                width == key_column(ps),
                rows@.len() == i - offset,
                forall|k: int|
                    offset <= k < end && utf8_len(#[trigger] ps[k].0) > width ==> is_char_boundary(
                        encode_utf8(ps[k].0),
                        sat_sub(width as int, 1) as int,
                    ),
                forall|j: int|
                    0 <= j < rows@.len() ==> shows_param(
                        #[trigger] rows@[j],
                        dialog,
                        offset + j,
                        width as nat,
                    ),
        {
            assert(utf8_len(ps[i as int].0) > width ==> is_char_boundary(
                encode_utf8(ps[i as int].0),
                sat_sub(width as int, 1) as int,
            ));
            let row = self.param_row(i, width);
            rows.push(row);
        }
        proof {
            if visible > 0 {
                assert(offset <= self.active_param < offset + visible);
                assert(self.active_param < ps.len());
                assert(rows@.len() == end - offset);
                let j = self.active_param - offset;
                assert(0 <= j < rows@.len());
                assert(shows_param(rows@[j as int], dialog, offset + j, width as nat));
                assert(rows@[j as int].index == old(self)@.active_param);
                assert(exists|k: int|
                    0 <= k < rows@.len() && (#[trigger] rows@[k]).index == old(self)@.active_param);
            }
        }
        let btn_focus = self.focus == FocusZone::Buttons;
        let yes = self.selected_button.is_yes();
        let layout = ParamsLayout {
            rows,
            yes_highlighted: btn_focus && yes,
            no_highlighted: btn_focus && !yes,
        };
        assert(layout.rows@ == rows@);
        layout
    }

    /// The row that shows the `i`th parameter with a name column `width`
    /// wide.
    fn param_row(&self, i: usize, width: usize) -> (row: ParamRow)
        requires
            self@.wf(),
            i < self@.params.len(),
            utf8_len(self@.params[i as int].0) > width ==> is_char_boundary(
                encode_utf8(self@.params[i as int].0),
                sat_sub(width as int, 1) as int,
            ),
        ensures
            shows_param(row, self@, i as int, width as nat),
    {
        let key = &self.params[i].0;
        let value = &self.params[i].1;
        assert(self@.params[i as int] == (key@, value@));
        let label = label_key(key, width);
        let active = i == self.active_param && self.focus == FocusZone::Params;
        let shown = if active && self.editing {
            let chars = chars_of(value.as_str());
            let c = if self.cursor_pos < chars.len() {
                self.cursor_pos
            } else {
                chars.len()
            };
            let before = string_of_range(chars.as_slice(), 0, c);
            assert(chars@.subrange(0, c as int) == value@.take(c as int));
            if c < chars.len() {
                let rest = string_of_range(chars.as_slice(), c + 1, chars.len());
                assert(chars@.subrange(c + 1, chars@.len() as int) == value@.skip(c + 1));
                ValueDisplay::Editing { before, cursor: chars[c], rest }
            } else {
                ValueDisplay::Editing { before, cursor: ' ', rest: String::new() }
            }
        } else {
            ValueDisplay::Plain(value.clone())
        };
        ParamRow { index: i, key: label, active, value: shown }
    }

    /// Whether Yes is highlighted in the dialog for a DAG without
    /// parameters (else No is).
    pub fn yes_selected(&self) -> (yes: bool)
        ensures
            yes == (self@.selected_button == SelectedButton::Yes),
    {
        self.selected_button.is_yes()
    }

    /// The DAG's parameters as (name, value text) pairs.
    pub fn params(&self) -> (p: &Vec<(String, String)>)
        ensures
            params_view(p@) == self@.params,
    {
        &self.params
    }
}

/// Typing a character while editing and then pressing Backspace gives back
/// the value and the cursor as they were (for a value that can grow by a
/// character at all).
pub proof fn backspace_undoes_typing(d: TriggerView, c: char)
    requires
        d.wf(),
        d.editing,
        d.active_value().len() < usize::MAX,
    ensures
        d.editing_step(KeyCode::Char(c)).editing_step(KeyCode::Backspace) == d,
{
    let v = d.active_value();
    let k = d.cursor as int;
    let typed = v.take(k) + seq![c] + v.skip(k);
    assert(typed.take(k) + typed.skip(k + 1) =~= v);
    let once = d.editing_step(KeyCode::Char(c));
    assert(once.active_value() == typed);
    assert(once.active_value().take(k) + once.active_value().skip(k + 1) == v);
    assert(once.cursor == k + 1);
    let a = d.active_param as int;
    let back = once.editing_step(KeyCode::Backspace);
    assert(back.params == once.params.update(a, (once.params[a].0, v)));
    assert(once.params[a].0 == d.params[a].0);
    assert(back.params[a] == d.params[a]);
    assert(back.params =~= d.params);
    assert(once.editing_step(KeyCode::Backspace) =~~= d);
}

/// Moving the cursor left and then right inside a value puts it back.
pub proof fn left_then_right_returns(d: TriggerView)
    requires
        d.wf(),
        d.editing,
        d.cursor > 0,
    ensures
        d.editing_step(KeyCode::Left).editing_step(KeyCode::Right) == d,
{
    assert(d.editing_step(KeyCode::Left).editing_step(KeyCode::Right) =~= d);
}

/// Tab pressed twice gives the focus back where it was.
pub proof fn tab_twice_returns(d: TriggerView, key: KeyEvent)
    requires
        !d.editing,
        key.code == KeyCode::Tab,
    ensures
        d.params_step(key).0.params_step(key).0 == d,
{
    assert(d.params_step(key).0.params_step(key).0 =~= d);
}

/// Only Enter asks for a run: with Yes selected, and, in the dialog with
/// parameters, with the focus on the buttons and no value being edited.
/// The key is then passed on, so that the parent closes the dialog.
pub proof fn run_needs_enter_on_yes(d: TriggerView, event: FlowrsEvent)
    ensures
        d.step(event).2 is Trigger ==> {
            &&& event matches FlowrsEvent::Key(k) && k.code == KeyCode::Enter
            &&& d.selected_button == SelectedButton::Yes
            &&& d.has_params() ==> d.focus == FocusZone::Buttons && !d.editing
            &&& d.step(event).1 == Some(event)
        },
{
}

/// Esc (and, outside an edit, `q`) is passed on without a run, so that the
/// parent closes the dialog with nothing triggered.
pub proof fn escape_closes_without_run(d: TriggerView, key: KeyEvent)
    requires
        key.code == KeyCode::Esc || key.code == KeyCode::Char('q'),
        !d.editing,
    ensures
        d.step(FlowrsEvent::Key(key)).1 == Some(FlowrsEvent::Key(key)),
        d.step(FlowrsEvent::Key(key)).2 is Nothing,
        d.step(FlowrsEvent::Key(key)).0 == d,
{
}

/// Every event keeps the dialog well formed: the selected parameter stays
/// in the list and an edit's cursor within its value.
pub proof fn step_keeps_wf(d: TriggerView, event: FlowrsEvent)
    requires
        d.wf(),
    ensures
        d.step(event).0.wf(),
        d.step(event).0.params.len() == d.params.len(),
        d.step(event).0.dag_id == d.dag_id,
{
}

/// Laying out the list brings the selected parameter on screen: in a list
/// of at least one row, the selected parameter is at or after the first row
/// shown and before the row past the last. The list does not move where the
/// selection is already on screen; scrolling down leaves the selection on
/// the last row, and scrolling up on the first.
pub proof fn selection_scrolled_into_view(d: TriggerView, visible: nat)
    requires
        d.wf(),
        d.has_params(),
        visible > 0,
    ensures
        d.offset_for(visible) <= d.active_param < d.offset_for(visible) + visible,
        d.scroll_offset <= d.active_param < d.scroll_offset + visible ==> d.offset_for(visible)
            == d.scroll_offset,
        d.active_param >= d.scroll_offset + visible ==> d.offset_for(visible) + visible
            == d.active_param + 1,
        d.active_param < d.scroll_offset ==> d.offset_for(visible) == d.active_param,
{
}

/// Outside an edit and with the focus on the list, `j` and Down select the
/// next parameter, staying on the last one; `k` and Up select the previous
/// one, staying on the first. Nothing else changes. (The list is no longer
/// than a `usize` can count, as a vector's is.)
pub proof fn selection_moves_by_one(d: TriggerView, key: KeyEvent)
    requires
        d.wf(),
        d.params.len() <= usize::MAX,
        d.has_params(),
        !d.editing,
        d.focus == FocusZone::Params,
    ensures
        (key.code == KeyCode::Char('j') || key.code == KeyCode::Down) ==> {
            &&& d.active_param + 1 < d.params.len() ==> d.step(FlowrsEvent::Key(key)).0.active_param
                == d.active_param + 1
            &&& d.active_param + 1 == d.params.len() ==> d.step(
                FlowrsEvent::Key(key),
            ).0.active_param == d.active_param
            &&& d.step(FlowrsEvent::Key(key)).0 == (TriggerView {
                active_param: d.step(FlowrsEvent::Key(key)).0.active_param,
                ..d
            })
        },
        (key.code == KeyCode::Char('k') || key.code == KeyCode::Up) ==> {
            &&& d.active_param > 0 ==> d.step(FlowrsEvent::Key(key)).0.active_param + 1
                == d.active_param
            &&& d.active_param == 0 ==> d.step(FlowrsEvent::Key(key)).0.active_param == 0
            &&& d.step(FlowrsEvent::Key(key)).0 == (TriggerView {
                active_param: d.step(FlowrsEvent::Key(key)).0.active_param,
                ..d
            })
        },
{
}

/// Typing a character while editing puts it at the cursor: the value grows
/// by one, the characters before the cursor stay, the typed one follows
/// them, the rest come after it, and the cursor moves past it.
pub proof fn typing_inserts_at_cursor(d: TriggerView, c: char)
    requires
        d.wf(),
        d.editing,
        d.active_value().len() < usize::MAX,
    ensures
        ({
            let after = d.editing_step(KeyCode::Char(c));
            let v = d.active_value();
            let w = after.active_value();
            &&& w.len() == v.len() + 1
            &&& forall|i: int| 0 <= i < d.cursor ==> w[i] == v[i]
            &&& w[d.cursor as int] == c
            &&& forall|i: int| d.cursor <= i < v.len() ==> w[i + 1] == v[i]
            &&& after.cursor == d.cursor + 1
            &&& after.params.len() == d.params.len()
            &&& forall|i: int|
                0 <= i < d.params.len() && i != d.active_param ==> after.params[i] == d.params[i]
        }),
{
}

} // verus!
