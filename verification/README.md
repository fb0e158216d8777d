# flowrs_model

Verified view models of a terminal client for Apache Airflow, written in
Verus.

- `src/logs.rs`: the log viewer. Scroll modes (following the bottom or held
  at an offset), the visual row count of wrapped log text, key and tick
  handling as a transition function, and the layout step before drawing.
- `src/trigger.rs`: the dialog that triggers a DAG run, with parameter
  editing (a cursor within each value), the run configuration it sends, and
  the layout of the parameter list.
- `src/rendered_fields.rs`: a task instance's rendered fields laid out as
  styled lines, and scrolling through them.
- `src/json.rs`: JSON values as the views read them, their compact text,
  and parameter defaults.
- `src/text.rs`: line splitting, string building and display widths.
- `src/event.rs`: keys, events, the navigation context and worker messages.

`app/` holds what stays outside verification: converting terminal events
and serde_json values, checking the library's preconditions before calling
it, and drawing with ratatui. `tests/` exercises the library.
