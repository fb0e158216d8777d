//! Verified view models of a terminal client for Apache Airflow: the log
//! viewer's scrolling, the "trigger DAG run" dialog and the rendered-fields
//! viewer. Drawing and terminal input stay with the caller; these types decide.
pub mod event;
pub mod json;
pub mod logs;
pub mod rendered_fields;
pub mod text;
pub mod trigger;
