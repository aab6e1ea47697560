//! Machine facts laid out as a dependency graph of boxes and ports, and the
//! state machine of the dashboard that shows them.

pub mod kind;
pub mod graph;
pub mod graph_laws;
pub mod text;
pub mod facts;
pub mod process;
pub mod logos;
pub mod app_state;
pub mod model;
