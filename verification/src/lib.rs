//! Per-tab and per-pane input modes for a terminal multiplexer plugin.
//!
//! The crate keeps a store of mode overrides (a default per tab, and
//! exceptions per pane), a snapshot of the tabs and panes that the host last
//! reported, and a cursor over the flattened list of selectable items. Every
//! host event is turned into a new state and, at most, one request to the
//! host.

pub mod mode_state;
pub mod manifest;
pub mod navigation;
pub mod style;
pub mod render;
pub mod state;
