//! Decision logic of a sliding-panel desktop launcher: the panel table, the
//! open/close state machines of the panels, the edge hover trigger, the web
//! panel controller and the bookkeeping of its embedded web view.
pub mod panel;
pub mod side_panel;
pub mod trigger;
pub mod webview;
pub mod web_panel;
