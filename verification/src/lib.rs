//! Core engine of a terminal music dashboard: scrollable selection lists
//! with a bounded viewport and marquee animation, and the focus-navigation
//! state machine that routes directional input between panels.
//!
//! Everything that touches the terminal, the playback server or the
//! keyboard lives outside this crate; this crate owns the data structures
//! and the rules.

pub mod app;
pub mod navigation;
pub mod session;
pub mod stateful_list;
pub mod stateful_selected_list;
pub mod text;
