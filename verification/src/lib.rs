//! Verified widget state machines for terminal user interfaces.
//!
//! The modules hold the state of each widget (lists, tables, trees, selects,
//! autocompletes, inputs, scroll state, scrollbars) together with the
//! decisions that the widgets take on user events. Rendering into a terminal
//! frame is left to the caller.

pub mod autocomplete;
pub mod button;
pub mod calendar;
pub mod checkbox;
pub mod collapsible;
pub mod cumulative;
pub mod date_picker;
pub mod events;
pub mod grid;
pub mod input;
pub mod list;
pub mod list_layout;
pub mod measure;
pub mod number_text;
pub mod numfmt;
pub mod radio;
pub mod scroll;
pub mod scroll_area;
pub mod scrollbar;
pub mod select;
pub mod selection;
pub mod table;
pub mod table_view;
pub mod text_input;
pub mod traits;
pub mod tree;
pub mod tree_nav;
pub mod trigger;
pub mod widget_ids;
