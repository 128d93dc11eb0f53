//! Verified core of a dynamic status bar: timers and transitions, state
//! machines of animated widgets, layout arithmetic and small registries.
pub mod activity;
pub mod config_variable;
pub mod css;
pub mod css_size;
pub mod dynamic_activity;
pub mod easing;
pub mod filters;
pub mod layout;
pub mod module;
pub mod music;
pub mod player;
pub mod scrolling_label;
pub mod text;
pub mod time;
pub mod transition;
pub mod widgets;
