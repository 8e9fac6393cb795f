//! Device-independent layout and hit-testing core: anchor origins, the
//! menu slot arithmetic, and the click engine that picks the topmost element
//! under a pointer and tracks presses across mouse and touch.

pub mod click;
pub mod event_writer;
pub mod menu;
pub mod origin;
pub mod spacing;
