//! A verified model of two small terminal applications built on one
//! render/input loop: a bordered counter widget driven by increment,
//! decrement and quit keys, and a static greeting that waits for a quit
//! key.  The key dispatch, the loop's observable trace and the text of
//! each frame carry proved contracts; ratatui paints the frames, and the
//! binary feeds in the real terminal events.

pub mod app_loop;
pub mod counter;
pub mod event;
pub mod greeting;
pub mod laws;
pub mod render;
