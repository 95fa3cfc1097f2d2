//! Decision logic of a competition robot's controller, verified with Verus:
//! recognition of the exit key, the supervisor of the control program, the
//! link to the vision pipeline, AprilTag detection on grayscale buffers, and
//! a state machine whose states each have start, execute, next and end hooks.

pub mod detector;
pub mod keys;
pub mod sm;
pub mod supervisor;
pub mod vision_link;
