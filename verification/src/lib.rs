//! Discovery and lifecycle notification for a watched class of device nodes.
//!
//! The crate models a monitor that reconciles the devices already present at
//! startup with those that appear or disappear afterwards, and republishes
//! both as one ordered stream of [`event::Event`] values. The verified core
//! is the decision logic: translating raw platform notifications, turning a
//! directory listing into startup events, and the task state machine that an
//! unverified driver loop advances one observation at a time.

pub mod event;
pub mod task;

