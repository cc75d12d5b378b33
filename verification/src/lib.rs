//! Sirus: the state of a terminal task manager.
//!
//! The crate holds the task store, the selection cursor that walks over it,
//! and the menu of key bindings that are valid in the current state. Drawing
//! and reading the keyboard are left to the program around it.

pub mod actions;
pub mod display;
pub mod keys;
pub mod session;
pub mod tasks;

pub use actions::{Action, ActionPreviewSet};
pub use display::{ProjectDataEditView, TaskRow};
pub use keys::Key;
pub use session::{App, AppEvent, Screen};
pub use tasks::{ProjectData, Task, TaskID};
