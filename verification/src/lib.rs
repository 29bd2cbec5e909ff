//! Hands the line being edited in an interactive line editor to an external
//! text editor and decides which single buffer command brings the edited text
//! back into the line.
//!
//! The crate owns the decisions only. Running the external program and
//! touching the scratch file are left to the caller, which feeds what happened
//! back in as plain values.

pub mod command;
pub mod launcher;
pub mod primitive;
pub mod scratch;
pub mod session;
pub mod text;

pub use command::EditorCommand;
pub use launcher::EditorLauncher;
pub use primitive::BufferPrimitive;
pub use session::{EditorError, ExitReport, SessionAction, SessionEvent, SessionPhase};
