//! Core logic of the OpenCalendar desktop shell: de-duplication of deep-link
//! activations, routing of accepted links to the user interface, the
//! in-memory token store and the window decisions of the tray.

pub mod dedup;
pub mod router;
pub mod shell;
pub mod text;
pub mod tokens;
