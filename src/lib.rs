//! Startup sequence of a desktop shell: which capabilities are attached and in
//! what order, the logging threshold they get, the diagnostic filter that the
//! setup hook publishes, and the records it emits.
//!
//! The library decides; the host application performs. `Startup::step` takes
//! what just happened and answers with what to do next, and the laws in
//! `bootstrap` state what holds of every run of it.

pub mod threshold;
pub mod registry;
pub mod diagnostics;
pub mod bootstrap;
