//! A host automation engine: rules wire triggers to a condition, an action
//! and a failure action; the library holds the verified decisions, the
//! blackboard of shared variables and the native callback registry.
pub mod macos_bindings;
pub mod error;
pub mod position;
pub mod state;
pub mod section;
pub mod shell;
pub mod power;
pub mod device;
pub mod timer;
pub mod sytter;
pub mod event;
