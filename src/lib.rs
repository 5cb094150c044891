//! World model and command engine of a text adventure: entities linked by
//! containment, a reachability classifier, label resolution, command
//! handlers and the conversion between the runtime graph and its
//! label-addressed save form.
pub mod text;
pub mod world;
pub mod command;
pub mod actions;
pub mod codec;
pub mod laws;
