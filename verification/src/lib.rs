//! Composable message routing for host-dispatched handler modules.
//!
//! A contract process hosts several independent modules, each exposing the
//! three operations `instantiate`, `execute` and `query`. The [`Manager`]
//! (see [`manager`]) keeps a registry from module name to module handle and
//! routes an inbound request envelope `{ "<name>": <payload> }` to the module
//! registered under `<name>`. The [`module`] layer adapts a strongly typed
//! module into the uniform untyped interface the manager dispatches through,
//! and the [`response`] layer collects the side effects of several modules
//! into one combined outbound response during multi-module instantiation.
//!
//! [`Manager`]: manager::Manager

pub mod error;
pub mod host;
pub mod json;
pub mod manager;
pub mod module;
pub mod response;
