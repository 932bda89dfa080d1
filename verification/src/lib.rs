//! Launch logic for a context server that wraps a search-API process.
//!
//! The crate holds the decision logic of a small editor-extension shim:
//! reconciling an npm package's installed version against the registry's
//! latest (with an in-process cache that makes repeated checks cheap),
//! validating user settings, and composing the exact command line and
//! environment that start the server. All interaction with the host
//! (registry queries, settings lookup, OS paths) happens outside; the
//! functions here take those answers as plain values and are verified.

pub mod command;
pub mod errors;
pub mod installer;
pub mod paths;
pub mod settings;
pub mod text;
