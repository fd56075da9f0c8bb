//! An in-process test harness: a registry of test functions grouped by module
//! path, optional hooks around each test, and an engine that runs every
//! registered test in a fixed order and reports what each one did.
//!
//! - `registry`: registration, modules kept in ascending path order.
//! - `hooks`: the three optional hook slots.
//! - `engine`: the run over a registry, the events it owes each test, and how a
//!   report of the invoker becomes a test's outcome.
//! - `model`: test records and results, and the detaching copy of a result.
//! - `duration`: elapsed time and its rendering.
//! - `order`: the order of module paths.
pub mod duration;
pub mod engine;
pub mod hooks;
pub mod model;
pub mod order;
pub mod registry;
