//! Named groups of launchable applications ("spaces"), kept in a per-user
//! configuration file.
//!
//! `model` holds the data and its mathematical view, `manager` the verified
//! operations over an in-memory configuration, `store` the decisions around
//! locating and loading the configuration file, and `commands` the
//! command-line request types and the decisions each command makes.
use vstd::prelude::*;

pub mod model;
pub mod manager;
pub mod store;
pub mod commands;

verus! {

} // verus!
