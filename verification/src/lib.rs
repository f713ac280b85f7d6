use vstd::prelude::*;

pub mod text;
pub mod model;
pub mod parse;
pub mod checks;
pub mod devices;
pub mod recommend;
pub mod commands;
pub mod snapshot;
pub mod diagnostics;
pub mod actions;
pub mod session;
pub mod laws;
pub mod check_laws;
pub mod smoke;

verus! {

} // verus!
