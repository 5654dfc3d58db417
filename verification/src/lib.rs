//! An identity-delegation gate. An account owner, known by its address or
//! only by a name, puts a delegate address on file, and commands sent by
//! that delegate are accepted on the owner's behalf.
//!
//! - `identity`, `record`, `errors`: the values.
//! - `model`: the registry as three mathematical maps, and what each
//!   operation does to them. Every contract is written over it.
//! - `registry`: the registry itself. `gate`: the authorization check.
//! - `ping_service`, `query_service`, `signless_service`: the calls that
//!   the program serves. `program`: the owner of the state.
//! - `laws`: what holds of all of it, proved.

pub mod errors;
pub mod gate;
pub mod identity;
pub mod laws;
pub mod model;
pub mod ping_service;
pub mod program;
pub mod query_service;
pub mod record;
pub mod registry;
pub mod signless_service;
mod tables;
