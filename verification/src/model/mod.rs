//! The typed records mirroring the API's JSON schema, one module per
//! resource group, plus the reference primitives they all share.

pub mod berries;
pub mod contests;
pub mod encounters;
pub mod evolution;
pub mod games;
pub mod items;
pub mod locations;
pub mod machines;
pub mod moves;
pub mod pokemon;
pub mod resource;
pub mod utility;
