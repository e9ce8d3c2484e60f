//! The data records of the upstream API, as plain verified types.
//!
//! These are flat transfer shapes: integer ids, text, booleans, and the
//! occasional untyped JSON field.  Numeric fields that upstream serves as
//! floating-point are carried as their decimal text, since the verified core
//! holds no floating point.

pub mod bootstrap_static;
pub mod classic_league;
pub mod fixture;
pub mod gameweek;
pub mod h2h_league;
pub mod json;
pub mod league;
pub mod transfer;
pub mod user;
pub mod user_picks;
