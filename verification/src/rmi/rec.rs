//! The execution context of a realm's virtual CPU, as the host describes it.

pub mod params;
