//! Realms and their virtual CPUs.

pub mod context;
pub mod rd;
pub mod registers;
pub mod registry;
pub mod vcpu;
