//! A registry of kitties: sixteen-byte genomes owned by accounts, created
//! from fresh entropy or bred from two parents of different gender.
//!
//! * [`kitty`] holds the kitty, its gender and the rules of breeding.
//! * [`allocator`] hands out kitty ids.
//! * [`store`] keeps the kitties of all owners.
//! * [`entropy`] supplies the bytes that genomes and selectors are made of.
//! * [`registry`] puts them together: creation, breeding and lookup, each
//!   call all or nothing.
//! * [`laws`] proves what holds of every registry.

pub mod account;
pub mod allocator;
pub mod entropy;
pub mod error;
pub mod kitty;
pub mod laws;
pub mod registry;
pub mod store;

pub use crate::account::AccountId;
pub use crate::error::Error;
pub use crate::kitty::{combine_dna, combine_genomes, Kitty, KittyGender};
pub use crate::registry::{Event, Registry};
