//! Cells whose contents are reached through the one live owner of their domain.
//!
//! A domain is a group of cells under one marker, a `u64` that is fixed at compile time:
//! a [`TCellOwner<Q, T>`](TCellOwner) reaches the cells [`TCell<Q, T>`](TCell) and no
//! others. A [`DomainRegistry`] makes at most one owner per marker at a time, and keeps
//! a domain's cells while it has none.
//!
//! The owner holds the values of its domain's cells; a cell names the storage location
//! of one of them, and can be shared freely. Reading a cell takes a shared borrow of the
//! owner and writing one an exclusive borrow, so the borrowing rules are enforced once,
//! on the owner, for every cell that it governs. Several cells can be written at once
//! if they differ, which is checked when the borrows are asked for.
//!
//! What holds across calls is stated and proved in [`laws`].

pub mod cell;
mod disjoint;
pub mod error;
pub mod laws;
pub mod owner;
pub mod registry;

pub use crate::cell::TCell;
pub use crate::error::AliasedBorrowError;
pub use crate::error::DuplicateDomainError;
pub use crate::owner::TCellOwner;
pub use crate::registry::DomainRegistry;
pub use crate::registry::Domains;
