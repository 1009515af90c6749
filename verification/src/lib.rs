//! A reference-counted arena for interning and deduplicating data.

pub mod collection;
mod config;
pub mod identity;
mod internal;
pub mod laws;

pub use collection::any_ref::{AnyRef, ItemPtr};
pub use collection::arena::Arena;
pub use collection::reference::Ref;
pub use config::ArenaConfig;
pub use identity::{Identified, Identity, SelfKeyed};
pub use collection::strong::Strong;
pub use collection::weak::Weak;
pub use collection::entry::{Entry, EntryOccupied, EntryVacant};
pub use collection::iter::ArenaIter;
pub use collection::secondary::{SecondaryMap, SecondarySet};
pub use internal::index::TABLE_LIMIT;
pub use internal::token::weak_handles;
