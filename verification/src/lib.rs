//! A data-driven crafting-recipe matching engine together with the
//! inventory-window interaction state machine that applies click and drag
//! gestures to slot contents.
//!
//! Recipes are classified from JSON-like descriptor documents into a
//! per-kind registry that answers first-match queries; a `Window` holds
//! slot storage, a cursor stack and an optional multi-slot paint session;
//! a dispatcher routes inbound gestures to window operations and assembles
//! the outbound confirmation messages.

use vstd::prelude::*;

pub mod item;
pub mod tags;
pub mod ingredient;
pub mod window;
pub mod events;
pub mod counters;
pub mod dispatch;
pub mod recipe;
pub mod registry;
pub mod json;
pub mod parse;

verus! {

/// An item identity: an index into the `ItemCatalog` it was resolved from.
pub type Item = u32;

/// The default per-item stack bound used for items the catalog does not list.
pub const DEFAULT_STACK_MAX: u32 = 64;

/// Why a registry load failed: unreadable input, or a descriptor that
/// does not parse. Either aborts the whole load; no partial registry is
/// ever published.
#[derive(Debug, Clone, Copy, PartialEq, Eq, Structural)]
pub enum RecipeLoadError {
    Io,
    Parse,
}

} // verus!
