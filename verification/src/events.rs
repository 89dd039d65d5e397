//! Events raised when a tracked value changes or an item leaves a window.

use vstd::prelude::*;

verus! {

/// Raised when an entity starts or stops creative flight.
#[derive(Debug, Clone, Copy, PartialEq, Eq, Structural)]
pub struct CreativeFlyingEvent {
    pub is_flying: bool,
}

impl CreativeFlyingEvent {
    pub fn new(changed_to: bool) -> (r: Self)
        ensures
            r.is_flying == changed_to,
    {
        Self { is_flying: changed_to }
    }
}

/// Raised when an entity starts or stops sneaking.
#[derive(Debug, Clone, Copy, PartialEq, Eq, Structural)]
pub struct SneakEvent {
    pub is_sneaking: bool,
}

impl SneakEvent {
    pub fn new(changed_to: bool) -> (r: Self)
        ensures
            r.is_sneaking == changed_to,
    {
        Self { is_sneaking: changed_to }
    }
}

/// Raised when an entity starts or stops sprinting.
#[derive(Debug, Clone, Copy, PartialEq, Eq, Structural)]
pub struct SprintEvent {
    pub is_sprinting: bool,
}

impl SprintEvent {
    pub fn new(changed_to: bool) -> (r: Self)
        ensures
            r.is_sprinting == changed_to,
    {
        Self { is_sprinting: changed_to }
    }
}

/// Raised when an item stack is dropped out of a window; carries the
/// item's numeric identity.
#[derive(Debug, Clone, Copy, PartialEq, Eq, Structural)]
pub struct DropItemEvent {
    pub item: u32,
}

impl DropItemEvent {
    pub fn new(item: u32) -> (r: Self)
        ensures
            r.item == item,
    {
        Self { item }
    }
}

} // verus!
