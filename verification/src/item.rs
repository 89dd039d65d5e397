//! Item stacks and the read-only item catalog.
//!
//! An item identity is an index into the catalog; the catalog also carries
//! each item's namespaced name and its per-item stack bound.

use vstd::prelude::*;
use crate::{Item, DEFAULT_STACK_MAX};

verus! {

/// A count-bearing instance of one item type, with an optional damage value.
#[derive(Clone, Copy, Debug, PartialEq, Eq, Structural)]
pub struct ItemStack {
    pub item: Item,
    pub count: u32,
    pub damage: Option<u32>,
}

impl ItemStack {
    /// A fresh stack of `count` items with no damage set.
    pub fn new(item: Item, count: u32) -> (r: ItemStack)
        ensures
            r == (ItemStack { item, count, damage: None }),
    {
        ItemStack { item, count, damage: None }
    }
}

/// One catalog entry: the item's namespaced name and its stack bound.
pub struct ItemDef {
    pub name: String,
    pub max_stack: u32,
}

/// The read-only item catalog. Item identity is the index into `defs`.
pub struct ItemCatalog {
    pub defs: Vec<ItemDef>,
}

/// First index at or after `i` whose entry is named `name`, or `None`.
pub open spec fn resolve_at(defs: Seq<ItemDef>, name: Seq<char>, i: int) -> Option<int>
    decreases defs.len() - i,
{
    if i < 0 || i >= defs.len() {
        None
    } else if defs[i].name@ == name {
        Some(i)
    } else {
        resolve_at(defs, name, i + 1)
    }
}

impl ItemCatalog {
    /// Item identities are `u32`, so a catalog may not outgrow them.
    pub open spec fn wf(self) -> bool {
        self.defs.len() <= u32::MAX
    }

    pub open spec fn contains_item(self, item: Item) -> bool {
        (item as int) < self.defs.len()
    }

    /// The stack bound of `item`; items the catalog does not list get the
    /// default bound.
    pub open spec fn spec_max_stack(self, item: Item) -> u32 {
        if self.contains_item(item) {
            self.defs[item as int].max_stack
        } else {
            DEFAULT_STACK_MAX
        }
    }

    /// First catalog index carrying `name`, if any.
    pub open spec fn spec_resolve(self, name: Seq<char>) -> Option<int> {
        resolve_at(self.defs@, name, 0)
    }

    pub fn new() -> (r: ItemCatalog)
        ensures
            r.defs@.len() == 0,
            r.wf(),
    {
        ItemCatalog { defs: Vec::new() }
    }

    /// Appends an item definition and returns the identity it was given.
    pub fn add_item(&mut self, name: String, max_stack: u32) -> (id: Item)
        requires
            old(self).defs.len() < u32::MAX,
        ensures
            final(self).defs@ == old(self).defs@.push(ItemDef { name, max_stack }),
            id as int == old(self).defs@.len(),
            final(self).wf(),
    {
        let id = self.defs.len() as u32;
        self.defs.push(ItemDef { name, max_stack });
        id
    }

    pub fn max_stack(&self, item: Item) -> (r: u32)
        ensures
            r == self.spec_max_stack(item),
    {
        if (item as usize) < self.defs.len() {
            self.defs[item as usize].max_stack
        } else {
            DEFAULT_STACK_MAX
        }
    }

    /// Resolves a namespaced item name to its identity: the first catalog
    /// entry with that name, or `None` when the catalog does not know it.
    pub fn resolve(&self, name: &String) -> (r: Option<Item>)
        requires
            self.wf(),
        ensures
            match r {
                Some(id) => self.spec_resolve(name@) == Some(id as int),
                None => self.spec_resolve(name@) is None,
            },
    {
        let mut i: usize = 0;
        while i < self.defs.len()
            invariant
                0 <= i <= self.defs@.len(),
                self.defs@.len() <= u32::MAX,
                resolve_at(self.defs@, name@, 0) == resolve_at(self.defs@, name@, i as int),
            decreases self.defs@.len() - i,
        {
            if self.defs[i].name == *name {
                return Some(i as u32);
            }
            i = i + 1;
        }
        None
    }
}

} // verus!
