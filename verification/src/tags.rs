//! The tag registry: named sets of item identities, consumed read-only by
//! ingredient matching.

use vstd::prelude::*;
use crate::Item;

verus! {

/// One tag: a namespaced tag name and the items that belong to it.
pub struct TagEntry {
    pub name: String,
    pub items: Vec<Item>,
}

/// A read-only registry of tags.
pub struct TagRegistry {
    pub tags: Vec<TagEntry>,
}

impl TagRegistry {
    /// `item` belongs to some tag named `tag`.
    pub open spec fn spec_check(self, item: Item, tag: Seq<char>) -> bool {
        exists|i: int|
            0 <= i < self.tags@.len() && self.tags@[i].name@ == tag && self.tags@[i].items@.contains(
                item,
            )
    }

    pub fn new() -> (r: TagRegistry)
        ensures
            r.tags@.len() == 0,
    {
        TagRegistry { tags: Vec::new() }
    }

    pub fn insert_tag(&mut self, name: String, items: Vec<Item>)
        ensures
            final(self).tags@ == old(self).tags@.push(TagEntry { name, items }),
    {
        self.tags.push(TagEntry { name, items });
    }

    /// Confirms or denies that `item` belongs to the tag named `tag`.
    pub fn check_item_tag(&self, item: Item, tag: &String) -> (r: bool)
        ensures
            r == self.spec_check(item, tag@),
    {
        let mut i: usize = 0;
        while i < self.tags.len()
            invariant
                0 <= i <= self.tags@.len(),
                forall|k: int|
                    0 <= k < i ==> !(self.tags@[k].name@ == tag@ && self.tags@[k].items@.contains(
                        item,
                    )),
            decreases self.tags@.len() - i,
        {
            let entry = &self.tags[i];
            if entry.name == *tag {
                let mut j: usize = 0;
                while j < entry.items.len()
                    invariant
                        0 <= j <= entry.items@.len(),
                        0 <= i < self.tags@.len(),
                        *entry == self.tags@[i as int],
                        entry.name@ == tag@,
                        forall|k: int| 0 <= k < j ==> entry.items@[k] != item,
                    decreases entry.items@.len() - j,
                {
                    if entry.items[j] == item {
                        proof {
                            assert(self.tags@[i as int].items@.contains(item)) by {
                                assert(self.tags@[i as int].items@[j as int] == item);
                            }
                            assert(self.tags@[i as int].name@ == tag@);
                        }
                        return true;
                    }
                    j = j + 1;
                }
                assert(!entry.items@.contains(item));
            }
            i = i + 1;
        }
        false
    }
}

} // verus!
