//! The recipe registry: one insertion-ordered collection per kind, served
//! read-only after construction. Load order is match priority: every
//! query scans its kind's list in order and answers with the first match.

use vstd::prelude::*;
use crate::Item;
use crate::item::ItemStack;
use crate::recipe::{
    BlastingRecipe, CampfireRecipe, Recipe, ShapedRecipe, ShapelessRecipe, SmeltingRecipe,
    SmithingRecipe, SmokingRecipe, StonecuttingRecipe,
};
use crate::tags::TagRegistry;

verus! {

/// A registry which contains crafting recipes by kind.
pub struct RecipeRegistry {
    pub blast: Vec<BlastingRecipe>,
    pub camp: Vec<CampfireRecipe>,
    pub shaped: Vec<ShapedRecipe>,
    pub shapeless: Vec<ShapelessRecipe>,
    pub smelt: Vec<SmeltingRecipe>,
    pub smith: Vec<SmithingRecipe>,
    pub smoke: Vec<SmokingRecipe>,
    pub stone: Vec<StonecuttingRecipe>,
}

/// First blasting match at or after `i`.
pub open spec fn blast_scan(rs: Seq<BlastingRecipe>, item: Item, tags: TagRegistry, i: int) -> Option<
    (Item, String),
>
    decreases rs.len() - i,
{
    if i < 0 || i >= rs.len() {
        None
    } else {
        match rs[i].spec_match_self(item, tags) {
            Some(o) => Some(o),
            None => blast_scan(rs, item, tags, i + 1),
        }
    }
}

/// First campfire match at or after `i`.
pub open spec fn camp_scan(rs: Seq<CampfireRecipe>, item: Item, tags: TagRegistry, i: int) -> Option<
    (Item, String),
>
    decreases rs.len() - i,
{
    if i < 0 || i >= rs.len() {
        None
    } else {
        match rs[i].spec_match_self(item, tags) {
            Some(o) => Some(o),
            None => camp_scan(rs, item, tags, i + 1),
        }
    }
}

/// First smelting match at or after `i`.
pub open spec fn smelt_scan(rs: Seq<SmeltingRecipe>, item: Item, tags: TagRegistry, i: int) -> Option<
    (Item, String),
>
    decreases rs.len() - i,
{
    if i < 0 || i >= rs.len() {
        None
    } else {
        match rs[i].spec_match_self(item, tags) {
            Some(o) => Some(o),
            None => smelt_scan(rs, item, tags, i + 1),
        }
    }
}

/// First smoking match at or after `i`.
pub open spec fn smoke_scan(rs: Seq<SmokingRecipe>, item: Item, tags: TagRegistry, i: int) -> Option<
    (Item, String),
>
    decreases rs.len() - i,
{
    if i < 0 || i >= rs.len() {
        None
    } else {
        match rs[i].spec_match_self(item, tags) {
            Some(o) => Some(o),
            None => smoke_scan(rs, item, tags, i + 1),
        }
    }
}

/// First shapeless match at or after `i`.
pub open spec fn shapeless_scan(
    rs: Seq<ShapelessRecipe>,
    items: Seq<Item>,
    tags: TagRegistry,
    i: int,
) -> Option<ItemStack>
    decreases rs.len() - i,
{
    if i < 0 || i >= rs.len() {
        None
    } else {
        match rs[i].spec_match_self(items, tags) {
            Some(o) => Some(o),
            None => shapeless_scan(rs, items, tags, i + 1),
        }
    }
}

/// First smithing match at or after `i`.
pub open spec fn smith_scan(
    rs: Seq<SmithingRecipe>,
    base: Item,
    addition: Item,
    tags: TagRegistry,
    i: int,
) -> Option<Item>
    decreases rs.len() - i,
{
    if i < 0 || i >= rs.len() {
        None
    } else {
        match rs[i].spec_match_self(base, addition, tags) {
            Some(o) => Some(o),
            None => smith_scan(rs, base, addition, tags, i + 1),
        }
    }
}

/// First stonecutting match at or after `i`.
pub open spec fn stone_scan(
    rs: Seq<StonecuttingRecipe>,
    item: Item,
    tags: TagRegistry,
    i: int,
) -> Option<ItemStack>
    decreases rs.len() - i,
{
    if i < 0 || i >= rs.len() {
        None
    } else {
        match rs[i].spec_match_self(item, tags) {
            Some(o) => Some(o),
            None => stone_scan(rs, item, tags, i + 1),
        }
    }
}

/// `r1` is `r0` with the classified recipe appended to its kind's list; a
/// special marker adds nothing.
pub open spec fn spec_added(r0: RecipeRegistry, r1: RecipeRegistry, recipe: Recipe) -> bool {
    &&& r1.blast@ == (match recipe {
        Recipe::Blasting(r) => r0.blast@.push(r),
        _ => r0.blast@,
    })
    &&& r1.camp@ == (match recipe {
        Recipe::Campfire(r) => r0.camp@.push(r),
        _ => r0.camp@,
    })
    &&& r1.shaped@ == (match recipe {
        Recipe::Shaped(r) => r0.shaped@.push(r),
        _ => r0.shaped@,
    })
    &&& r1.shapeless@ == (match recipe {
        Recipe::Shapeless(r) => r0.shapeless@.push(r),
        _ => r0.shapeless@,
    })
    &&& r1.smelt@ == (match recipe {
        Recipe::Smelting(r) => r0.smelt@.push(r),
        _ => r0.smelt@,
    })
    &&& r1.smith@ == (match recipe {
        Recipe::Smithing(r) => r0.smith@.push(r),
        _ => r0.smith@,
    })
    &&& r1.smoke@ == (match recipe {
        Recipe::Smoking(r) => r0.smoke@.push(r),
        _ => r0.smoke@,
    })
    &&& r1.stone@ == (match recipe {
        Recipe::Stonecutting(r) => r0.stone@.push(r),
        _ => r0.stone@,
    })
}

impl RecipeRegistry {
    pub open spec fn is_empty(self) -> bool {
        &&& self.blast@.len() == 0
        &&& self.camp@.len() == 0
        &&& self.shaped@.len() == 0
        &&& self.shapeless@.len() == 0
        &&& self.smelt@.len() == 0
        &&& self.smith@.len() == 0
        &&& self.smoke@.len() == 0
        &&& self.stone@.len() == 0
    }

    pub fn new() -> (r: Self)
        ensures
            r.is_empty(),
    {
        RecipeRegistry {
            blast: Vec::new(),
            camp: Vec::new(),
            shaped: Vec::new(),
            shapeless: Vec::new(),
            smelt: Vec::new(),
            smith: Vec::new(),
            smoke: Vec::new(),
            stone: Vec::new(),
        }
    }

    /// Stores one classified recipe in its kind's list, preserving
    /// insertion order; a special marker is recognized but not stored.
    pub fn add_recipe(&mut self, recipe: Recipe)
        ensures
            spec_added(*old(self), *final(self), recipe),
    {
        match recipe {
            Recipe::Blasting(r) => self.blast.push(r),
            Recipe::Campfire(r) => self.camp.push(r),
            Recipe::Shaped(r) => self.shaped.push(r),
            Recipe::Shapeless(r) => self.shapeless.push(r),
            Recipe::Smelting(r) => self.smelt.push(r),
            Recipe::Smithing(r) => self.smith.push(r),
            Recipe::Smoking(r) => self.smoke.push(r),
            Recipe::Stonecutting(r) => self.stone.push(r),
            Recipe::Special(_) => {},
        }
    }

    /// The first blasting recipe accepting the item, in load order.
    pub fn match_blasting(&self, item: Item, tag_registry: &TagRegistry) -> (r: Option<
        (Item, String),
    >)
        ensures
            r == blast_scan(self.blast@, item, *tag_registry, 0),
    {
        let mut i: usize = 0;
        while i < self.blast.len()
            invariant
                0 <= i <= self.blast@.len(),
                blast_scan(self.blast@, item, *tag_registry, 0) == blast_scan(
                    self.blast@,
                    item,
                    *tag_registry,
                    i as int,
                ),
            decreases self.blast@.len() - i,
        {
            match self.blast[i].match_self(item, tag_registry) {
                Some(o) => {
                    return Some(o);
                },
                None => {},
            }
            i = i + 1;
        }
        None
    }

    /// The first campfire recipe accepting the item, in load order.
    pub fn match_campfire_cooking(&self, item: Item, tag_registry: &TagRegistry) -> (r: Option<
        (Item, String),
    >)
        ensures
            r == camp_scan(self.camp@, item, *tag_registry, 0),
    {
        let mut i: usize = 0;
        while i < self.camp.len()
            invariant
                0 <= i <= self.camp@.len(),
                camp_scan(self.camp@, item, *tag_registry, 0) == camp_scan(
                    self.camp@,
                    item,
                    *tag_registry,
                    i as int,
                ),
            decreases self.camp@.len() - i,
        {
            match self.camp[i].match_self(item, tag_registry) {
                Some(o) => {
                    return Some(o);
                },
                None => {},
            }
            i = i + 1;
        }
        None
    }

    /// The first smelting recipe accepting the item, in load order.
    pub fn match_smelting(&self, item: Item, tag_registry: &TagRegistry) -> (r: Option<
        (Item, String),
    >)
        ensures
            r == smelt_scan(self.smelt@, item, *tag_registry, 0),
    {
        let mut i: usize = 0;
        while i < self.smelt.len()
            invariant
                0 <= i <= self.smelt@.len(),
                smelt_scan(self.smelt@, item, *tag_registry, 0) == smelt_scan(
                    self.smelt@,
                    item,
                    *tag_registry,
                    i as int,
                ),
            decreases self.smelt@.len() - i,
        {
            match self.smelt[i].match_self(item, tag_registry) {
                Some(o) => {
                    return Some(o);
                },
                None => {},
            }
            i = i + 1;
        }
        None
    }

    /// The first smoking recipe accepting the item, in load order.
    pub fn match_smoking(&self, item: Item, tag_registry: &TagRegistry) -> (r: Option<
        (Item, String),
    >)
        ensures
            r == smoke_scan(self.smoke@, item, *tag_registry, 0),
    {
        let mut i: usize = 0;
        while i < self.smoke.len()
            invariant
                0 <= i <= self.smoke@.len(),
                smoke_scan(self.smoke@, item, *tag_registry, 0) == smoke_scan(
                    self.smoke@,
                    item,
                    *tag_registry,
                    i as int,
                ),
            decreases self.smoke@.len() - i,
        {
            match self.smoke[i].match_self(item, tag_registry) {
                Some(o) => {
                    return Some(o);
                },
                None => {},
            }
            i = i + 1;
        }
        None
    }

    /// The first shapeless recipe matching the supplied items, in load
    /// order.
    pub fn match_shapeless(&self, items: &Vec<Item>, tag_registry: &TagRegistry) -> (r: Option<
        ItemStack,
    >)
        ensures
            r == shapeless_scan(self.shapeless@, items@, *tag_registry, 0),
    {
        let mut i: usize = 0;
        while i < self.shapeless.len()
            invariant
                0 <= i <= self.shapeless@.len(),
                shapeless_scan(self.shapeless@, items@, *tag_registry, 0) == shapeless_scan(
                    self.shapeless@,
                    items@,
                    *tag_registry,
                    i as int,
                ),
            decreases self.shapeless@.len() - i,
        {
            match self.shapeless[i].match_self(items, tag_registry) {
                Some(o) => {
                    return Some(o);
                },
                None => {},
            }
            i = i + 1;
        }
        None
    }

    /// The first smithing recipe whose positions both accept their items,
    /// in load order.
    pub fn match_smithing(&self, base: Item, addition: Item, tag_registry: &TagRegistry) -> (r:
        Option<Item>)
        ensures
            r == smith_scan(self.smith@, base, addition, *tag_registry, 0),
    {
        let mut i: usize = 0;
        while i < self.smith.len()
            invariant
                0 <= i <= self.smith@.len(),
                smith_scan(self.smith@, base, addition, *tag_registry, 0) == smith_scan(
                    self.smith@,
                    base,
                    addition,
                    *tag_registry,
                    i as int,
                ),
            decreases self.smith@.len() - i,
        {
            match self.smith[i].match_self(base, addition, tag_registry) {
                Some(o) => {
                    return Some(o);
                },
                None => {},
            }
            i = i + 1;
        }
        None
    }

    /// The first stonecutting recipe accepting the item, in load order.
    pub fn match_stonecutting(&self, item: Item, tag_registry: &TagRegistry) -> (r: Option<
        ItemStack,
    >)
        ensures
            r == stone_scan(self.stone@, item, *tag_registry, 0),
    {
        let mut i: usize = 0;
        while i < self.stone.len()
            invariant
                0 <= i <= self.stone@.len(),
                stone_scan(self.stone@, item, *tag_registry, 0) == stone_scan(
                    self.stone@,
                    item,
                    *tag_registry,
                    i as int,
                ),
            decreases self.stone@.len() - i,
        {
            match self.stone[i].match_self(item, tag_registry) {
                Some(o) => {
                    return Some(o);
                },
                None => {},
            }
            i = i + 1;
        }
        None
    }
}

/// With two smelting recipes whose ingredients both accept the item, the
/// registry answers with the first one's output: load order is match
/// priority.
pub proof fn lemma_first_match_priority(
    r1: SmeltingRecipe,
    r2: SmeltingRecipe,
    item: Item,
    tags: TagRegistry,
)
    requires
        r1.spec_matches(item, tags),
        r2.spec_matches(item, tags),
    ensures
        smelt_scan(seq![r1, r2], item, tags, 0) == Some((r1.result, r1.experience)),
{
    assert(seq![r1, r2][0] == r1);
}

/// A stonecutting answer carries some listed recipe's configured count
/// exactly, and its damage is unset.
pub proof fn lemma_stonecutting_output(
    rs: Seq<StonecuttingRecipe>,
    item: Item,
    tags: TagRegistry,
    i: int,
)
    requires
        stone_scan(rs, item, tags, i) is Some,
    ensures
        (stone_scan(rs, item, tags, i) matches Some(st) && exists|k: int|
            i <= k < rs.len() && rs[k].spec_matches(item, tags) && st == (ItemStack {
                item: rs[k].result,
                count: rs[k].count,
                damage: None,
            })),
    decreases rs.len() - i,
{
    if i < 0 || i >= rs.len() {
    } else if rs[i].spec_match_self(item, tags) is Some {
        assert(rs[i].spec_matches(item, tags));
    } else {
        lemma_stonecutting_output(rs, item, tags, i + 1);
    }
}

} // verus!
