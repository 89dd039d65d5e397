//! The recipe variants: eight match-producing kinds plus the opaque
//! special marker, each pairing ingredient predicates with an output.
//!
//! Experience values play no role in matching and are carried through as
//! the descriptor's exact number text.

use vstd::prelude::*;
use crate::Item;
use crate::ingredient::{
    components_of, spec_component_matches, spec_ingredient_matches, Ingredient, RecipeComponent,
};
use crate::item::ItemStack;
use crate::tags::TagRegistry;

verus! {

/// A furnace-family recipe: blasting, campfire cooking, smelting and
/// smoking share this shape.
#[derive(Debug, Clone, PartialEq, Eq)]
pub struct SmeltingRecipe {
    pub group: Option<String>,
    pub ingredient: Ingredient,
    pub result: Item,
    /// The descriptor's number, kept as its exact text.
    pub experience: String,
    pub cookingtime: u32,
}

#[derive(Debug, Clone, PartialEq, Eq)]
pub struct SmokingRecipe {
    pub group: Option<String>,
    pub ingredient: Ingredient,
    pub result: Item,
    pub experience: String,
    pub cookingtime: u32,
}

#[derive(Debug, Clone, PartialEq, Eq)]
pub struct BlastingRecipe {
    pub group: Option<String>,
    pub ingredient: Ingredient,
    pub result: Item,
    pub experience: String,
    pub cookingtime: u32,
}

#[derive(Debug, Clone, PartialEq, Eq)]
pub struct CampfireRecipe {
    pub group: Option<String>,
    pub ingredient: Ingredient,
    pub result: Item,
    pub experience: String,
    pub cookingtime: u32,
}

/// A shapeless crafting recipe: one ingredient whose components form the
/// working list of alternatives, and a fixed result stack.
#[derive(Debug, Clone, PartialEq, Eq)]
pub struct ShapelessRecipe {
    pub group: Option<String>,
    pub ingredients: Ingredient,
    pub result: ItemStack,
}

/// A shaped crafting recipe: the 3×3 pattern and symbol key are data only;
/// no matching algorithm is defined for them here, deliberately.
#[derive(Debug, Clone, PartialEq, Eq)]
pub struct ShapedRecipe {
    pub group: Option<String>,
    pub pattern: Vec<Vec<Option<char>>>,
    pub key: Vec<(char, Ingredient)>,
    pub result: ItemStack,
}

/// A smithing recipe: a base position and an addition position, each with
/// its own ingredient; only the result stack's item survives a match.
#[derive(Debug, Clone, PartialEq, Eq)]
pub struct SmithingRecipe {
    pub group: Option<String>,
    pub base: Ingredient,
    pub addition: Ingredient,
    pub result: ItemStack,
}

/// A stonecutting recipe: one ingredient and a result item with a
/// configured output count.
#[derive(Debug, Clone, PartialEq, Eq)]
pub struct StonecuttingRecipe {
    pub group: Option<String>,
    pub ingredient: Ingredient,
    pub result: Item,
    pub count: u32,
}

/// One classified crafting descriptor.
#[derive(Debug, Clone, PartialEq, Eq)]
pub enum Recipe {
    Blasting(BlastingRecipe),
    Campfire(CampfireRecipe),
    Shaped(ShapedRecipe),
    Shapeless(ShapelessRecipe),
    Smelting(SmeltingRecipe),
    Smithing(SmithingRecipe),
    Smoking(SmokingRecipe),
    Stonecutting(StonecuttingRecipe),
    /// A recognized special kind: it parses and carries its discriminator,
    /// but produces no registry entry and has no behavior.
    Special(String),
}

pub fn default_smelting_time() -> (r: u32)
    ensures
        r == 200,
{
    200
}

pub fn default_smoking_time() -> (r: u32)
    ensures
        r == 100,
{
    100
}

pub fn default_blasting_time() -> (r: u32)
    ensures
        r == 100,
{
    100
}

pub fn default_campfire_time() -> (r: u32)
    ensures
        r == 100,
{
    100
}

impl SmeltingRecipe {
    pub open spec fn spec_matches(self, item: Item, tags: TagRegistry) -> bool {
        spec_ingredient_matches(self.ingredient, item, tags)
    }

    pub open spec fn spec_match_self(self, item: Item, tags: TagRegistry) -> Option<(Item, String)> {
        if self.spec_matches(item, tags) {
            Some((self.result, self.experience))
        } else {
            None
        }
    }

    pub fn matches(&self, item: Item, tag_registry: &TagRegistry) -> (r: bool)
        ensures
            r == self.spec_matches(item, *tag_registry),
    {
        self.ingredient.matches(item, tag_registry)
    }

    /// The recipe's output and experience when the ingredient accepts the
    /// item, and nothing otherwise.
    pub fn match_self(&self, item: Item, tag_registry: &TagRegistry) -> (r: Option<(Item, String)>)
        ensures
            r == self.spec_match_self(item, *tag_registry),
    {
        if self.matches(item, tag_registry) {
            Some((self.result, self.experience.clone()))
        } else {
            None
        }
    }
}

impl SmokingRecipe {
    pub open spec fn spec_matches(self, item: Item, tags: TagRegistry) -> bool {
        spec_ingredient_matches(self.ingredient, item, tags)
    }

    pub open spec fn spec_match_self(self, item: Item, tags: TagRegistry) -> Option<(Item, String)> {
        if self.spec_matches(item, tags) {
            Some((self.result, self.experience))
        } else {
            None
        }
    }

    pub fn matches(&self, item: Item, tag_registry: &TagRegistry) -> (r: bool)
        ensures
            r == self.spec_matches(item, *tag_registry),
    {
        self.ingredient.matches(item, tag_registry)
    }

    pub fn match_self(&self, item: Item, tag_registry: &TagRegistry) -> (r: Option<(Item, String)>)
        ensures
            r == self.spec_match_self(item, *tag_registry),
    {
        if self.matches(item, tag_registry) {
            Some((self.result, self.experience.clone()))
        } else {
            None
        }
    }
}

impl BlastingRecipe {
    pub open spec fn spec_matches(self, item: Item, tags: TagRegistry) -> bool {
        spec_ingredient_matches(self.ingredient, item, tags)
    }

    pub open spec fn spec_match_self(self, item: Item, tags: TagRegistry) -> Option<(Item, String)> {
        if self.spec_matches(item, tags) {
            Some((self.result, self.experience))
        } else {
            None
        }
    }

    pub fn matches(&self, item: Item, tag_registry: &TagRegistry) -> (r: bool)
        ensures
            r == self.spec_matches(item, *tag_registry),
    {
        self.ingredient.matches(item, tag_registry)
    }

    pub fn match_self(&self, item: Item, tag_registry: &TagRegistry) -> (r: Option<(Item, String)>)
        ensures
            r == self.spec_match_self(item, *tag_registry),
    {
        if self.matches(item, tag_registry) {
            Some((self.result, self.experience.clone()))
        } else {
            None
        }
    }
}

impl CampfireRecipe {
    pub open spec fn spec_matches(self, item: Item, tags: TagRegistry) -> bool {
        spec_ingredient_matches(self.ingredient, item, tags)
    }

    pub open spec fn spec_match_self(self, item: Item, tags: TagRegistry) -> Option<(Item, String)> {
        if self.spec_matches(item, tags) {
            Some((self.result, self.experience))
        } else {
            None
        }
    }

    pub fn matches(&self, item: Item, tag_registry: &TagRegistry) -> (r: bool)
        ensures
            r == self.spec_matches(item, *tag_registry),
    {
        self.ingredient.matches(item, tag_registry)
    }

    pub fn match_self(&self, item: Item, tag_registry: &TagRegistry) -> (r: Option<(Item, String)>)
        ensures
            r == self.spec_match_self(item, *tag_registry),
    {
        if self.matches(item, tag_registry) {
            Some((self.result, self.experience.clone()))
        } else {
            None
        }
    }
}

/// First index at or after `i` of an alternative that the item satisfies.
pub open spec fn first_alt_at(
    alts: Seq<RecipeComponent>,
    item: Item,
    tags: TagRegistry,
    i: int,
) -> Option<int>
    decreases alts.len() - i,
{
    if i < 0 || i >= alts.len() {
        None
    } else if spec_component_matches(alts[i], item, tags) {
        Some(i)
    } else {
        first_alt_at(alts, item, tags, i + 1)
    }
}

/// The shapeless consume loop: each supplied item removes the first
/// alternative it satisfies; an item that satisfies none fails the match;
/// alternatives left unconsumed at the end are tolerated.
pub open spec fn shapeless_consume(
    alts: Seq<RecipeComponent>,
    items: Seq<Item>,
    tags: TagRegistry,
) -> bool
    decreases items.len(),
{
    if items.len() == 0 {
        true
    } else {
        match first_alt_at(alts, items[0], tags, 0) {
            None => false,
            Some(idx) => shapeless_consume(alts.remove(idx), items.drop_first(), tags),
        }
    }
}

/// A verified copy of one component, field for field.
fn copy_component(c: &RecipeComponent) -> (r: RecipeComponent)
    ensures
        r == *c,
{
    RecipeComponent {
        item: match &c.item {
            Some(i) => Some(*i),
            None => None,
        },
        tag: match &c.tag {
            Some(t) => Some(t.clone()),
            None => None,
        },
    }
}

/// First index in the working list of an alternative the item satisfies.
fn find_first_alt(alts: &Vec<RecipeComponent>, item: Item, tag_registry: &TagRegistry) -> (r:
    Option<usize>)
    ensures
        match r {
            Some(i) => first_alt_at(alts@, item, *tag_registry, 0) == Some(i as int) && (i as int)
                < alts@.len(),
            None => first_alt_at(alts@, item, *tag_registry, 0) is None,
        },
{
    let mut i: usize = 0;
    while i < alts.len()
        invariant
            0 <= i <= alts@.len(),
            first_alt_at(alts@, item, *tag_registry, 0) == first_alt_at(
                alts@,
                item,
                *tag_registry,
                i as int,
            ),
        decreases alts@.len() - i,
    {
        if alts[i].matches(item, tag_registry) {
            return Some(i);
        }
        i = i + 1;
    }
    None
}

impl ShapelessRecipe {
    pub open spec fn spec_matches(self, items: Seq<Item>, tags: TagRegistry) -> bool {
        shapeless_consume(components_of(self.ingredients), items, tags)
    }

    pub open spec fn spec_match_self(self, items: Seq<Item>, tags: TagRegistry) -> Option<
        ItemStack,
    > {
        if self.spec_matches(items, tags) {
            Some(self.result)
        } else {
            None
        }
    }

    /// The multiset match: every supplied item must consume an alternative
    /// in working-list order, leftover alternatives notwithstanding.
    pub fn matches(&self, items: &Vec<Item>, tag_registry: &TagRegistry) -> (r: bool)
        ensures
            r == self.spec_matches(items@, *tag_registry),
    {
        let mut alts: Vec<RecipeComponent> = Vec::new();
        match &self.ingredients {
            Ingredient::One(c) => {
                alts.push(copy_component(c));
                proof {
                    assert(alts@ =~= components_of(self.ingredients));
                }
            },
            Ingredient::Many(cs) => {
                let mut i: usize = 0;
                while i < cs.len()
                    invariant
                        0 <= i <= cs@.len(),
                        alts@ == cs@.take(i as int),
                    decreases cs@.len() - i,
                {
                    alts.push(copy_component(&cs[i]));
                    proof {
                        assert(cs@.take(i as int).push(cs@[i as int]) =~= cs@.take(i as int + 1));
                    }
                    i = i + 1;
                }
                proof {
                    assert(cs@.take(cs@.len() as int) =~= cs@);
                }
            },
        }
        let ghost all = components_of(self.ingredients);
        assert(alts@ == all);
        proof {
            assert(items@.skip(0) =~= items@);
        }
        let mut k: usize = 0;
        while k < items.len()
            invariant
                0 <= k <= items@.len(),
                all == components_of(self.ingredients),
                shapeless_consume(all, items@, *tag_registry) == shapeless_consume(
                    alts@,
                    items@.skip(k as int),
                    *tag_registry,
                ),
            decreases items@.len() - k,
        {
            let item = items[k];
            proof {
                assert(items@.skip(k as int)[0] == items@[k as int]);
            }
            match find_first_alt(&alts, item, tag_registry) {
                Some(i) => {
                    alts.remove(i);
                },
                None => {
                    proof {
                        assert(items@.skip(k as int).len() > 0);
                        assert(!shapeless_consume(alts@, items@.skip(k as int), *tag_registry));
                    }
                    return false;
                },
            }
            proof {
                assert(items@.skip(k as int).drop_first() =~= items@.skip(k as int + 1));
            }
            k = k + 1;
        }
        proof {
            assert(items@.skip(items@.len() as int).len() == 0);
        }
        true
    }

    pub fn match_self(&self, items: &Vec<Item>, tag_registry: &TagRegistry) -> (r: Option<
        ItemStack,
    >)
        ensures
            r == self.spec_match_self(items@, *tag_registry),
    {
        if self.matches(items, tag_registry) {
            Some(self.result)
        } else {
            None
        }
    }
}

impl SmithingRecipe {
    /// Both positions must independently satisfy their assigned
    /// ingredient; the positions are not interchangeable.
    pub open spec fn spec_matches(self, base: Item, addition: Item, tags: TagRegistry) -> bool {
        spec_ingredient_matches(self.base, base, tags) && spec_ingredient_matches(
            self.addition,
            addition,
            tags,
        )
    }

    pub open spec fn spec_match_self(self, base: Item, addition: Item, tags: TagRegistry) -> Option<
        Item,
    > {
        if self.spec_matches(base, addition, tags) {
            Some(self.result.item)
        } else {
            None
        }
    }

    pub fn matches(&self, base: Item, addition: Item, tag_registry: &TagRegistry) -> (r: bool)
        ensures
            r == self.spec_matches(base, addition, *tag_registry),
    {
        self.base.matches(base, tag_registry) && self.addition.matches(addition, tag_registry)
    }

    pub fn match_self(&self, base: Item, addition: Item, tag_registry: &TagRegistry) -> (r: Option<
        Item,
    >)
        ensures
            r == self.spec_match_self(base, addition, *tag_registry),
    {
        if self.matches(base, addition, tag_registry) {
            Some(self.result.item)
        } else {
            None
        }
    }
}

impl StonecuttingRecipe {
    pub open spec fn spec_matches(self, item: Item, tags: TagRegistry) -> bool {
        spec_ingredient_matches(self.ingredient, item, tags)
    }

    /// A match carries the recipe's configured count exactly, with damage
    /// unset.
    pub open spec fn spec_match_self(self, item: Item, tags: TagRegistry) -> Option<ItemStack> {
        if self.spec_matches(item, tags) {
            Some(ItemStack { item: self.result, count: self.count, damage: None })
        } else {
            None
        }
    }

    pub fn matches(&self, item: Item, tag_registry: &TagRegistry) -> (r: bool)
        ensures
            r == self.spec_matches(item, *tag_registry),
    {
        self.ingredient.matches(item, tag_registry)
    }

    pub fn match_self(&self, item: Item, tag_registry: &TagRegistry) -> (r: Option<ItemStack>)
        ensures
            r == self.spec_match_self(item, *tag_registry),
    {
        if self.matches(item, tag_registry) {
            Some(ItemStack { item: self.result, count: self.count, damage: None })
        } else {
            None
        }
    }
}


/// The shapeless boundary behavior, for alternatives `ca` accepting only
/// `a` and `cb` accepting only `b`: supplying both items matches;
/// supplying `a` alone still matches, the leftover alternative being
/// tolerated; one extra item that matches nothing fails; and a repeated
/// item fails once its only alternative is consumed.
pub proof fn lemma_shapeless_boundaries(
    ca: RecipeComponent,
    cb: RecipeComponent,
    a: Item,
    b: Item,
    c: Item,
    tags: TagRegistry,
)
    requires
        spec_component_matches(ca, a, tags),
        !spec_component_matches(cb, a, tags),
        !spec_component_matches(ca, b, tags),
        spec_component_matches(cb, b, tags),
        !spec_component_matches(ca, c, tags),
        !spec_component_matches(cb, c, tags),
    ensures
        shapeless_consume(seq![ca, cb], seq![a, b], tags),
        shapeless_consume(seq![ca, cb], seq![a], tags),
        !shapeless_consume(seq![ca, cb], seq![a, b, c], tags),
        !shapeless_consume(seq![ca], seq![a, a], tags),
{
    let two = seq![ca, cb];
    let one = seq![ca];
    let none = Seq::<RecipeComponent>::empty();
    let no_items = Seq::<Item>::empty();

    assert(first_alt_at(two, a, tags, 0) == Some(0int));
    assert(two.remove(0) =~= seq![cb]);
    assert(first_alt_at(seq![cb], b, tags, 0) == Some(0int));
    assert(seq![cb].remove(0) =~= none);
    assert(first_alt_at(none, a, tags, 0) is None);
    assert(first_alt_at(none, c, tags, 0) is None);
    assert(first_alt_at(one, a, tags, 0) == Some(0int));
    assert(one.remove(0) =~= none);

    assert(seq![a, b].drop_first() =~= seq![b]);
    assert(seq![b].drop_first() =~= no_items);
    assert(seq![a].drop_first() =~= no_items);
    assert(seq![a, b, c].drop_first() =~= seq![b, c]);
    assert(seq![b, c].drop_first() =~= seq![c]);
    assert(seq![a, a].drop_first() =~= seq![a]);

    assert(shapeless_consume(none, no_items, tags));
    assert(shapeless_consume(seq![cb], no_items, tags));
    assert(shapeless_consume(seq![cb], seq![b], tags));
    assert(shapeless_consume(two, seq![a, b], tags));
    assert(shapeless_consume(two, seq![a], tags));
    assert(!shapeless_consume(none, seq![c], tags));
    assert(!shapeless_consume(seq![cb], seq![b, c], tags));
    assert(!shapeless_consume(two, seq![a, b, c], tags));
    assert(!shapeless_consume(none, seq![a], tags));
    assert(!shapeless_consume(one, seq![a, a], tags));
}

/// An item that fails its own smithing position fails the recipe, whatever
/// it would have done in the other position.
pub proof fn lemma_smithing_positions(r: SmithingRecipe, x: Item, y: Item, tags: TagRegistry)
    ensures
        !spec_ingredient_matches(r.base, x, tags) ==> !r.spec_matches(x, y, tags),
        !spec_ingredient_matches(r.addition, y, tags) ==> !r.spec_matches(x, y, tags),
        r.spec_matches(x, y, tags) == (spec_ingredient_matches(r.base, x, tags)
            && spec_ingredient_matches(r.addition, y, tags)),
{
}

} // verus!
