//! Ingredient predicates over items: identity match, tag-membership match,
//! singly or as an alternative set.

use vstd::prelude::*;
use crate::Item;
use crate::tags::TagRegistry;

verus! {

/// One recipe component: matches an item if the item field equals the
/// item's identity, or if the tag field names a tag the item belongs to.
#[derive(Debug, Clone, PartialEq, Eq)]
pub struct RecipeComponent {
    pub item: Option<Item>,
    pub tag: Option<String>,
}

pub open spec fn spec_component_matches(c: RecipeComponent, item: Item, tags: TagRegistry) -> bool {
    (match c.item {
        Some(ci) => ci == item,
        None => false,
    }) || (match c.tag {
        Some(t) => tags.spec_check(item, t@),
        None => false,
    })
}

impl RecipeComponent {
    /// Identity equality or tag membership, a logical OR of the two tests.
    pub fn matches(&self, item: Item, tag_registry: &TagRegistry) -> (r: bool)
        ensures
            r == spec_component_matches(*self, item, *tag_registry),
    {
        let item_hit = match &self.item {
            Some(ci) => *ci == item,
            None => false,
        };
        let tag_hit = match &self.tag {
            Some(t) => tag_registry.check_item_tag(item, t),
            None => false,
        };
        item_hit || tag_hit
    }
}

/// Either a single component or an ordered set of alternatives with
/// any-of semantics.
#[derive(Debug, Clone, PartialEq, Eq)]
pub enum Ingredient {
    One(RecipeComponent),
    Many(Vec<RecipeComponent>),
}

/// The ingredient's components as one flat sequence: the single-component
/// form flattens to a one-element list.
pub open spec fn components_of(ing: Ingredient) -> Seq<RecipeComponent> {
    match ing {
        Ingredient::One(c) => seq![c],
        Ingredient::Many(cs) => cs@,
    }
}

pub open spec fn spec_ingredient_matches(ing: Ingredient, item: Item, tags: TagRegistry) -> bool {
    exists|i: int|
        0 <= i < components_of(ing).len() && spec_component_matches(
            components_of(ing)[i],
            item,
            tags,
        )
}

impl Ingredient {
    /// In single form the one component decides; in alternative-set form
    /// the ingredient matches if any contained component matches.
    pub fn matches(&self, item: Item, tag_registry: &TagRegistry) -> (r: bool)
        ensures
            r == spec_ingredient_matches(*self, item, *tag_registry),
    {
        match self {
            Ingredient::One(c) => {
                let r = c.matches(item, tag_registry);
                proof {
                    if r {
                        assert(components_of(*self)[0] == *c);
                    }
                }
                r
            },
            Ingredient::Many(cs) => {
                let mut i: usize = 0;
                while i < cs.len()
                    invariant
                        0 <= i <= cs@.len(),
                        forall|k: int|
                            0 <= k < i ==> !spec_component_matches(cs@[k], item, *tag_registry),
                        components_of(*self) == cs@,
                    decreases cs@.len() - i,
                {
                    if cs[i].matches(item, tag_registry) {
                        return true;
                    }
                    i = i + 1;
                }
                false
            },
        }
    }
}

/// A single-component ingredient that names item `x` and no tag matches
/// exactly `x` and nothing else, whatever the tag registry holds.
pub proof fn lemma_single_item_component(x: Item, y: Item, tags: TagRegistry)
    ensures
        spec_ingredient_matches(
            Ingredient::One(RecipeComponent { item: Some(x), tag: None }),
            x,
            tags,
        ),
        x != y ==> !spec_ingredient_matches(
            Ingredient::One(RecipeComponent { item: Some(x), tag: None }),
            y,
            tags,
        ),
{
    let ing = Ingredient::One(RecipeComponent { item: Some(x), tag: None });
    assert(spec_component_matches(components_of(ing)[0], x, tags));
}

/// An alternative-set ingredient matches an item as soon as any one
/// contained component matches it, whatever the other components say.
pub proof fn lemma_alternative_any(
    cs: Vec<RecipeComponent>,
    i: int,
    item: Item,
    tags: TagRegistry,
)
    requires
        0 <= i < cs@.len(),
        spec_component_matches(cs@[i], item, tags),
    ensures
        spec_ingredient_matches(Ingredient::Many(cs), item, tags),
{
    assert(components_of(Ingredient::Many(cs))[i] == cs@[i]);
}

} // verus!
