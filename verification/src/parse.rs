//! Classification of one decoded descriptor document into a recipe: the
//! discriminator string selects the variant, the per-kind fields are read
//! and validated, and any malformed field refuses the whole document.

use vstd::prelude::*;
use crate::{Item, RecipeLoadError};
use crate::ingredient::{Ingredient, RecipeComponent};
use crate::item::{ItemCatalog, ItemStack};
use crate::json::{parse_document, parsed_document, Document};
use crate::recipe::{
    BlastingRecipe, CampfireRecipe, Recipe, ShapedRecipe, ShapelessRecipe, SmeltingRecipe,
    SmithingRecipe, SmokingRecipe, StonecuttingRecipe,
};
use crate::registry::{spec_added, RecipeRegistry};

verus! {

/// First field at or after `i` whose name is `key`.
pub open spec fn obj_get_at(fields: Seq<(String, Document)>, key: Seq<char>, i: int) -> Option<
    Document,
>
    decreases fields.len() - i,
{
    if i < 0 || i >= fields.len() {
        None
    } else if fields[i].0@ == key {
        Some(fields[i].1)
    } else {
        obj_get_at(fields, key, i + 1)
    }
}

/// The named field of an object document, if any; never a field of any
/// other node.
pub open spec fn spec_obj_get(doc: Document, key: Seq<char>) -> Option<Document> {
    match doc {
        Document::Obj(fields) => obj_get_at(fields@, key, 0),
        _ => None,
    }
}

fn str_is(s: &String, w: &str) -> (r: bool)
    ensures
        r == (s@ == w@),
{
    let w2: String = w.to_owned();
    *s == w2
}

fn obj_get<'a>(doc: &'a Document, key: &str) -> (r: Option<&'a Document>)
    ensures
        match r {
            Some(d) => spec_obj_get(*doc, key@) == Some(*d),
            None => spec_obj_get(*doc, key@) is None,
        },
{
    match doc {
        Document::Obj(fields) => {
            let mut i: usize = 0;
            while i < fields.len()
                invariant
                    0 <= i <= fields@.len(),
                    *doc == Document::Obj(*fields),
                    obj_get_at(fields@, key@, 0) == obj_get_at(fields@, key@, i as int),
                decreases fields@.len() - i,
            {
                if str_is(&fields[i].0, key) {
                    proof {
                        assert(obj_get_at(fields@, key@, i as int) == Some(fields@[i as int].1));
                    }
                    return Some(&fields[i].1);
                }
                i = i + 1;
            }
            None
        },
        _ => None,
    }
}

/// The optional group field: absent means none, a string is taken as is,
/// anything else refuses the document.
pub open spec fn group_ok(doc: Document) -> bool {
    match spec_obj_get(doc, "group"@) {
        None => true,
        Some(Document::Str(_)) => true,
        Some(_) => false,
    }
}

pub open spec fn is_group_of(doc: Document, g: Option<String>) -> bool {
    match spec_obj_get(doc, "group"@) {
        None => g is None,
        Some(Document::Str(s)) => g == Some(s),
        Some(_) => false,
    }
}

fn parse_group(doc: &Document) -> (r: Result<Option<String>, RecipeLoadError>)
    ensures
        match r {
            Ok(g) => group_ok(*doc) && is_group_of(*doc, g),
            Err(e) => e == RecipeLoadError::Parse && !group_ok(*doc),
        },
{
    match obj_get(doc, "group") {
        None => Ok(None),
        Some(Document::Str(s)) => Ok(Some(s.clone())),
        Some(_) => Err(RecipeLoadError::Parse),
    }
}

/// An optional unsigned field that must fit `u32` when present.
pub open spec fn opt_u32_ok(doc: Document, key: Seq<char>) -> bool {
    match spec_obj_get(doc, key) {
        None => true,
        Some(Document::Num { value, .. }) => (value matches Some(v) && v <= u32::MAX),
        Some(_) => false,
    }
}

pub open spec fn is_opt_u32_of(doc: Document, key: Seq<char>, default: u32, x: u32) -> bool {
    match spec_obj_get(doc, key) {
        None => x == default,
        Some(Document::Num { value, .. }) => value == Some(x as u64),
        Some(_) => false,
    }
}

fn parse_opt_u32(doc: &Document, key: &str, default: u32) -> (r: Result<u32, RecipeLoadError>)
    ensures
        match r {
            Ok(x) => opt_u32_ok(*doc, key@) && is_opt_u32_of(*doc, key@, default, x),
            Err(e) => e == RecipeLoadError::Parse && !opt_u32_ok(*doc, key@),
        },
{
    match obj_get(doc, key) {
        None => Ok(default),
        Some(Document::Num { value: Some(v), .. }) => {
            if *v <= u32::MAX as u64 {
                Ok(*v as u32)
            } else {
                Err(RecipeLoadError::Parse)
            }
        },
        Some(_) => Err(RecipeLoadError::Parse),
    }
}

/// A required unsigned field that must fit `u32`.
pub open spec fn req_u32_ok(doc: Document, key: Seq<char>) -> bool {
    match spec_obj_get(doc, key) {
        Some(Document::Num { value, .. }) => (value matches Some(v) && v <= u32::MAX),
        _ => false,
    }
}

pub open spec fn is_req_u32_of(doc: Document, key: Seq<char>, x: u32) -> bool {
    match spec_obj_get(doc, key) {
        Some(Document::Num { value, .. }) => value == Some(x as u64),
        _ => false,
    }
}

fn parse_req_u32(doc: &Document, key: &str) -> (r: Result<u32, RecipeLoadError>)
    ensures
        match r {
            Ok(x) => req_u32_ok(*doc, key@) && is_req_u32_of(*doc, key@, x),
            Err(e) => e == RecipeLoadError::Parse && !req_u32_ok(*doc, key@),
        },
{
    match obj_get(doc, key) {
        Some(Document::Num { value: Some(v), .. }) => {
            if *v <= u32::MAX as u64 {
                Ok(*v as u32)
            } else {
                Err(RecipeLoadError::Parse)
            }
        },
        _ => Err(RecipeLoadError::Parse),
    }
}

/// The required experience field: any number, kept as its exact text.
pub open spec fn exp_ok(doc: Document) -> bool {
    spec_obj_get(doc, "experience"@) matches Some(Document::Num { .. })
}

pub open spec fn is_exp_of(doc: Document, e: String) -> bool {
    spec_obj_get(doc, "experience"@) matches Some(Document::Num { value: _, text }) && e == text
}

fn parse_experience(doc: &Document) -> (r: Result<String, RecipeLoadError>)
    ensures
        match r {
            Ok(e) => exp_ok(*doc) && is_exp_of(*doc, e),
            Err(e) => e == RecipeLoadError::Parse && !exp_ok(*doc),
        },
{
    match obj_get(doc, "experience") {
        Some(Document::Num { value: _, text }) => Ok(text.clone()),
        _ => Err(RecipeLoadError::Parse),
    }
}

/// A required field holding an item name the catalog knows.
pub open spec fn item_field_ok(doc: Document, key: Seq<char>, cat: ItemCatalog) -> bool {
    spec_obj_get(doc, key) matches Some(Document::Str(n)) && cat.spec_resolve(n@) is Some
}

pub open spec fn is_item_field_of(doc: Document, key: Seq<char>, cat: ItemCatalog, it: Item) -> bool {
    spec_obj_get(doc, key) matches Some(Document::Str(n)) && cat.spec_resolve(n@) == Some(
        it as int,
    )
}

fn parse_item_field(doc: &Document, key: &str, catalog: &ItemCatalog) -> (r: Result<
    Item,
    RecipeLoadError,
>)
    requires
        catalog.wf(),
    ensures
        match r {
            Ok(it) => item_field_ok(*doc, key@, *catalog) && is_item_field_of(
                *doc,
                key@,
                *catalog,
                it,
            ),
            Err(e) => e == RecipeLoadError::Parse && !item_field_ok(*doc, key@, *catalog),
        },
{
    match obj_get(doc, key) {
        Some(Document::Str(n)) => match catalog.resolve(n) {
            Some(it) => Ok(it),
            None => Err(RecipeLoadError::Parse),
        },
        _ => Err(RecipeLoadError::Parse),
    }
}

/// One ingredient component: an object whose optional item field names a
/// cataloged item and whose optional tag field is a string.
pub open spec fn component_ok(doc: Document, cat: ItemCatalog) -> bool {
    &&& doc is Obj
    &&& match spec_obj_get(doc, "item"@) {
        None => true,
        Some(Document::Str(n)) => cat.spec_resolve(n@) is Some,
        Some(_) => false,
    }
    &&& match spec_obj_get(doc, "tag"@) {
        None => true,
        Some(Document::Str(_)) => true,
        Some(_) => false,
    }
}

pub open spec fn is_component_of(doc: Document, cat: ItemCatalog, c: RecipeComponent) -> bool {
    &&& component_ok(doc, cat)
    &&& match c.item {
        Some(id) => (spec_obj_get(doc, "item"@) matches Some(Document::Str(n)) && cat.spec_resolve(
            n@,
        ) == Some(id as int)),
        None => spec_obj_get(doc, "item"@) is None,
    }
    &&& match c.tag {
        Some(t) => (spec_obj_get(doc, "tag"@) matches Some(Document::Str(s)) && t == s),
        None => spec_obj_get(doc, "tag"@) is None,
    }
}

fn parse_component(doc: &Document, catalog: &ItemCatalog) -> (r: Result<
    RecipeComponent,
    RecipeLoadError,
>)
    requires
        catalog.wf(),
    ensures
        match r {
            Ok(c) => component_ok(*doc, *catalog) && is_component_of(*doc, *catalog, c),
            Err(e) => e == RecipeLoadError::Parse && !component_ok(*doc, *catalog),
        },
{
    match doc {
        Document::Obj(_) => {},
        _ => {
            return Err(RecipeLoadError::Parse);
        },
    }
    let item = match obj_get(doc, "item") {
        None => None,
        Some(Document::Str(n)) => match catalog.resolve(n) {
            Some(id) => Some(id),
            None => {
                return Err(RecipeLoadError::Parse);
            },
        },
        Some(_) => {
            return Err(RecipeLoadError::Parse);
        },
    };
    let tag = match obj_get(doc, "tag") {
        None => None,
        Some(Document::Str(t)) => Some(t.clone()),
        Some(_) => {
            return Err(RecipeLoadError::Parse);
        },
    };
    Ok(RecipeComponent { item, tag })
}

/// Every element of an alternative-set array is a well-formed component.
pub open spec fn components_all_ok(elems: Seq<Document>, cat: ItemCatalog) -> bool {
    forall|i: int| 0 <= i < elems.len() ==> component_ok(#[trigger] elems[i], cat)
}

/// An ingredient: a single component object, or an array of component
/// objects forming an alternative set.
pub open spec fn ingredient_ok(doc: Document, cat: ItemCatalog) -> bool {
    match doc {
        Document::Arr(elems) => components_all_ok(elems@, cat),
        Document::Obj(_) => component_ok(doc, cat),
        _ => false,
    }
}

pub open spec fn is_ingredient_of(doc: Document, cat: ItemCatalog, ing: Ingredient) -> bool {
    match doc {
        Document::Arr(elems) => (ing matches Ingredient::Many(cs) && cs@.len() == elems@.len()
            && forall|i: int| 0 <= i < elems@.len() ==> is_component_of(elems@[i], cat, cs@[i])),
        Document::Obj(_) => (ing matches Ingredient::One(c) && is_component_of(doc, cat, c)),
        _ => false,
    }
}

fn parse_ingredient(doc: &Document, catalog: &ItemCatalog) -> (r: Result<
    Ingredient,
    RecipeLoadError,
>)
    requires
        catalog.wf(),
    ensures
        match r {
            Ok(ing) => ingredient_ok(*doc, *catalog) && is_ingredient_of(*doc, *catalog, ing),
            Err(e) => e == RecipeLoadError::Parse && !ingredient_ok(*doc, *catalog),
        },
{
    match doc {
        Document::Arr(elems) => {
            let mut cs: Vec<RecipeComponent> = Vec::new();
            let mut i: usize = 0;
            while i < elems.len()
                invariant
                    0 <= i <= elems@.len(),
                    cs@.len() == i,
                    catalog.wf(),
                    *doc == Document::Arr(*elems),
                    forall|k: int| 0 <= k < i ==> is_component_of(elems@[k], *catalog, cs@[k]),
                    forall|k: int| 0 <= k < i ==> component_ok(elems@[k], *catalog),
                decreases elems@.len() - i,
            {
                match parse_component(&elems[i], catalog) {
                    Ok(c) => cs.push(c),
                    Err(e) => {
                        proof {
                            assert(!components_all_ok(elems@, *catalog)) by {
                                if components_all_ok(elems@, *catalog) {
                                    assert(component_ok(elems@[i as int], *catalog));
                                }
                            }
                        }
                        return Err(e);
                    },
                }
                i = i + 1;
            }
            Ok(Ingredient::Many(cs))
        },
        Document::Obj(_) => match parse_component(doc, catalog) {
            Ok(c) => Ok(Ingredient::One(c)),
            Err(e) => Err(e),
        },
        _ => Err(RecipeLoadError::Parse),
    }
}

/// A result stack: a required cataloged item name, an optional count
/// defaulting to one, and an optional damage value.
pub open spec fn stack_ok(doc: Document, cat: ItemCatalog) -> bool {
    &&& doc is Obj
    &&& item_field_ok(doc, "item"@, cat)
    &&& opt_u32_ok(doc, "count"@)
    &&& match spec_obj_get(doc, "damage"@) {
        None => true,
        Some(Document::Num { value, .. }) => (value matches Some(v) && v <= u32::MAX),
        Some(_) => false,
    }
}

pub open spec fn is_stack_of(doc: Document, cat: ItemCatalog, st: ItemStack) -> bool {
    &&& stack_ok(doc, cat)
    &&& is_item_field_of(doc, "item"@, cat, st.item)
    &&& is_opt_u32_of(doc, "count"@, 1, st.count)
    &&& match spec_obj_get(doc, "damage"@) {
        None => st.damage is None,
        Some(Document::Num { value, .. }) => (value matches Some(v) && st.damage == Some(v as u32)),
        Some(_) => false,
    }
}

fn parse_stack(doc: &Document, catalog: &ItemCatalog) -> (r: Result<ItemStack, RecipeLoadError>)
    requires
        catalog.wf(),
    ensures
        match r {
            Ok(st) => stack_ok(*doc, *catalog) && is_stack_of(*doc, *catalog, st),
            Err(e) => e == RecipeLoadError::Parse && !stack_ok(*doc, *catalog),
        },
{
    match doc {
        Document::Obj(_) => {},
        _ => {
            return Err(RecipeLoadError::Parse);
        },
    }
    let item = match parse_item_field(doc, "item", catalog) {
        Ok(it) => it,
        Err(e) => {
            return Err(e);
        },
    };
    let count = match parse_opt_u32(doc, "count", 1) {
        Ok(c) => c,
        Err(e) => {
            return Err(e);
        },
    };
    let damage = match obj_get(doc, "damage") {
        None => None,
        Some(Document::Num { value: Some(v), .. }) => {
            if *v <= u32::MAX as u64 {
                Some(*v as u32)
            } else {
                return Err(RecipeLoadError::Parse);
            }
        },
        Some(_) => {
            return Err(RecipeLoadError::Parse);
        },
    };
    Ok(ItemStack { item, count, damage })
}

/// One cell of the 3×3 pattern: the row string's character when the row
/// and column exist, and empty elsewhere.
pub open spec fn is_cell_of(rows: Seq<Document>, i: int, j: int, cell: Option<char>) -> bool {
    if i < rows.len() {
        match rows[i] {
            Document::Str(s) => if j < s@.len() {
                cell == Some(s@[j])
            } else {
                cell is None
            },
            _ => false,
        }
    } else {
        cell is None
    }
}

/// The pattern field: at most three row strings of at most three symbols.
pub open spec fn pattern_ok(doc: Document) -> bool {
    match spec_obj_get(doc, "pattern"@) {
        Some(Document::Arr(rows)) => rows@.len() <= 3 && forall|i: int|
            0 <= i < rows@.len() ==> ((#[trigger] rows@[i]) matches Document::Str(s) && s@.len()
                <= 3),
        _ => false,
    }
}

pub open spec fn is_pattern_of(doc: Document, pat: Seq<Seq<Option<char>>>) -> bool {
    match spec_obj_get(doc, "pattern"@) {
        Some(Document::Arr(rows)) => pat.len() == 3 && forall|i: int, j: int|
            0 <= i < 3 && 0 <= j < 3 ==> pat[i].len() == 3 && is_cell_of(rows@, i, j, pat[i][j]),
        _ => false,
    }
}

/// One padded pattern row.
fn parse_pattern_row(rows: &Vec<Document>, i: usize) -> (r: Result<
    Vec<Option<char>>,
    RecipeLoadError,
>)
    requires
        forall|k: int|
            0 <= k < rows@.len() ==> ((#[trigger] rows@[k]) matches Document::Str(s) && s@.len()
                <= 3),
    ensures
        match r {
            Ok(row) => row@.len() == 3 && forall|j: int|
                0 <= j < 3 ==> is_cell_of(rows@, i as int, j, row@[j]),
            Err(_) => false,
        },
{
    let mut row: Vec<Option<char>> = Vec::new();
    if i < rows.len() {
        match &rows[i] {
            Document::Str(s) => {
                let len = s.as_str().unicode_len();
                let mut j: usize = 0;
                while j < 3
                    invariant
                        0 <= j <= 3,
                        row@.len() == j,
                        len == s@.len(),
                        s@.len() <= 3,
                        (i as int) < rows@.len(),
                        rows@[i as int] == Document::Str(*s),
                        forall|k: int| 0 <= k < j ==> is_cell_of(rows@, i as int, k, row@[k]),
                    decreases 3 - j,
                {
                    if j < len {
                        row.push(Some(s.as_str().get_char(j)));
                    } else {
                        row.push(None);
                    }
                    j = j + 1;
                }
            },
            _ => {
                assert(false);
            },
        }
    } else {
        row.push(None);
        row.push(None);
        row.push(None);
    }
    Ok(row)
}

fn parse_pattern(doc: &Document) -> (r: Result<Vec<Vec<Option<char>>>, RecipeLoadError>)
    ensures
        match r {
            Ok(pat) => pattern_ok(*doc) && is_pattern_of(*doc, pat.deep_view()),
            Err(e) => e == RecipeLoadError::Parse && !pattern_ok(*doc),
        },
{
    let rows = match obj_get(doc, "pattern") {
        Some(Document::Arr(rows)) => rows,
        _ => {
            return Err(RecipeLoadError::Parse);
        },
    };
    if rows.len() > 3 {
        proof {
            assert(!pattern_ok(*doc));
        }
        return Err(RecipeLoadError::Parse);
    }
    let mut i: usize = 0;
    while i < rows.len()
        invariant
            0 <= i <= rows@.len(),
            rows@.len() <= 3,
            spec_obj_get(*doc, "pattern"@) == Some(Document::Arr(*rows)),
            forall|k: int|
                0 <= k < i ==> ((#[trigger] rows@[k]) matches Document::Str(s) && s@.len() <= 3),
        decreases rows@.len() - i,
    {
        match &rows[i] {
            Document::Str(s) => {
                if s.as_str().unicode_len() > 3 {
                    proof {
                        assert(rows@[i as int] matches Document::Str(q) && q@.len() > 3);
                        assert(!pattern_ok(*doc));
                    }
                    return Err(RecipeLoadError::Parse);
                }
            },
            _ => {
                proof {
                    assert(!(rows@[i as int] matches Document::Str(q)));
                    assert(!pattern_ok(*doc));
                }
                return Err(RecipeLoadError::Parse);
            },
        }
        i = i + 1;
    }
    let r0 = match parse_pattern_row(rows, 0) {
        Ok(r0) => r0,
        Err(e) => {
            return Err(e);
        },
    };
    let r1 = match parse_pattern_row(rows, 1) {
        Ok(r1) => r1,
        Err(e) => {
            return Err(e);
        },
    };
    let r2 = match parse_pattern_row(rows, 2) {
        Ok(r2) => r2,
        Err(e) => {
            return Err(e);
        },
    };
    let mut pat: Vec<Vec<Option<char>>> = Vec::new();
    pat.push(r0);
    pat.push(r1);
    pat.push(r2);
    Ok(pat)
}

/// Every key entry maps a one-symbol string to a well-formed ingredient.
pub open spec fn key_entries_ok(fields: Seq<(String, Document)>, cat: ItemCatalog) -> bool {
    forall|i: int|
        0 <= i < fields.len() ==> (#[trigger] fields[i]).0@.len() == 1 && ingredient_ok(
            fields[i].1,
            cat,
        )
}

/// The key field: each entry maps a one-symbol string to an ingredient.
pub open spec fn key_ok(doc: Document, cat: ItemCatalog) -> bool {
    match spec_obj_get(doc, "key"@) {
        Some(Document::Obj(fields)) => key_entries_ok(fields@, cat),
        _ => false,
    }
}

pub open spec fn is_key_of(doc: Document, cat: ItemCatalog, key: Seq<(char, Ingredient)>) -> bool {
    match spec_obj_get(doc, "key"@) {
        Some(Document::Obj(fields)) => key.len() == fields@.len() && forall|i: int|
            0 <= i < fields@.len() ==> key[i].0 == fields@[i].0@[0] && is_ingredient_of(
                fields@[i].1,
                cat,
                key[i].1,
            ),
        _ => false,
    }
}

fn parse_key(doc: &Document, catalog: &ItemCatalog) -> (r: Result<
    Vec<(char, Ingredient)>,
    RecipeLoadError,
>)
    requires
        catalog.wf(),
    ensures
        match r {
            Ok(key) => key_ok(*doc, *catalog) && is_key_of(*doc, *catalog, key@),
            Err(e) => e == RecipeLoadError::Parse && !key_ok(*doc, *catalog),
        },
{
    let fields = match obj_get(doc, "key") {
        Some(Document::Obj(fields)) => fields,
        _ => {
            return Err(RecipeLoadError::Parse);
        },
    };
    let mut key: Vec<(char, Ingredient)> = Vec::new();
    let mut i: usize = 0;
    while i < fields.len()
        invariant
            0 <= i <= fields@.len(),
            key@.len() == i,
            catalog.wf(),
            spec_obj_get(*doc, "key"@) == Some(Document::Obj(*fields)),
            forall|k: int|
                0 <= k < i ==> fields@[k].0@.len() == 1 && ingredient_ok(fields@[k].1, *catalog),
            forall|k: int|
                0 <= k < i ==> key@[k].0 == fields@[k].0@[0] && is_ingredient_of(
                    fields@[k].1,
                    *catalog,
                    key@[k].1,
                ),
        decreases fields@.len() - i,
    {
        let name = &fields[i].0;
        if name.as_str().unicode_len() != 1 {
            proof {
                assert(!key_entries_ok(fields@, *catalog)) by {
                    if key_entries_ok(fields@, *catalog) {
                        assert(fields@[i as int].0@.len() == 1 && ingredient_ok(
                            fields@[i as int].1,
                            *catalog,
                        ));
                    }
                }
            }
            return Err(RecipeLoadError::Parse);
        }
        let symbol = name.as_str().get_char(0);
        let ing = match parse_ingredient(&fields[i].1, catalog) {
            Ok(ing) => ing,
            Err(e) => {
                proof {
                    assert(!key_entries_ok(fields@, *catalog)) by {
                        if key_entries_ok(fields@, *catalog) {
                            assert(fields@[i as int].0@.len() == 1 && ingredient_ok(
                                fields@[i as int].1,
                                *catalog,
                            ));
                        }
                    }
                }
                return Err(e);
            },
        };
        key.push((symbol, ing));
        i = i + 1;
    }
    Ok(key)
}

/// The shared shape of the furnace family: group, one ingredient, a
/// result item, a required experience number, and an optional cooking
/// time with the kind's default.
pub open spec fn cooking_ok(doc: Document, cat: ItemCatalog) -> bool {
    &&& group_ok(doc)
    &&& match spec_obj_get(doc, "ingredient"@) {
        Some(d) => ingredient_ok(d, cat),
        None => false,
    }
    &&& item_field_ok(doc, "result"@, cat)
    &&& exp_ok(doc)
    &&& opt_u32_ok(doc, "cookingtime"@)
}

pub open spec fn is_cooking_of(
    doc: Document,
    cat: ItemCatalog,
    group: Option<String>,
    ingredient: Ingredient,
    result: Item,
    experience: String,
    cookingtime: u32,
    default_time: u32,
) -> bool {
    &&& cooking_ok(doc, cat)
    &&& is_group_of(doc, group)
    &&& (spec_obj_get(doc, "ingredient"@) matches Some(d) && is_ingredient_of(d, cat, ingredient))
    &&& is_item_field_of(doc, "result"@, cat, result)
    &&& is_exp_of(doc, experience)
    &&& is_opt_u32_of(doc, "cookingtime"@, default_time, cookingtime)
}

/// The five fields shared by the furnace family, with the kind's default
/// cooking time.
fn parse_cooking(doc: &Document, catalog: &ItemCatalog, default_time: u32) -> (r: Result<
    (Option<String>, Ingredient, Item, String, u32),
    RecipeLoadError,
>)
    requires
        catalog.wf(),
    ensures
        match r {
            Ok(f) => cooking_ok(*doc, *catalog) && is_cooking_of(
                *doc,
                *catalog,
                f.0,
                f.1,
                f.2,
                f.3,
                f.4,
                default_time,
            ),
            Err(e) => e == RecipeLoadError::Parse && !cooking_ok(*doc, *catalog),
        },
{
    let group = match parse_group(doc) {
        Ok(g) => g,
        Err(e) => {
            return Err(e);
        },
    };
    let ingredient = match obj_get(doc, "ingredient") {
        Some(d) => match parse_ingredient(d, catalog) {
            Ok(ing) => ing,
            Err(e) => {
                return Err(e);
            },
        },
        None => {
            return Err(RecipeLoadError::Parse);
        },
    };
    let result = match parse_item_field(doc, "result", catalog) {
        Ok(it) => it,
        Err(e) => {
            return Err(e);
        },
    };
    let experience = match parse_experience(doc) {
        Ok(x) => x,
        Err(e) => {
            return Err(e);
        },
    };
    let cookingtime = match parse_opt_u32(doc, "cookingtime", default_time) {
        Ok(t) => t,
        Err(e) => {
            return Err(e);
        },
    };
    Ok((group, ingredient, result, experience, cookingtime))
}

/// The recognized special discriminators: they parse into the opaque
/// marker and are not stored.
pub open spec fn is_special_kind(t: Seq<char>) -> bool {
    ||| t == "minecraft:crafting_special_armordye"@
    ||| t == "minecraft:crafting_special_bannerduplicate"@
    ||| t == "minecraft:crafting_special_bookcloning"@
    ||| t == "minecraft:crafting_special_firework_rocket"@
    ||| t == "minecraft:crafting_special_firework_star"@
    ||| t == "minecraft:crafting_special_firework_star_fade"@
    ||| t == "minecraft:crafting_special_mapcloning"@
    ||| t == "minecraft:crafting_special_mapextending"@
    ||| t == "minecraft:crafting_special_repairitem"@
    ||| t == "minecraft:crafting_special_shielddecoration"@
    ||| t == "minecraft:crafting_special_shulkerboxcoloring"@
    ||| t == "minecraft:crafting_special_tippedarrow"@
    ||| t == "minecraft:crafting_special_suspiciousstew"@
}

fn special_kind(t: &String) -> (r: bool)
    ensures
        r == is_special_kind(t@),
{
    str_is(t, "minecraft:crafting_special_armordye") || str_is(
        t,
        "minecraft:crafting_special_bannerduplicate",
    ) || str_is(t, "minecraft:crafting_special_bookcloning") || str_is(
        t,
        "minecraft:crafting_special_firework_rocket",
    ) || str_is(t, "minecraft:crafting_special_firework_star") || str_is(
        t,
        "minecraft:crafting_special_firework_star_fade",
    ) || str_is(t, "minecraft:crafting_special_mapcloning") || str_is(
        t,
        "minecraft:crafting_special_mapextending",
    ) || str_is(t, "minecraft:crafting_special_repairitem") || str_is(
        t,
        "minecraft:crafting_special_shielddecoration",
    ) || str_is(t, "minecraft:crafting_special_shulkerboxcoloring") || str_is(
        t,
        "minecraft:crafting_special_tippedarrow",
    ) || str_is(t, "minecraft:crafting_special_suspiciousstew")
}


/// The shapeless shape: group, one ingredients field, one result stack.
pub open spec fn shapeless_ok(doc: Document, cat: ItemCatalog) -> bool {
    &&& group_ok(doc)
    &&& (spec_obj_get(doc, "ingredients"@) matches Some(d) && ingredient_ok(d, cat))
    &&& (spec_obj_get(doc, "result"@) matches Some(d) && stack_ok(d, cat))
}

pub open spec fn is_shapeless_of(doc: Document, cat: ItemCatalog, r: ShapelessRecipe) -> bool {
    &&& is_group_of(doc, r.group)
    &&& (spec_obj_get(doc, "ingredients"@) matches Some(d) && is_ingredient_of(d, cat, r.ingredients))
    &&& (spec_obj_get(doc, "result"@) matches Some(d) && is_stack_of(d, cat, r.result))
}

/// The shaped shape: group, pattern, key, result stack.
pub open spec fn shaped_ok(doc: Document, cat: ItemCatalog) -> bool {
    &&& group_ok(doc)
    &&& pattern_ok(doc)
    &&& key_ok(doc, cat)
    &&& (spec_obj_get(doc, "result"@) matches Some(d) && stack_ok(d, cat))
}

pub open spec fn is_shaped_of(doc: Document, cat: ItemCatalog, r: ShapedRecipe) -> bool {
    &&& is_group_of(doc, r.group)
    &&& is_pattern_of(doc, r.pattern.deep_view())
    &&& is_key_of(doc, cat, r.key@)
    &&& (spec_obj_get(doc, "result"@) matches Some(d) && is_stack_of(d, cat, r.result))
}

/// The smithing shape: group, base and addition ingredients, result stack.
pub open spec fn smithing_ok(doc: Document, cat: ItemCatalog) -> bool {
    &&& group_ok(doc)
    &&& (spec_obj_get(doc, "base"@) matches Some(d) && ingredient_ok(d, cat))
    &&& (spec_obj_get(doc, "addition"@) matches Some(d) && ingredient_ok(d, cat))
    &&& (spec_obj_get(doc, "result"@) matches Some(d) && stack_ok(d, cat))
}

pub open spec fn is_smithing_of(doc: Document, cat: ItemCatalog, r: SmithingRecipe) -> bool {
    &&& is_group_of(doc, r.group)
    &&& (spec_obj_get(doc, "base"@) matches Some(d) && is_ingredient_of(d, cat, r.base))
    &&& (spec_obj_get(doc, "addition"@) matches Some(d) && is_ingredient_of(d, cat, r.addition))
    &&& (spec_obj_get(doc, "result"@) matches Some(d) && is_stack_of(d, cat, r.result))
}

/// The stonecutting shape: group, one ingredient, a result item name, and
/// a required output count.
pub open spec fn stonecutting_ok(doc: Document, cat: ItemCatalog) -> bool {
    &&& group_ok(doc)
    &&& (spec_obj_get(doc, "ingredient"@) matches Some(d) && ingredient_ok(d, cat))
    &&& item_field_ok(doc, "result"@, cat)
    &&& req_u32_ok(doc, "count"@)
}

pub open spec fn is_stonecutting_of(doc: Document, cat: ItemCatalog, r: StonecuttingRecipe) -> bool {
    &&& is_group_of(doc, r.group)
    &&& (spec_obj_get(doc, "ingredient"@) matches Some(d) && is_ingredient_of(d, cat, r.ingredient))
    &&& is_item_field_of(doc, "result"@, cat, r.result)
    &&& is_req_u32_of(doc, "count"@, r.count)
}

/// The whole document classifies: it is an object whose type string names
/// a kind, and the fields that kind asks for are all well-formed.
pub open spec fn recipe_doc_ok(doc: Document, cat: ItemCatalog) -> bool {
    match spec_obj_get(doc, "type"@) {
        Some(Document::Str(t)) => {
            if t@ == "minecraft:blasting"@ || t@ == "minecraft:campfire_cooking"@ || t@
                == "minecraft:smelting"@ || t@ == "minecraft:smoking"@ {
                cooking_ok(doc, cat)
            } else if t@ == "minecraft:crafting_shapeless"@ {
                shapeless_ok(doc, cat)
            } else if t@ == "minecraft:crafting_shaped"@ {
                shaped_ok(doc, cat)
            } else if t@ == "minecraft:smithing"@ {
                smithing_ok(doc, cat)
            } else if t@ == "minecraft:stonecutting"@ {
                stonecutting_ok(doc, cat)
            } else {
                is_special_kind(t@)
            }
        },
        _ => false,
    }
}

/// The classified recipe a well-formed document denotes.
pub open spec fn is_recipe_of(doc: Document, cat: ItemCatalog, rec: Recipe) -> bool {
    match spec_obj_get(doc, "type"@) {
        Some(Document::Str(t)) => {
            if t@ == "minecraft:blasting"@ {
                rec matches Recipe::Blasting(r) && is_cooking_of(
                    doc,
                    cat,
                    r.group,
                    r.ingredient,
                    r.result,
                    r.experience,
                    r.cookingtime,
                    100,
                )
            } else if t@ == "minecraft:campfire_cooking"@ {
                rec matches Recipe::Campfire(r) && is_cooking_of(
                    doc,
                    cat,
                    r.group,
                    r.ingredient,
                    r.result,
                    r.experience,
                    r.cookingtime,
                    100,
                )
            } else if t@ == "minecraft:smelting"@ {
                rec matches Recipe::Smelting(r) && is_cooking_of(
                    doc,
                    cat,
                    r.group,
                    r.ingredient,
                    r.result,
                    r.experience,
                    r.cookingtime,
                    200,
                )
            } else if t@ == "minecraft:smoking"@ {
                rec matches Recipe::Smoking(r) && is_cooking_of(
                    doc,
                    cat,
                    r.group,
                    r.ingredient,
                    r.result,
                    r.experience,
                    r.cookingtime,
                    100,
                )
            } else if t@ == "minecraft:crafting_shapeless"@ {
                rec matches Recipe::Shapeless(r) && shapeless_ok(doc, cat) && is_shapeless_of(
                    doc,
                    cat,
                    r,
                )
            } else if t@ == "minecraft:crafting_shaped"@ {
                rec matches Recipe::Shaped(r) && shaped_ok(doc, cat) && is_shaped_of(doc, cat, r)
            } else if t@ == "minecraft:smithing"@ {
                rec matches Recipe::Smithing(r) && smithing_ok(doc, cat) && is_smithing_of(
                    doc,
                    cat,
                    r,
                )
            } else if t@ == "minecraft:stonecutting"@ {
                rec matches Recipe::Stonecutting(r) && stonecutting_ok(doc, cat)
                    && is_stonecutting_of(doc, cat, r)
            } else {
                is_special_kind(t@) && (rec matches Recipe::Special(s) && s == t)
            }
        },
        _ => false,
    }
}


fn parse_shapeless(doc: &Document, catalog: &ItemCatalog) -> (r: Result<
    ShapelessRecipe,
    RecipeLoadError,
>)
    requires
        catalog.wf(),
    ensures
        match r {
            Ok(rec) => shapeless_ok(*doc, *catalog) && is_shapeless_of(*doc, *catalog, rec),
            Err(e) => e == RecipeLoadError::Parse && !shapeless_ok(*doc, *catalog),
        },
{
    let group = match parse_group(doc) {
        Ok(g) => g,
        Err(e) => {
            return Err(e);
        },
    };
    let ingredients = match obj_get(doc, "ingredients") {
        Some(d) => match parse_ingredient(d, catalog) {
            Ok(ing) => ing,
            Err(e) => {
                return Err(e);
            },
        },
        None => {
            return Err(RecipeLoadError::Parse);
        },
    };
    let result = match obj_get(doc, "result") {
        Some(d) => match parse_stack(d, catalog) {
            Ok(st) => st,
            Err(e) => {
                return Err(e);
            },
        },
        None => {
            return Err(RecipeLoadError::Parse);
        },
    };
    Ok(ShapelessRecipe { group, ingredients, result })
}

fn parse_shaped(doc: &Document, catalog: &ItemCatalog) -> (r: Result<ShapedRecipe, RecipeLoadError>)
    requires
        catalog.wf(),
    ensures
        match r {
            Ok(rec) => shaped_ok(*doc, *catalog) && is_shaped_of(*doc, *catalog, rec),
            Err(e) => e == RecipeLoadError::Parse && !shaped_ok(*doc, *catalog),
        },
{
    let group = match parse_group(doc) {
        Ok(g) => g,
        Err(e) => {
            return Err(e);
        },
    };
    let pattern = match parse_pattern(doc) {
        Ok(p) => p,
        Err(e) => {
            return Err(e);
        },
    };
    let key = match parse_key(doc, catalog) {
        Ok(k) => k,
        Err(e) => {
            return Err(e);
        },
    };
    let result = match obj_get(doc, "result") {
        Some(d) => match parse_stack(d, catalog) {
            Ok(st) => st,
            Err(e) => {
                return Err(e);
            },
        },
        None => {
            return Err(RecipeLoadError::Parse);
        },
    };
    Ok(ShapedRecipe { group, pattern, key, result })
}

fn parse_smithing(doc: &Document, catalog: &ItemCatalog) -> (r: Result<
    SmithingRecipe,
    RecipeLoadError,
>)
    requires
        catalog.wf(),
    ensures
        match r {
            Ok(rec) => smithing_ok(*doc, *catalog) && is_smithing_of(*doc, *catalog, rec),
            Err(e) => e == RecipeLoadError::Parse && !smithing_ok(*doc, *catalog),
        },
{
    let group = match parse_group(doc) {
        Ok(g) => g,
        Err(e) => {
            return Err(e);
        },
    };
    let base = match obj_get(doc, "base") {
        Some(d) => match parse_ingredient(d, catalog) {
            Ok(ing) => ing,
            Err(e) => {
                return Err(e);
            },
        },
        None => {
            return Err(RecipeLoadError::Parse);
        },
    };
    let addition = match obj_get(doc, "addition") {
        Some(d) => match parse_ingredient(d, catalog) {
            Ok(ing) => ing,
            Err(e) => {
                return Err(e);
            },
        },
        None => {
            return Err(RecipeLoadError::Parse);
        },
    };
    let result = match obj_get(doc, "result") {
        Some(d) => match parse_stack(d, catalog) {
            Ok(st) => st,
            Err(e) => {
                return Err(e);
            },
        },
        None => {
            return Err(RecipeLoadError::Parse);
        },
    };
    Ok(SmithingRecipe { group, base, addition, result })
}

fn parse_stonecutting(doc: &Document, catalog: &ItemCatalog) -> (r: Result<
    StonecuttingRecipe,
    RecipeLoadError,
>)
    requires
        catalog.wf(),
    ensures
        match r {
            Ok(rec) => stonecutting_ok(*doc, *catalog) && is_stonecutting_of(*doc, *catalog, rec),
            Err(e) => e == RecipeLoadError::Parse && !stonecutting_ok(*doc, *catalog),
        },
{
    let group = match parse_group(doc) {
        Ok(g) => g,
        Err(e) => {
            return Err(e);
        },
    };
    let ingredient = match obj_get(doc, "ingredient") {
        Some(d) => match parse_ingredient(d, catalog) {
            Ok(ing) => ing,
            Err(e) => {
                return Err(e);
            },
        },
        None => {
            return Err(RecipeLoadError::Parse);
        },
    };
    let result = match parse_item_field(doc, "result", catalog) {
        Ok(it) => it,
        Err(e) => {
            return Err(e);
        },
    };
    let count = match parse_req_u32(doc, "count") {
        Ok(c) => c,
        Err(e) => {
            return Err(e);
        },
    };
    Ok(StonecuttingRecipe { group, ingredient, result, count })
}

impl Recipe {
    /// Classifies one decoded descriptor document: the type string
    /// selects the variant, and any missing or malformed field refuses
    /// the whole document.
    #[verifier::rlimit(100)]
    pub fn from_document(doc: &Document, catalog: &ItemCatalog) -> (r: Result<
        Recipe,
        RecipeLoadError,
    >)
        requires
            catalog.wf(),
        ensures
            match r {
                Ok(rec) => recipe_doc_ok(*doc, *catalog) && is_recipe_of(*doc, *catalog, rec),
                Err(e) => e == RecipeLoadError::Parse && !recipe_doc_ok(*doc, *catalog),
            },
    {
        let t = match obj_get(doc, "type") {
            Some(Document::Str(t)) => t,
            _ => {
                return Err(RecipeLoadError::Parse);
            },
        };
        if str_is(t, "minecraft:blasting") {
            match parse_cooking(doc, catalog, 100) {
                Ok(f) => Ok(
                    Recipe::Blasting(
                        BlastingRecipe {
                            group: f.0,
                            ingredient: f.1,
                            result: f.2,
                            experience: f.3,
                            cookingtime: f.4,
                        },
                    ),
                ),
                Err(e) => Err(e),
            }
        } else if str_is(t, "minecraft:campfire_cooking") {
            match parse_cooking(doc, catalog, 100) {
                Ok(f) => Ok(
                    Recipe::Campfire(
                        CampfireRecipe {
                            group: f.0,
                            ingredient: f.1,
                            result: f.2,
                            experience: f.3,
                            cookingtime: f.4,
                        },
                    ),
                ),
                Err(e) => Err(e),
            }
        } else if str_is(t, "minecraft:smelting") {
            match parse_cooking(doc, catalog, 200) {
                Ok(f) => Ok(
                    Recipe::Smelting(
                        SmeltingRecipe {
                            group: f.0,
                            ingredient: f.1,
                            result: f.2,
                            experience: f.3,
                            cookingtime: f.4,
                        },
                    ),
                ),
                Err(e) => Err(e),
            }
        } else if str_is(t, "minecraft:smoking") {
            match parse_cooking(doc, catalog, 100) {
                Ok(f) => Ok(
                    Recipe::Smoking(
                        SmokingRecipe {
                            group: f.0,
                            ingredient: f.1,
                            result: f.2,
                            experience: f.3,
                            cookingtime: f.4,
                        },
                    ),
                ),
                Err(e) => Err(e),
            }
        } else if str_is(t, "minecraft:crafting_shapeless") {
            match parse_shapeless(doc, catalog) {
                Ok(r) => Ok(Recipe::Shapeless(r)),
                Err(e) => Err(e),
            }
        } else if str_is(t, "minecraft:crafting_shaped") {
            match parse_shaped(doc, catalog) {
                Ok(r) => Ok(Recipe::Shaped(r)),
                Err(e) => Err(e),
            }
        } else if str_is(t, "minecraft:smithing") {
            match parse_smithing(doc, catalog) {
                Ok(r) => Ok(Recipe::Smithing(r)),
                Err(e) => Err(e),
            }
        } else if str_is(t, "minecraft:stonecutting") {
            match parse_stonecutting(doc, catalog) {
                Ok(r) => Ok(Recipe::Stonecutting(r)),
                Err(e) => Err(e),
            }
        } else if special_kind(t) {
            Ok(Recipe::Special(t.clone()))
        } else {
            Err(RecipeLoadError::Parse)
        }
    }

    /// Decodes one descriptor text and classifies it.
    pub fn from_raw(raw: &str, catalog: &ItemCatalog) -> (r: Result<Recipe, RecipeLoadError>)
        requires
            catalog.wf(),
        ensures
            match parsed_document(raw@) {
                None => r == Err::<Recipe, RecipeLoadError>(RecipeLoadError::Parse),
                Some(d) => match r {
                    Ok(rec) => recipe_doc_ok(d, *catalog) && is_recipe_of(d, *catalog, rec),
                    Err(e) => e == RecipeLoadError::Parse && !recipe_doc_ok(d, *catalog),
                },
            },
    {
        match parse_document(raw) {
            Ok(doc) => Self::from_document(&doc, catalog),
            Err(e) => Err(e),
        }
    }
}


/// The descriptor text decodes and classifies to exactly this recipe.
pub open spec fn classifies(raw: String, cat: ItemCatalog, rec: Recipe) -> bool {
    parsed_document(raw@) matches Some(d) && recipe_doc_ok(d, cat) && is_recipe_of(d, cat, rec)
}

/// The descriptor text fails to decode or to classify.
pub open spec fn classify_fails(raw: String, cat: ItemCatalog) -> bool {
    match parsed_document(raw@) {
        None => true,
        Some(d) => !recipe_doc_ok(d, cat),
    }
}

/// `r1` is `r0` extended by the classified recipes of `raws`, in order.
pub open spec fn registry_folds(
    r0: RecipeRegistry,
    raws: Seq<String>,
    cat: ItemCatalog,
    r1: RecipeRegistry,
) -> bool
    decreases raws.len(),
{
    if raws.len() == 0 {
        r1 == r0
    } else {
        exists|rec: Recipe, rmid: RecipeRegistry|
            classifies(raws[0], cat, rec) && #[trigger] spec_added(r0, rmid, rec)
                && registry_folds(rmid, raws.drop_first(), cat, r1)
    }
}

/// One more classified descriptor extends a fold at its back.
proof fn lemma_registry_folds_snoc(
    r0: RecipeRegistry,
    raws: Seq<String>,
    cat: ItemCatalog,
    r1: RecipeRegistry,
    x: String,
    rec: Recipe,
    r2: RecipeRegistry,
)
    requires
        registry_folds(r0, raws, cat, r1),
        classifies(x, cat, rec),
        spec_added(r1, r2, rec),
    ensures
        registry_folds(r0, raws.push(x), cat, r2),
    decreases raws.len(),
{
    if raws.len() == 0 {
        assert(raws.push(x)[0] == x);
        assert(raws.push(x).drop_first() =~= raws);
        assert(registry_folds(r2, raws, cat, r2));
        assert(classifies(raws.push(x)[0], cat, rec) && spec_added(r0, r2, rec) && registry_folds(
            r2,
            raws.push(x).drop_first(),
            cat,
            r2,
        ));
    } else {
        let (rec0, rmid) = choose|rec0: Recipe, rmid: RecipeRegistry|
            classifies(raws[0], cat, rec0) && #[trigger] spec_added(r0, rmid, rec0)
                && registry_folds(rmid, raws.drop_first(), cat, r1);
        lemma_registry_folds_snoc(rmid, raws.drop_first(), cat, r1, x, rec, r2);
        assert(raws.push(x).drop_first() =~= raws.drop_first().push(x));
        assert(raws.push(x)[0] == raws[0]);
        assert(classifies(raws.push(x)[0], cat, rec0) && spec_added(r0, rmid, rec0)
            && registry_folds(rmid, raws.push(x).drop_first(), cat, r2));
    }
}

impl RecipeRegistry {

    /// Builds a registry from a batch of descriptor texts, fail-fast: the
    /// classified recipes land in their kinds' lists in order, and any
    /// text that does not classify aborts the whole load, so that no
    /// partial registry is ever observable.
    pub fn from_raw_documents(raws: &Vec<String>, catalog: &ItemCatalog) -> (r: Result<
        RecipeRegistry,
        RecipeLoadError,
    >)
        requires
            catalog.wf(),
        ensures
            match r {
                Ok(reg) => (forall|i: int|
                    0 <= i < raws@.len() ==> !classify_fails(#[trigger] raws@[i], *catalog)) && (
                exists|r0: RecipeRegistry|
                    (#[trigger] r0.is_empty()) && registry_folds(r0, raws@, *catalog, reg)),
                Err(e) => e == RecipeLoadError::Parse && (exists|i: int|
                    0 <= i < raws@.len() && classify_fails(#[trigger] raws@[i], *catalog)),
            },
    {
        let mut registry = RecipeRegistry::new();
        let ghost r0 = registry;
        let mut i: usize = 0;
        while i < raws.len()
            invariant
                0 <= i <= raws@.len(),
                catalog.wf(),
                r0.is_empty(),
                registry_folds(r0, raws@.take(i as int), *catalog, registry),
                forall|k: int| 0 <= k < i ==> !classify_fails(#[trigger] raws@[k], *catalog),
            decreases raws@.len() - i,
        {
            let ghost before = registry;
            match registry.add_from_raw(raws[i].as_str(), catalog) {
                Ok(()) => {
                    proof {
                        let rec = choose|rec: Recipe|
                            is_recipe_of(
                                parsed_document(raws@[i as int]@)->Some_0,
                                *catalog,
                                rec,
                            ) && #[trigger] spec_added(before, registry, rec);
                        lemma_registry_folds_snoc(
                            r0,
                            raws@.take(i as int),
                            *catalog,
                            before,
                            raws@[i as int],
                            rec,
                            registry,
                        );
                        assert(raws@.take(i as int).push(raws@[i as int]) =~= raws@.take(
                            i as int + 1,
                        ));
                    }
                },
                Err(e) => {
                    proof {
                        assert(classify_fails(raws@[i as int], *catalog));
                    }
                    return Err(e);
                },
            }
            i = i + 1;
        }
        proof {
            assert(raws@.take(raws@.len() as int) =~= raws@);
        }
        Ok(registry)
    }

    /// Classifies one descriptor text and stores the result; a failure
    /// leaves the registry untouched.
    pub fn add_from_raw(&mut self, raw: &str, catalog: &ItemCatalog) -> (r: Result<
        (),
        RecipeLoadError,
    >)
        requires
            catalog.wf(),
        ensures
            match r {
                Ok(()) => (parsed_document(raw@) matches Some(d) && recipe_doc_ok(d, *catalog) && (
                exists|rec: Recipe|
                    is_recipe_of(d, *catalog, rec) && spec_added(*old(self), *final(self), rec))),
                Err(e) => *final(self) == *old(self) && e == RecipeLoadError::Parse && (match
                    parsed_document(raw@) {
                    None => true,
                    Some(d) => !recipe_doc_ok(d, *catalog),
                }),
            },
    {
        match Recipe::from_raw(raw, catalog) {
            Ok(rec) => {
                let ghost grec = rec;
                self.add_recipe(rec);
                proof {
                    assert(spec_added(*old(self), *self, grec));
                }
                Ok(())
            },
            Err(e) => Err(e),
        }
    }
}

} // verus!
