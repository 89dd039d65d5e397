use crafting_core::ingredient::{Ingredient, RecipeComponent};
use crafting_core::item::{ItemCatalog, ItemStack};
use crafting_core::recipe::{
    default_blasting_time, default_campfire_time, default_smelting_time, default_smoking_time,
    Recipe, ShapelessRecipe, SmeltingRecipe, SmithingRecipe, StonecuttingRecipe,
};
use crafting_core::registry::RecipeRegistry;
use crafting_core::tags::TagRegistry;
use crafting_core::RecipeLoadError;

fn catalog() -> ItemCatalog {
    let mut cat = ItemCatalog::new();
    for name in [
        "minecraft:diamond_ore",
        "minecraft:diamond",
        "minecraft:emerald_block",
        "minecraft:dead_bush",
        "minecraft:chainmail_chestplate",
        "minecraft:chainmail_boots",
        "minecraft:bedrock",
        "minecraft:seagrass",
        "minecraft:glass",
        "minecraft:wet_sponge",
        "minecraft:tnt",
        "minecraft:iron_ingot",
        "minecraft:stone",
    ] {
        cat.add_item(name.to_string(), 64);
    }
    cat
}

fn id(cat: &ItemCatalog, name: &str) -> u32 {
    cat.resolve(&name.to_string()).unwrap()
}

#[test]
fn test_blasting() {
    let cat = catalog();

    let recipe = r#"
    {
        "type": "minecraft:blasting",
        "ingredient": {
          "item": "minecraft:diamond_ore"
        },
        "result": "minecraft:diamond",
        "experience": 1,
        "cookingtime": 200
      }
    "#;

    let deserialized = Recipe::from_raw(recipe, &cat);

    if let Ok(Recipe::Blasting(recipe)) = deserialized {
        assert_eq!(recipe.group, None);

        assert_eq!(
            recipe.ingredient,
            Ingredient::One(RecipeComponent {
                item: Some(id(&cat, "minecraft:diamond_ore")),
                tag: None
            })
        );

        assert_eq!(recipe.result, id(&cat, "minecraft:diamond"));

        assert_eq!(recipe.experience.parse::<f64>().unwrap(), 1.0);

        assert_eq!(recipe.cookingtime, 200);
    } else {
        panic!("Deserialization Failed.\n{:?}", deserialized)
    }
}

#[test]
fn test_campfire() {
    let cat = catalog();

    let recipe = r#"
    {
        "type": "minecraft:campfire_cooking",
        "ingredient": {
            "item": "minecraft:emerald_block"
        },
        "result": "minecraft:dead_bush",
        "experience": 727,
        "cookingtime": 452,
        "group": "foobar"
    }
    "#;

    let deserialized = Recipe::from_raw(recipe, &cat);

    if let Ok(Recipe::Campfire(recipe)) = deserialized {
        assert_eq!(recipe.group, Some("foobar".to_string()));

        assert_eq!(
            recipe.ingredient,
            Ingredient::One(RecipeComponent {
                item: Some(id(&cat, "minecraft:emerald_block")),
                tag: None
            })
        );

        assert_eq!(recipe.result, id(&cat, "minecraft:dead_bush"));

        assert_eq!(recipe.experience.parse::<f64>().unwrap(), 727.0);

        assert_eq!(recipe.cookingtime, 452);
    } else {
        panic!("Deserialization Failed.\n{:?}", deserialized)
    }
}

#[test]
fn test_shaped() {
    let cat = catalog();

    let recipe = "
    {
        \"type\": \"minecraft:crafting_shaped\",
        \"pattern\": [
            \"# C\",
            \"WB \"
        ],
        \"key\": {
            \"#\": {
                \"item\": \"minecraft:dead_bush\"
            },
            \"C\": {
                \"item\": \"minecraft:chainmail_chestplate\"
            },
            \"W\": {
                \"item\": \"minecraft:chainmail_boots\"
            },
            \"B\": {
                \"item\": \"minecraft:bedrock\"
            }
        },
        \"result\": {
            \"item\": \"minecraft:seagrass\",
            \"count\": 64
        }
    }
    ";

    let deserialized = Recipe::from_raw(recipe, &cat);

    if let Ok(Recipe::Shaped(recipe)) = deserialized {
        assert_eq!(recipe.group, None);

        assert_eq!(
            recipe.pattern,
            vec![
                vec![Some('#'), Some(' '), Some('C')],
                vec![Some('W'), Some('B'), Some(' ')],
                vec![None, None, None]
            ]
        );

        let key_of = |symbol: char| {
            recipe
                .key
                .iter()
                .find(|(c, _)| *c == symbol)
                .map(|(_, ing)| ing)
        };

        assert_eq!(
            key_of('#'),
            Some(&Ingredient::One(RecipeComponent {
                item: Some(id(&cat, "minecraft:dead_bush")),
                tag: None
            }))
        );

        assert_eq!(
            key_of('C'),
            Some(&Ingredient::One(RecipeComponent {
                item: Some(id(&cat, "minecraft:chainmail_chestplate")),
                tag: None
            }))
        );

        assert_eq!(
            key_of('W'),
            Some(&Ingredient::One(RecipeComponent {
                item: Some(id(&cat, "minecraft:chainmail_boots")),
                tag: None
            }))
        );

        assert_eq!(
            key_of('B'),
            Some(&Ingredient::One(RecipeComponent {
                item: Some(id(&cat, "minecraft:bedrock")),
                tag: None
            }))
        );

        assert_eq!(
            recipe.result,
            ItemStack::new(id(&cat, "minecraft:seagrass"), 64)
        )
    } else {
        panic!("Deserialization Failed.\n{:?}", deserialized)
    }
}

#[test]
fn test_shapeless() {
    let cat = catalog();

    let recipe = r#"
    {
        "type": "minecraft:crafting_shapeless",
        "ingredients": [
            {
                "item": "minecraft:glass"
            },
            {
                "item": "minecraft:wet_sponge"
            }
        ],
        "result": {
            "item": "minecraft:tnt",
            "count": 1
        }
    }
    "#;

    let deserialized = Recipe::from_raw(recipe, &cat);

    if let Ok(Recipe::Shapeless(recipe)) = deserialized {
        assert_eq!(recipe.group, None);

        if let Ingredient::Many(ingredients) = &recipe.ingredients {
            assert!(ingredients.contains(&RecipeComponent {
                item: Some(id(&cat, "minecraft:glass")),
                tag: None
            }));
            assert!(ingredients.contains(&RecipeComponent {
                item: Some(id(&cat, "minecraft:wet_sponge")),
                tag: None
            }))
        }

        assert_eq!(recipe.result, ItemStack::new(id(&cat, "minecraft:tnt"), 1));
    } else {
        panic!("Deserialization Failed.\n{:?}", deserialized)
    }
}

fn item_component(item: u32) -> RecipeComponent {
    RecipeComponent {
        item: Some(item),
        tag: None,
    }
}

#[test]
fn single_component_matches_identity_only() {
    let cat = catalog();
    let x = id(&cat, "minecraft:diamond");
    let y = id(&cat, "minecraft:stone");
    let ing = Ingredient::One(item_component(x));

    let empty_tags = TagRegistry::new();
    let mut full_tags = TagRegistry::new();
    full_tags.insert_tag("minecraft:gems".to_string(), vec![x, y]);

    assert!(ing.matches(x, &empty_tags));
    assert!(ing.matches(x, &full_tags));
    assert!(!ing.matches(y, &empty_tags));
    assert!(!ing.matches(y, &full_tags));
}

#[test]
fn alternative_set_matches_any_component() {
    let cat = catalog();
    let a = id(&cat, "minecraft:glass");
    let b = id(&cat, "minecraft:stone");
    let other = id(&cat, "minecraft:tnt");
    let tags = TagRegistry::new();
    let ing = Ingredient::Many(vec![item_component(a), item_component(b)]);

    assert!(ing.matches(a, &tags));
    assert!(ing.matches(b, &tags));
    assert!(!ing.matches(other, &tags));
}

#[test]
fn tag_component_matches_via_registry() {
    let cat = catalog();
    let ore = id(&cat, "minecraft:diamond_ore");
    let stone = id(&cat, "minecraft:stone");
    let mut tags = TagRegistry::new();
    tags.insert_tag("minecraft:ores".to_string(), vec![ore]);

    let ing = Ingredient::One(RecipeComponent {
        item: None,
        tag: Some("minecraft:ores".to_string()),
    });
    assert!(ing.matches(ore, &tags));
    assert!(!ing.matches(stone, &tags));
}

fn smelting(cat: &ItemCatalog, input: &str, output: &str, experience: &str) -> SmeltingRecipe {
    SmeltingRecipe {
        group: None,
        ingredient: Ingredient::One(item_component(id(cat, input))),
        result: id(cat, output),
        experience: experience.to_string(),
        cookingtime: 200,
    }
}

#[test]
fn first_loaded_smelting_recipe_wins() {
    let cat = catalog();
    let tags = TagRegistry::new();
    let mut registry = RecipeRegistry::new();
    registry.add_recipe(Recipe::Smelting(smelting(
        &cat,
        "minecraft:diamond_ore",
        "minecraft:diamond",
        "1",
    )));
    registry.add_recipe(Recipe::Smelting(smelting(
        &cat,
        "minecraft:diamond_ore",
        "minecraft:stone",
        "2",
    )));

    let hit = registry
        .match_smelting(id(&cat, "minecraft:diamond_ore"), &tags)
        .unwrap();
    assert_eq!(hit.0, id(&cat, "minecraft:diamond"));
    assert_eq!(hit.1, "1".to_string());
    assert!(registry
        .match_smelting(id(&cat, "minecraft:tnt"), &tags)
        .is_none());
}

#[test]
fn shapeless_boundary_behavior() {
    let cat = catalog();
    let tags = TagRegistry::new();
    let a = id(&cat, "minecraft:glass");
    let b = id(&cat, "minecraft:wet_sponge");
    let c = id(&cat, "minecraft:bedrock");
    let recipe = ShapelessRecipe {
        group: None,
        ingredients: Ingredient::Many(vec![item_component(a), item_component(b)]),
        result: ItemStack::new(id(&cat, "minecraft:tnt"), 1),
    };

    assert!(recipe.matches(&vec![a, b], &tags));
    assert!(recipe.matches(&vec![b, a], &tags));
    // fewer items than alternatives still match: the leftover is tolerated
    assert!(recipe.matches(&vec![a], &tags));
    // an extra item that matches no remaining alternative fails
    assert!(!recipe.matches(&vec![a, b, c], &tags));
    // a repeated item fails once its only alternative is consumed
    assert!(!recipe.matches(&vec![a, a], &tags));

    assert_eq!(
        recipe.match_self(&vec![a, b], &tags),
        Some(ItemStack::new(id(&cat, "minecraft:tnt"), 1))
    );
}

#[test]
fn smithing_positions_are_not_interchangeable() {
    let cat = catalog();
    let tags = TagRegistry::new();
    let base = id(&cat, "minecraft:diamond");
    let addition = id(&cat, "minecraft:iron_ingot");
    let recipe = SmithingRecipe {
        group: None,
        base: Ingredient::One(item_component(base)),
        addition: Ingredient::One(item_component(addition)),
        result: ItemStack::new(id(&cat, "minecraft:bedrock"), 1),
    };

    assert!(recipe.matches(base, addition, &tags));
    // each item would satisfy the other position, but fails its own
    assert!(!recipe.matches(addition, base, &tags));
    assert_eq!(
        recipe.match_self(base, addition, &tags),
        Some(id(&cat, "minecraft:bedrock"))
    );
    assert_eq!(recipe.match_self(addition, base, &tags), None);
}

#[test]
fn stonecutting_output_uses_configured_count() {
    let cat = catalog();
    let tags = TagRegistry::new();
    let mut registry = RecipeRegistry::new();
    registry.add_recipe(Recipe::Stonecutting(StonecuttingRecipe {
        group: None,
        ingredient: Ingredient::One(item_component(id(&cat, "minecraft:stone"))),
        result: id(&cat, "minecraft:bedrock"),
        count: 13,
    }));

    let out = registry
        .match_stonecutting(id(&cat, "minecraft:stone"), &tags)
        .unwrap();
    assert_eq!(out.count, 13);
    assert_eq!(out.item, id(&cat, "minecraft:bedrock"));
    assert_eq!(out.damage, None);
}

#[test]
fn cooking_time_defaults_per_kind() {
    assert_eq!(default_smelting_time(), 200);
    assert_eq!(default_smoking_time(), 100);
    assert_eq!(default_blasting_time(), 100);
    assert_eq!(default_campfire_time(), 100);

    let cat = catalog();
    let raw = r#"
    {
        "type": "minecraft:smelting",
        "ingredient": { "item": "minecraft:diamond_ore" },
        "result": "minecraft:diamond",
        "experience": 1
    }
    "#;
    if let Ok(Recipe::Smelting(recipe)) = Recipe::from_raw(raw, &cat) {
        assert_eq!(recipe.cookingtime, 200);
    } else {
        panic!("smelting descriptor without cookingtime must classify");
    }
}

#[test]
fn special_kind_parses_but_is_not_stored() {
    let cat = catalog();
    let raw = r#"{ "type": "minecraft:crafting_special_armordye" }"#;
    match Recipe::from_raw(raw, &cat) {
        Ok(Recipe::Special(kind)) => {
            assert_eq!(kind, "minecraft:crafting_special_armordye".to_string())
        }
        other => panic!("special descriptor must classify, got {:?}", other),
    }

    let mut registry = RecipeRegistry::new();
    registry.add_from_raw(raw, &cat).unwrap();
    let tags = TagRegistry::new();
    assert!(registry
        .match_smelting(id(&cat, "minecraft:stone"), &tags)
        .is_none());
}

#[test]
fn malformed_descriptors_are_refused() {
    let cat = catalog();
    // not JSON at all
    assert_eq!(
        Recipe::from_raw("not json", &cat),
        Err(RecipeLoadError::Parse)
    );
    // an unrecognized discriminator
    assert_eq!(
        Recipe::from_raw(r#"{ "type": "minecraft:brewing" }"#, &cat),
        Err(RecipeLoadError::Parse)
    );
    // an item name the catalog does not know
    let unknown = r#"
    {
        "type": "minecraft:smelting",
        "ingredient": { "item": "minecraft:unobtainium" },
        "result": "minecraft:diamond",
        "experience": 1
    }
    "#;
    assert_eq!(Recipe::from_raw(unknown, &cat), Err(RecipeLoadError::Parse));
    // a missing required field
    let missing = r#"
    {
        "type": "minecraft:smelting",
        "ingredient": { "item": "minecraft:diamond_ore" },
        "result": "minecraft:diamond"
    }
    "#;
    assert_eq!(Recipe::from_raw(missing, &cat), Err(RecipeLoadError::Parse));
    // a failed load leaves the registry untouched
    let mut registry = RecipeRegistry::new();
    assert!(registry.add_from_raw("not json", &cat).is_err());
    let tags = TagRegistry::new();
    assert!(registry
        .match_smelting(id(&cat, "minecraft:diamond_ore"), &tags)
        .is_none());
}

#[test]
fn add_from_raw_feeds_the_match_queries() {
    let cat = catalog();
    let tags = TagRegistry::new();
    let mut registry = RecipeRegistry::new();
    registry
        .add_from_raw(
            r#"
            {
                "type": "minecraft:smoking",
                "ingredient": { "item": "minecraft:glass" },
                "result": "minecraft:stone",
                "experience": 0.35
            }
            "#,
            &cat,
        )
        .unwrap();

    let hit = registry
        .match_smoking(id(&cat, "minecraft:glass"), &tags)
        .unwrap();
    assert_eq!(hit.0, id(&cat, "minecraft:stone"));
    assert_eq!(hit.1.parse::<f64>().unwrap(), 0.35);
}
