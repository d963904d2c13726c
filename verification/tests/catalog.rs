use git_acm::catalog::{
    list_models, order_by_keys, refresh_catalog, resolve_folded, resolve_model, sort_catalog,
    FoldedModel, KeyedModel, Resolution, StoredModel,
};
use git_acm::error::CatalogError;

fn model(name: &str, slug: &str) -> StoredModel {
    StoredModel { name: name.to_string(), canonical_slug: slug.to_string() }
}

fn names(models: &[StoredModel]) -> Vec<&str> {
    models.iter().map(|m| m.name.as_str()).collect()
}

#[test]
fn stored_model_clone_is_equal() {
    let m = model("OpenAI: GPT-4", "openai/gpt-4");
    assert_eq!(m.clone(), m);
}

#[test]
fn sort_catalog_ignores_case() {
    let listing = vec![
        model("openai: GPT-4", "openai/gpt-4"),
        model("Anthropic: Sonnet", "anthropic/sonnet"),
        model("google: Gemini", "google/gemini"),
        model("Mistral: Large", "mistral/large"),
        model("anthropic: Haiku", "anthropic/haiku"),
    ];
    let sorted = sort_catalog(&listing);
    assert_eq!(
        names(&sorted),
        vec![
            "anthropic: Haiku",
            "Anthropic: Sonnet",
            "google: Gemini",
            "Mistral: Large",
            "openai: GPT-4",
        ]
    );
    assert_eq!(sorted[0].canonical_slug, "anthropic/haiku");
    assert_eq!(sorted[4].canonical_slug, "openai/gpt-4");
}

#[test]
fn sort_catalog_keeps_the_order_of_equal_names() {
    let listing = vec![
        model("Beta", "x/1"),
        model("ALPHA", "x/2"),
        model("beta", "x/3"),
        model("alpha", "x/4"),
        model("BETA", "x/5"),
        model("Alpha", "x/6"),
    ];
    let sorted = sort_catalog(&listing);
    let slugs: Vec<&str> = sorted.iter().map(|m| m.canonical_slug.as_str()).collect();
    assert_eq!(slugs, vec!["x/2", "x/4", "x/6", "x/1", "x/3", "x/5"]);
}

#[test]
fn sort_catalog_agrees_with_the_standard_sort() {
    let listing = vec![
        model("zeta", "a"),
        model("Eta", "b"),
        model("\u{c9}cole", "c"),
        model("eta 2", "d"),
        model("", "e"),
        model("Zeta", "f"),
        model("10", "g"),
        model("9", "h"),
        model("eta", "i"),
        model("\u{e9}cole", "j"),
    ];
    let mut expected = listing.clone();
    expected.sort_by_key(|m| m.name.to_lowercase());
    assert_eq!(sort_catalog(&listing), expected);
}

#[test]
fn sort_catalog_of_nothing_is_nothing() {
    assert_eq!(sort_catalog(&Vec::new()), Vec::<StoredModel>::new());
    let one = vec![model("Only", "only/one")];
    assert_eq!(sort_catalog(&one), one);
}

fn keyed(keys: [&str; 3]) -> Vec<KeyedModel> {
    let models = [model("first", "1"), model("second", "2"), model("third", "3")];
    keys.iter()
        .zip(models)
        .map(|(key, model)| KeyedModel { key: key.to_string(), model })
        .collect()
}

#[test]
fn order_by_keys_follows_the_keys_given() {
    assert_eq!(names(&order_by_keys(&keyed(["c", "a", "b"]))), vec!["second", "third", "first"]);
    assert_eq!(names(&order_by_keys(&keyed(["k", "k", "a"]))), vec!["third", "first", "second"]);
    assert_eq!(names(&order_by_keys(&keyed(["ab", "a", ""]))), vec!["third", "second", "first"]);
    assert_eq!(names(&order_by_keys(&keyed(["B", "a", "b"]))), vec!["first", "second", "third"]);
    assert_eq!(order_by_keys(&Vec::new()), Vec::<StoredModel>::new());
}

#[test]
fn refresh_of_an_unchanged_listing_gives_the_same_catalog() {
    let listing = vec![
        model("openai: GPT-4", "openai/gpt-4"),
        model("Anthropic: Sonnet", "anthropic/sonnet"),
        model("anthropic: sonnet", "anthropic/sonnet-2"),
        model("google: Gemini", "google/gemini"),
    ];
    let first = refresh_catalog(Some(&listing)).unwrap();
    let second = refresh_catalog(Some(&listing)).unwrap();
    assert_eq!(first, second);
    assert_eq!(first.len(), listing.len());
    let again = refresh_catalog(Some(&first)).unwrap();
    assert_eq!(again, first);
}

#[test]
fn refresh_without_a_listing_fails_and_offers_nothing_to_write() {
    assert_eq!(refresh_catalog(None), Err(CatalogError::FetchFailed));
}

#[test]
fn refresh_holds_every_model_of_the_listing() {
    let listing = vec![model("b", "1"), model("a", "2"), model("b", "1"), model("C", "3")];
    let catalog = refresh_catalog(Some(&listing)).unwrap();
    assert_eq!(catalog.len(), 4);
    for m in &listing {
        let wanted = listing.iter().filter(|x| *x == m).count();
        let found = catalog.iter().filter(|x| *x == m).count();
        assert_eq!(wanted, found);
    }
}

fn catalog() -> Vec<StoredModel> {
    vec![
        model("Anthropic: Sonnet", "anthropic/sonnet"),
        model("Google: Gemini 2.5 Flash", "google/gemini-2.5-flash"),
        model("Meta: Llama 3", "meta/llama-3"),
        model("OpenAI: GPT-4", "openai/gpt-4"),
    ]
}

#[test]
fn resolve_with_one_candidate_selects_it() {
    assert_eq!(
        resolve_model(&catalog(), "gpt-4"),
        Resolution::Selected(model("OpenAI: GPT-4", "openai/gpt-4"))
    );
}

#[test]
fn resolve_with_two_candidates_lists_both_and_selects_none() {
    let mut models = catalog();
    models.push(model("OpenAI: GPT-4 Turbo", "openai/gpt-4-turbo"));
    let resolved = resolve_model(&models, "gpt-4");
    assert_eq!(
        resolved,
        Resolution::Ambiguous(vec![
            model("OpenAI: GPT-4", "openai/gpt-4"),
            model("OpenAI: GPT-4 Turbo", "openai/gpt-4-turbo"),
        ])
    );
    assert_eq!(
        resolved.guidance("gpt-4"),
        vec![
            "Model not found. Did you mean:".to_string(),
            "  - OpenAI: GPT-4 (openai/gpt-4)".to_string(),
            "  - OpenAI: GPT-4 Turbo (openai/gpt-4-turbo)".to_string(),
        ]
    );
}

#[test]
fn resolve_with_no_candidate_says_so_and_points_to_a_refresh() {
    let models = vec![
        model("Anthropic: Sonnet", "anthropic/sonnet"),
        model("Meta: Llama 3", "meta/llama-3"),
    ];
    let resolved = resolve_model(&models, "gpt-4");
    assert_eq!(resolved, Resolution::NotFound);
    assert_eq!(
        resolved.guidance("gpt-4"),
        vec![
            "Model 'gpt-4' not found".to_string(),
            "Run 'git-acm get-models' and then 'git-acm list'".to_string(),
        ]
    );
}

#[test]
fn resolve_against_an_empty_catalog_finds_nothing() {
    assert_eq!(resolve_model(&Vec::new(), "gpt-4"), Resolution::NotFound);
    assert_eq!(resolve_model(&Vec::new(), ""), Resolution::NotFound);
}

#[test]
fn resolve_prefers_the_exact_id() {
    let models = vec![
        model("first", "OpenAI/GPT-4"),
        model("second", "openai/gpt-4"),
        model("third", "openai/gpt-4-turbo"),
    ];
    assert_eq!(
        resolve_model(&models, "openai/gpt-4"),
        Resolution::Selected(model("second", "openai/gpt-4"))
    );
    assert_eq!(
        resolve_model(&models, "OpenAI/GPT-4"),
        Resolution::Selected(model("first", "OpenAI/GPT-4"))
    );
}

#[test]
fn resolve_matches_id_or_name_without_regard_to_case() {
    let models = catalog();
    assert_eq!(
        resolve_model(&models, "OPENAI/GPT-4"),
        Resolution::Selected(model("OpenAI: GPT-4", "openai/gpt-4"))
    );
    assert_eq!(
        resolve_model(&models, "meta: llama 3"),
        Resolution::Selected(model("Meta: Llama 3", "meta/llama-3"))
    );
    let twice = vec![model("Same", "a/one"), model("same", "a/two")];
    assert_eq!(resolve_model(&twice, "SAME"), Resolution::Selected(model("Same", "a/one")));
}

#[test]
fn resolve_by_name_wins_over_a_part_of_another_id() {
    let models = vec![model("gpt-4", "vendor/alpha"), model("Other", "openai/gpt-4-turbo")];
    assert_eq!(
        resolve_model(&models, "gpt-4"),
        Resolution::Selected(model("gpt-4", "vendor/alpha"))
    );
}

#[test]
fn resolve_looks_for_parts_in_ids_only_and_without_regard_to_case() {
    let models = vec![model("Has gpt-4 in its name", "vendor/alpha"), model("Other", "Vendor/GPT-4o")];
    assert_eq!(
        resolve_model(&models, "gpt-4"),
        Resolution::Selected(model("Other", "Vendor/GPT-4o"))
    );
    assert_eq!(
        resolve_model(&models, "GPT-4"),
        Resolution::Selected(model("Other", "Vendor/GPT-4o"))
    );
    assert_eq!(resolve_model(&models, "its name"), Resolution::NotFound);
}

#[test]
fn resolve_names_five_candidates_at_most() {
    let mut models = Vec::new();
    for i in 0..8 {
        models.push(model(&format!("Model {}", i), &format!("vendor/model-{}", i)));
    }
    match resolve_model(&models, "vendor/") {
        Resolution::Ambiguous(candidates) => {
            assert_eq!(candidates.len(), 5);
            assert_eq!(candidates, models[..5].to_vec());
        }
        other => panic!("{:?}", other),
    }
    models.truncate(5);
    match resolve_model(&models, "model-") {
        Resolution::Ambiguous(candidates) => assert_eq!(candidates, models),
        other => panic!("{:?}", other),
    }
    models.truncate(2);
    match resolve_model(&models, "model-") {
        Resolution::Ambiguous(candidates) => assert_eq!(candidates, models),
        other => panic!("{:?}", other),
    }
}

#[test]
fn resolve_of_the_empty_name_is_ambiguous_in_a_catalog_of_several() {
    assert_eq!(
        resolve_model(&catalog()[..1].to_vec(), ""),
        Resolution::Selected(model("Anthropic: Sonnet", "anthropic/sonnet"))
    );
    match resolve_model(&catalog(), "") {
        Resolution::Ambiguous(candidates) => assert_eq!(candidates, catalog()),
        other => panic!("{:?}", other),
    }
}

fn folded(name: &str, slug: &str, folded_name: &str, folded_slug: &str) -> FoldedModel {
    FoldedModel {
        model: model(name, slug),
        folded_name: folded_name.to_string(),
        folded_slug: folded_slug.to_string(),
    }
}

#[test]
fn resolve_folded_goes_by_the_folded_forms_it_is_given() {
    let entries = vec![
        folded("One", "v/One", "one", "v/one"),
        folded("Two", "v/Two", "two", "v/two"),
    ];
    assert_eq!(resolve_folded(&entries, "v/Two", "v/two"), Resolution::Selected(model("Two", "v/Two")));
    assert_eq!(resolve_folded(&entries, "ONE", "one"), Resolution::Selected(model("One", "v/One")));
    assert_eq!(resolve_folded(&entries, "/T", "/t"), Resolution::Selected(model("Two", "v/Two")));
    assert_eq!(
        resolve_folded(&entries, "V/", "v/"),
        Resolution::Ambiguous(vec![model("One", "v/One"), model("Two", "v/Two")])
    );
    assert_eq!(resolve_folded(&entries, "/T", "/T"), Resolution::NotFound);
    assert_eq!(resolve_folded(&entries, "three", "three"), Resolution::NotFound);
}

#[test]
fn selection_needs_no_guidance() {
    assert_eq!(Resolution::Selected(model("a", "b")).guidance("a"), Vec::<String>::new());
}

#[test]
fn list_models_shows_one_line_per_model() {
    assert_eq!(
        list_models(&catalog()),
        vec![
            "  • Anthropic: Sonnet".to_string(),
            "  • Google: Gemini 2.5 Flash".to_string(),
            "  • Meta: Llama 3".to_string(),
            "  • OpenAI: GPT-4".to_string(),
        ]
    );
    assert_eq!(list_models(&Vec::new()), Vec::<String>::new());
}

fn by_the_rules(catalog: &[StoredModel], input: &str) -> Resolution {
    let target = input.to_lowercase();
    if let Some(found) = catalog.iter().find(|m| m.canonical_slug == input) {
        return Resolution::Selected(found.clone());
    }
    if let Some(found) = catalog
        .iter()
        .find(|m| m.canonical_slug.to_lowercase() == target || m.name.to_lowercase() == target)
    {
        return Resolution::Selected(found.clone());
    }
    let candidates: Vec<StoredModel> = catalog
        .iter()
        .filter(|m| m.canonical_slug.to_lowercase().contains(&target))
        .cloned()
        .collect();
    match candidates.len() {
        0 => Resolution::NotFound,
        1 => Resolution::Selected(candidates[0].clone()),
        _ => Resolution::Ambiguous(candidates.into_iter().take(5).collect()),
    }
}

#[test]
fn resolve_agrees_with_a_direct_reading_of_the_rules() {
    let words = ["a", "A", "ab", "b/a", "B/A", "b/ab", "x", "B/X", "a/x/a", "", "\u{c9}", "\u{e9}"];
    let mut catalogs: Vec<Vec<StoredModel>> = vec![Vec::new()];
    for (i, name) in words.iter().enumerate() {
        let mut grown = catalogs[i].clone();
        grown.push(model(name, words[(i * 5 + 3) % words.len()]));
        catalogs.push(grown);
    }
    let mut wide = Vec::new();
    for name in words {
        for slug in words {
            wide.push(model(name, slug));
        }
    }
    catalogs.push(wide);
    for catalog in &catalogs {
        for input in words {
            assert_eq!(resolve_model(catalog, input), by_the_rules(catalog, input), "{:?}", input);
        }
    }
}
