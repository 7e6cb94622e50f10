//! Tests of the configuration catalog and the navigation model.

use tod_docs::configuration::get_config;
use tod_docs::configuration::Config;
use tod_docs::get_nav;

#[test]
fn catalog_is_sorted_by_name() {
    let catalog = get_config();
    for pair in catalog.windows(2) {
        assert!(pair[0].name <= pair[1].name);
    }
}

#[test]
fn catalog_is_deterministic() {
    let a = get_config();
    let b = get_config();
    assert_eq!(a.len(), b.len());
    for i in 0..a.len() {
        assert_eq!(a[i], b[i]);
    }
}

#[test]
fn catalog_names_in_exact_order() {
    let names: Vec<String> = get_config().into_iter().map(|c| c.name).collect();
    let expected: Vec<&str> = vec![
        "bell_on_failure",
        "bell_on_success",
        "disable_links",
        "last_version_check",
        "natural_language_only",
        "next_id",
        "no_sections",
        "path",
        "sort_value",
        "sort_value.no_due_date",
        "sort_value.no_due_date",
        "sort_value.not_recurring",
        "sort_value.now",
        "sort_value.overdue",
        "sort_value.priority_high",
        "sort_value.priority_low",
        "sort_value.priority_medium",
        "sort_value.priority_none",
        "sort_value.today",
        "spinners",
        "timeout",
        "timezone",
        "token",
        "vecprojects",
        "verbose",
    ];
    assert_eq!(names.len(), expected.len());
    for i in 0..names.len() {
        assert_eq!(names[i], expected[i]);
    }
}

#[test]
fn timeout_entry_fields() {
    let catalog = get_config();
    let hits: Vec<&Config> = catalog.iter().filter(|c| c.name == "timeout").collect();
    assert_eq!(hits.len(), 1);
    assert_eq!(hits[0].data_type, "integer");
    assert_eq!(hits[0].default_value, "30 (seconds)");
    assert_eq!(hits[0].possible_values, "any positive integer in seconds");
}

#[test]
fn duplicate_entries_survive_and_stand_together() {
    let catalog = get_config();
    let positions: Vec<usize> = (0..catalog.len())
        .filter(|&i| catalog[i].name == "sort_value.no_due_date")
        .collect();
    assert_eq!(positions.len(), 2);
    assert_eq!(positions[1], positions[0] + 1);
    assert_eq!(catalog[positions[0]], catalog[positions[1]]);
}

#[test]
fn path_entry_keeps_historical_type_label() {
    // The authoring constant meant to say "string" has always read "boolean";
    // the catalog preserves that text until a product decision corrects it.
    let catalog = get_config();
    let hits: Vec<&Config> = catalog.iter().filter(|c| c.name == "path").collect();
    assert_eq!(hits.len(), 1);
    assert_eq!(hits[0].data_type, "boolean");
    assert_eq!(hits[0].default_value, "$XDG_CONFIG_HOME/tod.cfg");
}

#[test]
fn sort_value_sub_entries_are_flat_records() {
    let catalog = get_config();
    let parent: Vec<&Config> = catalog.iter().filter(|c| c.name == "sort_value").collect();
    assert_eq!(parent.len(), 1);
    assert_eq!(parent[0].data_type, "object");
    let subs = catalog.iter().filter(|c| c.name.starts_with("sort_value.")).count();
    assert_eq!(subs, 10);
}

#[test]
fn navigation_endpoints() {
    let nav = get_nav();
    assert_eq!(nav.len(), 3);
    assert_eq!(nav.first().unwrap().href, "/");
    assert_eq!(nav.first().unwrap().name, "Tod");
    assert_eq!(nav.last().unwrap().href, "/configuration");
    assert_eq!(nav[1].href, "/usage");
}
