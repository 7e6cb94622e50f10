//! Tests of page rendering and the route table.

use tod_docs::configuration::get_config;
use tod_docs::get_nav;
use tod_docs::render::render;
use tod_docs::render::Context;
use tod_docs::render::TemplateBindingError;
use tod_docs::route;
use tod_docs::text::str_eq;
use tod_docs::text::str_le;

#[test]
fn test_index() {
    let body = route("/").unwrap();
    assert!(body.contains("An unofficial Todoist CLI program. "));
}

#[test]
fn test_configuration() {
    let body = route("/configuration").unwrap();
    assert!(body.contains("Data is stored at $XDG_CONFIG_HOME/tod.cfg. This defaults to:"));
}

#[test]
fn test_usage() {
    let body = route("/usage").unwrap();
    assert!(body.contains("You can access help using the help flag"));
}

#[test]
fn every_page_carries_title_and_navigation() {
    let index = route("/").unwrap();
    assert!(index.contains("<title>Tod</title>"));
    let usage = route("/usage").unwrap();
    assert!(usage.contains("<title>Usage</title>"));
    let configuration = route("/configuration").unwrap();
    assert!(configuration.contains("<title>Configuration</title>"));
    for page in [&index, &usage, &configuration] {
        assert!(page.contains("<li><a href=\"/\">Tod</a></li>"));
        assert!(page.contains("<li><a href=\"/usage\">Usage</a></li>"));
        assert!(page.contains("<li><a href=\"/configuration\">Configuration</a></li>"));
    }
}

#[test]
fn configuration_page_lists_every_entry() {
    let body = route("/configuration").unwrap();
    assert!(body.contains("<td>timeout</td><td>integer</td><td>30 (seconds)</td>"));
    for entry in get_config() {
        assert!(body.contains(&entry.name));
        assert!(body.contains(&entry.description));
    }
}

#[test]
fn unknown_paths_match_no_route() {
    assert!(route("/nope").is_none());
    assert!(route("").is_none());
    assert!(route("/usage/").is_none());
    assert!(route("configuration").is_none());
}

#[test]
fn unknown_template_is_a_binding_error() {
    let context = Context {
        title: "Anything".to_string(),
        navigation: get_nav(),
        configuration: None,
    };
    assert_eq!(render("missing", context), Err(TemplateBindingError));
}

#[test]
fn configuration_template_needs_the_catalog() {
    let context = Context {
        title: "Configuration".to_string(),
        navigation: get_nav(),
        configuration: None,
    };
    assert_eq!(render("configuration", context), Err(TemplateBindingError));
    let supplied = Context {
        title: "Configuration".to_string(),
        navigation: get_nav(),
        configuration: Some(get_config()),
    };
    assert!(render("configuration", supplied).is_ok());
}

#[test]
fn render_binds_title_from_the_context() {
    let context = Context {
        title: "Elsewhere".to_string(),
        navigation: get_nav(),
        configuration: None,
    };
    let page = render("index", context).unwrap();
    assert!(page.contains("<title>Elsewhere</title>"));
}

#[test]
fn ordinal_string_comparison() {
    assert!(str_le("", ""));
    assert!(str_le("", "a"));
    assert!(!str_le("a", ""));
    assert!(str_le("abc", "abd"));
    assert!(!str_le("abd", "abc"));
    assert!(str_le("ab", "abc"));
    assert!(str_le("sort_value", "sort_value.no_due_date"));
    assert!(str_le("sort_value.no_due_date", "sort_value.not_recurring"));
    assert!(str_le("same", "same"));
    assert!(str_eq("same", "same"));
    assert!(!str_eq("same", "sane"));
    assert!(!str_eq("same", "sam"));
}
