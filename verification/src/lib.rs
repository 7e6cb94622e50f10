//! A small documentation site for the `tod` command-line program, reduced to
//! its pure core: a catalog of configuration-option descriptors sorted by
//! name, a navigation menu, and page rendering from those values to HTML
//! text. Serving the pages over HTTP is left to the surrounding binary.

pub mod configuration;
pub mod index;
pub mod render;
pub mod text;
pub mod usage;

use vstd::prelude::*;

verus! {

/// One link of the site navigation: a display label and a site-relative path.
#[derive(Debug, PartialEq, Eq)]
pub struct Link {
    pub name: String,
    pub href: String,
}

/// Mathematical model of a `Link`: both fields as character sequences.
pub struct LinkData {
    pub name: Seq<char>,
    pub href: Seq<char>,
}

impl View for Link {
    type V = LinkData;

    open spec fn view(&self) -> LinkData {
        LinkData { name: self.name@, href: self.href@ }
    }
}

impl DeepView for Link {
    type V = LinkData;

    open spec fn deep_view(&self) -> LinkData {
        self.view()
    }
}

/// The navigation shown on every page: the site root first, then the usage
/// page, then the configuration reference last.
pub open spec fn nav_seq() -> Seq<LinkData> {
    seq![
        LinkData { name: "Tod"@, href: "/"@ },
        LinkData { name: "Usage"@, href: "/usage"@ },
        LinkData { name: "Configuration"@, href: "/configuration"@ },
    ]
}

/// Builds the navigation menu afresh; every call yields the same three links.
pub fn get_nav() -> (nav: Vec<Link>)
    ensures
        nav.deep_view() == nav_seq(),
{
    let mut nav: Vec<Link> = Vec::new();
    nav.push(Link { name: "Tod".to_owned(), href: "/".to_owned() });
    nav.push(Link { name: "Usage".to_owned(), href: "/usage".to_owned() });
    nav.push(Link { name: "Configuration".to_owned(), href: "/configuration".to_owned() });
    proof {
        assert(nav.deep_view() =~= nav_seq());
    }
    nav
}

/// The navigation always starts at the site root and ends at the
/// configuration reference.
pub proof fn lemma_nav_endpoints()
    ensures
        nav_seq().len() == 3,
        nav_seq().first().href == "/"@,
        nav_seq().last().href == "/configuration"@,
{
}

/// The routing table: the page served for a path, and nothing for any path
/// outside the three routes.
pub open spec fn route_spec(path: Seq<char>) -> Option<Seq<char>> {
    if path == "/"@ {
        Some(index::index_html())
    } else if path == "/usage"@ {
        Some(usage::usage_html())
    } else if path == "/configuration"@ {
        Some(configuration::configuration_html())
    } else {
        None
    }
}

/// Maps a request path to the page it serves: the home page at the root, the
/// usage page, and the configuration reference. Any other path matches no
/// route.
pub fn route(path: &str) -> (r: Option<String>)
    ensures
        r is Some <==> route_spec(path@) is Some,
        r is Some ==> r->Some_0@ == route_spec(path@)->Some_0,
{
    if text::str_eq(path, "/") {
        Some(index::index())
    } else if text::str_eq(path, "/usage") {
        Some(usage::usage())
    } else if text::str_eq(path, "/configuration") {
        Some(configuration::configuration())
    } else {
        None
    }
}

} // verus!
