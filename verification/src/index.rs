//! The home page.

use vstd::prelude::*;
use crate::render::Context;
use crate::render::page_html;
use crate::render::render;

verus! {

pub const INDEX_BODY: &'static str =
    "<h1>Tod</h1>\n<p>An unofficial Todoist CLI program. See the usage page to get started, and the configuration page for every option.</p>\n";

/// Body of the home page.
pub open spec fn index_body() -> Seq<char> {
    INDEX_BODY@
}

/// The home page, exactly.
pub open spec fn index_html() -> Seq<char> {
    page_html("Tod"@, crate::nav_seq(), index_body())
}

/// Renders the home page: the index template bound to the "Tod" title and
/// the navigation.
pub fn index() -> (r: String)
    ensures
        r@ == index_html(),
{
    let context = Context {
        title: "Tod".to_owned(),
        navigation: crate::get_nav(),
        configuration: None,
    };
    match render("index", context) {
        Ok(page) => page,
        Err(_) => unreached(),
    }
}

} // verus!
