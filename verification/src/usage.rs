//! The usage page.

use vstd::prelude::*;
use crate::render::Context;
use crate::render::page_html;
use crate::render::render;

verus! {

pub const USAGE_BODY: &'static str =
    "<h1>Usage</h1>\n<p>You can access help using the help flag: <code>tod -h</code></p>\n";

/// Body of the usage page.
pub open spec fn usage_body() -> Seq<char> {
    USAGE_BODY@
}

/// The usage page, exactly.
pub open spec fn usage_html() -> Seq<char> {
    page_html("Usage"@, crate::nav_seq(), usage_body())
}

/// Renders the usage page: the usage template bound to the "Usage" title and
/// the navigation.
pub fn usage() -> (r: String)
    ensures
        r@ == usage_html(),
{
    let context = Context {
        title: "Usage".to_owned(),
        navigation: crate::get_nav(),
        configuration: None,
    };
    proof {
        crate::render::lemma_template_names_distinct();
    }
    match render("usage", context) {
        Ok(page) => page,
        Err(_) => unreached(),
    }
}

} // verus!
