//! The page renderer: binds a template name to a context (title, navigation,
//! and, for the configuration page, the catalog) and yields the page's HTML
//! text. An unknown template name, or a context missing the field a template
//! requires, is a binding error; nothing is rendered then.

use vstd::prelude::*;
use crate::Link;
use crate::LinkData;
use crate::configuration::Config;
use crate::configuration::ConfigData;
use crate::configuration::config_rows_html;
use crate::configuration::configuration_body;
use crate::index::index_body;
use crate::usage::usage_body;
use crate::text::str_eq;

verus! {

/// The named fields a template can draw on: a title, the navigation, and
/// zero or one page-specific field (the configuration catalog).
pub struct Context {
    pub title: String,
    pub navigation: Vec<Link>,
    pub configuration: Option<Vec<Config>>,
}

/// The one error of the renderer: the template name is unknown, or the
/// context lacks a field the template requires.
#[derive(Debug, PartialEq, Eq)]
pub struct TemplateBindingError;

/// The page-specific field of a context, as a mathematical value.
pub open spec fn context_configuration(context: Context) -> Option<Seq<ConfigData>> {
    match context.configuration {
        Some(configs) => Some(configs.deep_view()),
        None => None,
    }
}

/// HTML for one navigation link.
pub open spec fn nav_link_html(l: LinkData) -> Seq<char> {
    "<li><a href=\""@ + l.href + "\">"@ + l.name + "</a></li>"@
}

/// HTML for the navigation list: one entry per link, in order.
pub open spec fn nav_html(nav: Seq<LinkData>) -> Seq<char>
    decreases nav.len(),
{
    if nav.len() == 0 {
        Seq::empty()
    } else {
        nav_html(nav.drop_last()) + nav_link_html(nav.last())
    }
}

proof fn lemma_nav_html_push(nav: Seq<LinkData>, l: LinkData)
    ensures
        nav_html(nav.push(l)) == nav_html(nav) + nav_link_html(l),
{
    assert(nav.push(l).drop_last() =~= nav);
}

/// The common page scaffold: head with the title, the navigation, the body.
pub open spec fn page_html(title: Seq<char>, nav: Seq<LinkData>, body: Seq<char>) -> Seq<char> {
    "<!DOCTYPE html>\n<html>\n<head><title>"@ + title + "</title></head>\n<body>\n<nav><ul>"@
        + nav_html(nav) + "</ul></nav>\n<main>\n"@ + body + "</main>\n</body>\n</html>\n"@
}

/// What rendering yields: the page for a known template name whose context
/// carries the field it needs, and nothing otherwise.
pub open spec fn render_spec(
    name: Seq<char>,
    title: Seq<char>,
    nav: Seq<LinkData>,
    configuration: Option<Seq<ConfigData>>,
) -> Option<Seq<char>> {
    if name == "index"@ {
        Some(page_html(title, nav, index_body()))
    } else if name == "usage"@ {
        Some(page_html(title, nav, usage_body()))
    } else if name == "configuration"@ {
        match configuration {
            Some(configs) => Some(page_html(title, nav, configuration_body(configs))),
            None => None,
        }
    } else {
        None
    }
}

/// The three template names are pairwise distinct strings.
pub proof fn lemma_template_names_distinct()
    ensures
        "index"@ != "usage"@,
        "index"@ != "configuration"@,
        "usage"@ != "configuration"@,
{
    reveal_strlit("index");
    reveal_strlit("usage");
    reveal_strlit("configuration");
    assert("index"@.len() == 5);
    assert("usage"@.len() == 5);
    assert("configuration"@.len() == 13);
    assert("index"@[0] == 'i');
    assert("usage"@[0] == 'u');
}

/// Appends the navigation list's HTML.
fn push_nav(out: &mut String, nav: &Vec<Link>)
    ensures
        final (out)@ == old(out)@ + nav_html(nav.deep_view()),
{
    let ghost base = out@;
    let ghost nv = nav.deep_view();
    let mut i: usize = 0;
    proof {
        assert(nv.take(0) =~= Seq::<LinkData>::empty());
        assert(out@ =~= base + nav_html(nv.take(0)));
    }
    while i < nav.len()
        invariant
            i <= nav.len(),
            nv == nav.deep_view(),
            nv.len() == nav.len(),
            out@ == base + nav_html(nv.take(i as int)),
        decreases nav.len() - i,
    {
        out.append("<li><a href=\"");
        out.append(nav[i].href.as_str());
        out.append("\">");
        out.append(nav[i].name.as_str());
        out.append("</a></li>");
        proof {
            assert(nv.take(i + 1) =~= nv.take(i as int).push(nv[i as int]));
            lemma_nav_html_push(nv.take(i as int), nv[i as int]);
            assert(out@ =~= base + nav_html(nv.take(i + 1)));
        }
        i = i + 1;
    }
    proof {
        assert(nv.take(nav.len() as int) =~= nv);
    }
}

/// Builds a page from its title, navigation and body.
fn render_page(title: &str, nav: &Vec<Link>, body: &str) -> (r: String)
    ensures
        r@ == page_html(title@, nav.deep_view(), body@),
{
    let mut out = String::new();
    out.append("<!DOCTYPE html>\n<html>\n<head><title>");
    out.append(title);
    out.append("</title></head>\n<body>\n<nav><ul>");
    push_nav(&mut out, nav);
    out.append("</ul></nav>\n<main>\n");
    out.append(body);
    out.append("</main>\n</body>\n</html>\n");
    proof {
        assert(out@ =~= page_html(title@, nav.deep_view(), body@));
    }
    out
}

/// Appends one table row per descriptor record, in catalog order.
fn push_config_rows(out: &mut String, configs: &Vec<Config>)
    ensures
        final (out)@ == old(out)@ + config_rows_html(configs.deep_view()),
{
    let ghost base = out@;
    let ghost cv = configs.deep_view();
    let mut i: usize = 0;
    proof {
        assert(cv.take(0) =~= Seq::<ConfigData>::empty());
        assert(out@ =~= base + config_rows_html(cv.take(0)));
    }
    while i < configs.len()
        invariant
            i <= configs.len(),
            cv == configs.deep_view(),
            cv.len() == configs.len(),
            out@ == base + config_rows_html(cv.take(i as int)),
        decreases configs.len() - i,
    {
        out.append("<tr><td>");
        out.append(configs[i].name.as_str());
        out.append("</td><td>");
        out.append(configs[i].data_type.as_str());
        out.append("</td><td>");
        out.append(configs[i].default_value.as_str());
        out.append("</td><td>");
        out.append(configs[i].possible_values.as_str());
        out.append("</td><td>");
        out.append(configs[i].description.as_str());
        out.append("</td></tr>\n");
        proof {
            assert(cv.take(i + 1) =~= cv.take(i as int).push(cv[i as int]));
            crate::configuration::lemma_config_rows_html_push(cv.take(i as int), cv[i as int]);
            assert(out@ =~= base + config_rows_html(cv.take(i + 1)));
        }
        i = i + 1;
    }
    proof {
        assert(cv.take(configs.len() as int) =~= cv);
    }
}

/// Binds a template name to a context and renders the page. Fails exactly
/// when the name names no template, or the configuration template is asked
/// for without a catalog in the context.
pub fn render(template_name: &str, context: Context) -> (r: Result<String, TemplateBindingError>)
    ensures
        r is Ok <==> render_spec(
            template_name@,
            context.title@,
            context.navigation.deep_view(),
            context_configuration(context),
        ) is Some,
        r is Ok ==> r->Ok_0@ == render_spec(
            template_name@,
            context.title@,
            context.navigation.deep_view(),
            context_configuration(context),
        )->Some_0,
{
    if str_eq(template_name, "index") {
        Ok(render_page(context.title.as_str(), &context.navigation, crate::index::INDEX_BODY))
    } else if str_eq(template_name, "usage") {
        Ok(render_page(context.title.as_str(), &context.navigation, crate::usage::USAGE_BODY))
    } else if str_eq(template_name, "configuration") {
        match context.configuration {
            Some(configs) => {
                let mut body = String::new();
                body.append(crate::configuration::CONFIGURATION_INTRO);
                push_config_rows(&mut body, &configs);
                body.append("</table>\n");
                proof {
                    assert(body@ =~= configuration_body(configs.deep_view()));
                }
                Ok(render_page(context.title.as_str(), &context.navigation, body.as_str()))
            },
            None => Err(TemplateBindingError),
        }
    } else {
        Err(TemplateBindingError)
    }
}

} // verus!
