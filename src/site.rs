//! Composing the four pages of the site from fragments, settings and
//! manifests.

use vstd::prelude::*;
use crate::config::SiteConfig;
use crate::date::{CalendarDate, date_text};
use crate::error::{Fragment, SiteError};
use crate::manifest::{Manifests, manifests_outcome};
use crate::template::{
    Binding, Datum, DatumView, TemplateSet, context_view, render_outcome, text_binding,
};

verus! {

/// The settings as mathematical strings.
pub struct ConfigView {
    pub version: Seq<char>,
    pub version_for_url: Seq<char>,
    pub rust_version: Seq<char>,
}

impl SiteConfig {
    pub open spec fn view(&self) -> ConfigView {
        ConfigView {
            version: self.version@,
            version_for_url: self.version_for_url@,
            rust_version: self.rust_version@,
        }
    }
}

/// The four pages of the site.
#[derive(Clone, Copy, Debug, PartialEq, Eq, Structural)]
pub enum PageKind {
    Start,
    Api,
    Guide,
    Landing,
}

/// The order in which pages are composed.
pub open spec fn page_order() -> Seq<PageKind> {
    seq![PageKind::Start, PageKind::Api, PageKind::Guide, PageKind::Landing]
}

impl PageKind {
    pub open spec fn title(&self) -> Seq<char> {
        match self {
            PageKind::Start => "Holochain Installation Instructions"@,
            PageKind::Api => "Holochain API Reference"@,
            PageKind::Guide => "Holochain Guidebook Versions"@,
            PageKind::Landing => "Holochain Developer Documentation"@,
        }
    }

    /// Every page but the landing page carries a breadcrumb header.
    pub open spec fn has_header(&self) -> bool {
        !(self is Landing)
    }

    pub open spec fn breadcrumb(&self) -> Seq<char> {
        match self {
            PageKind::Start => "Quick Start"@,
            PageKind::Api => "API Versions"@,
            PageKind::Guide => "Guidebook"@,
            PageKind::Landing => ""@,
        }
    }

    pub open spec fn body_class(&self) -> Seq<char> {
        match self {
            PageKind::Landing => "landing-page"@,
            _ => "body-green"@,
        }
    }

    pub open spec fn path(&self) -> Seq<char> {
        match self {
            PageKind::Start => "start.html"@,
            PageKind::Api => "api/index.html"@,
            PageKind::Guide => "guide/index.html"@,
            PageKind::Landing => "index.html"@,
        }
    }

    pub open spec fn body_fragment(&self) -> Fragment {
        match self {
            PageKind::Start => Fragment::Start,
            PageKind::Api => Fragment::Api,
            PageKind::Guide => Fragment::Guide,
            PageKind::Landing => Fragment::Landing,
        }
    }

    /// The pages whose body shows a manifest.
    pub open spec fn shows_manifest(&self) -> bool {
        self is Api || self is Guide
    }

    /// Whether the page carries a breadcrumb header.
    pub fn has_header_exec(&self) -> (r: bool)
        ensures
            r == self.has_header(),
    {
        !matches!(self, PageKind::Landing)
    }

    /// The page title, shown by the head fragment.
    pub fn title_text(&self) -> (r: &'static str)
        ensures
            r@ == self.title(),
    {
        match self {
            PageKind::Start => "Holochain Installation Instructions",
            PageKind::Api => "Holochain API Reference",
            PageKind::Guide => "Holochain Guidebook Versions",
            PageKind::Landing => "Holochain Developer Documentation",
        }
    }

    /// The breadcrumb text, shown by the header fragment.
    pub fn breadcrumb_text(&self) -> (r: &'static str)
        ensures
            r@ == self.breadcrumb(),
    {
        match self {
            PageKind::Start => "Quick Start",
            PageKind::Api => "API Versions",
            PageKind::Guide => "Guidebook",
            PageKind::Landing => "",
        }
    }

    /// The CSS class of the page's body element.
    pub fn body_class_text(&self) -> (r: &'static str)
        ensures
            r@ == self.body_class(),
    {
        match self {
            PageKind::Landing => "landing-page",
            _ => "body-green",
        }
    }

    /// Where the page is written, relative to the output root.
    pub fn path_text(&self) -> (r: &'static str)
        ensures
            r@ == self.path(),
    {
        match self {
            PageKind::Start => "start.html",
            PageKind::Api => "api/index.html",
            PageKind::Guide => "guide/index.html",
            PageKind::Landing => "index.html",
        }
    }

    /// The fragment that holds the page's body.
    pub fn fragment(&self) -> (r: Fragment)
        ensures
            r == self.body_fragment(),
    {
        match self {
            PageKind::Start => Fragment::Start,
            PageKind::Api => Fragment::Api,
            PageKind::Guide => Fragment::Guide,
            PageKind::Landing => Fragment::Landing,
        }
    }
}

pub open spec fn text_entry(key: Seq<char>, value: Seq<char>) -> (Seq<char>, DatumView) {
    (key, DatumView::Text(value))
}

pub open spec fn footer_context(c: ConfigView) -> Seq<(Seq<char>, DatumView)> {
    seq![text_entry("version_for_url"@, c.version_for_url)]
}

pub open spec fn head_context(kind: PageKind) -> Seq<(Seq<char>, DatumView)> {
    seq![text_entry("title"@, kind.title())]
}

pub open spec fn header_context(kind: PageKind) -> Seq<(Seq<char>, DatumView)> {
    seq![text_entry("breadcrumb"@, kind.breadcrumb())]
}

/// The context of a page's body fragment; `json` is the manifest that the
/// API and guide pages show.
pub open spec fn body_context(
    kind: PageKind,
    c: ConfigView,
    json: Option<serde_json::Value>,
    date: Seq<char>,
    header: Seq<char>,
) -> Seq<(Seq<char>, DatumView)> {
    match kind {
        PageKind::Start => seq![
            text_entry("header"@, header),
            text_entry("date"@, date),
            text_entry("version"@, c.version),
            text_entry("version_for_url"@, c.version_for_url),
            text_entry("rust_version"@, c.rust_version),
        ],
        PageKind::Api => seq![
            text_entry("header"@, header),
            text_entry("version"@, c.version),
            ("api_versions"@, DatumView::Json(json.unwrap())),
        ],
        PageKind::Guide => seq![
            text_entry("header"@, header),
            text_entry("version"@, c.version),
            ("guide_versions"@, DatumView::Json(json.unwrap())),
        ],
        PageKind::Landing => seq![text_entry("version"@, c.version)],
    }
}

/// The context of the outer shell that wraps every page.
pub open spec fn shell_context(
    kind: PageKind,
    head: Seq<char>,
    body: Seq<char>,
    footer: Seq<char>,
) -> Seq<(Seq<char>, DatumView)> {
    seq![
        text_entry("body_class"@, kind.body_class()),
        text_entry("head"@, head),
        text_entry("body"@, body),
        text_entry("footer"@, footer),
    ]
}

/// The header of a page: rendered where the page has one, empty otherwise.
pub open spec fn header_outcome(t: TemplateSet, kind: PageKind) -> Result<Seq<char>, SiteError> {
    if kind.has_header() {
        render_outcome(t.header@, header_context(kind), Fragment::Header)
    } else {
        Ok(Seq::empty())
    }
}

/// Composing one page: head, header, body, then the shell around them with
/// the footer rendered once for the whole site.
pub open spec fn page_outcome(
    t: TemplateSet,
    kind: PageKind,
    c: ConfigView,
    json: Option<serde_json::Value>,
    date: Seq<char>,
    footer: Seq<char>,
) -> Result<Seq<char>, SiteError> {
    match render_outcome(t.head@, head_context(kind), Fragment::Head) {
        Err(e) => Err(e),
        Ok(head) => match header_outcome(t, kind) {
            Err(e) => Err(e),
            Ok(header) => match render_outcome(
                t.source_of(kind.body_fragment()),
                body_context(kind, c, json, date, header),
                kind.body_fragment(),
            ) {
                Err(e) => Err(e),
                Ok(body) => render_outcome(
                    t.shell@,
                    shell_context(kind, head, body, footer),
                    Fragment::Shell,
                ),
            },
        },
    }
}

/// The rendered footer.
pub open spec fn footer_outcome(t: TemplateSet, c: ConfigView) -> Result<Seq<char>, SiteError> {
    render_outcome(t.footer@, footer_context(c), Fragment::Footer)
}

/// Rendering the whole site once settings and manifests are in hand: every
/// fragment is checked, the footer is rendered, then the four pages in
/// `page_order`. Each page is its path and its text.
pub open spec fn pages_outcome(
    t: TemplateSet,
    c: ConfigView,
    m: (serde_json::Value, serde_json::Value),
    date: Seq<char>,
) -> Result<Seq<(Seq<char>, Seq<char>)>, SiteError> {
    match t.first_broken() {
        Some(f) => Err(SiteError::Template(f)),
        None => match footer_outcome(t, c) {
            Err(e) => Err(e),
            Ok(footer) => match page_outcome(t, PageKind::Start, c, None, date, footer) {
                Err(e) => Err(e),
                Ok(start) => match page_outcome(t, PageKind::Api, c, Some(m.0), date, footer) {
                    Err(e) => Err(e),
                    Ok(api) => match page_outcome(
                        t,
                        PageKind::Guide,
                        c,
                        Some(m.1),
                        date,
                        footer,
                    ) {
                        Err(e) => Err(e),
                        Ok(guide) => match page_outcome(
                            t,
                            PageKind::Landing,
                            c,
                            None,
                            date,
                            footer,
                        ) {
                            Err(e) => Err(e),
                            Ok(landing) => Ok(
                                seq![
                                    (PageKind::Start.path(), start),
                                    (PageKind::Api.path(), api),
                                    (PageKind::Guide.path(), guide),
                                    (PageKind::Landing.path(), landing),
                                ],
                            ),
                        },
                    },
                },
            },
        },
    }
}

/// The settings, if all three are present, else the first one missing.
pub open spec fn config_outcome(
    version: Option<Seq<char>>,
    version_for_url: Option<Seq<char>>,
    rust_version: Option<Seq<char>>,
) -> Result<ConfigView, SiteError> {
    match (version, version_for_url, rust_version) {
        (Some(v), Some(u), Some(r)) => Ok(
            ConfigView { version: v, version_for_url: u, rust_version: r },
        ),
        (None, _, _) => Err(SiteError::Configuration(crate::error::Setting::Version)),
        (Some(_), None, _) => Err(SiteError::Configuration(crate::error::Setting::VersionForUrl)),
        (Some(_), Some(_), None) => Err(
            SiteError::Configuration(crate::error::Setting::RustVersion),
        ),
    }
}

/// A whole build: settings first, then manifests, then templates.
pub open spec fn site_outcome(
    version: Option<Seq<char>>,
    version_for_url: Option<Seq<char>>,
    rust_version: Option<Seq<char>>,
    api_text: Seq<char>,
    guide_text: Seq<char>,
    t: TemplateSet,
    date: Seq<char>,
) -> Result<Seq<(Seq<char>, Seq<char>)>, SiteError> {
    match config_outcome(version, version_for_url, rust_version) {
        Err(e) => Err(e),
        Ok(c) => match manifests_outcome(api_text, guide_text) {
            Err(e) => Err(e),
            Ok(m) => pages_outcome(t, c, m, date),
        },
    }
}

/// A rendered page and where it goes.
pub struct Page {
    /// Path relative to the output root, `/`-separated.
    pub path: String,
    /// The page's full text.
    pub html: String,
}

pub open spec fn pages_view(pages: Seq<Page>) -> Seq<(Seq<char>, Seq<char>)> {
    pages.map_values(|p: Page| (p.path@, p.html@))
}

pub open spec fn opt_view(s: Option<String>) -> Option<Seq<char>> {
    match s {
        Some(v) => Some(v@),
        None => None,
    }
}

/// The bindings of a page's body fragment.
fn body_bindings(
    kind: PageKind,
    c: &SiteConfig,
    json: Option<serde_json::Value>,
    date: &String,
    header: String,
) -> (r: Vec<Binding>)
    requires
        kind.shows_manifest() ==> json is Some,
    ensures
        context_view(r@) == body_context(kind, c.view(), json, date@, header@),
{
    let r = match kind {
        PageKind::Start => vec![
            text_binding("header", header),
            text_binding("date", date.clone()),
            text_binding("version", c.version.clone()),
            text_binding("version_for_url", c.version_for_url.clone()),
            text_binding("rust_version", c.rust_version.clone()),
        ],
        PageKind::Api => {
            let j = json.unwrap();
            vec![
                text_binding("header", header),
                text_binding("version", c.version.clone()),
                Binding { key: "api_versions".to_owned(), value: Datum::Json(j) },
            ]
        },
        PageKind::Guide => {
            let j = json.unwrap();
            vec![
                text_binding("header", header),
                text_binding("version", c.version.clone()),
                Binding { key: "guide_versions".to_owned(), value: Datum::Json(j) },
            ]
        },
        PageKind::Landing => vec![text_binding("version", c.version.clone())],
    };
    assert(context_view(r@) =~= body_context(kind, c.view(), json, date@, header@));
    r
}

/// Composes one page around the footer rendered for the site.
fn compose_page(
    t: &TemplateSet,
    kind: PageKind,
    c: &SiteConfig,
    json: Option<serde_json::Value>,
    date: &String,
    footer: &String,
) -> (r: Result<String, SiteError>)
    requires
        kind.shows_manifest() ==> json is Some,
    ensures
        match r {
            Ok(s) => page_outcome(*t, kind, c.view(), json, date@, footer@) == Ok::<
                Seq<char>,
                SiteError,
            >(s@),
            Err(e) => page_outcome(*t, kind, c.view(), json, date@, footer@) == Err::<
                Seq<char>,
                SiteError,
            >(e),
        },
{
    let head_ctx = vec![text_binding("title", kind.title_text().to_owned())];
    assert(context_view(head_ctx@) =~= head_context(kind));
    let head = t.render(Fragment::Head, &head_ctx)?;
    let header = if kind.has_header_exec() {
        let header_ctx = vec![text_binding("breadcrumb", kind.breadcrumb_text().to_owned())];
        assert(context_view(header_ctx@) =~= header_context(kind));
        t.render(Fragment::Header, &header_ctx)?
    } else {
        String::new()
    };
    let body_ctx = body_bindings(kind, c, json, date, header);
    let body = t.render(kind.fragment(), &body_ctx)?;
    let shell_ctx = vec![
        text_binding("body_class", kind.body_class_text().to_owned()),
        text_binding("head", head),
        text_binding("body", body),
        text_binding("footer", footer.clone()),
    ];
    assert(context_view(shell_ctx@) =~= shell_context(kind, head@, body@, footer@));
    t.render(Fragment::Shell, &shell_ctx)
}

/// Renders the four pages in `page_order`, once every fragment has been
/// checked and the footer rendered.
pub fn render_site(t: &TemplateSet, c: &SiteConfig, m: Manifests, date: &CalendarDate) -> (r:
    Result<Vec<Page>, SiteError>)
    requires
        date.wf(),
    ensures
        match r {
            Ok(p) => pages_outcome(*t, c.view(), m.pair(), date_text(*date)) == Ok::<
                Seq<(Seq<char>, Seq<char>)>,
                SiteError,
            >(pages_view(p@)),
            Err(e) => pages_outcome(*t, c.view(), m.pair(), date_text(*date)) == Err::<
                Seq<(Seq<char>, Seq<char>)>,
                SiteError,
            >(e),
        },
{
    let ghost mp = m.pair();
    t.check()?;
    let footer_ctx = vec![text_binding("version_for_url", c.version_for_url.clone())];
    assert(context_view(footer_ctx@) =~= footer_context(c.view()));
    let footer = t.render(Fragment::Footer, &footer_ctx)?;
    let date_str = date.to_text();
    let start = compose_page(t, PageKind::Start, c, None, &date_str, &footer)?;
    let api = compose_page(t, PageKind::Api, c, Some(m.api), &date_str, &footer)?;
    let guide = compose_page(t, PageKind::Guide, c, Some(m.guide), &date_str, &footer)?;
    let landing = compose_page(t, PageKind::Landing, c, None, &date_str, &footer)?;
    let pages = vec![
        Page { path: PageKind::Start.path_text().to_owned(), html: start },
        Page { path: PageKind::Api.path_text().to_owned(), html: api },
        Page { path: PageKind::Guide.path_text().to_owned(), html: guide },
        Page { path: PageKind::Landing.path_text().to_owned(), html: landing },
    ];
    assert(pages_view(pages@) =~= seq![
        (PageKind::Start.path(), start@),
        (PageKind::Api.path(), api@),
        (PageKind::Guide.path(), guide@),
        (PageKind::Landing.path(), landing@),
    ]);
    Ok(pages)
}

/// A whole build from the settings found in the environment, the two
/// manifest texts, the fragments and today's date. Nothing is rendered
/// unless all three settings are present and both manifests parse.
pub fn build_site(
    version: Option<String>,
    version_for_url: Option<String>,
    rust_version: Option<String>,
    api_text: &str,
    guide_text: &str,
    t: &TemplateSet,
    date: &CalendarDate,
) -> (r: Result<Vec<Page>, SiteError>)
    requires
        date.wf(),
    ensures
        match r {
            Ok(p) => site_outcome(
                opt_view(version),
                opt_view(version_for_url),
                opt_view(rust_version),
                api_text@,
                guide_text@,
                *t,
                date_text(*date),
            ) == Ok::<Seq<(Seq<char>, Seq<char>)>, SiteError>(pages_view(p@)),
            Err(e) => site_outcome(
                opt_view(version),
                opt_view(version_for_url),
                opt_view(rust_version),
                api_text@,
                guide_text@,
                *t,
                date_text(*date),
            ) == Err::<Seq<(Seq<char>, Seq<char>)>, SiteError>(e),
        },
{
    let c = SiteConfig::from_settings(version, version_for_url, rust_version)?;
    let m = Manifests::load(api_text, guide_text)?;
    render_site(t, &c, m, date)
}

} // verus!
