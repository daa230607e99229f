//! What holds of every build.

use vstd::prelude::*;
use crate::error::{Fragment, SiteError};
use crate::manifest::{json_document, manifests_outcome};
use crate::site::{
    ConfigView, PageKind, body_context, config_outcome, footer_outcome, head_context,
    header_outcome, page_order, page_outcome, pages_outcome, shell_context, site_outcome,
    text_entry,
};
use crate::template::{TemplateSet, rendered, render_outcome};

verus! {

/// `html` is the shell rendered around `footer` and around a body that the
/// page's own fragment rendered.
pub open spec fn page_shows(
    t: TemplateSet,
    kind: PageKind,
    c: ConfigView,
    date: Seq<char>,
    footer: Seq<char>,
    html: Seq<char>,
) -> bool {
    exists|head: Seq<char>, body: Seq<char>, header: Seq<char>, json: Option<serde_json::Value>|
        #![trigger shell_context(kind, head, body, footer), body_context(kind, c, json, date, header)]
        rendered(t.shell@, shell_context(kind, head, body, footer)) == Some(html) && rendered(
            t.source_of(kind.body_fragment()),
            body_context(kind, c, json, date, header),
        ) == Some(body)
}

proof fn lemma_page_shows(
    t: TemplateSet,
    kind: PageKind,
    c: ConfigView,
    json: Option<serde_json::Value>,
    date: Seq<char>,
    footer: Seq<char>,
    html: Seq<char>,
)
    requires
        page_outcome(t, kind, c, json, date, footer) == Ok::<Seq<char>, SiteError>(html),
    ensures
        page_shows(t, kind, c, date, footer, html),
{
    let head = render_outcome(t.head@, head_context(kind), Fragment::Head)->Ok_0;
    let header = header_outcome(t, kind)->Ok_0;
    let bc = body_context(kind, c, json, date, header);
    let body = render_outcome(t.source_of(kind.body_fragment()), bc, kind.body_fragment())->Ok_0;
    let sc = shell_context(kind, head, body, footer);
    assert(rendered(t.shell@, sc) == Some(html));
    assert(rendered(t.source_of(kind.body_fragment()), bc) == Some(body));
}

/// A build that lacks any of its three settings fails with a configuration
/// error, so it yields no page at all.
pub proof fn lemma_missing_setting_yields_no_pages(
    version: Option<Seq<char>>,
    version_for_url: Option<Seq<char>>,
    rust_version: Option<Seq<char>>,
    api_text: Seq<char>,
    guide_text: Seq<char>,
    t: TemplateSet,
    date: Seq<char>,
)
    requires
        version is None || version_for_url is None || rust_version is None,
    ensures
        site_outcome(version, version_for_url, rust_version, api_text, guide_text, t, date) matches Err(
            SiteError::Configuration(_),
        ),
{
}

/// With all settings present, a manifest that is not JSON fails the build
/// with an input error before any fragment is looked at: the outcome is the
/// same whatever the fragments are.
pub proof fn lemma_malformed_manifest_stops_before_rendering(
    version: Seq<char>,
    version_for_url: Seq<char>,
    rust_version: Seq<char>,
    api_text: Seq<char>,
    guide_text: Seq<char>,
    t1: TemplateSet,
    t2: TemplateSet,
    date: Seq<char>,
)
    requires
        json_document(api_text) is None || json_document(guide_text) is None,
    ensures
        site_outcome(
            Some(version),
            Some(version_for_url),
            Some(rust_version),
            api_text,
            guide_text,
            t1,
            date,
        ) matches Err(SiteError::Input(_)),
        site_outcome(
            Some(version),
            Some(version_for_url),
            Some(rust_version),
            api_text,
            guide_text,
            t1,
            date,
        ) == site_outcome(
            Some(version),
            Some(version_for_url),
            Some(rust_version),
            api_text,
            guide_text,
            t2,
            date,
        ),
{
}

proof fn lemma_first_broken_same(t1: TemplateSet, t2: TemplateSet, i: nat)
    requires
        forall|f: Fragment| t1.source_of(f) == t2.source_of(f),
    ensures
        t1.first_broken_from(i) == t2.first_broken_from(i),
    decreases 8 - i,
{
    if i < 8 {
        lemma_first_broken_same(t1, t2, i + 1);
    }
}

proof fn lemma_page_same(
    t1: TemplateSet,
    t2: TemplateSet,
    kind: PageKind,
    c: ConfigView,
    json: Option<serde_json::Value>,
    date: Seq<char>,
    footer: Seq<char>,
)
    requires
        forall|f: Fragment| t1.source_of(f) == t2.source_of(f),
    ensures
        page_outcome(t1, kind, c, json, date, footer) == page_outcome(
            t2,
            kind,
            c,
            json,
            date,
            footer,
        ),
{
    assert(t1.head@ == t2.head@ && t1.header@ == t2.header@ && t1.shell@ == t2.shell@) by {
        assert(t1.source_of(Fragment::Head) == t2.source_of(Fragment::Head));
        assert(t1.source_of(Fragment::Header) == t2.source_of(Fragment::Header));
        assert(t1.source_of(Fragment::Shell) == t2.source_of(Fragment::Shell));
    }
    assert(t1.source_of(kind.body_fragment()) == t2.source_of(kind.body_fragment()));
    assert(header_outcome(t1, kind) == header_outcome(t2, kind));
}

/// Building is deterministic: inputs with the same contents, the date
/// included, give the same outcome, page for page and byte for byte.
pub proof fn lemma_build_is_deterministic(
    version: Option<Seq<char>>,
    version_for_url: Option<Seq<char>>,
    rust_version: Option<Seq<char>>,
    api_text: Seq<char>,
    guide_text: Seq<char>,
    t1: TemplateSet,
    t2: TemplateSet,
    date: Seq<char>,
)
    requires
        forall|f: Fragment| t1.source_of(f) == t2.source_of(f),
    ensures
        site_outcome(version, version_for_url, rust_version, api_text, guide_text, t1, date)
            == site_outcome(version, version_for_url, rust_version, api_text, guide_text, t2, date),
{
    lemma_first_broken_same(t1, t2, 0);
    assert(t1.footer@ == t2.footer@) by {
        assert(t1.source_of(Fragment::Footer) == t2.source_of(Fragment::Footer));
    }
    match config_outcome(version, version_for_url, rust_version) {
        Err(_) => {},
        Ok(c) => match manifests_outcome(api_text, guide_text) {
            Err(_) => {},
            Ok(m) => {
                assert(footer_outcome(t1, c) == footer_outcome(t2, c));
                if let Ok(footer) = footer_outcome(t1, c) {
                    lemma_page_same(t1, t2, PageKind::Start, c, None, date, footer);
                    lemma_page_same(t1, t2, PageKind::Api, c, Some(m.0), date, footer);
                    lemma_page_same(t1, t2, PageKind::Guide, c, Some(m.1), date, footer);
                    lemma_page_same(t1, t2, PageKind::Landing, c, None, date, footer);
                }
                assert(pages_outcome(t1, c, m, date) == pages_outcome(t2, c, m, date));
            },
        },
    }
}

/// The footer is rendered once, and that one text is the footer of each of
/// the four pages.
pub proof fn lemma_footer_shared_by_all_pages(
    version: Option<Seq<char>>,
    version_for_url: Option<Seq<char>>,
    rust_version: Option<Seq<char>>,
    api_text: Seq<char>,
    guide_text: Seq<char>,
    t: TemplateSet,
    date: Seq<char>,
)
    requires
        site_outcome(version, version_for_url, rust_version, api_text, guide_text, t, date) is Ok,
    ensures
        ({
            let c = config_outcome(version, version_for_url, rust_version)->Ok_0;
            let pages = site_outcome(
                version,
                version_for_url,
                rust_version,
                api_text,
                guide_text,
                t,
                date,
            )->Ok_0;
            &&& footer_outcome(t, c) is Ok
            &&& pages.len() == 4
            &&& forall|i: int|
                0 <= i < 4 ==> page_shows(
                    t,
                    #[trigger] page_order()[i],
                    c,
                    date,
                    footer_outcome(t, c)->Ok_0,
                    pages[i].1,
                )
        }),
{
    let c = config_outcome(version, version_for_url, rust_version)->Ok_0;
    let m = manifests_outcome(api_text, guide_text)->Ok_0;
    let footer = footer_outcome(t, c)->Ok_0;
    let pages = site_outcome(version, version_for_url, rust_version, api_text, guide_text, t, date)->Ok_0;
    lemma_page_shows(t, PageKind::Start, c, None, date, footer, pages[0].1);
    lemma_page_shows(t, PageKind::Api, c, Some(m.0), date, footer, pages[1].1);
    lemma_page_shows(t, PageKind::Guide, c, Some(m.1), date, footer, pages[2].1);
    lemma_page_shows(t, PageKind::Landing, c, None, date, footer, pages[3].1);
    assert forall|i: int| 0 <= i < 4 implies page_shows(
        t,
        #[trigger] page_order()[i],
        c,
        date,
        footer,
        pages[i].1,
    ) by {
        if i == 0 {
        } else if i == 1 {
        } else if i == 2 {
        } else {
        }
    }
}

/// A successful build yields exactly four pages, at `start.html`,
/// `api/index.html`, `guide/index.html` and `index.html`, and the body of
/// each is rendered from a context that binds `version` to the configured
/// version.
pub proof fn lemma_successful_build_pages(
    version: Option<Seq<char>>,
    version_for_url: Option<Seq<char>>,
    rust_version: Option<Seq<char>>,
    api_text: Seq<char>,
    guide_text: Seq<char>,
    t: TemplateSet,
    date: Seq<char>,
    kind: PageKind,
    json: Option<serde_json::Value>,
    header: Seq<char>,
)
    requires
        site_outcome(version, version_for_url, rust_version, api_text, guide_text, t, date) is Ok,
    ensures
        ({
            let pages = site_outcome(
                version,
                version_for_url,
                rust_version,
                api_text,
                guide_text,
                t,
                date,
            )->Ok_0;
            &&& version is Some
            &&& pages.len() == 4
            &&& pages[0].0 == "start.html"@
            &&& pages[1].0 == "api/index.html"@
            &&& pages[2].0 == "guide/index.html"@
            &&& pages[3].0 == "index.html"@
            &&& body_context(
                kind,
                config_outcome(version, version_for_url, rust_version)->Ok_0,
                json,
                date,
                header,
            ).contains(text_entry("version"@, version->Some_0))
        }),
{
    let c = config_outcome(version, version_for_url, rust_version)->Ok_0;
    let bc = body_context(kind, c, json, date, header);
    match kind {
        PageKind::Start => assert(bc[2] == text_entry("version"@, c.version)),
        PageKind::Api => assert(bc[1] == text_entry("version"@, c.version)),
        PageKind::Guide => assert(bc[1] == text_entry("version"@, c.version)),
        PageKind::Landing => assert(bc[0] == text_entry("version"@, c.version)),
    }
}

} // verus!
