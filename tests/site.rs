use doc_site::config::SiteConfig;
use doc_site::date::CalendarDate;
use doc_site::error::{Fragment, ManifestKind, Setting, SiteError};
use doc_site::manifest::Manifests;
use doc_site::site::{build_site, render_site, Page};
use doc_site::template::TemplateSet;

fn templates() -> TemplateSet {
    TemplateSet {
        shell: "<html class=\"{{body_class}}\">{{{head}}}<body>{{{body}}}{{{footer}}}</body></html>"
            .to_string(),
        head: "<head><title>{{title}}</title></head>".to_string(),
        header: "<nav>{{breadcrumb}}</nav>".to_string(),
        footer: "<footer>docs/{{version_for_url}}</footer>".to_string(),
        start: "{{{header}}}<p>{{date}} v{{version}} {{version_for_url}} rust {{rust_version}}</p>"
            .to_string(),
        landing: "<h1>Version {{version}}</h1>".to_string(),
        api: "{{{header}}}<p>{{version}}</p>{{#each api_versions}}<li>{{@key}}</li>{{/each}}"
            .to_string(),
        guide: "{{{header}}}<p>{{version}}</p>{{#each guide_versions}}<li>{{this}}</li>{{/each}}"
            .to_string(),
    }
}

fn date() -> CalendarDate {
    CalendarDate::new(2026, 10, 19).unwrap()
}

fn build(api: &str, guide: &str, t: &TemplateSet) -> Result<Vec<Page>, SiteError> {
    build_site(
        Some("1.2.3".to_string()),
        Some("1-2-3".to_string()),
        Some("1.80.0".to_string()),
        api,
        guide,
        t,
        &date(),
    )
}

fn page<'a>(pages: &'a [Page], path: &str) -> &'a Page {
    pages.iter().find(|p| p.path == path).expect("page missing")
}

#[test]
fn scenario_version_one_two_three() {
    let pages = build("{}", "{}", &templates()).expect("build failed");
    assert!(page(&pages, "api/index.html").html.contains("1.2.3"));
    assert!(page(&pages, "guide/index.html").html.contains("1.2.3"));
    assert!(page(&pages, "start.html").html.contains("Oct19, 2026"));
}

#[test]
fn four_pages_at_documented_paths() {
    let pages = build("{}", "{}", &templates()).expect("build failed");
    let paths: Vec<&str> = pages.iter().map(|p| p.path.as_str()).collect();
    assert_eq!(paths, vec!["start.html", "api/index.html", "guide/index.html", "index.html"]);
    for p in &pages {
        assert!(!p.html.is_empty());
        assert!(p.html.contains("1.2.3"), "{} lacks the version", p.path);
    }
}

#[test]
fn exact_start_page() {
    let pages = build("{}", "{}", &templates()).expect("build failed");
    assert_eq!(
        page(&pages, "start.html").html,
        "<html class=\"body-green\"><head><title>Holochain Installation Instructions</title></head>\
         <body><nav>Quick Start</nav><p>Oct19, 2026 v1.2.3 1-2-3 rust 1.80.0</p>\
         <footer>docs/1-2-3</footer></body></html>"
    );
}

#[test]
fn exact_landing_page() {
    let pages = build("{}", "{}", &templates()).expect("build failed");
    assert_eq!(
        page(&pages, "index.html").html,
        "<html class=\"landing-page\"><head><title>Holochain Developer Documentation</title></head>\
         <body><h1>Version 1.2.3</h1><footer>docs/1-2-3</footer></body></html>"
    );
}

#[test]
fn manifests_reach_their_pages() {
    let pages = build("{\"0.1.0\": {}, \"0.2.0\": {}}", "[\"g1\"]", &templates()).unwrap();
    let api = &page(&pages, "api/index.html").html;
    assert!(api.contains("<nav>API Versions</nav>"));
    assert!(api.contains("<li>0.1.0</li><li>0.2.0</li>"));
    let guide = &page(&pages, "guide/index.html").html;
    assert!(guide.contains("<nav>Guidebook</nav>"));
    assert!(guide.contains("<li>g1</li>"));
}

#[test]
fn footer_is_the_same_on_every_page() {
    let pages = build("{}", "{}", &templates()).unwrap();
    for p in &pages {
        assert!(p.html.contains("<footer>docs/1-2-3</footer>"));
        assert_eq!(p.html.matches("<footer>").count(), 1);
    }
}

#[test]
fn builds_are_deterministic() {
    let a = build("{\"x\": 1}", "{}", &templates()).unwrap();
    let b = build("{\"x\": 1}", "{}", &templates()).unwrap();
    assert_eq!(a.len(), b.len());
    for (p, q) in a.iter().zip(b.iter()) {
        assert_eq!(p.path, q.path);
        assert_eq!(p.html, q.html);
    }
}

#[test]
fn missing_settings_are_reported_in_order() {
    let t = templates();
    let d = date();
    let r = build_site(None, None, None, "{}", "{}", &t, &d);
    assert_eq!(r.err(), Some(SiteError::Configuration(Setting::Version)));
    let r = build_site(Some("1".into()), None, None, "{}", "{}", &t, &d);
    assert_eq!(r.err(), Some(SiteError::Configuration(Setting::VersionForUrl)));
    let r = build_site(Some("1".into()), Some("1".into()), None, "{}", "{}", &t, &d);
    assert_eq!(r.err(), Some(SiteError::Configuration(Setting::RustVersion)));
}

#[test]
fn missing_setting_wins_over_bad_manifest() {
    let r = build_site(None, None, None, "not json", "{", &templates(), &date());
    assert_eq!(r.err(), Some(SiteError::Configuration(Setting::Version)));
}

#[test]
fn malformed_manifests_are_input_errors() {
    assert_eq!(build("{", "{}", &templates()).err(), Some(SiteError::Input(ManifestKind::Api)));
    assert_eq!(build("{}", "[1,", &templates()).err(), Some(SiteError::Input(ManifestKind::Guide)));
}

#[test]
fn malformed_manifest_wins_over_broken_template() {
    let mut t = templates();
    t.shell = "{{#if}}".to_string();
    assert_eq!(build("nope", "{}", &t).err(), Some(SiteError::Input(ManifestKind::Api)));
}

#[test]
fn unparsable_fragment_is_a_template_error() {
    let mut t = templates();
    t.guide = "{{#each guide_versions}}".to_string();
    assert_eq!(build("{}", "{}", &t).err(), Some(SiteError::Template(Fragment::Guide)));
}

#[test]
fn unbound_placeholder_is_a_template_error() {
    let mut t = templates();
    t.landing = "{{nonexistent}}".to_string();
    assert_eq!(build("{}", "{}", &t).err(), Some(SiteError::Template(Fragment::Landing)));
}

#[test]
fn render_site_from_parts() {
    let c = SiteConfig::from_settings(
        Some("2.0".to_string()),
        Some("2-0".to_string()),
        Some("1.0".to_string()),
    )
    .unwrap_or_else(|_| panic!("settings refused"));
    let m = Manifests::load("{}", "{}").unwrap_or_else(|_| panic!("manifests refused"));
    let pages = render_site(&templates(), &c, m, &date()).unwrap();
    assert_eq!(pages.len(), 4);
    assert!(pages[0].html.contains("docs/2-0"));
}

#[test]
fn setting_and_manifest_names() {
    assert_eq!(Setting::Version.variable(), "HC_VERSION");
    assert_eq!(Setting::VersionForUrl.variable(), "HC_VERSION_FOR_URL");
    assert_eq!(Setting::RustVersion.variable(), "HC_RUST_VERSION");
    assert_eq!(ManifestKind::Api.file_name(), "api_versions.json");
    assert_eq!(ManifestKind::Guide.file_name(), "guide_versions.json");
}
