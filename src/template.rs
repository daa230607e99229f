//! Template fragments, render contexts, and rendering through handlebars.

use vstd::prelude::*;
use crate::error::{Fragment, SiteError};

verus! {

#[verifier::external_type_specification]
#[verifier::external_body]
pub struct ExRenderError(handlebars::RenderError);

/// A value a placeholder can be bound to.
pub enum Datum {
    /// A string.
    Text(String),
    /// A JSON document passed through as it is.
    Json(serde_json::Value),
}

/// The mathematical form of a `Datum`.
pub enum DatumView {
    Text(Seq<char>),
    Json(serde_json::Value),
}

impl Datum {
    pub open spec fn view(&self) -> DatumView {
        match self {
            Datum::Text(s) => DatumView::Text(s@),
            Datum::Json(v) => DatumView::Json(*v),
        }
    }
}

/// One placeholder name and the value it stands for.
pub struct Binding {
    pub key: String,
    pub value: Datum,
}

/// A render context in the order its bindings were made.
pub open spec fn context_view(c: Seq<Binding>) -> Seq<(Seq<char>, DatumView)> {
    c.map_values(|b: Binding| (b.key@, b.value.view()))
}

/// Binds `key` to the string `value`.
pub fn text_binding(key: &str, value: String) -> (r: Binding)
    ensures
        r.key@ == key@,
        r.value.view() == DatumView::Text(value@),
{
    Binding { key: key.to_owned(), value: Datum::Text(value) }
}

/// Whether `source` parses as a handlebars template.
pub uninterp spec fn template_compiles(source: Seq<char>) -> bool;

/// What a strict handlebars registry, with no helpers or partials of its
/// own, renders from `source` with `context`: `None` where it fails, as it
/// does for a placeholder that the context does not bind.
pub uninterp spec fn rendered(source: Seq<char>, context: Seq<(Seq<char>, DatumView)>) -> Option<
    Seq<char>,
>;

/// Relies on `handlebars::Template::compile`: whether the source parses
/// depends on the source alone.
#[verifier::external_body]
fn compile_template(source: &str) -> (r: bool)
    ensures
        r == template_compiles(source@),
{
    handlebars::Template::compile(source).is_ok()
}

/// Relies on `handlebars::Handlebars::render_template`, on a fresh registry
/// put in strict mode. The bindings become a JSON object, strings as JSON
/// strings, a later binding replacing an earlier one of the same name.
#[verifier::external_body]
fn render_template(source: &str, context: &Vec<Binding>) -> (r: Result<
    String,
    handlebars::RenderError,
>)
    ensures
        match r {
            Ok(s) => rendered(source@, context_view(context@)) == Some(s@),
            Err(_) => rendered(source@, context_view(context@)) is None,
        },
{
    let mut data = serde_json::Map::new();
    for b in context.iter() {
        let v = match &b.value {
            Datum::Text(s) => serde_json::Value::String(s.clone()),
            Datum::Json(j) => j.clone(),
        };
        data.insert(b.key.clone(), v);
    }
    let mut registry = handlebars::Handlebars::new();
    registry.set_strict_mode(true);
    registry.render_template(source, &data)
}

/// The eight fragments a site is composed from.
pub struct TemplateSet {
    pub shell: String,
    pub head: String,
    pub header: String,
    pub footer: String,
    pub start: String,
    pub landing: String,
    pub api: String,
    pub guide: String,
}

/// The order in which fragments are checked.
pub open spec fn fragment_order() -> Seq<Fragment> {
    seq![
        Fragment::Shell,
        Fragment::Head,
        Fragment::Header,
        Fragment::Footer,
        Fragment::Start,
        Fragment::Landing,
        Fragment::Api,
        Fragment::Guide,
    ]
}

/// The outcome of rendering: the text, or the fragment that failed.
pub open spec fn render_outcome(
    source: Seq<char>,
    context: Seq<(Seq<char>, DatumView)>,
    f: Fragment,
) -> Result<Seq<char>, SiteError> {
    match rendered(source, context) {
        Some(s) => Ok(s),
        None => Err(SiteError::Template(f)),
    }
}

impl TemplateSet {
    pub open spec fn source_of(&self, f: Fragment) -> Seq<char> {
        match f {
            Fragment::Shell => self.shell@,
            Fragment::Head => self.head@,
            Fragment::Header => self.header@,
            Fragment::Footer => self.footer@,
            Fragment::Start => self.start@,
            Fragment::Landing => self.landing@,
            Fragment::Api => self.api@,
            Fragment::Guide => self.guide@,
        }
    }

    /// The first fragment, in `fragment_order`, that does not parse.
    pub open spec fn first_broken(&self) -> Option<Fragment> {
        self.first_broken_from(0)
    }

    pub open spec fn first_broken_from(&self, i: nat) -> Option<Fragment>
        decreases 8 - i,
    {
        if i >= 8 {
            None
        } else if !template_compiles(self.source_of(fragment_order()[i as int])) {
            Some(fragment_order()[i as int])
        } else {
            self.first_broken_from(i + 1)
        }
    }

    /// The source of fragment `f`.
    pub fn source(&self, f: Fragment) -> (r: &str)
        ensures
            r@ == self.source_of(f),
    {
        match f {
            Fragment::Shell => self.shell.as_str(),
            Fragment::Head => self.head.as_str(),
            Fragment::Header => self.header.as_str(),
            Fragment::Footer => self.footer.as_str(),
            Fragment::Start => self.start.as_str(),
            Fragment::Landing => self.landing.as_str(),
            Fragment::Api => self.api.as_str(),
            Fragment::Guide => self.guide.as_str(),
        }
    }

    /// Checks that every fragment parses, naming the first that does not.
    pub fn check(&self) -> (r: Result<(), SiteError>)
        ensures
            match self.first_broken() {
                None => r is Ok,
                Some(f) => r == Err::<(), SiteError>(SiteError::Template(f)),
            },
    {
        let order = [
            Fragment::Shell,
            Fragment::Head,
            Fragment::Header,
            Fragment::Footer,
            Fragment::Start,
            Fragment::Landing,
            Fragment::Api,
            Fragment::Guide,
        ];
        assert(order@ == fragment_order());
        let mut i: usize = 0;
        while i < 8
            invariant
                0 <= i <= 8,
                order@ == fragment_order(),
                self.first_broken() == self.first_broken_from(i as nat),
            decreases 8 - i,
        {
            let f = order[i];
            if !compile_template(self.source(f)) {
                return Err(SiteError::Template(f));
            }
            i = i + 1;
        }
        Ok(())
    }

    /// Renders fragment `f` with `context`.
    pub fn render(&self, f: Fragment, context: &Vec<Binding>) -> (r: Result<String, SiteError>)
        ensures
            match r {
                Ok(s) => render_outcome(self.source_of(f), context_view(context@), f) == Ok::<
                    Seq<char>,
                    SiteError,
                >(s@),
                Err(e) => render_outcome(self.source_of(f), context_view(context@), f) == Err::<
                    Seq<char>,
                    SiteError,
                >(e),
            },
    {
        match render_template(self.source(f), context) {
            Ok(s) => Ok(s),
            Err(_) => Err(SiteError::Template(f)),
        }
    }
}

} // verus!
