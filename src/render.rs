use vstd::prelude::*;
use crate::catalog::{is_skipped, skipped, templates_view, Template};
use crate::error::ScaffoldError;
use crate::guard::{is_renderable, renderable};
use crate::settings::{Settings, SettingsView};

verus! {

#[verifier::external_type_specification]
#[verifier::external_body]
pub struct ExRenderError(handlebars::RenderError);

pub const AUTHOR_KEY: &'static str = "author";
pub const PRIVATE_KEY: &'static str = "private";
pub const PUBLIC_KEY: &'static str = "public";
pub const WITH_VUE_KEY: &'static str = "withVue";
pub const PROJECT_NAME_KEY: &'static str = "projectName";
pub const YEAR_KEY: &'static str = "thisYear";

/// A value that a placeholder can stand for.
pub enum Datum {
    Text(String),
    Flag(bool),
    Number(i64),
}

pub enum DatumView {
    Text(Seq<char>),
    Flag(bool),
    Number(int),
}

impl View for Datum {
    type V = DatumView;

    open spec fn view(&self) -> DatumView {
        match self {
            Datum::Text(s) => DatumView::Text(s@),
            Datum::Flag(b) => DatumView::Flag(*b),
            Datum::Number(n) => DatumView::Number(*n as int),
        }
    }
}

/// One entry of the data that templates are rendered with.
pub struct Field {
    pub key: String,
    pub value: Datum,
}

pub open spec fn fields_view(fs: Seq<Field>) -> Seq<(Seq<char>, DatumView)> {
    fs.map_values(|f: Field| (f.key@, f.value@))
}

/// The data that the templates see for these settings: each key stands for one field,
/// and `public` for the negation of `private`.
pub open spec fn model_spec(s: SettingsView) -> Seq<(Seq<char>, DatumView)> {
    seq![
        (AUTHOR_KEY@, DatumView::Text(s.author)),
        (PRIVATE_KEY@, DatumView::Flag(s.is_private)),
        (PUBLIC_KEY@, DatumView::Flag(!s.is_private)),
        (WITH_VUE_KEY@, DatumView::Flag(s.with_vue)),
        (PROJECT_NAME_KEY@, DatumView::Text(s.project_name)),
        (YEAR_KEY@, DatumView::Number(s.year)),
    ]
}

fn field(key: &str, value: Datum) -> (r: Field)
    ensures
        r.key@ == key@,
        r.value == value,
{
    Field { key: String::from_str(key), value }
}

/// Builds the data that the templates are rendered with.
pub fn model_of(s: &Settings) -> (r: Vec<Field>)
    ensures
        fields_view(r@) == model_spec(s@),
{
    let mut v: Vec<Field> = Vec::new();
    v.push(field(AUTHOR_KEY, Datum::Text(s.author.clone())));
    v.push(field(PRIVATE_KEY, Datum::Flag(s.is_private)));
    v.push(field(PUBLIC_KEY, Datum::Flag(!s.is_private)));
    v.push(field(WITH_VUE_KEY, Datum::Flag(s.with_vue)));
    v.push(field(PROJECT_NAME_KEY, Datum::Text(s.project_name.clone())));
    v.push(field(YEAR_KEY, Datum::Number(s.year as i64)));
    assert(fields_view(v@) =~= model_spec(s@));
    v
}

/// What handlebars, in strict mode, makes of a template text and its data: the text,
/// or `None` where the template does not parse or names a key that the data lacks.
pub uninterp spec fn handlebars_output(
    template: Seq<char>,
    data: Seq<(Seq<char>, DatumView)>,
) -> Option<Seq<char>>;

/// Relies on handlebars' `Registry::render_template` in strict mode, on a JSON object
/// holding the fields: its outcome depends on the template text and the data alone.
/// Partials and decorators can make it recurse without end, and so can nesting
/// without bound: `renderable` leaves both out.
#[verifier::external_body]
fn render_text(template: &str, data: &Vec<Field>) -> (r: Result<String, handlebars::RenderError>)
    requires
        renderable(template@),
    ensures
        r is Ok <==> handlebars_output(template@, fields_view(data@)) is Some,
        r is Ok ==> r->Ok_0@ == handlebars_output(template@, fields_view(data@))->0,
{
    let object: serde_json::Map<String, serde_json::Value> = data.iter().map(|f| (f.key.clone(), match &f.value {
        Datum::Text(s) => serde_json::Value::from(s.as_str()),
        Datum::Flag(b) => serde_json::Value::from(*b),
        Datum::Number(n) => serde_json::Value::from(*n),
    })).collect();
    let mut registry = handlebars::Handlebars::new();
    registry.set_strict_mode(true);
    registry.render_template(template, &object)
}

/// The contents produced for one template.
pub struct RenderedOutput {
    pub path: String,
    pub contents: String,
}

pub open spec fn outputs_view(os: Seq<RenderedOutput>) -> Seq<(Seq<char>, Seq<char>)> {
    os.map_values(|o: RenderedOutput| (o.path@, o.contents@))
}

/// Prefixes `pre` to a successful result; an error passes through.
pub open spec fn prefixed(
    pre: Seq<(Seq<char>, Seq<char>)>,
    r: Result<Seq<(Seq<char>, Seq<char>)>, Seq<char>>,
) -> Result<Seq<(Seq<char>, Seq<char>)>, Seq<char>> {
    match r {
        Ok(rest) => Ok(pre + rest),
        Err(n) => Err(n),
    }
}

/// The outputs for a catalog of (name, body) pairs, in catalog order: skipped templates
/// give none, the others one each; the first template that is not `renderable` or
/// fails to render is the error.
pub open spec fn render_all(
    s: SettingsView,
    cat: Seq<(Seq<char>, Seq<char>)>,
) -> Result<Seq<(Seq<char>, Seq<char>)>, Seq<char>>
    decreases cat.len(),
{
    if cat.len() == 0 {
        Ok(seq![])
    } else if skipped(s, cat[0].0) {
        render_all(s, cat.skip(1))
    } else if !renderable(cat[0].1) {
        Err(cat[0].0)
    } else {
        match handlebars_output(cat[0].1, model_spec(s)) {
            None => Err(cat[0].0),
            Some(c) => prefixed(seq![(cat[0].0, c)], render_all(s, cat.skip(1))),
        }
    }
}

pub open spec fn result_view(r: Result<Vec<RenderedOutput>, ScaffoldError>) -> Result<
    Seq<(Seq<char>, Seq<char>)>,
    Seq<char>,
> {
    match r {
        Ok(v) => Ok(outputs_view(v@)),
        Err(ScaffoldError::Template { name }) => Err(name@),
        Err(_) => Err(Seq::empty()),
    }
}

/// Renders every template of `templates` that no skip rule omits, in order.
pub fn render_catalog(s: &Settings, templates: &Vec<Template>) -> (r: Result<
    Vec<RenderedOutput>,
    ScaffoldError,
>)
    ensures
        r is Ok || r->Err_0 is Template,
        result_view(r) == render_all(s@, templates_view(templates@)),
{
    let model = model_of(s);
    let ghost cat = templates_view(templates@);
    let mut out: Vec<RenderedOutput> = Vec::new();
    let mut i: usize = 0;
    assert(cat.skip(0) =~= cat);
    proof {
        if let Ok(all) = render_all(s@, cat) {
            assert(outputs_view(out@) + all =~= all);
        }
    }
    while i < templates.len()
        invariant
            0 <= i <= templates.len(),
            cat == templates_view(templates@),
            fields_view(model@) == model_spec(s@),
            render_all(s@, cat) == prefixed(outputs_view(out@), render_all(s@, cat.skip(i as int))),
        decreases templates.len() - i,
    {
        let t = &templates[i];
        let ghost rest = cat.skip(i as int);
        assert(rest[0] == (t.name@, t.body@));
        assert(rest.skip(1) =~= cat.skip(i + 1));
        if !is_skipped(s, &t.name) {
            if !is_renderable(t.body.as_str()) {
                return Err(ScaffoldError::Template { name: t.name.clone() });
            }
            match render_text(t.body.as_str(), &model) {
                Ok(c) => {
                    let ghost pre = outputs_view(out@);
                    out.push(RenderedOutput { path: t.name.clone(), contents: c });
                    assert(outputs_view(out@) =~= pre + seq![(t.name@, c@)]);
                    assert forall|tail: Seq<(Seq<char>, Seq<char>)>|
                        pre + (seq![(t.name@, c@)] + tail) == #[trigger] (outputs_view(out@) + tail) by {
                        assert(pre + (seq![(t.name@, c@)] + tail) =~= outputs_view(out@) + tail);
                    }
                },
                Err(_) => {
                    return Err(ScaffoldError::Template { name: t.name.clone() });
                },
            }
        }
        i += 1;
    }
    assert(cat.skip(i as int) =~= Seq::<(Seq<char>, Seq<char>)>::empty());
    assert(outputs_view(out@) + seq![] =~= outputs_view(out@));
    Ok(out)
}

} // verus!
