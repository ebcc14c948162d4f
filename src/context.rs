use vstd::prelude::*;
use vstd::string::{StrSliceExecFns, StringExecFns};
use crate::comments::{strip_comments, stripped};
use crate::flags::FeatureFlags;
use crate::language::{lang_name, template_suffix, Language};
use crate::pipeline::ScaffoldError;

verus! {

/// The variables a flake template sees, by name, in insertion order.
pub open spec fn context_entries(flags: FeatureFlags) -> Seq<(Seq<char>, bool)> {
    seq![
        ("dev"@, flags.dev),
        ("package"@, flags.package),
        ("comments"@, flags.comments),
        ("docker_image"@, flags.package),
    ]
}

/// Text of the flake as written: the rendering itself when comments are
/// kept, its stripped form otherwise.
pub open spec fn presented(rendered: Seq<char>, comments: bool) -> Seq<char> {
    if comments {
        rendered
    } else {
        stripped(rendered)
    }
}

/// Named boolean variables handed to the template engine.
pub struct TemplateContext {
    entries: Vec<(String, bool)>,
}

impl View for TemplateContext {
    type V = Seq<(Seq<char>, bool)>;

    closed spec fn view(&self) -> Seq<(Seq<char>, bool)> {
        self.entries@.map_values(|p: (String, bool)| (p.0@, p.1))
    }
}

impl TemplateContext {
    /// The variables for the given toggles: `dev`, `package`, `comments`,
    /// and `docker_image`, which mirrors `package`.
    pub fn for_flags(flags: FeatureFlags) -> (r: TemplateContext)
        ensures
            r@ == context_entries(flags),
    {
        let mut entries: Vec<(String, bool)> = Vec::new();
        entries.push((String::from_str("dev"), flags.dev));
        entries.push((String::from_str("package"), flags.package));
        entries.push((String::from_str("comments"), flags.comments));
        entries.push((String::from_str("docker_image"), flags.package));
        let r = TemplateContext { entries };
        assert(r@ =~= context_entries(flags));
        r
    }

    /// Number of variables.
    pub fn len(&self) -> (r: usize)
        ensures
            r == self@.len(),
    {
        self.entries.len()
    }

    /// Name of the `i`-th variable.
    pub fn name_at(&self, i: usize) -> (r: &str)
        requires
            i < self@.len(),
        ensures
            r@ == self@[i as int].0,
    {
        self.entries[i].0.as_str()
    }

    /// Value of the `i`-th variable.
    pub fn value_at(&self, i: usize) -> (r: bool)
        requires
            i < self@.len(),
        ensures
            r == self@[i as int].1,
    {
        self.entries[i].1
    }
}

/// A character that may stand inside a template tag: a lowercase ASCII
/// letter, `_`, a space or `-` (whitespace control).
pub open spec fn is_tag_char(c: char) -> bool {
    let n = c as u32;
    (97 <= n && n <= 122) || c == '_' || c == ' ' || c == '-'
}

/// From position `i` on, with `inside` telling whether a `{{` or `{%` tag
/// is open, every tag holds tag characters only.
pub open spec fn plain_from(t: Seq<char>, i: int, inside: bool) -> bool
    decreases t.len() - i,
{
    if i < 0 || i >= t.len() {
        true
    } else if !inside {
        if t[i] == '{' && i + 1 < t.len() && (t[i + 1] == '{' || t[i + 1] == '%') {
            plain_from(t, i + 2, true)
        } else {
            plain_from(t, i + 1, false)
        }
    } else {
        if (t[i] == '}' || t[i] == '%') && i + 1 < t.len() && t[i + 1] == '}' {
            plain_from(t, i + 2, false)
        } else {
            is_tag_char(t[i]) && plain_from(t, i + 1, true)
        }
    }
}

/// The templates this library renders: every `{{ .. }}` and `{% .. %}` tag
/// holds only lowercase letters, `_`, spaces and `-`. Such a tag can test,
/// print or loop over variables and open or close a section, but holds no
/// number, operator, string, filter pipe, call or dotted path.
pub open spec fn plain_tags(t: Seq<char>) -> bool {
    plain_from(t, 0, false)
}

/// What the template engine renders from a template text and its variables,
/// `None` where it reports an error.
pub uninterp spec fn rendering_of(text: Seq<char>, vars: Seq<(Seq<char>, bool)>) -> Option<
    Seq<char>,
>;

/// Relies on tera::Tera::one_off (with tera::Context::new and
/// tera::Context::insert to carry the variables over, and autoescaping off):
/// parses and renders `text`. With plain tags no function of the engine can
/// be called, so the outcome depends on the text and the variables alone;
/// the numeric paths on which the engine unwraps are out of reach.
#[verifier::external_body]
fn render_text(text: &str, vars: &TemplateContext) -> (r: Result<String, tera::Error>)
    requires
        plain_tags(text@),
    ensures
        r is Ok <==> rendering_of(text@, vars@) is Some,
        r matches Ok(s) ==> rendering_of(text@, vars@) == Some(s@),
{
    let mut context = tera::Context::new();
    for (key, value) in vars.entries.iter() {
        context.insert(key.as_str(), value);
    }
    tera::Tera::one_off(text, &context, false)
}

/// Whether every tag of `text` is plain.
pub fn has_plain_tags(text: &str) -> (r: bool)
    ensures
        r == plain_tags(text@),
{
    let n = text.unicode_len();
    let mut i: usize = 0;
    let mut inside = false;
    while i < n
        invariant
            n == text@.len(),
            i <= n,
            plain_tags(text@) == plain_from(text@, i as int, inside),
        decreases n - i,
    {
        let c = text.get_char(i);
        let next = if i + 1 < n {
            text.get_char(i + 1)
        } else {
            ' '
        };
        if !inside {
            if c == '{' && (next == '{' || next == '%') {
                inside = true;
                i = i + 2;
            } else {
                i = i + 1;
            }
        } else {
            if (c == '}' || c == '%') && next == '}' {
                inside = false;
                i = i + 2;
            } else if is_tag_char_exec(c) {
                i = i + 1;
            } else {
                return false;
            }
        }
    }
    true
}

fn is_tag_char_exec(c: char) -> (r: bool)
    ensures
        r == is_tag_char(c),
{
    let n = c as u32;
    (97 <= n && n <= 122) || c == '_' || c == ' ' || c == '-'
}

/// A template catalogue as names and texts.
pub open spec fn catalogue_view(c: Seq<(String, String)>) -> Seq<(Seq<char>, Seq<char>)> {
    c.map_values(|p: (String, String)| (p.0@, p.1@))
}

/// The text of the first template of that name in the catalogue.
pub open spec fn lookup(cat: Seq<(Seq<char>, Seq<char>)>, name: Seq<char>) -> Option<Seq<char>>
    decreases cat.len(),
{
    if cat.len() == 0 {
        None
    } else if cat[0].0 == name {
        Some(cat[0].1)
    } else {
        lookup(cat.drop_first(), name)
    }
}

/// The text of the first template named `name` in the catalogue.
pub fn find_template(catalogue: &Vec<(String, String)>, name: &str) -> (r: Option<String>)
    ensures
        match (r, lookup(catalogue_view(catalogue@), name@)) {
            (Some(a), Some(b)) => a@ == b,
            (None, None) => true,
            _ => false,
        },
{
    let wanted = String::from_str(name);
    let ghost cat = catalogue_view(catalogue@);
    let mut i: usize = 0;
    assert(cat.subrange(0, cat.len() as int) =~= cat);
    while i < catalogue.len()
        invariant
            cat == catalogue_view(catalogue@),
            wanted@ == name@,
            i <= catalogue@.len(),
            lookup(cat, name@) == lookup(cat.subrange(i as int, cat.len() as int), name@),
        decreases catalogue@.len() - i,
    {
        proof {
            let rest = cat.subrange(i as int, cat.len() as int);
            assert(rest.drop_first() =~= cat.subrange(i + 1, cat.len() as int));
            assert(rest[0] == cat[i as int]);
        }
        if catalogue[i].0 == wanted {
            return Some(catalogue[i].1.clone());
        }
        i = i + 1;
    }
    None
}

/// The outcome of rendering the flake for an ecosystem from a catalogue: a
/// missing template, one whose tags are not plain, or an error of the
/// engine is a template resolution error.
pub open spec fn flake_outcome(
    cat: Seq<(Seq<char>, Seq<char>)>,
    lang: Language,
    flags: FeatureFlags,
) -> Result<Seq<char>, ScaffoldError> {
    match lookup(cat, lang_name(lang) + template_suffix()) {
        None => Err(ScaffoldError::TemplateResolution),
        Some(text) => if !plain_tags(text) {
            Err(ScaffoldError::TemplateResolution)
        } else {
            match rendering_of(text, context_entries(flags)) {
                None => Err(ScaffoldError::TemplateResolution),
                Some(out) => Ok(presented(out, flags.comments)),
            }
        },
    }
}

/// The flake text to write, from what the template engine rendered.
pub fn present_rendered(rendered: &str, comments: bool) -> (r: String)
    ensures
        r@ == presented(rendered@, comments),
{
    if comments {
        String::from_str(rendered)
    } else {
        strip_comments(rendered)
    }
}

/// Renders the flake for an ecosystem: the catalogue's template named after
/// the ecosystem's tag, with the toggles' variables, stripped of comments
/// unless they are asked for.
pub fn render_flake(catalogue: &Vec<(String, String)>, lang: Language, flags: FeatureFlags) -> (r:
    Result<String, ScaffoldError>)
    ensures
        match (r, flake_outcome(catalogue_view(catalogue@), lang, flags)) {
            (Ok(s), Ok(t)) => s@ == t,
            (Err(e), Err(f)) => e == f,
            _ => false,
        },
{
    let name = lang.template_name();
    let text = match find_template(catalogue, name.as_str()) {
        Some(text) => text,
        None => return Err(ScaffoldError::TemplateResolution),
    };
    if !has_plain_tags(text.as_str()) {
        return Err(ScaffoldError::TemplateResolution);
    }
    let vars = TemplateContext::for_flags(flags);
    match render_text(text.as_str(), &vars) {
        Ok(out) => Ok(present_rendered(out.as_str(), flags.comments)),
        Err(_) => Err(ScaffoldError::TemplateResolution),
    }
}

} // verus!
