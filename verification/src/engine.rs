//! The engine boundary: every call into the templating library stands
//! here, each behind a contract.  Loading a template set reads the file
//! system, and rendering runs the engine's own evaluation, so their
//! results are stated only as far as the library promises them.
use vstd::prelude::*;
use vstd::string::StrSliceExecFns;
use crate::escape::effective_suffixes;
use crate::escape::resolve_autoescape;
use crate::string_views;

verus! {

#[verifier::external_type_specification]
#[verifier::external_body]
pub struct ExTera(tera::Tera);

#[verifier::external_type_specification]
#[verifier::external_body]
pub struct ExTeraError(tera::Error);

/// The suffix list a loaded engine escapes on.
pub uninterp spec fn engine_suffixes(t: tera::Tera) -> Seq<Seq<char>>;

/// The glob parser's verdict on a pattern: nothing when the parser
/// accepts it, otherwise the parser's diagnostic message.  The verdict
/// depends on the pattern text alone.
pub uninterp spec fn glob_refusal(s: Seq<char>) -> Option<Seq<char>>;

/// An error's top-level message: its display text, a function of the
/// error value alone.
pub uninterp spec fn error_text(e: tera::Error) -> Seq<char>;

/// The display texts of an error's nested causes, outermost first, until
/// the chain is exhausted; a function of the error value alone.
pub uninterp spec fn error_cause_texts(e: tera::Error) -> Seq<Seq<char>>;

/// Whether the text holds a glob wildcard.
pub open spec fn has_star(s: Seq<char>) -> bool {
    exists|i: int| 0 <= i < s.len() && s[i] == '*'
}

/// Whether the text holds a glob wildcard, as the engine's loader tests
/// it before globbing.
pub fn contains_star(s: &str) -> (b: bool)
    ensures
        b == has_star(s@),
{
    let n = s.unicode_len();
    let mut i: usize = 0;
    while i < n
        invariant
            n == s@.len(),
            i <= n,
            forall|j: int| 0 <= j < i ==> s@[j] != '*',
        decreases n - i,
    {
        if s.get_char(i) == '*' {
            return true;
        }
        i += 1;
    }
    false
}

/// Relies on globwalk::glob, the same glob parser whose verdict the
/// engine's loader unwraps: accepts the pattern, or reports the parser's
/// diagnostic; building the walker only parses, so the verdict depends on
/// the pattern text alone.
#[verifier::external_body]
pub(crate) fn glob_check(pattern: &str) -> (r: Result<(), String>)
    ensures
        r is Ok <==> glob_refusal(pattern@) is None,
        r matches Err(m) ==> glob_refusal(pattern@) == Some(m@),
{
    match globwalk::glob(pattern) {
        Ok(_) => Ok(()),
        Err(e) => Err(format!("{}", e)),
    }
}

/// Relies on tera::Tera::new: loads every template file matching the glob
/// pattern; a pattern without `*` in it is always refused, and what else
/// comes back depends on what is on disk.  The loader aborts on a pattern
/// its glob parser refuses (the parse result is unwrapped there), so such
/// patterns are left out by `requires`; the parser is assumed to give the
/// pattern the same verdict after the loader canonicalizes its leading
/// directory part.
#[verifier::external_body]
pub(crate) fn tera_new(pattern: &str) -> (r: Result<tera::Tera, tera::Error>)
    requires
        !has_star(pattern@) || glob_refusal(pattern@) is None,
    ensures
        !has_star(pattern@) ==> r is Err,
{
    tera::Tera::new(pattern)
}

/// Relies on tera::Tera::autoescape_on: replaces the engine's autoescape
/// suffix list with the given one.  The strings are copied into leaked
/// owned storage, since the engine keeps the list for its whole life:
/// each call leaves those copies allocated for the rest of the process.
#[verifier::external_body]
pub(crate) fn tera_autoescape_on(t: &mut tera::Tera, suffixes: Vec<String>)
    ensures
        engine_suffixes(*final(t)) == string_views(suffixes@),
{
    let owned: Vec<&'static str> = suffixes
        .into_iter()
        .map(|s| Box::leak(s.into_boxed_str()) as &'static str)
        .collect();
    t.autoescape_on(owned)
}

/// Relies on tera::Tera::render: renders the loaded template of the given
/// name against the context; the outcome depends on the loaded templates.
#[verifier::external_body]
pub(crate) fn tera_render(t: &tera::Tera, name: &str, context: &tera::Context) -> (r: Result<
    String,
    tera::Error,
>) {
    t.render(name, context)
}

/// Relies on tera::Tera::one_off: renders the text as template content
/// against the context, escaping uniformly when the flag is set; the
/// outcome depends on the engine's evaluation.
#[verifier::external_body]
pub(crate) fn tera_one_off(input: &str, context: &tera::Context, autoescape: bool) -> (r: Result<
    String,
    tera::Error,
>) {
    tera::Tera::one_off(input, context, autoescape)
}

/// Relies on tera::Error's Display implementation: the error's top-level
/// message, determined by the error value.
#[verifier::external_body]
pub(crate) fn error_display(e: &tera::Error) -> (r: String)
    ensures
        r@ == error_text(*e),
{
    format!("{}", e)
}

/// Relies on std::error::Error::source on tera::Error: the messages of
/// the nested causes, outermost first, until the chain is exhausted.
#[verifier::external_body]
pub(crate) fn error_causes(e: &tera::Error) -> (r: Vec<String>)
    ensures
        string_views(r@) == error_cause_texts(*e),
{
    let mut msgs: Vec<String> = Vec::new();
    let mut cur = std::error::Error::source(e);
    while let Some(c) = cur {
        msgs.push(format!("{}", c));
        cur = c.source();
    }
    msgs
}

/// Applies the resolved escaping policy to a loaded engine: escaping is
/// off for every template unless the flag is set and the list is
/// non-empty, and on exactly for the listed suffixes otherwise.
pub fn configure_autoescape(t: &mut tera::Tera, enabled: bool, suffixes: Vec<String>)
    ensures
        engine_suffixes(*final(t)) == effective_suffixes(enabled, string_views(suffixes@)),
{
    let resolved = resolve_autoescape(enabled, suffixes);
    tera_autoescape_on(t, resolved);
}

} // verus!
