//! The renderer selector and the call's result.  One call renders either
//! inline template text or a named template resolved from a freshly loaded
//! template set, and always hands back a tagged result: the rendered text,
//! or one diagnostic whose fixed prefix names the failure kind.
use vstd::prelude::*;
use crate::context::context_from_value;
use crate::context::json_parse_error;
use crate::context::parse_json;
use crate::engine::configure_autoescape;
use crate::engine::contains_star;
use crate::engine::error_cause_texts;
use crate::engine::error_causes;
use crate::engine::error_display;
use crate::engine::error_text;
use crate::engine::glob_check;
use crate::engine::glob_refusal;
use crate::engine::has_star;
use crate::engine::tera_new;
use crate::engine::tera_one_off;
use crate::engine::tera_render;
use crate::messages::format_render_error;
use crate::messages::invalid_json_message;
use crate::messages::invalid_json_text;
use crate::messages::is_load_failure;
use crate::messages::is_render_failure;
use crate::messages::load_error_message;
use crate::messages::load_error_text;
use crate::messages::render_error_text;

verus! {

/// The outcome of one call: the rendered text, or one human-readable
/// diagnostic.  Whichever text it holds, the caller owns it once the call
/// returns.
#[derive(Debug)]
pub enum RenderResult {
    Success(String),
    Failure(String),
}

/// Whether the call renders a named template from a loaded set: a
/// template path was given and is non-empty.
pub open spec fn path_mode(p: Option<String>) -> bool {
    p matches Some(s) && s@.len() > 0
}

/// Whether the call names a template path that holds no glob wildcard:
/// such a load is always refused by the engine.
pub open spec fn starless_path(p: Option<String>) -> bool {
    p matches Some(s) && s@.len() > 0 && !has_star(s@)
}

/// The glob parser's diagnostic for the call's template path: present
/// exactly when path mode is chosen, the pattern holds a wildcard, and
/// the parser still refuses it.
pub open spec fn pattern_refusal(p: Option<String>) -> Option<Seq<char>> {
    match p {
        Some(s) => if s@.len() > 0 && has_star(s@) {
            glob_refusal(s@)
        } else {
            None
        },
        None => None,
    }
}

/// Builds the render-failure diagnostic for an engine error: the error's
/// top-level message, then every nested cause on a line of its own,
/// outermost first.
pub fn render_failure_message(e: &tera::Error) -> (r: String)
    ensures
        r@ == render_error_text(error_text(*e), error_cause_texts(*e)),
        is_render_failure(r@),
{
    let top = error_display(e);
    let causes = error_causes(e);
    let r = format_render_error(top.as_str(), &causes);
    proof {
        assert(r@ == render_error_text(error_text(*e), error_cause_texts(*e)));
    }
    r
}

/// Builds the load-failure diagnostic for a loader error: the fixed
/// prefix, then the error's top-level message.
pub fn load_failure_message(e: &tera::Error) -> (r: String)
    ensures
        r@ == load_error_text(error_text(*e)),
        is_load_failure(r@),
{
    let msg = error_display(e);
    let r = load_error_message(msg.as_str());
    proof {
        assert(r@ == load_error_text(error_text(*e)));
    }
    r
}

/// Renders the text as inline template content against the context, with
/// one uniform escape-on/off flag.
pub fn render_inline(template_source: &str, context: &tera::Context, autoescape: bool) -> (r:
    RenderResult)
    ensures
        r matches RenderResult::Failure(m) ==> is_render_failure(m@),
{
    match tera_one_off(template_source, context, autoescape) {
        Ok(text) => RenderResult::Success(text),
        Err(e) => RenderResult::Failure(render_failure_message(&e)),
    }
}

/// Loads every template matching the pattern into a fresh engine, applies
/// the escaping policy, and renders the template named by the source
/// text.  A failed load is terminal: no render is attempted, and the
/// diagnostic carries the loader's message.  A pattern the glob parser
/// refuses would abort inside the loader, so the contract asks the caller
/// to screen it out first; `render_template` does so and turns a refusal
/// into a load failure.
pub fn render_path(
    template_name: &str,
    pattern: &str,
    context: &tera::Context,
    autoescape: bool,
    autoescape_suffixes: Vec<String>,
) -> (r: RenderResult)
    requires
        !has_star(pattern@) || glob_refusal(pattern@) is None,
    ensures
        r matches RenderResult::Failure(m) ==> is_load_failure(m@) || is_render_failure(m@),
        !has_star(pattern@) ==> (r matches RenderResult::Failure(m) && is_load_failure(m@)),
{
    let mut engine = match tera_new(pattern) {
        Ok(t) => t,
        Err(e) => {
            return RenderResult::Failure(load_failure_message(&e));
        },
    };
    configure_autoescape(&mut engine, autoescape, autoescape_suffixes);
    match tera_render(&engine, template_name, context) {
        Ok(text) => RenderResult::Success(text),
        Err(e) => RenderResult::Failure(render_failure_message(&e)),
    }
}

/// Renders one call: parse the JSON context, build the render context,
/// then render inline text or a named template from the given path
/// pattern.  A context document that is not valid JSON is terminal, and
/// its diagnostic is pinned exactly; a path pattern the glob parser
/// refuses is a load failure carrying the parser's diagnostic; any other
/// failure carries the prefix of its own kind.
pub fn render_template(
    template_source: &str,
    json_context: &str,
    template_path: Option<String>,
    autoescape: bool,
    autoescape_suffixes: Vec<String>,
) -> (r: RenderResult)
    ensures
        json_parse_error(json_context@) matches Some(pm) ==> (r matches RenderResult::Failure(m)
            && m@ == invalid_json_text(pm)),
        json_parse_error(json_context@) is None && !path_mode(template_path) ==> (r matches
            RenderResult::Failure(m) ==> is_render_failure(m@)),
        json_parse_error(json_context@) is None && path_mode(template_path) ==> (r matches
            RenderResult::Failure(m) ==> is_load_failure(m@) || is_render_failure(m@)),
        json_parse_error(json_context@) is None && starless_path(template_path) ==> (r matches
            RenderResult::Failure(m) && is_load_failure(m@)),
        json_parse_error(json_context@) is None ==> (pattern_refusal(template_path) matches
            Some(gm) ==> (r matches RenderResult::Failure(m) && m@ == load_error_text(gm))),
{
    let value = match parse_json(json_context) {
        Ok(v) => v,
        Err(msg) => {
            return RenderResult::Failure(invalid_json_message(msg.as_str()));
        },
    };
    let context = context_from_value(&value);
    match template_path {
        Some(p) => {
            if p.as_str().is_empty() {
                render_inline(template_source, &context, autoescape)
            } else if !contains_star(p.as_str()) {
                render_path(
                    template_source,
                    p.as_str(),
                    &context,
                    autoescape,
                    autoescape_suffixes,
                )
            } else {
                match glob_check(p.as_str()) {
                    Err(msg) => RenderResult::Failure(load_error_message(msg.as_str())),
                    Ok(()) => render_path(
                        template_source,
                        p.as_str(),
                        &context,
                        autoescape,
                        autoescape_suffixes,
                    ),
                }
            }
        },
        None => render_inline(template_source, &context, autoescape),
    }
}

} // verus!
