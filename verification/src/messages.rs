//! The diagnostic texts that a failed call hands back: one fixed prefix per
//! failure kind, and, for render failures, the nested cause chain joined
//! into one newline-separated message.
use vstd::prelude::*;
use vstd::string::StringExecFns;
use crate::string_views;

verus! {

/// The diagnostic for a context document that is not valid JSON: the fixed
/// prefix followed by the parser's message.
pub open spec fn invalid_json_text(msg: Seq<char>) -> Seq<char> {
    ("Invalid JSON: ")@ + msg
}

/// The diagnostic for a template set that could not be loaded: the fixed
/// prefix followed by the loader's message.
pub open spec fn load_error_text(msg: Seq<char>) -> Seq<char> {
    ("Template loading error: ")@ + msg
}

/// One line per nested cause, each introduced by its own prefix, appended
/// in outermost-to-innermost order.
pub open spec fn caused_lines(causes: Seq<Seq<char>>) -> Seq<char>
    decreases causes.len(),
{
    if causes.len() == 0 {
        Seq::<char>::empty()
    } else {
        caused_lines(causes.drop_last()) + ("\nCaused by: ")@ + causes.last()
    }
}

/// The diagnostic for a failed render: the fixed prefix, the engine's
/// top-level message, then one line for each nested cause.
pub open spec fn render_error_text(top: Seq<char>, causes: Seq<Seq<char>>) -> Seq<char> {
    ("Tera render error: ")@ + top + caused_lines(causes)
}

/// Whether a diagnostic has the shape of a failed render's message.
pub open spec fn is_render_failure(t: Seq<char>) -> bool {
    exists|top: Seq<char>, causes: Seq<Seq<char>>| t == render_error_text(top, causes)
}

/// Whether a diagnostic has the shape of a failed load's message.
pub open spec fn is_load_failure(t: Seq<char>) -> bool {
    exists|msg: Seq<char>| t == load_error_text(msg)
}

/// Builds the invalid-JSON diagnostic from the parser's message.
pub fn invalid_json_message(msg: &str) -> (r: String)
    ensures
        r@ == invalid_json_text(msg@),
{
    let mut s: String = "Invalid JSON: ".to_owned();
    s.append(msg);
    s
}

/// Builds the load-failure diagnostic from the loader's message.
pub fn load_error_message(msg: &str) -> (r: String)
    ensures
        r@ == load_error_text(msg@),
{
    let mut s: String = "Template loading error: ".to_owned();
    s.append(msg);
    s
}

/// Builds the render-failure diagnostic: the top-level message first, then
/// every nested cause on a line of its own, outermost first.
pub fn format_render_error(top: &str, causes: &Vec<String>) -> (r: String)
    ensures
        r@ == render_error_text(top@, string_views(causes@)),
{
    let mut s: String = "Tera render error: ".to_owned();
    s.append(top);
    let mut i: usize = 0;
    proof {
        assert(string_views(causes@).take(0) =~= Seq::<Seq<char>>::empty());
        assert(s@ =~= render_error_text(top@, string_views(causes@).take(0)));
    }
    while i < causes.len()
        invariant
            i <= causes.len(),
            s@ == render_error_text(top@, string_views(causes@).take(i as int)),
        decreases causes.len() - i,
    {
        s.append("\nCaused by: ");
        let c: &String = &causes[i];
        s.append(c.as_str());
        proof {
            let cv = string_views(causes@);
            assert(cv.take(i + 1).drop_last() =~= cv.take(i as int));
            assert(cv.take(i + 1).last() == cv[i as int]);
            assert(s@ =~= render_error_text(top@, cv.take(i + 1)));
        }
        i += 1;
    }
    proof {
        assert(string_views(causes@).take(causes.len() as int) =~= string_views(causes@));
    }
    s
}

/// Law: every invalid-JSON diagnostic begins with the fixed prefix
/// `"Invalid JSON: "`, whatever the parser's message.
pub proof fn lemma_invalid_json_prefix(msg: Seq<char>)
    ensures
        invalid_json_text(msg).len() >= ("Invalid JSON: ")@.len(),
        invalid_json_text(msg).subrange(0, ("Invalid JSON: ")@.len() as int) == ("Invalid JSON: ")@,
{
    assert(invalid_json_text(msg).subrange(0, ("Invalid JSON: ")@.len() as int) =~= (
    "Invalid JSON: ")@);
}

/// Law: every load-failure diagnostic begins with the fixed prefix
/// `"Template loading error: "`, whatever the loader's message.
pub proof fn lemma_load_error_prefix(msg: Seq<char>)
    ensures
        load_error_text(msg).len() >= ("Template loading error: ")@.len(),
        load_error_text(msg).subrange(0, ("Template loading error: ")@.len() as int) == (
        "Template loading error: ")@,
{
    assert(load_error_text(msg).subrange(0, ("Template loading error: ")@.len() as int) =~= (
    "Template loading error: ")@);
}

/// Law: every render-failure diagnostic begins with the fixed prefix
/// `"Tera render error: "`, whatever the engine reported and however many
/// causes follow.
pub proof fn lemma_render_error_prefix(top: Seq<char>, causes: Seq<Seq<char>>)
    ensures
        render_error_text(top, causes).len() >= ("Tera render error: ")@.len(),
        render_error_text(top, causes).subrange(0, ("Tera render error: ")@.len() as int) == (
        "Tera render error: ")@,
{
    assert(render_error_text(top, causes).subrange(0, ("Tera render error: ")@.len() as int) =~= (
    "Tera render error: ")@);
}

/// Law: an invalid-JSON diagnostic is never mistaken for a load or a
/// render diagnostic: the fixed prefixes differ, whatever the messages.
pub proof fn lemma_invalid_json_distinct(msg: Seq<char>)
    ensures
        !is_render_failure(invalid_json_text(msg)),
        !is_load_failure(invalid_json_text(msg)),
{
    reveal_strlit("Invalid JSON: ");
    reveal_strlit("Tera render error: ");
    reveal_strlit("Template loading error: ");
    assert forall|top: Seq<char>, causes: Seq<Seq<char>>|
        invalid_json_text(msg) != render_error_text(top, causes) by {
        assert(invalid_json_text(msg)[0] == 'I');
        assert(render_error_text(top, causes)[0] == 'T');
    }
    assert forall|other: Seq<char>| invalid_json_text(msg) != load_error_text(other) by {
        assert(invalid_json_text(msg)[0] == 'I');
        assert(load_error_text(other)[0] == 'T');
    }
}

/// Law: a load diagnostic is never mistaken for a render diagnostic: the
/// fixed prefixes differ, whatever the messages.
pub proof fn lemma_load_failure_distinct(msg: Seq<char>)
    ensures
        !is_render_failure(load_error_text(msg)),
{
    reveal_strlit("Tera render error: ");
    reveal_strlit("Template loading error: ");
    assert forall|top: Seq<char>, causes: Seq<Seq<char>>|
        load_error_text(msg) != render_error_text(top, causes) by {
        assert(load_error_text(msg)[2] == 'm');
        assert(render_error_text(top, causes)[2] == 'r');
    }
}

} // verus!
