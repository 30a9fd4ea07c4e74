//! The autoescape resolver: turns the escape-control flag and the optional
//! suffix list into the engine's escaping policy.  An empty effective list
//! turns escaping off for every template; a non-empty one escapes exactly
//! the templates whose names end with one of the listed suffixes.
use vstd::prelude::*;
use crate::string_views;

verus! {

/// The suffix list the engine is owed: the given list when escaping is
/// enabled and at least one suffix was named, and no suffixes at all
/// otherwise.
pub open spec fn effective_suffixes(enabled: bool, suffixes: Seq<Seq<char>>) -> Seq<Seq<char>> {
    if enabled && suffixes.len() > 0 {
        suffixes
    } else {
        Seq::<Seq<char>>::empty()
    }
}

/// Law: with escaping disabled, or with no suffixes named, the effective
/// policy escapes nothing, whatever the suffix list holds.
pub proof fn lemma_autoescape_off(enabled: bool, suffixes: Seq<Seq<char>>)
    requires
        !enabled || suffixes.len() == 0,
    ensures
        effective_suffixes(enabled, suffixes) == Seq::<Seq<char>>::empty(),
{
}

/// Resolves the escape-control flag and suffix list into the effective
/// suffix list.
pub fn resolve_autoescape(enabled: bool, suffixes: Vec<String>) -> (r: Vec<String>)
    ensures
        string_views(r@) == effective_suffixes(enabled, string_views(suffixes@)),
{
    if enabled && suffixes.len() > 0 {
        suffixes
    } else {
        proof {
            assert(string_views(Seq::<String>::empty()) =~= Seq::<Seq<char>>::empty());
        }
        Vec::new()
    }
}

} // verus!
