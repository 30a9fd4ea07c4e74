//! The context builder: parses the JSON document and turns its top-level
//! object entries into the engine's render context.  Any other root shape
//! (array, scalar, null) degrades to an empty context without an error.
use vstd::prelude::*;

verus! {

#[verifier::external_type_specification]
#[verifier::external_body]
pub struct ExValue(serde_json::Value);

#[verifier::external_type_specification]
#[verifier::external_body]
pub struct ExContext(tera::Context);

/// The parser's verdict on a JSON document: nothing when the text parses,
/// otherwise the parser's diagnostic message.  The outcome depends on the
/// text alone.
pub uninterp spec fn json_parse_error(s: Seq<char>) -> Option<Seq<char>>;

/// The model of a parsed JSON value: its canonical serialized text.
pub uninterp spec fn value_text(v: serde_json::Value) -> Seq<char>;

/// What a parsed JSON value holds at its root: the object's entries in
/// iteration order, each value modeled by its serialized text, or nothing
/// when the root is not an object.
pub uninterp spec fn value_object_entries(v: serde_json::Value) -> Option<
    Seq<(Seq<char>, Seq<char>)>,
>;

/// What a render context holds: its key-to-value mapping, each value
/// modeled by its serialized text.
pub uninterp spec fn context_entries(c: tera::Context) -> Map<Seq<char>, Seq<char>>;

/// The empty key-to-value mapping.
pub open spec fn no_entries() -> Map<Seq<char>, Seq<char>> {
    Map::empty()
}

/// The mapping that a sequence of entries builds up, inserted left to
/// right: keys are unique in the result and the last write wins.
pub open spec fn entries_to_map(es: Seq<(Seq<char>, Seq<char>)>) -> Map<Seq<char>, Seq<char>>
    decreases es.len(),
{
    if es.len() == 0 {
        no_entries()
    } else {
        entries_to_map(es.drop_last()).insert(es.last().0, es.last().1)
    }
}

/// The context that a parsed document owes: its root object's entries, or
/// an empty mapping for any other root shape.
pub open spec fn object_context(o: Option<Seq<(Seq<char>, Seq<char>)>>) -> Map<
    Seq<char>,
    Seq<char>,
> {
    match o {
        Some(es) => entries_to_map(es),
        None => no_entries(),
    }
}

/// Relies on serde_json::from_str::<Value>: parses the document or reports
/// the parser's diagnostic; which of the two happens, and the diagnostic's
/// text, depend on the input text alone.
#[verifier::external_body]
pub(crate) fn parse_json(s: &str) -> (r: Result<serde_json::Value, String>)
    ensures
        r is Ok <==> json_parse_error(s@) is None,
        r matches Err(m) ==> json_parse_error(s@) == Some(m@),
{
    match serde_json::from_str::<serde_json::Value>(s) {
        Ok(v) => Ok(v),
        Err(e) => Err(format!("{}", e)),
    }
}

/// Relies on serde_json::Value::Object and serde_json::Map iteration:
/// hands out the root object's entries in iteration order, or nothing when
/// the root is any other JSON shape.
#[verifier::external_body]
pub(crate) fn value_root_entries(v: &serde_json::Value) -> (r: Option<
    Vec<(String, serde_json::Value)>,
>)
    ensures
        r is Some <==> value_object_entries(*v) is Some,
        r matches Some(es) ==> value_object_entries(*v) matches Some(m) && es@.len() == m.len()
            && (forall|i: int|
            0 <= i < m.len() ==> (#[trigger] es@[i]).0@ == m[i].0 && value_text(es@[i].1)
                == m[i].1),
{
    match v {
        serde_json::Value::Object(map) => Some(
            map.iter().map(|(k, val)| (k.clone(), val.clone())).collect(),
        ),
        _ => None,
    }
}

/// Relies on tera::Context::new: a context with no entries.
#[verifier::external_body]
pub(crate) fn context_new() -> (r: tera::Context)
    ensures
        context_entries(r) == no_entries(),
{
    tera::Context::new()
}

/// Relies on tera::Context::insert, an insert into the context's map keyed
/// by the string: the value is stored under the key, replacing any earlier
/// entry with that key.
#[verifier::external_body]
pub(crate) fn context_insert(c: &mut tera::Context, key: &String, value: &serde_json::Value)
    ensures
        context_entries(*final(c)) == context_entries(*old(c)).insert(key@, value_text(*value)),
{
    c.insert(key.as_str(), value)
}

/// Builds the render context that a parsed document owes: the root
/// object's entries key by key, last write winning, and an empty context
/// for a non-object root.
pub fn context_from_value(v: &serde_json::Value) -> (c: tera::Context)
    ensures
        context_entries(c) == object_context(value_object_entries(*v)),
        value_object_entries(*v) is None ==> context_entries(c) == no_entries(),
{
    let mut c = context_new();
    match value_root_entries(v) {
        None => c,
        Some(entries) => {
            let ghost model: Seq<(Seq<char>, Seq<char>)> = value_object_entries(*v)->Some_0;
            let mut i: usize = 0;
            proof {
                assert(model.take(0) =~= Seq::<(Seq<char>, Seq<char>)>::empty());
            }
            while i < entries.len()
                invariant
                    i <= entries.len(),
                    value_object_entries(*v) == Some(model),
                    entries@.len() == model.len(),
                    forall|j: int|
                        0 <= j < model.len() ==> (#[trigger] entries@[j]).0@ == model[j].0
                            && value_text(entries@[j].1) == model[j].1,
                    context_entries(c) == entries_to_map(model.take(i as int)),
                decreases entries.len() - i,
            {
                let e: &(String, serde_json::Value) = &entries[i];
                context_insert(&mut c, &e.0, &e.1);
                proof {
                    assert(model.take(i + 1).drop_last() =~= model.take(i as int));
                    assert(model.take(i + 1).last() == model[i as int]);
                }
                i += 1;
            }
            proof {
                assert(model.take(model.len() as int) =~= model);
            }
            c
        },
    }
}

} // verus!
