use vstd::prelude::*;

verus! {

/// The string held under `key` when `text` parses as a JSON object whose
/// member `key` is a string; `None` otherwise.
pub uninterp spec fn json_str_field(text: Seq<char>, key: Seq<char>) -> Option<Seq<char>>;

/// The compact JSON text of an object whose members are the given pairs,
/// each value a JSON string.
pub uninterp spec fn json_object_text(pairs: Seq<(Seq<char>, Seq<char>)>) -> Seq<char>;

/// Keys and values of a list of string pairs, as plain sequences.
pub open spec fn pair_views(s: Seq<(String, String)>) -> Seq<(Seq<char>, Seq<char>)> {
    s.map_values(|p: (String, String)| (p.0@, p.1@))
}

/// Relies on serde_json::from_str (into a `Value`), `Value::get` with a
/// string key and `Value::as_str`: the string member `key` of the parsed
/// object, if there is one.
#[verifier::external_body]
pub(crate) fn string_field(text: &str, key: &str) -> (r: Option<String>)
    ensures
        match r {
            Some(s) => json_str_field(text@, key@) == Some(s@),
            None => json_str_field(text@, key@) is None,
        },
{
    match serde_json::from_str::<serde_json::Value>(text) {
        Ok(v) => v.get(key).and_then(serde_json::Value::as_str).map(String::from),
        Err(_) => None,
    }
}

/// Relies on serde_json's `Map::insert` and `Value::to_string`: the JSON text
/// of an object of string members.
#[verifier::external_body]
pub(crate) fn object_text(pairs: &Vec<(String, String)>) -> (r: String)
    ensures
        r@ == json_object_text(pair_views(pairs@)),
{
    let mut map = serde_json::Map::new();
    for (k, v) in pairs {
        map.insert(k.clone(), serde_json::Value::String(v.clone()));
    }
    serde_json::Value::Object(map).to_string()
}

} // verus!
