use vstd::prelude::*;

verus! {

#[verifier::external_type_specification]
#[verifier::external_body]
pub struct ExJsonValue(serde_json::Value);

#[verifier::external_type_specification]
#[verifier::external_body]
pub struct ExJsonError(serde_json::Error);

/// The JSON value that `serde_json::from_str` reads from a text, or `None`
/// where it refuses the text (not well-formed JSON, or nested too deeply).
pub uninterp spec fn parsed_json(text: Seq<char>) -> Option<serde_json::Value>;

/// What indexing a JSON value by a key gives (`Null` where there is no such
/// member, or where the value is not an object).
pub uninterp spec fn json_member(v: serde_json::Value, key: Seq<char>) -> serde_json::Value;

/// The characters of a JSON string value, `None` for every other kind of value.
pub uninterp spec fn json_as_str(v: serde_json::Value) -> Option<Seq<char>>;

/// The elements of a JSON array value, `None` for every other kind of value.
pub uninterp spec fn json_as_array(v: serde_json::Value) -> Option<Seq<serde_json::Value>>;

/// Relies on `serde_json::from_str::<Value>`: its result, success or
/// failure, depends on the text alone.
#[verifier::external_body]
pub(crate) fn parse_json(text: &str) -> (r: Result<serde_json::Value, serde_json::Error>)
    ensures
        r is Ok <==> parsed_json(text@) is Some,
        r matches Ok(v) ==> parsed_json(text@) == Some(v),
{
    serde_json::from_str(text)
}

/// Relies on `serde_json::Value`'s `Index<&str>`: the member under `key`, or
/// `Null` when there is none.
#[verifier::external_body]
pub(crate) fn member(v: &serde_json::Value, key: &str) -> (r: serde_json::Value)
    ensures
        r == json_member(*v, key@),
{
    v[key].clone()
}

/// Relies on `serde_json::Value::as_str`: the string held by a string value.
#[verifier::external_body]
pub(crate) fn as_string(v: &serde_json::Value) -> (r: Option<String>)
    ensures
        r is Some <==> json_as_str(*v) is Some,
        r matches Some(s) ==> json_as_str(*v) == Some(s@),
{
    v.as_str().map(str::to_owned)
}

/// Relies on `serde_json::Value::as_array`: the elements of an array value.
#[verifier::external_body]
fn as_array(v: &serde_json::Value) -> (r: Option<Vec<serde_json::Value>>)
    ensures
        r is Some <==> json_as_array(*v) is Some,
        r matches Some(a) ==> json_as_array(*v) == Some(a@),
{
    v.as_array().cloned()
}

/// Whether two texts are the same.
pub fn same_text(a: &str, b: &str) -> (r: bool)
    ensures
        r == (a@ == b@),
{
    let x: String = a.to_owned();
    let y: String = b.to_owned();
    x == y
}

/// The strings that a record of string fields reads from a JSON value: an
/// object that holds each of `keys` as a string member (other members are
/// ignored), or an array of exactly as many strings, in the order of `keys`.
pub open spec fn string_record(v: serde_json::Value, keys: Seq<Seq<char>>) -> Option<Seq<Seq<char>>> {
    match json_as_array(v) {
        Some(items) => {
            if items.len() == keys.len() && forall|i: int| 0 <= i < items.len() ==> (#[trigger] json_as_str(items[i])) is Some {
                Some(Seq::new(keys.len(), |i: int| json_as_str(items[i])->0))
            } else {
                None
            }
        },
        None => {
            if forall|i: int| 0 <= i < keys.len() ==> (#[trigger] json_as_str(json_member(v, keys[i]))) is Some {
                Some(Seq::new(keys.len(), |i: int| json_as_str(json_member(v, keys[i]))->0))
            } else {
                None
            }
        },
    }
}

/// The views of a list of texts.
pub open spec fn texts(s: Seq<String>) -> Seq<Seq<char>> {
    s.map_values(|t: String| t@)
}

/// Reads the string fields named by `keys` from a JSON value, as
/// `string_record` describes.
pub fn string_fields(v: &serde_json::Value, keys: &[&str]) -> (r: Option<Vec<String>>)
    ensures
        r is Some <==> string_record(*v, keys@.map_values(|k: &str| k@)) is Some,
        r matches Some(f) ==> f@.len() == keys@.len() && texts(f@) == string_record(
            *v,
            keys@.map_values(|k: &str| k@),
        )->0,
{
    let ghost ks = keys@.map_values(|k: &str| k@);
    let mut out: Vec<String> = Vec::new();
    match as_array(v) {
        Some(items) => {
            if items.len() != keys.len() {
                return None;
            }
            let mut i: usize = 0;
            while i < items.len()
                invariant
                    i <= items@.len(),
                    items@.len() == ks.len(),
                    json_as_array(*v) == Some(items@),
                    out@.len() == i,
                    forall|j: int| 0 <= j < i ==> json_as_str(#[trigger] items@[j]) == Some(out@[j]@),
                decreases items@.len() - i,
            {
                match as_string(&items[i]) {
                    Some(s) => out.push(s),
                    None => return None,
                }
                i = i + 1;
            }
            assert(texts(out@) =~= string_record(*v, ks)->0);
            Some(out)
        },
        None => {
            let mut i: usize = 0;
            while i < keys.len()
                invariant
                    i <= keys@.len(),
                    ks == keys@.map_values(|k: &str| k@),
                    json_as_array(*v) is None,
                    out@.len() == i,
                    forall|j: int| 0 <= j < i ==> json_as_str(json_member(*v, #[trigger] ks[j])) == Some(out@[j]@),
                decreases keys@.len() - i,
            {
                let field = member(v, keys[i]);
                match as_string(&field) {
                    Some(s) => out.push(s),
                    None => {
                        assert(json_as_str(json_member(*v, ks[i as int])) is None);
                        return None;
                    },
                }
                i = i + 1;
            }
            assert(texts(out@) =~= string_record(*v, ks)->0);
            Some(out)
        },
    }
}

} // verus!
