use vstd::prelude::*;

verus! {

#[verifier::external_type_specification]
#[verifier::external_body]
pub struct ExValue(serde_json::Value);

/// Abstract shape of a parsed JSON value, as far as this crate reads one: an
/// object is a map from member names to values; a number carries its decimal
/// text and, when the parser stored it as an integer in `i64` range, that
/// integer; every other kind of value is opaque.
pub enum JsonData {
    Obj(Map<Seq<char>, JsonData>),
    Num { text: Seq<char>, int_val: Option<i64> },
    Other,
}

/// The shape of a parsed `serde_json::Value`.
pub uninterp spec fn value_data(v: serde_json::Value) -> JsonData;

/// What parsing a text as JSON yields: the shape of the resulting value, or
/// nothing when the text is not a JSON document.
pub uninterp spec fn parsed_json(s: Seq<char>) -> Option<JsonData>;

/// Relies on `serde_json::from_str::<Value>`: whether a text parses, and what
/// it parses to, depend on the text alone.
#[verifier::external_body]
pub(crate) fn parse_json(s: &str) -> (r: Option<serde_json::Value>)
    ensures
        r is Some <==> parsed_json(s@) is Some,
        (r matches Some(v) ==> Some(value_data(v)) == parsed_json(s@)),
{
    serde_json::from_str::<serde_json::Value>(s).ok()
}

/// Relies on `serde_json::Value::get` with a string index: on an object it
/// looks the member up by name; on any other value it returns nothing.
#[verifier::external_body]
pub(crate) fn get_member<'a>(v: &'a serde_json::Value, key: &str) -> (r: Option<
    &'a serde_json::Value>)
    ensures
        (match value_data(*v) {
            JsonData::Obj(m) => {
                &&& r is Some <==> m.contains_key(key@)
                &&& (r matches Some(w) ==> value_data(*w) == m[key@])
            },
            _ => r is None,
        }),
{
    v.get(key)
}

/// Relies on `serde_json::Value::as_i64`: it returns the number's value
/// exactly when the parser stored the number as an integer in `i64` range,
/// and nothing on any other value.
#[verifier::external_body]
pub(crate) fn get_i64(v: &serde_json::Value) -> (r: Option<i64>)
    ensures
        (match value_data(*v) {
            JsonData::Num { int_val, .. } => r == int_val,
            _ => r is None,
        }),
{
    v.as_i64()
}

/// Relies on `serde_json::Value::as_number` and the number's text rendering:
/// a number's decimal text depends on the stored number alone; a non-number
/// has none.
#[verifier::external_body]
pub(crate) fn get_number_text(v: &serde_json::Value) -> (r: Option<String>)
    ensures
        (match value_data(*v) {
            JsonData::Num { text, .. } => r matches Some(t) && t@ == text,
            _ => r is None,
        }),
{
    match v.as_number() {
        Some(n) => Some(format!("{}", n)),
        None => None,
    }
}

} // verus!
