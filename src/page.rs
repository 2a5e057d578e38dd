use vstd::prelude::*;
use vstd::string::StringExecFns;

use crate::error::RenderError;

verus! {

#[verifier::external_type_specification]
#[verifier::external_body]
pub struct ExValue(serde_json::Value);

/// Relies on `serde_json::Value::get` with a `&str` key and
/// `serde_json::Value::as_str`: the string stored under `key` when `data` is
/// an object holding a string there.
#[verifier::external_body]
fn string_field(data: &serde_json::Value, key: &str) -> (r: Option<String>) {
    data.get(key).and_then(serde_json::Value::as_str).map(str::to_string)
}

/// Relies on `serde_json::Map::new`, `serde_json::Map::insert` and
/// `serde_json::Value::Object`: a JSON object with two string members.
#[verifier::external_body]
fn object_of_strings(k1: &str, v1: &str, k2: &str, v2: &str) -> (r: serde_json::Value) {
    let mut map = serde_json::Map::new();
    map.insert(k1.to_string(), serde_json::Value::String(v1.to_string()));
    map.insert(k2.to_string(), serde_json::Value::String(v2.to_string()));
    serde_json::Value::Object(map)
}

/// The title a page shows when its data names none.
pub open spec fn default_title() -> Seq<char> {
    "<no title>"@
}

/// The bindings of a page that wraps a rendered fragment.
#[derive(Clone, Debug, PartialEq, Eq)]
pub struct PageBindings {
    pub title: String,
    pub content: String,
}

/// The page's title: the one given, or `<no title>`.
pub fn title_or_default(title: Option<&str>) -> (r: String)
    ensures
        r@ == match title {
            Some(t) => t@,
            None => default_title(),
        },
{
    match title {
        Some(t) => t.to_string(),
        None => String::from_str("<no title>"),
    }
}

/// What a page gets once its fragment has been rendered: the title and the
/// fragment's text; a failed fragment fails the page with the same error.
pub fn page_bindings(title: Option<&str>, fragment: Result<String, RenderError>) -> (r: Result<
    PageBindings,
    RenderError,
>)
    ensures
        match fragment {
            Ok(content) => r matches Ok(b) && b.content == content && b.title@ == match title {
                Some(t) => t@,
                None => default_title(),
            },
            Err(e) => r == Err::<PageBindings, RenderError>(e),
        },
{
    match fragment {
        Ok(content) => Ok(PageBindings { title: title_or_default(title), content }),
        Err(e) => Err(e),
    }
}

impl PageBindings {
    /// The bindings as a JSON object with members `title` and `content`.
    pub fn to_payload(&self) -> (r: serde_json::Value) {
        object_of_strings("title", self.title.as_str(), "content", self.content.as_str())
    }
}

/// The payload of a page that wraps a fragment rendered from `data`: the
/// string `title` of `data` (or `<no title>`) and the fragment's text. A failed
/// fragment fails the page with the same error.
pub fn page_payload(data: &serde_json::Value, fragment: Result<String, RenderError>) -> (r: Result<
    serde_json::Value,
    RenderError,
>)
    ensures
        fragment is Ok <==> r is Ok,
        fragment matches Err(e) ==> r == Err::<serde_json::Value, RenderError>(e),
{
    let title = string_field(data, "title");
    let bindings = match &title {
        Some(t) => page_bindings(Some(t.as_str()), fragment),
        None => page_bindings(None, fragment),
    };
    match bindings {
        Ok(b) => Ok(b.to_payload()),
        Err(e) => Err(e),
    }
}

} // verus!
