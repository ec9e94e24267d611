//! What an answer of the catalog holds under the keys that a lookup reads.

use crate::json::{list_at, read_list, read_text, text_at};
use crate::text::{list_view, text_view};
use serde_json::Value;
use vstd::prelude::*;

verus! {

/// The seven members that a lookup reads from the catalog's answer, each as
/// it was found: `None` where the key is missing or holds a value of another
/// kind than expected (a string; for the lists, an array of strings only).
#[derive(Debug, Clone, PartialEq)]
pub struct ResponseFields {
    /// Under `based_ons`: the distros that this one derives from.
    pub based_ons: Option<Vec<String>>,
    /// Under `origin`: the country or region of origin.
    pub origin: Option<String>,
    /// Under `architectures`: the supported CPU architectures.
    pub architectures: Option<Vec<String>>,
    /// Under `desktop_environments`: the supported desktop environments.
    pub desktop_environments: Option<Vec<String>>,
    /// Under `categories`: the classification tags.
    pub categories: Option<Vec<String>>,
    /// Under `status`: the development status, as text.
    pub status: Option<String>,
    /// Under `popularity`: the popularity indicator.
    pub popularity: Option<String>,
}

/// [`ResponseFields`] as mathematical values.
pub struct ResponseFieldsView {
    pub based_ons: Option<Seq<Seq<char>>>,
    pub origin: Option<Seq<char>>,
    pub architectures: Option<Seq<Seq<char>>>,
    pub desktop_environments: Option<Seq<Seq<char>>>,
    pub categories: Option<Seq<Seq<char>>>,
    pub status: Option<Seq<char>>,
    pub popularity: Option<Seq<char>>,
}

impl ResponseFieldsView {
    /// Whether every member was found.
    pub open spec fn is_complete(self) -> bool {
        &&& self.based_ons is Some
        &&& self.origin is Some
        &&& self.architectures is Some
        &&& self.desktop_environments is Some
        &&& self.categories is Some
        &&& self.status is Some
        &&& self.popularity is Some
    }
}

impl View for ResponseFields {
    type V = ResponseFieldsView;

    open spec fn view(&self) -> ResponseFieldsView {
        ResponseFieldsView {
            based_ons: list_view(self.based_ons),
            origin: text_view(self.origin),
            architectures: list_view(self.architectures),
            desktop_environments: list_view(self.desktop_environments),
            categories: list_view(self.categories),
            status: text_view(self.status),
            popularity: text_view(self.popularity),
        }
    }
}

/// The members that `value` holds under the seven keys.
pub open spec fn fields_of(value: Value) -> ResponseFieldsView {
    ResponseFieldsView {
        based_ons: list_at(value, "based_ons"@),
        origin: text_at(value, "origin"@),
        architectures: list_at(value, "architectures"@),
        desktop_environments: list_at(value, "desktop_environments"@),
        categories: list_at(value, "categories"@),
        status: text_at(value, "status"@),
        popularity: text_at(value, "popularity"@),
    }
}

/// Reads the seven members from a parsed answer.
pub fn read_fields(value: &Value) -> (fields: ResponseFields)
    ensures
        fields@ == fields_of(*value),
{
    ResponseFields {
        based_ons: read_list(value, "based_ons"),
        origin: read_text(value, "origin"),
        architectures: read_list(value, "architectures"),
        desktop_environments: read_list(value, "desktop_environments"),
        categories: read_list(value, "categories"),
        status: read_text(value, "status"),
        popularity: read_text(value, "popularity"),
    }
}

} // verus!
