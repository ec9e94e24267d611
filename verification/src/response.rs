//! One lookup: where to ask, and what the catalog's answer means.
//!
//! The exchange itself is the caller's: it sends one GET request to
//! [`request_url`] and hands the answer's status code and body to
//! [`read_response`]. A caller need not read the body of an answer for which
//! [`is_not_found`] holds.

use crate::error::{Error, Result};
use crate::fields::{fields_of, read_fields, ResponseFieldsView};
use crate::json::{json_member, json_parsed, parse};
use crate::metadata::{assembled, DistroMetadata, DistroMetadataView};
use crate::status::parse_status;
use crate::text::views;
use serde_json::Value;
use vstd::prelude::*;
use vstd::string::StringExecFns;

verus! {

/// The status code with which the catalog says that it knows no such distro.
pub const NOT_FOUND: u16 = 404;

/// The address of the catalog's entry for `distro`: the identifier follows
/// the fixed prefix as it is.
pub open spec fn url_of(distro: Seq<char>) -> Seq<char> {
    "https://diwa.demo-web-fahmi.my.id/api/v2/distributions/"@ + distro
}

/// The address to send the GET request for `distro` to.
pub fn request_url(distro: &str) -> (url: String)
    ensures
        url@ == url_of(distro@),
{
    String::from_str("https://diwa.demo-web-fahmi.my.id/api/v2/distributions/").concat(distro)
}

/// Whether an answer with this status code says that there is no such distro.
pub fn is_not_found(status: u16) -> (absent: bool)
    ensures
        absent == (status == NOT_FOUND),
{
    status == NOT_FOUND
}

/// What a lookup came to.
pub enum Outcome {
    /// The catalog knows the distro and described it.
    Found(DistroMetadataView),
    /// The catalog knows no such distro.
    Absent,
    /// [`Error::ReqwestError`]: the exchange failed or the body was not JSON.
    /// Holds the failure's description.
    Failed(Seq<char>),
    /// [`Error::DistroWatchApiChanged`].
    ApiChanged,
    /// [`Error::ParsingHtmlError`], with its diagnostics.
    HtmlUnreadable(Seq<Seq<char>>),
}

/// The outcome that a lookup's result stands for: the result itself, as
/// mathematical values.
pub open spec fn outcome_of(result: Result<Option<DistroMetadata>>) -> Outcome {
    match result {
        Ok(Some(metadata)) => Outcome::Found(metadata@),
        Ok(None) => Outcome::Absent,
        Err(Error::ReqwestError(text)) => Outcome::Failed(text@),
        Err(Error::DistroWatchApiChanged) => Outcome::ApiChanged,
        Err(Error::ParsingHtmlError(notes)) => Outcome::HtmlUnreadable(views(notes@)),
    }
}

/// The outcome for a body that parsed to `value`.
pub open spec fn decoded(distro: Seq<char>, value: Value) -> Outcome {
    match assembled(distro, fields_of(value)) {
        Some(record) => Outcome::Found(record),
        None => Outcome::ApiChanged,
    }
}

/// The outcome that an answer with the status code `status` and the body
/// `body` has for a lookup of `distro`. A 404 means absence whatever the body
/// holds. Every other status code has the body decide, a 500 as much as a
/// 200: a body that is not JSON is a failure, described as the JSON reader
/// describes it, and JSON without the expected members a changed API.
pub open spec fn expected_outcome(distro: Seq<char>, status: u16, body: Seq<u8>) -> Outcome {
    if status == NOT_FOUND {
        Outcome::Absent
    } else {
        match json_parsed(body) {
            Ok(value) => decoded(distro, value),
            Err(fault) => Outcome::Failed(fault),
        }
    }
}

/// Makes the record for `distro` from a parsed body.
pub fn decode(distro: &str, value: &Value) -> (made: Result<DistroMetadata>)
    ensures
        match assembled(distro@, fields_of(*value)) {
            Some(record) => made matches Ok(metadata) && metadata@ == record,
            None => made == Err::<DistroMetadata, Error>(Error::DistroWatchApiChanged),
        },
{
    DistroMetadata::from_fields(distro, read_fields(value))
}

/// Reads the catalog's answer to the request for `distro`.
///
/// Gives `Ok(None)` for a 404, whatever the body; else the record that the
/// body describes, with `distro` as its name;
/// [`Error::DistroWatchApiChanged`] where the body is JSON of another shape;
/// [`Error::ReqwestError`] where it is not JSON, with the JSON reader's
/// description of the fault.
pub fn read_response(distro: &str, status: u16, body: &[u8]) -> (result: Result<
    Option<DistroMetadata>,
>)
    ensures
        outcome_of(result) == expected_outcome(distro@, status, body@),
        status == NOT_FOUND ==> result == Ok::<Option<DistroMetadata>, Error>(None),
{
    if is_not_found(status) {
        return Ok(None);
    }
    match parse(body) {
        Ok(value) => match decode(distro, &value) {
            Ok(metadata) => Ok(Some(metadata)),
            Err(error) => Err(error),
        },
        Err(fault) => Err(Error::ReqwestError(fault)),
    }
}

/// An answer whose body holds all seven members in their expected kinds,
/// with a status text that begins with a status keyword, gives a record
/// whose name is the identifier asked for and whose other fields are those
/// members, whatever the status code but 404.
pub proof fn well_formed_answer_is_found(
    distro: Seq<char>,
    status: u16,
    body: Seq<u8>,
    value: Value,
)
    requires
        status != NOT_FOUND,
        json_parsed(body) == Ok::<Value, Seq<char>>(value),
        fields_of(value).is_complete(),
        parse_status(fields_of(value).status.unwrap()) is Some,
    ensures
        expected_outcome(distro, status, body) == Outcome::Found(
            DistroMetadataView {
                name: distro,
                based_on: fields_of(value).based_ons.unwrap(),
                origin: fields_of(value).origin.unwrap(),
                architecture: fields_of(value).architectures.unwrap(),
                desktop: fields_of(value).desktop_environments.unwrap(),
                category: fields_of(value).categories.unwrap(),
                status: parse_status(fields_of(value).status.unwrap()).unwrap(),
                popularity: fields_of(value).popularity.unwrap(),
            },
        ),
{
}

/// A 404 means absence for every identifier and every body.
pub proof fn not_found_is_absent(distro: Seq<char>, body: Seq<u8>)
    ensures
        expected_outcome(distro, NOT_FOUND, body) == Outcome::Absent,
{
}

/// Whether `key` is one of the seven keys that a lookup reads.
pub open spec fn is_required_key(key: Seq<char>) -> bool {
    ||| key == "based_ons"@
    ||| key == "origin"@
    ||| key == "architectures"@
    ||| key == "desktop_environments"@
    ||| key == "categories"@
    ||| key == "status"@
    ||| key == "popularity"@
}

/// A JSON body that lacks any one of the seven keys is a changed API,
/// whichever key it is and whatever the others hold: never a failed exchange,
/// never a record.
pub proof fn missing_key_is_api_changed(
    distro: Seq<char>,
    status: u16,
    body: Seq<u8>,
    value: Value,
    key: Seq<char>,
)
    requires
        status != NOT_FOUND,
        json_parsed(body) == Ok::<Value, Seq<char>>(value),
        is_required_key(key),
        json_member(value, key) is None,
    ensures
        expected_outcome(distro, status, body) == Outcome::ApiChanged,
{
}

/// Members of which one is missing give no record, whatever the others hold.
pub proof fn incomplete_fields_give_nothing(name: Seq<char>, fields: ResponseFieldsView)
    requires
        !fields.is_complete(),
    ensures
        assembled(name, fields) is None,
{
}

/// A status text that begins with no status keyword gives no record.
pub proof fn unknown_status_gives_nothing(name: Seq<char>, fields: ResponseFieldsView)
    requires
        fields.status is Some ==> parse_status(fields.status.unwrap()) is None,
    ensures
        assembled(name, fields) is None,
{
}

/// No answer makes a lookup fail as an unreadable HTML document.
pub proof fn no_answer_is_html_unreadable(distro: Seq<char>, status: u16, body: Seq<u8>)
    ensures
        !(expected_outcome(distro, status, body) is HtmlUnreadable),
{
}

/// Two lookups of one identifier that get the same answer come to the same
/// outcome: both absent, both the same record field for field, or both the
/// same error.
pub proof fn same_answer_same_outcome(
    distro: Seq<char>,
    status: u16,
    body: Seq<u8>,
    first: Result<Option<DistroMetadata>>,
    second: Result<Option<DistroMetadata>>,
)
    requires
        outcome_of(first) == expected_outcome(distro, status, body),
        outcome_of(second) == expected_outcome(distro, status, body),
    ensures
        outcome_of(first) == outcome_of(second),
        first is Ok <==> second is Ok,
        first matches Ok(Some(one)) ==> second matches Ok(Some(other)) && one@ == other@,
        first matches Ok(None) ==> second matches Ok(None),
{
}

} // verus!
