//! What can go wrong in a lookup.

use vstd::prelude::*;

verus! {

/// The errors that may occur while looking a distro up.
///
/// That the catalog does not know a distro is no error: a lookup then
/// succeeds with nothing.
#[derive(Debug)]
pub enum Error {
    /// The exchange with the catalog failed, or its answer was not JSON.
    /// Holds the failure's description.
    ReqwestError(String),
    /// An HTML document could not be read. Holds the diagnostics. No lookup
    /// through the JSON service gives this error.
    ParsingHtmlError(Vec<String>),
    /// The answer was JSON of another shape than the catalog used to give.
    /// Which part differed is deliberately not recorded: the remedy is the
    /// same for each.
    DistroWatchApiChanged,
}

/// `Result` with this crate's [`Error`].
pub type Result<T> = std::result::Result<T, Error>;

} // verus!
