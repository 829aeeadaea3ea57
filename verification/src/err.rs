//! The crate's error type.

use vstd::prelude::*;
use crate::scrape::ScrapeError;

verus! {

/// Everything that can go wrong in a run.
#[derive(Debug)]
pub enum Error {
    /// A file that should exist was not found.
    FileNotFound(String),
    /// Reading or writing a file failed for another reason.
    FileIO(String),
    /// The configuration file did not parse.
    ConfigDecode(String),
    /// An HTTP request failed or returned a bad status.
    Http(String),
    /// A feed listing page did not parse.
    Scrape(ScrapeError),
    /// The historical database could not be opened or written.
    Database(String),
}

/// Whether the error says that a file was merely missing, as opposed to
/// unreadable or malformed.
pub fn is_file_nonexistant(err: &Error) -> (r: bool)
    ensures
        r == (err is FileNotFound),
{
    match err {
        Error::FileNotFound(_) => true,
        _ => false,
    }
}

} // verus!
