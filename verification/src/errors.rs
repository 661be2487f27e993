use vstd::prelude::*;

verus! {

/// The failure taxonomy of a scrape run. Every error is fatal: the run aborts
/// with no retry and no row-level recovery.
#[derive(Clone, Copy, Debug, PartialEq, Eq, Structural)]
pub enum ScrapeError {
    /// An expected filter option is absent from the control.
    FilterNotFound,
    /// The automation collaborator failed to locate or operate an element.
    NavigationError,
    /// A data row is missing a required cell or anchor.
    MalformedRow,
    /// The output file cannot be created, written or flushed.
    ExportError,
}

impl ScrapeError {
    /// A short diagnostic label for the error.
    pub fn describe(&self) -> (r: &'static str)
        ensures
            r@ == (match *self {
                ScrapeError::FilterNotFound => "filter option not found"@,
                ScrapeError::NavigationError => "browser automation failed"@,
                ScrapeError::MalformedRow => "data row is missing a required cell or anchor"@,
                ScrapeError::ExportError => "output file could not be written"@,
            }),
    {
        match *self {
            ScrapeError::FilterNotFound => "filter option not found",
            ScrapeError::NavigationError => "browser automation failed",
            ScrapeError::MalformedRow => "data row is missing a required cell or anchor",
            ScrapeError::ExportError => "output file could not be written",
        }
    }
}

} // verus!
