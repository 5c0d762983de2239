use vstd::prelude::*;
use crate::convergence::ConvergenceError;

verus! {

/// A failure of the browser session or of reading a whole page.
#[derive(Debug, Clone)]
pub enum ScrapeError {
    BrowserBackend(String),
    ScraperBackend(String),
    Convergence(ConvergenceError),
}

#[derive(Debug, Clone)]
pub enum Error {
    Scraper(ScrapeError),
    Repository(String),
    SetNotExists(String),
}

} // verus!
