//! The error of opening the editor in a browser.
use vstd::prelude::*;

verus! {

/// Why the browser could not be opened.
#[derive(Debug)]
pub enum BrowseError {
    /// Opening `url` failed with `source`.
    Open { url: String, source: std::io::Error },
}

} // verus!
