//! Packages announced on the PyPI RSS feed.
use vstd::prelude::*;

verus! {

/// One package announcement from the PyPI feed. The title holds the package
/// name once the feed's wording has been taken off it.
#[derive(Debug, Clone)]
pub struct PythonPackage {
    pub title: Option<String>,
    pub link: Option<String>,
    pub description: Option<String>,
    pub author: Option<String>,
    pub published_date: Option<String>,
}

} // verus!
