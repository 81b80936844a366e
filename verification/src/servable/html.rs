//! The declarative data of an html page: its metadata and the scripts and
//! styles it includes. Rendering the markup itself is templating glue that
//! lives outside the verified core.

use vstd::prelude::*;

verus! {

/// The metadata of an html page: what browsers show on the tab and what
/// crawlers read.
#[derive(Debug, Clone)]
pub struct PageMetadata {
    /// The title of this page.
    /// Browsers display this on the page's tab.
    pub title: String,
    /// The page author (metadata only)
    pub author: Option<String>,
    /// The page description (metadata only)
    pub description: Option<String>,
    /// The page image.
    /// Browsers display this on the page's tab.
    pub image: Option<String>,
}

impl Default for PageMetadata {
    /// An untitled page with no author, description or image.
    fn default() -> (r: Self)
        ensures
            r.title@ == "Untitled page"@,
            r.author is None,
            r.description is None,
            r.image is None,
    {
        Self {
            title: String::from_str("Untitled page"),
            author: None,
            description: None,
            image: None,
        }
    }
}

/// Where a script or style comes from.
#[derive(Debug, Clone)]
pub enum ScriptSource<S> {
    /// Raw script data
    Inline(S),
    /// Load script from a url
    Linked(S),
}

} // verus!
