//! The browsers that can be selected by name.

use crate::text::lowercase;
use crate::text::to_lowercase;
use crate::text::text_is;
use vstd::prelude::*;

verus! {

/// A browser to impersonate. The set is closed, so a browser outside the
/// catalogue cannot be asked for.
#[derive(Clone, Copy, Debug, PartialEq, Eq, Hash, Structural)]
pub enum Browser {
    Chrome,
    Firefox,
}

/// The browser that a name in lowercase stands for.
pub open spec fn browser_named(lower: Seq<char>) -> Option<Browser> {
    if lower == "chrome"@ {
        Some(Browser::Chrome)
    } else if lower == "firefox"@ {
        Some(Browser::Firefox)
    } else {
        None
    }
}

impl Browser {
    /// The browser of a name that is already in lowercase.
    pub fn from_lowercase(lower: &String) -> (r: Option<Browser>)
        ensures
            r == browser_named(lower@),
    {
        if text_is(lower, "chrome") {
            Some(Browser::Chrome)
        } else if text_is(lower, "firefox") {
            Some(Browser::Firefox)
        } else {
            None
        }
    }

    /// The browser of a name in any case; `None` for a browser that is not
    /// supported.
    pub fn from_name(name: &str) -> (r: Option<Browser>)
        ensures
            r == browser_named(lowercase(name@)),
    {
        let lower = to_lowercase(name);
        Browser::from_lowercase(&lower)
    }
}

} // verus!
