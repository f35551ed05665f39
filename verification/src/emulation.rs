//! Browser emulation targets.

use vstd::prelude::*;

verus! {

/// The browser whose fingerprint (header set and order, TLS parameters,
/// pseudo-header order) the client should present.
#[derive(PartialEq, Eq, Structural, Debug, Clone, Copy)]
pub enum Browser {
    Chrome,
    Firefox,
}

impl Default for Browser {
    fn default() -> (r: Self)
        ensures
            r == Browser::Chrome,
    {
        Browser::Chrome
    }
}

} // verus!
