use vstd::prelude::*;

verus! {

/// The appearance the host is set to.
///
/// More variants may be added later: callers keep a fallback arm.
#[derive(Debug, Clone, Copy, PartialEq, Eq, Structural)]
#[non_exhaustive]
pub enum Theme {
    /// Standard appearance (possibly light), or themes are not supported.
    Default,
    /// The theme has a "Dark" appearance (light text on dark background).
    Dark,
}

} // verus!
