//! Reports whether the host is set to a dark appearance.
//!
//! The library holds the platform-neutral part of the query: the result type,
//! the test that decides "dark" from the stored preference text, and a probe
//! that says, step by step, which foreign handle to create, read, test or
//! release, so that every handle a platform backend obtains is released exactly
//! once on every path.
use vstd::prelude::*;

pub mod lifecycle;
pub mod probe;
pub mod theme;

pub use probe::{Action, Event, Handle, Probe, MATCH_TEXT, PREFERENCE_KEY, has_prefix, theme_for_value};
pub use theme::Theme;

verus! {

/// Reads the current system-wide default setting for the application theme.
///
/// Built without a platform backend, the question cannot be answered, and the
/// result is `None`. A backend answers through [`Probe`].
pub fn global_default_theme() -> (r: Option<Theme>)
    ensures
        r is None,
{
    None
}

} // verus!
