use vstd::prelude::*;

use crate::theme::Theme;

verus! {

/// The name under which the host keeps the appearance preference.
pub const PREFERENCE_KEY: &'static str = "AppleInterfaceStyle";

/// The text that a dark appearance's stored value starts with.
pub const MATCH_TEXT: &'static str = "Dark";

/// Whether `t` is `p` followed by anything (possibly nothing).
pub open spec fn starts_with(t: Seq<char>, p: Seq<char>) -> bool {
    p.len() <= t.len() && t.subrange(0, p.len() as int) == p
}

/// The theme that a stored preference value stands for: dark exactly when the
/// value is present and starts with the match text.
pub open spec fn theme_of(value: Option<Seq<char>>) -> Theme {
    match value {
        Some(v) => if starts_with(v, MATCH_TEXT@) { Theme::Dark } else { Theme::Default },
        None => Theme::Default,
    }
}

/// Tests whether `text` begins with `prefix`.
pub fn has_prefix(text: &str, prefix: &str) -> (r: bool)
    ensures
        r == starts_with(text@, prefix@),
{
    let n: usize = text.unicode_len();
    let m: usize = prefix.unicode_len();
    if m > n {
        return false;
    }
    let mut i: usize = 0;
    while i < m
        invariant
            m == prefix@.len(),
            n == text@.len(),
            m <= n,
            i <= m,
            forall|j: int| 0 <= j < i ==> text@[j] == prefix@[j],
        decreases m - i,
    {
        if text.get_char(i) != prefix.get_char(i) {
            assert(text@.subrange(0, m as int)[i as int] != prefix@[i as int]);
            return false;
        }
        i = i + 1;
    }
    assert(text@.subrange(0, m as int) =~= prefix@);
    true
}

/// The theme for a stored preference value, `None` when the key is unset.
pub fn theme_for_value(value: Option<&str>) -> (r: Theme)
    ensures
        r == theme_of(
            match value {
                Some(v) => Some(v@),
                None => None,
            },
        ),
{
    match value {
        Some(v) => {
            if has_prefix(v, MATCH_TEXT) {
                Theme::Dark
            } else {
                Theme::Default
            }
        },
        None => Theme::Default,
    }
}

/// A foreign handle that the query obtains and must give back.
#[derive(Debug, Clone, Copy, PartialEq, Eq, Structural)]
pub enum Handle {
    /// The string made for the preference key.
    Key,
    /// The string made for the match text.
    Matcher,
    /// The value that the preference read handed out.
    Value,
}

/// What the backend is asked to do next.
#[derive(Debug, Clone, Copy, PartialEq, Eq, Structural)]
pub enum Action {
    /// Obtain a handle. For `Key` and `Matcher`: make a no-copy string of
    /// [`Probe::text`] over static memory. For `Value`: read the preference
    /// named by the key handle, scoped to any application.
    Acquire(Handle),
    /// Test whether the value's text starts with the matcher's text.
    TestPrefix,
    /// Give the handle back, once.
    Release(Handle),
    /// The query is over, with this answer; nothing is held.
    Finish(Option<Theme>),
}

/// What the backend reports after doing the action it was asked for.
#[derive(Debug, Clone, Copy, PartialEq, Eq, Structural)]
pub enum Event {
    /// The handle was obtained (`true`) or came back null (`false`).
    Acquired(bool),
    /// Outcome of the prefix test.
    Tested(bool),
    /// The handle was released.
    Released,
}

/// The state of one appearance query, from the first handle to the answer.
///
/// Each state records which handles are held, so that every handle obtained
/// is released exactly once, whichever way the query goes.
#[derive(Debug, Clone, Copy, PartialEq, Eq, Structural)]
pub enum Probe {
    /// Nothing held; the key string is to be made.
    CreatingKey,
    /// The key is held; the match string is to be made.
    CreatingMatcher,
    /// The key is held, and the match string if `matcher`; the value is to be read.
    Reading { matcher: bool },
    /// Key, match string and value are held; the prefix is to be tested.
    Testing,
    /// The flags say which handles are still held; `dark` is the verdict.
    Releasing { key: bool, matcher: bool, value: bool, dark: bool },
    /// The key string could not be made; nothing is held.
    Failed,
}

impl Probe {
    /// Whether handle `h` is held in this state.
    pub open spec fn holds(self, h: Handle) -> bool {
        match self {
            Probe::CreatingKey => false,
            Probe::CreatingMatcher => h == Handle::Key,
            Probe::Reading { matcher } => h == Handle::Key || (h == Handle::Matcher && matcher),
            Probe::Testing => true,
            Probe::Releasing { key, matcher, value, .. } => match h {
                Handle::Key => key,
                Handle::Matcher => matcher,
                Handle::Value => value,
            },
            Probe::Failed => false,
        }
    }

    /// The action that this state asks for.
    pub open spec fn action(self) -> Action {
        match self {
            Probe::CreatingKey => Action::Acquire(Handle::Key),
            Probe::CreatingMatcher => Action::Acquire(Handle::Matcher),
            Probe::Reading { .. } => Action::Acquire(Handle::Value),
            Probe::Testing => Action::TestPrefix,
            Probe::Releasing { key, matcher, value, dark } => {
                if value {
                    Action::Release(Handle::Value)
                } else if matcher {
                    Action::Release(Handle::Matcher)
                } else if key {
                    Action::Release(Handle::Key)
                } else {
                    Action::Finish(Some(if dark { Theme::Dark } else { Theme::Default }))
                }
            },
            Probe::Failed => Action::Finish(None),
        }
    }

    /// The state after the backend reports `e`. A report that does not answer
    /// the pending action leaves the state as it is.
    pub open spec fn after(self, e: Event) -> Probe {
        match (self, e) {
            (Probe::CreatingKey, Event::Acquired(ok)) => {
                if ok { Probe::CreatingMatcher } else { Probe::Failed }
            },
            (Probe::CreatingMatcher, Event::Acquired(ok)) => Probe::Reading { matcher: ok },
            (Probe::Reading { matcher }, Event::Acquired(ok)) => {
                if ok && matcher {
                    Probe::Testing
                } else {
                    Probe::Releasing { key: true, matcher, value: ok, dark: false }
                }
            },
            (Probe::Testing, Event::Tested(yes)) => {
                Probe::Releasing { key: true, matcher: true, value: true, dark: yes }
            },
            (Probe::Releasing { key, matcher, value, dark }, Event::Released) => {
                if value {
                    Probe::Releasing { key, matcher, value: false, dark }
                } else if matcher {
                    Probe::Releasing { key, matcher: false, value, dark }
                } else if key {
                    Probe::Releasing { key: false, matcher, value, dark }
                } else {
                    self
                }
            },
            _ => self,
        }
    }

    /// A fresh query: nothing held yet.
    pub fn new() -> (r: Probe)
        ensures
            r == Probe::CreatingKey,
            forall|h: Handle| !r.holds(h),
    {
        Probe::CreatingKey
    }

    /// The action that the backend is to perform next.
    pub fn next_action(&self) -> (r: Action)
        ensures
            r == self.action(),
    {
        match *self {
            Probe::CreatingKey => Action::Acquire(Handle::Key),
            Probe::CreatingMatcher => Action::Acquire(Handle::Matcher),
            Probe::Reading { .. } => Action::Acquire(Handle::Value),
            Probe::Testing => Action::TestPrefix,
            Probe::Releasing { key, matcher, value, dark } => {
                if value {
                    Action::Release(Handle::Value)
                } else if matcher {
                    Action::Release(Handle::Matcher)
                } else if key {
                    Action::Release(Handle::Key)
                } else if dark {
                    Action::Finish(Some(Theme::Dark))
                } else {
                    Action::Finish(Some(Theme::Default))
                }
            },
            Probe::Failed => Action::Finish(None),
        }
    }

    /// Takes in what the backend reports for the pending action.
    pub fn advance(&mut self, e: Event)
        ensures
            *final(self) == old(self).after(e),
    {
        let next: Probe = match (*self, e) {
            (Probe::CreatingKey, Event::Acquired(ok)) => {
                if ok { Probe::CreatingMatcher } else { Probe::Failed }
            },
            (Probe::CreatingMatcher, Event::Acquired(ok)) => Probe::Reading { matcher: ok },
            (Probe::Reading { matcher }, Event::Acquired(ok)) => {
                if ok && matcher {
                    Probe::Testing
                } else {
                    Probe::Releasing { key: true, matcher, value: ok, dark: false }
                }
            },
            (Probe::Testing, Event::Tested(yes)) => {
                Probe::Releasing { key: true, matcher: true, value: true, dark: yes }
            },
            (Probe::Releasing { key, matcher, value, dark }, Event::Released) => {
                if value {
                    Probe::Releasing { key, matcher, value: false, dark }
                } else if matcher {
                    Probe::Releasing { key, matcher: false, value, dark }
                } else if key {
                    Probe::Releasing { key: false, matcher, value, dark }
                } else {
                    *self
                }
            },
            _ => *self,
        };
        *self = next;
    }

    /// The static text that a string handle is made from.
    pub fn text(h: Handle) -> (r: Option<&'static str>)
        ensures
            h == Handle::Key ==> r == Some(PREFERENCE_KEY),
            h == Handle::Matcher ==> r == Some(MATCH_TEXT),
            h == Handle::Value ==> r is None,
    {
        match h {
            Handle::Key => Some(PREFERENCE_KEY),
            Handle::Matcher => Some(MATCH_TEXT),
            Handle::Value => None,
        }
    }
}

} // verus!
