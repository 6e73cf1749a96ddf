use vstd::prelude::*;

use crate::probe::{starts_with, theme_of, Action, Event, Handle, Probe, MATCH_TEXT};
use crate::theme::Theme;

verus! {

/// The state reached from `p` after the reports `evs`, in order.
pub open spec fn run(p: Probe, evs: Seq<Event>) -> Probe
    decreases evs.len(),
{
    if evs.len() == 0 {
        p
    } else {
        run(p.after(evs[0]), evs.drop_first())
    }
}

/// Whether report `e`, given in state `p`, hands over a new handle `h`.
pub open spec fn acquires(p: Probe, e: Event, h: Handle) -> bool {
    p.action() == Action::Acquire(h) && e == Event::Acquired(true)
}

/// Whether report `e`, given in state `p`, confirms that `h` was released.
pub open spec fn releases(p: Probe, e: Event, h: Handle) -> bool {
    p.action() == Action::Release(h) && e == Event::Released
}

/// How many times handle `h` is obtained along the reports `evs` from `p`.
pub open spec fn acquired(p: Probe, evs: Seq<Event>, h: Handle) -> nat
    decreases evs.len(),
{
    if evs.len() == 0 {
        0
    } else {
        (if acquires(p, evs[0], h) { 1nat } else { 0nat }) + acquired(p.after(evs[0]), evs.drop_first(), h)
    }
}

/// How many times handle `h` is released along the reports `evs` from `p`.
pub open spec fn released(p: Probe, evs: Seq<Event>, h: Handle) -> nat
    decreases evs.len(),
{
    if evs.len() == 0 {
        0
    } else {
        (if releases(p, evs[0], h) { 1nat } else { 0nat }) + released(p.after(evs[0]), evs.drop_first(), h)
    }
}

/// 1 where `h` is held in `p`, else 0.
pub open spec fn held(p: Probe, h: Handle) -> nat {
    if p.holds(h) { 1 } else { 0 }
}

/// Whether `p` is past the point where `h` may be obtained.
pub open spec fn past_acquire(p: Probe, h: Handle) -> bool {
    match h {
        Handle::Key => !(p is CreatingKey),
        Handle::Matcher => !(p is CreatingKey) && !(p is CreatingMatcher),
        Handle::Value => p is Testing || p is Releasing || p is Failed,
    }
}

/// One step keeps the ledger: a handle becomes held only when it is obtained
/// while not held, and stops being held only when it is released while held.
pub proof fn lemma_step_ledger(p: Probe, e: Event, h: Handle)
    ensures
        acquires(p, e, h) ==> !p.holds(h),
        releases(p, e, h) ==> p.holds(h),
        !(acquires(p, e, h) && releases(p, e, h)),
        held(p, h) + (if acquires(p, e, h) { 1nat } else { 0nat })
            == held(p.after(e), h) + (if releases(p, e, h) { 1nat } else { 0nat }),
        past_acquire(p, h) ==> past_acquire(p.after(e), h),
        acquires(p, e, h) ==> !past_acquire(p, h) && past_acquire(p.after(e), h),
{
}

proof fn lemma_run_ledger(p: Probe, evs: Seq<Event>, h: Handle)
    ensures
        held(p, h) + acquired(p, evs, h) == held(run(p, evs), h) + released(p, evs, h),
        past_acquire(p, h) ==> acquired(p, evs, h) == 0,
        acquired(p, evs, h) <= 1,
    decreases evs.len(),
{
    if evs.len() > 0 {
        lemma_step_ledger(p, evs[0], h);
        lemma_run_ledger(p.after(evs[0]), evs.drop_first(), h);
    }
}

/// No leak and no double release: along any reports, from a fresh query, each
/// handle is obtained at most once and released no more often than obtained,
/// and once the query asks to finish, every handle obtained was released.
pub proof fn lemma_release_exactly_once(evs: Seq<Event>, h: Handle)
    ensures
        acquired(Probe::CreatingKey, evs, h) <= 1,
        released(Probe::CreatingKey, evs, h) <= acquired(Probe::CreatingKey, evs, h),
        run(Probe::CreatingKey, evs).action() is Finish
            ==> released(Probe::CreatingKey, evs, h) == acquired(Probe::CreatingKey, evs, h),
{
    lemma_run_ledger(Probe::CreatingKey, evs, h);
}

/// The reports of a backend whose key string came out non-null exactly when
/// `key_ok`, whose match string came out non-null exactly when `matcher_ok`,
/// and whose preference store holds `stored` under the key (`None`: unset).
pub open spec fn answers(key_ok: bool, matcher_ok: bool, stored: Option<Seq<char>>) -> Seq<Event> {
    if !key_ok {
        seq![Event::Acquired(false)]
    } else {
        let present = stored is Some;
        let tested = if matcher_ok && present {
            seq![Event::Tested(starts_with(stored->0, MATCH_TEXT@))]
        } else {
            Seq::empty()
        };
        let held_at_end: nat = 1 + (if matcher_ok { 1nat } else { 0nat }) + (if present { 1nat } else { 0nat });
        seq![Event::Acquired(true), Event::Acquired(matcher_ok), Event::Acquired(present)]
            + tested + Seq::new(held_at_end, |i: int| Event::Released)
    }
}

/// The answer of a query against such a backend: `None` exactly when the key
/// string could not be made; otherwise the theme of the stored value, which
/// is `Default` when the match string could not be made.
pub open spec fn expected_outcome(key_ok: bool, matcher_ok: bool, stored: Option<Seq<char>>) -> Option<Theme> {
    if !key_ok {
        None
    } else if matcher_ok {
        Some(theme_of(stored))
    } else {
        Some(Theme::Default)
    }
}

/// A query fed the reports of a backend ends asking to finish with the
/// expected answer; in particular, once the key string is made, the answer
/// is always `Some`.
pub proof fn lemma_outcome(key_ok: bool, matcher_ok: bool, stored: Option<Seq<char>>)
    ensures
        run(Probe::CreatingKey, answers(key_ok, matcher_ok, stored)).action()
            == Action::Finish(expected_outcome(key_ok, matcher_ok, stored)),
        key_ok ==> expected_outcome(key_ok, matcher_ok, stored) is Some,
{
    reveal_with_fuel(run, 8);
    let evs = answers(key_ok, matcher_ok, stored);
    if key_ok {
        assert(evs.len() >= 4);
    }
}

/// A query leaves nothing behind: once a backend has answered it in full, no
/// handle is held, and a second query against the same unchanged backend
/// starts from the same fresh state and gives the same answer.
pub proof fn lemma_repeat_agrees(key_ok: bool, matcher_ok: bool, stored: Option<Seq<char>>, h: Handle)
    ensures
        !run(Probe::CreatingKey, answers(key_ok, matcher_ok, stored)).holds(h),
        run(Probe::CreatingKey, answers(key_ok, matcher_ok, stored)).action()
            == run(Probe::CreatingKey, answers(key_ok, matcher_ok, stored)).action(),
{
    lemma_outcome(key_ok, matcher_ok, stored);
}

} // verus!
