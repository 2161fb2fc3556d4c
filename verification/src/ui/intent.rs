//! Pending-intent tracking for actions with confirmation latency.
//!
//! When the user presses a key (say, pause), a command goes to the daemon and
//! the client waits for the daemon's state broadcast to confirm it. Meanwhile
//! the value is shown as pending rather than flipped at once:
//!
//!  Confirmed(T)      — the daemon confirmed; render normally
//!  Pending { .. }    — command sent, no confirmation yet; render dimmed/pulsing
//!  TimedOut { .. }   — waited too long; render with a warning colour and "?"

use vstd::prelude::*;
use vstd::std_specs::cmp::PartialEqSpec;

verus! {

/// The standard library's monotonic clock reading, carried through opaquely.
#[verifier::external_type_specification]
#[verifier::external_body]
pub struct ExInstant(std::time::Instant);

/// `Instant` is `Copy`, so its `clone` returns the same instant.
pub assume_specification[ <std::time::Instant as Clone>::clone ](i: &std::time::Instant) -> (r:
    std::time::Instant)
    ensures
        r == *i,
;

/// Milliseconds a pending intent waits before it times out.
pub const INTENT_TIMEOUT_MS: u128 = 3000;

/// Milliseconds of each on/off phase of the pending pulse.
pub const PULSE_MS: u128 = 400;

/// `std::time::Instant::now`; nothing is claimed of the instant.
#[verifier::external_body]
pub(crate) fn now() -> std::time::Instant {
    std::time::Instant::now()
}

/// Whole milliseconds elapsed since `since` (`Instant::elapsed`, then
/// `Duration::as_millis`); the clock decides, so nothing is claimed.
#[verifier::external_body]
fn elapsed_ms(since: &std::time::Instant) -> u128 {
    since.elapsed().as_millis()
}

/// Three-state wrapper for a value that may be waiting for confirmation.
#[derive(Debug, Clone)]
pub enum IntentState<T: Clone + PartialEq> {
    /// The daemon has confirmed this value.
    Confirmed(T),
    /// Command sent; waiting for the daemon to echo back `intended`.
    Pending { intended: T, confirmed: T, since: std::time::Instant },
    /// The daemon did not confirm within the timeout.
    TimedOut { intended: T, confirmed: T },
}

/// How to render a value that may be pending confirmation.
#[derive(Debug, Clone, Copy, PartialEq, Eq, Structural)]
pub enum RenderHint {
    /// Render normally.
    Normal,
    /// Pending, show icon (pulse-on frame).
    PendingVisible,
    /// Pending, hide icon (pulse-off frame).
    PendingHidden,
    /// Timed out — render with warning colour and "?" suffix.
    TimedOut,
}

/// The value the user intended.
pub open spec fn intended_of<T: Clone + PartialEq>(s: IntentState<T>) -> T {
    match s {
        IntentState::Confirmed(v) => v,
        IntentState::Pending { intended, .. } => intended,
        IntentState::TimedOut { intended, .. } => intended,
    }
}

/// The last value the daemon confirmed.
pub open spec fn confirmed_of<T: Clone + PartialEq>(s: IntentState<T>) -> T {
    match s {
        IntentState::Confirmed(v) => v,
        IntentState::Pending { confirmed, .. } => confirmed,
        IntentState::TimedOut { confirmed, .. } => confirmed,
    }
}

/// The hint for a state, given the milliseconds since its intent was sent.
pub open spec fn hint_spec<T: Clone + PartialEq>(s: IntentState<T>, elapsed: u128) -> RenderHint {
    match s {
        IntentState::Confirmed(_) => RenderHint::Normal,
        IntentState::Pending { .. } => if (elapsed / PULSE_MS) % 2 == 0 {
            RenderHint::PendingVisible
        } else {
            RenderHint::PendingHidden
        },
        IntentState::TimedOut { .. } => RenderHint::TimedOut,
    }
}

/// The state and the "changed" answer after the daemon reports `value`, for
/// a type whose `==` is its specified equality.
pub open spec fn confirm_spec<T: Clone + PartialEq>(s: IntentState<T>, value: T) -> (
    IntentState<T>,
    bool,
) {
    match s {
        IntentState::Pending { intended, confirmed, since } => if value.eq_spec(&intended) {
            (IntentState::Confirmed(value), true)
        } else {
            (IntentState::Pending { intended, confirmed: value, since }, false)
        },
        IntentState::TimedOut { .. } => (IntentState::Confirmed(value), true),
        IntentState::Confirmed(v) => if v.eq_spec(&value) {
            (s, false)
        } else {
            (IntentState::Confirmed(value), true)
        },
    }
}

/// After registering `intended`: the new state keeps a clone `c` of the old
/// confirmed value, and (for a type whose `==` is its specified equality) it
/// is confirmed exactly when `intended` equals `c`.
pub open spec fn set_intent_post<T: Clone + PartialEq>(
    before: IntentState<T>,
    after: IntentState<T>,
    intended: T,
) -> bool {
    exists|c: T|
        #![trigger cloned(confirmed_of(before), c)]
        cloned(confirmed_of(before), c) && (after is Pending ==> confirmed_of(after) == c) && (
        T::obeys_eq_spec() ==> (after is Confirmed <==> intended.eq_spec(&c)))
}

impl<T: Clone + PartialEq> IntentState<T> {
    /// A new confirmed state.
    pub fn new(value: T) -> (r: Self)
        ensures
            r == IntentState::Confirmed(value),
    {
        IntentState::Confirmed(value)
    }

    /// The value the user intended (most relevant for display).
    pub fn intended(&self) -> (r: &T)
        ensures
            *r == intended_of(*self),
    {
        match self {
            IntentState::Confirmed(v) => v,
            IntentState::Pending { intended, .. } => intended,
            IntentState::TimedOut { intended, .. } => intended,
        }
    }

    /// The last confirmed value from the daemon.
    pub fn confirmed(&self) -> (r: &T)
        ensures
            *r == confirmed_of(*self),
    {
        match self {
            IntentState::Confirmed(v) => v,
            IntentState::Pending { confirmed, .. } => confirmed,
            IntentState::TimedOut { confirmed, .. } => confirmed,
        }
    }

    /// True while waiting for confirmation.
    pub fn is_pending(&self) -> (r: bool)
        ensures
            r == (*self is Pending),
    {
        match self {
            IntentState::Pending { .. } => true,
            _ => false,
        }
    }

    /// True when the intent timed out without confirmation.
    pub fn is_timed_out(&self) -> (r: bool)
        ensures
            r == (*self is TimedOut),
    {
        match self {
            IntentState::TimedOut { .. } => true,
            _ => false,
        }
    }

    /// True in the normal confirmed state.
    pub fn is_confirmed(&self) -> (r: bool)
        ensures
            r == (*self is Confirmed),
    {
        match self {
            IntentState::Confirmed(_) => true,
            _ => false,
        }
    }

    /// Registers a user intent (the command was sent): pending, unless the
    /// intent equals the confirmed value, which is then confirmed at once.
    pub fn set_intent(&mut self, intended: T)
        ensures
            intended_of(*final(self)) == intended,
            *final(self) is Confirmed || *final(self) is Pending,
            set_intent_post(*old(self), *final(self), intended),
    {
        let confirmed = self.confirmed().clone();
        let ghost c0 = confirmed;
        proof {
            assert(cloned(confirmed_of(*old(self)), c0));
        }
        let same = intended.eq(&confirmed);
        let ghost wanted = intended;
        if same {
            *self = IntentState::Confirmed(intended);
        } else {
            *self = IntentState::Pending { intended, confirmed, since: now() };
        }
        proof {
            assert(T::obeys_eq_spec() ==> same == wanted.eq_spec(&c0));
            assert(cloned(confirmed_of(*old(self)), c0) && (*self is Pending ==> confirmed_of(*self)
                == c0) && (T::obeys_eq_spec() ==> (*self is Confirmed <==> wanted.eq_spec(&c0))));
            assert(set_intent_post(*old(self), *self, wanted));
        }
    }

    /// The timeout check for a state whose intent was sent `elapsed`
    /// milliseconds ago: a pending state times out after `INTENT_TIMEOUT_MS`.
    /// Returns whether the state changed.
    pub fn tick_after(&mut self, elapsed: u128) -> (changed: bool)
        ensures
            changed == (*old(self) is Pending && elapsed >= INTENT_TIMEOUT_MS),
            changed ==> *final(self) is TimedOut && cloned(intended_of(*old(self)), intended_of(
                *final(self),
            )) && cloned(confirmed_of(*old(self)), confirmed_of(*final(self))),
            !changed ==> *final(self) == *old(self),
    {
        match self {
            IntentState::Pending { intended, confirmed, .. } => {
                if elapsed >= INTENT_TIMEOUT_MS {
                    let i = intended.clone();
                    let c = confirmed.clone();
                    *self = IntentState::TimedOut { intended: i, confirmed: c };
                    return true;
                }
                false
            },
            _ => false,
        }
    }

    /// Called every tick: times out a pending intent once the clock shows it
    /// has waited `INTENT_TIMEOUT_MS`. Returns whether the state changed.
    pub fn tick(&mut self) -> (changed: bool)
        ensures
            changed ==> *old(self) is Pending && *final(self) is TimedOut && cloned(
                intended_of(*old(self)),
                intended_of(*final(self)),
            ) && cloned(confirmed_of(*old(self)), confirmed_of(*final(self))),
            !changed ==> *final(self) == *old(self),
    {
        let elapsed = match self {
            IntentState::Pending { since, .. } => elapsed_ms(since),
            _ => 0,
        };
        self.tick_after(elapsed)
    }

    /// Called when the daemon broadcasts a value. A pending intent becomes
    /// confirmed when the value matches it (else only its confirmed value is
    /// updated); a timed-out one accepts whatever the daemon says; a
    /// confirmed one takes the new value. Returns whether the state became a
    /// different one (a pending intent whose confirmed value is updated
    /// stays pending and reports no change).
    pub fn on_confirmed(&mut self, value: T) -> (changed: bool)
        ensures
            T::obeys_eq_spec() ==> (*final(self), changed) == confirm_spec(*old(self), value),
    {
        match self {
            IntentState::Pending { intended, confirmed, .. } => {
                if value == *intended {
                    *self = IntentState::Confirmed(value);
                    true
                } else {
                    *confirmed = value;
                    false
                }
            },
            IntentState::TimedOut { .. } => {
                *self = IntentState::Confirmed(value);
                true
            },
            IntentState::Confirmed(v) => {
                if *v != value {
                    *self = IntentState::Confirmed(value);
                    true
                } else {
                    false
                }
            },
        }
    }

    /// The render hint for a state whose intent was sent `elapsed`
    /// milliseconds ago: a pending state pulses on and off every `PULSE_MS`.
    pub fn render_state_after(&self, elapsed: u128) -> (r: RenderHint)
        ensures
            r == hint_spec(*self, elapsed),
    {
        match self {
            IntentState::Confirmed(_) => RenderHint::Normal,
            IntentState::Pending { .. } => {
                if (elapsed / PULSE_MS) % 2 == 0 {
                    RenderHint::PendingVisible
                } else {
                    RenderHint::PendingHidden
                }
            },
            IntentState::TimedOut { .. } => RenderHint::TimedOut,
        }
    }

    /// Visual modifier for rendering, with the pulse phase taken from the clock.
    pub fn render_state(&self) -> (r: RenderHint)
        ensures
            *self is Confirmed ==> r == RenderHint::Normal,
            *self is TimedOut ==> r == RenderHint::TimedOut,
            *self is Pending ==> (r == RenderHint::PendingVisible || r
                == RenderHint::PendingHidden),
    {
        let elapsed = match self {
            IntentState::Pending { since, .. } => elapsed_ms(since),
            _ => 0,
        };
        self.render_state_after(elapsed)
    }
}

/// A state as the operations leave it: a pending or timed-out intent holds
/// an intended value that differs from the confirmed one.
pub open spec fn intent_well_formed<T: Clone + PartialEq>(s: IntentState<T>) -> bool {
    match s {
        IntentState::Confirmed(_) => true,
        IntentState::Pending { intended, confirmed, .. } => intended != confirmed,
        IntentState::TimedOut { intended, confirmed } => intended != confirmed,
    }
}

/// `==` on `T` is its specified equality and `clone` gives an equal value
/// (so for `bool`, integers, `Option`s of them and the like).
pub open spec fn plain_value_type<T: Clone + PartialEq>() -> bool {
    &&& T::obeys_eq_spec()
    &&& forall|a: T, b: T| #[trigger] a.eq_spec(&b) <==> a == b
    &&& forall|a: T, b: T| #[trigger] cloned(a, b) ==> a == b
}

/// One step that the operations allow from `before` to `after`, as their
/// contracts state it: `set_intent`, `tick` (or `tick_after`) and
/// `on_confirmed`.
pub open spec fn intent_step<T: Clone + PartialEq>(before: IntentState<T>, after: IntentState<T>) -> bool {
    ||| ((after is Confirmed || after is Pending) && set_intent_post(before, after, intended_of(after)))
    ||| after == before
    ||| (before is Pending && after is TimedOut && cloned(intended_of(before), intended_of(after)) && cloned(
        confirmed_of(before),
        confirmed_of(after),
    ))
    ||| exists|v: T| #[trigger] confirm_spec(before, v).0 == after
}

proof fn lemma_intent_step<T: Clone + PartialEq>(before: IntentState<T>, after: IntentState<T>)
    requires
        plain_value_type::<T>(),
        intent_well_formed(before),
        intent_step(before, after),
    ensures
        intent_well_formed(after),
{
    if (after is Confirmed || after is Pending) && set_intent_post(before, after, intended_of(after)) {
        let c = choose|c: T|
            #![trigger cloned(confirmed_of(before), c)]
            cloned(confirmed_of(before), c) && (after is Pending ==> confirmed_of(after) == c) && (
            T::obeys_eq_spec() ==> (after is Confirmed <==> intended_of(after).eq_spec(&c)));
        if after is Pending {
            assert(!intended_of(after).eq_spec(&c));
        }
    } else if after == before {
    } else if before is Pending && after is TimedOut && cloned(intended_of(before), intended_of(after))
        && cloned(confirmed_of(before), confirmed_of(after)) {
        assert(intended_of(before) == intended_of(after));
        assert(confirmed_of(before) == confirmed_of(after));
    } else {
        let v = choose|v: T| #[trigger] confirm_spec(before, v).0 == after;
        match before {
            IntentState::Pending { intended, confirmed, since } => {
                if !v.eq_spec(&intended) {
                    assert(v != intended);
                }
            },
            _ => {},
        }
    }
}

/// Law: every state reached from `IntentState::new` by `set_intent`,
/// `tick` and `on_confirmed` (for a type whose `==` is its equality and
/// whose `clone` copies) holds differing intended and confirmed values
/// whenever it is pending or timed out; so it is confirmed exactly when
/// its intended and confirmed values agree.
pub proof fn law_intent_reachable_states<T: Clone + PartialEq>(trace: Seq<IntentState<T>>)
    requires
        plain_value_type::<T>(),
        trace.len() > 0,
        trace[0] is Confirmed,
        forall|i: int| 0 <= i < trace.len() - 1 ==> #[trigger] intent_step(trace[i], trace[i + 1]),
    ensures
        forall|i: int|
            0 <= i < trace.len() ==> {
                &&& intent_well_formed(#[trigger] trace[i])
                &&& (trace[i] is Confirmed <==> intended_of(trace[i]) == confirmed_of(trace[i]))
            },
    decreases trace.len(),
{
    if trace.len() > 1 {
        let init = trace.drop_last();
        assert forall|i: int| 0 <= i < init.len() - 1 implies #[trigger] intent_step(init[i], init[i + 1]) by {
            assert(init[i] == trace[i] && init[i + 1] == trace[i + 1]);
            assert(intent_step(trace[i], trace[i + 1]));
        }
        law_intent_reachable_states(init);
        let n = trace.len() - 1;
        assert(init[n - 1] == trace[n - 1]);
        assert(intent_well_formed(init[n - 1]));
        let m = n - 1;
        assert(intent_step(trace[m], trace[m + 1]));
        assert(m + 1 == n);
        lemma_intent_step(trace[m], trace[n]);
        assert forall|i: int| 0 <= i < trace.len() implies {
            &&& intent_well_formed(#[trigger] trace[i])
            &&& (trace[i] is Confirmed <==> intended_of(trace[i]) == confirmed_of(trace[i]))
        } by {
            if i < n {
                assert(trace[i] == init[i]);
            }
        }
    }
}

/// Law: once an intent is registered, the daemon echoing the intended value
/// confirms it and reports a change (for a type whose `==` is its specified
/// equality, and a value equal to itself).
pub proof fn law_intent_echo_confirms<T: Clone + PartialEq>(
    before: IntentState<T>,
    after: IntentState<T>,
    x: T,
)
    requires
        T::obeys_eq_spec(),
        x.eq_spec(&x),
        intended_of(after) == x,
        after is Confirmed || after is Pending,
        set_intent_post(before, after, x),
    ensures
        confirm_spec(after, x).0 == IntentState::Confirmed(x),
        after is Pending ==> confirm_spec(after, x).1,
{
}

/// Law: a confirmed value that the daemon reports again stays as it is and
/// no change is reported.
pub proof fn law_intent_repeat_is_quiet<T: Clone + PartialEq>(v: T)
    requires
        T::obeys_eq_spec(),
        v.eq_spec(&v),
    ensures
        confirm_spec(IntentState::Confirmed(v), v) == (IntentState::Confirmed(v), false),
{
}

} // verus!
