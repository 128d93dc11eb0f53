//! Timed transitions: a one-shot `Transition`, and a `StateTransition` that
//! drives a user state machine from a timer.
use vstd::prelude::*;

use crate::time::{clock_now, Duration, Instant};

verus! {

/// Whether `now` lies in the window `[start, start + duration)`.
pub open spec fn in_window(start: Instant, duration: Duration, now: Instant) -> bool {
    start.nanos <= now.nanos && now.nanos < start.nanos + duration.nanos
}

/// What remains of the window `[start, start + duration)` at `now`.
pub open spec fn remaining_nanos(start: Instant, duration: Duration, now: Instant) -> int {
    if now.nanos >= start.nanos + duration.nanos {
        0
    } else {
        start.nanos + duration.nanos - now.nanos
    }
}

/// A transition that lasts `duration` from `start_time`.
pub struct Transition {
    pub active: bool,
    pub duration: Duration,
    pub start_time: Instant,
}

impl Transition {
    /// The transition's end does not overflow the clock's range.
    pub open spec fn end_fits(&self) -> bool {
        self.start_time.nanos + self.duration.nanos <= u128::MAX
    }

    pub open spec fn spec_is_active_at(&self, now: Instant) -> bool {
        self.active && now.nanos < self.start_time.nanos + self.duration.nanos
    }

    /// Whether the transition is marked active and has not reached its end at `now`.
    pub fn is_active_at(&self, now: Instant) -> (b: bool)
        ensures
            b == self.spec_is_active_at(now),
    {
        self.active && (now.nanos < self.start_time.nanos || now.nanos - self.start_time.nanos
            < self.duration.nanos)
    }

    /// `is_active_at` on the system clock.
    pub fn is_active(&self) -> (b: bool)
        ensures
            b ==> self.active,
            exists|now: Instant| b == self.spec_is_active_at(now),
    {
        let now = clock_now();
        self.is_active_at(now)
    }

    pub fn is_zero(&self) -> (b: bool)
        ensures
            b == (self.duration.nanos == 0),
    {
        self.duration.is_zero()
    }

    /// A transition that is active when `start_time` is not after `now`.
    pub fn new_at(start_time: Instant, duration: Duration, now: Instant) -> (t: Self)
        ensures
            t.active == (start_time.nanos <= now.nanos),
            t.duration == duration,
            t.start_time == start_time,
    {
        Transition { active: start_time.nanos <= now.nanos, duration, start_time }
    }

    /// `new_at` on the system clock.
    pub fn new(start_time: Instant, duration: Duration) -> (t: Self)
        ensures
            t.duration == duration,
            t.start_time == start_time,
            exists|now: Instant| t.active == (start_time.nanos <= now.nanos),
    {
        let now = clock_now();
        Self::new_at(start_time, duration, now)
    }

    /// Time left until the end of the transition at `now`; zero once it has ended.
    pub fn duration_to_end_at(&self, now: Instant) -> (d: Duration)
        requires
            self.end_fits(),
        ensures
            d.nanos == remaining_nanos(self.start_time, self.duration, now),
    {
        let end = self.start_time.add_duration(self.duration);
        end.duration_since(now)
    }

    /// `duration_to_end_at` on the system clock.
    pub fn duration_to_end(&self) -> (d: Duration)
        requires
            self.end_fits(),
        ensures
            d.nanos <= self.start_time.nanos + self.duration.nanos,
            exists|now: Instant| d.nanos == remaining_nanos(self.start_time, self.duration, now),
    {
        let now = clock_now();
        self.duration_to_end_at(now)
    }

    /// Marks the transition active exactly when `now` lies in its window, and
    /// returns whether that changed the mark.
    pub fn update_active_at(&mut self, now: Instant) -> (changed: bool)
        ensures
            final(self).active == in_window(old(self).start_time, old(self).duration, now),
            final(self).duration == old(self).duration,
            final(self).start_time == old(self).start_time,
            changed == (old(self).active != final(self).active),
    {
        let prev = self.active;
        if let Some(dur) = now.checked_duration_since(self.start_time) {
            if dur.nanos < self.duration.nanos {
                self.active = true;
                return prev != self.active;
            }
        }
        self.active = false;
        prev != self.active
    }

    /// `update_active_at` on the system clock.
    pub fn update_active(&mut self) -> (changed: bool)
        ensures
            final(self).duration == old(self).duration,
            final(self).start_time == old(self).start_time,
            changed == (old(self).active != final(self).active),
            exists|now: Instant|
                final(self).active == in_window(old(self).start_time, old(self).duration, now),
    {
        let now = clock_now();
        self.update_active_at(now)
    }
}

/// Right after `update_active_at(now)`, the transition is active at `now`
/// exactly when it is marked active, and a second update at `now` changes
/// nothing.
pub proof fn lemma_update_active_settles(t: Transition, now: Instant)
    ensures
        ({
            let updated = Transition { active: in_window(t.start_time, t.duration, now), ..t };
            &&& updated.spec_is_active_at(now) == updated.active
            &&& in_window(updated.start_time, updated.duration, now) == updated.active
        }),
{
}

/// A transition is never active once its window has passed, whatever its mark.
pub proof fn lemma_inactive_after_end(t: Transition, now: Instant)
    requires
        now.nanos >= t.start_time.nanos + t.duration.nanos,
    ensures
        !t.spec_is_active_at(now),
        !in_window(t.start_time, t.duration, now),
{
}

/// Nothing remains of a window once it has passed, and before its end what
/// remains is what separates `now` from the end.
pub proof fn lemma_remaining_counts_down(start: Instant, duration: Duration, now: Instant)
    ensures
        now.nanos >= start.nanos + duration.nanos ==> remaining_nanos(start, duration, now) == 0,
        now.nanos < start.nanos + duration.nanos ==> now.nanos + remaining_nanos(start, duration, now)
            == start.nanos + duration.nanos,
        remaining_nanos(start, duration, now) > 0 <== in_window(start, duration, now),
{
}

/// A state machine whose states change when the timer of its `StateTransition` ends.
pub trait StateStruct: Clone + Default + Sized {
    type StateEnum: Copy + Clone;

    /// The state that `get_state` reports.
    open spec fn spec_state(&self) -> Self::StateEnum {
        vstd::pervasive::arbitrary()
    }

    /// The state that `get_idle_state` returns.
    open spec fn spec_idle_state() -> Self::StateEnum {
        vstd::pervasive::arbitrary()
    }

    /// What `set_state(state)` makes of `self`.
    open spec fn spec_set_state(self, state: Self::StateEnum) -> Self {
        vstd::pervasive::arbitrary()
    }

    /// What `timer_ended_callback` makes of a transition; by default,
    /// anything.
    open spec fn spec_callback(old: StateTransition<Self>, new: StateTransition<Self>) -> bool {
        true
    }

    /// Called when the timer ends while the transition is enabled.
    fn timer_ended_callback(state_transition: &mut StateTransition<Self>)
        ensures
            Self::spec_callback(*old(state_transition), *final(state_transition)),
    ;

    /// What `init_callback` makes of a freshly built transition; by default,
    /// anything.
    open spec fn spec_init(old: StateTransition<Self>, new: StateTransition<Self>) -> bool {
        true
    }

    /// Called during `StateTransition` initialization. Each state machine
    /// provides it (an empty body where nothing is to be done), so that its
    /// effect is stated by `spec_init`.
    fn init_callback(state_transition: &mut StateTransition<Self>)
        ensures
            Self::spec_init(*old(state_transition), *final(state_transition)),
    ;

    fn get_idle_state() -> (s: Self::StateEnum)
        ensures
            s == Self::spec_idle_state(),
    ;

    fn get_state(&self) -> (s: Self::StateEnum)
        ensures
            s == self.spec_state(),
    ;

    fn set_state(&mut self, state: Self::StateEnum)
        ensures
            *final(self) == old(self).spec_set_state(state),
            final(self).spec_state() == state,
    ;
}

/// A timer that drives the state machine `T`.
#[derive(Clone, Debug)]
pub struct StateTransition<T> {
    state: T,
    duration: Duration,
    start_time: Instant,
    enabled: bool,
    running: bool,
}

impl<T> StateTransition<T> {
    pub closed spec fn spec_state_struct(&self) -> T {
        self.state
    }

    pub closed spec fn spec_duration(&self) -> Duration {
        self.duration
    }

    pub closed spec fn spec_start_time(&self) -> Instant {
        self.start_time
    }

    pub closed spec fn spec_enabled(&self) -> bool {
        self.enabled
    }

    pub closed spec fn spec_running(&self) -> bool {
        self.running
    }

    /// Whether the timer's window holds `now`.
    pub open spec fn spec_is_running_at(&self, now: Instant) -> bool {
        in_window(self.spec_start_time(), self.spec_duration(), now)
    }

    /// The timing fields of `a` and `b` agree.
    pub open spec fn same_timer(a: Self, b: Self) -> bool {
        &&& a.spec_duration() == b.spec_duration()
        &&& a.spec_start_time() == b.spec_start_time()
        &&& a.spec_enabled() == b.spec_enabled()
    }

    /// Whether the timer's window holds `now`.
    pub fn eval_is_running_at(&self, now: Instant) -> (b: bool)
        ensures
            b == self.spec_is_running_at(now),
    {
        now.nanos >= self.start_time.nanos && now.nanos - self.start_time.nanos
            < self.duration.nanos
    }

    /// `eval_is_running_at` on the system clock.
    pub fn eval_is_running(&self) -> (b: bool)
        ensures
            b ==> self.spec_duration().nanos > 0,
            exists|now: Instant| b == self.spec_is_running_at(now),
    {
        let now = clock_now();
        self.eval_is_running_at(now)
    }

    /// A freshly built transition: state machine `state`, disabled, not
    /// running, with an empty timer starting at `now`.
    pub closed spec fn spec_initial(state: T, now: Instant) -> Self {
        StateTransition { state, duration: Duration { nanos: 0 }, start_time: now, enabled: false, running: false }
    }

    /// The parts of a freshly built transition.
    pub proof fn lemma_initial_parts(state: T, now: Instant)
        ensures
            Self::spec_initial(state, now).spec_state_struct() == state,
            Self::spec_initial(state, now).spec_duration().nanos == 0,
            Self::spec_initial(state, now).spec_start_time() == now,
            !Self::spec_initial(state, now).spec_enabled(),
            !Self::spec_initial(state, now).spec_running(),
    {
    }

    /// The transition with its state machine replaced by `state`.
    pub closed spec fn spec_with_state(self, state: T) -> Self {
        StateTransition { state, ..self }
    }

    /// The transition with its running flag set to `running`.
    pub closed spec fn spec_with_running(self, running: bool) -> Self {
        StateTransition { running, ..self }
    }

    /// The transition with its enabled flag set to `enabled`.
    pub closed spec fn spec_with_enabled(self, enabled: bool) -> Self {
        StateTransition { enabled, ..self }
    }

    /// The transition with its timer's duration set to `duration`.
    pub closed spec fn spec_with_duration(self, duration: Duration) -> Self {
        StateTransition { duration, ..self }
    }

    /// The transition with a timer of `duration` started at `now`.
    pub closed spec fn spec_started(self, duration: Duration, now: Instant) -> Self {
        StateTransition { duration, start_time: now, running: true, ..self }
    }

    /// The span from the timer's start to `end_time`.
    pub open spec fn spec_span_to(self, end_time: Instant) -> Duration {
        Duration { nanos: (end_time.nanos - self.spec_start_time().nanos) as u128 }
    }

    /// The end of the timer does not overflow the clock's range.
    pub open spec fn end_fits(&self) -> bool {
        self.spec_start_time().nanos + self.spec_duration().nanos <= u128::MAX
    }

    /// Time left on the timer at `now`; zero once it has ended.
    pub fn duration_to_end_at(&self, now: Instant) -> (d: Duration)
        requires
            self.end_fits(),
        ensures
            d.nanos == remaining_nanos(self.spec_start_time(), self.spec_duration(), now),
    {
        let end = self.start_time.add_duration(self.duration);
        end.duration_since(now)
    }

    /// `duration_to_end_at` on the system clock.
    pub fn duration_to_end(&self) -> (d: Duration)
        requires
            self.end_fits(),
        ensures
            d.nanos <= self.spec_start_time().nanos + self.spec_duration().nanos,
            exists|now: Instant|
                d.nanos == remaining_nanos(self.spec_start_time(), self.spec_duration(), now),
    {
        let now = clock_now();
        self.duration_to_end_at(now)
    }

    pub fn is_zero(&self) -> (b: bool)
        ensures
            b == (self.spec_duration().nanos == 0),
    {
        self.duration.is_zero()
    }

    /// Disables the transition; its state machine and timer stay as they are.
    pub fn disable(&mut self)
        ensures
            *final(self) == old(self).spec_with_enabled(false),
            !final(self).spec_enabled(),
            final(self).spec_state_struct() == old(self).spec_state_struct(),
            final(self).spec_duration() == old(self).spec_duration(),
            final(self).spec_start_time() == old(self).spec_start_time(),
            final(self).spec_running() == old(self).spec_running(),
    {
        self.enabled = false;
    }

    /// What `start_timer_duration_at(duration, now)` makes of `old`: when
    /// enabled, the duration is set, and the timer starts at `now` unless it
    /// is running; when disabled, nothing changes.
    pub open spec fn spec_start_timer(old: Self, duration: Duration, now: Instant, new: Self) -> bool {
        if !old.spec_enabled() {
            new == old
        } else if old.spec_is_running_at(now) {
            new == old.spec_with_duration(duration)
        } else {
            new == old.spec_started(duration, now)
        }
    }

    /// When enabled: sets the timer's duration, and starts the timer at `now`
    /// unless it is running. When disabled: does nothing.
    pub fn start_timer_duration_at(&mut self, duration: Duration, now: Instant)
        ensures
            Self::spec_start_timer(*old(self), duration, now, *final(self)),
    {
        if !self.enabled {
            return;
        }
        if self.eval_is_running_at(now) {
            self.duration = duration;
        } else {
            self.duration = duration;
            self.start_time = now;
            self.running = true;
        }
    }

    /// `start_timer_duration_at` on the system clock.
    pub fn start_timer_duration(&mut self, duration: Duration)
        ensures
            exists|now: Instant| Self::spec_start_timer(*old(self), duration, now, *final(self)),
    {
        let now = clock_now();
        self.start_timer_duration_at(duration, now)
    }

    /// Replacing parts of a transition keeps the others.
    pub proof fn lemma_replace_parts(t: Self)
        ensures
            t.spec_with_running(t.spec_running()) == t,
            t.spec_with_state(t.spec_state_struct()) == t,
            forall|s: T| #[trigger] t.spec_with_state(s).spec_state_struct() == s,
            forall|s1: T, s2: T|
                #[trigger] t.spec_with_state(s1).spec_with_state(s2) == t.spec_with_state(s2),
            forall|s: T| Self::same_timer(#[trigger] t.spec_with_state(s), t),
            forall|s: T| #[trigger] t.spec_with_state(s).spec_running() == t.spec_running(),
            forall|b: bool| #[trigger] t.spec_with_running(b).spec_state_struct() == t.spec_state_struct(),
            forall|b: bool| #[trigger] t.spec_with_running(b).spec_running() == b,
            forall|b: bool| Self::same_timer(#[trigger] t.spec_with_running(b), t),
            forall|b: bool| #[trigger] t.spec_with_enabled(b).spec_state_struct() == t.spec_state_struct(),
            forall|b: bool| #[trigger] t.spec_with_enabled(b).spec_enabled() == b,
            forall|b: bool| #[trigger] t.spec_with_enabled(b).spec_duration() == t.spec_duration(),
            forall|b: bool|
                #[trigger] t.spec_with_enabled(b).spec_start_time() == t.spec_start_time(),
            forall|b: bool| #[trigger] t.spec_with_enabled(b).spec_running() == t.spec_running(),
            forall|d: Duration|
                #[trigger] t.spec_with_duration(d).spec_state_struct() == t.spec_state_struct(),
            forall|d: Duration| #[trigger] t.spec_with_duration(d).spec_duration() == d,
            forall|d: Duration|
                #[trigger] t.spec_with_duration(d).spec_start_time() == t.spec_start_time(),
            forall|d: Duration| #[trigger] t.spec_with_duration(d).spec_running() == t.spec_running(),
            forall|d: Duration| #[trigger] t.spec_with_duration(d).spec_enabled() == t.spec_enabled(),
            forall|d: Duration, now: Instant|
                #[trigger] t.spec_started(d, now).spec_state_struct() == t.spec_state_struct(),
            forall|d: Duration, now: Instant|
                #[trigger] t.spec_started(d, now).spec_duration() == d,
            forall|d: Duration, now: Instant|
                #[trigger] t.spec_started(d, now).spec_start_time() == now,
            forall|d: Duration, now: Instant| #[trigger] t.spec_started(d, now).spec_running(),
            forall|d: Duration, now: Instant|
                #[trigger] t.spec_started(d, now).spec_enabled() == t.spec_enabled(),
    {
    }

    /// When the timer started.
    pub fn start_time(&self) -> (t: Instant)
        ensures
            t == self.spec_start_time(),
    {
        self.start_time
    }

    /// How long the timer lasts.
    pub fn duration(&self) -> (d: Duration)
        ensures
            d == self.spec_duration(),
    {
        self.duration
    }

    pub fn is_enabled(&self) -> (b: bool)
        ensures
            b == self.spec_enabled(),
    {
        self.enabled
    }

    /// Whether the timer was started and has not been seen to end.
    pub(crate) fn is_running_flag(&self) -> (b: bool)
        ensures
            b == self.spec_running(),
    {
        self.running
    }

    /// Marks the timer as no longer running.
    pub(crate) fn stop(&mut self)
        ensures
            *final(self) == old(self).spec_with_running(false),
    {
        self.running = false;
    }

    /// The state machine, lent out as it stands, without bringing it up to date.
    pub(crate) fn state_struct_mut(&mut self) -> (r: &mut T)
        ensures
            *r == old(self).spec_state_struct(),
            *final(self) == old(self).spec_with_state(*final(r)),
    {
        &mut self.state
    }
}

impl<T: StateStruct> StateTransition<T> {
    /// `old` with its state machine set to the idle state.
    pub open spec fn spec_idled(old: Self) -> Self {
        old.spec_with_state(old.spec_state_struct().spec_set_state(T::spec_idle_state()))
    }

    /// `new` is `old` with its state machine set to the idle state, and its
    /// state is the idle one.
    pub open spec fn spec_went_idle(old: Self, new: Self) -> bool {
        &&& new == Self::spec_idled(old)
        &&& new.spec_state_struct().spec_state() == T::spec_idle_state()
    }

    /// What `update_state_at(now)` turns `old` into.
    ///
    /// A timer running at `now` leaves everything as it is. A timer that ran
    /// and has ended stops, and when the transition is enabled the callback of
    /// `T` runs on it. A disabled transition stops and goes idle.
    pub open spec fn spec_update(old: Self, now: Instant, new: Self) -> bool {
        if old.spec_is_running_at(now) {
            new == old
        } else if old.spec_running() && old.spec_enabled() {
            T::spec_callback(old.spec_with_running(false), new)
        } else if !old.spec_enabled() {
            Self::spec_went_idle(old.spec_with_running(false), new)
        } else {
            new == old
        }
    }

    /// Brings the state up to date at `now`: ends a finished timer (running
    /// the callback when enabled) and resets a disabled transition to idle.
    pub fn update_state_at(&mut self, now: Instant)
        ensures
            Self::spec_update(*old(self), now, *final(self)),
    {
        if self.eval_is_running_at(now) {
            return;
        }
        let was_running = self.running;
        if was_running && self.enabled {
            self.running = false;
            T::timer_ended_callback(self);
        } else if !self.enabled {
            self.running = false;
            self.state.set_state(T::get_idle_state());
        }
    }

    /// `update_state_at` on the system clock.
    pub fn update_state(&mut self)
        ensures
            exists|now: Instant| Self::spec_update(*old(self), now, *final(self)),
    {
        let now = clock_now();
        self.update_state_at(now)
    }

    /// Brings the state up to date at `now` and returns it.
    pub fn get_state_at(&mut self, now: Instant) -> (s: T::StateEnum)
        ensures
            Self::spec_update(*old(self), now, *final(self)),
            s == final(self).spec_state_struct().spec_state(),
    {
        self.update_state_at(now);
        self.state.get_state()
    }

    /// `get_state_at` on the system clock.
    pub fn get_state(&mut self) -> (s: T::StateEnum)
        ensures
            exists|now: Instant| Self::spec_update(*old(self), now, *final(self)),
            s == final(self).spec_state_struct().spec_state(),
    {
        let now = clock_now();
        self.get_state_at(now)
    }

    /// Brings the state up to date at `now` and lends out the state machine.
    ///
    /// The transition as updated is the final one with `*r` as its state
    /// machine; what is written through `r` becomes its state machine.
    pub fn get_state_struct_at(&mut self, now: Instant) -> (r: &mut T)
        ensures
            Self::spec_update(*old(self), now, final(self).spec_with_state(*r)),
            final(self).spec_state_struct() == *final(r),
    {
        self.update_state_at(now);
        &mut self.state
    }

    /// `get_state_struct_at` on the system clock.
    pub fn get_state_struct(&mut self) -> (r: &mut T)
        ensures
            exists|now: Instant| Self::spec_update(*old(self), now, final(self).spec_with_state(*r)),
            final(self).spec_state_struct() == *final(r),
    {
        let now = clock_now();
        self.get_state_struct_at(now)
    }

    /// What `enable_at(now)` makes of `old`: it is enabled; unless its timer
    /// runs at `now`, its state goes idle and the callback of `T` runs.
    pub open spec fn spec_enable(old: Self, now: Instant, new: Self) -> bool {
        if old.spec_is_running_at(now) {
            new == old.spec_with_enabled(true)
        } else {
            exists|idle: Self|
                Self::spec_went_idle(old.spec_with_enabled(true), idle) && T::spec_callback(idle, new)
        }
    }

    /// Enables the transition; unless its timer is running at `now`, the
    /// state is reset to idle and the callback of `T` runs.
    pub fn enable_at(&mut self, now: Instant)
        ensures
            Self::spec_enable(*old(self), now, *final(self)),
    {
        self.enabled = true;
        if !self.eval_is_running_at(now) {
            self.state.set_state(T::get_idle_state());
            T::timer_ended_callback(self);
        }
    }

    /// `enable_at` on the system clock.
    pub fn enable(&mut self)
        ensures
            exists|now: Instant| Self::spec_enable(*old(self), now, *final(self)),
    {
        let now = clock_now();
        self.enable_at(now)
    }

    /// What `start_timer_time_at(end_time, now)` makes of `old`: nothing
    /// changes when disabled or when `end_time` is not after the timer's
    /// start; a running timer is made to end at `end_time`. Otherwise the
    /// timer restarts at `now` to end at `end_time`, and the callback of `T`
    /// runs.
    pub open spec fn spec_end_timer(old: Self, end_time: Instant, now: Instant, new: Self) -> bool {
        if !old.spec_enabled() || end_time.nanos <= old.spec_start_time().nanos {
            new == old
        } else if old.spec_is_running_at(now) {
            new == old.spec_with_duration(old.spec_span_to(end_time))
        } else {
            T::spec_callback(old.spec_started(end_time.spec_duration_since(now), now), new)
        }
    }

    /// When enabled and `end_time` is after the timer's start: a running
    /// timer is made to end at `end_time`; otherwise the timer starts at `now`
    /// to end at `end_time` and the callback of `T` runs.
    pub fn start_timer_time_at(&mut self, end_time: Instant, now: Instant)
        ensures
            Self::spec_end_timer(*old(self), end_time, now, *final(self)),
    {
        if !self.enabled {
            return;
        }
        let diff = end_time.duration_since(self.start_time);
        if diff.is_zero() {
            return;
        }
        if self.eval_is_running_at(now) {
            self.duration = diff;
        } else {
            self.duration = end_time.duration_since(now);
            self.start_time = now;
            self.running = true;
            T::timer_ended_callback(self);
        }
    }

    /// `start_timer_time_at` on the system clock.
    pub fn start_timer_time(&mut self, end_time: Instant)
        ensures
            exists|now: Instant| Self::spec_end_timer(*old(self), end_time, now, *final(self)),
    {
        let now = clock_now();
        self.start_timer_time_at(end_time, now)
    }
}

/// A timer started at `now` on an enabled transition that was not running
/// runs at `now` exactly when its duration is not zero; on a disabled
/// transition starting a timer changes nothing.
pub proof fn lemma_started_timer_runs<T>(
    old: StateTransition<T>,
    duration: Duration,
    now: Instant,
    new: StateTransition<T>,
)
    requires
        StateTransition::spec_start_timer(old, duration, now, new),
    ensures
        old.spec_enabled() && !old.spec_is_running_at(now) ==> new.spec_is_running_at(now) == (
        duration.nanos > 0),
        old.spec_enabled() && !old.spec_is_running_at(now) ==> new.spec_state_struct()
            == old.spec_state_struct(),
        !old.spec_enabled() ==> new == old,
{
    StateTransition::lemma_replace_parts(old);
}

/// What starting a timer does, part by part: on an enabled transition whose
/// timer runs, only the duration changes, so the end moves to the old start
/// plus the new duration; on an enabled transition whose timer does not run,
/// the timer starts at `now` with the new duration and runs; the state
/// machine and the enabled flag stay in both cases.
pub proof fn lemma_start_timer_parts<T>(
    old: StateTransition<T>,
    duration: Duration,
    now: Instant,
    new: StateTransition<T>,
)
    requires
        StateTransition::spec_start_timer(old, duration, now, new),
        old.spec_enabled(),
    ensures
        new.spec_duration() == duration,
        new.spec_state_struct() == old.spec_state_struct(),
        new.spec_enabled(),
        old.spec_is_running_at(now) ==> new.spec_start_time() == old.spec_start_time()
            && new.spec_running() == old.spec_running(),
        !old.spec_is_running_at(now) ==> new.spec_start_time() == now && new.spec_running(),
{
    StateTransition::lemma_replace_parts(old);
}

/// Moving the end of a running timer keeps its start, its running flag, its
/// state machine and its enabled flag, and makes it end at `end_time`.
pub proof fn lemma_end_timer_parts<T: StateStruct>(
    old: StateTransition<T>,
    end_time: Instant,
    now: Instant,
    new: StateTransition<T>,
)
    requires
        StateTransition::spec_end_timer(old, end_time, now, new),
        old.spec_enabled(),
        end_time.nanos > old.spec_start_time().nanos,
        old.spec_is_running_at(now),
    ensures
        new.spec_start_time() == old.spec_start_time(),
        new.spec_start_time().nanos + new.spec_duration().nanos == end_time.nanos,
        new.spec_running() == old.spec_running(),
        new.spec_state_struct() == old.spec_state_struct(),
        new.spec_enabled(),
{
    StateTransition::lemma_replace_parts(old);
}

/// Bringing up to date an enabled transition whose timer ran and has ended
/// hands the transition to the callback of `T` once, stopped, with its
/// timer, its enabled flag and its state machine as they were.
pub proof fn lemma_ended_timer_runs_callback<T: StateStruct>(
    old: StateTransition<T>,
    now: Instant,
    new: StateTransition<T>,
)
    requires
        StateTransition::spec_update(old, now, new),
        old.spec_enabled(),
        old.spec_running(),
        !old.spec_is_running_at(now),
    ensures
        exists|handed: StateTransition<T>|
            #![trigger T::spec_callback(handed, new)]
            T::spec_callback(handed, new) && !handed.spec_running() && handed.spec_enabled()
                && handed.spec_duration() == old.spec_duration() && handed.spec_start_time()
                == old.spec_start_time() && handed.spec_state_struct() == old.spec_state_struct(),
{
    StateTransition::lemma_replace_parts(old);
    let handed = old.spec_with_running(false);
    assert(T::spec_callback(handed, new));
}

/// Enabling a transition whose timer does not run puts its state machine in
/// the idle state and hands it, enabled, with its timer and running flag as
/// they were, to the callback of `T`.
pub proof fn lemma_enable_idle_runs_callback<T: StateStruct>(
    old: StateTransition<T>,
    now: Instant,
    new: StateTransition<T>,
)
    requires
        StateTransition::spec_enable(old, now, new),
        !old.spec_is_running_at(now),
    ensures
        exists|handed: StateTransition<T>|
            #![trigger T::spec_callback(handed, new)]
            T::spec_callback(handed, new) && handed.spec_enabled() && handed.spec_state_struct()
                == old.spec_state_struct().spec_set_state(T::spec_idle_state())
                && handed.spec_state_struct().spec_state() == T::spec_idle_state()
                && handed.spec_duration() == old.spec_duration() && handed.spec_start_time()
                == old.spec_start_time() && handed.spec_running() == old.spec_running(),
{
    StateTransition::lemma_replace_parts(old);
    let enabled = old.spec_with_enabled(true);
    StateTransition::lemma_replace_parts(enabled);
    let handed = choose|idle: StateTransition<T>|
        StateTransition::spec_went_idle(enabled, idle) && T::spec_callback(idle, new);
    assert(T::spec_callback(handed, new));
}

/// Making an enabled transition whose timer does not run end at `end_time`
/// (after the timer's start) restarts the timer at `now`: when `end_time` is
/// not before `now` the timer handed to the callback ends exactly at
/// `end_time`, and when it is before, the timer is empty. The timer is
/// handed over running, enabled, with the state machine as it was.
pub proof fn lemma_end_timer_restarts<T: StateStruct>(
    old: StateTransition<T>,
    end_time: Instant,
    now: Instant,
    new: StateTransition<T>,
)
    requires
        StateTransition::spec_end_timer(old, end_time, now, new),
        old.spec_enabled(),
        end_time.nanos > old.spec_start_time().nanos,
        !old.spec_is_running_at(now),
    ensures
        exists|handed: StateTransition<T>|
            #![trigger T::spec_callback(handed, new)]
            T::spec_callback(handed, new) && handed.spec_start_time() == now && handed.spec_running()
                && handed.spec_enabled() && handed.spec_state_struct() == old.spec_state_struct()
                && (end_time.nanos >= now.nanos ==> handed.spec_start_time().nanos
                + handed.spec_duration().nanos == end_time.nanos) && (end_time.nanos < now.nanos
                ==> handed.spec_duration().nanos == 0),
{
    StateTransition::lemma_replace_parts(old);
    let handed = old.spec_started(end_time.spec_duration_since(now), now);
    assert(T::spec_callback(handed, new));
}

/// Enabling a transition whose timer runs only sets its enabled flag: the
/// state machine, the timer and the running flag stay.
pub proof fn lemma_enable_running_parts<T: StateStruct>(
    old: StateTransition<T>,
    now: Instant,
    new: StateTransition<T>,
)
    requires
        StateTransition::spec_enable(old, now, new),
        old.spec_is_running_at(now),
    ensures
        new.spec_enabled(),
        new.spec_state_struct() == old.spec_state_struct(),
        new.spec_duration() == old.spec_duration(),
        new.spec_start_time() == old.spec_start_time(),
        new.spec_running() == old.spec_running(),
{
    StateTransition::lemma_replace_parts(old);
}

/// A disabled transition whose timer is not running goes idle when it is
/// brought up to date, and stops.
pub proof fn lemma_disabled_goes_idle<T: StateStruct>(
    old: StateTransition<T>,
    now: Instant,
    new: StateTransition<T>,
)
    requires
        StateTransition::spec_update(old, now, new),
        !old.spec_enabled(),
        !old.spec_is_running_at(now),
    ensures
        new.spec_state_struct().spec_state() == T::spec_idle_state(),
        !new.spec_running(),
        !new.spec_enabled(),
{
    let stopped = old.spec_with_running(false);
    StateTransition::lemma_replace_parts(old);
    StateTransition::lemma_replace_parts(stopped);
    StateTransition::lemma_replace_parts(StateTransition::spec_idled(stopped));
}

/// Bringing a transition up to date while its timer runs changes nothing.
pub proof fn lemma_running_timer_is_kept<T: StateStruct>(
    old: StateTransition<T>,
    now: Instant,
    new: StateTransition<T>,
)
    requires
        StateTransition::spec_update(old, now, new),
        old.spec_is_running_at(now),
    ensures
        new == old,
{
}

/// Making a running timer end now stops it now, unless it started at this
/// very instant: afterwards its window no longer holds `now`, and its state
/// machine is untouched.
pub proof fn lemma_end_now_stops_timer<T: StateStruct>(
    old: StateTransition<T>,
    now: Instant,
    new: StateTransition<T>,
)
    requires
        StateTransition::spec_end_timer(old, now, now, new),
        old.spec_enabled(),
        old.spec_is_running_at(now),
        old.spec_start_time().nanos < now.nanos,
    ensures
        !new.spec_is_running_at(now),
        new.spec_state_struct() == old.spec_state_struct(),
{
    StateTransition::lemma_replace_parts(old);
}

impl<T: StateStruct> Default for StateTransition<T> {
    /// A disabled, stopped transition with the default state machine and an
    /// empty timer starting at the clock reading; the initialization callback
    /// of `T` then runs on it.
    fn default() -> (r: Self)
        ensures
            exists|now: Instant, s: T| T::spec_init(Self::spec_initial(s, now), r),
    {
        let mut sf = Self {
            state: T::default(),
            duration: Duration::zero(),
            start_time: clock_now(),
            enabled: false,
            running: false,
        };
        let ghost fresh = sf;
        assert(fresh == Self::spec_initial(fresh.state, fresh.start_time));
        T::init_callback(&mut sf);
        assert(T::spec_init(Self::spec_initial(fresh.state, fresh.start_time), sf));
        sf
    }
}

} // verus!
