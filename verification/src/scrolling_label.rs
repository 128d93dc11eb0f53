//! The scrolling label: its timer-driven scroll cycle (wait, scroll, wait,
//! ...), its transition settings and its size arithmetic.
use vstd::prelude::*;

use crate::layout::{align_span, align_span_fits, fits_i32, spec_align_span, Align, Rect};
use crate::time::{clock_now, Duration, Instant};
use crate::transition::{StateStruct, StateTransition};

verus! {

/// Phase of the scroll cycle.
#[derive(Clone, Copy, Debug, PartialEq, Eq, Structural)]
pub enum ScrollingLabelTransitionStateEnum {
    Stopped,
    Timeout,
    Running,
}

/// The scroll cycle: its phase and the length of each phase, in milliseconds.
#[derive(Clone, Copy, Debug)]
pub struct ScrollingLabelTransitionState {
    running_duration: u64,
    timeout_duration: u64,
    state: ScrollingLabelTransitionStateEnum,
}

impl ScrollingLabelTransitionState {
    /// The phase that follows this one when its timer ends.
    pub closed spec fn spec_next_phase(self) -> Self {
        match self.state {
            ScrollingLabelTransitionStateEnum::Timeout => Self {
                state: ScrollingLabelTransitionStateEnum::Running,
                ..self
            },
            _ => Self { state: ScrollingLabelTransitionStateEnum::Timeout, ..self },
        }
    }

    /// How long the current phase lasts, in milliseconds: a scroll lasts the
    /// running duration, everything else the timeout.
    pub closed spec fn spec_phase_millis(self) -> u64 {
        match self.state {
            ScrollingLabelTransitionStateEnum::Running => self.running_duration,
            _ => self.timeout_duration,
        }
    }

    /// The cycle with the scroll phase lasting `d` milliseconds.
    pub closed spec fn spec_with_running_duration(self, d: u64) -> Self {
        Self { running_duration: d, ..self }
    }

    /// The cycle with the wait lasting `d` milliseconds.
    pub closed spec fn spec_with_timeout_duration(self, d: u64) -> Self {
        Self { timeout_duration: d, ..self }
    }

    /// Setting one length keeps the phase and the other length.
    pub proof fn lemma_with_lengths(self, d: u64)
        ensures
            self.spec_with_running_duration(d).spec_running_duration() == d,
            self.spec_with_running_duration(d).spec_timeout_duration() == self.spec_timeout_duration(),
            self.spec_with_running_duration(d).spec_state() == self.spec_state(),
            self.spec_with_timeout_duration(d).spec_timeout_duration() == d,
            self.spec_with_timeout_duration(d).spec_running_duration() == self.spec_running_duration(),
            self.spec_with_timeout_duration(d).spec_state() == self.spec_state(),
    {
    }

    pub closed spec fn spec_running_duration(&self) -> u64 {
        self.running_duration
    }

    pub closed spec fn spec_timeout_duration(&self) -> u64 {
        self.timeout_duration
    }

    pub fn running_duration(&self) -> (d: u64)
        ensures
            d == self.spec_running_duration(),
    {
        self.running_duration
    }

    pub fn timeout_duration(&self) -> (d: u64)
        ensures
            d == self.spec_timeout_duration(),
    {
        self.timeout_duration
    }
}

impl ScrollingLabelTransitionState {
    /// `new` is `old` moved on to the next phase, with the timer started at
    /// `now` for the length of that phase.
    pub open spec fn spec_advance(
        old: StateTransition<Self>,
        now: Instant,
        new: StateTransition<Self>,
    ) -> bool {
        let next = old.spec_state_struct().spec_next_phase();
        StateTransition::spec_start_timer(
            old.spec_with_state(next),
            Duration::spec_from_millis(next.spec_phase_millis()),
            now,
            new,
        )
    }

    /// `mid` is `old` brought up to date at `now`: a timer running at `now`
    /// changes nothing; a timer that ran and ended on an enabled transition
    /// stops and moves the cycle on; a disabled transition stops and goes
    /// back to `Stopped`.
    pub open spec fn spec_catch_up(
        old: StateTransition<Self>,
        now: Instant,
        mid: StateTransition<Self>,
    ) -> bool {
        if old.spec_is_running_at(now) {
            mid == old
        } else if old.spec_running() && old.spec_enabled() {
            Self::spec_advance(old.spec_with_running(false), now, mid)
        } else if !old.spec_enabled() {
            mid == old.spec_with_running(false).spec_with_state(
                old.spec_state_struct().spec_set_state(ScrollingLabelTransitionStateEnum::Stopped),
            )
        } else {
            mid == old
        }
    }

    /// What the callback does at the clock reading `now`: it brings the
    /// transition up to date, then moves the cycle on.
    pub open spec fn spec_callback_at(
        old: StateTransition<Self>,
        now: Instant,
        new: StateTransition<Self>,
    ) -> bool {
        exists|mid: StateTransition<Self>|
            Self::spec_catch_up(old, now, mid) && Self::spec_advance(mid, now, new)
    }

    /// Moves the cycle on to the next phase and starts its timer at `now`.
    fn advance_at(state_transition: &mut StateTransition<Self>, now: Instant)
        ensures
            Self::spec_advance(*old(state_transition), now, *final(state_transition)),
    {
        let state = state_transition.state_struct_mut();
        let next_millis = match state.state {
            ScrollingLabelTransitionStateEnum::Stopped | ScrollingLabelTransitionStateEnum::Running => {
                state.state = ScrollingLabelTransitionStateEnum::Timeout;
                state.timeout_duration
            },
            ScrollingLabelTransitionStateEnum::Timeout => {
                state.state = ScrollingLabelTransitionStateEnum::Running;
                state.running_duration
            },
        };
        assert(*state_transition == old(state_transition).spec_with_state(
            old(state_transition).spec_state_struct().spec_next_phase(),
        ));
        state_transition.start_timer_duration_at(Duration::from_millis(next_millis), now);
    }
}

impl Default for ScrollingLabelTransitionState {
    fn default() -> (s: Self)
        ensures
            s.spec_running_duration() == 0,
            s.spec_timeout_duration() == 0,
            s.spec_state() == ScrollingLabelTransitionStateEnum::Stopped,
    {
        Self { running_duration: 0, timeout_duration: 0, state: ScrollingLabelTransitionStateEnum::Stopped }
    }
}

impl StateStruct for ScrollingLabelTransitionState {
    type StateEnum = ScrollingLabelTransitionStateEnum;

    closed spec fn spec_state(&self) -> ScrollingLabelTransitionStateEnum {
        self.state
    }

    closed spec fn spec_idle_state() -> ScrollingLabelTransitionStateEnum {
        ScrollingLabelTransitionStateEnum::Stopped
    }

    closed spec fn spec_set_state(self, state: ScrollingLabelTransitionStateEnum) -> Self {
        Self { state, ..self }
    }

    /// At some reading of the clock, the transition is brought up to date
    /// and the next phase starts, as `spec_callback_at` says.
    open spec fn spec_callback(old: StateTransition<Self>, new: StateTransition<Self>) -> bool {
        exists|now: Instant| Self::spec_callback_at(old, now, new)
    }

    /// Moves the cycle on. The transition is first brought up to date, as
    /// reading its state does: a timer that ran out while the transition
    /// was enabled moves the cycle on once already. Then a stopped or
    /// scrolling label waits (timeout), a waiting label scrolls (running),
    /// and the timer restarts for the new phase.
    fn timer_ended_callback(state_transition: &mut StateTransition<Self>) {
        let now = clock_now();
        if !state_transition.eval_is_running_at(now) {
            if state_transition.is_running_flag() && state_transition.is_enabled() {
                state_transition.stop();
                Self::advance_at(state_transition, now);
            } else if !state_transition.is_enabled() {
                state_transition.stop();
                let ghost stopped = *state_transition;
                state_transition.state_struct_mut().state = ScrollingLabelTransitionStateEnum::Stopped;
                proof {
                    StateTransition::lemma_replace_parts(*old(state_transition));
                    assert(stopped.spec_state_struct() == old(state_transition).spec_state_struct());
                }
            }
        }
        let ghost mid = *state_transition;
        assert(Self::spec_catch_up(*old(state_transition), now, mid));
        Self::advance_at(state_transition, now);
        assert(Self::spec_callback_at(*old(state_transition), now, *state_transition));
    }

    /// Nothing happens when the transition is built.
    open spec fn spec_init(old: StateTransition<Self>, new: StateTransition<Self>) -> bool {
        new == old
    }

    fn init_callback(state_transition: &mut StateTransition<Self>) {
    }

    fn get_idle_state() -> (s: ScrollingLabelTransitionStateEnum) {
        ScrollingLabelTransitionStateEnum::Stopped
    }

    fn get_state(&self) -> (s: ScrollingLabelTransitionStateEnum) {
        self.state
    }

    fn set_state(&mut self, state: ScrollingLabelTransitionStateEnum) {
        self.state = state;
    }
}

/// The scroll cycle: a stopped or scrolling label waits next, a waiting
/// label scrolls next; after the first wait the label alternates between
/// waiting and scrolling. Each phase lasts its own length, and moving on
/// keeps both lengths.
pub proof fn lemma_scroll_cycle(s: ScrollingLabelTransitionState)
    ensures
        s.spec_next_phase().spec_state() == (if s.spec_state()
            == ScrollingLabelTransitionStateEnum::Timeout {
            ScrollingLabelTransitionStateEnum::Running
        } else {
            ScrollingLabelTransitionStateEnum::Timeout
        }),
        s.spec_state() != ScrollingLabelTransitionStateEnum::Stopped ==> s.spec_next_phase().spec_next_phase().spec_state()
            == s.spec_state(),
        s.spec_next_phase().spec_running_duration() == s.spec_running_duration(),
        s.spec_next_phase().spec_timeout_duration() == s.spec_timeout_duration(),
        s.spec_next_phase().spec_phase_millis() == (if s.spec_next_phase().spec_state()
            == ScrollingLabelTransitionStateEnum::Running {
            s.spec_running_duration()
        } else {
            s.spec_timeout_duration()
        }),
{
}

/// Every update of the scroll cycle's transition keeps the lengths of its phases.
pub proof fn lemma_update_keeps_lengths(
    old: StateTransition<ScrollingLabelTransitionState>,
    now: Instant,
    new: StateTransition<ScrollingLabelTransitionState>,
)
    requires
        StateTransition::spec_update(old, now, new),
    ensures
        new.spec_state_struct().spec_running_duration()
            == old.spec_state_struct().spec_running_duration(),
        new.spec_state_struct().spec_timeout_duration()
            == old.spec_state_struct().spec_timeout_duration(),
{
    StateTransition::lemma_replace_parts(old);
    let stopped = old.spec_with_running(false);
    StateTransition::lemma_replace_parts(stopped);
    if old.spec_is_running_at(now) {
    } else if old.spec_running() && old.spec_enabled() {
        let next = stopped.spec_state_struct().spec_next_phase();
        let moved = stopped.spec_with_state(next);
        StateTransition::lemma_replace_parts(moved);
        assert(new.spec_state_struct() == next);
    } else if !old.spec_enabled() {
    } else {
    }
}

/// The callback on an enabled transition whose timer is neither running nor
/// marked running moves the cycle on by one phase: a stopped or scrolling
/// label waits, a waiting label scrolls, and a timer of the new phase's
/// length starts at the clock reading.
pub proof fn lemma_callback_moves_on(
    old: StateTransition<ScrollingLabelTransitionState>,
    now: Instant,
    new: StateTransition<ScrollingLabelTransitionState>,
)
    requires
        ScrollingLabelTransitionState::spec_callback_at(old, now, new),
        old.spec_enabled(),
        !old.spec_running(),
        !old.spec_is_running_at(now),
    ensures
        new.spec_state_struct() == old.spec_state_struct().spec_next_phase(),
        new.spec_duration() == Duration::spec_from_millis(
            old.spec_state_struct().spec_next_phase().spec_phase_millis(),
        ),
        new.spec_start_time() == now,
        new.spec_running(),
        new.spec_enabled(),
{
    let next = old.spec_state_struct().spec_next_phase();
    StateTransition::lemma_replace_parts(old);
    StateTransition::lemma_replace_parts(old.spec_with_state(next));
}

/// A timer that ran out unseen on an enabled transition moves the cycle on
/// twice when the callback runs: once when the transition is brought up to
/// date, once more for the callback itself; the timer then runs from the
/// clock reading for the length of the second phase.
pub proof fn lemma_callback_catches_up(
    old: StateTransition<ScrollingLabelTransitionState>,
    now: Instant,
    new: StateTransition<ScrollingLabelTransitionState>,
)
    requires
        ScrollingLabelTransitionState::spec_callback_at(old, now, new),
        old.spec_enabled(),
        old.spec_running(),
        !old.spec_is_running_at(now),
    ensures
        new.spec_state_struct() == old.spec_state_struct().spec_next_phase().spec_next_phase(),
        new.spec_duration() == Duration::spec_from_millis(
            old.spec_state_struct().spec_next_phase().spec_next_phase().spec_phase_millis(),
        ),
        new.spec_start_time() == now,
        new.spec_running(),
        new.spec_enabled(),
{
    let first = old.spec_state_struct().spec_next_phase();
    let second = first.spec_next_phase();
    let stopped = old.spec_with_running(false);
    StateTransition::lemma_replace_parts(old);
    StateTransition::lemma_replace_parts(stopped);
    StateTransition::lemma_replace_parts(stopped.spec_with_state(first));
    let mid = choose|mid: StateTransition<ScrollingLabelTransitionState>|
        ScrollingLabelTransitionState::spec_catch_up(old, now, mid)
            && ScrollingLabelTransitionState::spec_advance(mid, now, new);
    StateTransition::lemma_replace_parts(mid);
    StateTransition::lemma_replace_parts(mid.spec_with_state(second));
}

/// A scrolling label's transition as built by `default` is disabled, not
/// running, and has an empty timer: its initialization changes nothing.
pub proof fn lemma_built_transition_is_idle(r: StateTransition<ScrollingLabelTransitionState>)
    requires
        exists|now: Instant, s: ScrollingLabelTransitionState|
            ScrollingLabelTransitionState::spec_init(StateTransition::spec_initial(s, now), r),
    ensures
        !r.spec_enabled(),
        !r.spec_running(),
        r.spec_duration().nanos == 0,
{
    let (now, s) = choose|now: Instant, s: ScrollingLabelTransitionState|
        ScrollingLabelTransitionState::spec_init(StateTransition::spec_initial(s, now), r);
    StateTransition::<ScrollingLabelTransitionState>::lemma_initial_parts(s, now);
}

/// Setting one phase's length to `d` while the timer runs, or while the
/// transition is disabled and its timer does not run: the timer keeps its
/// start, and keeps its length unless the label is in that very phase with
/// the transition enabled and the length changes, in which case the timer
/// takes the new length. The phase stays (a disabled label stops), the
/// length is set and the other length kept.
pub proof fn lemma_set_length_timer(
    old: StateTransition<ScrollingLabelTransitionState>,
    running: bool,
    d: u64,
    now: Instant,
    new: StateTransition<ScrollingLabelTransitionState>,
)
    requires
        StateTransition::spec_set_length(old, running, d, now, new),
        old.spec_is_running_at(now) || !old.spec_enabled(),
    ensures
        new.spec_start_time() == old.spec_start_time(),
        new.spec_enabled() == old.spec_enabled(),
        ({
            let s = old.spec_state_struct();
            let phase = if running {
                ScrollingLabelTransitionStateEnum::Running
            } else {
                ScrollingLabelTransitionStateEnum::Timeout
            };
            let current = if running {
                s.spec_running_duration()
            } else {
                s.spec_timeout_duration()
            };
            if old.spec_is_running_at(now) && old.spec_enabled() && s.spec_state() == phase && current
                != d {
                new.spec_duration() == Duration::spec_from_millis(d)
            } else {
                new.spec_duration() == old.spec_duration()
            }
        }),
        old.spec_is_running_at(now) ==> new.spec_state_struct().spec_state()
            == old.spec_state_struct().spec_state(),
        !old.spec_is_running_at(now) ==> new.spec_state_struct().spec_state()
            == ScrollingLabelTransitionStateEnum::Stopped,
        running ==> new.spec_state_struct().spec_running_duration() == d
            && new.spec_state_struct().spec_timeout_duration()
            == old.spec_state_struct().spec_timeout_duration(),
        !running ==> new.spec_state_struct().spec_timeout_duration() == d
            && new.spec_state_struct().spec_running_duration()
            == old.spec_state_struct().spec_running_duration(),
{
    StateTransition::lemma_replace_parts(old);
    let mid1 = choose|mid1: StateTransition<ScrollingLabelTransitionState>|
        #![trigger StateTransition::<ScrollingLabelTransitionState>::spec_update(old, now, mid1)]
        StateTransition::<ScrollingLabelTransitionState>::spec_update(old, now, mid1) && if (if running {
            mid1.spec_state_struct().spec_running_duration()
        } else {
            mid1.spec_state_struct().spec_timeout_duration()
        }) == d {
            new == mid1
        } else {
            exists|mid2: StateTransition<ScrollingLabelTransitionState>, mid3: StateTransition<ScrollingLabelTransitionState>|
                #![trigger StateTransition::<ScrollingLabelTransitionState>::spec_update(mid1, now, mid2), StateTransition::<ScrollingLabelTransitionState>::spec_update(mid2.spec_with_length(running, d), now, mid3)]
                StateTransition::<ScrollingLabelTransitionState>::spec_update(mid1, now, mid2) && StateTransition::<ScrollingLabelTransitionState>::spec_update(
                    mid2.spec_with_length(running, d),
                    now,
                    mid3,
                ) && if mid3.spec_state_struct().spec_state() == (if running {
                    ScrollingLabelTransitionStateEnum::Running
                } else {
                    ScrollingLabelTransitionStateEnum::Timeout
                }) {
                    StateTransition::<ScrollingLabelTransitionState>::spec_start_timer(mid3, Duration::spec_from_millis(d), now, new)
                } else {
                    new == mid3
                }
        };
    StateTransition::lemma_replace_parts(mid1);
    let stopped = old.spec_with_running(false);
    StateTransition::lemma_replace_parts(stopped);
    old.spec_state_struct().lemma_with_lengths(d);
    if (if running {
        mid1.spec_state_struct().spec_running_duration()
    } else {
        mid1.spec_state_struct().spec_timeout_duration()
    }) != d {
        let (mid2, mid3) = choose|mid2: StateTransition<ScrollingLabelTransitionState>, mid3: StateTransition<ScrollingLabelTransitionState>|
            #![trigger StateTransition::<ScrollingLabelTransitionState>::spec_update(mid1, now, mid2), StateTransition::<ScrollingLabelTransitionState>::spec_update(mid2.spec_with_length(running, d), now, mid3)]
            StateTransition::<ScrollingLabelTransitionState>::spec_update(mid1, now, mid2) && StateTransition::<ScrollingLabelTransitionState>::spec_update(
                mid2.spec_with_length(running, d),
                now,
                mid3,
            ) && if mid3.spec_state_struct().spec_state() == (if running {
                ScrollingLabelTransitionStateEnum::Running
            } else {
                ScrollingLabelTransitionStateEnum::Timeout
            }) {
                StateTransition::<ScrollingLabelTransitionState>::spec_start_timer(mid3, Duration::spec_from_millis(d), now, new)
            } else {
                new == mid3
            };
        StateTransition::lemma_replace_parts(mid2);
        let with = mid2.spec_with_length(running, d);
        StateTransition::lemma_replace_parts(with);
        mid2.spec_state_struct().lemma_with_lengths(d);
        StateTransition::lemma_replace_parts(with.spec_with_running(false));
        StateTransition::lemma_replace_parts(mid3);
    }
}

/// Starting or resizing the timer keeps the state machine.
pub proof fn lemma_start_timer_keeps_state(
    old: StateTransition<ScrollingLabelTransitionState>,
    duration: Duration,
    now: Instant,
    new: StateTransition<ScrollingLabelTransitionState>,
)
    requires
        StateTransition::spec_start_timer(old, duration, now, new),
    ensures
        new.spec_state_struct() == old.spec_state_struct(),
{
    StateTransition::lemma_replace_parts(old);
}

impl StateTransition<ScrollingLabelTransitionState> {
    /// The transition with its state machine's scroll phase lasting `d`.
    pub open spec fn spec_with_running_length(self, d: u64) -> Self {
        self.spec_with_state(self.spec_state_struct().spec_with_running_duration(d))
    }

    /// The transition with its state machine's wait lasting `d`.
    pub open spec fn spec_with_timeout_length(self, d: u64) -> Self {
        self.spec_with_state(self.spec_state_struct().spec_with_timeout_duration(d))
    }

    /// The transition with the scroll phase (when `running` holds) or the
    /// wait lasting `d`.
    pub open spec fn spec_with_length(self, running: bool, d: u64) -> Self {
        if running {
            self.spec_with_running_length(d)
        } else {
            self.spec_with_timeout_length(d)
        }
    }

    /// What setting a phase's length to `d` at `now` makes of `old`, for
    /// the scroll phase when `running` holds and for the wait otherwise. The
    /// transition is brought up to date (to `mid1`); a length that is
    /// already `d` leaves it there. Otherwise it is brought up to date
    /// again, given the new length, and brought up to date once more (to
    /// `mid3`); when that phase is the current one, its timer is given the
    /// new length.
    pub open spec fn spec_set_length(old: Self, running: bool, d: u64, now: Instant, new: Self) -> bool {
        exists|mid1: Self|
            #![trigger Self::spec_update(old, now, mid1)]
            Self::spec_update(old, now, mid1) && if (if running {
                mid1.spec_state_struct().spec_running_duration()
            } else {
                mid1.spec_state_struct().spec_timeout_duration()
            }) == d {
                new == mid1
            } else {
                exists|mid2: Self, mid3: Self|
                    #![trigger Self::spec_update(mid1, now, mid2), Self::spec_update(mid2.spec_with_length(running, d), now, mid3)]
                    Self::spec_update(mid1, now, mid2) && Self::spec_update(
                        mid2.spec_with_length(running, d),
                        now,
                        mid3,
                    ) && if mid3.spec_state_struct().spec_state() == (if running {
                        ScrollingLabelTransitionStateEnum::Running
                    } else {
                        ScrollingLabelTransitionStateEnum::Timeout
                    }) {
                        Self::spec_start_timer(mid3, Duration::spec_from_millis(d), now, new)
                    } else {
                        new == mid3
                    }
            }
    }

    /// Sets the length of the scroll phase at `now`; a scroll under way is
    /// given the new length (see `spec_set_length`).
    pub fn set_running_duration_at(&mut self, running_duration: u64, now: Instant)
        ensures
            Self::spec_set_length(*old(self), true, running_duration, now, *final(self)),
            final(self).spec_state_struct().spec_running_duration() == running_duration,
            final(self).spec_state_struct().spec_timeout_duration()
                == old(self).spec_state_struct().spec_timeout_duration(),
    {
        let ghost before = *self;
        let current = self.get_state_struct_at(now).running_duration;
        let ghost mid1 = *self;
        proof {
            StateTransition::lemma_replace_parts(*self);
            assert(Self::spec_update(before, now, mid1));
            lemma_update_keeps_lengths(before, now, *self);
        }
        if running_duration == current {
            assert(Self::spec_set_length(before, true, running_duration, now, *self));
            return;
        }
        let state = self.get_state_struct_at(now);
        let ghost lent = *state;
        state.running_duration = running_duration;
        let ghost after = *self;
        let ghost mid2 = after.spec_with_state(lent);
        proof {
            StateTransition::lemma_replace_parts(after);
            StateTransition::lemma_replace_parts(mid2);
            lent.lemma_with_lengths(running_duration);
            assert(after.spec_state_struct() == lent.spec_with_running_duration(running_duration));
            assert(after.spec_with_state(after.spec_state_struct()) == after);
            assert(after == mid2.spec_with_running_length(running_duration));
            lemma_update_keeps_lengths(mid1, now, mid2);
        }
        if let ScrollingLabelTransitionStateEnum::Running = self.get_state_at(now) {
            let ghost mid3 = *self;
            proof {
                lemma_update_keeps_lengths(after, now, *self);
            }
            self.start_timer_duration_at(Duration::from_millis(running_duration), now);
            proof {
                lemma_start_timer_keeps_state(mid3, Duration::spec_from_millis(running_duration), now, *self);
                assert(Self::spec_update(mid1, now, mid2) && Self::spec_update(mid2.spec_with_length(true, running_duration), now, mid3));
                assert(Self::spec_set_length(before, true, running_duration, now, *self));
            }
        } else {
            let ghost mid3 = *self;
            proof {
                lemma_update_keeps_lengths(after, now, *self);
                assert(Self::spec_update(mid1, now, mid2) && Self::spec_update(mid2.spec_with_length(true, running_duration), now, mid3));
                assert(Self::spec_set_length(before, true, running_duration, now, *self));
            }
        }
    }

    /// Sets the length of the wait between scrolls at `now`; a wait under
    /// way is given the new length (see `spec_set_length`).
    pub fn set_timeout_duration_at(&mut self, timeout_duration: u64, now: Instant)
        ensures
            Self::spec_set_length(*old(self), false, timeout_duration, now, *final(self)),
            final(self).spec_state_struct().spec_timeout_duration() == timeout_duration,
            final(self).spec_state_struct().spec_running_duration()
                == old(self).spec_state_struct().spec_running_duration(),
    {
        let ghost before = *self;
        let current = self.get_state_struct_at(now).timeout_duration;
        let ghost mid1 = *self;
        proof {
            StateTransition::lemma_replace_parts(*self);
            assert(Self::spec_update(before, now, mid1));
            lemma_update_keeps_lengths(before, now, *self);
        }
        if timeout_duration == current {
            assert(Self::spec_set_length(before, false, timeout_duration, now, *self));
            return;
        }
        let state = self.get_state_struct_at(now);
        let ghost lent = *state;
        state.timeout_duration = timeout_duration;
        let ghost after = *self;
        let ghost mid2 = after.spec_with_state(lent);
        proof {
            StateTransition::lemma_replace_parts(after);
            StateTransition::lemma_replace_parts(mid2);
            lent.lemma_with_lengths(timeout_duration);
            assert(after.spec_state_struct() == lent.spec_with_timeout_duration(timeout_duration));
            assert(after.spec_with_state(after.spec_state_struct()) == after);
            assert(after == mid2.spec_with_timeout_length(timeout_duration));
            lemma_update_keeps_lengths(mid1, now, mid2);
        }
        if let ScrollingLabelTransitionStateEnum::Timeout = self.get_state_at(now) {
            let ghost mid3 = *self;
            proof {
                lemma_update_keeps_lengths(after, now, *self);
            }
            self.start_timer_duration_at(Duration::from_millis(timeout_duration), now);
            proof {
                lemma_start_timer_keeps_state(mid3, Duration::spec_from_millis(timeout_duration), now, *self);
                assert(Self::spec_update(mid1, now, mid2) && Self::spec_update(mid2.spec_with_length(false, timeout_duration), now, mid3));
                assert(Self::spec_set_length(before, false, timeout_duration, now, *self));
            }
        } else {
            let ghost mid3 = *self;
            proof {
                lemma_update_keeps_lengths(after, now, *self);
                assert(Self::spec_update(mid1, now, mid2) && Self::spec_update(mid2.spec_with_length(false, timeout_duration), now, mid3));
                assert(Self::spec_set_length(before, false, timeout_duration, now, *self));
            }
        }
    }

    /// `set_running_duration_at` on the system clock.
    pub fn set_running_duration(&mut self, running_duration: u64)
        ensures
            exists|now: Instant| Self::spec_set_length(*old(self), true, running_duration, now, *final(self)),
            final(self).spec_state_struct().spec_running_duration() == running_duration,
            final(self).spec_state_struct().spec_timeout_duration()
                == old(self).spec_state_struct().spec_timeout_duration(),
    {
        let now = clock_now();
        self.set_running_duration_at(running_duration, now)
    }

    /// `set_timeout_duration_at` on the system clock.
    pub fn set_timeout_duration(&mut self, timeout_duration: u64)
        ensures
            exists|now: Instant| Self::spec_set_length(*old(self), false, timeout_duration, now, *final(self)),
            final(self).spec_state_struct().spec_timeout_duration() == timeout_duration,
            final(self).spec_state_struct().spec_running_duration()
                == old(self).spec_state_struct().spec_running_duration(),
    {
        let now = clock_now();
        self.set_timeout_duration_at(timeout_duration, now)
    }
}

/// Why a scrolling label refused a setting.
#[derive(Clone, Copy, Debug, PartialEq, Eq, Structural)]
pub enum ScrollingLabelError {
    /// A scroll speed of zero pixels per second.
    ZeroSpeed,
}

/// Scroll speed (pixels per second) and wait between scrolls
/// (milliseconds), each pinned once a module sets it.
#[derive(Clone, Copy, Debug)]
pub struct ScrollingLabelLocalTransitionContext {
    transition_speed: u64,
    transition_speed_set_by_module: bool,
    transition_timeout: u64,
    transition_timeout_set_by_module: bool,
}

impl ScrollingLabelLocalTransitionContext {
    pub closed spec fn spec_speed(&self) -> u64 {
        self.transition_speed
    }

    pub closed spec fn spec_speed_set_by_module(&self) -> bool {
        self.transition_speed_set_by_module
    }

    pub closed spec fn spec_timeout(&self) -> u64 {
        self.transition_timeout
    }

    pub closed spec fn spec_timeout_set_by_module(&self) -> bool {
        self.transition_timeout_set_by_module
    }

    /// The speed is never zero.
    pub open spec fn wf(&self) -> bool {
        self.spec_speed() > 0
    }

    /// A speed of one pixel per second and no wait, neither pinned.
    pub fn new() -> (c: Self)
        ensures
            c.wf(),
            c.spec_speed() == 1,
            c.spec_timeout() == 0,
            !c.spec_speed_set_by_module(),
            !c.spec_timeout_set_by_module(),
    {
        Self {
            transition_timeout: 0,
            transition_timeout_set_by_module: false,
            transition_speed: 1,
            transition_speed_set_by_module: false,
        }
    }

    pub fn get_transition_speed(&self) -> (v: u64)
        ensures
            v == self.spec_speed(),
    {
        self.transition_speed
    }

    pub fn get_transition_speed_set_by_module(&self) -> (b: bool)
        ensures
            b == self.spec_speed_set_by_module(),
    {
        self.transition_speed_set_by_module
    }

    pub fn get_transition_timeout(&self) -> (v: u64)
        ensures
            v == self.spec_timeout(),
    {
        self.transition_timeout
    }

    pub fn get_transition_timeout_set_by_module(&self) -> (b: bool)
        ensures
            b == self.spec_timeout_set_by_module(),
    {
        self.transition_timeout_set_by_module
    }

    /// Sets the scroll speed; a speed of zero is refused. A module's speed is
    /// pinned; another speed is taken only while none is pinned.
    pub fn set_transition_speed(&mut self, transition_speed: u64, module: bool) -> (r: Result<
        (),
        ScrollingLabelError,
    >)
        requires
            old(self).wf(),
        ensures
            final(self).wf(),
            r is Err <==> transition_speed == 0,
            r is Err ==> r == Err::<(), _>(ScrollingLabelError::ZeroSpeed) && *final(self)
                == *old(self),
            r is Ok ==> final(self).spec_speed() == if module || !old(self).spec_speed_set_by_module() {
                transition_speed
            } else {
                old(self).spec_speed()
            },
            r is Ok ==> final(self).spec_speed_set_by_module() == (module
                || old(self).spec_speed_set_by_module()),
            final(self).spec_timeout() == old(self).spec_timeout(),
            final(self).spec_timeout_set_by_module() == old(self).spec_timeout_set_by_module(),
    {
        if transition_speed == 0 {
            return Err(ScrollingLabelError::ZeroSpeed);
        }
        if module {
            self.transition_speed_set_by_module = true;
        } else if self.transition_speed_set_by_module {
            return Ok(());
        }
        self.transition_speed = transition_speed;
        Ok(())
    }

    /// Sets the wait between scrolls. A module's wait is pinned; another wait
    /// is taken only while none is pinned.
    pub fn set_transition_timeout(&mut self, transition_timeout: u64, module: bool) -> (r: Result<
        (),
        ScrollingLabelError,
    >)
        ensures
            r is Ok,
            final(self).spec_timeout() == if module || !old(self).spec_timeout_set_by_module() {
                transition_timeout
            } else {
                old(self).spec_timeout()
            },
            final(self).spec_timeout_set_by_module() == (module
                || old(self).spec_timeout_set_by_module()),
            final(self).spec_speed() == old(self).spec_speed(),
            final(self).spec_speed_set_by_module() == old(self).spec_speed_set_by_module(),
    {
        if module {
            self.transition_timeout_set_by_module = true;
        } else if self.transition_timeout_set_by_module {
            return Ok(());
        }
        self.transition_timeout = transition_timeout;
        Ok(())
    }
}

impl Default for ScrollingLabelLocalTransitionContext {
    fn default() -> (c: Self)
        ensures
            c.wf(),
            c.spec_speed() == 1,
            c.spec_timeout() == 0,
            !c.spec_speed_set_by_module(),
            !c.spec_timeout_set_by_module(),
    {
        Self::new()
    }
}

/// The direction in which a label scrolls.
#[derive(Clone, Copy, Debug, PartialEq, Eq, Structural)]
pub enum Orientation {
    Horizontal,
    Vertical,
}

/// Whether a maximal width or height may be set: a positive size, or `-1`
/// for none.
pub fn accepts_max_size(value: i32) -> (b: bool)
    ensures
        b == (value > 0 || value == -1),
{
    value > 0 || value == -1
}

/// The preferred (minimum, natural) size of a label capped at `limit` (when
/// positive), from the inner label's (minimum, natural) size.
pub fn capped_preferred_size(limit: i32, inner: (i32, i32)) -> (r: (i32, i32))
    ensures
        limit > 0 ==> r == (if limit <= inner.0 { limit } else { inner.0 }, if limit <= inner.1 {
            limit
        } else {
            inner.1
        }),
        limit <= 0 ==> r == (inner.1, inner.1),
{
    if limit > 0 {
        (if limit <= inner.0 { limit } else { inner.0 }, if limit <= inner.1 { limit } else { inner.1 })
    } else {
        (inner.1, inner.1)
    }
}

/// The preferred width for a height of a label capped at `limit` (when
/// positive): the inner label's natural width, capped, as both minimum and
/// natural width.
pub fn capped_natural_size(limit: i32, inner: (i32, i32)) -> (r: (i32, i32))
    ensures
        limit > 0 ==> r.0 == (if limit <= inner.1 { limit } else { inner.1 }) && r.1 == r.0,
        limit <= 0 ==> r == (inner.1, inner.1),
{
    if limit > 0 {
        let w = if limit <= inner.1 { limit } else { inner.1 };
        (w, w)
    } else {
        (inner.1, inner.1)
    }
}

/// The size the inner label takes in a scrolling label, before alignment:
/// scrolling sideways it is as wide as it wants to be at the parent's height
/// and as high as it wants to be; scrolling down it is as wide as the
/// maximal width, and as high as it wants to be at that width.
pub open spec fn spec_inner_size(
    orientation: Orientation,
    max_width: i32,
    natural_width_for_parent_height: i32,
    natural_height: i32,
    natural_height_for_max_width: i32,
) -> (i32, i32) {
    match orientation {
        Orientation::Horizontal => (natural_width_for_parent_height, natural_height),
        Orientation::Vertical => (max_width, natural_height_for_max_width),
    }
}

/// Where the inner label goes in a scrolling label's allocation `parent`
/// (centring rounds toward zero); see `spec_inner_size`.
pub fn scrolling_label_child_allocation(
    parent: Rect,
    orientation: Orientation,
    max_width: i32,
    natural_width_for_parent_height: i32,
    natural_height: i32,
    natural_height_for_max_width: i32,
    halign: Align,
    valign: Align,
) -> (r: Rect)
    requires
        ({
            let size = spec_inner_size(
                orientation,
                max_width,
                natural_width_for_parent_height,
                natural_height,
                natural_height_for_max_width,
            );
            &&& align_span_fits(parent.x as int, parent.width as int, size.0 as int)
            &&& align_span_fits(parent.y as int, parent.height as int, size.1 as int)
        }),
    ensures
        ({
            let size = spec_inner_size(
                orientation,
                max_width,
                natural_width_for_parent_height,
                natural_height,
                natural_height_for_max_width,
            );
            &&& (r.x as int, r.width as int) == spec_align_span(
                parent.x as int,
                parent.width as int,
                size.0 as int,
                halign,
                false,
            )
            &&& (r.y as int, r.height as int) == spec_align_span(
                parent.y as int,
                parent.height as int,
                size.1 as int,
                valign,
                false,
            )
        }),
{
    let (width, height) = match orientation {
        Orientation::Horizontal => (natural_width_for_parent_height, natural_height),
        Orientation::Vertical => (max_width, natural_height_for_max_width),
    };
    let (x, width) = align_span(parent.x, parent.width, width, halign, false);
    let (y, height) = align_span(parent.y, parent.height, height, valign, false);
    Rect { x, y, width, height }
}

/// How far the text scrolls in one scroll phase, along the scrolling axis of
/// a label of length `own_len` (capped at `max_len`, `-1` for no cap) whose
/// inner label ends at `inner_end`.
///
/// An uncapped label does not scroll. Otherwise the text moves by the part
/// of it that overflows the label; when it rolls round, by that part plus
/// the label's own length.
pub open spec fn spec_scroll_distance(max_len: i32, own_len: i32, inner_end: i32, roll: bool) -> int {
    if max_len == -1 {
        0
    } else {
        let size = if own_len - inner_end <= 0 { own_len - inner_end } else { 0 };
        let size = if roll && size != 0 { size - own_len } else { size };
        if size >= 0 { size } else { -size }
    }
}

/// How far the text scrolls: not at all for an uncapped label or a text
/// that fits; otherwise by the part that overflows the label, and when the
/// text rolls round, by that overflow plus the label's own length.
pub proof fn lemma_scroll_distance_overflow(max_len: i32, own_len: i32, inner_end: i32, roll: bool)
    ensures
        max_len == -1 ==> spec_scroll_distance(max_len, own_len, inner_end, roll) == 0,
        inner_end <= own_len ==> spec_scroll_distance(max_len, own_len, inner_end, roll) == 0,
        max_len != -1 && inner_end > own_len && !roll ==> spec_scroll_distance(
            max_len,
            own_len,
            inner_end,
            roll,
        ) == inner_end - own_len,
        max_len != -1 && inner_end > own_len && own_len >= 0 && roll ==> spec_scroll_distance(
            max_len,
            own_len,
            inner_end,
            roll,
        ) == (inner_end - own_len) + own_len,
        spec_scroll_distance(max_len, own_len, inner_end, roll) >= 0,
{
}

/// How far the text scrolls in one scroll phase; see `spec_scroll_distance`.
/// The scroll phase lasts this distance divided by the scroll speed.
pub fn scroll_distance(max_len: i32, own_len: i32, inner_end: i32, roll: bool) -> (d: u32)
    requires
        max_len != -1 ==> {
            let diff = own_len - inner_end;
            let size = if diff <= 0 { diff } else { 0 };
            let size = if roll && size != 0 { size - own_len } else { size };
            &&& fits_i32(diff)
            &&& fits_i32(size)
            &&& size != i32::MIN
        },
    ensures
        d == spec_scroll_distance(max_len, own_len, inner_end, roll),
{
    if max_len == -1 {
        return 0;
    }
    let diff = own_len - inner_end;
    let size = if diff <= 0 { diff } else { 0 };
    let size = if roll && size != 0 { size - own_len } else { size };
    if size >= 0 { size as u32 } else { (-size) as u32 }
}

} // verus!
