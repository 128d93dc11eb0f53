use dynisland::scrolling_label::{ScrollingLabelTransitionState, ScrollingLabelTransitionStateEnum};
use dynisland::time::{Duration, Instant};
use dynisland::transition::{StateStruct, StateTransition, Transition};

fn at(nanos: u128) -> Instant {
    Instant::from_nanos(nanos)
}

fn ms(millis: u64) -> Duration {
    Duration::from_millis(millis)
}

#[test]
fn transition_is_active_inside_window() {
    let t = Transition { active: true, duration: ms(100), start_time: at(1_000) };
    assert!(t.is_active_at(at(1_000)));
    assert!(t.is_active_at(at(50_000_000)));
    assert!(!t.is_active_at(at(100_001_000)));
    // before the start the transition still counts as active while marked so
    assert!(t.is_active_at(at(0)));
}

#[test]
fn transition_not_marked_is_never_active() {
    let t = Transition { active: false, duration: ms(100), start_time: at(0) };
    assert!(!t.is_active_at(at(10)));
    assert!(!t.is_active());
}

#[test]
fn transition_new_marks_past_start_active() {
    let t = Transition::new_at(at(10), ms(5), at(20));
    assert!(t.active);
    let t = Transition::new_at(at(30), ms(5), at(20));
    assert!(!t.active);
    assert_eq!(t.duration, ms(5));
    assert_eq!(t.start_time, at(30));
}

#[test]
fn transition_zero_duration() {
    assert!(Transition { active: true, duration: Duration::zero(), start_time: at(0) }.is_zero());
    assert!(!Transition { active: true, duration: Duration::from_nanos(1), start_time: at(0) }.is_zero());
}

#[test]
fn transition_duration_to_end_counts_down() {
    let t = Transition { active: true, duration: Duration::from_nanos(100), start_time: at(1_000) };
    assert_eq!(t.duration_to_end_at(at(1_000)).as_nanos(), 100);
    assert_eq!(t.duration_to_end_at(at(1_060)).as_nanos(), 40);
    assert_eq!(t.duration_to_end_at(at(1_100)).as_nanos(), 0);
    assert_eq!(t.duration_to_end_at(at(5_000)).as_nanos(), 0);
    // before the start, the whole wait and the duration remain
    assert_eq!(t.duration_to_end_at(at(900)).as_nanos(), 200);
}

#[test]
fn transition_update_active_reports_changes() {
    let mut t = Transition { active: false, duration: Duration::from_nanos(100), start_time: at(1_000) };
    assert!(!t.update_active_at(at(500)));
    assert!(!t.active);
    assert!(t.update_active_at(at(1_050)));
    assert!(t.active);
    // a second update at the same time changes nothing
    assert!(!t.update_active_at(at(1_050)));
    assert!(t.update_active_at(at(1_100)));
    assert!(!t.active);
}

#[test]
fn transition_update_active_then_is_active_agree() {
    for now in [0u128, 999, 1_000, 1_050, 1_099, 1_100, 2_000] {
        let mut t = Transition { active: true, duration: Duration::from_nanos(100), start_time: at(1_000) };
        t.update_active_at(at(now));
        assert_eq!(t.is_active_at(at(now)), t.active);
    }
}

/// A two-state machine that counts how often its timer ended.
#[derive(Clone, Debug, Default)]
struct Blink {
    on: bool,
    ended: u32,
}

impl StateStruct for Blink {
    type StateEnum = bool;

    fn timer_ended_callback(state_transition: &mut StateTransition<Self>) {
        let state = state_transition.get_state_struct();
        state.on = !state.on;
        state.ended += 1;
    }

    fn init_callback(_state_transition: &mut StateTransition<Self>) {}

    fn get_idle_state() -> bool {
        false
    }

    fn get_state(&self) -> bool {
        self.on
    }

    fn set_state(&mut self, state: bool) {
        self.on = state;
    }
}

#[test]
fn state_transition_disabled_goes_idle() {
    let mut st: StateTransition<Blink> = StateTransition::default();
    st.get_state_struct_at(at(0)).on = true;
    assert!(!st.is_enabled());
    // a disabled transition is reset to idle when brought up to date
    assert_eq!(st.get_state_at(at(0)), false);
}

#[test]
fn state_transition_disabled_ignores_timers() {
    let mut st: StateTransition<Blink> = StateTransition::default();
    let before_start = st.start_time();
    st.start_timer_duration_at(ms(10), at(5));
    assert_eq!(st.duration(), Duration::zero());
    assert_eq!(st.start_time(), before_start);
    st.start_timer_time_at(at(u128::MAX / 2), at(5));
    assert_eq!(st.duration(), Duration::zero());
}

#[test]
fn state_transition_enable_runs_callback_when_idle() {
    let mut st: StateTransition<Blink> = StateTransition::default();
    let start = st.start_time().nanos;
    st.enable_at(at(start + 1));
    assert!(st.is_enabled());
    // the state was reset to idle (off), then the callback switched it on
    assert_eq!(st.get_state_struct_at(at(start + 1)).ended, 1);
    assert_eq!(st.get_state_at(at(start + 1)), true);
}

#[test]
fn state_transition_timer_runs_then_ends() {
    let mut st: StateTransition<Blink> = StateTransition::default();
    let start = st.start_time().nanos;
    st.enable_at(at(start + 1));
    st.start_timer_duration_at(Duration::from_nanos(100), at(start + 10));
    assert_eq!(st.start_time(), at(start + 10));
    assert!(st.eval_is_running_at(at(start + 50)));
    assert!(!st.eval_is_running_at(at(start + 110)));
    // while the timer runs nothing happens
    assert_eq!(st.get_state_at(at(start + 50)), true);
    assert_eq!(st.get_state_struct_at(at(start + 50)).ended, 1);
    // when it has ended the callback runs once
    assert_eq!(st.get_state_at(at(start + 200)), false);
    assert_eq!(st.get_state_struct_at(at(start + 200)).ended, 2);
    assert_eq!(st.get_state_struct_at(at(start + 300)).ended, 2);
}

#[test]
fn state_transition_running_timer_is_resized() {
    let mut st: StateTransition<Blink> = StateTransition::default();
    let start = st.start_time().nanos;
    st.enable_at(at(start + 1));
    st.start_timer_duration_at(Duration::from_nanos(100), at(start + 10));
    // the timer runs: only its duration changes
    st.start_timer_duration_at(Duration::from_nanos(500), at(start + 20));
    assert_eq!(st.start_time(), at(start + 10));
    assert_eq!(st.duration(), Duration::from_nanos(500));
    // end_time moves the end of the running timer
    st.start_timer_time_at(at(start + 60), at(start + 30));
    assert_eq!(st.duration(), Duration::from_nanos(50));
    assert_eq!(st.duration_to_end_at(at(start + 30)).as_nanos(), 30);
    // an end before the start changes nothing
    st.start_timer_time_at(at(start), at(start + 30));
    assert_eq!(st.duration(), Duration::from_nanos(50));
}

#[test]
fn state_transition_disable_keeps_timer() {
    let mut st: StateTransition<Blink> = StateTransition::default();
    let start = st.start_time().nanos;
    st.enable_at(at(start + 1));
    st.start_timer_duration_at(Duration::from_nanos(100), at(start + 10));
    st.disable();
    assert!(!st.is_enabled());
    assert_eq!(st.duration(), Duration::from_nanos(100));
    assert!(!st.is_zero());
}

#[test]
fn scrolling_label_cycle_alternates() {
    let mut st: StateTransition<ScrollingLabelTransitionState> = StateTransition::default();
    let start = st.start_time().nanos;
    st.set_timeout_duration_at(2_000, at(start));
    st.set_running_duration_at(3_000, at(start));
    st.enable_at(at(start + 1));
    // enabling an idle label starts the wait
    assert_eq!(st.get_state_struct().get_state(), ScrollingLabelTransitionStateEnum::Timeout);
    assert_eq!(st.duration(), ms(2_000));
    // the wait ends: the label scrolls for the running duration
    ScrollingLabelTransitionState::timer_ended_callback(&mut st);
    assert_eq!(st.get_state_struct().get_state(), ScrollingLabelTransitionStateEnum::Running);
    assert_eq!(st.duration(), ms(3_000));
    // the scroll ends: the label waits again
    ScrollingLabelTransitionState::timer_ended_callback(&mut st);
    assert_eq!(st.get_state_struct().get_state(), ScrollingLabelTransitionStateEnum::Timeout);
    assert_eq!(st.duration(), ms(2_000));
}

#[test]
fn scrolling_label_lengths_are_kept() {
    let mut st: StateTransition<ScrollingLabelTransitionState> = StateTransition::default();
    st.set_running_duration(700);
    st.set_timeout_duration(300);
    let s = *st.get_state_struct();
    assert_eq!(s.running_duration(), 700);
    assert_eq!(s.timeout_duration(), 300);
    st.set_running_duration(700);
    assert_eq!(st.get_state_struct().running_duration(), 700);
}

#[test]
fn scrolling_label_disabled_is_stopped() {
    let mut st: StateTransition<ScrollingLabelTransitionState> = StateTransition::default();
    assert_eq!(st.get_state(), ScrollingLabelTransitionStateEnum::Stopped);
    assert_eq!(ScrollingLabelTransitionState::get_idle_state(), ScrollingLabelTransitionStateEnum::Stopped);
}

#[test]
fn state_transition_end_now_stops_timer() {
    let mut st: StateTransition<Blink> = StateTransition::default();
    let start = st.start_time().nanos;
    st.enable_at(at(start + 1));
    st.start_timer_duration_at(Duration::from_nanos(100), at(start + 10));
    assert!(st.eval_is_running_at(at(start + 40)));
    st.start_timer_time_at(at(start + 40), at(start + 40));
    assert!(!st.eval_is_running_at(at(start + 40)));
    assert_eq!(st.duration(), Duration::from_nanos(30));
}

#[test]
fn state_transition_end_at_its_own_start_keeps_running() {
    let mut st: StateTransition<Blink> = StateTransition::default();
    let start = st.start_time().nanos;
    st.enable_at(at(start + 1));
    st.start_timer_duration_at(Duration::from_nanos(100), at(start + 10));
    st.start_timer_time_at(at(start + 10), at(start + 10));
    assert!(st.eval_is_running_at(at(start + 10)));
    assert_eq!(st.duration(), Duration::from_nanos(100));
}

#[test]
fn state_transition_disable_keeps_state_and_timer() {
    let mut st: StateTransition<Blink> = StateTransition::default();
    let start = st.start_time().nanos;
    st.enable_at(at(start + 1));
    st.start_timer_duration_at(Duration::from_nanos(100), at(start + 10));
    st.disable();
    assert_eq!(st.start_time(), at(start + 10));
    assert_eq!(st.duration(), Duration::from_nanos(100));
    assert!(st.eval_is_running_at(at(start + 50)));
    assert_eq!(st.get_state_at(at(start + 50)), true);
}

#[test]
fn scrolling_label_catches_up_on_an_ended_timer() {
    let mut st: StateTransition<ScrollingLabelTransitionState> = StateTransition::default();
    let start = st.start_time().nanos;
    st.set_timeout_duration_at(0, at(start));
    st.set_running_duration_at(60_000, at(start));
    // enabling starts the wait, whose timer is empty and ends at once
    st.enable_at(at(start + 1));
    assert_eq!(st.duration(), Duration::zero());
    // enabling again, with that timer ended unseen: the cycle moves on once
    // when the transition is brought up to date and once for the callback
    st.enable_at(at(start + 2));
    assert_eq!(st.duration(), ms(60_000));
    assert_eq!(st.get_state(), ScrollingLabelTransitionStateEnum::Running);
}
