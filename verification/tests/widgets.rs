use dynisland::css::{random_name, ActivityWidgetLocalCssContext, ScrollAnimationState, MINIMAL_HEIGHT};
use dynisland::filters::{
    backend_for_size, benchmark_limit, compute_work_group_count, padded_bytes_per_row,
    BenchmarkSample, FilterBackend,
};
use dynisland::music::{length_from_micros, music_time_labels, LoopStatus};
use dynisland::scrolling_label::{ScrollingLabelError, ScrollingLabelLocalTransitionContext};
use dynisland::text::{push_decimal, push_signed_decimal};
use dynisland::time::Duration;
use dynisland::widgets::{
    one_and_a_half, rolling_number_preferred_height, rolling_number_preferred_width,
    scrolling_label_is_active, scrolling_label_measure_horizontal, LabelSlot, RollingCharState,
    RollingNumberState,
};

#[test]
fn work_groups_cover_the_texture() {
    assert_eq!(compute_work_group_count((100, 64), (16, 16)), (7, 4));
    assert_eq!(compute_work_group_count((0, 1), (8, 8)), (0, 1));
}

#[test]
fn rows_are_padded_to_256_bytes() {
    assert_eq!(padded_bytes_per_row(0), 0);
    assert_eq!(padded_bytes_per_row(1), 256);
    assert_eq!(padded_bytes_per_row(64), 256);
    assert_eq!(padded_bytes_per_row(65), 512);
}

#[test]
fn backend_by_size() {
    assert_eq!(backend_for_size(10, 10, 99), FilterBackend::Gpu);
    assert_eq!(backend_for_size(10, 10, 100), FilterBackend::Cpu);
}

#[test]
fn benchmark_picks_first_gpu_win() {
    let samples = vec![
        BenchmarkSample { pixels: 400, cpu_micros: 10, gpu_micros: 50 },
        BenchmarkSample { pixels: 900, cpu_micros: 40, gpu_micros: 40 },
        BenchmarkSample { pixels: 1600, cpu_micros: 90, gpu_micros: 60 },
        BenchmarkSample { pixels: 2500, cpu_micros: 200, gpu_micros: 70 },
    ];
    assert_eq!(benchmark_limit(&samples), Some(1600));
    assert_eq!(benchmark_limit(&samples[..2].to_vec()), None);
}

#[test]
fn random_names_are_alphanumeric() {
    let name = random_name("c", 6);
    assert_eq!(name.len(), 7);
    assert!(name.starts_with('c'));
    assert!(name.chars().all(|c| c.is_ascii_alphanumeric()));
}

#[test]
fn module_value_equal_to_current_still_wins() {
    let mut ctx = ActivityWidgetLocalCssContext::new("a");
    assert!(!ctx.set_transition_duration(0, true));
    assert!(ctx.get_transition_duration_set_by_module());
    assert!(!ctx.set_transition_duration(500, false));
    assert_eq!(ctx.get_transition_duration(), 0);
    assert!(ctx.get_transition_duration_set_by_module());
}

#[test]
fn activity_css_context_setters() {
    let mut ctx = ActivityWidgetLocalCssContext::new("act");
    assert_eq!(ctx.get_size(), (MINIMAL_HEIGHT, MINIMAL_HEIGHT));
    assert!(!ctx.set_size((MINIMAL_HEIGHT, MINIMAL_HEIGHT)));
    assert!(ctx.set_size((100, 40)));
    assert!(ctx.set_border_radius(12));
    assert!(!ctx.set_border_radius(12));
    assert!(ctx.set_stretch_on_resize(false));
    assert!(ctx.set_transition_duration(300, true));
    assert!(!ctx.set_transition_duration(300, false));
    // pinned by the module: the general setting does not override it
    assert!(!ctx.set_transition_duration(500, false));
    assert_eq!(ctx.get_transition_duration(), 300);
    assert!(ctx.get_transition_duration_set_by_module());
    assert!(ctx.set_name("other"));
    assert_eq!(ctx.get_name(), "other");
}

#[test]
fn activity_css_context_default_name() {
    let ctx = ActivityWidgetLocalCssContext::default();
    assert_eq!(ctx.get_name().len(), 6);
    assert!(ctx.get_name().chars().all(|c| c.is_ascii_alphanumeric()));
}

#[test]
fn activity_css_text() {
    let mut ctx = ActivityWidgetLocalCssContext::new("act");
    ctx.set_size((100, 40));
    ctx.set_transition_duration(300, false);
    let css = ctx.css();
    assert!(css.starts_with(".act .activity-background{ \n"));
    assert!(css.contains("min-width: 100px; \n"));
    assert!(css.contains("min-height: 40px; \n"));
    assert!(css.contains("transition-duration: 300ms;\n"));
    assert!(!css.contains("border-radius"));
    ctx.set_stretch_on_resize(false);
    ctx.set_border_radius(-3);
    let css = ctx.css();
    assert_eq!(css.matches("border-radius: -3px;").count(), 4);
    assert!(css.contains(".act .mode-overlay{"));
}

#[test]
fn scroll_animation_restarts_on_new_size() {
    let mut s = ScrollAnimationState::new();
    assert!(!s.set_active(true, 0));
    assert!(s.set_active(true, 120));
    assert!(s.anim_restart_flag);
    assert!(s.set_active(false, 0));
    assert!(s.anim_restart_flag);
    assert!(s.set_active(true, 50));
    assert!(!s.anim_restart_flag);
}

#[test]
fn scrolling_label_context_settings() {
    let mut ctx = ScrollingLabelLocalTransitionContext::new();
    assert_eq!(ctx.get_transition_speed(), 1);
    assert_eq!(ctx.set_transition_speed(0, true), Err(ScrollingLabelError::ZeroSpeed));
    assert_eq!(ctx.get_transition_speed(), 1);
    assert_eq!(ctx.set_transition_speed(30, false), Ok(()));
    assert_eq!(ctx.get_transition_speed(), 30);
    assert_eq!(ctx.set_transition_speed(40, true), Ok(()));
    assert_eq!(ctx.set_transition_speed(50, false), Ok(()));
    assert_eq!(ctx.get_transition_speed(), 40);
    assert!(ctx.get_transition_speed_set_by_module());
    assert_eq!(ctx.set_transition_timeout(900, false), Ok(()));
    assert_eq!(ctx.get_transition_timeout(), 900);
    assert!(!ctx.get_transition_timeout_set_by_module());
}

#[test]
fn rolling_char_alternates_labels() {
    let mut s = RollingCharState::new();
    assert_eq!(s.set_current_char('a'), LabelSlot::Second);
    assert_eq!(s.set_current_char('b'), LabelSlot::First);
    assert_eq!(s.set_current_char('c'), LabelSlot::Second);
    assert_eq!(s.current_char, 'c');
}

#[test]
fn rolling_number_swaps_labels() {
    let mut s = RollingNumberState::new();
    assert_eq!(s.set_number('4'), (LabelSlot::Second, true));
    assert_eq!(s.last_number, '0');
    assert_eq!(s.prev_next_labels(), (LabelSlot::First, LabelSlot::Second));
    s.transition_enabled = false;
    assert_eq!(s.set_number('5'), (LabelSlot::First, false));
    assert_eq!(s.last_number, '4');
    assert_eq!(s.prev_next_labels(), (LabelSlot::Second, LabelSlot::First));
}

#[test]
fn rolling_number_sizes() {
    assert_eq!(one_and_a_half(10), 15);
    assert_eq!(one_and_a_half(11), 16);
    assert_eq!(one_and_a_half(-3), -4);
    assert_eq!(one_and_a_half(i32::MAX), i32::MAX);
    assert_eq!(one_and_a_half(i32::MIN), i32::MIN);
    assert_eq!(rolling_number_preferred_height((10, 30), (12, 14)), (18, 18));
    assert_eq!(rolling_number_preferred_width((10, 30), (12, 14)), (12, 12));
}

#[test]
fn scrolling_label_measure() {
    assert_eq!(scrolling_label_measure_horizontal((20, 300, 5, 7), 100), (0, 100, 0, 7));
    assert_eq!(scrolling_label_measure_horizontal((20, 300, -5, 7), -1), (0, 300, -1, 7));
    assert!(scrolling_label_is_active(100, 10, 81));
    assert!(!scrolling_label_is_active(100, 10, 80));
}

#[test]
fn music_labels() {
    let (elapsed, remaining) = music_time_labels(Duration::from_millis(65_900), Duration::from_secs(200));
    assert_eq!(elapsed, "01:05");
    assert_eq!(remaining, "-02:15");
    let (elapsed, remaining) = music_time_labels(Duration::from_secs(6_000), Duration::from_secs(3));
    assert_eq!(elapsed, "100:00");
    assert_eq!(remaining, "-00:00");
}

#[test]
fn loop_button_cycles() {
    assert_eq!(LoopStatus::NoLoop.next(), LoopStatus::Track);
    assert_eq!(LoopStatus::Track.next(), LoopStatus::Playlist);
    assert_eq!(LoopStatus::Playlist.next(), LoopStatus::NoLoop);
}

#[test]
fn song_length_from_micros() {
    assert_eq!(length_from_micros(2_500).as_nanos(), 2_500_000);
    assert_eq!(length_from_micros(-7).as_nanos(), 0);
}

#[test]
fn decimal_text() {
    let mut s = String::from("x=");
    push_decimal(&mut s, 1_204);
    assert_eq!(s, "x=1204");
    let mut s = String::new();
    push_signed_decimal(&mut s, i64::MIN);
    assert_eq!(s, "-9223372036854775808");
}

#[test]
fn durations() {
    let d = Duration::from_secs(3);
    assert_eq!(d.as_millis(), 3_000);
    assert_eq!(d.as_secs(), 3);
    assert_eq!(d.saturating_sub(Duration::from_secs(5)), Duration::zero());
    assert_eq!(Duration::from_secs(5).saturating_sub(d), Duration::from_secs(2));
}
