use dynisland::layout::{
    activity_child_allocation, activity_layout_measure, align_span, get_allocated_widget_size,
    get_final_widget_size, get_max_preferred_size, mode_child_allocation, next_mode,
    property_slice_for_mode,
    rolling_number_child_allocation, ActivityMode, Align, Rect,
};
use dynisland::css_size::{parse_css_size, CssSizeError, CssSizeForm};
use dynisland::scrolling_label::{
    accepts_max_size, capped_natural_size, capped_preferred_size, scroll_distance,
    scrolling_label_child_allocation, Orientation,
};

#[test]
fn activity_mode_names_and_positions() {
    let modes = [ActivityMode::Minimal, ActivityMode::Compact, ActivityMode::Expanded, ActivityMode::Overlay];
    let names = ["minimal", "compact", "expanded", "overlay"];
    for (i, mode) in modes.iter().enumerate() {
        assert_eq!(mode.index(), i);
        assert_eq!(mode.to_string(), names[i]);
        assert_eq!(ActivityMode::from_index(i), Some(*mode));
    }
    assert_eq!(ActivityMode::from_index(4), None);
}

#[test]
fn align_span_each_alignment() {
    assert_eq!(align_span(10, 100, 40, Align::Start, false), (10, 40));
    assert_eq!(align_span(10, 100, 40, Align::End, false), (70, 40));
    assert_eq!(align_span(10, 100, 40, Align::Center, false), (40, 40));
    assert_eq!(align_span(10, 100, 40, Align::Fill, false), (10, 100));
    assert_eq!(align_span(10, 100, 40, Align::Baseline, false), (10, 100));
    // odd leftover: toward zero or up
    assert_eq!(align_span(0, 101, 40, Align::Center, false), (30, 40));
    assert_eq!(align_span(0, 101, 40, Align::Center, true), (31, 40));
    // child larger than the parent
    assert_eq!(align_span(0, 40, 101, Align::Center, false), (-30, 101));
    assert_eq!(align_span(0, 40, 101, Align::Center, true), (-30, 101));
}

#[test]
fn activity_child_allocation_centres_rounding_up() {
    let parent = Rect { x: 5, y: 7, width: 101, height: 51 };
    let r = activity_child_allocation(parent, 40, 20, Align::Center, Align::End);
    assert_eq!(r, Rect { x: 5 + 31, y: 7 + 31, width: 40, height: 20 });
    let r = activity_child_allocation(parent, 40, 20, Align::Fill, Align::Start);
    assert_eq!(r, Rect { x: 5, y: 7, width: 101, height: 20 });
}

#[test]
fn rolling_number_child_is_centred() {
    let parent = Rect { x: 0, y: 0, width: 31, height: 60 };
    assert_eq!(rolling_number_child_allocation(parent, 10, 20), Rect { x: 10, y: 20, width: 10, height: 20 });
}

#[test]
fn max_preferred_size_by_component() {
    assert_eq!(get_max_preferred_size((3, 9), (5, 4)), (5, 9));
}

#[test]
fn final_widget_size_per_mode() {
    // minimal: forced height and width
    assert_eq!(get_final_widget_size(ActivityMode::Minimal, 40, 60, 300, 200, 500, 400), (60, 40));
    // compact: forced height, requested width
    assert_eq!(get_final_widget_size(ActivityMode::Compact, 40, 60, 300, 200, 500, 400), (300, 40));
    // expanded: requested sizes
    assert_eq!(get_final_widget_size(ActivityMode::Expanded, 40, 60, 300, 200, 500, 400), (300, 200));
    // no request: natural sizes, never below the minimum
    assert_eq!(get_final_widget_size(ActivityMode::Overlay, 40, 60, -1, 0, 500, 10), (500, 40));
    assert_eq!(get_final_widget_size(ActivityMode::Overlay, 40, 60, -1, -1, 30, 100), (60, 100));
}

#[test]
fn allocated_widget_size_per_mode() {
    assert_eq!(get_allocated_widget_size(ActivityMode::Minimal, 40, -1, 300, 70, 80), (70, 40));
    assert_eq!(get_allocated_widget_size(ActivityMode::Expanded, 40, 120, -1, 70, 80), (120, 80));
    assert_eq!(get_allocated_widget_size(ActivityMode::Overlay, 40, -1, 300, 70, 80), (70, 300));
}

#[test]
fn mode_child_allocation_offsets_in_half_pixels() {
    // centred child, clamped to its natural width
    assert_eq!(
        mode_child_allocation(100, 50, (10, 40), (5, 20), Align::Center, Align::Start, false),
        (40, 20, 60, 0)
    );
    // fill: the parent's width; a larger child is centred
    assert_eq!(
        mode_child_allocation(100, 50, (10, 40), (60, 80), Align::Fill, Align::Fill, false),
        (100, 60, 0, -10)
    );
    // end, with the natural width
    assert_eq!(
        mode_child_allocation(100, 50, (10, 140), (5, 20), Align::End, Align::Baseline, true),
        (140, 20, -80, 0)
    );
}

#[test]
fn layout_measure_keeps_minimal_height() {
    assert_eq!(activity_layout_measure(40, None), (40, 40, -1, -1));
    assert_eq!(activity_layout_measure(40, Some((10, 90))), (40, 90, -1, -1));
}

#[test]
fn property_slice_marks_the_mode() {
    assert_eq!(property_slice_for_mode(ActivityMode::Expanded, 1.0, 0.5), [0.5, 0.5, 1.0, 0.5]);
    assert_eq!(property_slice_for_mode(ActivityMode::Minimal, 7, 0), [7, 0, 0, 0]);
}

#[test]
fn scrolling_label_sizes() {
    assert!(accepts_max_size(-1));
    assert!(accepts_max_size(5));
    assert!(!accepts_max_size(0));
    assert!(!accepts_max_size(-2));
    assert_eq!(capped_preferred_size(50, (30, 80)), (30, 50));
    assert_eq!(capped_preferred_size(-1, (30, 80)), (80, 80));
    assert_eq!(capped_natural_size(50, (30, 80)), (50, 50));
    assert_eq!(capped_natural_size(0, (30, 80)), (80, 80));
}

#[test]
fn scrolling_label_child_allocation_by_orientation() {
    let parent = Rect { x: 0, y: 0, width: 100, height: 30 };
    let r = scrolling_label_child_allocation(parent, Orientation::Horizontal, -1, 250, 20, 90, Align::Start, Align::Center);
    assert_eq!(r, Rect { x: 0, y: 5, width: 250, height: 20 });
    let r = scrolling_label_child_allocation(parent, Orientation::Vertical, 100, 250, 20, 90, Align::Center, Align::Start);
    assert_eq!(r, Rect { x: 0, y: 0, width: 100, height: 90 });
}

#[test]
fn scroll_distance_cases() {
    // no cap: no scrolling
    assert_eq!(scroll_distance(-1, 100, 250, true), 0);
    // text fits: no scrolling
    assert_eq!(scroll_distance(100, 100, 80, true), 0);
    // overflow of 150 pixels
    assert_eq!(scroll_distance(100, 100, 250, false), 150);
    // rolling round adds the label's own length
    assert_eq!(scroll_distance(100, 100, 250, true), 250);
}

#[test]
fn clicks_cycle_through_modes() {
    assert_eq!(next_mode(ActivityMode::Minimal, true), ActivityMode::Compact);
    assert_eq!(next_mode(ActivityMode::Compact, true), ActivityMode::Expanded);
    assert_eq!(next_mode(ActivityMode::Expanded, true), ActivityMode::Overlay);
    assert_eq!(next_mode(ActivityMode::Overlay, true), ActivityMode::Minimal);
    assert_eq!(next_mode(ActivityMode::Minimal, false), ActivityMode::Overlay);
    assert_eq!(next_mode(ActivityMode::Compact, false), ActivityMode::Minimal);
    assert_eq!(next_mode(ActivityMode::Expanded, false), ActivityMode::Compact);
    assert_eq!(next_mode(ActivityMode::Overlay, false), ActivityMode::Expanded);
    for m in [ActivityMode::Minimal, ActivityMode::Compact, ActivityMode::Expanded, ActivityMode::Overlay] {
        assert_eq!(next_mode(next_mode(m, true), false), m);
    }
}

#[test]
fn css_sizes_in_pixels() {
    assert_eq!(parse_css_size("12px"), Ok(CssSizeForm::Fixed(12)));
    assert_eq!(parse_css_size("7"), Ok(CssSizeForm::Fixed(7)));
    assert_eq!(parse_css_size("-3px"), Ok(CssSizeForm::Fixed(-3)));
    assert_eq!(parse_css_size("+5"), Ok(CssSizeForm::Fixed(5)));
    assert_eq!(parse_css_size("4%"), Ok(CssSizeForm::Percent));
    assert_eq!(parse_css_size("2147483647px"), Ok(CssSizeForm::Fixed(i32::MAX)));
    assert_eq!(parse_css_size("-2147483648"), Ok(CssSizeForm::Fixed(i32::MIN)));
    assert_eq!(parse_css_size("2147483648"), Err(CssSizeError::InvalidPixels));
    assert_eq!(parse_css_size("99999999999999999999px"), Err(CssSizeError::InvalidPixels));
    assert_eq!(parse_css_size("px"), Err(CssSizeError::InvalidPixels));
    assert_eq!(parse_css_size(""), Err(CssSizeError::InvalidPixels));
    assert_eq!(parse_css_size("-"), Err(CssSizeError::InvalidPixels));
    assert_eq!(parse_css_size("12em"), Err(CssSizeError::InvalidPixels));
    assert_eq!(parse_css_size("1 2"), Err(CssSizeError::InvalidPixels));
    // agrees with the standard library's reading of an i32
    for text in ["0", "007", "+0", "-0", "123456", "-2147483649", "1e3", " 1", "١٢"] {
        assert_eq!(
            parse_css_size(text).ok(),
            text.parse::<i32>().ok().map(CssSizeForm::Fixed),
            "{text}"
        );
    }
}
