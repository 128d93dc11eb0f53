//! Size and placement arithmetic of the island's widgets: the four activity
//! modes, how a child is placed in its parent, and what size a mode asks for.
use vstd::prelude::*;

verus! {

/// Whether `x` is a value of `i32`.
pub open spec fn fits_i32(x: int) -> bool {
    i32::MIN <= x <= i32::MAX
}

/// Half of `d`, rounded toward zero (integer division in Rust).
pub open spec fn half_toward_zero(d: int) -> int {
    if d >= 0 {
        d / 2
    } else {
        -((-d) / 2)
    }
}

/// Half of `d`, rounded up.
pub open spec fn half_up(d: int) -> int {
    if d >= 0 {
        (d + 1) / 2
    } else {
        -((-d) / 2)
    }
}

/// The display mode of an activity, from the smallest to the largest.
#[derive(Clone, Copy, Debug, PartialEq, Eq, Structural)]
pub enum ActivityMode {
    Minimal,
    Compact,
    Expanded,
    Overlay,
}

impl ActivityMode {
    pub open spec fn spec_index(self) -> int {
        match self {
            ActivityMode::Minimal => 0,
            ActivityMode::Compact => 1,
            ActivityMode::Expanded => 2,
            ActivityMode::Overlay => 3,
        }
    }

    /// The position of the mode, from 0 (minimal) to 3 (overlay).
    pub fn index(&self) -> (i: usize)
        ensures
            i == self.spec_index(),
    {
        match self {
            ActivityMode::Minimal => 0,
            ActivityMode::Compact => 1,
            ActivityMode::Expanded => 2,
            ActivityMode::Overlay => 3,
        }
    }

    /// The mode at position `i`.
    pub fn from_index(i: usize) -> (m: Option<ActivityMode>)
        ensures
            m is Some <==> i < 4,
            m matches Some(mode) ==> mode.spec_index() == i,
    {
        if i == 0 {
            Some(ActivityMode::Minimal)
        } else if i == 1 {
            Some(ActivityMode::Compact)
        } else if i == 2 {
            Some(ActivityMode::Expanded)
        } else if i == 3 {
            Some(ActivityMode::Overlay)
        } else {
            None
        }
    }

    /// The mode's name, as used in style classes and property names.
    pub open spec fn spec_name(self) -> Seq<char> {
        match self {
            ActivityMode::Minimal => seq!['m', 'i', 'n', 'i', 'm', 'a', 'l'],
            ActivityMode::Compact => seq!['c', 'o', 'm', 'p', 'a', 'c', 't'],
            ActivityMode::Expanded => seq!['e', 'x', 'p', 'a', 'n', 'd', 'e', 'd'],
            ActivityMode::Overlay => seq!['o', 'v', 'e', 'r', 'l', 'a', 'y'],
        }
    }

    /// The mode's name: "minimal", "compact", "expanded" or "overlay".
    pub fn to_string(&self) -> (s: String)
        ensures
            s@ == self.spec_name(),
    {
        match self {
            ActivityMode::Minimal => {
                let s = "minimal";
                proof {
                    reveal_strlit("minimal");
                }
                s.to_string()
            },
            ActivityMode::Compact => {
                let s = "compact";
                proof {
                    reveal_strlit("compact");
                }
                s.to_string()
            },
            ActivityMode::Expanded => {
                let s = "expanded";
                proof {
                    reveal_strlit("expanded");
                }
                s.to_string()
            },
            ActivityMode::Overlay => {
                let s = "overlay";
                proof {
                    reveal_strlit("overlay");
                }
                s.to_string()
            },
        }
    }

    /// Whether the mode forces the minimal height (minimal and compact).
    pub open spec fn spec_forces_height(self) -> bool {
        self is Minimal || self is Compact
    }
}

/// The mode that a click switches to: the primary button steps forward
/// (minimal, compact, expanded, overlay, then minimal again), the secondary
/// button steps back.
pub open spec fn spec_next_mode(m: ActivityMode, forward: bool) -> ActivityMode {
    match m {
        ActivityMode::Minimal => if forward {
            ActivityMode::Compact
        } else {
            ActivityMode::Overlay
        },
        ActivityMode::Compact => if forward {
            ActivityMode::Expanded
        } else {
            ActivityMode::Minimal
        },
        ActivityMode::Expanded => if forward {
            ActivityMode::Overlay
        } else {
            ActivityMode::Compact
        },
        ActivityMode::Overlay => if forward {
            ActivityMode::Minimal
        } else {
            ActivityMode::Expanded
        },
    }
}

/// The mode that a click on an activity switches to; see `spec_next_mode`.
pub fn next_mode(m: ActivityMode, forward: bool) -> (n: ActivityMode)
    ensures
        n == spec_next_mode(m, forward),
        n.spec_index() == if forward { (m.spec_index() + 1) % 4 } else { (m.spec_index() + 3) % 4 },
{
    match m {
        ActivityMode::Minimal => if forward {
            ActivityMode::Compact
        } else {
            ActivityMode::Overlay
        },
        ActivityMode::Compact => if forward {
            ActivityMode::Expanded
        } else {
            ActivityMode::Minimal
        },
        ActivityMode::Expanded => if forward {
            ActivityMode::Overlay
        } else {
            ActivityMode::Compact
        },
        ActivityMode::Overlay => if forward {
            ActivityMode::Minimal
        } else {
            ActivityMode::Expanded
        },
    }
}

/// A step forward and a step back return to the mode they started from, in
/// either order, and four steps the same way go all the way round.
pub proof fn lemma_mode_steps_undo(m: ActivityMode)
    ensures
        spec_next_mode(spec_next_mode(m, true), false) == m,
        spec_next_mode(spec_next_mode(m, false), true) == m,
        spec_next_mode(spec_next_mode(spec_next_mode(spec_next_mode(m, true), true), true), true)
            == m,
        spec_next_mode(m, true) != m,
        spec_next_mode(m, false) != m,
{
}

/// How a child is aligned in its parent, along one axis.
#[derive(Clone, Copy, Debug, PartialEq, Eq, Structural)]
pub enum Align {
    Fill,
    Start,
    End,
    Center,
    Baseline,
}

/// A rectangle: its top-left corner and its size.
#[derive(Clone, Copy, Debug, PartialEq, Eq, Structural)]
pub struct Rect {
    pub x: i32,
    pub y: i32,
    pub width: i32,
    pub height: i32,
}

/// Where a child of length `child_len` starts along an axis of a parent at
/// `parent_pos` of length `parent_len`, and what length it gets; the centre
/// rounds toward zero or up, as `round_up` says. `Fill` and `Baseline` put
/// the child at the parent's start with the parent's length.
pub open spec fn spec_align_span(
    parent_pos: int,
    parent_len: int,
    child_len: int,
    align: Align,
    round_up: bool,
) -> (int, int) {
    match align {
        Align::Start => (parent_pos, child_len),
        Align::End => (parent_pos + (parent_len - child_len), child_len),
        Align::Center => (
            parent_pos + if round_up {
                half_up(parent_len - child_len)
            } else {
                half_toward_zero(parent_len - child_len)
            },
            child_len,
        ),
        _ => (parent_pos, parent_len),
    }
}

/// Where `spec_align_span` puts a child: fill and baseline take the whole
/// parent; otherwise the child keeps its length, starts where the parent
/// starts (start), ends where the parent ends (end), or leaves space on
/// both sides that differs by at most one pixel (center), the extra pixel
/// going before the child when rounding up and after it otherwise, for a
/// child no larger than its parent.
pub proof fn lemma_align_span_places(
    parent_pos: int,
    parent_len: int,
    child_len: int,
    align: Align,
    round_up: bool,
)
    ensures
        ({
            let (pos, len) = spec_align_span(parent_pos, parent_len, child_len, align, round_up);
            let before = pos - parent_pos;
            let after = (parent_pos + parent_len) - (pos + len);
            &&& (align == Align::Fill || align == Align::Baseline) ==> pos == parent_pos && len
                == parent_len
            &&& (align == Align::Start || align == Align::End || align == Align::Center) ==> len
                == child_len
            &&& align == Align::Start ==> before == 0
            &&& align == Align::End ==> after == 0
            &&& align == Align::Center ==> -1 <= before - after <= 1
            &&& align == Align::Center && child_len <= parent_len && round_up ==> 0 <= before
                - after <= 1
            &&& align == Align::Center && child_len <= parent_len && !round_up ==> -1 <= before
                - after <= 0
        }),
{
}

/// Where `spec_mode_span` puts a mode widget, with the offset in half
/// pixels: start and baseline at the parent's start, end so that the child
/// ends where the parent ends, center with equal space on both sides, and
/// fill over the whole parent when the child fits. Unless its natural
/// length is asked for, the child's length is the parent's, kept within
/// the child's range.
pub proof fn lemma_mode_span_places(
    parent_len: int,
    child_min: int,
    child_nat: int,
    align: Align,
    use_natural: bool,
)
    requires
        child_min <= child_nat,
    ensures
        ({
            let (len, offset2) = spec_mode_span(parent_len, child_min, child_nat, align, use_natural);
            let child = if use_natural {
                child_nat
            } else {
                spec_clamp(parent_len, child_min, child_nat)
            };
            &&& !use_natural ==> child_min <= child <= child_nat
            &&& !use_natural && child_min <= parent_len <= child_nat ==> child == parent_len
            &&& (align == Align::Start || align == Align::Baseline) ==> offset2 == 0 && len == child
            &&& align == Align::End ==> len == child && offset2 + 2 * len == 2 * parent_len
            &&& align == Align::Center ==> len == child && offset2 == (2 * parent_len - 2 * len)
                / 2 && 2 * len + 2 * offset2 == 2 * parent_len
            &&& align == Align::Fill && child <= parent_len ==> offset2 == 0 && len == parent_len
            &&& align == Align::Fill && child > parent_len ==> len == child && 2 * len + 2 * offset2
                == 2 * parent_len
        }),
{
}

/// The values that `align_span` computes fit in `i32`.
pub open spec fn align_span_fits(parent_pos: int, parent_len: int, child_len: int) -> bool {
    &&& fits_i32(parent_len - child_len)
    &&& fits_i32(parent_pos + (parent_len - child_len))
    &&& fits_i32(parent_pos + half_up(parent_len - child_len))
    &&& fits_i32(parent_pos + half_toward_zero(parent_len - child_len))
}

/// Places a child along one axis of its parent.
pub fn align_span(parent_pos: i32, parent_len: i32, child_len: i32, align: Align, round_up: bool) -> (r: (
    i32,
    i32,
))
    requires
        align_span_fits(parent_pos as int, parent_len as int, child_len as int),
    ensures
        (r.0 as int, r.1 as int) == spec_align_span(
            parent_pos as int,
            parent_len as int,
            child_len as int,
            align,
            round_up,
        ),
{
    match align {
        Align::Start => (parent_pos, child_len),
        Align::End => (parent_pos + (parent_len - child_len), child_len),
        Align::Center => {
            let d = parent_len - child_len;
            let half = if round_up {
                if d >= 0 {
                    d / 2 + d % 2
                } else {
                    d / 2
                }
            } else {
                d / 2
            };
            (parent_pos + half, child_len)
        },
        _ => (parent_pos, parent_len),
    }
}

/// Where a child with the given minimal size goes in an activity widget's
/// allocation (centring rounds up).
pub fn activity_child_allocation(
    parent: Rect,
    child_width: i32,
    child_height: i32,
    halign: Align,
    valign: Align,
) -> (r: Rect)
    requires
        align_span_fits(parent.x as int, parent.width as int, child_width as int),
        align_span_fits(parent.y as int, parent.height as int, child_height as int),
    ensures
        (r.x as int, r.width as int) == spec_align_span(
            parent.x as int,
            parent.width as int,
            child_width as int,
            halign,
            true,
        ),
        (r.y as int, r.height as int) == spec_align_span(
            parent.y as int,
            parent.height as int,
            child_height as int,
            valign,
            true,
        ),
{
    let (x, width) = align_span(parent.x, parent.width, child_width, halign, true);
    let (y, height) = align_span(parent.y, parent.height, child_height, valign, true);
    Rect { x, y, width, height }
}

/// Where a digit label with the given minimal size goes in a rolling
/// number: centred, rounding toward zero.
pub fn rolling_number_child_allocation(parent: Rect, child_width: i32, child_height: i32) -> (r: Rect)
    requires
        align_span_fits(parent.x as int, parent.width as int, child_width as int),
        align_span_fits(parent.y as int, parent.height as int, child_height as int),
    ensures
        r.x == parent.x + half_toward_zero(parent.width - child_width),
        r.y == parent.y + half_toward_zero(parent.height - child_height),
        r.width == child_width,
        r.height == child_height,
{
    let (x, width) = align_span(parent.x, parent.width, child_width, Align::Center, false);
    let (y, height) = align_span(parent.y, parent.height, child_height, Align::Center, false);
    Rect { x, y, width, height }
}

/// The larger of two (minimum, natural) size pairs, component by component.
pub fn get_max_preferred_size(m1: (i32, i32), m2: (i32, i32)) -> (r: (i32, i32))
    ensures
        r.0 == if m1.0 >= m2.0 { m1.0 } else { m2.0 },
        r.1 == if m1.1 >= m2.1 { m1.1 } else { m2.1 },
{
    (if m1.0 >= m2.0 { m1.0 } else { m2.0 }, if m1.1 >= m2.1 { m1.1 } else { m2.1 })
}

/// The size a mode widget asks for.
///
/// Minimal mode forces the minimal height and width, compact mode the
/// minimal height. A size that is not forced is the requested one where one
/// is set (greater than zero), else the natural one. The result is never
/// below the minimal width and height.
pub open spec fn spec_final_widget_size(
    mode: ActivityMode,
    minimal_height: i32,
    minimal_width: i32,
    width_request: i32,
    height_request: i32,
    natural_width: i32,
    natural_height: i32,
) -> (i32, i32) {
    let height = if mode.spec_forces_height() {
        minimal_height
    } else if height_request > 0 {
        height_request
    } else {
        natural_height
    };
    let width = if mode is Minimal {
        minimal_width
    } else if width_request > 0 {
        width_request
    } else {
        natural_width
    };
    (
        if width >= minimal_width { width } else { minimal_width },
        if height >= minimal_height { height } else { minimal_height },
    )
}

/// The size a mode widget asks for, mode by mode. The minimal mode takes
/// the minimal size. Every other mode takes a positive width request, and
/// otherwise the natural width; the expanded and overlay modes alike take a
/// positive height request, and otherwise the natural height; the compact
/// mode takes the minimal height. No side is ever below the minimal size.
pub proof fn lemma_final_widget_size_rules(
    mode: ActivityMode,
    minimal_height: i32,
    minimal_width: i32,
    width_request: i32,
    height_request: i32,
    natural_width: i32,
    natural_height: i32,
)
    ensures
        ({
            let r = spec_final_widget_size(
                mode,
                minimal_height,
                minimal_width,
                width_request,
                height_request,
                natural_width,
                natural_height,
            );
            &&& mode == ActivityMode::Minimal ==> r == (minimal_width, minimal_height)
            &&& mode != ActivityMode::Minimal && width_request > 0 ==> r.0 == (if width_request
                >= minimal_width {
                width_request
            } else {
                minimal_width
            })
            &&& mode != ActivityMode::Minimal && width_request <= 0 ==> r.0 == (if natural_width
                >= minimal_width {
                natural_width
            } else {
                minimal_width
            })
            &&& mode == ActivityMode::Compact ==> r.1 == minimal_height
            &&& (mode == ActivityMode::Expanded || mode == ActivityMode::Overlay) && height_request
                > 0 ==> r.1 == (if height_request >= minimal_height {
                height_request
            } else {
                minimal_height
            })
            &&& (mode == ActivityMode::Expanded || mode == ActivityMode::Overlay) && height_request
                <= 0 ==> r.1 == (if natural_height >= minimal_height {
                natural_height
            } else {
                minimal_height
            })
        }),
{
}

/// The size a mode widget asks for; see `spec_final_widget_size`.
/// `natural_width` is measured for the minimal height in the modes that
/// force it.
pub fn get_final_widget_size(
    mode: ActivityMode,
    minimal_height: i32,
    minimal_width: i32,
    width_request: i32,
    height_request: i32,
    natural_width: i32,
    natural_height: i32,
) -> (r: (i32, i32))
    ensures
        r == spec_final_widget_size(
            mode,
            minimal_height,
            minimal_width,
            width_request,
            height_request,
            natural_width,
            natural_height,
        ),
        r.0 >= minimal_width,
        r.1 >= minimal_height,
{
    let force_height = match mode {
        ActivityMode::Minimal | ActivityMode::Compact => true,
        _ => false,
    };
    let force_width = match mode {
        ActivityMode::Minimal => true,
        _ => false,
    };
    let height = if force_height {
        minimal_height
    } else if height_request > 0 {
        height_request
    } else {
        natural_height
    };
    let width = if force_width {
        minimal_width
    } else if width_request > 0 {
        width_request
    } else {
        natural_width
    };
    (
        if width >= minimal_width { width } else { minimal_width },
        if height >= minimal_height { height } else { minimal_height },
    )
}

/// The size an activity takes in a mode, from the mode widget's size
/// requests (`-1` for none) and its current allocation: minimal and compact
/// modes take the minimal height.
pub fn get_allocated_widget_size(
    mode: ActivityMode,
    minimal_height: i32,
    width_request: i32,
    height_request: i32,
    allocated_width: i32,
    allocated_height: i32,
) -> (r: (i32, i32))
    ensures
        r.1 == if mode.spec_forces_height() {
            minimal_height
        } else if height_request != -1 {
            height_request
        } else {
            allocated_height
        },
        r.0 == if width_request != -1 { width_request } else { allocated_width },
{
    let height = match mode {
        ActivityMode::Minimal | ActivityMode::Compact => minimal_height,
        ActivityMode::Expanded | ActivityMode::Overlay => {
            if height_request != -1 {
                height_request
            } else {
                allocated_height
            }
        },
    };
    let width = if width_request != -1 {
        width_request
    } else {
        allocated_width
    };
    (width, height)
}

/// `value` clamped to `[lo, hi]`.
pub open spec fn spec_clamp(value: int, lo: int, hi: int) -> int {
    if value < lo {
        lo
    } else if value > hi {
        hi
    } else {
        value
    }
}

/// Where a mode widget goes in the activity along one axis, given the
/// parent's length and the child's (minimum, natural) lengths: the child's
/// length, and its offset counted in half pixels.
///
/// The child takes the parent's length clamped to its own range (its natural
/// length when `use_natural`). Start and baseline put it at 0, end at the
/// far side; fill stretches it to the parent's length, centring a child that
/// is larger; anything else centres it.
pub open spec fn spec_mode_span(
    parent_len: int,
    child_min: int,
    child_nat: int,
    align: Align,
    use_natural: bool,
) -> (int, int) {
    let child = if use_natural {
        child_nat
    } else {
        spec_clamp(parent_len, child_min, child_nat)
    };
    match align {
        Align::Start | Align::Baseline => (child, 0),
        Align::End => (child, 2 * (parent_len - child)),
        Align::Fill => (
            if parent_len >= child { parent_len } else { child },
            if child > parent_len { parent_len - child } else { 0 },
        ),
        Align::Center => (child, parent_len - child),
    }
}

/// One axis of `mode_child_allocation`; see `spec_mode_span`.
pub fn mode_span(parent_len: i32, child_min: i32, child_nat: i32, align: Align, use_natural: bool) -> (r: (
    i32,
    i64,
))
    requires
        child_min <= child_nat,
    ensures
        (r.0 as int, r.1 as int) == spec_mode_span(
            parent_len as int,
            child_min as int,
            child_nat as int,
            align,
            use_natural,
        ),
{
    let child = if use_natural {
        child_nat
    } else if parent_len < child_min {
        child_min
    } else if parent_len > child_nat {
        child_nat
    } else {
        parent_len
    };
    let diff: i64 = parent_len as i64 - child as i64;
    match align {
        Align::Start | Align::Baseline => (child, 0),
        Align::End => (child, 2 * diff),
        Align::Fill => (
            if parent_len >= child { parent_len } else { child },
            if child > parent_len { diff } else { 0 },
        ),
        Align::Center => (child, diff),
    }
}

/// Size and offset of a mode widget in its activity: `(width, height,
/// x offset, y offset)`, offsets in half pixels. Along the width the child's
/// natural length is taken when `use_max_width`.
pub fn mode_child_allocation(
    parent_width: i32,
    parent_height: i32,
    child_width: (i32, i32),
    child_height: (i32, i32),
    halign: Align,
    valign: Align,
    use_max_width: bool,
) -> (r: (i32, i32, i64, i64))
    requires
        child_width.0 <= child_width.1,
        child_height.0 <= child_height.1,
    ensures
        (r.0 as int, r.2 as int) == spec_mode_span(
            parent_width as int,
            child_width.0 as int,
            child_width.1 as int,
            halign,
            use_max_width,
        ),
        (r.1 as int, r.3 as int) == spec_mode_span(
            parent_height as int,
            child_height.0 as int,
            child_height.1 as int,
            valign,
            false,
        ),
{
    let (width, x2) = mode_span(parent_width, child_width.0, child_width.1, halign, use_max_width);
    let (height, y2) = mode_span(parent_height, child_height.0, child_height.1, valign, false);
    (width, height, x2, y2)
}

/// What the activity layout measures along an axis: at least the minimal
/// height, both as minimum and as natural size, from the background child's
/// (minimum, natural) measure when there is one; no baselines.
pub fn activity_layout_measure(min_height: i32, child: Option<(i32, i32)>) -> (r: (i32, i32, i32, i32))
    ensures
        r.2 == -1,
        r.3 == -1,
        child is None ==> r.0 == min_height && r.1 == min_height,
        child matches Some(c) ==> r.0 == (if min_height >= c.0 { min_height } else { c.0 })
            && r.1 == (if min_height >= c.1 { min_height } else { c.1 }),
{
    match child {
        Some((min_size, nat_size)) => (
            if min_height >= min_size { min_height } else { min_size },
            if min_height >= nat_size { min_height } else { nat_size },
            -1,
            -1,
        ),
        None => (min_height, min_height, -1, -1),
    }
}

/// Four values, one per mode, where `mode` gets `mode_value` and the others
/// get `other_values`.
pub fn property_slice_for_mode<T: Copy>(mode: ActivityMode, mode_value: T, other_values: T) -> (r: [T; 4])
    ensures
        forall|i: int|
            0 <= i < 4 ==> r@[i] == if i == mode.spec_index() {
                mode_value
            } else {
                other_values
            },
{
    match mode {
        ActivityMode::Minimal => [mode_value, other_values, other_values, other_values],
        ActivityMode::Compact => [other_values, mode_value, other_values, other_values],
        ActivityMode::Expanded => [other_values, other_values, mode_value, other_values],
        ActivityMode::Overlay => [other_values, other_values, other_values, mode_value],
    }
}

} // verus!
