//! State of the small animated widgets: a rolling character and a rolling
//! number swap two labels, one rolling in while the other rolls out; and the
//! size arithmetic of the rolling number and of the scrolling label.
use vstd::prelude::*;

use crate::layout::fits_i32;

verus! {

/// One of the two labels of a rolling widget.
#[derive(Clone, Copy, Debug, PartialEq, Eq, Structural)]
pub enum LabelSlot {
    First,
    Second,
}

impl LabelSlot {
    pub open spec fn spec_other(self) -> LabelSlot {
        match self {
            LabelSlot::First => LabelSlot::Second,
            LabelSlot::Second => LabelSlot::First,
        }
    }
}

/// The other label is never the same label, and the other of the other is
/// the label itself.
pub proof fn lemma_other_label(l: LabelSlot)
    ensures
        l.spec_other() != l,
        l.spec_other().spec_other() == l,
{
}

/// The state of a rolling character: the character shown, and whether the
/// first label holds it.
#[derive(Clone, Copy, Debug, PartialEq, Eq, Structural)]
pub struct RollingCharState {
    pub current_char: char,
    pub primary_label_active: bool,
}

impl RollingCharState {
    /// The label that shows the current character.
    pub open spec fn spec_active_label(self) -> LabelSlot {
        if self.primary_label_active {
            LabelSlot::First
        } else {
            LabelSlot::Second
        }
    }

    /// A dash, shown by the first label.
    pub fn new() -> (s: Self)
        ensures
            s.current_char == '-',
            s.primary_label_active,
    {
        RollingCharState { current_char: '-', primary_label_active: true }
    }

    /// Shows `c`: it is written into the label that does not show the current
    /// character, which rolls in while the other rolls out. Returns the
    /// label written to.
    pub fn set_current_char(&mut self, c: char) -> (written: LabelSlot)
        ensures
            final(self).current_char == c,
            written == old(self).spec_active_label().spec_other(),
            final(self).spec_active_label() == written,
    {
        let written = if self.primary_label_active {
            LabelSlot::Second
        } else {
            LabelSlot::First
        };
        self.current_char = c;
        self.primary_label_active = !self.primary_label_active;
        written
    }
}

/// Each new character goes into the other label, so two changes in a row
/// come back to the label they started from.
pub proof fn lemma_rolling_char_alternates(s: RollingCharState, c1: char, c2: char)
    ensures
        ({
            let once = RollingCharState { current_char: c1, primary_label_active: !s.primary_label_active };
            let twice = RollingCharState { current_char: c2, primary_label_active: !once.primary_label_active };
            &&& once.spec_active_label() == s.spec_active_label().spec_other()
            &&& twice.spec_active_label() == s.spec_active_label()
        }),
{
}

/// The state of a rolling number: the digit shown, the one before it,
/// whether the first label holds the one before, and whether changes are
/// animated.
#[derive(Clone, Copy, Debug, PartialEq, Eq, Structural)]
pub struct RollingNumberState {
    pub number: char,
    pub last_number: char,
    pub first_is_prev: bool,
    pub transition_enabled: bool,
}

impl RollingNumberState {
    /// The label that holds the previous digit.
    pub open spec fn spec_prev_label(self) -> LabelSlot {
        if self.first_is_prev {
            LabelSlot::First
        } else {
            LabelSlot::Second
        }
    }

    /// Zero shown, animated, the second label holding the previous digit.
    pub fn new() -> (s: Self)
        ensures
            s.number == '0',
            s.last_number == '0',
            !s.first_is_prev,
            s.transition_enabled,
    {
        RollingNumberState { number: '0', last_number: '0', first_is_prev: false, transition_enabled: true }
    }

    /// Shows `c`: the labels swap roles, and `c` is written into the one that
    /// now holds the next digit. Returns that label, and whether the change
    /// is animated.
    pub fn set_number(&mut self, c: char) -> (r: (LabelSlot, bool))
        ensures
            final(self).number == c,
            final(self).last_number == old(self).number,
            final(self).first_is_prev == !old(self).first_is_prev,
            final(self).transition_enabled == old(self).transition_enabled,
            r.0 == final(self).spec_prev_label().spec_other(),
            r.0 == old(self).spec_prev_label(),
            r.1 == old(self).transition_enabled,
    {
        self.last_number = self.number;
        self.number = c;
        self.first_is_prev = !self.first_is_prev;
        let written = if self.first_is_prev {
            LabelSlot::Second
        } else {
            LabelSlot::First
        };
        (written, self.transition_enabled)
    }

    /// The labels holding the previous and the next digit.
    pub fn prev_next_labels(&self) -> (r: (LabelSlot, LabelSlot))
        ensures
            r.0 == self.spec_prev_label(),
            r.1 == self.spec_prev_label().spec_other(),
    {
        if self.first_is_prev {
            (LabelSlot::First, LabelSlot::Second)
        } else {
            (LabelSlot::Second, LabelSlot::First)
        }
    }
}

/// `v` clamped to the range of `i32`.
pub open spec fn spec_saturate_i32(v: int) -> int {
    if v < i32::MIN {
        i32::MIN as int
    } else if v > i32::MAX {
        i32::MAX as int
    } else {
        v
    }
}

/// One and a half times `h`, rounded toward zero and saturated to `i32`.
pub open spec fn spec_one_and_a_half(h: i32) -> int {
    let v = 3 * h;
    spec_saturate_i32(if v >= 0 { v / 2 } else { -((-v) / 2) })
}

/// One and a half times `h`, as the rolling number scales its labels'
/// heights; see `spec_one_and_a_half`.
pub fn one_and_a_half(h: i32) -> (r: i32)
    ensures
        r == spec_one_and_a_half(h),
{
    let v: i64 = 3 * (h as i64);
    let half: i64 = v / 2;
    if half < i32::MIN as i64 {
        i32::MIN
    } else if half > i32::MAX as i64 {
        i32::MAX
    } else {
        half as i32
    }
}

/// The rolling number's preferred height: the larger of its labels'
/// minimum heights, scaled by one and a half, as both minimum and natural
/// height.
pub fn rolling_number_preferred_height(first: (i32, i32), second: (i32, i32)) -> (r: (i32, i32))
    ensures
        r.0 == r.1,
        r.0 == if spec_one_and_a_half(first.0) >= spec_one_and_a_half(second.0) {
            spec_one_and_a_half(first.0)
        } else {
            spec_one_and_a_half(second.0)
        },
{
    let a = one_and_a_half(first.0);
    let b = one_and_a_half(second.0);
    let m = if a >= b { a } else { b };
    (m, m)
}

/// The rolling number's preferred width: the larger of its labels' minimum
/// widths, as both minimum and natural width.
pub fn rolling_number_preferred_width(first: (i32, i32), second: (i32, i32)) -> (r: (i32, i32))
    ensures
        r.0 == r.1,
        r.0 == if first.0 >= second.0 { first.0 } else { second.0 },
{
    let m = if first.0 >= second.0 { first.0 } else { second.0 };
    (m, m)
}

/// What a scrolling label measures sideways, from its box's measure
/// `(minimum, natural, minimum baseline, natural baseline)`: no minimum
/// width, the natural width capped at the requested width (when positive),
/// and the minimum baseline kept within `[-1, 0]`.
pub fn scrolling_label_measure_horizontal(measure: (i32, i32, i32, i32), width_request: i32) -> (r: (
    i32,
    i32,
    i32,
    i32,
))
    ensures
        r.0 == 0,
        r.1 == if width_request > 0 {
            if measure.1 < 0 {
                0i32
            } else if measure.1 > width_request {
                width_request
            } else {
                measure.1
            }
        } else {
            measure.1
        },
        r.2 == if measure.2 < -1 {
            -1i32
        } else if measure.2 > 0 {
            0i32
        } else {
            measure.2
        },
        r.3 == measure.3,
{
    let natural: i32 = if width_request > 0 {
        if measure.1 < 0 {
            0
        } else if measure.1 > width_request {
            width_request
        } else {
            measure.1
        }
    } else {
        measure.1
    };
    let baseline: i32 = if measure.2 < -1 {
        -1
    } else if measure.2 > 0 {
        0
    } else {
        measure.2
    };
    (0, natural, baseline, measure.3)
}

/// Whether a scrolling label scrolls: its label is wider than the label's
/// own width less a fade at each side.
pub fn scrolling_label_is_active(width: i32, fade_size: i32, label_width: i32) -> (b: bool)
    requires
        fits_i32(2 * fade_size),
        fits_i32(width - 2 * fade_size),
    ensures
        b == (width - 2 * fade_size < label_width),
{
    width - 2 * fade_size < label_width
}

} // verus!
