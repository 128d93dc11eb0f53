//! Local style state of widgets: random class names, and the settings from
//! which a widget's own style sheet is written. Each setter says whether the
//! style sheet has to be written again.
use vstd::prelude::*;

use crate::config_variable::{spec_config_set, ConfigVariable};
use crate::layout::ActivityMode;
use crate::text::{push_decimal, push_signed_decimal, spec_decimal, spec_signed_decimal};

verus! {

/// Whether `c` is an ASCII letter or digit.
pub open spec fn is_ascii_alphanumeric(c: char) -> bool {
    ('a' <= c && c <= 'z') || ('A' <= c && c <= 'Z') || ('0' <= c && c <= '9')
}

#[verifier::external_type_specification]
#[verifier::external_body]
pub struct ExThreadRng(rand::rngs::ThreadRng);

/// `rand::thread_rng`: a handle on the thread's random number generator.
#[verifier::external_body]
fn thread_rng() -> rand::rngs::ThreadRng {
    rand::thread_rng()
}

/// `Rng::sample` with `rand::distributions::Alphanumeric`: an ASCII letter or
/// digit, drawn at random (the distribution picks among `A-Z`, `a-z` and
/// `0-9`). Which one comes out is left open.
#[verifier::external_body]
fn sample_alphanumeric(rng: &mut rand::rngs::ThreadRng) -> (c: u8)
    ensures
        is_ascii_alphanumeric(c as char),
{
    rand::Rng::sample(rng, rand::distributions::Alphanumeric)
}

/// `String::push`: appends `c` to `s`.
#[verifier::external_body]
fn push_char(s: &mut String, c: char)
    ensures
        final(s)@ == old(s)@.push(c),
{
    s.push(c)
}

/// `prefix` followed by `len` random ASCII letters and digits.
pub fn random_name(prefix: &str, len: usize) -> (s: String)
    ensures
        s@.len() == prefix@.len() + len,
        s@.subrange(0, prefix@.len() as int) == prefix@,
        forall|i: int|
            prefix@.len() <= i < s@.len() ==> is_ascii_alphanumeric(#[trigger] s@[i]),
{
    let mut s = prefix.to_string();
    let mut rng = thread_rng();
    let mut i: usize = 0;
    while i < len
        invariant
            0 <= i <= len,
            s@.len() == prefix@.len() + i,
            s@.subrange(0, prefix@.len() as int) == prefix@,
            forall|j: int| prefix@.len() <= j < s@.len() ==> is_ascii_alphanumeric(#[trigger] s@[j]),
        decreases len - i,
    {
        let c = sample_alphanumeric(&mut rng);
        let ghost before = s@;
        push_char(&mut s, c as char);
        assert(s@.subrange(0, prefix@.len() as int) =~= before.subrange(0, prefix@.len() as int));
        i += 1;
    }
    s
}

/// The default height and width of an activity, in pixels.
pub const MINIMAL_HEIGHT: i32 = 40;

/// Style settings of an activity widget: its class name, the size of its
/// background, whether it stretches on resize, its corner radius and how
/// long its resize transition lasts (pinned once a module sets it).
#[derive(Clone, Debug)]
pub struct ActivityWidgetLocalCssContext {
    name: String,
    width: i32,
    height: i32,
    stretch_on_resize: bool,
    border_radius: i32,
    transition_duration: ConfigVariable<u64>,
}

impl ActivityWidgetLocalCssContext {
    pub closed spec fn spec_name(&self) -> Seq<char> {
        self.name@
    }

    pub closed spec fn spec_size(&self) -> (i32, i32) {
        (self.width, self.height)
    }

    pub closed spec fn spec_stretch_on_resize(&self) -> bool {
        self.stretch_on_resize
    }

    pub closed spec fn spec_border_radius(&self) -> i32 {
        self.border_radius
    }

    pub closed spec fn spec_transition_duration(&self) -> ConfigVariable<u64> {
        self.transition_duration
    }

    /// A context for the class `name`: a square of the minimal height,
    /// stretching on resize, fully rounded, with no resize transition.
    pub fn new(name: &str) -> (c: Self)
        ensures
            c.spec_name() == name@,
            c.spec_size() == (MINIMAL_HEIGHT, MINIMAL_HEIGHT),
            c.spec_stretch_on_resize(),
            c.spec_border_radius() == 100,
            c.spec_transition_duration().value == 0,
            !c.spec_transition_duration().set_by_module,
    {
        Self {
            name: name.to_string(),
            width: MINIMAL_HEIGHT,
            height: MINIMAL_HEIGHT,
            stretch_on_resize: true,
            border_radius: 100,
            transition_duration: ConfigVariable::new(0),
        }
    }

    pub fn get_name(&self) -> (s: &str)
        ensures
            s@ == self.spec_name(),
    {
        self.name.as_str()
    }

    pub fn get_size(&self) -> (s: (i32, i32))
        ensures
            s == self.spec_size(),
    {
        (self.width, self.height)
    }

    pub fn get_stretch_on_resize(&self) -> (b: bool)
        ensures
            b == self.spec_stretch_on_resize(),
    {
        self.stretch_on_resize
    }

    pub fn get_border_radius(&self) -> (r: i32)
        ensures
            r == self.spec_border_radius(),
    {
        self.border_radius
    }

    pub fn get_transition_duration(&self) -> (d: u64)
        ensures
            d == self.spec_transition_duration().value,
    {
        self.transition_duration.value
    }

    pub fn get_transition_duration_set_by_module(&self) -> (b: bool)
        ensures
            b == self.spec_transition_duration().set_by_module,
    {
        self.transition_duration.set_by_module
    }

    /// Renames the class; the style sheet is always written again.
    pub fn set_name(&mut self, name: &str) -> (changed: bool)
        ensures
            final(self).spec_name() == name@,
            final(self).spec_size() == old(self).spec_size(),
            final(self).spec_stretch_on_resize() == old(self).spec_stretch_on_resize(),
            final(self).spec_border_radius() == old(self).spec_border_radius(),
            final(self).spec_transition_duration() == old(self).spec_transition_duration(),
            changed,
    {
        self.name = name.to_string();
        true
    }

    /// Sets the background's size; nothing is written for the same size.
    pub fn set_size(&mut self, size: (i32, i32)) -> (changed: bool)
        ensures
            final(self).spec_size() == size,
            changed == (old(self).spec_size() != size),
            final(self).spec_name() == old(self).spec_name(),
            final(self).spec_stretch_on_resize() == old(self).spec_stretch_on_resize(),
            final(self).spec_border_radius() == old(self).spec_border_radius(),
            final(self).spec_transition_duration() == old(self).spec_transition_duration(),
    {
        if self.width == size.0 && self.height == size.1 {
            return false;
        }
        self.width = size.0;
        self.height = size.1;
        true
    }

    /// Sets whether the background stretches on resize.
    pub fn set_stretch_on_resize(&mut self, stretch: bool) -> (changed: bool)
        ensures
            final(self).spec_stretch_on_resize() == stretch,
            changed == (old(self).spec_stretch_on_resize() != stretch),
            final(self).spec_name() == old(self).spec_name(),
            final(self).spec_size() == old(self).spec_size(),
            final(self).spec_border_radius() == old(self).spec_border_radius(),
            final(self).spec_transition_duration() == old(self).spec_transition_duration(),
    {
        if self.stretch_on_resize == stretch {
            return false;
        }
        self.stretch_on_resize = stretch;
        true
    }

    /// Sets the corner radius.
    pub fn set_border_radius(&mut self, border_radius: i32) -> (changed: bool)
        ensures
            final(self).spec_border_radius() == border_radius,
            changed == (old(self).spec_border_radius() != border_radius),
            final(self).spec_name() == old(self).spec_name(),
            final(self).spec_size() == old(self).spec_size(),
            final(self).spec_stretch_on_resize() == old(self).spec_stretch_on_resize(),
            final(self).spec_transition_duration() == old(self).spec_transition_duration(),
    {
        if self.border_radius == border_radius {
            return false;
        }
        self.border_radius = border_radius;
        true
    }

    /// Sets how long the resize transition lasts, in milliseconds, on behalf
    /// of a module when `module` holds: a module's value wins over the
    /// configuration file's, and pins the setting even where it equals the
    /// current one. The style sheet changes only with the duration.
    pub fn set_transition_duration(&mut self, transition_duration: u64, module: bool) -> (changed: bool)
        ensures
            final(self).spec_transition_duration() == spec_config_set(
                old(self).spec_transition_duration(),
                transition_duration,
                module,
            ),
            changed == (old(self).spec_transition_duration().value != transition_duration && (module
                || !old(self).spec_transition_duration().set_by_module)),
            final(self).spec_name() == old(self).spec_name(),
            final(self).spec_size() == old(self).spec_size(),
            final(self).spec_stretch_on_resize() == old(self).spec_stretch_on_resize(),
            final(self).spec_border_radius() == old(self).spec_border_radius(),
    {
        let same = self.transition_duration.value == transition_duration;
        let pinned = self.transition_duration.set_by_module;
        self.transition_duration.set(transition_duration, module);
        !same && (module || !pinned)
    }
}

/// The rule that rounds the corners of one mode's widget.
pub open spec fn spec_border_rule(name: Seq<char>, selector: Seq<char>, radius: i32) -> Seq<char> {
    "\n                ."@ + name + selector + spec_signed_decimal(radius as int)
        + "px;\n                }"@
}

/// Appends the rule that rounds the corners of one mode's widget.
fn push_border_rule(s: &mut String, name: &str, selector: &str, radius: i32)
    ensures
        final(s)@ == old(s)@ + spec_border_rule(name@, selector@, radius),
{
    s.append("\n                .");
    s.append(name);
    s.append(selector);
    push_signed_decimal(s, radius as i64);
    s.append("px;\n                }");
    assert(final(s)@ =~= old(s)@ + spec_border_rule(name@, selector@, radius));
}

/// Whether `part` occurs in `text`.
pub open spec fn spec_occurs(text: Seq<char>, part: Seq<char>) -> bool {
    exists|i: int|
        0 <= i && i + part.len() <= text.len() && #[trigger] text.subrange(i, i + part.len()) == part
}

/// The rule that rounds the corners of the widget of `mode`, in the style
/// sheet of the widget named `name`: ".<name> .mode-<mode>{ border-radius:
/// <radius>px; }".
pub open spec fn spec_mode_radius_rule(name: Seq<char>, mode: ActivityMode, radius: i32) -> Seq<char> {
    "\n                ."@ + name + " .mode-"@ + mode.spec_name() + "{\n                    border-radius: "@ + spec_signed_decimal(
        radius as int,
    ) + "px;\n                }"@
}

/// The selector of each mode's rule is ".mode-" followed by the mode's name.
proof fn lemma_mode_selectors(name: Seq<char>, radius: i32)
    ensures
        spec_border_rule(name, " .mode-compact{\n                    border-radius: "@, radius) == spec_mode_radius_rule(
            name,
            ActivityMode::Compact,
            radius,
        ),
        spec_border_rule(name, " .mode-minimal{\n                    border-radius: "@, radius) == spec_mode_radius_rule(
            name,
            ActivityMode::Minimal,
            radius,
        ),
        spec_border_rule(name, " .mode-expanded{\n                    border-radius: "@, radius) == spec_mode_radius_rule(
            name,
            ActivityMode::Expanded,
            radius,
        ),
        spec_border_rule(name, " .mode-overlay{\n                    border-radius: "@, radius) == spec_mode_radius_rule(
            name,
            ActivityMode::Overlay,
            radius,
        ),
{
    reveal_strlit(" .mode-compact{\n                    border-radius: ");
    reveal_strlit(" .mode-minimal{\n                    border-radius: ");
    reveal_strlit(" .mode-expanded{\n                    border-radius: ");
    reveal_strlit(" .mode-overlay{\n                    border-radius: ");
    reveal_strlit(" .mode-");
    reveal_strlit("{\n                    border-radius: ");
    let pre = "\n                ."@ + name;
    let post = spec_signed_decimal(radius as int) + "px;\n                }"@;
    assert(" .mode-compact{\n                    border-radius: "@ =~= " .mode-"@ + ActivityMode::Compact.spec_name() + "{\n                    border-radius: "@);
    assert(" .mode-minimal{\n                    border-radius: "@ =~= " .mode-"@ + ActivityMode::Minimal.spec_name() + "{\n                    border-radius: "@);
    assert(" .mode-expanded{\n                    border-radius: "@ =~= " .mode-"@ + ActivityMode::Expanded.spec_name() + "{\n                    border-radius: "@);
    assert(" .mode-overlay{\n                    border-radius: "@ =~= " .mode-"@ + ActivityMode::Overlay.spec_name() + "{\n                    border-radius: "@);
    assert(spec_border_rule(name, " .mode-compact{\n                    border-radius: "@, radius) =~= spec_mode_radius_rule(
        name,
        ActivityMode::Compact,
        radius,
    ));
    assert(spec_border_rule(name, " .mode-minimal{\n                    border-radius: "@, radius) =~= spec_mode_radius_rule(
        name,
        ActivityMode::Minimal,
        radius,
    ));
    assert(spec_border_rule(name, " .mode-expanded{\n                    border-radius: "@, radius) =~= spec_mode_radius_rule(
        name,
        ActivityMode::Expanded,
        radius,
    ));
    assert(spec_border_rule(name, " .mode-overlay{\n                    border-radius: "@, radius) =~= spec_mode_radius_rule(
        name,
        ActivityMode::Overlay,
        radius,
    ));
}

/// The style sheet sizes the background and times its transition with the
/// widget's own settings: "min-width: <width>px;", "min-height:
/// <height>px;" and "transition-duration: <duration>ms;" occur in it.
pub proof fn lemma_css_sizes_background(c: ActivityWidgetLocalCssContext)
    ensures
        spec_occurs(
            c.spec_css(),
            "min-width: "@ + spec_signed_decimal(c.spec_size().0 as int) + "px;"@,
        ),
        spec_occurs(
            c.spec_css(),
            "min-height: "@ + spec_signed_decimal(c.spec_size().1 as int) + "px;"@,
        ),
        spec_occurs(
            c.spec_css(),
            "transition-duration: "@ + spec_decimal(c.spec_transition_duration().value as nat)
                + "ms;"@,
        ),
{
    reveal_strlit(" .activity-background{ \n                    min-width: ");
    reveal_strlit("px; \n                    min-height: ");
    reveal_strlit("px; \n                    transition-property: min-width, min-height;\n                    transition-duration: ");
    reveal_strlit("ms;\n                }");
    reveal_strlit(".");
    reveal_strlit("min-width: ");
    reveal_strlit("min-height: ");
    reveal_strlit("transition-duration: ");
    reveal_strlit("px;");
    reveal_strlit("ms;");
    let (w, h) = c.spec_size();
    let dw = spec_signed_decimal(w as int);
    let dh = spec_signed_decimal(h as int);
    let dd = spec_decimal(c.spec_transition_duration().value as nat);
    let a = "."@ + c.spec_name() + " .activity-background{ \n                    min-width: "@;
    let b = a + dw + "px; \n                    min-height: "@;
    let e = b + dh + "px; \n                    transition-property: min-width, min-height;\n                    transition-duration: "@;
    let base = e + dd + "ms;\n                }"@;
    let css = c.spec_css();
    assert(css.subrange(0, base.len() as int) =~= base);
    assert(css.len() >= base.len());
    let pw = "min-width: "@ + dw + "px;"@;
    let iw = a.len() - 11;
    assert(base.subrange(iw, iw + pw.len()) =~= pw);
    assert(css.subrange(iw, iw + pw.len()) =~= pw);
    let ph = "min-height: "@ + dh + "px;"@;
    let ih = b.len() - 12;
    assert(base.subrange(ih, ih + ph.len()) =~= ph);
    assert(css.subrange(ih, ih + ph.len()) =~= ph);
    let pd = "transition-duration: "@ + dd + "ms;"@;
    let id = e.len() - 21;
    assert(base.subrange(id, id + pd.len()) =~= pd);
    assert(css.subrange(id, id + pd.len()) =~= pd);
}

/// When the background does not stretch on resize, the style sheet rounds
/// the corners of every mode's widget with the widget's corner radius: the
/// rule ".<name> .mode-<mode>{ border-radius: <radius>px; }" occurs in it for
/// each of the four modes.
pub proof fn lemma_css_rounds_every_mode(c: ActivityWidgetLocalCssContext, mode: ActivityMode)
    requires
        !c.spec_stretch_on_resize(),
    ensures
        spec_occurs(c.spec_css(), spec_mode_radius_rule(c.spec_name(), mode, c.spec_border_radius())),
{
    let name = c.spec_name();
    let r = c.spec_border_radius();
    lemma_mode_selectors(name, r);
    let css = c.spec_css();
    let (w, h) = c.spec_size();
    let base = "."@ + c.spec_name() + " .activity-background{ \n                    min-width: "@
        + spec_signed_decimal(w as int) + "px; \n                    min-height: "@
        + spec_signed_decimal(h as int)
        + "px; \n                    transition-property: min-width, min-height;\n                    transition-duration: "@
        + spec_decimal(c.spec_transition_duration().value as nat) + "ms;\n                }"@;
    let rc = spec_mode_radius_rule(name, ActivityMode::Compact, r);
    let rm = spec_mode_radius_rule(name, ActivityMode::Minimal, r);
    let re = spec_mode_radius_rule(name, ActivityMode::Expanded, r);
    let ro = spec_mode_radius_rule(name, ActivityMode::Overlay, r);
    assert(css == base + rc + rm + re + ro);
    let part = spec_mode_radius_rule(name, mode, r);
    let i: int = match mode {
        ActivityMode::Compact => base.len() as int,
        ActivityMode::Minimal => (base.len() + rc.len()) as int,
        ActivityMode::Expanded => (base.len() + rc.len() + rm.len()) as int,
        ActivityMode::Overlay => (base.len() + rc.len() + rm.len() + re.len()) as int,
    };
    assert(css.subrange(i, i + part.len()) =~= part);
}

impl ActivityWidgetLocalCssContext {
    /// The style sheet of the widget: the background's minimal size and its
    /// resize transition; when the background does not stretch on resize,
    /// the corner radius of each mode's widget as well.
    pub open spec fn spec_css(&self) -> Seq<char> {
        let (w, h) = self.spec_size();
        let base = "."@ + self.spec_name() + " .activity-background{ \n                    min-width: "@
            + spec_signed_decimal(w as int) + "px; \n                    min-height: "@
            + spec_signed_decimal(h as int)
            + "px; \n                    transition-property: min-width, min-height;\n                    transition-duration: "@
            + spec_decimal(self.spec_transition_duration().value as nat)
            + "ms;\n                }"@;
        if self.spec_stretch_on_resize() {
            base
        } else {
            let r = self.spec_border_radius();
            base + spec_border_rule(self.spec_name(), " .mode-compact{\n                    border-radius: "@, r)
                + spec_border_rule(self.spec_name(), " .mode-minimal{\n                    border-radius: "@, r)
                + spec_border_rule(self.spec_name(), " .mode-expanded{\n                    border-radius: "@, r)
                + spec_border_rule(self.spec_name(), " .mode-overlay{\n                    border-radius: "@, r)
        }
    }

    /// The style sheet of the widget; see `spec_css`.
    pub fn css(&self) -> (s: String)
        ensures
            s@ == self.spec_css(),
    {
        let mut s = ".".to_string();
        s.append(self.name.as_str());
        s.append(" .activity-background{ \n                    min-width: ");
        push_signed_decimal(&mut s, self.width as i64);
        s.append("px; \n                    min-height: ");
        push_signed_decimal(&mut s, self.height as i64);
        s.append("px; \n                    transition-property: min-width, min-height;\n                    transition-duration: ");
        push_decimal(&mut s, self.transition_duration.value as u128);
        s.append("ms;\n                }");
        if !self.stretch_on_resize {
            let name = self.name.as_str();
            let r = self.border_radius;
            push_border_rule(&mut s, name, " .mode-compact{\n                    border-radius: ", r);
            push_border_rule(&mut s, name, " .mode-minimal{\n                    border-radius: ", r);
            push_border_rule(&mut s, name, " .mode-expanded{\n                    border-radius: ", r);
            push_border_rule(&mut s, name, " .mode-overlay{\n                    border-radius: ", r);
        }
        assert(s@ =~= self.spec_css());
        s
    }
}

impl Default for ActivityWidgetLocalCssContext {
    /// A context for a random class name of six ASCII letters and digits.
    fn default() -> (c: Self)
        ensures
            c.spec_name().len() == 6,
            forall|i: int| 0 <= i < 6 ==> is_ascii_alphanumeric(#[trigger] c.spec_name()[i]),
            c.spec_size() == (MINIMAL_HEIGHT, MINIMAL_HEIGHT),
            c.spec_stretch_on_resize(),
            c.spec_border_radius() == 100,
            c.spec_transition_duration().value == 0,
            !c.spec_transition_duration().set_by_module,
    {
        let empty = "";
        proof {
            reveal_strlit("");
        }
        let name = random_name(empty, 6);
        Self::new(name.as_str())
    }
}

/// Whether a scrolling label's scroll animation runs, how far it scrolls,
/// and which of the two identical animations it uses: switching between them
/// restarts the animation.
#[derive(Clone, Copy, Debug, PartialEq, Eq, Structural)]
pub struct ScrollAnimationState {
    pub size: i32,
    pub active: bool,
    pub anim_restart_flag: bool,
}

impl ScrollAnimationState {
    /// Active, with nothing to scroll, on the first animation.
    pub fn new() -> (s: Self)
        ensures
            s.size == 0,
            s.active,
            !s.anim_restart_flag,
    {
        ScrollAnimationState { size: 0, active: true, anim_restart_flag: false }
    }

    /// Turns the animation on or off for a scroll of `size` pixels; the
    /// animation restarts when it is on and the size changes. Returns
    /// whether the style sheet has to be written again.
    pub fn set_active(&mut self, active: bool, size: i32) -> (changed: bool)
        ensures
            changed == (old(self).active != active || old(self).size != size),
            final(self).active == active,
            final(self).size == size,
            final(self).anim_restart_flag == (old(self).anim_restart_flag != (active && old(
                self,
            ).size != size)),
    {
        if self.active == active && self.size == size {
            return false;
        }
        if active && self.size != size {
            self.anim_restart_flag = !self.anim_restart_flag;
        }
        self.active = active;
        self.size = size;
        true
    }
}

} // verus!
