//! Timing curves of transitions as the configuration names them: the named
//! curves, and the shapes in which a curve's numbers may be written.
use vstd::prelude::*;

verus! {

/// The curves that the configuration may name instead of giving numbers.
#[derive(Clone, Copy, Debug, PartialEq, Eq, Structural)]
pub enum NamedCurve {
    Linear,
    Ease,
    EaseIn,
    EaseOut,
    EaseInOut,
    /// Jumps to the end at once.
    On,
    /// Stays at the start.
    Off,
}

/// The curve that a lower-case name stands for.
pub open spec fn spec_named_curve(name: Seq<char>) -> Option<NamedCurve> {
    if name == "linear"@ {
        Some(NamedCurve::Linear)
    } else if name == "ease"@ {
        Some(NamedCurve::Ease)
    } else if name == "ease-in"@ {
        Some(NamedCurve::EaseIn)
    } else if name == "ease-out"@ {
        Some(NamedCurve::EaseOut)
    } else if name == "ease-in-out"@ {
        Some(NamedCurve::EaseInOut)
    } else if name == "on"@ {
        Some(NamedCurve::On)
    } else if name == "off"@ {
        Some(NamedCurve::Off)
    } else {
        None
    }
}

/// What `str::to_lowercase` gives for a text, as Unicode's case mapping
/// decides it.
pub uninterp spec fn spec_lowercase(s: Seq<char>) -> Seq<char>;

/// Whether every character of `s` is ASCII.
pub open spec fn spec_all_ascii(s: Seq<char>) -> bool {
    forall|i: int| 0 <= i < s.len() ==> ((#[trigger] s[i]) as u32) < 128
}

/// The lower case of an ASCII character: `A`-`Z` become `a`-`z`, the others
/// stay.
pub open spec fn spec_ascii_lower(c: char) -> char {
    if 'A' <= c && c <= 'Z' {
        ((c as u32) + 32) as char
    } else {
        c
    }
}

/// `s` with each character put in lower case as ASCII does it.
pub open spec fn spec_ascii_lowercase(s: Seq<char>) -> Seq<char> {
    s.map_values(|c: char| spec_ascii_lower(c))
}

/// Calls `str::to_lowercase`. Its result is named: the mapping is Unicode's,
/// character by character. Only for ASCII text is it stated: there Unicode's
/// lower case of `A`-`Z` is `a`-`z`, and every other ASCII character stays.
#[verifier::external_body]
fn to_lowercase(s: &str) -> (r: String)
    ensures
        r@ == spec_lowercase(s@),
        spec_all_ascii(s@) ==> r@ == spec_ascii_lowercase(s@),
{
    s.to_lowercase()
}

impl NamedCurve {
    /// The name under which the configuration writes a curve.
    pub open spec fn spec_config_name(self) -> Seq<char> {
        match self {
            NamedCurve::Linear => "linear"@,
            NamedCurve::Ease => "ease"@,
            NamedCurve::EaseIn => "ease-in"@,
            NamedCurve::EaseOut => "ease-out"@,
            NamedCurve::EaseInOut => "ease-in-out"@,
            NamedCurve::On => "on"@,
            NamedCurve::Off => "off"@,
        }
    }

    /// The name of a curve in CSS.
    pub open spec fn spec_css_name(self) -> Seq<char> {
        match self {
            NamedCurve::Linear => "linear"@,
            NamedCurve::Ease => "ease"@,
            NamedCurve::EaseIn => "ease-in"@,
            NamedCurve::EaseOut => "ease-out"@,
            NamedCurve::EaseInOut => "ease-in-out"@,
            NamedCurve::On => "step-end"@,
            NamedCurve::Off => "step-start"@,
        }
    }

    /// The name under which the configuration writes the curve.
    pub fn config_name(&self) -> (s: &'static str)
        ensures
            s@ == self.spec_config_name(),
    {
        match self {
            NamedCurve::Linear => "linear",
            NamedCurve::Ease => "ease",
            NamedCurve::EaseIn => "ease-in",
            NamedCurve::EaseOut => "ease-out",
            NamedCurve::EaseInOut => "ease-in-out",
            NamedCurve::On => "on",
            NamedCurve::Off => "off",
        }
    }

    /// The curve's name in CSS, as a transition's timing function.
    pub fn to_string(&self) -> (s: String)
        ensures
            s@ == self.spec_css_name(),
    {
        let name: &'static str = match self {
            NamedCurve::Linear => "linear",
            NamedCurve::Ease => "ease",
            NamedCurve::EaseIn => "ease-in",
            NamedCurve::EaseOut => "ease-out",
            NamedCurve::EaseInOut => "ease-in-out",
            NamedCurve::On => "step-end",
            NamedCurve::Off => "step-start",
        };
        name.to_string()
    }
}

/// The curve that an already lower-cased name stands for, or `None`.
pub fn named_curve(lowered: &str) -> (r: Option<NamedCurve>)
    ensures
        r == spec_named_curve(lowered@),
{
    let s = lowered.to_string();
    if s == "linear".to_string() {
        Some(NamedCurve::Linear)
    } else if s == "ease".to_string() {
        Some(NamedCurve::Ease)
    } else if s == "ease-in".to_string() {
        Some(NamedCurve::EaseIn)
    } else if s == "ease-out".to_string() {
        Some(NamedCurve::EaseOut)
    } else if s == "ease-in-out".to_string() {
        Some(NamedCurve::EaseInOut)
    } else if s == "on".to_string() {
        Some(NamedCurve::On)
    } else if s == "off".to_string() {
        Some(NamedCurve::Off)
    } else {
        None
    }
}

/// The curve that a name stands for, whatever its case; a name of no curve
/// is refused with "Not a valid named curve".
pub fn parse_named_curve(s: &str) -> (r: Result<NamedCurve, String>)
    ensures
        spec_named_curve(spec_lowercase(s@)) matches Some(c) ==> r == Ok::<NamedCurve, String>(c),
        spec_named_curve(spec_lowercase(s@)) is None ==> (r matches Err(e) && e@
            == "Not a valid named curve"@),
        spec_all_ascii(s@) ==> spec_lowercase(s@) == spec_ascii_lowercase(s@),
{
    let lowered = to_lowercase(s);
    match named_curve(lowered.as_str()) {
        Some(c) => Ok(c),
        None => Err("Not a valid named curve".to_string()),
    }
}

/// A curve written under its configuration name reads back as itself: the
/// name is lower-case ASCII, which lower-casing leaves as it is, and it names
/// the curve.
pub proof fn lemma_config_name_round_trip(c: NamedCurve)
    ensures
        spec_all_ascii(c.spec_config_name()),
        spec_ascii_lowercase(c.spec_config_name()) == c.spec_config_name(),
        spec_named_curve(c.spec_config_name()) == Some(c),
{
    lemma_name_lengths();
    reveal_strlit("linear");
    reveal_strlit("ease");
    reveal_strlit("ease-in");
    reveal_strlit("ease-out");
    reveal_strlit("ease-in-out");
    reveal_strlit("on");
    reveal_strlit("off");
    let n = c.spec_config_name();
    assert(spec_ascii_lowercase(n) =~= n);
}

/// A curve's CSS name reads back as the curve, but for the two step curves,
/// whose CSS names are no configuration names.
pub proof fn lemma_css_name_round_trip(c: NamedCurve)
    ensures
        c != NamedCurve::On && c != NamedCurve::Off ==> spec_named_curve(c.spec_css_name()) == Some(
            c,
        ),
        c == NamedCurve::On || c == NamedCurve::Off ==> spec_named_curve(c.spec_css_name()) is None,
{
    lemma_name_lengths();
    reveal_strlit("ease-out");
    reveal_strlit("step-end");
    assert("step-end"@[0] != "ease-out"@[0]);
}

/// The names have these lengths, which tell most of them apart.
proof fn lemma_name_lengths()
    ensures
        "linear"@.len() == 6,
        "ease"@.len() == 4,
        "ease-in"@.len() == 7,
        "ease-out"@.len() == 8,
        "ease-in-out"@.len() == 11,
        "on"@.len() == 2,
        "off"@.len() == 3,
        "step-end"@.len() == 8,
        "step-start"@.len() == 10,
{
    reveal_strlit("linear");
    reveal_strlit("ease");
    reveal_strlit("ease-in");
    reveal_strlit("ease-out");
    reveal_strlit("ease-in-out");
    reveal_strlit("on");
    reveal_strlit("off");
    reveal_strlit("step-end");
    reveal_strlit("step-start");
}

/// A key of a curve written as a map.
#[derive(Clone, Copy, Debug, PartialEq, Eq, Structural)]
pub enum BezierField {
    /// The three coefficients of x.
    X,
    /// The three coefficients of y.
    Y,
    /// The first control point.
    P1,
    /// The second control point.
    P2,
}

/// How a curve's numbers are written.
#[derive(Clone, Copy, Debug, PartialEq, Eq, Structural)]
pub enum BezierForm {
    /// The coefficients of x and of y.
    Coefficients,
    /// Two control points.
    ControlPoints,
}

/// Why a curve's numbers were refused.
#[derive(Clone, Copy, Debug, PartialEq, Eq, Structural)]
pub enum BezierFormError {
    /// A key occurs a second time.
    DuplicateField(BezierField),
    /// The keys are neither exactly `x` and `y` nor exactly `p1` and `p2`.
    MixedFields,
    /// A list of numbers ended after this many.
    InvalidLength(usize),
}

/// The key that a name stands for.
pub open spec fn spec_bezier_field(name: Seq<char>) -> Option<BezierField> {
    if name == "x"@ {
        Some(BezierField::X)
    } else if name == "y"@ {
        Some(BezierField::Y)
    } else if name == "p1"@ {
        Some(BezierField::P1)
    } else if name == "p2"@ {
        Some(BezierField::P2)
    } else {
        None
    }
}

/// The key that a name stands for; `None` for an unknown key.
pub fn bezier_field(name: &str) -> (r: Option<BezierField>)
    ensures
        r == spec_bezier_field(name@),
{
    let s = name.to_string();
    if s == "x".to_string() {
        Some(BezierField::X)
    } else if s == "y".to_string() {
        Some(BezierField::Y)
    } else if s == "p1".to_string() {
        Some(BezierField::P1)
    } else if s == "p2".to_string() {
        Some(BezierField::P2)
    } else {
        None
    }
}

/// The key at `j` occurred before.
pub open spec fn spec_repeats(keys: Seq<BezierField>, j: int) -> bool {
    exists|i: int| 0 <= i < j && keys[i] == keys[j]
}

/// The form that a set of distinct keys gives, where it gives one.
pub open spec fn spec_keys_form(keys: Seq<BezierField>) -> Option<BezierForm> {
    let x = keys.contains(BezierField::X);
    let y = keys.contains(BezierField::Y);
    let p1 = keys.contains(BezierField::P1);
    let p2 = keys.contains(BezierField::P2);
    if x && y && !p1 && !p2 {
        Some(BezierForm::Coefficients)
    } else if !x && !y && p1 && p2 {
        Some(BezierForm::ControlPoints)
    } else {
        None
    }
}

/// The form of a curve written as a map with these keys, in order. The
/// first key that occurs a second time is refused; otherwise the keys must
/// be exactly `x` and `y`, or exactly `p1` and `p2`.
pub fn bezier_map_form(keys: &[BezierField]) -> (r: Result<BezierForm, BezierFormError>)
    ensures
        (exists|j: int| 0 <= j < keys@.len() && #[trigger] spec_repeats(keys@, j)) ==> exists|j: int|
            0 <= j < keys@.len() && spec_repeats(keys@, j) && (forall|k: int|
                0 <= k < j ==> !#[trigger] spec_repeats(keys@, k)) && r == Err::<
                BezierForm,
                BezierFormError,
            >(BezierFormError::DuplicateField(keys@[j])),
        !(exists|j: int| 0 <= j < keys@.len() && #[trigger] spec_repeats(keys@, j)) ==> (match spec_keys_form(keys@) {
            Some(f) => r == Ok::<BezierForm, BezierFormError>(f),
            None => r == Err::<BezierForm, BezierFormError>(BezierFormError::MixedFields),
        }),
{
    let mut x = false;
    let mut y = false;
    let mut p1 = false;
    let mut p2 = false;
    let mut i: usize = 0;
    while i < keys.len()
        invariant
            0 <= i <= keys@.len(),
            forall|k: int| 0 <= k < i ==> !#[trigger] spec_repeats(keys@, k),
            x == keys@.take(i as int).contains(BezierField::X),
            y == keys@.take(i as int).contains(BezierField::Y),
            p1 == keys@.take(i as int).contains(BezierField::P1),
            p2 == keys@.take(i as int).contains(BezierField::P2),
        decreases keys@.len() - i,
    {
        let key = keys[i];
        let seen = match key {
            BezierField::X => x,
            BezierField::Y => y,
            BezierField::P1 => p1,
            BezierField::P2 => p2,
        };
        assert(keys@.take(i as int + 1) =~= keys@.take(i as int).push(key));
        if seen {
            proof {
                let w = choose|w: int| 0 <= w < i && keys@.take(i as int)[w] == key;
                assert(keys@[w] == keys@[i as int]);
                assert(spec_repeats(keys@, i as int));
            }
            return Err(BezierFormError::DuplicateField(key));
        }
        proof {
            if spec_repeats(keys@, i as int) {
                let w = choose|w: int| 0 <= w < i && keys@[w] == keys@[i as int];
                assert(keys@.take(i as int)[w] == key);
            }
        }
        match key {
            BezierField::X => x = true,
            BezierField::Y => y = true,
            BezierField::P1 => p1 = true,
            BezierField::P2 => p2 = true,
        }
        proof {
            let before = keys@.take(i as int);
            vstd::seq_lib::lemma_seq_contains_after_push(before, key, BezierField::X);
            vstd::seq_lib::lemma_seq_contains_after_push(before, key, BezierField::Y);
            vstd::seq_lib::lemma_seq_contains_after_push(before, key, BezierField::P1);
            vstd::seq_lib::lemma_seq_contains_after_push(before, key, BezierField::P2);
        }
        i += 1;
    }
    assert(keys@.take(i as int) =~= keys@);
    if x && y && !p1 && !p2 {
        Ok(BezierForm::Coefficients)
    } else if !x && !y && p1 && p2 {
        Ok(BezierForm::ControlPoints)
    } else {
        Err(BezierFormError::MixedFields)
    }
}

/// The form of a curve written as a list of this many numbers: four
/// numbers are two control points, six or more the coefficients (of which
/// the first six are read); fewer than four, or five, are refused with the
/// count that was read.
pub fn bezier_seq_form(len: usize) -> (r: Result<BezierForm, BezierFormError>)
    ensures
        len < 4 ==> r == Err::<BezierForm, BezierFormError>(BezierFormError::InvalidLength(len)),
        len == 4 ==> r == Ok::<BezierForm, BezierFormError>(BezierForm::ControlPoints),
        len == 5 ==> r == Err::<BezierForm, BezierFormError>(BezierFormError::InvalidLength(5)),
        len >= 6 ==> r == Ok::<BezierForm, BezierFormError>(BezierForm::Coefficients),
{
    if len < 4 {
        Err(BezierFormError::InvalidLength(len))
    } else if len == 4 {
        Ok(BezierForm::ControlPoints)
    } else if len == 5 {
        Err(BezierFormError::InvalidLength(5))
    } else {
        Ok(BezierForm::Coefficients)
    }
}

} // verus!
