use dynisland::easing::{
    bezier_field, bezier_map_form, bezier_seq_form, named_curve, parse_named_curve, BezierField,
    BezierForm, BezierFormError, NamedCurve,
};

const ALL: [NamedCurve; 7] = [
    NamedCurve::Linear,
    NamedCurve::Ease,
    NamedCurve::EaseIn,
    NamedCurve::EaseOut,
    NamedCurve::EaseInOut,
    NamedCurve::On,
    NamedCurve::Off,
];

#[test]
fn named_curves_parse_whatever_their_case() {
    assert_eq!(parse_named_curve("linear"), Ok(NamedCurve::Linear));
    assert_eq!(parse_named_curve("Ease-In-Out"), Ok(NamedCurve::EaseInOut));
    assert_eq!(parse_named_curve("EASE"), Ok(NamedCurve::Ease));
    assert_eq!(parse_named_curve("ease-out"), Ok(NamedCurve::EaseOut));
    assert_eq!(parse_named_curve("On"), Ok(NamedCurve::On));
    assert_eq!(parse_named_curve("off"), Ok(NamedCurve::Off));
    assert_eq!(parse_named_curve("cubic-bezier(0,0,1,1)"), Err("Not a valid named curve".to_string()));
    assert_eq!(parse_named_curve(""), Err("Not a valid named curve".to_string()));
}

#[test]
fn lower_case_lookup_is_exact() {
    assert_eq!(named_curve("ease-in"), Some(NamedCurve::EaseIn));
    assert_eq!(named_curve("Ease-In"), None);
    assert_eq!(named_curve("ease-in "), None);
}

#[test]
fn config_names_read_back() {
    for c in ALL {
        assert_eq!(parse_named_curve(c.config_name()), Ok(c));
    }
}

#[test]
fn css_names() {
    assert_eq!(NamedCurve::Linear.to_string(), "linear");
    assert_eq!(NamedCurve::EaseInOut.to_string(), "ease-in-out");
    assert_eq!(NamedCurve::On.to_string(), "step-end");
    assert_eq!(NamedCurve::Off.to_string(), "step-start");
    assert_eq!(parse_named_curve(&NamedCurve::EaseOut.to_string()), Ok(NamedCurve::EaseOut));
    assert!(parse_named_curve(&NamedCurve::On.to_string()).is_err());
}

#[test]
fn bezier_keys() {
    assert_eq!(bezier_field("x"), Some(BezierField::X));
    assert_eq!(bezier_field("y"), Some(BezierField::Y));
    assert_eq!(bezier_field("p1"), Some(BezierField::P1));
    assert_eq!(bezier_field("p2"), Some(BezierField::P2));
    assert_eq!(bezier_field("p3"), None);
}

#[test]
fn bezier_map_forms() {
    assert_eq!(bezier_map_form(&[BezierField::X, BezierField::Y]), Ok(BezierForm::Coefficients));
    assert_eq!(bezier_map_form(&[BezierField::P2, BezierField::P1]), Ok(BezierForm::ControlPoints));
    assert_eq!(bezier_map_form(&[BezierField::X, BezierField::P1]), Err(BezierFormError::MixedFields));
    assert_eq!(bezier_map_form(&[BezierField::X]), Err(BezierFormError::MixedFields));
    assert_eq!(bezier_map_form(&[]), Err(BezierFormError::MixedFields));
    assert_eq!(bezier_map_form(&[BezierField::X, BezierField::Y, BezierField::P1, BezierField::P2]), Err(BezierFormError::MixedFields));
    assert_eq!(bezier_map_form(&[BezierField::X, BezierField::P1, BezierField::P1, BezierField::X]), Err(BezierFormError::DuplicateField(BezierField::P1)));
    assert_eq!(bezier_map_form(&[BezierField::X, BezierField::Y, BezierField::X]), Err(BezierFormError::DuplicateField(BezierField::X)));
}

#[test]
fn bezier_seq_forms() {
    assert_eq!(bezier_seq_form(0), Err(BezierFormError::InvalidLength(0)));
    assert_eq!(bezier_seq_form(3), Err(BezierFormError::InvalidLength(3)));
    assert_eq!(bezier_seq_form(4), Ok(BezierForm::ControlPoints));
    assert_eq!(bezier_seq_form(5), Err(BezierFormError::InvalidLength(5)));
    assert_eq!(bezier_seq_form(6), Ok(BezierForm::Coefficients));
    assert_eq!(bezier_seq_form(9), Ok(BezierForm::Coefficients));
}
