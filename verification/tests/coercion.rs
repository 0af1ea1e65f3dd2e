//! The value coercion layer and the error taxonomy at its boundaries.

use rytm_external::error::{EnumError, IdentifierError, RytmExternalError, SetError};
use rytm_external::msg::{handle_get, handle_set};
use rytm_external::project::Project;
use rytm_external::token::{coerce_bool01, FloatBits, Token};

fn sym(s: &str) -> Token {
    Token::Sym(s.to_string())
}

fn ival(i: i64) -> Token {
    Token::Int(i)
}

fn float(f: f64) -> Token {
    Token::Float(FloatBits { bits: f.to_bits() })
}

#[test]
fn bool01_accepts_exactly_zero_and_one() {
    assert_eq!(coerce_bool01(&ival(0)), Some(false));
    assert_eq!(coerce_bool01(&ival(1)), Some(true));
    assert_eq!(coerce_bool01(&ival(-1)), None);
    assert_eq!(coerce_bool01(&ival(2)), None);
    assert_eq!(coerce_bool01(&float(2.0)), None);
    assert_eq!(coerce_bool01(&float(1.0)), None);
    assert_eq!(coerce_bool01(&sym("on")), None);
}

#[test]
fn bool01_boundary_through_dispatch() {
    let mut p = Project::new();
    handle_set(&mut p, &vec![sym("pattern"), ival(0), ival(0), ival(0), sym("mute"), ival(1)])
        .unwrap();
    for bad in [ival(-1), ival(2), float(2.0), sym("on")] {
        let r = handle_set(
            &mut p,
            &vec![sym("pattern"), ival(0), ival(0), ival(0), sym("mute"), bad],
        );
        assert!(matches!(
            r,
            Err(RytmExternalError::Identifier(IdentifierError::InvalidParameter(_, _)))
        ));
    }
}

#[test]
fn float_atoms_travel_through_unchanged() {
    let mut p = Project::new();
    let bits = 127.5f64.to_bits();
    handle_set(
        &mut p,
        &vec![sym("pattern"), ival(7), sym("patternbpm"), Token::Float(FloatBits { bits })],
    )
    .unwrap();
    let out = handle_get(&p, &vec![sym("pattern"), ival(7), sym("patternbpm")]).unwrap();
    match &out[2] {
        Token::Float(f) => assert_eq!(f.bits, bits),
        other => panic!("expected a float atom back, got {other:?}"),
    }
}

#[test]
fn numeric_field_rejects_symbol_parameter() {
    let mut p = Project::new();
    let r = handle_set(&mut p, &vec![sym("pattern"), ival(0), sym("masterlength"), sym("long")]);
    assert!(matches!(
        r,
        Err(RytmExternalError::Identifier(IdentifierError::InvalidParameter(_, _)))
    ));
}

#[test]
fn unknown_identifier_is_an_identifier_error() {
    let mut p = Project::new();
    let r = handle_set(&mut p, &vec![sym("pattern"), ival(0), sym("nosuchfield"), ival(1)]);
    assert!(matches!(r, Err(RytmExternalError::Identifier(IdentifierError::InvalidType(_)))));
}

#[test]
fn unknown_enum_type_and_bad_variant_are_enum_errors() {
    let mut p = Project::new();
    let r = handle_set(&mut p, &vec![sym("pattern"), ival(0), sym("nosuchtype:val")]);
    assert!(matches!(r, Err(RytmExternalError::Enum(EnumError::InvalidEnumType(_)))));
    let r = handle_set(&mut p, &vec![sym("pattern"), ival(0), sym("speed:warp")]);
    assert!(matches!(r, Err(RytmExternalError::Enum(EnumError::InvalidEnumValue(_)))));
}

#[test]
fn truncated_message_is_a_format_error() {
    let mut p = Project::new();
    let r = handle_set(&mut p, &vec![sym("pattern"), ival(0), sym("masterlength")]);
    assert!(matches!(r, Err(RytmExternalError::Setter(SetError::InvalidFormat(_)))));
    let r = handle_set(&mut p, &Vec::new());
    assert!(matches!(r, Err(RytmExternalError::Setter(SetError::InvalidFormat(_)))));
}

#[test]
fn read_only_fields_reject_writes() {
    let mut p = Project::new();
    let r = handle_set(&mut p, &vec![sym("pattern"), ival(0), sym("version"), ival(9)]);
    assert!(r.is_err());
    let out = handle_get(&p, &vec![sym("pattern"), ival(0), sym("version")]).unwrap();
    assert!(matches!(out[2], Token::Int(0)));
}

#[test]
fn name_respects_length_and_charset() {
    let mut p = Project::new();
    handle_set(&mut p, &vec![sym("kit"), ival(0), sym("name"), sym("housekit")]).unwrap();
    let out = handle_get(&p, &vec![sym("kit"), ival(0), sym("name")]).unwrap();
    match &out[2] {
        Token::Sym(s) => assert_eq!(s, "housekit"),
        other => panic!("expected the kit name back, got {other:?}"),
    }
    // Sixteen characters is one past the hardware's ceiling.
    let r = handle_set(&mut p, &vec![sym("kit"), ival(0), sym("name"), sym("abcdefghijklmnop")]);
    assert!(r.is_err());
    // Fifteen is accepted.
    handle_set(&mut p, &vec![sym("kit"), ival(0), sym("name"), sym("abcdefghijklmno")]).unwrap();
}
