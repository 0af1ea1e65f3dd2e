//! End-to-end message scenarios through the top-level dispatch.

use rytm_external::error::RytmExternalError;
use rytm_external::msg::{handle_get, handle_set};
use rytm_external::project::Project;
use rytm_external::token::Token;

fn sym(s: &str) -> Token {
    Token::Sym(s.to_string())
}

fn ival(i: i64) -> Token {
    Token::Int(i)
}

fn expect_sym(t: &Token, want: &str) {
    match t {
        Token::Sym(s) => assert_eq!(s, want),
        other => panic!("expected symbol {want}, got {other:?}"),
    }
}

fn expect_int(t: &Token, want: i64) {
    match t {
        Token::Int(i) => assert_eq!(*i, want),
        other => panic!("expected integer {want}, got {other:?}"),
    }
}

#[test]
fn scenario_trig_note_set_then_get() {
    let mut p = Project::new();
    let set = vec![sym("pattern"), ival(3), ival(5), ival(10), sym("note"), ival(64)];
    handle_set(&mut p, &set).expect("setting a trig note must succeed");
    let get = vec![sym("pattern"), ival(3), ival(5), ival(10), sym("note")];
    let out = handle_get(&p, &get).expect("reading the trig note back must succeed");
    assert_eq!(out.len(), 3);
    expect_sym(&out[0], "note");
    expect_int(&out[1], 3);
    expect_int(&out[2], 64);
}

#[test]
fn scenario_trig_note_does_not_leak_to_neighbours() {
    let mut p = Project::new();
    handle_set(&mut p, &vec![sym("pattern"), ival(3), ival(5), ival(10), sym("note"), ival(64)])
        .unwrap();
    let out =
        handle_get(&p, &vec![sym("pattern"), ival(3), ival(5), ival(11), sym("note")]).unwrap();
    expect_int(&out[2], 0);
    let out = handle_get(&p, &vec![sym("pattern"), ival(3), ival(6), ival(10), sym("note")]).unwrap();
    expect_int(&out[2], 0);
    let out = handle_get(&p, &vec![sym("pattern"), ival(4), ival(5), ival(10), sym("note")]).unwrap();
    expect_int(&out[2], 0);
}

#[test]
fn scenario_kit_enum_set_then_get_bare_type() {
    let mut p = Project::new();
    handle_set(&mut p, &vec![sym("kit"), ival(2), sym("fxlfodestination:delaytime")])
        .expect("setting a kit enumerated identifier must succeed");
    let out = handle_get(&p, &vec![sym("kit"), ival(2), sym("fxlfodestination")])
        .expect("reading the enumerated identifier back must succeed");
    assert_eq!(out.len(), 3);
    expect_sym(&out[0], "fxlfodestination");
    expect_int(&out[1], 2);
    expect_sym(&out[2], "delaytime");
}

#[test]
fn scenario_plock_set_get_clear() {
    let mut p = Project::new();
    handle_set(
        &mut p,
        &vec![sym("pattern"), ival(0), ival(0), ival(0), sym("plockset"), sym("ampvolume"), ival(90)],
    )
    .expect("setting a parameter lock must succeed");
    let get = vec![sym("pattern"), ival(0), ival(0), ival(0), sym("plockget"), sym("ampvolume")];
    let out = handle_get(&p, &get).unwrap();
    expect_sym(&out[0], "ampvolume");
    expect_int(&out[1], 0);
    expect_int(&out[2], 90);

    handle_set(
        &mut p,
        &vec![sym("pattern"), ival(0), ival(0), ival(0), sym("plockclear"), sym("ampvolume")],
    )
    .expect("clearing a parameter lock must succeed");
    let out = handle_get(&p, &get).unwrap();
    expect_sym(&out[2], "unset");
}

#[test]
fn scenario_plock_clear_when_unset_is_not_an_error() {
    let mut p = Project::new();
    let get = vec![sym("pattern"), ival(1), ival(2), ival(3), sym("plockget"), sym("filtcutoff")];
    let out = handle_get(&p, &get).unwrap();
    expect_sym(&out[2], "unset");
    handle_set(
        &mut p,
        &vec![sym("pattern"), ival(1), ival(2), ival(3), sym("plockclear"), sym("filtcutoff")],
    )
    .expect("clearing an unset lock is idempotent, not an error");
    let out = handle_get(&p, &get).unwrap();
    expect_sym(&out[2], "unset");
}

#[test]
fn scenario_plock_enum_set_get_clear() {
    let mut p = Project::new();
    handle_set(
        &mut p,
        &vec![sym("pattern"), ival(0), ival(1), ival(2), sym("plockset"), sym("filtertype:hp1")],
    )
    .unwrap();
    let get = vec![sym("pattern"), ival(0), ival(1), ival(2), sym("plockget"), sym("filtertype:x")];
    let out = handle_get(&p, &get).unwrap();
    expect_sym(&out[0], "filtertype");
    expect_sym(&out[2], "hp1");
    handle_set(
        &mut p,
        &vec![sym("pattern"), ival(0), ival(1), ival(2), sym("plockclear"), sym("filtertype:x")],
    )
    .unwrap();
    let out = handle_get(&p, &get).unwrap();
    expect_sym(&out[2], "unset");
}

#[test]
fn scenario_sound_pool_index_past_ceiling_fails_and_mutates_nothing() {
    let mut p = Project::new();
    let r = handle_set(&mut p, &vec![sym("sound"), ival(12), sym("ampattack"), ival(5)]);
    assert!(matches!(r, Err(RytmExternalError::Custom(_))));
    for i in 0..12 {
        let out = handle_get(&p, &vec![sym("sound"), ival(i), sym("ampattack")]).unwrap();
        expect_int(&out[2], 0);
    }
}

#[test]
fn scenario_work_buffer_classes_take_no_slot_index() {
    let mut p = Project::new();
    handle_set(&mut p, &vec![sym("pattern_wb"), sym("masterlength"), ival(32)]).unwrap();
    let out = handle_get(&p, &vec![sym("pattern_wb"), sym("masterlength")]).unwrap();
    expect_sym(&out[0], "masterlength");
    expect_int(&out[1], 0);
    expect_int(&out[2], 32);
}

#[test]
fn scenario_kit_element_set_then_get() {
    let mut p = Project::new();
    handle_set(&mut p, &vec![sym("kit"), ival(1), sym("tracklevel"), ival(7), ival(100)]).unwrap();
    let out = handle_get(&p, &vec![sym("kit"), ival(1), sym("tracklevel"), ival(7)]).unwrap();
    assert_eq!(out.len(), 4);
    expect_sym(&out[0], "tracklevel");
    expect_int(&out[1], 1);
    expect_int(&out[2], 7);
    expect_int(&out[3], 100);
}

#[test]
fn scenario_kit_sound_hand_off() {
    let mut p = Project::new();
    handle_set(&mut p, &vec![sym("kit"), ival(0), sym("sound"), ival(4), sym("filtcutoff"), ival(99)])
        .unwrap();
    let out =
        handle_get(&p, &vec![sym("kit"), ival(0), sym("sound"), ival(4), sym("filtcutoff")]).unwrap();
    expect_sym(&out[0], "filtcutoff");
    expect_int(&out[2], 99);
    // The pool sound with the same index is untouched.
    let out = handle_get(&p, &vec![sym("sound"), ival(4), sym("filtcutoff")]).unwrap();
    expect_int(&out[2], 0);
}

#[test]
fn scenario_settings_and_global() {
    let mut p = Project::new();
    handle_set(&mut p, &vec![sym("settings"), sym("selectedtrack"), ival(9)]).unwrap();
    let out = handle_get(&p, &vec![sym("settings"), sym("selectedtrack")]).unwrap();
    expect_int(&out[2], 9);

    handle_set(&mut p, &vec![sym("global"), ival(2), sym("clockreceive"), ival(1)]).unwrap();
    let out = handle_get(&p, &vec![sym("global"), ival(2), sym("clockreceive")]).unwrap();
    expect_int(&out[1], 2);
    expect_int(&out[2], 1);
    // The other global slots are untouched.
    let out = handle_get(&p, &vec![sym("global"), ival(1), sym("clockreceive")]).unwrap();
    expect_int(&out[2], 0);
}

#[test]
fn scenario_failed_set_leaves_state_as_it_was() {
    let mut p = Project::new();
    handle_set(&mut p, &vec![sym("pattern"), ival(9), sym("kitnumber"), ival(5)]).unwrap();
    // A coercion failure after a valid path must not change anything.
    let r = handle_set(&mut p, &vec![sym("pattern"), ival(9), sym("kitnumber"), sym("five")]);
    assert!(r.is_err());
    let out = handle_get(&p, &vec![sym("pattern"), ival(9), sym("kitnumber")]).unwrap();
    expect_int(&out[2], 5);
}
