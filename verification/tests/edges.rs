//! Edge cases: slot bounds, numeric channel numerals, lock-capability
//! boundaries, and the bare enumerated-type read form.

use rytm_external::msg::{handle_get, handle_set};
use rytm_external::project::Project;
use rytm_external::token::Token;

fn sym(s: &str) -> Token {
    Token::Sym(s.to_string())
}

fn ival(i: i64) -> Token {
    Token::Int(i)
}

fn expect_sym(t: &Token, want: &str) {
    match t {
        Token::Sym(s) => assert_eq!(s, want),
        other => panic!("expected symbol {want}, got {other:?}"),
    }
}

#[test]
fn midi_channel_numerals_are_bounded() {
    let mut p = Project::new();
    handle_set(&mut p, &vec![sym("global"), ival(0), sym("autochannel:15")]).unwrap();
    let out = handle_get(&p, &vec![sym("global"), ival(0), sym("autochannel")]).unwrap();
    expect_sym(&out[2], "15");
    assert!(handle_set(&mut p, &vec![sym("global"), ival(0), sym("autochannel:16")]).is_err());
    assert!(handle_set(&mut p, &vec![sym("global"), ival(0), sym("autochannel:-1")]).is_err());
    handle_set(&mut p, &vec![sym("global"), ival(0), sym("autochannel:off")]).unwrap();
}

#[test]
fn slotted_identifiers_reject_out_of_range_slots() {
    let mut p = Project::new();
    // The velocity-modulation slots run 0 to 3.
    assert!(
        handle_set(&mut p, &vec![sym("sound"), ival(0), sym("velmodamt"), ival(4), ival(1)])
            .is_err()
    );
    assert!(
        handle_set(&mut p, &vec![sym("sound"), ival(0), sym("velmodtarget:lfospeed"), ival(4)])
            .is_err()
    );
    // The per-track channel slots run 0 to 11.
    assert!(
        handle_set(&mut p, &vec![sym("global"), ival(0), sym("trackchannels:3"), ival(12)])
            .is_err()
    );
    // The route marks take a track between 0 and 11.
    assert!(
        handle_set(&mut p, &vec![sym("global"), ival(0), sym("routetomain"), ival(12)]).is_err()
    );
    assert!(
        handle_set(&mut p, &vec![sym("settings"), sym("mute"), ival(12)]).is_err()
    );
}

#[test]
fn track_and_trig_indices_are_bounded() {
    let mut p = Project::new();
    assert!(
        handle_set(&mut p, &vec![sym("pattern"), ival(0), ival(13), sym("deftrignote"), ival(1)])
            .is_err()
    );
    assert!(
        handle_set(
            &mut p,
            &vec![sym("pattern"), ival(0), ival(0), ival(64), sym("note"), ival(1)],
        )
        .is_err()
    );
    // Both ceilings themselves are fine.
    handle_set(&mut p, &vec![sym("pattern"), ival(0), ival(12), sym("deftrignote"), ival(1)])
        .unwrap();
    handle_set(&mut p, &vec![sym("pattern"), ival(0), ival(0), ival(63), sym("note"), ival(1)])
        .unwrap();
}

#[test]
fn locks_exist_only_for_lock_capable_identifiers() {
    let mut p = Project::new();
    // A kit name is a kit identifier but takes no lock.
    assert!(
        handle_set(
            &mut p,
            &vec![sym("pattern"), ival(0), ival(0), ival(0), sym("plockset"), sym("name"), sym("x")],
        )
        .is_err()
    );
    // A trig identifier is not a kit or sound identifier at all.
    assert!(
        handle_set(
            &mut p,
            &vec![sym("pattern"), ival(0), ival(0), ival(0), sym("plockset"), sym("note"), ival(1)],
        )
        .is_err()
    );
    // A lock-capable field of each side works.
    handle_set(
        &mut p,
        &vec![
            sym("pattern"),
            ival(0),
            ival(0),
            ival(0),
            sym("plockset"),
            sym("fxdelaytime"),
            ival(33),
        ],
    )
    .unwrap();
    handle_set(
        &mut p,
        &vec![
            sym("pattern"),
            ival(0),
            ival(0),
            ival(0),
            sym("plockset"),
            sym("sampvolume"),
            ival(44),
        ],
    )
    .unwrap();
}

#[test]
fn plock_actions_do_not_cross_set_and_get() {
    let mut p = Project::new();
    // plockget under a set message is an error, and the reverse too.
    assert!(
        handle_set(
            &mut p,
            &vec![sym("pattern"), ival(0), ival(0), ival(0), sym("plockget"), sym("ampvolume")],
        )
        .is_err()
    );
    assert!(
        handle_get(
            &p,
            &vec![sym("pattern"), ival(0), ival(0), ival(0), sym("plockset"), sym("ampvolume")],
        )
        .is_err()
    );
}

#[test]
fn bare_enum_type_reads_work_at_every_level() {
    let mut p = Project::new();
    handle_set(&mut p, &vec![sym("pattern"), ival(1), sym("speed:1/4x")]).unwrap();
    let out = handle_get(&p, &vec![sym("pattern"), ival(1), sym("speed")]).unwrap();
    expect_sym(&out[2], "1/4x");

    handle_set(&mut p, &vec![sym("pattern"), ival(1), ival(2), ival(3), sym("microtime:1/32")])
        .unwrap();
    let out =
        handle_get(&p, &vec![sym("pattern"), ival(1), ival(2), ival(3), sym("microtime")]).unwrap();
    expect_sym(&out[2], "1/32");

    handle_set(&mut p, &vec![sym("settings"), sym("patternmode:directjump")]).unwrap();
    let out = handle_get(&p, &vec![sym("settings"), sym("patternmode")]).unwrap();
    expect_sym(&out[2], "directjump");
}

#[test]
fn non_ascii_symbols_are_rejected_cleanly() {
    let mut p = Project::new();
    assert!(handle_set(&mut p, &vec![sym("pattern"), ival(0), sym("n\u{00f6}te"), ival(1)]).is_err());
    assert!(handle_get(&p, &vec![sym("pattern"), ival(0), sym("n\u{00f6}te")]).is_err());
}
