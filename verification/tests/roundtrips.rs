//! Read-after-write round trips, sampled across every object kind, with the
//! slotted identifiers and the enumerated domains included.

use rytm_external::msg::{handle_get, handle_set};
use rytm_external::project::Project;
use rytm_external::token::Token;

fn sym(s: &str) -> Token {
    Token::Sym(s.to_string())
}

fn ival(i: i64) -> Token {
    Token::Int(i)
}

fn expect_int(t: &Token, want: i64) {
    match t {
        Token::Int(i) => assert_eq!(*i, want),
        other => panic!("expected integer {want}, got {other:?}"),
    }
}

fn expect_sym(t: &Token, want: &str) {
    match t {
        Token::Sym(s) => assert_eq!(s, want),
        other => panic!("expected symbol {want}, got {other:?}"),
    }
}

fn roundtrip_int(p: &mut Project, prefix: &[Token], ident: &str, v: i64) {
    let mut set: Vec<Token> = prefix.to_vec();
    set.push(sym(ident));
    set.push(ival(v));
    handle_set(p, &set).unwrap_or_else(|e| panic!("set {ident} failed: {e:?}"));
    let mut get: Vec<Token> = prefix.to_vec();
    get.push(sym(ident));
    let out = handle_get(p, &get).unwrap_or_else(|e| panic!("get {ident} failed: {e:?}"));
    expect_int(&out[2], v);
}

fn roundtrip_enum(p: &mut Project, prefix: &[Token], ty: &str, variant: &str) {
    let mut set: Vec<Token> = prefix.to_vec();
    set.push(sym(&format!("{ty}:{variant}")));
    handle_set(p, &set).unwrap_or_else(|e| panic!("set {ty}:{variant} failed: {e:?}"));
    let mut get: Vec<Token> = prefix.to_vec();
    get.push(sym(ty));
    let out = handle_get(p, &get).unwrap_or_else(|e| panic!("get {ty} failed: {e:?}"));
    expect_sym(&out[2], variant);
}

#[test]
fn pattern_plain_round_trips() {
    let mut p = Project::new();
    let prefix = [sym("pattern"), ival(64)];
    roundtrip_int(&mut p, &prefix, "masterlength", 128);
    roundtrip_int(&mut p, &prefix, "masterchg", 4);
    roundtrip_int(&mut p, &prefix, "kitnumber", 17);
    roundtrip_int(&mut p, &prefix, "swingamount", 61);
    roundtrip_int(&mut p, &prefix, "globalquantize", 2);
}

#[test]
fn pattern_enum_round_trips() {
    let mut p = Project::new();
    let prefix = [sym("pattern"), ival(0)];
    roundtrip_enum(&mut p, &prefix, "speed", "3/4x");
    roundtrip_enum(&mut p, &prefix, "timemode", "advanced");
}

#[test]
fn track_round_trips() {
    let mut p = Project::new();
    let prefix = [sym("pattern"), ival(2), ival(12)];
    roundtrip_int(&mut p, &prefix, "deftrignote", 48);
    roundtrip_int(&mut p, &prefix, "steps", 64);
    roundtrip_int(&mut p, &prefix, "sendsmidi", 1);
    roundtrip_int(&mut p, &prefix, "euc", 1);
    roundtrip_int(&mut p, &prefix, "pl1", 3);
    roundtrip_enum(&mut p, &prefix, "rootnote", "f#");
    roundtrip_enum(&mut p, &prefix, "padscale", "blues");
    roundtrip_enum(&mut p, &prefix, "defaultnotelength", "1/8");
}

#[test]
fn trig_round_trips() {
    let mut p = Project::new();
    let prefix = [sym("pattern"), ival(0), ival(0), ival(63)];
    roundtrip_int(&mut p, &prefix, "enable", 1);
    roundtrip_int(&mut p, &prefix, "retrig", 1);
    roundtrip_int(&mut p, &prefix, "velocity", 101);
    roundtrip_int(&mut p, &prefix, "soundlock", 8);
    roundtrip_enum(&mut p, &prefix, "microtime", "-23/384");
    roundtrip_enum(&mut p, &prefix, "notelength", "1/2");
    roundtrip_enum(&mut p, &prefix, "retrigrate", "1/48");
    roundtrip_enum(&mut p, &prefix, "trigcondition", "4:7");
}

#[test]
fn kit_round_trips() {
    let mut p = Project::new();
    let prefix = [sym("kit"), ival(127)];
    roundtrip_int(&mut p, &prefix, "fxdelaytime", 77);
    roundtrip_int(&mut p, &prefix, "fxdelaypingpong", 1);
    roundtrip_int(&mut p, &prefix, "fxreverbdecay", 40);
    roundtrip_int(&mut p, &prefix, "fxcompthreshold", 80);
    roundtrip_int(&mut p, &prefix, "fxlfospeed", -12);
    roundtrip_enum(&mut p, &prefix, "fxcompattack", "30");
    roundtrip_enum(&mut p, &prefix, "fxcompratio", "max");
    roundtrip_enum(&mut p, &prefix, "fxdelaytimeonthegrid", "quarterdotted");
}

#[test]
fn kit_slotted_enum_round_trip() {
    let mut p = Project::new();
    // Writing slot 2 of the control-input modulation target.
    handle_set(
        &mut p,
        &vec![sym("kit"), ival(3), sym("controlinmodtarget:lfospeed"), ival(2)],
    )
    .unwrap();
    let out = handle_get(&p, &vec![sym("kit"), ival(3), sym("controlinmodtarget:2")]).unwrap();
    expect_sym(&out[2], "lfospeed");
    // The other slots keep their default.
    let out = handle_get(&p, &vec![sym("kit"), ival(3), sym("controlinmodtarget:1")]).unwrap();
    expect_sym(&out[2], "unset");
}

#[test]
fn sound_round_trips() {
    let mut p = Project::new();
    let prefix = [sym("sound"), ival(11)];
    roundtrip_int(&mut p, &prefix, "accentlevel", 9);
    roundtrip_int(&mut p, &prefix, "amppan", -32);
    roundtrip_int(&mut p, &prefix, "filtres", 55);
    roundtrip_int(&mut p, &prefix, "samptune", -11);
    roundtrip_int(&mut p, &prefix, "samploopflag", 1);
    roundtrip_int(&mut p, &prefix, "envresetfilter", 1);
    roundtrip_enum(&mut p, &prefix, "machinetype", "bdacoustic");
    roundtrip_enum(&mut p, &prefix, "lfowaveform", "rnd");
    roundtrip_enum(&mut p, &prefix, "lfomultiplier", ".2k");
    roundtrip_enum(&mut p, &prefix, "chromaticmode", "syn+samp");
}

#[test]
fn sound_slotted_round_trips() {
    let mut p = Project::new();
    // velmodamt takes the slot first, then the amount.
    handle_set(&mut p, &vec![sym("sound"), ival(0), sym("velmodamt"), ival(3), ival(-64)]).unwrap();
    let out = handle_get(&p, &vec![sym("sound"), ival(0), sym("velmodamt"), ival(3)]).unwrap();
    expect_int(&out[2], -64);
    let out = handle_get(&p, &vec![sym("sound"), ival(0), sym("velmodamt"), ival(0)]).unwrap();
    expect_int(&out[2], 0);
    // The slotted modulation target, read back through the colon form.
    handle_set(&mut p, &vec![sym("sound"), ival(0), sym("velmodtarget:samplestart"), ival(1)])
        .unwrap();
    let out = handle_get(&p, &vec![sym("sound"), ival(0), sym("velmodtarget:1")]).unwrap();
    expect_sym(&out[2], "samplestart");
}

#[test]
fn sound_work_buffer_is_separate_from_pool() {
    let mut p = Project::new();
    handle_set(&mut p, &vec![sym("sound_wb"), ival(5), sym("ampdecay"), ival(42)]).unwrap();
    let out = handle_get(&p, &vec![sym("sound_wb"), ival(5), sym("ampdecay")]).unwrap();
    expect_int(&out[2], 42);
    let out = handle_get(&p, &vec![sym("sound"), ival(5), sym("ampdecay")]).unwrap();
    expect_int(&out[2], 0);
}

#[test]
fn global_round_trips() {
    let mut p = Project::new();
    let prefix = [sym("global"), ival(3)];
    roundtrip_int(&mut p, &prefix, "kitreloadonchg", 1);
    roundtrip_int(&mut p, &prefix, "metronomevolume", 64);
    roundtrip_enum(&mut p, &prefix, "metronometimesignature", "13/8");
    roundtrip_enum(&mut p, &prefix, "routingusbin", "l:5r:6");
    roundtrip_enum(&mut p, &prefix, "paddest", "int+ext");
    roundtrip_enum(&mut p, &prefix, "autochannel", "off");
    roundtrip_enum(&mut p, &prefix, "performancechannel", "15");
}

#[test]
fn global_track_channels_are_slotted() {
    let mut p = Project::new();
    handle_set(&mut p, &vec![sym("global_wb"), sym("trackchannels:7"), ival(4)]).unwrap();
    let out = handle_get(&p, &vec![sym("global_wb"), sym("trackchannels:4")]).unwrap();
    expect_sym(&out[2], "7");
    let out = handle_get(&p, &vec![sym("global_wb"), sym("trackchannels:5")]).unwrap();
    expect_sym(&out[2], "auto");
}

#[test]
fn global_route_marks() {
    let mut p = Project::new();
    let out = handle_get(&p, &vec![sym("global"), ival(0), sym("routetomain"), ival(5)]).unwrap();
    expect_int(&out[2], 0);
    handle_set(&mut p, &vec![sym("global"), ival(0), sym("routetomain"), ival(5)]).unwrap();
    let out = handle_get(&p, &vec![sym("global"), ival(0), sym("routetomain"), ival(5)]).unwrap();
    expect_int(&out[2], 1);
    let out = handle_get(&p, &vec![sym("global"), ival(0), sym("routetomain"), ival(4)]).unwrap();
    expect_int(&out[2], 0);
}

#[test]
fn settings_round_trips() {
    let mut p = Project::new();
    let prefix = [sym("settings")];
    roundtrip_int(&mut p, &prefix, "selectedpage", 3);
    roundtrip_int(&mut p, &prefix, "fixedvelocity", 1);
    roundtrip_int(&mut p, &prefix, "fixedvelocityamt", 100);
    roundtrip_enum(&mut p, &prefix, "sequencermode", "song");
    roundtrip_enum(&mut p, &prefix, "samplerecordersource", "rs/cp");
    roundtrip_enum(&mut p, &prefix, "samplerecorderrecordinglength", "128steps");
}

#[test]
fn kit_element_enum_round_trip() {
    let mut p = Project::new();
    handle_set(
        &mut p,
        &vec![sym("kit_wb"), sym("trackretrigrate"), ival(12), sym("retrigrate:1/80")],
    )
    .unwrap();
    let out = handle_get(&p, &vec![sym("kit_wb"), sym("trackretrigrate"), ival(12)]).unwrap();
    expect_sym(&out[3], "1/80");
}
