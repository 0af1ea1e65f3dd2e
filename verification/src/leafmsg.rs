//! The leaf step of the path resolver: at a terminal identifier position,
//! a message addresses one plain field or one enumerated type of the object
//! at hand, with an auxiliary slot token where the identifier is slotted.
//! The separator check on `type:value` tokens is authoritative and happens
//! once, before any table lookup.

use vstd::prelude::*;

use crate::error::{EnumError, IdentifierError, RytmExternalError, SetError};
use crate::strutil::enum_split;
#[allow(unused_imports)]
use crate::token::{triple, token_bool01, token_int, token_num, Token, TokenV};

use crate::pattern::{Pattern, PatternView, pattern_enum_slot_count, pattern_enum_value, pattern_enum_slots, pattern_field_is_mark, pattern_field_settable, pattern_field_slot_count, pattern_get_spec, pattern_is_mark, pattern_set_enum_spec, pattern_set_spec, pattern_slot_count};
use crate::fields::{PatternField, PatternEnumType, PatternSymbol, pattern_classify, pattern_symbol_spec};
use crate::track::{Track, TrackView, track_enum_slot_count, track_enum_value, track_enum_slots, track_field_is_mark, track_field_settable, track_field_slot_count, track_get_spec, track_is_mark, track_set_enum_spec, track_set_spec, track_slot_count};
use crate::fields::{TrackField, TrackEnumType, TrackSymbol, track_classify, track_symbol_spec};
use crate::trig::{Trig, TrigView, trig_enum_slot_count, trig_enum_value, trig_enum_slots, trig_field_is_mark, trig_field_settable, trig_field_slot_count, trig_get_spec, trig_is_mark, trig_set_enum_spec, trig_set_spec, trig_slot_count};
use crate::fields::{TrigField, TrigEnumType, TrigSymbol, trig_classify, trig_symbol_spec};
use crate::kit::{Kit, KitView, kit_enum_slot_count, kit_enum_value, kit_enum_slots, kit_field_is_mark, kit_field_settable, kit_field_slot_count, kit_get_spec, kit_is_mark, kit_set_enum_spec, kit_set_spec, kit_slot_count};
use crate::fields::{KitField, KitEnumType, KitSymbol, kit_classify, kit_symbol_spec};
use crate::sound::{Sound, SoundView, sound_enum_slot_count, sound_enum_value, sound_enum_slots, sound_field_is_mark, sound_field_settable, sound_field_slot_count, sound_get_spec, sound_is_mark, sound_set_enum_spec, sound_set_spec, sound_slot_count};
use crate::fields::{SoundField, SoundEnumType, SoundSymbol, sound_classify, sound_symbol_spec};
use crate::global_slot::{Global, GlobalView, global_enum_slot_count, global_enum_value, global_enum_slots, global_field_is_mark, global_field_settable, global_field_slot_count, global_get_spec, global_is_mark, global_set_enum_spec, global_set_spec, global_slot_count};
use crate::fields::{GlobalField, GlobalEnumType, GlobalSymbol, global_classify, global_symbol_spec};
use crate::settings::{Settings, SettingsView, settings_enum_slot_count, settings_enum_value, settings_enum_slots, settings_field_is_mark, settings_field_settable, settings_field_slot_count, settings_get_spec, settings_is_mark, settings_set_enum_spec, settings_set_spec, settings_slot_count};
use crate::fields::{SettingsField, SettingsEnumType, SettingsSymbol, settings_classify, settings_symbol_spec};

verus! {

/// A format error: the token stream ended, or a token had the wrong shape.
pub fn fmt_err() -> (r: RytmExternalError)
    ensures
        r is Setter,
{
    RytmExternalError::Setter(
        SetError::InvalidFormat("the message ended before the expected token".to_owned()),
    )
}

/// An unknown-identifier error echoing the offending symbol.
pub fn ident_err(s: &String) -> (r: RytmExternalError)
    ensures
        r is Identifier,
{
    RytmExternalError::Identifier(IdentifierError::InvalidType(s.clone()))
}

/// An unknown-enumerated-type error echoing the offending type symbol.
pub fn enum_err(s: &String) -> (r: RytmExternalError)
    ensures
        r is Enum,
{
    RytmExternalError::Enum(EnumError::InvalidEnumType(s.clone()))
}

/// An invalid-variant error echoing the offending variant symbol.
pub fn variant_err(s: &String) -> (r: RytmExternalError)
    ensures
        r is Enum,
{
    RytmExternalError::Enum(EnumError::InvalidEnumValue(s.clone()))
}

/// A parameter-coercion error echoing the identifier it followed.
pub fn param_err(s: &String) -> (r: RytmExternalError)
    ensures
        r is Identifier,
{
    RytmExternalError::Identifier(
        IdentifierError::InvalidParameter("the parameter token cannot be coerced".to_owned(), s.clone()),
    )
}

/// An out-of-range or missing auxiliary slot index, echoing the identifier.
pub fn range_err(s: &String) -> (r: RytmExternalError)
    ensures
        r is Identifier,
{
    RytmExternalError::Identifier(
        IdentifierError::InvalidParameter("the slot index is missing or out of range".to_owned(), s.clone()),
    )
}

/// Reads the auxiliary slot token at position `j`, bounded by `n`.
pub fn slot_token(toks: &Vec<Token>, j: usize, n: usize) -> (r: Option<usize>)
    requires
        n <= 100,
    ensures
        match r {
            Some(sl) => j < toks.deep_view().len() && (token_int(toks.deep_view()[j as int])
                matches Some(v) && 0 <= v < n && sl == v as usize),
            None => !(j < toks.deep_view().len() && (token_int(toks.deep_view()[j as int])
                matches Some(v) && 0 <= v < n)),
        },
{
    if j < toks.len() {
        match &toks[j] {
            Token::Int(v) => {
                if 0 <= *v && *v < n as i64 {
                    Some(*v as usize)
                } else {
                    None
                }
            },
            _ => None,
        }
    } else {
        None
    }
}

/// Executable form of the settable check for pattern fields.
pub fn pattern_settable_exec(f: PatternField) -> (r: bool)
    ensures
        r == pattern_field_settable(f),
{
    match f {
        PatternField::IsWb => false,
        PatternField::Version => false,
        PatternField::Index => false,
        PatternField::MasterLength => true,
        PatternField::MasterChange => true,
        PatternField::KitNumber => true,
        PatternField::SwingAmount => true,
        PatternField::GlobalQuantize => true,
        PatternField::Bpm => true,
    }
}

/// Executable form of the settable check for track fields.
pub fn track_settable_exec(f: TrackField) -> (r: bool)
    ensures
        r == track_field_settable(f),
{
    match f {
        TrackField::Index => false,
        TrackField::OwnerIndex => false,
        TrackField::DefTrigNote => true,
        TrackField::DefTrigVelocity => true,
        TrackField::DefTrigProb => true,
        TrackField::NumberOfSteps => true,
        TrackField::QuantizeAmount => true,
        TrackField::SendsMidi => true,
        TrackField::EuclideanMode => true,
        TrackField::EuclideanPl1 => true,
        TrackField::EuclideanPl2 => true,
        TrackField::EuclideanRo1 => true,
        TrackField::EuclideanRo2 => true,
        TrackField::EuclideanTro => true,
    }
}

/// Executable form of the settable check for trig fields.
pub fn trig_settable_exec(f: TrigField) -> (r: bool)
    ensures
        r == trig_field_settable(f),
{
    match f {
        TrigField::Enable => true,
        TrigField::Retrig => true,
        TrigField::Mute => true,
        TrigField::Accent => true,
        TrigField::Swing => true,
        TrigField::Slide => true,
        TrigField::Note => true,
        TrigField::Velocity => true,
        TrigField::RetrigVelOffset => true,
        TrigField::SoundLock => true,
    }
}

/// Executable form of the settable check for kit fields.
pub fn kit_settable_exec(f: KitField) -> (r: bool)
    ensures
        r == kit_field_settable(f),
{
    match f {
        KitField::Version => false,
        KitField::Index => false,
        KitField::Name => true,
        KitField::FxDelayTime => true,
        KitField::FxDelayPingPong => true,
        KitField::FxDelayStereoWidth => true,
        KitField::FxDelayFeedback => true,
        KitField::FxDelayHpf => true,
        KitField::FxDelayLpf => true,
        KitField::FxDelayReverbSend => true,
        KitField::FxDelayVolume => true,
        KitField::FxReverbPreDelay => true,
        KitField::FxReverbDecay => true,
        KitField::FxReverbFreq => true,
        KitField::FxReverbGain => true,
        KitField::FxReverbHpf => true,
        KitField::FxReverbLpf => true,
        KitField::FxReverbVolume => true,
        KitField::FxCompThreshold => true,
        KitField::FxCompGain => true,
        KitField::FxCompMix => true,
        KitField::FxCompVolume => true,
        KitField::FxLfoSpeed => true,
        KitField::FxLfoFade => true,
        KitField::FxLfoStartPhase => true,
        KitField::FxLfoDepth => true,
    }
}

/// Executable form of the settable check for sound fields.
pub fn sound_settable_exec(f: SoundField) -> (r: bool)
    ensures
        r == sound_field_settable(f),
{
    match f {
        SoundField::Name => true,
        SoundField::AccentLevel => true,
        SoundField::AmpAttack => true,
        SoundField::AmpHold => true,
        SoundField::AmpDecay => true,
        SoundField::AmpOverdrive => true,
        SoundField::AmpDelaySend => true,
        SoundField::AmpReverbSend => true,
        SoundField::AmpPan => true,
        SoundField::AmpVolume => true,
        SoundField::FiltAttack => true,
        SoundField::FiltHold => true,
        SoundField::FiltDecay => true,
        SoundField::FiltRelease => true,
        SoundField::FiltCutoff => true,
        SoundField::FiltResonance => true,
        SoundField::FiltEnvAmount => true,
        SoundField::LfoSpeed => true,
        SoundField::LfoFade => true,
        SoundField::LfoStartPhase => true,
        SoundField::LfoDepth => true,
        SoundField::SampTune => true,
        SoundField::SampFineTune => true,
        SoundField::SampNumber => true,
        SoundField::SampBitReduction => true,
        SoundField::SampStart => true,
        SoundField::SampEnd => true,
        SoundField::SampLoopFlag => true,
        SoundField::SampVolume => true,
        SoundField::VelModAmt => true,
        SoundField::AtModAmt => true,
        SoundField::EnvResetFilter => true,
        SoundField::VelToVol => true,
        SoundField::LegacyFxSend => true,
    }
}

/// Executable form of the settable check for global fields.
pub fn global_settable_exec(f: GlobalField) -> (r: bool)
    ensures
        r == global_field_settable(f),
{
    match f {
        GlobalField::Version => false,
        GlobalField::Index => false,
        GlobalField::IsWb => false,
        GlobalField::KitReloadOnChange => true,
        GlobalField::QuantizeLiveRec => true,
        GlobalField::AutoTrackSwitch => true,
        GlobalField::RouteToMain => true,
        GlobalField::SendToFx => true,
        GlobalField::ClockReceive => true,
        GlobalField::ClockSend => true,
        GlobalField::TransportReceive => true,
        GlobalField::TransportSend => true,
        GlobalField::ProgramChangeReceive => true,
        GlobalField::ProgramChangeSend => true,
        GlobalField::ReceiveNotes => true,
        GlobalField::ReceiveCcNrpn => true,
        GlobalField::TurboSpeed => false,
        GlobalField::MetronomeActive => true,
        GlobalField::MetronomePreRollBars => true,
        GlobalField::MetronomeVolume => true,
    }
}

/// Executable form of the settable check for settings fields.
pub fn settings_settable_exec(f: SettingsField) -> (r: bool)
    ensures
        r == settings_field_settable(f),
{
    match f {
        SettingsField::BpmProject => true,
        SettingsField::SelectedTrack => true,
        SettingsField::SelectedPage => true,
        SettingsField::Mute => true,
        SettingsField::FixedVelocityEnable => true,
        SettingsField::FixedVelocityAmount => true,
        SettingsField::SampleRecorderThr => true,
        SettingsField::SampleRecorderMonitor => true,
    }
}

/// What a set message does at a pattern-level identifier position `i`:
/// the produced state, or nothing where the message is in error.
pub open spec fn pattern_leaf_set_msg(v: PatternView, toks: Seq<TokenV>, i: int) -> Option<PatternView> {
    if !(0 <= i < toks.len()) {
        None
    } else {
        match toks[i] {
            TokenV::Sym(sym) => if !vstd::utf8::is_ascii_chars(sym) {
                None
            } else {
                match enum_split(sym) {
                    Some(parts) => match pattern_symbol_spec(parts.0) {
                        Some(PatternSymbol::EnumType(t)) => {
                            if pattern_enum_slot_count(t) == 1 {
                                pattern_set_enum_spec(v, t, 0, parts.1)
                            } else if i + 1 < toks.len() {
                                match token_int(toks[i + 1]) {
                                    Some(sl) => if 0 <= sl < pattern_enum_slot_count(t) {
                                        pattern_set_enum_spec(v, t, sl as int, parts.1)
                                    } else {
                                        None
                                    },
                                    None => None,
                                }
                            } else {
                                None
                            }
                        },
                        _ => None,
                    },
                    None => match pattern_symbol_spec(sym) {
                        Some(PatternSymbol::Plain(f)) => if !pattern_field_settable(f) {
                            None
                        } else if pattern_field_is_mark(f) {
                            if i + 1 < toks.len() {
                                match token_int(toks[i + 1]) {
                                    Some(sl) => if 0 <= sl < pattern_field_slot_count(f) {
                                        pattern_set_spec(v, f, sl as int, toks[i + 1])
                                    } else {
                                        None
                                    },
                                    None => None,
                                }
                            } else {
                                None
                            }
                        } else if pattern_field_slot_count(f) == 1 {
                            if i + 1 < toks.len() {
                                pattern_set_spec(v, f, 0, toks[i + 1])
                            } else {
                                None
                            }
                        } else if i + 2 < toks.len() {
                            match token_int(toks[i + 1]) {
                                Some(sl) => if 0 <= sl < pattern_field_slot_count(f) {
                                    pattern_set_spec(v, f, sl as int, toks[i + 2])
                                } else {
                                    None
                                },
                                None => None,
                            }
                        } else {
                            None
                        },
                        _ => None,
                    },
                }
            },
            _ => None,
        }
    }
}

/// What a get message reads at a pattern-level identifier position `i`, echoed
/// as the reply tuple (identifier, top-level index, value), or nothing
/// where the message is in error.
pub open spec fn pattern_leaf_get_msg(v: PatternView, toks: Seq<TokenV>, i: int, top: i64) -> Option<
    Seq<TokenV>,
> {
    if !(0 <= i < toks.len()) {
        None
    } else {
        match toks[i] {
            TokenV::Sym(sym) => if !vstd::utf8::is_ascii_chars(sym) {
                None
            } else {
                match enum_split(sym) {
                    Some(parts) => match pattern_symbol_spec(parts.0) {
                        Some(PatternSymbol::EnumType(t)) => {
                            if pattern_enum_slot_count(t) == 1 {
                                Some(
                                    seq![
                                        TokenV::Sym(parts.0),
                                        TokenV::Int(top),
                                        TokenV::Sym(pattern_enum_value(v, t, 0)),
                                    ],
                                )
                            } else {
                                match crate::numparse::small_dec_value(parts.1) {
                                    Some(sl) => if 0 <= sl < pattern_enum_slot_count(t) {
                                        Some(
                                            seq![
                                                TokenV::Sym(parts.0),
                                                TokenV::Int(top),
                                                TokenV::Sym(pattern_enum_value(v, t, sl as int)),
                                            ],
                                        )
                                    } else {
                                        None
                                    },
                                    None => None,
                                }
                            }
                        },
                        _ => None,
                    },
                    None => match pattern_symbol_spec(sym) {
                        Some(PatternSymbol::Plain(f)) => if pattern_field_slot_count(f) == 1 {
                            Some(
                                seq![
                                    TokenV::Sym(sym),
                                    TokenV::Int(top),
                                    pattern_get_spec(v, f, 0),
                                ],
                            )
                        } else if i + 1 < toks.len() {
                            match token_int(toks[i + 1]) {
                                Some(sl) => if 0 <= sl < pattern_field_slot_count(f) {
                                    Some(
                                        seq![
                                            TokenV::Sym(sym),
                                            TokenV::Int(top),
                                            pattern_get_spec(v, f, sl as int),
                                        ],
                                    )
                                } else {
                                    None
                                },
                                None => None,
                            }
                        } else {
                            None
                        },
                        Some(PatternSymbol::EnumType(t)) => {
                            if pattern_enum_slot_count(t) == 1 {
                                Some(
                                    seq![
                                        TokenV::Sym(sym),
                                        TokenV::Int(top),
                                        TokenV::Sym(pattern_enum_value(v, t, 0)),
                                    ],
                                )
                            } else if i + 1 < toks.len() {
                                match token_int(toks[i + 1]) {
                                    Some(sl) => if 0 <= sl < pattern_enum_slot_count(t) {
                                        Some(
                                            seq![
                                                TokenV::Sym(sym),
                                                TokenV::Int(top),
                                                TokenV::Sym(pattern_enum_value(v, t, sl as int)),
                                            ],
                                        )
                                    } else {
                                        None
                                    },
                                    None => None,
                                }
                            } else {
                                None
                            }
                        },
                        _ => None,
                    },
                }
            },
            _ => None,
        }
    }
}

/// Applies a set message at a pattern-level identifier position.
pub fn pattern_handle_leaf_set(obj: &mut Pattern, toks: &Vec<Token>, i: usize) -> (r: Result<
    (),
    RytmExternalError,
>)
    requires
        old(obj).wf(),
    ensures
        final(obj).wf(),
        match pattern_leaf_set_msg(old(obj)@, toks.deep_view(), i as int) {
            Some(v2) => r is Ok && final(obj)@ =~~= v2,
            None => r is Err && final(obj)@ =~~= old(obj)@,
        },
{
    if i >= toks.len() {
        return Err(fmt_err());
    }
    let sym = match &toks[i] {
        Token::Sym(s) => s,
        _ => {
            return Err(fmt_err());
        },
    };
    if !sym.as_str().is_ascii() {
        return Err(ident_err(sym));
    }
    match crate::strutil::split_colon(sym) {
        Some(parts) => {
            let t = match pattern_classify(&parts.0) {
                Some(PatternSymbol::EnumType(t)) => t,
                _ => {
                    return Err(enum_err(&parts.0));
                },
            };
            let n = pattern_enum_slots(t);
            let slot: usize = if n == 1 {
                0
            } else {
                match slot_token(toks, i + 1, n) {
                    Some(sl) => sl,
                    None => {
                        return Err(range_err(sym));
                    },
                }
            };
            if obj.set_enum(t, slot, &parts.1) {
                Ok(())
            } else {
                Err(variant_err(&parts.1))
            }
        },
        None => {
            let f = match pattern_classify(sym) {
                Some(PatternSymbol::Plain(f)) => f,
                _ => {
                    return Err(ident_err(sym));
                },
            };
            if !pattern_settable_exec(f) {
                return Err(ident_err(sym));
            }
            let n = pattern_slot_count(f);
            if pattern_is_mark(f) {
                match slot_token(toks, i + 1, n) {
                    Some(sl) => {
                        let tk = &toks[i + 1];
                        if obj.set_field(f, sl, tk) {
                            Ok(())
                        } else {
                            Err(param_err(sym))
                        }
                    },
                    None => Err(range_err(sym)),
                }
            } else if n == 1 {
                if i + 1 < toks.len() {
                    let tk = &toks[i + 1];
                    if obj.set_field(f, 0, tk) {
                        Ok(())
                    } else {
                        Err(param_err(sym))
                    }
                } else {
                    Err(fmt_err())
                }
            } else {
                if toks.len() > 2 && i < toks.len() - 2 {
                    match slot_token(toks, i + 1, n) {
                        Some(sl) => {
                            let tk = &toks[i + 2];
                            if obj.set_field(f, sl, tk) {
                                Ok(())
                            } else {
                                Err(param_err(sym))
                            }
                        },
                        None => Err(range_err(sym)),
                    }
                } else {
                    Err(fmt_err())
                }
            }
        },
    }
}

/// Reads at a pattern-level identifier position, producing the reply tuple.
pub fn pattern_handle_leaf_get(obj: &Pattern, toks: &Vec<Token>, i: usize, top: i64) -> (r: Result<
    Vec<Token>,
    RytmExternalError,
>)
    requires
        obj.wf(),
    ensures
        match pattern_leaf_get_msg(obj@, toks.deep_view(), i as int, top) {
            Some(out) => r matches Ok(o) && o.deep_view() =~~= out,
            None => r is Err,
        },
{
    if i >= toks.len() {
        return Err(fmt_err());
    }
    let sym = match &toks[i] {
        Token::Sym(s) => s,
        _ => {
            return Err(fmt_err());
        },
    };
    if !sym.as_str().is_ascii() {
        return Err(ident_err(sym));
    }
    match crate::strutil::split_colon(sym) {
        Some(parts) => {
            let t = match pattern_classify(&parts.0) {
                Some(PatternSymbol::EnumType(t)) => t,
                _ => {
                    return Err(enum_err(&parts.0));
                },
            };
            let n = pattern_enum_slots(t);
            let slot: usize = if n == 1 {
                0
            } else {
                match crate::numparse::parse_small_dec(&parts.1) {
                    Some(sl) => {
                        if 0 <= sl && (sl as usize) < n {
                            sl as usize
                        } else {
                            return Err(range_err(sym));
                        }
                    },
                    None => {
                        return Err(range_err(sym));
                    },
                }
            };
            let value = obj.get_enum(t, slot);
            Ok(triple(Token::Sym(parts.0), Token::Int(top), Token::Sym(value)))
        },
        None => {
            match pattern_classify(sym) {
                Some(PatternSymbol::Plain(f)) => {
                    let n = pattern_slot_count(f);
                    let slot: usize = if n == 1 {
                        0
                    } else {
                        match slot_token(toks, i + 1, n) {
                            Some(sl) => sl,
                            None => {
                                return Err(range_err(sym));
                            },
                        }
                    };
                    let value = obj.get_field(f, slot);
                    Ok(triple(Token::Sym(sym.clone()), Token::Int(top), value))
                },
                Some(PatternSymbol::EnumType(t)) => {
                    let n = pattern_enum_slots(t);
                    let slot: usize = if n == 1 {
                        0
                    } else {
                        match slot_token(toks, i + 1, n) {
                            Some(sl) => sl,
                            None => {
                                return Err(range_err(sym));
                            },
                        }
                    };
                    let value = obj.get_enum(t, slot);
                    Ok(triple(Token::Sym(sym.clone()), Token::Int(top), Token::Sym(value)))
                },
                _ => Err(ident_err(sym)),
            }
        },
    }
}

/// What a set message does at a track-level identifier position `i`:
/// the produced state, or nothing where the message is in error.
pub open spec fn track_leaf_set_msg(v: TrackView, toks: Seq<TokenV>, i: int) -> Option<TrackView> {
    if !(0 <= i < toks.len()) {
        None
    } else {
        match toks[i] {
            TokenV::Sym(sym) => if !vstd::utf8::is_ascii_chars(sym) {
                None
            } else {
                match enum_split(sym) {
                    Some(parts) => match track_symbol_spec(parts.0) {
                        Some(TrackSymbol::EnumType(t)) => {
                            if track_enum_slot_count(t) == 1 {
                                track_set_enum_spec(v, t, 0, parts.1)
                            } else if i + 1 < toks.len() {
                                match token_int(toks[i + 1]) {
                                    Some(sl) => if 0 <= sl < track_enum_slot_count(t) {
                                        track_set_enum_spec(v, t, sl as int, parts.1)
                                    } else {
                                        None
                                    },
                                    None => None,
                                }
                            } else {
                                None
                            }
                        },
                        _ => None,
                    },
                    None => match track_symbol_spec(sym) {
                        Some(TrackSymbol::Plain(f)) => if !track_field_settable(f) {
                            None
                        } else if track_field_is_mark(f) {
                            if i + 1 < toks.len() {
                                match token_int(toks[i + 1]) {
                                    Some(sl) => if 0 <= sl < track_field_slot_count(f) {
                                        track_set_spec(v, f, sl as int, toks[i + 1])
                                    } else {
                                        None
                                    },
                                    None => None,
                                }
                            } else {
                                None
                            }
                        } else if track_field_slot_count(f) == 1 {
                            if i + 1 < toks.len() {
                                track_set_spec(v, f, 0, toks[i + 1])
                            } else {
                                None
                            }
                        } else if i + 2 < toks.len() {
                            match token_int(toks[i + 1]) {
                                Some(sl) => if 0 <= sl < track_field_slot_count(f) {
                                    track_set_spec(v, f, sl as int, toks[i + 2])
                                } else {
                                    None
                                },
                                None => None,
                            }
                        } else {
                            None
                        },
                        _ => None,
                    },
                }
            },
            _ => None,
        }
    }
}

/// What a get message reads at a track-level identifier position `i`, echoed
/// as the reply tuple (identifier, top-level index, value), or nothing
/// where the message is in error.
pub open spec fn track_leaf_get_msg(v: TrackView, toks: Seq<TokenV>, i: int, top: i64) -> Option<
    Seq<TokenV>,
> {
    if !(0 <= i < toks.len()) {
        None
    } else {
        match toks[i] {
            TokenV::Sym(sym) => if !vstd::utf8::is_ascii_chars(sym) {
                None
            } else {
                match enum_split(sym) {
                    Some(parts) => match track_symbol_spec(parts.0) {
                        Some(TrackSymbol::EnumType(t)) => {
                            if track_enum_slot_count(t) == 1 {
                                Some(
                                    seq![
                                        TokenV::Sym(parts.0),
                                        TokenV::Int(top),
                                        TokenV::Sym(track_enum_value(v, t, 0)),
                                    ],
                                )
                            } else {
                                match crate::numparse::small_dec_value(parts.1) {
                                    Some(sl) => if 0 <= sl < track_enum_slot_count(t) {
                                        Some(
                                            seq![
                                                TokenV::Sym(parts.0),
                                                TokenV::Int(top),
                                                TokenV::Sym(track_enum_value(v, t, sl as int)),
                                            ],
                                        )
                                    } else {
                                        None
                                    },
                                    None => None,
                                }
                            }
                        },
                        _ => None,
                    },
                    None => match track_symbol_spec(sym) {
                        Some(TrackSymbol::Plain(f)) => if track_field_slot_count(f) == 1 {
                            Some(
                                seq![
                                    TokenV::Sym(sym),
                                    TokenV::Int(top),
                                    track_get_spec(v, f, 0),
                                ],
                            )
                        } else if i + 1 < toks.len() {
                            match token_int(toks[i + 1]) {
                                Some(sl) => if 0 <= sl < track_field_slot_count(f) {
                                    Some(
                                        seq![
                                            TokenV::Sym(sym),
                                            TokenV::Int(top),
                                            track_get_spec(v, f, sl as int),
                                        ],
                                    )
                                } else {
                                    None
                                },
                                None => None,
                            }
                        } else {
                            None
                        },
                        Some(TrackSymbol::EnumType(t)) => {
                            if track_enum_slot_count(t) == 1 {
                                Some(
                                    seq![
                                        TokenV::Sym(sym),
                                        TokenV::Int(top),
                                        TokenV::Sym(track_enum_value(v, t, 0)),
                                    ],
                                )
                            } else if i + 1 < toks.len() {
                                match token_int(toks[i + 1]) {
                                    Some(sl) => if 0 <= sl < track_enum_slot_count(t) {
                                        Some(
                                            seq![
                                                TokenV::Sym(sym),
                                                TokenV::Int(top),
                                                TokenV::Sym(track_enum_value(v, t, sl as int)),
                                            ],
                                        )
                                    } else {
                                        None
                                    },
                                    None => None,
                                }
                            } else {
                                None
                            }
                        },
                        _ => None,
                    },
                }
            },
            _ => None,
        }
    }
}

/// Applies a set message at a track-level identifier position.
pub fn track_handle_leaf_set(obj: &mut Track, toks: &Vec<Token>, i: usize) -> (r: Result<
    (),
    RytmExternalError,
>)
    requires
        old(obj).wf(),
    ensures
        final(obj).wf(),
        match track_leaf_set_msg(old(obj)@, toks.deep_view(), i as int) {
            Some(v2) => r is Ok && final(obj)@ =~~= v2,
            None => r is Err && final(obj)@ =~~= old(obj)@,
        },
{
    if i >= toks.len() {
        return Err(fmt_err());
    }
    let sym = match &toks[i] {
        Token::Sym(s) => s,
        _ => {
            return Err(fmt_err());
        },
    };
    if !sym.as_str().is_ascii() {
        return Err(ident_err(sym));
    }
    match crate::strutil::split_colon(sym) {
        Some(parts) => {
            let t = match track_classify(&parts.0) {
                Some(TrackSymbol::EnumType(t)) => t,
                _ => {
                    return Err(enum_err(&parts.0));
                },
            };
            let n = track_enum_slots(t);
            let slot: usize = if n == 1 {
                0
            } else {
                match slot_token(toks, i + 1, n) {
                    Some(sl) => sl,
                    None => {
                        return Err(range_err(sym));
                    },
                }
            };
            if obj.set_enum(t, slot, &parts.1) {
                Ok(())
            } else {
                Err(variant_err(&parts.1))
            }
        },
        None => {
            let f = match track_classify(sym) {
                Some(TrackSymbol::Plain(f)) => f,
                _ => {
                    return Err(ident_err(sym));
                },
            };
            if !track_settable_exec(f) {
                return Err(ident_err(sym));
            }
            let n = track_slot_count(f);
            if track_is_mark(f) {
                match slot_token(toks, i + 1, n) {
                    Some(sl) => {
                        let tk = &toks[i + 1];
                        if obj.set_field(f, sl, tk) {
                            Ok(())
                        } else {
                            Err(param_err(sym))
                        }
                    },
                    None => Err(range_err(sym)),
                }
            } else if n == 1 {
                if i + 1 < toks.len() {
                    let tk = &toks[i + 1];
                    if obj.set_field(f, 0, tk) {
                        Ok(())
                    } else {
                        Err(param_err(sym))
                    }
                } else {
                    Err(fmt_err())
                }
            } else {
                if toks.len() > 2 && i < toks.len() - 2 {
                    match slot_token(toks, i + 1, n) {
                        Some(sl) => {
                            let tk = &toks[i + 2];
                            if obj.set_field(f, sl, tk) {
                                Ok(())
                            } else {
                                Err(param_err(sym))
                            }
                        },
                        None => Err(range_err(sym)),
                    }
                } else {
                    Err(fmt_err())
                }
            }
        },
    }
}

/// Reads at a track-level identifier position, producing the reply tuple.
pub fn track_handle_leaf_get(obj: &Track, toks: &Vec<Token>, i: usize, top: i64) -> (r: Result<
    Vec<Token>,
    RytmExternalError,
>)
    requires
        obj.wf(),
    ensures
        match track_leaf_get_msg(obj@, toks.deep_view(), i as int, top) {
            Some(out) => r matches Ok(o) && o.deep_view() =~~= out,
            None => r is Err,
        },
{
    if i >= toks.len() {
        return Err(fmt_err());
    }
    let sym = match &toks[i] {
        Token::Sym(s) => s,
        _ => {
            return Err(fmt_err());
        },
    };
    if !sym.as_str().is_ascii() {
        return Err(ident_err(sym));
    }
    match crate::strutil::split_colon(sym) {
        Some(parts) => {
            let t = match track_classify(&parts.0) {
                Some(TrackSymbol::EnumType(t)) => t,
                _ => {
                    return Err(enum_err(&parts.0));
                },
            };
            let n = track_enum_slots(t);
            let slot: usize = if n == 1 {
                0
            } else {
                match crate::numparse::parse_small_dec(&parts.1) {
                    Some(sl) => {
                        if 0 <= sl && (sl as usize) < n {
                            sl as usize
                        } else {
                            return Err(range_err(sym));
                        }
                    },
                    None => {
                        return Err(range_err(sym));
                    },
                }
            };
            let value = obj.get_enum(t, slot);
            Ok(triple(Token::Sym(parts.0), Token::Int(top), Token::Sym(value)))
        },
        None => {
            match track_classify(sym) {
                Some(TrackSymbol::Plain(f)) => {
                    let n = track_slot_count(f);
                    let slot: usize = if n == 1 {
                        0
                    } else {
                        match slot_token(toks, i + 1, n) {
                            Some(sl) => sl,
                            None => {
                                return Err(range_err(sym));
                            },
                        }
                    };
                    let value = obj.get_field(f, slot);
                    Ok(triple(Token::Sym(sym.clone()), Token::Int(top), value))
                },
                Some(TrackSymbol::EnumType(t)) => {
                    let n = track_enum_slots(t);
                    let slot: usize = if n == 1 {
                        0
                    } else {
                        match slot_token(toks, i + 1, n) {
                            Some(sl) => sl,
                            None => {
                                return Err(range_err(sym));
                            },
                        }
                    };
                    let value = obj.get_enum(t, slot);
                    Ok(triple(Token::Sym(sym.clone()), Token::Int(top), Token::Sym(value)))
                },
                _ => Err(ident_err(sym)),
            }
        },
    }
}

/// What a set message does at a trig-level identifier position `i`:
/// the produced state, or nothing where the message is in error.
pub open spec fn trig_leaf_set_msg(v: TrigView, toks: Seq<TokenV>, i: int) -> Option<TrigView> {
    if !(0 <= i < toks.len()) {
        None
    } else {
        match toks[i] {
            TokenV::Sym(sym) => if !vstd::utf8::is_ascii_chars(sym) {
                None
            } else {
                match enum_split(sym) {
                    Some(parts) => match trig_symbol_spec(parts.0) {
                        Some(TrigSymbol::EnumType(t)) => {
                            if trig_enum_slot_count(t) == 1 {
                                trig_set_enum_spec(v, t, 0, parts.1)
                            } else if i + 1 < toks.len() {
                                match token_int(toks[i + 1]) {
                                    Some(sl) => if 0 <= sl < trig_enum_slot_count(t) {
                                        trig_set_enum_spec(v, t, sl as int, parts.1)
                                    } else {
                                        None
                                    },
                                    None => None,
                                }
                            } else {
                                None
                            }
                        },
                        _ => None,
                    },
                    None => match trig_symbol_spec(sym) {
                        Some(TrigSymbol::Plain(f)) => if !trig_field_settable(f) {
                            None
                        } else if trig_field_is_mark(f) {
                            if i + 1 < toks.len() {
                                match token_int(toks[i + 1]) {
                                    Some(sl) => if 0 <= sl < trig_field_slot_count(f) {
                                        trig_set_spec(v, f, sl as int, toks[i + 1])
                                    } else {
                                        None
                                    },
                                    None => None,
                                }
                            } else {
                                None
                            }
                        } else if trig_field_slot_count(f) == 1 {
                            if i + 1 < toks.len() {
                                trig_set_spec(v, f, 0, toks[i + 1])
                            } else {
                                None
                            }
                        } else if i + 2 < toks.len() {
                            match token_int(toks[i + 1]) {
                                Some(sl) => if 0 <= sl < trig_field_slot_count(f) {
                                    trig_set_spec(v, f, sl as int, toks[i + 2])
                                } else {
                                    None
                                },
                                None => None,
                            }
                        } else {
                            None
                        },
                        _ => None,
                    },
                }
            },
            _ => None,
        }
    }
}

/// What a get message reads at a trig-level identifier position `i`, echoed
/// as the reply tuple (identifier, top-level index, value), or nothing
/// where the message is in error.
pub open spec fn trig_leaf_get_msg(v: TrigView, toks: Seq<TokenV>, i: int, top: i64) -> Option<
    Seq<TokenV>,
> {
    if !(0 <= i < toks.len()) {
        None
    } else {
        match toks[i] {
            TokenV::Sym(sym) => if !vstd::utf8::is_ascii_chars(sym) {
                None
            } else {
                match enum_split(sym) {
                    Some(parts) => match trig_symbol_spec(parts.0) {
                        Some(TrigSymbol::EnumType(t)) => {
                            if trig_enum_slot_count(t) == 1 {
                                Some(
                                    seq![
                                        TokenV::Sym(parts.0),
                                        TokenV::Int(top),
                                        TokenV::Sym(trig_enum_value(v, t, 0)),
                                    ],
                                )
                            } else {
                                match crate::numparse::small_dec_value(parts.1) {
                                    Some(sl) => if 0 <= sl < trig_enum_slot_count(t) {
                                        Some(
                                            seq![
                                                TokenV::Sym(parts.0),
                                                TokenV::Int(top),
                                                TokenV::Sym(trig_enum_value(v, t, sl as int)),
                                            ],
                                        )
                                    } else {
                                        None
                                    },
                                    None => None,
                                }
                            }
                        },
                        _ => None,
                    },
                    None => match trig_symbol_spec(sym) {
                        Some(TrigSymbol::Plain(f)) => if trig_field_slot_count(f) == 1 {
                            Some(
                                seq![
                                    TokenV::Sym(sym),
                                    TokenV::Int(top),
                                    trig_get_spec(v, f, 0),
                                ],
                            )
                        } else if i + 1 < toks.len() {
                            match token_int(toks[i + 1]) {
                                Some(sl) => if 0 <= sl < trig_field_slot_count(f) {
                                    Some(
                                        seq![
                                            TokenV::Sym(sym),
                                            TokenV::Int(top),
                                            trig_get_spec(v, f, sl as int),
                                        ],
                                    )
                                } else {
                                    None
                                },
                                None => None,
                            }
                        } else {
                            None
                        },
                        Some(TrigSymbol::EnumType(t)) => {
                            if trig_enum_slot_count(t) == 1 {
                                Some(
                                    seq![
                                        TokenV::Sym(sym),
                                        TokenV::Int(top),
                                        TokenV::Sym(trig_enum_value(v, t, 0)),
                                    ],
                                )
                            } else if i + 1 < toks.len() {
                                match token_int(toks[i + 1]) {
                                    Some(sl) => if 0 <= sl < trig_enum_slot_count(t) {
                                        Some(
                                            seq![
                                                TokenV::Sym(sym),
                                                TokenV::Int(top),
                                                TokenV::Sym(trig_enum_value(v, t, sl as int)),
                                            ],
                                        )
                                    } else {
                                        None
                                    },
                                    None => None,
                                }
                            } else {
                                None
                            }
                        },
                        _ => None,
                    },
                }
            },
            _ => None,
        }
    }
}

/// Applies a set message at a trig-level identifier position.
pub fn trig_handle_leaf_set(obj: &mut Trig, toks: &Vec<Token>, i: usize) -> (r: Result<
    (),
    RytmExternalError,
>)
    requires
        old(obj).wf(),
    ensures
        final(obj).wf(),
        match trig_leaf_set_msg(old(obj)@, toks.deep_view(), i as int) {
            Some(v2) => r is Ok && final(obj)@ =~~= v2,
            None => r is Err && final(obj)@ =~~= old(obj)@,
        },
{
    if i >= toks.len() {
        return Err(fmt_err());
    }
    let sym = match &toks[i] {
        Token::Sym(s) => s,
        _ => {
            return Err(fmt_err());
        },
    };
    if !sym.as_str().is_ascii() {
        return Err(ident_err(sym));
    }
    match crate::strutil::split_colon(sym) {
        Some(parts) => {
            let t = match trig_classify(&parts.0) {
                Some(TrigSymbol::EnumType(t)) => t,
                _ => {
                    return Err(enum_err(&parts.0));
                },
            };
            let n = trig_enum_slots(t);
            let slot: usize = if n == 1 {
                0
            } else {
                match slot_token(toks, i + 1, n) {
                    Some(sl) => sl,
                    None => {
                        return Err(range_err(sym));
                    },
                }
            };
            if obj.set_enum(t, slot, &parts.1) {
                Ok(())
            } else {
                Err(variant_err(&parts.1))
            }
        },
        None => {
            let f = match trig_classify(sym) {
                Some(TrigSymbol::Plain(f)) => f,
                _ => {
                    return Err(ident_err(sym));
                },
            };
            if !trig_settable_exec(f) {
                return Err(ident_err(sym));
            }
            let n = trig_slot_count(f);
            if trig_is_mark(f) {
                match slot_token(toks, i + 1, n) {
                    Some(sl) => {
                        let tk = &toks[i + 1];
                        if obj.set_field(f, sl, tk) {
                            Ok(())
                        } else {
                            Err(param_err(sym))
                        }
                    },
                    None => Err(range_err(sym)),
                }
            } else if n == 1 {
                if i + 1 < toks.len() {
                    let tk = &toks[i + 1];
                    if obj.set_field(f, 0, tk) {
                        Ok(())
                    } else {
                        Err(param_err(sym))
                    }
                } else {
                    Err(fmt_err())
                }
            } else {
                if toks.len() > 2 && i < toks.len() - 2 {
                    match slot_token(toks, i + 1, n) {
                        Some(sl) => {
                            let tk = &toks[i + 2];
                            if obj.set_field(f, sl, tk) {
                                Ok(())
                            } else {
                                Err(param_err(sym))
                            }
                        },
                        None => Err(range_err(sym)),
                    }
                } else {
                    Err(fmt_err())
                }
            }
        },
    }
}

/// Reads at a trig-level identifier position, producing the reply tuple.
pub fn trig_handle_leaf_get(obj: &Trig, toks: &Vec<Token>, i: usize, top: i64) -> (r: Result<
    Vec<Token>,
    RytmExternalError,
>)
    requires
        obj.wf(),
    ensures
        match trig_leaf_get_msg(obj@, toks.deep_view(), i as int, top) {
            Some(out) => r matches Ok(o) && o.deep_view() =~~= out,
            None => r is Err,
        },
{
    if i >= toks.len() {
        return Err(fmt_err());
    }
    let sym = match &toks[i] {
        Token::Sym(s) => s,
        _ => {
            return Err(fmt_err());
        },
    };
    if !sym.as_str().is_ascii() {
        return Err(ident_err(sym));
    }
    match crate::strutil::split_colon(sym) {
        Some(parts) => {
            let t = match trig_classify(&parts.0) {
                Some(TrigSymbol::EnumType(t)) => t,
                _ => {
                    return Err(enum_err(&parts.0));
                },
            };
            let n = trig_enum_slots(t);
            let slot: usize = if n == 1 {
                0
            } else {
                match crate::numparse::parse_small_dec(&parts.1) {
                    Some(sl) => {
                        if 0 <= sl && (sl as usize) < n {
                            sl as usize
                        } else {
                            return Err(range_err(sym));
                        }
                    },
                    None => {
                        return Err(range_err(sym));
                    },
                }
            };
            let value = obj.get_enum(t, slot);
            Ok(triple(Token::Sym(parts.0), Token::Int(top), Token::Sym(value)))
        },
        None => {
            match trig_classify(sym) {
                Some(TrigSymbol::Plain(f)) => {
                    let n = trig_slot_count(f);
                    let slot: usize = if n == 1 {
                        0
                    } else {
                        match slot_token(toks, i + 1, n) {
                            Some(sl) => sl,
                            None => {
                                return Err(range_err(sym));
                            },
                        }
                    };
                    let value = obj.get_field(f, slot);
                    Ok(triple(Token::Sym(sym.clone()), Token::Int(top), value))
                },
                Some(TrigSymbol::EnumType(t)) => {
                    let n = trig_enum_slots(t);
                    let slot: usize = if n == 1 {
                        0
                    } else {
                        match slot_token(toks, i + 1, n) {
                            Some(sl) => sl,
                            None => {
                                return Err(range_err(sym));
                            },
                        }
                    };
                    let value = obj.get_enum(t, slot);
                    Ok(triple(Token::Sym(sym.clone()), Token::Int(top), Token::Sym(value)))
                },
                _ => Err(ident_err(sym)),
            }
        },
    }
}

/// What a set message does at a kit-level identifier position `i`:
/// the produced state, or nothing where the message is in error.
pub open spec fn kit_leaf_set_msg(v: KitView, toks: Seq<TokenV>, i: int) -> Option<KitView> {
    if !(0 <= i < toks.len()) {
        None
    } else {
        match toks[i] {
            TokenV::Sym(sym) => if !vstd::utf8::is_ascii_chars(sym) {
                None
            } else {
                match enum_split(sym) {
                    Some(parts) => match kit_symbol_spec(parts.0) {
                        Some(KitSymbol::EnumType(t)) => {
                            if kit_enum_slot_count(t) == 1 {
                                kit_set_enum_spec(v, t, 0, parts.1)
                            } else if i + 1 < toks.len() {
                                match token_int(toks[i + 1]) {
                                    Some(sl) => if 0 <= sl < kit_enum_slot_count(t) {
                                        kit_set_enum_spec(v, t, sl as int, parts.1)
                                    } else {
                                        None
                                    },
                                    None => None,
                                }
                            } else {
                                None
                            }
                        },
                        _ => None,
                    },
                    None => match kit_symbol_spec(sym) {
                        Some(KitSymbol::Plain(f)) => if !kit_field_settable(f) {
                            None
                        } else if kit_field_is_mark(f) {
                            if i + 1 < toks.len() {
                                match token_int(toks[i + 1]) {
                                    Some(sl) => if 0 <= sl < kit_field_slot_count(f) {
                                        kit_set_spec(v, f, sl as int, toks[i + 1])
                                    } else {
                                        None
                                    },
                                    None => None,
                                }
                            } else {
                                None
                            }
                        } else if kit_field_slot_count(f) == 1 {
                            if i + 1 < toks.len() {
                                kit_set_spec(v, f, 0, toks[i + 1])
                            } else {
                                None
                            }
                        } else if i + 2 < toks.len() {
                            match token_int(toks[i + 1]) {
                                Some(sl) => if 0 <= sl < kit_field_slot_count(f) {
                                    kit_set_spec(v, f, sl as int, toks[i + 2])
                                } else {
                                    None
                                },
                                None => None,
                            }
                        } else {
                            None
                        },
                        _ => None,
                    },
                }
            },
            _ => None,
        }
    }
}

/// What a get message reads at a kit-level identifier position `i`, echoed
/// as the reply tuple (identifier, top-level index, value), or nothing
/// where the message is in error.
pub open spec fn kit_leaf_get_msg(v: KitView, toks: Seq<TokenV>, i: int, top: i64) -> Option<
    Seq<TokenV>,
> {
    if !(0 <= i < toks.len()) {
        None
    } else {
        match toks[i] {
            TokenV::Sym(sym) => if !vstd::utf8::is_ascii_chars(sym) {
                None
            } else {
                match enum_split(sym) {
                    Some(parts) => match kit_symbol_spec(parts.0) {
                        Some(KitSymbol::EnumType(t)) => {
                            if kit_enum_slot_count(t) == 1 {
                                Some(
                                    seq![
                                        TokenV::Sym(parts.0),
                                        TokenV::Int(top),
                                        TokenV::Sym(kit_enum_value(v, t, 0)),
                                    ],
                                )
                            } else {
                                match crate::numparse::small_dec_value(parts.1) {
                                    Some(sl) => if 0 <= sl < kit_enum_slot_count(t) {
                                        Some(
                                            seq![
                                                TokenV::Sym(parts.0),
                                                TokenV::Int(top),
                                                TokenV::Sym(kit_enum_value(v, t, sl as int)),
                                            ],
                                        )
                                    } else {
                                        None
                                    },
                                    None => None,
                                }
                            }
                        },
                        _ => None,
                    },
                    None => match kit_symbol_spec(sym) {
                        Some(KitSymbol::Plain(f)) => if kit_field_slot_count(f) == 1 {
                            Some(
                                seq![
                                    TokenV::Sym(sym),
                                    TokenV::Int(top),
                                    kit_get_spec(v, f, 0),
                                ],
                            )
                        } else if i + 1 < toks.len() {
                            match token_int(toks[i + 1]) {
                                Some(sl) => if 0 <= sl < kit_field_slot_count(f) {
                                    Some(
                                        seq![
                                            TokenV::Sym(sym),
                                            TokenV::Int(top),
                                            kit_get_spec(v, f, sl as int),
                                        ],
                                    )
                                } else {
                                    None
                                },
                                None => None,
                            }
                        } else {
                            None
                        },
                        Some(KitSymbol::EnumType(t)) => {
                            if kit_enum_slot_count(t) == 1 {
                                Some(
                                    seq![
                                        TokenV::Sym(sym),
                                        TokenV::Int(top),
                                        TokenV::Sym(kit_enum_value(v, t, 0)),
                                    ],
                                )
                            } else if i + 1 < toks.len() {
                                match token_int(toks[i + 1]) {
                                    Some(sl) => if 0 <= sl < kit_enum_slot_count(t) {
                                        Some(
                                            seq![
                                                TokenV::Sym(sym),
                                                TokenV::Int(top),
                                                TokenV::Sym(kit_enum_value(v, t, sl as int)),
                                            ],
                                        )
                                    } else {
                                        None
                                    },
                                    None => None,
                                }
                            } else {
                                None
                            }
                        },
                        _ => None,
                    },
                }
            },
            _ => None,
        }
    }
}

/// Applies a set message at a kit-level identifier position.
pub fn kit_handle_leaf_set(obj: &mut Kit, toks: &Vec<Token>, i: usize) -> (r: Result<
    (),
    RytmExternalError,
>)
    requires
        old(obj).wf(),
    ensures
        final(obj).wf(),
        match kit_leaf_set_msg(old(obj)@, toks.deep_view(), i as int) {
            Some(v2) => r is Ok && final(obj)@ =~~= v2,
            None => r is Err && final(obj)@ =~~= old(obj)@,
        },
{
    if i >= toks.len() {
        return Err(fmt_err());
    }
    let sym = match &toks[i] {
        Token::Sym(s) => s,
        _ => {
            return Err(fmt_err());
        },
    };
    if !sym.as_str().is_ascii() {
        return Err(ident_err(sym));
    }
    match crate::strutil::split_colon(sym) {
        Some(parts) => {
            let t = match kit_classify(&parts.0) {
                Some(KitSymbol::EnumType(t)) => t,
                _ => {
                    return Err(enum_err(&parts.0));
                },
            };
            let n = kit_enum_slots(t);
            let slot: usize = if n == 1 {
                0
            } else {
                match slot_token(toks, i + 1, n) {
                    Some(sl) => sl,
                    None => {
                        return Err(range_err(sym));
                    },
                }
            };
            if obj.set_enum(t, slot, &parts.1) {
                Ok(())
            } else {
                Err(variant_err(&parts.1))
            }
        },
        None => {
            let f = match kit_classify(sym) {
                Some(KitSymbol::Plain(f)) => f,
                _ => {
                    return Err(ident_err(sym));
                },
            };
            if !kit_settable_exec(f) {
                return Err(ident_err(sym));
            }
            let n = kit_slot_count(f);
            if kit_is_mark(f) {
                match slot_token(toks, i + 1, n) {
                    Some(sl) => {
                        let tk = &toks[i + 1];
                        if obj.set_field(f, sl, tk) {
                            Ok(())
                        } else {
                            Err(param_err(sym))
                        }
                    },
                    None => Err(range_err(sym)),
                }
            } else if n == 1 {
                if i + 1 < toks.len() {
                    let tk = &toks[i + 1];
                    if obj.set_field(f, 0, tk) {
                        Ok(())
                    } else {
                        Err(param_err(sym))
                    }
                } else {
                    Err(fmt_err())
                }
            } else {
                if toks.len() > 2 && i < toks.len() - 2 {
                    match slot_token(toks, i + 1, n) {
                        Some(sl) => {
                            let tk = &toks[i + 2];
                            if obj.set_field(f, sl, tk) {
                                Ok(())
                            } else {
                                Err(param_err(sym))
                            }
                        },
                        None => Err(range_err(sym)),
                    }
                } else {
                    Err(fmt_err())
                }
            }
        },
    }
}

/// Reads at a kit-level identifier position, producing the reply tuple.
pub fn kit_handle_leaf_get(obj: &Kit, toks: &Vec<Token>, i: usize, top: i64) -> (r: Result<
    Vec<Token>,
    RytmExternalError,
>)
    requires
        obj.wf(),
    ensures
        match kit_leaf_get_msg(obj@, toks.deep_view(), i as int, top) {
            Some(out) => r matches Ok(o) && o.deep_view() =~~= out,
            None => r is Err,
        },
{
    if i >= toks.len() {
        return Err(fmt_err());
    }
    let sym = match &toks[i] {
        Token::Sym(s) => s,
        _ => {
            return Err(fmt_err());
        },
    };
    if !sym.as_str().is_ascii() {
        return Err(ident_err(sym));
    }
    match crate::strutil::split_colon(sym) {
        Some(parts) => {
            let t = match kit_classify(&parts.0) {
                Some(KitSymbol::EnumType(t)) => t,
                _ => {
                    return Err(enum_err(&parts.0));
                },
            };
            let n = kit_enum_slots(t);
            let slot: usize = if n == 1 {
                0
            } else {
                match crate::numparse::parse_small_dec(&parts.1) {
                    Some(sl) => {
                        if 0 <= sl && (sl as usize) < n {
                            sl as usize
                        } else {
                            return Err(range_err(sym));
                        }
                    },
                    None => {
                        return Err(range_err(sym));
                    },
                }
            };
            let value = obj.get_enum(t, slot);
            Ok(triple(Token::Sym(parts.0), Token::Int(top), Token::Sym(value)))
        },
        None => {
            match kit_classify(sym) {
                Some(KitSymbol::Plain(f)) => {
                    let n = kit_slot_count(f);
                    let slot: usize = if n == 1 {
                        0
                    } else {
                        match slot_token(toks, i + 1, n) {
                            Some(sl) => sl,
                            None => {
                                return Err(range_err(sym));
                            },
                        }
                    };
                    let value = obj.get_field(f, slot);
                    Ok(triple(Token::Sym(sym.clone()), Token::Int(top), value))
                },
                Some(KitSymbol::EnumType(t)) => {
                    let n = kit_enum_slots(t);
                    let slot: usize = if n == 1 {
                        0
                    } else {
                        match slot_token(toks, i + 1, n) {
                            Some(sl) => sl,
                            None => {
                                return Err(range_err(sym));
                            },
                        }
                    };
                    let value = obj.get_enum(t, slot);
                    Ok(triple(Token::Sym(sym.clone()), Token::Int(top), Token::Sym(value)))
                },
                _ => Err(ident_err(sym)),
            }
        },
    }
}

/// What a set message does at a sound-level identifier position `i`:
/// the produced state, or nothing where the message is in error.
pub open spec fn sound_leaf_set_msg(v: SoundView, toks: Seq<TokenV>, i: int) -> Option<SoundView> {
    if !(0 <= i < toks.len()) {
        None
    } else {
        match toks[i] {
            TokenV::Sym(sym) => if !vstd::utf8::is_ascii_chars(sym) {
                None
            } else {
                match enum_split(sym) {
                    Some(parts) => match sound_symbol_spec(parts.0) {
                        Some(SoundSymbol::EnumType(t)) => {
                            if sound_enum_slot_count(t) == 1 {
                                sound_set_enum_spec(v, t, 0, parts.1)
                            } else if i + 1 < toks.len() {
                                match token_int(toks[i + 1]) {
                                    Some(sl) => if 0 <= sl < sound_enum_slot_count(t) {
                                        sound_set_enum_spec(v, t, sl as int, parts.1)
                                    } else {
                                        None
                                    },
                                    None => None,
                                }
                            } else {
                                None
                            }
                        },
                        _ => None,
                    },
                    None => match sound_symbol_spec(sym) {
                        Some(SoundSymbol::Plain(f)) => if !sound_field_settable(f) {
                            None
                        } else if sound_field_is_mark(f) {
                            if i + 1 < toks.len() {
                                match token_int(toks[i + 1]) {
                                    Some(sl) => if 0 <= sl < sound_field_slot_count(f) {
                                        sound_set_spec(v, f, sl as int, toks[i + 1])
                                    } else {
                                        None
                                    },
                                    None => None,
                                }
                            } else {
                                None
                            }
                        } else if sound_field_slot_count(f) == 1 {
                            if i + 1 < toks.len() {
                                sound_set_spec(v, f, 0, toks[i + 1])
                            } else {
                                None
                            }
                        } else if i + 2 < toks.len() {
                            match token_int(toks[i + 1]) {
                                Some(sl) => if 0 <= sl < sound_field_slot_count(f) {
                                    sound_set_spec(v, f, sl as int, toks[i + 2])
                                } else {
                                    None
                                },
                                None => None,
                            }
                        } else {
                            None
                        },
                        _ => None,
                    },
                }
            },
            _ => None,
        }
    }
}

/// What a get message reads at a sound-level identifier position `i`, echoed
/// as the reply tuple (identifier, top-level index, value), or nothing
/// where the message is in error.
pub open spec fn sound_leaf_get_msg(v: SoundView, toks: Seq<TokenV>, i: int, top: i64) -> Option<
    Seq<TokenV>,
> {
    if !(0 <= i < toks.len()) {
        None
    } else {
        match toks[i] {
            TokenV::Sym(sym) => if !vstd::utf8::is_ascii_chars(sym) {
                None
            } else {
                match enum_split(sym) {
                    Some(parts) => match sound_symbol_spec(parts.0) {
                        Some(SoundSymbol::EnumType(t)) => {
                            if sound_enum_slot_count(t) == 1 {
                                Some(
                                    seq![
                                        TokenV::Sym(parts.0),
                                        TokenV::Int(top),
                                        TokenV::Sym(sound_enum_value(v, t, 0)),
                                    ],
                                )
                            } else {
                                match crate::numparse::small_dec_value(parts.1) {
                                    Some(sl) => if 0 <= sl < sound_enum_slot_count(t) {
                                        Some(
                                            seq![
                                                TokenV::Sym(parts.0),
                                                TokenV::Int(top),
                                                TokenV::Sym(sound_enum_value(v, t, sl as int)),
                                            ],
                                        )
                                    } else {
                                        None
                                    },
                                    None => None,
                                }
                            }
                        },
                        _ => None,
                    },
                    None => match sound_symbol_spec(sym) {
                        Some(SoundSymbol::Plain(f)) => if sound_field_slot_count(f) == 1 {
                            Some(
                                seq![
                                    TokenV::Sym(sym),
                                    TokenV::Int(top),
                                    sound_get_spec(v, f, 0),
                                ],
                            )
                        } else if i + 1 < toks.len() {
                            match token_int(toks[i + 1]) {
                                Some(sl) => if 0 <= sl < sound_field_slot_count(f) {
                                    Some(
                                        seq![
                                            TokenV::Sym(sym),
                                            TokenV::Int(top),
                                            sound_get_spec(v, f, sl as int),
                                        ],
                                    )
                                } else {
                                    None
                                },
                                None => None,
                            }
                        } else {
                            None
                        },
                        Some(SoundSymbol::EnumType(t)) => {
                            if sound_enum_slot_count(t) == 1 {
                                Some(
                                    seq![
                                        TokenV::Sym(sym),
                                        TokenV::Int(top),
                                        TokenV::Sym(sound_enum_value(v, t, 0)),
                                    ],
                                )
                            } else if i + 1 < toks.len() {
                                match token_int(toks[i + 1]) {
                                    Some(sl) => if 0 <= sl < sound_enum_slot_count(t) {
                                        Some(
                                            seq![
                                                TokenV::Sym(sym),
                                                TokenV::Int(top),
                                                TokenV::Sym(sound_enum_value(v, t, sl as int)),
                                            ],
                                        )
                                    } else {
                                        None
                                    },
                                    None => None,
                                }
                            } else {
                                None
                            }
                        },
                        _ => None,
                    },
                }
            },
            _ => None,
        }
    }
}

/// Applies a set message at a sound-level identifier position.
pub fn sound_handle_leaf_set(obj: &mut Sound, toks: &Vec<Token>, i: usize) -> (r: Result<
    (),
    RytmExternalError,
>)
    requires
        old(obj).wf(),
    ensures
        final(obj).wf(),
        match sound_leaf_set_msg(old(obj)@, toks.deep_view(), i as int) {
            Some(v2) => r is Ok && final(obj)@ =~~= v2,
            None => r is Err && final(obj)@ =~~= old(obj)@,
        },
{
    if i >= toks.len() {
        return Err(fmt_err());
    }
    let sym = match &toks[i] {
        Token::Sym(s) => s,
        _ => {
            return Err(fmt_err());
        },
    };
    if !sym.as_str().is_ascii() {
        return Err(ident_err(sym));
    }
    match crate::strutil::split_colon(sym) {
        Some(parts) => {
            let t = match sound_classify(&parts.0) {
                Some(SoundSymbol::EnumType(t)) => t,
                _ => {
                    return Err(enum_err(&parts.0));
                },
            };
            let n = sound_enum_slots(t);
            let slot: usize = if n == 1 {
                0
            } else {
                match slot_token(toks, i + 1, n) {
                    Some(sl) => sl,
                    None => {
                        return Err(range_err(sym));
                    },
                }
            };
            if obj.set_enum(t, slot, &parts.1) {
                Ok(())
            } else {
                Err(variant_err(&parts.1))
            }
        },
        None => {
            let f = match sound_classify(sym) {
                Some(SoundSymbol::Plain(f)) => f,
                _ => {
                    return Err(ident_err(sym));
                },
            };
            if !sound_settable_exec(f) {
                return Err(ident_err(sym));
            }
            let n = sound_slot_count(f);
            if sound_is_mark(f) {
                match slot_token(toks, i + 1, n) {
                    Some(sl) => {
                        let tk = &toks[i + 1];
                        if obj.set_field(f, sl, tk) {
                            Ok(())
                        } else {
                            Err(param_err(sym))
                        }
                    },
                    None => Err(range_err(sym)),
                }
            } else if n == 1 {
                if i + 1 < toks.len() {
                    let tk = &toks[i + 1];
                    if obj.set_field(f, 0, tk) {
                        Ok(())
                    } else {
                        Err(param_err(sym))
                    }
                } else {
                    Err(fmt_err())
                }
            } else {
                if toks.len() > 2 && i < toks.len() - 2 {
                    match slot_token(toks, i + 1, n) {
                        Some(sl) => {
                            let tk = &toks[i + 2];
                            if obj.set_field(f, sl, tk) {
                                Ok(())
                            } else {
                                Err(param_err(sym))
                            }
                        },
                        None => Err(range_err(sym)),
                    }
                } else {
                    Err(fmt_err())
                }
            }
        },
    }
}

/// Reads at a sound-level identifier position, producing the reply tuple.
pub fn sound_handle_leaf_get(obj: &Sound, toks: &Vec<Token>, i: usize, top: i64) -> (r: Result<
    Vec<Token>,
    RytmExternalError,
>)
    requires
        obj.wf(),
    ensures
        match sound_leaf_get_msg(obj@, toks.deep_view(), i as int, top) {
            Some(out) => r matches Ok(o) && o.deep_view() =~~= out,
            None => r is Err,
        },
{
    if i >= toks.len() {
        return Err(fmt_err());
    }
    let sym = match &toks[i] {
        Token::Sym(s) => s,
        _ => {
            return Err(fmt_err());
        },
    };
    if !sym.as_str().is_ascii() {
        return Err(ident_err(sym));
    }
    match crate::strutil::split_colon(sym) {
        Some(parts) => {
            let t = match sound_classify(&parts.0) {
                Some(SoundSymbol::EnumType(t)) => t,
                _ => {
                    return Err(enum_err(&parts.0));
                },
            };
            let n = sound_enum_slots(t);
            let slot: usize = if n == 1 {
                0
            } else {
                match crate::numparse::parse_small_dec(&parts.1) {
                    Some(sl) => {
                        if 0 <= sl && (sl as usize) < n {
                            sl as usize
                        } else {
                            return Err(range_err(sym));
                        }
                    },
                    None => {
                        return Err(range_err(sym));
                    },
                }
            };
            let value = obj.get_enum(t, slot);
            Ok(triple(Token::Sym(parts.0), Token::Int(top), Token::Sym(value)))
        },
        None => {
            match sound_classify(sym) {
                Some(SoundSymbol::Plain(f)) => {
                    let n = sound_slot_count(f);
                    let slot: usize = if n == 1 {
                        0
                    } else {
                        match slot_token(toks, i + 1, n) {
                            Some(sl) => sl,
                            None => {
                                return Err(range_err(sym));
                            },
                        }
                    };
                    let value = obj.get_field(f, slot);
                    Ok(triple(Token::Sym(sym.clone()), Token::Int(top), value))
                },
                Some(SoundSymbol::EnumType(t)) => {
                    let n = sound_enum_slots(t);
                    let slot: usize = if n == 1 {
                        0
                    } else {
                        match slot_token(toks, i + 1, n) {
                            Some(sl) => sl,
                            None => {
                                return Err(range_err(sym));
                            },
                        }
                    };
                    let value = obj.get_enum(t, slot);
                    Ok(triple(Token::Sym(sym.clone()), Token::Int(top), Token::Sym(value)))
                },
                _ => Err(ident_err(sym)),
            }
        },
    }
}

/// What a set message does at a global-level identifier position `i`:
/// the produced state, or nothing where the message is in error.
pub open spec fn global_leaf_set_msg(v: GlobalView, toks: Seq<TokenV>, i: int) -> Option<GlobalView> {
    if !(0 <= i < toks.len()) {
        None
    } else {
        match toks[i] {
            TokenV::Sym(sym) => if !vstd::utf8::is_ascii_chars(sym) {
                None
            } else {
                match enum_split(sym) {
                    Some(parts) => match global_symbol_spec(parts.0) {
                        Some(GlobalSymbol::EnumType(t)) => {
                            if global_enum_slot_count(t) == 1 {
                                global_set_enum_spec(v, t, 0, parts.1)
                            } else if i + 1 < toks.len() {
                                match token_int(toks[i + 1]) {
                                    Some(sl) => if 0 <= sl < global_enum_slot_count(t) {
                                        global_set_enum_spec(v, t, sl as int, parts.1)
                                    } else {
                                        None
                                    },
                                    None => None,
                                }
                            } else {
                                None
                            }
                        },
                        _ => None,
                    },
                    None => match global_symbol_spec(sym) {
                        Some(GlobalSymbol::Plain(f)) => if !global_field_settable(f) {
                            None
                        } else if global_field_is_mark(f) {
                            if i + 1 < toks.len() {
                                match token_int(toks[i + 1]) {
                                    Some(sl) => if 0 <= sl < global_field_slot_count(f) {
                                        global_set_spec(v, f, sl as int, toks[i + 1])
                                    } else {
                                        None
                                    },
                                    None => None,
                                }
                            } else {
                                None
                            }
                        } else if global_field_slot_count(f) == 1 {
                            if i + 1 < toks.len() {
                                global_set_spec(v, f, 0, toks[i + 1])
                            } else {
                                None
                            }
                        } else if i + 2 < toks.len() {
                            match token_int(toks[i + 1]) {
                                Some(sl) => if 0 <= sl < global_field_slot_count(f) {
                                    global_set_spec(v, f, sl as int, toks[i + 2])
                                } else {
                                    None
                                },
                                None => None,
                            }
                        } else {
                            None
                        },
                        _ => None,
                    },
                }
            },
            _ => None,
        }
    }
}

/// What a get message reads at a global-level identifier position `i`, echoed
/// as the reply tuple (identifier, top-level index, value), or nothing
/// where the message is in error.
pub open spec fn global_leaf_get_msg(v: GlobalView, toks: Seq<TokenV>, i: int, top: i64) -> Option<
    Seq<TokenV>,
> {
    if !(0 <= i < toks.len()) {
        None
    } else {
        match toks[i] {
            TokenV::Sym(sym) => if !vstd::utf8::is_ascii_chars(sym) {
                None
            } else {
                match enum_split(sym) {
                    Some(parts) => match global_symbol_spec(parts.0) {
                        Some(GlobalSymbol::EnumType(t)) => {
                            if global_enum_slot_count(t) == 1 {
                                Some(
                                    seq![
                                        TokenV::Sym(parts.0),
                                        TokenV::Int(top),
                                        TokenV::Sym(global_enum_value(v, t, 0)),
                                    ],
                                )
                            } else {
                                match crate::numparse::small_dec_value(parts.1) {
                                    Some(sl) => if 0 <= sl < global_enum_slot_count(t) {
                                        Some(
                                            seq![
                                                TokenV::Sym(parts.0),
                                                TokenV::Int(top),
                                                TokenV::Sym(global_enum_value(v, t, sl as int)),
                                            ],
                                        )
                                    } else {
                                        None
                                    },
                                    None => None,
                                }
                            }
                        },
                        _ => None,
                    },
                    None => match global_symbol_spec(sym) {
                        Some(GlobalSymbol::Plain(f)) => if global_field_slot_count(f) == 1 {
                            Some(
                                seq![
                                    TokenV::Sym(sym),
                                    TokenV::Int(top),
                                    global_get_spec(v, f, 0),
                                ],
                            )
                        } else if i + 1 < toks.len() {
                            match token_int(toks[i + 1]) {
                                Some(sl) => if 0 <= sl < global_field_slot_count(f) {
                                    Some(
                                        seq![
                                            TokenV::Sym(sym),
                                            TokenV::Int(top),
                                            global_get_spec(v, f, sl as int),
                                        ],
                                    )
                                } else {
                                    None
                                },
                                None => None,
                            }
                        } else {
                            None
                        },
                        Some(GlobalSymbol::EnumType(t)) => {
                            if global_enum_slot_count(t) == 1 {
                                Some(
                                    seq![
                                        TokenV::Sym(sym),
                                        TokenV::Int(top),
                                        TokenV::Sym(global_enum_value(v, t, 0)),
                                    ],
                                )
                            } else if i + 1 < toks.len() {
                                match token_int(toks[i + 1]) {
                                    Some(sl) => if 0 <= sl < global_enum_slot_count(t) {
                                        Some(
                                            seq![
                                                TokenV::Sym(sym),
                                                TokenV::Int(top),
                                                TokenV::Sym(global_enum_value(v, t, sl as int)),
                                            ],
                                        )
                                    } else {
                                        None
                                    },
                                    None => None,
                                }
                            } else {
                                None
                            }
                        },
                        _ => None,
                    },
                }
            },
            _ => None,
        }
    }
}

/// Applies a set message at a global-level identifier position.
pub fn global_handle_leaf_set(obj: &mut Global, toks: &Vec<Token>, i: usize) -> (r: Result<
    (),
    RytmExternalError,
>)
    requires
        old(obj).wf(),
    ensures
        final(obj).wf(),
        match global_leaf_set_msg(old(obj)@, toks.deep_view(), i as int) {
            Some(v2) => r is Ok && final(obj)@ =~~= v2,
            None => r is Err && final(obj)@ =~~= old(obj)@,
        },
{
    if i >= toks.len() {
        return Err(fmt_err());
    }
    let sym = match &toks[i] {
        Token::Sym(s) => s,
        _ => {
            return Err(fmt_err());
        },
    };
    if !sym.as_str().is_ascii() {
        return Err(ident_err(sym));
    }
    match crate::strutil::split_colon(sym) {
        Some(parts) => {
            let t = match global_classify(&parts.0) {
                Some(GlobalSymbol::EnumType(t)) => t,
                _ => {
                    return Err(enum_err(&parts.0));
                },
            };
            let n = global_enum_slots(t);
            let slot: usize = if n == 1 {
                0
            } else {
                match slot_token(toks, i + 1, n) {
                    Some(sl) => sl,
                    None => {
                        return Err(range_err(sym));
                    },
                }
            };
            if obj.set_enum(t, slot, &parts.1) {
                Ok(())
            } else {
                Err(variant_err(&parts.1))
            }
        },
        None => {
            let f = match global_classify(sym) {
                Some(GlobalSymbol::Plain(f)) => f,
                _ => {
                    return Err(ident_err(sym));
                },
            };
            if !global_settable_exec(f) {
                return Err(ident_err(sym));
            }
            let n = global_slot_count(f);
            if global_is_mark(f) {
                match slot_token(toks, i + 1, n) {
                    Some(sl) => {
                        let tk = &toks[i + 1];
                        if obj.set_field(f, sl, tk) {
                            Ok(())
                        } else {
                            Err(param_err(sym))
                        }
                    },
                    None => Err(range_err(sym)),
                }
            } else if n == 1 {
                if i + 1 < toks.len() {
                    let tk = &toks[i + 1];
                    if obj.set_field(f, 0, tk) {
                        Ok(())
                    } else {
                        Err(param_err(sym))
                    }
                } else {
                    Err(fmt_err())
                }
            } else {
                if toks.len() > 2 && i < toks.len() - 2 {
                    match slot_token(toks, i + 1, n) {
                        Some(sl) => {
                            let tk = &toks[i + 2];
                            if obj.set_field(f, sl, tk) {
                                Ok(())
                            } else {
                                Err(param_err(sym))
                            }
                        },
                        None => Err(range_err(sym)),
                    }
                } else {
                    Err(fmt_err())
                }
            }
        },
    }
}

/// Reads at a global-level identifier position, producing the reply tuple.
pub fn global_handle_leaf_get(obj: &Global, toks: &Vec<Token>, i: usize, top: i64) -> (r: Result<
    Vec<Token>,
    RytmExternalError,
>)
    requires
        obj.wf(),
    ensures
        match global_leaf_get_msg(obj@, toks.deep_view(), i as int, top) {
            Some(out) => r matches Ok(o) && o.deep_view() =~~= out,
            None => r is Err,
        },
{
    if i >= toks.len() {
        return Err(fmt_err());
    }
    let sym = match &toks[i] {
        Token::Sym(s) => s,
        _ => {
            return Err(fmt_err());
        },
    };
    if !sym.as_str().is_ascii() {
        return Err(ident_err(sym));
    }
    match crate::strutil::split_colon(sym) {
        Some(parts) => {
            let t = match global_classify(&parts.0) {
                Some(GlobalSymbol::EnumType(t)) => t,
                _ => {
                    return Err(enum_err(&parts.0));
                },
            };
            let n = global_enum_slots(t);
            let slot: usize = if n == 1 {
                0
            } else {
                match crate::numparse::parse_small_dec(&parts.1) {
                    Some(sl) => {
                        if 0 <= sl && (sl as usize) < n {
                            sl as usize
                        } else {
                            return Err(range_err(sym));
                        }
                    },
                    None => {
                        return Err(range_err(sym));
                    },
                }
            };
            let value = obj.get_enum(t, slot);
            Ok(triple(Token::Sym(parts.0), Token::Int(top), Token::Sym(value)))
        },
        None => {
            match global_classify(sym) {
                Some(GlobalSymbol::Plain(f)) => {
                    let n = global_slot_count(f);
                    let slot: usize = if n == 1 {
                        0
                    } else {
                        match slot_token(toks, i + 1, n) {
                            Some(sl) => sl,
                            None => {
                                return Err(range_err(sym));
                            },
                        }
                    };
                    let value = obj.get_field(f, slot);
                    Ok(triple(Token::Sym(sym.clone()), Token::Int(top), value))
                },
                Some(GlobalSymbol::EnumType(t)) => {
                    let n = global_enum_slots(t);
                    let slot: usize = if n == 1 {
                        0
                    } else {
                        match slot_token(toks, i + 1, n) {
                            Some(sl) => sl,
                            None => {
                                return Err(range_err(sym));
                            },
                        }
                    };
                    let value = obj.get_enum(t, slot);
                    Ok(triple(Token::Sym(sym.clone()), Token::Int(top), Token::Sym(value)))
                },
                _ => Err(ident_err(sym)),
            }
        },
    }
}

/// What a set message does at a settings-level identifier position `i`:
/// the produced state, or nothing where the message is in error.
pub open spec fn settings_leaf_set_msg(v: SettingsView, toks: Seq<TokenV>, i: int) -> Option<SettingsView> {
    if !(0 <= i < toks.len()) {
        None
    } else {
        match toks[i] {
            TokenV::Sym(sym) => if !vstd::utf8::is_ascii_chars(sym) {
                None
            } else {
                match enum_split(sym) {
                    Some(parts) => match settings_symbol_spec(parts.0) {
                        Some(SettingsSymbol::EnumType(t)) => {
                            if settings_enum_slot_count(t) == 1 {
                                settings_set_enum_spec(v, t, 0, parts.1)
                            } else if i + 1 < toks.len() {
                                match token_int(toks[i + 1]) {
                                    Some(sl) => if 0 <= sl < settings_enum_slot_count(t) {
                                        settings_set_enum_spec(v, t, sl as int, parts.1)
                                    } else {
                                        None
                                    },
                                    None => None,
                                }
                            } else {
                                None
                            }
                        },
                        _ => None,
                    },
                    None => match settings_symbol_spec(sym) {
                        Some(SettingsSymbol::Plain(f)) => if !settings_field_settable(f) {
                            None
                        } else if settings_field_is_mark(f) {
                            if i + 1 < toks.len() {
                                match token_int(toks[i + 1]) {
                                    Some(sl) => if 0 <= sl < settings_field_slot_count(f) {
                                        settings_set_spec(v, f, sl as int, toks[i + 1])
                                    } else {
                                        None
                                    },
                                    None => None,
                                }
                            } else {
                                None
                            }
                        } else if settings_field_slot_count(f) == 1 {
                            if i + 1 < toks.len() {
                                settings_set_spec(v, f, 0, toks[i + 1])
                            } else {
                                None
                            }
                        } else if i + 2 < toks.len() {
                            match token_int(toks[i + 1]) {
                                Some(sl) => if 0 <= sl < settings_field_slot_count(f) {
                                    settings_set_spec(v, f, sl as int, toks[i + 2])
                                } else {
                                    None
                                },
                                None => None,
                            }
                        } else {
                            None
                        },
                        _ => None,
                    },
                }
            },
            _ => None,
        }
    }
}

/// What a get message reads at a settings-level identifier position `i`, echoed
/// as the reply tuple (identifier, top-level index, value), or nothing
/// where the message is in error.
pub open spec fn settings_leaf_get_msg(v: SettingsView, toks: Seq<TokenV>, i: int, top: i64) -> Option<
    Seq<TokenV>,
> {
    if !(0 <= i < toks.len()) {
        None
    } else {
        match toks[i] {
            TokenV::Sym(sym) => if !vstd::utf8::is_ascii_chars(sym) {
                None
            } else {
                match enum_split(sym) {
                    Some(parts) => match settings_symbol_spec(parts.0) {
                        Some(SettingsSymbol::EnumType(t)) => {
                            if settings_enum_slot_count(t) == 1 {
                                Some(
                                    seq![
                                        TokenV::Sym(parts.0),
                                        TokenV::Int(top),
                                        TokenV::Sym(settings_enum_value(v, t, 0)),
                                    ],
                                )
                            } else {
                                match crate::numparse::small_dec_value(parts.1) {
                                    Some(sl) => if 0 <= sl < settings_enum_slot_count(t) {
                                        Some(
                                            seq![
                                                TokenV::Sym(parts.0),
                                                TokenV::Int(top),
                                                TokenV::Sym(settings_enum_value(v, t, sl as int)),
                                            ],
                                        )
                                    } else {
                                        None
                                    },
                                    None => None,
                                }
                            }
                        },
                        _ => None,
                    },
                    None => match settings_symbol_spec(sym) {
                        Some(SettingsSymbol::Plain(f)) => if settings_field_slot_count(f) == 1 {
                            Some(
                                seq![
                                    TokenV::Sym(sym),
                                    TokenV::Int(top),
                                    settings_get_spec(v, f, 0),
                                ],
                            )
                        } else if i + 1 < toks.len() {
                            match token_int(toks[i + 1]) {
                                Some(sl) => if 0 <= sl < settings_field_slot_count(f) {
                                    Some(
                                        seq![
                                            TokenV::Sym(sym),
                                            TokenV::Int(top),
                                            settings_get_spec(v, f, sl as int),
                                        ],
                                    )
                                } else {
                                    None
                                },
                                None => None,
                            }
                        } else {
                            None
                        },
                        Some(SettingsSymbol::EnumType(t)) => {
                            if settings_enum_slot_count(t) == 1 {
                                Some(
                                    seq![
                                        TokenV::Sym(sym),
                                        TokenV::Int(top),
                                        TokenV::Sym(settings_enum_value(v, t, 0)),
                                    ],
                                )
                            } else if i + 1 < toks.len() {
                                match token_int(toks[i + 1]) {
                                    Some(sl) => if 0 <= sl < settings_enum_slot_count(t) {
                                        Some(
                                            seq![
                                                TokenV::Sym(sym),
                                                TokenV::Int(top),
                                                TokenV::Sym(settings_enum_value(v, t, sl as int)),
                                            ],
                                        )
                                    } else {
                                        None
                                    },
                                    None => None,
                                }
                            } else {
                                None
                            }
                        },
                        _ => None,
                    },
                }
            },
            _ => None,
        }
    }
}

/// Applies a set message at a settings-level identifier position.
pub fn settings_handle_leaf_set(obj: &mut Settings, toks: &Vec<Token>, i: usize) -> (r: Result<
    (),
    RytmExternalError,
>)
    requires
        old(obj).wf(),
    ensures
        final(obj).wf(),
        match settings_leaf_set_msg(old(obj)@, toks.deep_view(), i as int) {
            Some(v2) => r is Ok && final(obj)@ =~~= v2,
            None => r is Err && final(obj)@ =~~= old(obj)@,
        },
{
    if i >= toks.len() {
        return Err(fmt_err());
    }
    let sym = match &toks[i] {
        Token::Sym(s) => s,
        _ => {
            return Err(fmt_err());
        },
    };
    if !sym.as_str().is_ascii() {
        return Err(ident_err(sym));
    }
    match crate::strutil::split_colon(sym) {
        Some(parts) => {
            let t = match settings_classify(&parts.0) {
                Some(SettingsSymbol::EnumType(t)) => t,
                _ => {
                    return Err(enum_err(&parts.0));
                },
            };
            let n = settings_enum_slots(t);
            let slot: usize = if n == 1 {
                0
            } else {
                match slot_token(toks, i + 1, n) {
                    Some(sl) => sl,
                    None => {
                        return Err(range_err(sym));
                    },
                }
            };
            if obj.set_enum(t, slot, &parts.1) {
                Ok(())
            } else {
                Err(variant_err(&parts.1))
            }
        },
        None => {
            let f = match settings_classify(sym) {
                Some(SettingsSymbol::Plain(f)) => f,
                _ => {
                    return Err(ident_err(sym));
                },
            };
            if !settings_settable_exec(f) {
                return Err(ident_err(sym));
            }
            let n = settings_slot_count(f);
            if settings_is_mark(f) {
                match slot_token(toks, i + 1, n) {
                    Some(sl) => {
                        let tk = &toks[i + 1];
                        if obj.set_field(f, sl, tk) {
                            Ok(())
                        } else {
                            Err(param_err(sym))
                        }
                    },
                    None => Err(range_err(sym)),
                }
            } else if n == 1 {
                if i + 1 < toks.len() {
                    let tk = &toks[i + 1];
                    if obj.set_field(f, 0, tk) {
                        Ok(())
                    } else {
                        Err(param_err(sym))
                    }
                } else {
                    Err(fmt_err())
                }
            } else {
                if toks.len() > 2 && i < toks.len() - 2 {
                    match slot_token(toks, i + 1, n) {
                        Some(sl) => {
                            let tk = &toks[i + 2];
                            if obj.set_field(f, sl, tk) {
                                Ok(())
                            } else {
                                Err(param_err(sym))
                            }
                        },
                        None => Err(range_err(sym)),
                    }
                } else {
                    Err(fmt_err())
                }
            }
        },
    }
}

/// Reads at a settings-level identifier position, producing the reply tuple.
pub fn settings_handle_leaf_get(obj: &Settings, toks: &Vec<Token>, i: usize, top: i64) -> (r: Result<
    Vec<Token>,
    RytmExternalError,
>)
    requires
        obj.wf(),
    ensures
        match settings_leaf_get_msg(obj@, toks.deep_view(), i as int, top) {
            Some(out) => r matches Ok(o) && o.deep_view() =~~= out,
            None => r is Err,
        },
{
    if i >= toks.len() {
        return Err(fmt_err());
    }
    let sym = match &toks[i] {
        Token::Sym(s) => s,
        _ => {
            return Err(fmt_err());
        },
    };
    if !sym.as_str().is_ascii() {
        return Err(ident_err(sym));
    }
    match crate::strutil::split_colon(sym) {
        Some(parts) => {
            let t = match settings_classify(&parts.0) {
                Some(SettingsSymbol::EnumType(t)) => t,
                _ => {
                    return Err(enum_err(&parts.0));
                },
            };
            let n = settings_enum_slots(t);
            let slot: usize = if n == 1 {
                0
            } else {
                match crate::numparse::parse_small_dec(&parts.1) {
                    Some(sl) => {
                        if 0 <= sl && (sl as usize) < n {
                            sl as usize
                        } else {
                            return Err(range_err(sym));
                        }
                    },
                    None => {
                        return Err(range_err(sym));
                    },
                }
            };
            let value = obj.get_enum(t, slot);
            Ok(triple(Token::Sym(parts.0), Token::Int(top), Token::Sym(value)))
        },
        None => {
            match settings_classify(sym) {
                Some(SettingsSymbol::Plain(f)) => {
                    let n = settings_slot_count(f);
                    let slot: usize = if n == 1 {
                        0
                    } else {
                        match slot_token(toks, i + 1, n) {
                            Some(sl) => sl,
                            None => {
                                return Err(range_err(sym));
                            },
                        }
                    };
                    let value = obj.get_field(f, slot);
                    Ok(triple(Token::Sym(sym.clone()), Token::Int(top), value))
                },
                Some(SettingsSymbol::EnumType(t)) => {
                    let n = settings_enum_slots(t);
                    let slot: usize = if n == 1 {
                        0
                    } else {
                        match slot_token(toks, i + 1, n) {
                            Some(sl) => sl,
                            None => {
                                return Err(range_err(sym));
                            },
                        }
                    };
                    let value = obj.get_enum(t, slot);
                    Ok(triple(Token::Sym(sym.clone()), Token::Int(top), Token::Sym(value)))
                },
                _ => Err(ident_err(sym)),
            }
        },
    }
}

} // verus!
