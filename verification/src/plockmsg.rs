//! The parameter-lock sub-dispatcher. A lock is addressed by the very same
//! kit and sound identifier tables the base field handlers use; a field or
//! enumerated type can be locked exactly when those tables know it and it is
//! lock-capable. Values are coerced by the same rules as the base fields.

use vstd::prelude::*;

use crate::error::RytmExternalError;
use crate::fields::{kit_enum_plockable, kit_field_plockable, kit_symbol_spec, kit_classify,
    is_kit_enum_plockable, is_kit_field_plockable, is_sound_enum_plockable,
    is_sound_field_plockable, sound_classify, sound_enum_plockable, sound_field_plockable,
    sound_symbol_spec, KitEnumType, KitField, KitSymbol, SoundEnumType, SoundField, SoundSymbol};
use crate::kit::kit_enum_variant_ok;
use crate::leafmsg::{enum_err, fmt_err, ident_err, param_err, variant_err};
use crate::plock::{plock_val_token, PlockKey, PlockVal, PlockValV};
use crate::sound::sound_enum_variant_ok;
use crate::strutil::enum_split;
use crate::token::{coerce_bool01, coerce_int, coerce_num, token_bool01, token_int, token_num,
    triple, Num, Token, TokenV};
use crate::trig::{Trig, TrigView};
use crate::variants_fx::{check_chromatic_mode_variant, check_control_in_mod_target_variant,
    check_filter_type_variant, check_fx_comp_attack_variant, check_fx_comp_ratio_variant,
    check_fx_comp_release_variant, check_fx_comp_side_chain_eq_variant,
    check_fx_delay_time_on_the_grid_variant, check_fx_lfo_destination_variant,
    check_lfo_destination_variant, check_lfo_mode_variant, check_lfo_multiplier_variant,
    check_lfo_waveform_variant, check_machine_type_variant, check_sound_mod_target_variant};

verus! {

/// The lock key a plain identifier resolves to: a lock-capable kit field, or
/// failing that a lock-capable sound field.
pub open spec fn plock_plain_key(s: Seq<char>) -> Option<PlockKey> {
    match kit_symbol_spec(s) {
        Some(KitSymbol::Plain(f)) => if kit_field_plockable(f) {
            Some(PlockKey::KitPlain(f))
        } else {
            plock_sound_plain_key(s)
        },
        _ => plock_sound_plain_key(s),
    }
}

/// The sound-side half of the plain lock-key lookup.
pub open spec fn plock_sound_plain_key(s: Seq<char>) -> Option<PlockKey> {
    match sound_symbol_spec(s) {
        Some(SoundSymbol::Plain(f)) => if sound_field_plockable(f) {
            Some(PlockKey::SoundPlain(f))
        } else {
            None
        },
        _ => None,
    }
}

/// The lock key an enumerated-type identifier resolves to.
pub open spec fn plock_enum_key(s: Seq<char>) -> Option<PlockKey> {
    match kit_symbol_spec(s) {
        Some(KitSymbol::EnumType(t)) => if kit_enum_plockable(t) {
            Some(PlockKey::KitEnum(t))
        } else {
            None
        },
        _ => match sound_symbol_spec(s) {
            Some(SoundSymbol::EnumType(t)) => if sound_enum_plockable(t) {
                Some(PlockKey::SoundEnum(t))
            } else {
                None
            },
            _ => None,
        },
    }
}

/// Resolves a plain identifier to its lock key.
pub fn plock_plain_key_exec(s: &String) -> (r: Option<PlockKey>)
    ensures
        r == plock_plain_key(s@),
{
    match kit_classify(s) {
        Some(KitSymbol::Plain(f)) => {
            if is_kit_field_plockable(f) {
                return Some(PlockKey::KitPlain(f));
            }
            plock_sound_plain_key_exec(s)
        },
        _ => plock_sound_plain_key_exec(s),
    }
}

/// Resolves a plain identifier to a sound-side lock key.
fn plock_sound_plain_key_exec(s: &String) -> (r: Option<PlockKey>)
    ensures
        r == plock_sound_plain_key(s@),
{
    match sound_classify(s) {
        Some(SoundSymbol::Plain(f)) => {
            if is_sound_field_plockable(f) {
                Some(PlockKey::SoundPlain(f))
            } else {
                None
            }
        },
        _ => None,
    }
}

/// Resolves an enumerated-type identifier to its lock key.
pub fn plock_enum_key_exec(s: &String) -> (r: Option<PlockKey>)
    ensures
        r == plock_enum_key(s@),
{
    match kit_classify(s) {
        Some(KitSymbol::EnumType(t)) => {
            if is_kit_enum_plockable(t) {
                Some(PlockKey::KitEnum(t))
            } else {
                None
            }
        },
        _ => {
            match sound_classify(s) {
                Some(SoundSymbol::EnumType(t)) => {
                    if is_sound_enum_plockable(t) {
                        Some(PlockKey::SoundEnum(t))
                    } else {
                        None
                    }
                },
                _ => None,
            }
        },
    }
}

/// The lock value a parameter token coerces to under a kit field, by the
/// same rules as the base field.
pub open spec fn kit_plock_val_spec(f: KitField, t: TokenV) -> Option<PlockValV> {
    match f {
        KitField::Version => match token_int(t) {
            Some(i) => Some(PlockValV::Num(Num::Int(i))),
            None => None,
        },
        KitField::Index => None,
        KitField::Name => None,
        KitField::FxDelayTime => match token_int(t) {
            Some(i) => Some(PlockValV::Num(Num::Int(i))),
            None => None,
        },
        KitField::FxDelayPingPong => match token_bool01(t) {
            Some(b) => Some(PlockValV::Flag(b)),
            None => None,
        },
        KitField::FxDelayStereoWidth => match token_int(t) {
            Some(i) => Some(PlockValV::Num(Num::Int(i))),
            None => None,
        },
        KitField::FxDelayFeedback => match token_int(t) {
            Some(i) => Some(PlockValV::Num(Num::Int(i))),
            None => None,
        },
        KitField::FxDelayHpf => match token_int(t) {
            Some(i) => Some(PlockValV::Num(Num::Int(i))),
            None => None,
        },
        KitField::FxDelayLpf => match token_int(t) {
            Some(i) => Some(PlockValV::Num(Num::Int(i))),
            None => None,
        },
        KitField::FxDelayReverbSend => match token_int(t) {
            Some(i) => Some(PlockValV::Num(Num::Int(i))),
            None => None,
        },
        KitField::FxDelayVolume => match token_int(t) {
            Some(i) => Some(PlockValV::Num(Num::Int(i))),
            None => None,
        },
        KitField::FxReverbPreDelay => match token_int(t) {
            Some(i) => Some(PlockValV::Num(Num::Int(i))),
            None => None,
        },
        KitField::FxReverbDecay => match token_int(t) {
            Some(i) => Some(PlockValV::Num(Num::Int(i))),
            None => None,
        },
        KitField::FxReverbFreq => match token_int(t) {
            Some(i) => Some(PlockValV::Num(Num::Int(i))),
            None => None,
        },
        KitField::FxReverbGain => match token_int(t) {
            Some(i) => Some(PlockValV::Num(Num::Int(i))),
            None => None,
        },
        KitField::FxReverbHpf => match token_int(t) {
            Some(i) => Some(PlockValV::Num(Num::Int(i))),
            None => None,
        },
        KitField::FxReverbLpf => match token_int(t) {
            Some(i) => Some(PlockValV::Num(Num::Int(i))),
            None => None,
        },
        KitField::FxReverbVolume => match token_int(t) {
            Some(i) => Some(PlockValV::Num(Num::Int(i))),
            None => None,
        },
        KitField::FxCompThreshold => match token_int(t) {
            Some(i) => Some(PlockValV::Num(Num::Int(i))),
            None => None,
        },
        KitField::FxCompGain => match token_int(t) {
            Some(i) => Some(PlockValV::Num(Num::Int(i))),
            None => None,
        },
        KitField::FxCompMix => match token_int(t) {
            Some(i) => Some(PlockValV::Num(Num::Int(i))),
            None => None,
        },
        KitField::FxCompVolume => match token_int(t) {
            Some(i) => Some(PlockValV::Num(Num::Int(i))),
            None => None,
        },
        KitField::FxLfoSpeed => match token_int(t) {
            Some(i) => Some(PlockValV::Num(Num::Int(i))),
            None => None,
        },
        KitField::FxLfoFade => match token_int(t) {
            Some(i) => Some(PlockValV::Num(Num::Int(i))),
            None => None,
        },
        KitField::FxLfoStartPhase => match token_int(t) {
            Some(i) => Some(PlockValV::Num(Num::Int(i))),
            None => None,
        },
        KitField::FxLfoDepth => match token_num(t) {
            Some(n) => Some(PlockValV::Num(n)),
            None => None,
        },
    }
}

/// The lock value a parameter token coerces to under a sound field.
pub open spec fn sound_plock_val_spec(f: SoundField, t: TokenV) -> Option<PlockValV> {
    match f {
        SoundField::Name => None,
        SoundField::AccentLevel => match token_int(t) {
            Some(i) => Some(PlockValV::Num(Num::Int(i))),
            None => None,
        },
        SoundField::AmpAttack => match token_int(t) {
            Some(i) => Some(PlockValV::Num(Num::Int(i))),
            None => None,
        },
        SoundField::AmpHold => match token_int(t) {
            Some(i) => Some(PlockValV::Num(Num::Int(i))),
            None => None,
        },
        SoundField::AmpDecay => match token_int(t) {
            Some(i) => Some(PlockValV::Num(Num::Int(i))),
            None => None,
        },
        SoundField::AmpOverdrive => match token_int(t) {
            Some(i) => Some(PlockValV::Num(Num::Int(i))),
            None => None,
        },
        SoundField::AmpDelaySend => match token_int(t) {
            Some(i) => Some(PlockValV::Num(Num::Int(i))),
            None => None,
        },
        SoundField::AmpReverbSend => match token_int(t) {
            Some(i) => Some(PlockValV::Num(Num::Int(i))),
            None => None,
        },
        SoundField::AmpPan => match token_int(t) {
            Some(i) => Some(PlockValV::Num(Num::Int(i))),
            None => None,
        },
        SoundField::AmpVolume => match token_int(t) {
            Some(i) => Some(PlockValV::Num(Num::Int(i))),
            None => None,
        },
        SoundField::FiltAttack => match token_int(t) {
            Some(i) => Some(PlockValV::Num(Num::Int(i))),
            None => None,
        },
        SoundField::FiltHold => match token_int(t) {
            Some(i) => Some(PlockValV::Num(Num::Int(i))),
            None => None,
        },
        SoundField::FiltDecay => match token_int(t) {
            Some(i) => Some(PlockValV::Num(Num::Int(i))),
            None => None,
        },
        SoundField::FiltRelease => match token_int(t) {
            Some(i) => Some(PlockValV::Num(Num::Int(i))),
            None => None,
        },
        SoundField::FiltCutoff => match token_int(t) {
            Some(i) => Some(PlockValV::Num(Num::Int(i))),
            None => None,
        },
        SoundField::FiltResonance => match token_int(t) {
            Some(i) => Some(PlockValV::Num(Num::Int(i))),
            None => None,
        },
        SoundField::FiltEnvAmount => match token_int(t) {
            Some(i) => Some(PlockValV::Num(Num::Int(i))),
            None => None,
        },
        SoundField::LfoSpeed => match token_int(t) {
            Some(i) => Some(PlockValV::Num(Num::Int(i))),
            None => None,
        },
        SoundField::LfoFade => match token_int(t) {
            Some(i) => Some(PlockValV::Num(Num::Int(i))),
            None => None,
        },
        SoundField::LfoStartPhase => match token_int(t) {
            Some(i) => Some(PlockValV::Num(Num::Int(i))),
            None => None,
        },
        SoundField::LfoDepth => match token_num(t) {
            Some(n) => Some(PlockValV::Num(n)),
            None => None,
        },
        SoundField::SampTune => match token_int(t) {
            Some(i) => Some(PlockValV::Num(Num::Int(i))),
            None => None,
        },
        SoundField::SampFineTune => match token_int(t) {
            Some(i) => Some(PlockValV::Num(Num::Int(i))),
            None => None,
        },
        SoundField::SampNumber => match token_int(t) {
            Some(i) => Some(PlockValV::Num(Num::Int(i))),
            None => None,
        },
        SoundField::SampBitReduction => match token_int(t) {
            Some(i) => Some(PlockValV::Num(Num::Int(i))),
            None => None,
        },
        SoundField::SampStart => match token_num(t) {
            Some(n) => Some(PlockValV::Num(n)),
            None => None,
        },
        SoundField::SampEnd => match token_num(t) {
            Some(n) => Some(PlockValV::Num(n)),
            None => None,
        },
        SoundField::SampLoopFlag => match token_bool01(t) {
            Some(b) => Some(PlockValV::Flag(b)),
            None => None,
        },
        SoundField::SampVolume => match token_int(t) {
            Some(i) => Some(PlockValV::Num(Num::Int(i))),
            None => None,
        },
        SoundField::VelModAmt => match token_int(t) {
            Some(i) => Some(PlockValV::Num(Num::Int(i))),
            None => None,
        },
        SoundField::AtModAmt => match token_int(t) {
            Some(i) => Some(PlockValV::Num(Num::Int(i))),
            None => None,
        },
        SoundField::EnvResetFilter => match token_bool01(t) {
            Some(b) => Some(PlockValV::Flag(b)),
            None => None,
        },
        SoundField::VelToVol => match token_bool01(t) {
            Some(b) => Some(PlockValV::Flag(b)),
            None => None,
        },
        SoundField::LegacyFxSend => match token_bool01(t) {
            Some(b) => Some(PlockValV::Flag(b)),
            None => None,
        },
    }
}

/// Coerces a parameter token under a kit field.
pub fn kit_plock_coerce(f: KitField, t: &Token) -> (r: Option<PlockVal>)
    ensures
        match (r, kit_plock_val_spec(f, t@)) {
            (Some(v), Some(vs)) => v@ == vs,
            (None, None) => true,
            _ => false,
        },
{
    match f {
        KitField::Version => match coerce_int(t) {
            Some(i) => Some(PlockVal::Num(Num::Int(i))),
            None => None,
        },
        KitField::Index => None,
        KitField::Name => None,
        KitField::FxDelayTime => match coerce_int(t) {
            Some(i) => Some(PlockVal::Num(Num::Int(i))),
            None => None,
        },
        KitField::FxDelayPingPong => match coerce_bool01(t) {
            Some(b) => Some(PlockVal::Flag(b)),
            None => None,
        },
        KitField::FxDelayStereoWidth => match coerce_int(t) {
            Some(i) => Some(PlockVal::Num(Num::Int(i))),
            None => None,
        },
        KitField::FxDelayFeedback => match coerce_int(t) {
            Some(i) => Some(PlockVal::Num(Num::Int(i))),
            None => None,
        },
        KitField::FxDelayHpf => match coerce_int(t) {
            Some(i) => Some(PlockVal::Num(Num::Int(i))),
            None => None,
        },
        KitField::FxDelayLpf => match coerce_int(t) {
            Some(i) => Some(PlockVal::Num(Num::Int(i))),
            None => None,
        },
        KitField::FxDelayReverbSend => match coerce_int(t) {
            Some(i) => Some(PlockVal::Num(Num::Int(i))),
            None => None,
        },
        KitField::FxDelayVolume => match coerce_int(t) {
            Some(i) => Some(PlockVal::Num(Num::Int(i))),
            None => None,
        },
        KitField::FxReverbPreDelay => match coerce_int(t) {
            Some(i) => Some(PlockVal::Num(Num::Int(i))),
            None => None,
        },
        KitField::FxReverbDecay => match coerce_int(t) {
            Some(i) => Some(PlockVal::Num(Num::Int(i))),
            None => None,
        },
        KitField::FxReverbFreq => match coerce_int(t) {
            Some(i) => Some(PlockVal::Num(Num::Int(i))),
            None => None,
        },
        KitField::FxReverbGain => match coerce_int(t) {
            Some(i) => Some(PlockVal::Num(Num::Int(i))),
            None => None,
        },
        KitField::FxReverbHpf => match coerce_int(t) {
            Some(i) => Some(PlockVal::Num(Num::Int(i))),
            None => None,
        },
        KitField::FxReverbLpf => match coerce_int(t) {
            Some(i) => Some(PlockVal::Num(Num::Int(i))),
            None => None,
        },
        KitField::FxReverbVolume => match coerce_int(t) {
            Some(i) => Some(PlockVal::Num(Num::Int(i))),
            None => None,
        },
        KitField::FxCompThreshold => match coerce_int(t) {
            Some(i) => Some(PlockVal::Num(Num::Int(i))),
            None => None,
        },
        KitField::FxCompGain => match coerce_int(t) {
            Some(i) => Some(PlockVal::Num(Num::Int(i))),
            None => None,
        },
        KitField::FxCompMix => match coerce_int(t) {
            Some(i) => Some(PlockVal::Num(Num::Int(i))),
            None => None,
        },
        KitField::FxCompVolume => match coerce_int(t) {
            Some(i) => Some(PlockVal::Num(Num::Int(i))),
            None => None,
        },
        KitField::FxLfoSpeed => match coerce_int(t) {
            Some(i) => Some(PlockVal::Num(Num::Int(i))),
            None => None,
        },
        KitField::FxLfoFade => match coerce_int(t) {
            Some(i) => Some(PlockVal::Num(Num::Int(i))),
            None => None,
        },
        KitField::FxLfoStartPhase => match coerce_int(t) {
            Some(i) => Some(PlockVal::Num(Num::Int(i))),
            None => None,
        },
        KitField::FxLfoDepth => match coerce_num(t) {
            Some(n) => Some(PlockVal::Num(n)),
            None => None,
        },
    }
}

/// Coerces a parameter token under a sound field.
pub fn sound_plock_coerce(f: SoundField, t: &Token) -> (r: Option<PlockVal>)
    ensures
        match (r, sound_plock_val_spec(f, t@)) {
            (Some(v), Some(vs)) => v@ == vs,
            (None, None) => true,
            _ => false,
        },
{
    match f {
        SoundField::Name => None,
        SoundField::AccentLevel => match coerce_int(t) {
            Some(i) => Some(PlockVal::Num(Num::Int(i))),
            None => None,
        },
        SoundField::AmpAttack => match coerce_int(t) {
            Some(i) => Some(PlockVal::Num(Num::Int(i))),
            None => None,
        },
        SoundField::AmpHold => match coerce_int(t) {
            Some(i) => Some(PlockVal::Num(Num::Int(i))),
            None => None,
        },
        SoundField::AmpDecay => match coerce_int(t) {
            Some(i) => Some(PlockVal::Num(Num::Int(i))),
            None => None,
        },
        SoundField::AmpOverdrive => match coerce_int(t) {
            Some(i) => Some(PlockVal::Num(Num::Int(i))),
            None => None,
        },
        SoundField::AmpDelaySend => match coerce_int(t) {
            Some(i) => Some(PlockVal::Num(Num::Int(i))),
            None => None,
        },
        SoundField::AmpReverbSend => match coerce_int(t) {
            Some(i) => Some(PlockVal::Num(Num::Int(i))),
            None => None,
        },
        SoundField::AmpPan => match coerce_int(t) {
            Some(i) => Some(PlockVal::Num(Num::Int(i))),
            None => None,
        },
        SoundField::AmpVolume => match coerce_int(t) {
            Some(i) => Some(PlockVal::Num(Num::Int(i))),
            None => None,
        },
        SoundField::FiltAttack => match coerce_int(t) {
            Some(i) => Some(PlockVal::Num(Num::Int(i))),
            None => None,
        },
        SoundField::FiltHold => match coerce_int(t) {
            Some(i) => Some(PlockVal::Num(Num::Int(i))),
            None => None,
        },
        SoundField::FiltDecay => match coerce_int(t) {
            Some(i) => Some(PlockVal::Num(Num::Int(i))),
            None => None,
        },
        SoundField::FiltRelease => match coerce_int(t) {
            Some(i) => Some(PlockVal::Num(Num::Int(i))),
            None => None,
        },
        SoundField::FiltCutoff => match coerce_int(t) {
            Some(i) => Some(PlockVal::Num(Num::Int(i))),
            None => None,
        },
        SoundField::FiltResonance => match coerce_int(t) {
            Some(i) => Some(PlockVal::Num(Num::Int(i))),
            None => None,
        },
        SoundField::FiltEnvAmount => match coerce_int(t) {
            Some(i) => Some(PlockVal::Num(Num::Int(i))),
            None => None,
        },
        SoundField::LfoSpeed => match coerce_int(t) {
            Some(i) => Some(PlockVal::Num(Num::Int(i))),
            None => None,
        },
        SoundField::LfoFade => match coerce_int(t) {
            Some(i) => Some(PlockVal::Num(Num::Int(i))),
            None => None,
        },
        SoundField::LfoStartPhase => match coerce_int(t) {
            Some(i) => Some(PlockVal::Num(Num::Int(i))),
            None => None,
        },
        SoundField::LfoDepth => match coerce_num(t) {
            Some(n) => Some(PlockVal::Num(n)),
            None => None,
        },
        SoundField::SampTune => match coerce_int(t) {
            Some(i) => Some(PlockVal::Num(Num::Int(i))),
            None => None,
        },
        SoundField::SampFineTune => match coerce_int(t) {
            Some(i) => Some(PlockVal::Num(Num::Int(i))),
            None => None,
        },
        SoundField::SampNumber => match coerce_int(t) {
            Some(i) => Some(PlockVal::Num(Num::Int(i))),
            None => None,
        },
        SoundField::SampBitReduction => match coerce_int(t) {
            Some(i) => Some(PlockVal::Num(Num::Int(i))),
            None => None,
        },
        SoundField::SampStart => match coerce_num(t) {
            Some(n) => Some(PlockVal::Num(n)),
            None => None,
        },
        SoundField::SampEnd => match coerce_num(t) {
            Some(n) => Some(PlockVal::Num(n)),
            None => None,
        },
        SoundField::SampLoopFlag => match coerce_bool01(t) {
            Some(b) => Some(PlockVal::Flag(b)),
            None => None,
        },
        SoundField::SampVolume => match coerce_int(t) {
            Some(i) => Some(PlockVal::Num(Num::Int(i))),
            None => None,
        },
        SoundField::VelModAmt => match coerce_int(t) {
            Some(i) => Some(PlockVal::Num(Num::Int(i))),
            None => None,
        },
        SoundField::AtModAmt => match coerce_int(t) {
            Some(i) => Some(PlockVal::Num(Num::Int(i))),
            None => None,
        },
        SoundField::EnvResetFilter => match coerce_bool01(t) {
            Some(b) => Some(PlockVal::Flag(b)),
            None => None,
        },
        SoundField::VelToVol => match coerce_bool01(t) {
            Some(b) => Some(PlockVal::Flag(b)),
            None => None,
        },
        SoundField::LegacyFxSend => match coerce_bool01(t) {
            Some(b) => Some(PlockVal::Flag(b)),
            None => None,
        },
    }
}

/// The coercion of a parameter token under a lock key.
pub open spec fn plock_coerce_spec(k: PlockKey, t: TokenV) -> Option<PlockValV> {
    match k {
        PlockKey::KitPlain(f) => kit_plock_val_spec(f, t),
        PlockKey::SoundPlain(f) => sound_plock_val_spec(f, t),
        _ => None,
    }
}

/// Whether the symbol is a variant of the domain behind an enum lock key.
pub open spec fn plock_variant_ok(k: PlockKey, s: Seq<char>) -> bool {
    match k {
        PlockKey::KitEnum(t) => kit_enum_variant_ok(t, s),
        PlockKey::SoundEnum(t) => sound_enum_variant_ok(t, s),
        _ => false,
    }
}

/// Checks a variant symbol against a kit enumerated domain.
pub fn kit_enum_variant_check(t: KitEnumType, s: &String) -> (r: bool)
    ensures
        r == kit_enum_variant_ok(t, s@),
{
    match t {
        KitEnumType::ControlInModTarget => check_control_in_mod_target_variant(s),
        KitEnumType::FxLfoDestination => check_fx_lfo_destination_variant(s),
        KitEnumType::FxDelayTimeOnTheGrid => check_fx_delay_time_on_the_grid_variant(s),
        KitEnumType::FxCompAttack => check_fx_comp_attack_variant(s),
        KitEnumType::FxCompRelease => check_fx_comp_release_variant(s),
        KitEnumType::FxCompRatio => check_fx_comp_ratio_variant(s),
        KitEnumType::FxCompSideChainEq => check_fx_comp_side_chain_eq_variant(s),
    }
}

/// Checks a variant symbol against a sound enumerated domain.
pub fn sound_enum_variant_check(t: SoundEnumType, s: &String) -> (r: bool)
    ensures
        r == sound_enum_variant_ok(t, s@),
{
    match t {
        SoundEnumType::MachineType => check_machine_type_variant(s),
        SoundEnumType::LfoDestination => check_lfo_destination_variant(s),
        SoundEnumType::VelModTarget => check_sound_mod_target_variant(s),
        SoundEnumType::AtModTarget => check_sound_mod_target_variant(s),
        SoundEnumType::FilterType => check_filter_type_variant(s),
        SoundEnumType::LfoMultiplier => check_lfo_multiplier_variant(s),
        SoundEnumType::LfoWaveform => check_lfo_waveform_variant(s),
        SoundEnumType::LfoMode => check_lfo_mode_variant(s),
        SoundEnumType::ChromaticMode => check_chromatic_mode_variant(s),
    }
}

/// What `plockset` does from the identifier position `i`.
pub open spec fn trig_plock_set_msg(v: TrigView, toks: Seq<TokenV>, i: int) -> Option<TrigView> {
    if !(0 <= i < toks.len()) {
        None
    } else {
        match toks[i] {
            TokenV::Sym(sym) => if !vstd::utf8::is_ascii_chars(sym) {
                None
            } else {
                match enum_split(sym) {
                    Some(parts) => match plock_enum_key(parts.0) {
                        Some(k) => if plock_variant_ok(k, parts.1) {
                            Some(TrigView { plocks: v.plocks.insert(k, PlockValV::Sym(parts.1)), ..v })
                        } else {
                            None
                        },
                        None => None,
                    },
                    None => match plock_plain_key(sym) {
                        Some(k) => if i + 1 < toks.len() {
                            match plock_coerce_spec(k, toks[i + 1]) {
                                Some(val) => Some(TrigView { plocks: v.plocks.insert(k, val), ..v }),
                                None => None,
                            }
                        } else {
                            None
                        },
                        None => None,
                    },
                }
            },
            _ => None,
        }
    }
}

/// What `plockclear` does from the identifier position `i`: the lock under
/// the named field or type is removed; clearing an unset lock is a no-op.
pub open spec fn trig_plock_clear_msg(v: TrigView, toks: Seq<TokenV>, i: int) -> Option<TrigView> {
    if !(0 <= i < toks.len()) {
        None
    } else {
        match toks[i] {
            TokenV::Sym(sym) => if !vstd::utf8::is_ascii_chars(sym) {
                None
            } else {
                match enum_split(sym) {
                    Some(parts) => match plock_enum_key(parts.0) {
                        Some(k) => Some(TrigView { plocks: v.plocks.remove(k), ..v }),
                        None => None,
                    },
                    None => match plock_plain_key(sym) {
                        Some(k) => Some(TrigView { plocks: v.plocks.remove(k), ..v }),
                        None => match plock_enum_key(sym) {
                            Some(k) => Some(TrigView { plocks: v.plocks.remove(k), ..v }),
                            None => None,
                        },
                    },
                }
            },
            _ => None,
        }
    }
}

/// What `plockget` reads from the identifier position `i`: the lock's value,
/// or the `unset` sentinel where no lock is set; absence is not an error.
pub open spec fn trig_plock_get_msg(v: TrigView, toks: Seq<TokenV>, i: int, top: i64) -> Option<
    Seq<TokenV>,
> {
    if !(0 <= i < toks.len()) {
        None
    } else {
        match toks[i] {
            TokenV::Sym(sym) => if !vstd::utf8::is_ascii_chars(sym) {
                None
            } else {
                match enum_split(sym) {
                    Some(parts) => match plock_enum_key(parts.0) {
                        Some(k) => Some(
                            seq![
                                TokenV::Sym(parts.0),
                                TokenV::Int(top),
                                plock_read_token(v, k),
                            ],
                        ),
                        None => None,
                    },
                    None => match plock_plain_key(sym) {
                        Some(k) => Some(
                            seq![TokenV::Sym(sym), TokenV::Int(top), plock_read_token(v, k)],
                        ),
                        None => match plock_enum_key(sym) {
                            Some(k) => Some(
                                seq![TokenV::Sym(sym), TokenV::Int(top), plock_read_token(v, k)],
                            ),
                            None => None,
                        },
                    },
                }
            },
            _ => None,
        }
    }
}

/// The token a lock reads back as: its value, or the `unset` sentinel.
pub open spec fn plock_read_token(v: TrigView, k: PlockKey) -> TokenV {
    if v.plocks.contains_key(k) {
        plock_val_token(v.plocks[k])
    } else {
        TokenV::Sym("unset"@)
    }
}

/// Applies a `plockset` from the identifier position.
pub fn trig_handle_plock_set(trig: &mut Trig, toks: &Vec<Token>, i: usize) -> (r: Result<
    (),
    RytmExternalError,
>)
    requires
        old(trig).wf(),
    ensures
        final(trig).wf(),
        match trig_plock_set_msg(old(trig)@, toks.deep_view(), i as int) {
            Some(v2) => r is Ok && final(trig)@ =~~= v2,
            None => r is Err && final(trig)@ =~~= old(trig)@,
        },
{
    if i >= toks.len() {
        return Err(fmt_err());
    }
    let sym = match &toks[i] {
        Token::Sym(s) => s,
        _ => {
            return Err(fmt_err());
        },
    };
    if !sym.as_str().is_ascii() {
        return Err(ident_err(sym));
    }
    match crate::strutil::split_colon(sym) {
        Some(parts) => {
            match plock_enum_key_exec(&parts.0) {
                Some(k) => {
                    let ok = match k {
                        PlockKey::KitEnum(t) => kit_enum_variant_check(t, &parts.1),
                        PlockKey::SoundEnum(t) => sound_enum_variant_check(t, &parts.1),
                        _ => false,
                    };
                    proof {
                        assert(ok == plock_variant_ok(k, parts.1@));
                    }
                    if ok {
                        trig.plock_write(k, PlockVal::Sym(parts.1));
                        Ok(())
                    } else {
                        Err(variant_err(&parts.1))
                    }
                },
                None => Err(enum_err(&parts.0)),
            }
        },
        None => {
            match plock_plain_key_exec(sym) {
                Some(k) => {
                    if i + 1 < toks.len() {
                        let tk = &toks[i + 1];
                        let coerced = match k {
                            PlockKey::KitPlain(f) => kit_plock_coerce(f, tk),
                            PlockKey::SoundPlain(f) => sound_plock_coerce(f, tk),
                            _ => None,
                        };
                        match coerced {
                            Some(val) => {
                                trig.plock_write(k, val);
                                Ok(())
                            },
                            None => Err(param_err(sym)),
                        }
                    } else {
                        Err(fmt_err())
                    }
                },
                None => Err(ident_err(sym)),
            }
        },
    }
}

/// Applies a `plockclear` from the identifier position.
pub fn trig_handle_plock_clear(trig: &mut Trig, toks: &Vec<Token>, i: usize) -> (r: Result<
    (),
    RytmExternalError,
>)
    requires
        old(trig).wf(),
    ensures
        final(trig).wf(),
        match trig_plock_clear_msg(old(trig)@, toks.deep_view(), i as int) {
            Some(v2) => r is Ok && final(trig)@ =~~= v2,
            None => r is Err && final(trig)@ =~~= old(trig)@,
        },
{
    if i >= toks.len() {
        return Err(fmt_err());
    }
    let sym = match &toks[i] {
        Token::Sym(s) => s,
        _ => {
            return Err(fmt_err());
        },
    };
    if !sym.as_str().is_ascii() {
        return Err(ident_err(sym));
    }
    match crate::strutil::split_colon(sym) {
        Some(parts) => {
            match plock_enum_key_exec(&parts.0) {
                Some(k) => {
                    trig.plock_clear(k);
                    Ok(())
                },
                None => Err(enum_err(&parts.0)),
            }
        },
        None => {
            match plock_plain_key_exec(sym) {
                Some(k) => {
                    trig.plock_clear(k);
                    Ok(())
                },
                None => {
                    match plock_enum_key_exec(sym) {
                        Some(k) => {
                            trig.plock_clear(k);
                            Ok(())
                        },
                        None => Err(ident_err(sym)),
                    }
                },
            }
        },
    }
}

/// Reads a lock with `plockget`, producing the reply tuple; an unset lock
/// reads back as the `unset` sentinel, never as an error.
pub fn trig_handle_plock_get(trig: &Trig, toks: &Vec<Token>, i: usize, top: i64) -> (r: Result<
    Vec<Token>,
    RytmExternalError,
>)
    requires
        trig.wf(),
    ensures
        match trig_plock_get_msg(trig@, toks.deep_view(), i as int, top) {
            Some(out) => r matches Ok(o) && o.deep_view() =~~= out,
            None => r is Err,
        },
{
    if i >= toks.len() {
        return Err(fmt_err());
    }
    let sym = match &toks[i] {
        Token::Sym(s) => s,
        _ => {
            return Err(fmt_err());
        },
    };
    if !sym.as_str().is_ascii() {
        return Err(ident_err(sym));
    }
    match crate::strutil::split_colon(sym) {
        Some(parts) => {
            match plock_enum_key_exec(&parts.0) {
                Some(k) => {
                    let value = match trig.plock_read(k) {
                        Some(t) => t,
                        None => Token::Sym("unset".to_owned()),
                    };
                    Ok(triple(Token::Sym(parts.0), Token::Int(top), value))
                },
                None => Err(enum_err(&parts.0)),
            }
        },
        None => {
            let key = match plock_plain_key_exec(sym) {
                Some(k) => Some(k),
                None => plock_enum_key_exec(sym),
            };
            match key {
                Some(k) => {
                    let value = match trig.plock_read(k) {
                        Some(t) => t,
                        None => Token::Sym("unset".to_owned()),
                    };
                    Ok(triple(Token::Sym(sym.clone()), Token::Int(top), value))
                },
                None => Err(ident_err(sym)),
            }
        },
    }
}

} // verus!
