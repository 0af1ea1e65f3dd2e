//! A sound: its name, amplitude, filter, LFO and sample pages, and the
//! slotted velocity and after-touch modulation settings.

use vstd::prelude::*;
#[allow(unused_imports)]
use vstd::pervasive::VecAdditionalExecFns;
use crate::fields::{SoundField, SoundEnumType};
#[allow(unused_imports)]
use crate::token::{bool01_to_token, bool01_token, coerce_bool01, coerce_int, coerce_num, num_to_token, num_token, token_bool01, token_int, token_num, Num, Token, TokenV};
#[allow(unused_imports)]
use crate::strutil::valid_name;
use crate::variants_fx::{check_chromatic_mode_variant, check_filter_type_variant, check_lfo_destination_variant, check_lfo_mode_variant, check_lfo_multiplier_variant, check_lfo_waveform_variant, check_machine_type_variant, check_sound_mod_target_variant, is_chromatic_mode_variant, is_filter_type_variant, is_lfo_destination_variant, is_lfo_mode_variant, is_lfo_multiplier_variant, is_lfo_waveform_variant, is_machine_type_variant, is_sound_mod_target_variant};

verus! {

/// The sound model object.
pub struct Sound {
    pub name: String,
    pub accent_level: i64,
    pub amp_attack: i64,
    pub amp_hold: i64,
    pub amp_decay: i64,
    pub amp_overdrive: i64,
    pub amp_delay_send: i64,
    pub amp_reverb_send: i64,
    pub amp_pan: i64,
    pub amp_volume: i64,
    pub filt_attack: i64,
    pub filt_hold: i64,
    pub filt_decay: i64,
    pub filt_release: i64,
    pub filt_cutoff: i64,
    pub filt_resonance: i64,
    pub filt_env_amount: i64,
    pub lfo_speed: i64,
    pub lfo_fade: i64,
    pub lfo_start_phase: i64,
    pub lfo_depth: Num,
    pub samp_tune: i64,
    pub samp_fine_tune: i64,
    pub samp_number: i64,
    pub samp_bit_reduction: i64,
    pub samp_start: Num,
    pub samp_end: Num,
    pub samp_loop_flag: bool,
    pub samp_volume: i64,
    pub vel_mod_amts: Vec<i64>,
    pub at_mod_amts: Vec<i64>,
    pub env_reset_filter: bool,
    pub vel_to_vol: bool,
    pub legacy_fx_send: bool,
    pub machine_type: String,
    pub lfo_destination: String,
    pub vel_mod_targets: Vec<String>,
    pub at_mod_targets: Vec<String>,
    pub filter_type: String,
    pub lfo_multiplier: String,
    pub lfo_waveform: String,
    pub lfo_mode: String,
    pub chromatic_mode: String,
}

/// The mathematical view of a sound.
#[verifier::ext_equal]
pub ghost struct SoundView {
    pub name: Seq<char>,
    pub accent_level: i64,
    pub amp_attack: i64,
    pub amp_hold: i64,
    pub amp_decay: i64,
    pub amp_overdrive: i64,
    pub amp_delay_send: i64,
    pub amp_reverb_send: i64,
    pub amp_pan: i64,
    pub amp_volume: i64,
    pub filt_attack: i64,
    pub filt_hold: i64,
    pub filt_decay: i64,
    pub filt_release: i64,
    pub filt_cutoff: i64,
    pub filt_resonance: i64,
    pub filt_env_amount: i64,
    pub lfo_speed: i64,
    pub lfo_fade: i64,
    pub lfo_start_phase: i64,
    pub lfo_depth: Num,
    pub samp_tune: i64,
    pub samp_fine_tune: i64,
    pub samp_number: i64,
    pub samp_bit_reduction: i64,
    pub samp_start: Num,
    pub samp_end: Num,
    pub samp_loop_flag: bool,
    pub samp_volume: i64,
    pub vel_mod_amts: Seq<i64>,
    pub at_mod_amts: Seq<i64>,
    pub env_reset_filter: bool,
    pub vel_to_vol: bool,
    pub legacy_fx_send: bool,
    pub machine_type: Seq<char>,
    pub lfo_destination: Seq<char>,
    pub vel_mod_targets: Seq<Seq<char>>,
    pub at_mod_targets: Seq<Seq<char>>,
    pub filter_type: Seq<char>,
    pub lfo_multiplier: Seq<char>,
    pub lfo_waveform: Seq<char>,
    pub lfo_mode: Seq<char>,
    pub chromatic_mode: Seq<char>,
}

impl View for Sound {
    type V = SoundView;

    open spec fn view(&self) -> SoundView {
        SoundView {
            name: self.name@,
            accent_level: self.accent_level,
            amp_attack: self.amp_attack,
            amp_hold: self.amp_hold,
            amp_decay: self.amp_decay,
            amp_overdrive: self.amp_overdrive,
            amp_delay_send: self.amp_delay_send,
            amp_reverb_send: self.amp_reverb_send,
            amp_pan: self.amp_pan,
            amp_volume: self.amp_volume,
            filt_attack: self.filt_attack,
            filt_hold: self.filt_hold,
            filt_decay: self.filt_decay,
            filt_release: self.filt_release,
            filt_cutoff: self.filt_cutoff,
            filt_resonance: self.filt_resonance,
            filt_env_amount: self.filt_env_amount,
            lfo_speed: self.lfo_speed,
            lfo_fade: self.lfo_fade,
            lfo_start_phase: self.lfo_start_phase,
            lfo_depth: self.lfo_depth,
            samp_tune: self.samp_tune,
            samp_fine_tune: self.samp_fine_tune,
            samp_number: self.samp_number,
            samp_bit_reduction: self.samp_bit_reduction,
            samp_start: self.samp_start,
            samp_end: self.samp_end,
            samp_loop_flag: self.samp_loop_flag,
            samp_volume: self.samp_volume,
            vel_mod_amts: self.vel_mod_amts@,
            at_mod_amts: self.at_mod_amts@,
            env_reset_filter: self.env_reset_filter,
            vel_to_vol: self.vel_to_vol,
            legacy_fx_send: self.legacy_fx_send,
            machine_type: self.machine_type@,
            lfo_destination: self.lfo_destination@,
            vel_mod_targets: self.vel_mod_targets.deep_view(),
            at_mod_targets: self.at_mod_targets.deep_view(),
            filter_type: self.filter_type@,
            lfo_multiplier: self.lfo_multiplier@,
            lfo_waveform: self.lfo_waveform@,
            lfo_mode: self.lfo_mode@,
            chromatic_mode: self.chromatic_mode@,
        }
    }
}

/// Well-formedness of a sound view: indices in range, vectors at their
/// fixed lengths, every enumerated field holding a variant of its domain.
pub open spec fn sound_view_wf(v: SoundView) -> bool {
    &&& valid_name(v.name)
    &&& v.vel_mod_amts.len() == 4
    &&& v.at_mod_amts.len() == 4
    &&& is_machine_type_variant(v.machine_type)
    &&& is_lfo_destination_variant(v.lfo_destination)
    &&& v.vel_mod_targets.len() == 4
    &&& (forall|i: int| 0 <= i < 4 ==> is_sound_mod_target_variant(#[trigger] v.vel_mod_targets[i]))
    &&& v.at_mod_targets.len() == 4
    &&& (forall|i: int| 0 <= i < 4 ==> is_sound_mod_target_variant(#[trigger] v.at_mod_targets[i]))
    &&& is_filter_type_variant(v.filter_type)
    &&& is_lfo_multiplier_variant(v.lfo_multiplier)
    &&& is_lfo_waveform_variant(v.lfo_waveform)
    &&& is_lfo_mode_variant(v.lfo_mode)
    &&& is_chromatic_mode_variant(v.chromatic_mode)
}

/// The fresh state of a sound.
pub open spec fn sound_default() -> SoundView {
    SoundView {
        name: Seq::empty(),
        accent_level: 0,
        amp_attack: 0,
        amp_hold: 0,
        amp_decay: 0,
        amp_overdrive: 0,
        amp_delay_send: 0,
        amp_reverb_send: 0,
        amp_pan: 0,
        amp_volume: 0,
        filt_attack: 0,
        filt_hold: 0,
        filt_decay: 0,
        filt_release: 0,
        filt_cutoff: 0,
        filt_resonance: 0,
        filt_env_amount: 0,
        lfo_speed: 0,
        lfo_fade: 0,
        lfo_start_phase: 0,
        lfo_depth: Num::Int(0),
        samp_tune: 0,
        samp_fine_tune: 0,
        samp_number: 0,
        samp_bit_reduction: 0,
        samp_start: Num::Int(0),
        samp_end: Num::Int(0),
        samp_loop_flag: false,
        samp_volume: 0,
        vel_mod_amts: Seq::new(4, |i: int| 0i64),
        at_mod_amts: Seq::new(4, |i: int| 0i64),
        env_reset_filter: false,
        vel_to_vol: false,
        legacy_fx_send: false,
        machine_type: "unset"@,
        lfo_destination: "unset"@,
        vel_mod_targets: Seq::new(4, |i: int| "unset"@),
        at_mod_targets: Seq::new(4, |i: int| "unset"@),
        filter_type: "lp2"@,
        lfo_multiplier: "x1"@,
        lfo_waveform: "tri"@,
        lfo_mode: "free"@,
        chromatic_mode: "off"@,
    }
}

/// How many slots the plain field has; 1 for an unslotted field.
pub open spec fn sound_field_slot_count(f: SoundField) -> int {
    match f {
        SoundField::Name => 1,
        SoundField::AccentLevel => 1,
        SoundField::AmpAttack => 1,
        SoundField::AmpHold => 1,
        SoundField::AmpDecay => 1,
        SoundField::AmpOverdrive => 1,
        SoundField::AmpDelaySend => 1,
        SoundField::AmpReverbSend => 1,
        SoundField::AmpPan => 1,
        SoundField::AmpVolume => 1,
        SoundField::FiltAttack => 1,
        SoundField::FiltHold => 1,
        SoundField::FiltDecay => 1,
        SoundField::FiltRelease => 1,
        SoundField::FiltCutoff => 1,
        SoundField::FiltResonance => 1,
        SoundField::FiltEnvAmount => 1,
        SoundField::LfoSpeed => 1,
        SoundField::LfoFade => 1,
        SoundField::LfoStartPhase => 1,
        SoundField::LfoDepth => 1,
        SoundField::SampTune => 1,
        SoundField::SampFineTune => 1,
        SoundField::SampNumber => 1,
        SoundField::SampBitReduction => 1,
        SoundField::SampStart => 1,
        SoundField::SampEnd => 1,
        SoundField::SampLoopFlag => 1,
        SoundField::SampVolume => 1,
        SoundField::VelModAmt => 4,
        SoundField::AtModAmt => 4,
        SoundField::EnvResetFilter => 1,
        SoundField::VelToVol => 1,
        SoundField::LegacyFxSend => 1,
    }
}

/// Executable slot count of a plain field.
pub fn sound_slot_count(f: SoundField) -> (r: usize)
    ensures
        r as int == sound_field_slot_count(f),
{
    match f {
        SoundField::Name => 1,
        SoundField::AccentLevel => 1,
        SoundField::AmpAttack => 1,
        SoundField::AmpHold => 1,
        SoundField::AmpDecay => 1,
        SoundField::AmpOverdrive => 1,
        SoundField::AmpDelaySend => 1,
        SoundField::AmpReverbSend => 1,
        SoundField::AmpPan => 1,
        SoundField::AmpVolume => 1,
        SoundField::FiltAttack => 1,
        SoundField::FiltHold => 1,
        SoundField::FiltDecay => 1,
        SoundField::FiltRelease => 1,
        SoundField::FiltCutoff => 1,
        SoundField::FiltResonance => 1,
        SoundField::FiltEnvAmount => 1,
        SoundField::LfoSpeed => 1,
        SoundField::LfoFade => 1,
        SoundField::LfoStartPhase => 1,
        SoundField::LfoDepth => 1,
        SoundField::SampTune => 1,
        SoundField::SampFineTune => 1,
        SoundField::SampNumber => 1,
        SoundField::SampBitReduction => 1,
        SoundField::SampStart => 1,
        SoundField::SampEnd => 1,
        SoundField::SampLoopFlag => 1,
        SoundField::SampVolume => 1,
        SoundField::VelModAmt => 4,
        SoundField::AtModAmt => 4,
        SoundField::EnvResetFilter => 1,
        SoundField::VelToVol => 1,
        SoundField::LegacyFxSend => 1,
    }
}

/// Whether a write to the field marks the slot given by its parameter.
pub open spec fn sound_field_is_mark(f: SoundField) -> bool {
    match f {
        SoundField::Name => false,
        SoundField::AccentLevel => false,
        SoundField::AmpAttack => false,
        SoundField::AmpHold => false,
        SoundField::AmpDecay => false,
        SoundField::AmpOverdrive => false,
        SoundField::AmpDelaySend => false,
        SoundField::AmpReverbSend => false,
        SoundField::AmpPan => false,
        SoundField::AmpVolume => false,
        SoundField::FiltAttack => false,
        SoundField::FiltHold => false,
        SoundField::FiltDecay => false,
        SoundField::FiltRelease => false,
        SoundField::FiltCutoff => false,
        SoundField::FiltResonance => false,
        SoundField::FiltEnvAmount => false,
        SoundField::LfoSpeed => false,
        SoundField::LfoFade => false,
        SoundField::LfoStartPhase => false,
        SoundField::LfoDepth => false,
        SoundField::SampTune => false,
        SoundField::SampFineTune => false,
        SoundField::SampNumber => false,
        SoundField::SampBitReduction => false,
        SoundField::SampStart => false,
        SoundField::SampEnd => false,
        SoundField::SampLoopFlag => false,
        SoundField::SampVolume => false,
        SoundField::VelModAmt => false,
        SoundField::AtModAmt => false,
        SoundField::EnvResetFilter => false,
        SoundField::VelToVol => false,
        SoundField::LegacyFxSend => false,
    }
}

/// Executable form of the marking check.
pub fn sound_is_mark(f: SoundField) -> (r: bool)
    ensures
        r == sound_field_is_mark(f),
{
    match f {
        SoundField::Name => false,
        SoundField::AccentLevel => false,
        SoundField::AmpAttack => false,
        SoundField::AmpHold => false,
        SoundField::AmpDecay => false,
        SoundField::AmpOverdrive => false,
        SoundField::AmpDelaySend => false,
        SoundField::AmpReverbSend => false,
        SoundField::AmpPan => false,
        SoundField::AmpVolume => false,
        SoundField::FiltAttack => false,
        SoundField::FiltHold => false,
        SoundField::FiltDecay => false,
        SoundField::FiltRelease => false,
        SoundField::FiltCutoff => false,
        SoundField::FiltResonance => false,
        SoundField::FiltEnvAmount => false,
        SoundField::LfoSpeed => false,
        SoundField::LfoFade => false,
        SoundField::LfoStartPhase => false,
        SoundField::LfoDepth => false,
        SoundField::SampTune => false,
        SoundField::SampFineTune => false,
        SoundField::SampNumber => false,
        SoundField::SampBitReduction => false,
        SoundField::SampStart => false,
        SoundField::SampEnd => false,
        SoundField::SampLoopFlag => false,
        SoundField::SampVolume => false,
        SoundField::VelModAmt => false,
        SoundField::AtModAmt => false,
        SoundField::EnvResetFilter => false,
        SoundField::VelToVol => false,
        SoundField::LegacyFxSend => false,
    }
}

/// Whether the plain field accepts a write; the rest are read-only.
pub open spec fn sound_field_settable(f: SoundField) -> bool {
    match f {
        SoundField::Name => true,
        SoundField::AccentLevel => true,
        SoundField::AmpAttack => true,
        SoundField::AmpHold => true,
        SoundField::AmpDecay => true,
        SoundField::AmpOverdrive => true,
        SoundField::AmpDelaySend => true,
        SoundField::AmpReverbSend => true,
        SoundField::AmpPan => true,
        SoundField::AmpVolume => true,
        SoundField::FiltAttack => true,
        SoundField::FiltHold => true,
        SoundField::FiltDecay => true,
        SoundField::FiltRelease => true,
        SoundField::FiltCutoff => true,
        SoundField::FiltResonance => true,
        SoundField::FiltEnvAmount => true,
        SoundField::LfoSpeed => true,
        SoundField::LfoFade => true,
        SoundField::LfoStartPhase => true,
        SoundField::LfoDepth => true,
        SoundField::SampTune => true,
        SoundField::SampFineTune => true,
        SoundField::SampNumber => true,
        SoundField::SampBitReduction => true,
        SoundField::SampStart => true,
        SoundField::SampEnd => true,
        SoundField::SampLoopFlag => true,
        SoundField::SampVolume => true,
        SoundField::VelModAmt => true,
        SoundField::AtModAmt => true,
        SoundField::EnvResetFilter => true,
        SoundField::VelToVol => true,
        SoundField::LegacyFxSend => true,
    }
}

/// The value the plain field reads back as, echoed as a token.
pub open spec fn sound_get_spec(v: SoundView, f: SoundField, slot: int) -> TokenV {
    match f {
        SoundField::Name => TokenV::Sym(v.name),
        SoundField::AccentLevel => TokenV::Int(v.accent_level),
        SoundField::AmpAttack => TokenV::Int(v.amp_attack),
        SoundField::AmpHold => TokenV::Int(v.amp_hold),
        SoundField::AmpDecay => TokenV::Int(v.amp_decay),
        SoundField::AmpOverdrive => TokenV::Int(v.amp_overdrive),
        SoundField::AmpDelaySend => TokenV::Int(v.amp_delay_send),
        SoundField::AmpReverbSend => TokenV::Int(v.amp_reverb_send),
        SoundField::AmpPan => TokenV::Int(v.amp_pan),
        SoundField::AmpVolume => TokenV::Int(v.amp_volume),
        SoundField::FiltAttack => TokenV::Int(v.filt_attack),
        SoundField::FiltHold => TokenV::Int(v.filt_hold),
        SoundField::FiltDecay => TokenV::Int(v.filt_decay),
        SoundField::FiltRelease => TokenV::Int(v.filt_release),
        SoundField::FiltCutoff => TokenV::Int(v.filt_cutoff),
        SoundField::FiltResonance => TokenV::Int(v.filt_resonance),
        SoundField::FiltEnvAmount => TokenV::Int(v.filt_env_amount),
        SoundField::LfoSpeed => TokenV::Int(v.lfo_speed),
        SoundField::LfoFade => TokenV::Int(v.lfo_fade),
        SoundField::LfoStartPhase => TokenV::Int(v.lfo_start_phase),
        SoundField::LfoDepth => num_token(v.lfo_depth),
        SoundField::SampTune => TokenV::Int(v.samp_tune),
        SoundField::SampFineTune => TokenV::Int(v.samp_fine_tune),
        SoundField::SampNumber => TokenV::Int(v.samp_number),
        SoundField::SampBitReduction => TokenV::Int(v.samp_bit_reduction),
        SoundField::SampStart => num_token(v.samp_start),
        SoundField::SampEnd => num_token(v.samp_end),
        SoundField::SampLoopFlag => bool01_token(v.samp_loop_flag),
        SoundField::SampVolume => TokenV::Int(v.samp_volume),
        SoundField::VelModAmt => TokenV::Int(v.vel_mod_amts[slot]),
        SoundField::AtModAmt => TokenV::Int(v.at_mod_amts[slot]),
        SoundField::EnvResetFilter => bool01_token(v.env_reset_filter),
        SoundField::VelToVol => bool01_token(v.vel_to_vol),
        SoundField::LegacyFxSend => bool01_token(v.legacy_fx_send),
    }
}

/// The state a write to the plain field produces, if its parameter
/// token coerces; read-only fields and failed coercions produce nothing.
pub open spec fn sound_set_spec(v: SoundView, f: SoundField, slot: int, t: TokenV) -> Option<SoundView> {
    match f {
        SoundField::Name => match t {
            TokenV::Sym(s) => if valid_name(s) {
                Some(SoundView { name: s, ..v })
            } else {
                None
            },
            _ => None,
        },
        SoundField::AccentLevel => match token_int(t) {
            Some(i) => Some(SoundView { accent_level: i, ..v }),
            None => None,
        },
        SoundField::AmpAttack => match token_int(t) {
            Some(i) => Some(SoundView { amp_attack: i, ..v }),
            None => None,
        },
        SoundField::AmpHold => match token_int(t) {
            Some(i) => Some(SoundView { amp_hold: i, ..v }),
            None => None,
        },
        SoundField::AmpDecay => match token_int(t) {
            Some(i) => Some(SoundView { amp_decay: i, ..v }),
            None => None,
        },
        SoundField::AmpOverdrive => match token_int(t) {
            Some(i) => Some(SoundView { amp_overdrive: i, ..v }),
            None => None,
        },
        SoundField::AmpDelaySend => match token_int(t) {
            Some(i) => Some(SoundView { amp_delay_send: i, ..v }),
            None => None,
        },
        SoundField::AmpReverbSend => match token_int(t) {
            Some(i) => Some(SoundView { amp_reverb_send: i, ..v }),
            None => None,
        },
        SoundField::AmpPan => match token_int(t) {
            Some(i) => Some(SoundView { amp_pan: i, ..v }),
            None => None,
        },
        SoundField::AmpVolume => match token_int(t) {
            Some(i) => Some(SoundView { amp_volume: i, ..v }),
            None => None,
        },
        SoundField::FiltAttack => match token_int(t) {
            Some(i) => Some(SoundView { filt_attack: i, ..v }),
            None => None,
        },
        SoundField::FiltHold => match token_int(t) {
            Some(i) => Some(SoundView { filt_hold: i, ..v }),
            None => None,
        },
        SoundField::FiltDecay => match token_int(t) {
            Some(i) => Some(SoundView { filt_decay: i, ..v }),
            None => None,
        },
        SoundField::FiltRelease => match token_int(t) {
            Some(i) => Some(SoundView { filt_release: i, ..v }),
            None => None,
        },
        SoundField::FiltCutoff => match token_int(t) {
            Some(i) => Some(SoundView { filt_cutoff: i, ..v }),
            None => None,
        },
        SoundField::FiltResonance => match token_int(t) {
            Some(i) => Some(SoundView { filt_resonance: i, ..v }),
            None => None,
        },
        SoundField::FiltEnvAmount => match token_int(t) {
            Some(i) => Some(SoundView { filt_env_amount: i, ..v }),
            None => None,
        },
        SoundField::LfoSpeed => match token_int(t) {
            Some(i) => Some(SoundView { lfo_speed: i, ..v }),
            None => None,
        },
        SoundField::LfoFade => match token_int(t) {
            Some(i) => Some(SoundView { lfo_fade: i, ..v }),
            None => None,
        },
        SoundField::LfoStartPhase => match token_int(t) {
            Some(i) => Some(SoundView { lfo_start_phase: i, ..v }),
            None => None,
        },
        SoundField::LfoDepth => match token_num(t) {
            Some(n) => Some(SoundView { lfo_depth: n, ..v }),
            None => None,
        },
        SoundField::SampTune => match token_int(t) {
            Some(i) => Some(SoundView { samp_tune: i, ..v }),
            None => None,
        },
        SoundField::SampFineTune => match token_int(t) {
            Some(i) => Some(SoundView { samp_fine_tune: i, ..v }),
            None => None,
        },
        SoundField::SampNumber => match token_int(t) {
            Some(i) => Some(SoundView { samp_number: i, ..v }),
            None => None,
        },
        SoundField::SampBitReduction => match token_int(t) {
            Some(i) => Some(SoundView { samp_bit_reduction: i, ..v }),
            None => None,
        },
        SoundField::SampStart => match token_num(t) {
            Some(n) => Some(SoundView { samp_start: n, ..v }),
            None => None,
        },
        SoundField::SampEnd => match token_num(t) {
            Some(n) => Some(SoundView { samp_end: n, ..v }),
            None => None,
        },
        SoundField::SampLoopFlag => match token_bool01(t) {
            Some(b) => Some(SoundView { samp_loop_flag: b, ..v }),
            None => None,
        },
        SoundField::SampVolume => match token_int(t) {
            Some(i) => Some(SoundView { samp_volume: i, ..v }),
            None => None,
        },
        SoundField::VelModAmt => match token_int(t) {
            Some(i) => Some(SoundView { vel_mod_amts: v.vel_mod_amts.update(slot, i), ..v }),
            None => None,
        },
        SoundField::AtModAmt => match token_int(t) {
            Some(i) => Some(SoundView { at_mod_amts: v.at_mod_amts.update(slot, i), ..v }),
            None => None,
        },
        SoundField::EnvResetFilter => match token_bool01(t) {
            Some(b) => Some(SoundView { env_reset_filter: b, ..v }),
            None => None,
        },
        SoundField::VelToVol => match token_bool01(t) {
            Some(b) => Some(SoundView { vel_to_vol: b, ..v }),
            None => None,
        },
        SoundField::LegacyFxSend => match token_bool01(t) {
            Some(b) => Some(SoundView { legacy_fx_send: b, ..v }),
            None => None,
        },
    }
}

/// How many slots the enumerated type has; 1 for an unslotted type.
pub open spec fn sound_enum_slot_count(t: SoundEnumType) -> int {
    match t {
        SoundEnumType::MachineType => 1,
        SoundEnumType::LfoDestination => 1,
        SoundEnumType::VelModTarget => 4,
        SoundEnumType::AtModTarget => 4,
        SoundEnumType::FilterType => 1,
        SoundEnumType::LfoMultiplier => 1,
        SoundEnumType::LfoWaveform => 1,
        SoundEnumType::LfoMode => 1,
        SoundEnumType::ChromaticMode => 1,
    }
}

/// Executable slot count of an enumerated type.
pub fn sound_enum_slots(t: SoundEnumType) -> (r: usize)
    ensures
        r as int == sound_enum_slot_count(t),
{
    match t {
        SoundEnumType::MachineType => 1,
        SoundEnumType::LfoDestination => 1,
        SoundEnumType::VelModTarget => 4,
        SoundEnumType::AtModTarget => 4,
        SoundEnumType::FilterType => 1,
        SoundEnumType::LfoMultiplier => 1,
        SoundEnumType::LfoWaveform => 1,
        SoundEnumType::LfoMode => 1,
        SoundEnumType::ChromaticMode => 1,
    }
}

/// The stored variant of the enumerated type.
pub open spec fn sound_enum_value(v: SoundView, t: SoundEnumType, slot: int) -> Seq<char> {
    match t {
        SoundEnumType::MachineType => v.machine_type,
        SoundEnumType::LfoDestination => v.lfo_destination,
        SoundEnumType::VelModTarget => v.vel_mod_targets[slot],
        SoundEnumType::AtModTarget => v.at_mod_targets[slot],
        SoundEnumType::FilterType => v.filter_type,
        SoundEnumType::LfoMultiplier => v.lfo_multiplier,
        SoundEnumType::LfoWaveform => v.lfo_waveform,
        SoundEnumType::LfoMode => v.lfo_mode,
        SoundEnumType::ChromaticMode => v.chromatic_mode,
    }
}

/// Whether the symbol is a variant of the enumerated type's domain.
pub open spec fn sound_enum_variant_ok(t: SoundEnumType, s: Seq<char>) -> bool {
    match t {
        SoundEnumType::MachineType => is_machine_type_variant(s),
        SoundEnumType::LfoDestination => is_lfo_destination_variant(s),
        SoundEnumType::VelModTarget => is_sound_mod_target_variant(s),
        SoundEnumType::AtModTarget => is_sound_mod_target_variant(s),
        SoundEnumType::FilterType => is_filter_type_variant(s),
        SoundEnumType::LfoMultiplier => is_lfo_multiplier_variant(s),
        SoundEnumType::LfoWaveform => is_lfo_waveform_variant(s),
        SoundEnumType::LfoMode => is_lfo_mode_variant(s),
        SoundEnumType::ChromaticMode => is_chromatic_mode_variant(s),
    }
}

/// The state a write to the enumerated type produces, if the variant
/// belongs to its domain.
pub open spec fn sound_set_enum_spec(v: SoundView, t: SoundEnumType, slot: int, s: Seq<char>) -> Option<
    SoundView,
> {
    if sound_enum_variant_ok(t, s) {
        Some(
            match t {
                SoundEnumType::MachineType => SoundView { machine_type: s, ..v },
                SoundEnumType::LfoDestination => SoundView { lfo_destination: s, ..v },
                SoundEnumType::VelModTarget => SoundView { vel_mod_targets: v.vel_mod_targets.update(slot, s), ..v },
                SoundEnumType::AtModTarget => SoundView { at_mod_targets: v.at_mod_targets.update(slot, s), ..v },
                SoundEnumType::FilterType => SoundView { filter_type: s, ..v },
                SoundEnumType::LfoMultiplier => SoundView { lfo_multiplier: s, ..v },
                SoundEnumType::LfoWaveform => SoundView { lfo_waveform: s, ..v },
                SoundEnumType::LfoMode => SoundView { lfo_mode: s, ..v },
                SoundEnumType::ChromaticMode => SoundView { chromatic_mode: s, ..v },
            },
        )
    } else {
        None
    }
}

impl Sound {
    /// Well-formedness of the object and everything it owns.
    pub open spec fn wf(&self) -> bool {
        &&& sound_view_wf(self@)
    }

    /// A fresh sound.
    #[verifier::rlimit(100)]
    pub fn new() -> (r: Sound)
        ensures
            r.wf(),
            r@ =~~= sound_default(),
    {
        proof {
            reveal_strlit("");
            reveal(is_machine_type_variant);
            reveal(is_lfo_destination_variant);
            reveal(is_sound_mod_target_variant);
            reveal(is_filter_type_variant);
            reveal(is_lfo_multiplier_variant);
            reveal(is_lfo_waveform_variant);
            reveal(is_lfo_mode_variant);
            reveal(is_chromatic_mode_variant);
        }
        Sound {
            name: "".to_owned(),
            accent_level: 0,
            amp_attack: 0,
            amp_hold: 0,
            amp_decay: 0,
            amp_overdrive: 0,
            amp_delay_send: 0,
            amp_reverb_send: 0,
            amp_pan: 0,
            amp_volume: 0,
            filt_attack: 0,
            filt_hold: 0,
            filt_decay: 0,
            filt_release: 0,
            filt_cutoff: 0,
            filt_resonance: 0,
            filt_env_amount: 0,
            lfo_speed: 0,
            lfo_fade: 0,
            lfo_start_phase: 0,
            lfo_depth: Num::Int(0),
            samp_tune: 0,
            samp_fine_tune: 0,
            samp_number: 0,
            samp_bit_reduction: 0,
            samp_start: Num::Int(0),
            samp_end: Num::Int(0),
            samp_loop_flag: false,
            samp_volume: 0,
            vel_mod_amts: crate::seed::filled_i64(4),
            at_mod_amts: crate::seed::filled_i64(4),
            env_reset_filter: false,
            vel_to_vol: false,
            legacy_fx_send: false,
            machine_type: "unset".to_owned(),
            lfo_destination: "unset".to_owned(),
            vel_mod_targets: crate::seed::filled_strings(4, "unset"),
            at_mod_targets: crate::seed::filled_strings(4, "unset"),
            filter_type: "lp2".to_owned(),
            lfo_multiplier: "x1".to_owned(),
            lfo_waveform: "tri".to_owned(),
            lfo_mode: "free".to_owned(),
            chromatic_mode: "off".to_owned(),
        }
    }

    /// Reads the plain field, echoing its value as a token.
    #[verifier::rlimit(100)]
    pub fn get_field(&self, f: SoundField, slot: usize) -> (r: Token)
        requires
            self.wf(),
            0 <= slot < sound_field_slot_count(f),
        ensures
            r@ == sound_get_spec(self@, f, slot as int),
    {
        match f {
            SoundField::Name => Token::Sym(self.name.clone()),
            SoundField::AccentLevel => Token::Int(self.accent_level),
            SoundField::AmpAttack => Token::Int(self.amp_attack),
            SoundField::AmpHold => Token::Int(self.amp_hold),
            SoundField::AmpDecay => Token::Int(self.amp_decay),
            SoundField::AmpOverdrive => Token::Int(self.amp_overdrive),
            SoundField::AmpDelaySend => Token::Int(self.amp_delay_send),
            SoundField::AmpReverbSend => Token::Int(self.amp_reverb_send),
            SoundField::AmpPan => Token::Int(self.amp_pan),
            SoundField::AmpVolume => Token::Int(self.amp_volume),
            SoundField::FiltAttack => Token::Int(self.filt_attack),
            SoundField::FiltHold => Token::Int(self.filt_hold),
            SoundField::FiltDecay => Token::Int(self.filt_decay),
            SoundField::FiltRelease => Token::Int(self.filt_release),
            SoundField::FiltCutoff => Token::Int(self.filt_cutoff),
            SoundField::FiltResonance => Token::Int(self.filt_resonance),
            SoundField::FiltEnvAmount => Token::Int(self.filt_env_amount),
            SoundField::LfoSpeed => Token::Int(self.lfo_speed),
            SoundField::LfoFade => Token::Int(self.lfo_fade),
            SoundField::LfoStartPhase => Token::Int(self.lfo_start_phase),
            SoundField::LfoDepth => num_to_token(self.lfo_depth),
            SoundField::SampTune => Token::Int(self.samp_tune),
            SoundField::SampFineTune => Token::Int(self.samp_fine_tune),
            SoundField::SampNumber => Token::Int(self.samp_number),
            SoundField::SampBitReduction => Token::Int(self.samp_bit_reduction),
            SoundField::SampStart => num_to_token(self.samp_start),
            SoundField::SampEnd => num_to_token(self.samp_end),
            SoundField::SampLoopFlag => bool01_to_token(self.samp_loop_flag),
            SoundField::SampVolume => Token::Int(self.samp_volume),
            SoundField::VelModAmt => Token::Int(self.vel_mod_amts[slot]),
            SoundField::AtModAmt => Token::Int(self.at_mod_amts[slot]),
            SoundField::EnvResetFilter => bool01_to_token(self.env_reset_filter),
            SoundField::VelToVol => bool01_to_token(self.vel_to_vol),
            SoundField::LegacyFxSend => bool01_to_token(self.legacy_fx_send),
        }
    }

    /// Writes the plain field from a parameter token, coercing per the
    /// field's kind; returns whether the write applied.
    #[verifier::rlimit(100)]
    pub fn set_field(&mut self, f: SoundField, slot: usize, t: &Token) -> (r: bool)
        requires
            old(self).wf(),
            0 <= slot < sound_field_slot_count(f),
        ensures
            final(self).wf(),
            match sound_set_spec(old(self)@, f, slot as int, t@) {
                Some(v2) => r == true && final(self)@ =~~= v2,
                None => r == false && final(self)@ =~~= old(self)@,
            },
    {
        match f {
            SoundField::Name => match t {
                Token::Sym(s) => {
                    if crate::strutil::check_name(s) {
                        self.name = s.clone();
                        true
                    } else {
                        false
                    }
                },
                _ => false,
            },
            SoundField::AccentLevel => match coerce_int(t) {
                Some(i) => {
                    self.accent_level = i;
                    true
                },
                None => false,
            },
            SoundField::AmpAttack => match coerce_int(t) {
                Some(i) => {
                    self.amp_attack = i;
                    true
                },
                None => false,
            },
            SoundField::AmpHold => match coerce_int(t) {
                Some(i) => {
                    self.amp_hold = i;
                    true
                },
                None => false,
            },
            SoundField::AmpDecay => match coerce_int(t) {
                Some(i) => {
                    self.amp_decay = i;
                    true
                },
                None => false,
            },
            SoundField::AmpOverdrive => match coerce_int(t) {
                Some(i) => {
                    self.amp_overdrive = i;
                    true
                },
                None => false,
            },
            SoundField::AmpDelaySend => match coerce_int(t) {
                Some(i) => {
                    self.amp_delay_send = i;
                    true
                },
                None => false,
            },
            SoundField::AmpReverbSend => match coerce_int(t) {
                Some(i) => {
                    self.amp_reverb_send = i;
                    true
                },
                None => false,
            },
            SoundField::AmpPan => match coerce_int(t) {
                Some(i) => {
                    self.amp_pan = i;
                    true
                },
                None => false,
            },
            SoundField::AmpVolume => match coerce_int(t) {
                Some(i) => {
                    self.amp_volume = i;
                    true
                },
                None => false,
            },
            SoundField::FiltAttack => match coerce_int(t) {
                Some(i) => {
                    self.filt_attack = i;
                    true
                },
                None => false,
            },
            SoundField::FiltHold => match coerce_int(t) {
                Some(i) => {
                    self.filt_hold = i;
                    true
                },
                None => false,
            },
            SoundField::FiltDecay => match coerce_int(t) {
                Some(i) => {
                    self.filt_decay = i;
                    true
                },
                None => false,
            },
            SoundField::FiltRelease => match coerce_int(t) {
                Some(i) => {
                    self.filt_release = i;
                    true
                },
                None => false,
            },
            SoundField::FiltCutoff => match coerce_int(t) {
                Some(i) => {
                    self.filt_cutoff = i;
                    true
                },
                None => false,
            },
            SoundField::FiltResonance => match coerce_int(t) {
                Some(i) => {
                    self.filt_resonance = i;
                    true
                },
                None => false,
            },
            SoundField::FiltEnvAmount => match coerce_int(t) {
                Some(i) => {
                    self.filt_env_amount = i;
                    true
                },
                None => false,
            },
            SoundField::LfoSpeed => match coerce_int(t) {
                Some(i) => {
                    self.lfo_speed = i;
                    true
                },
                None => false,
            },
            SoundField::LfoFade => match coerce_int(t) {
                Some(i) => {
                    self.lfo_fade = i;
                    true
                },
                None => false,
            },
            SoundField::LfoStartPhase => match coerce_int(t) {
                Some(i) => {
                    self.lfo_start_phase = i;
                    true
                },
                None => false,
            },
            SoundField::LfoDepth => match coerce_num(t) {
                Some(n) => {
                    self.lfo_depth = n;
                    true
                },
                None => false,
            },
            SoundField::SampTune => match coerce_int(t) {
                Some(i) => {
                    self.samp_tune = i;
                    true
                },
                None => false,
            },
            SoundField::SampFineTune => match coerce_int(t) {
                Some(i) => {
                    self.samp_fine_tune = i;
                    true
                },
                None => false,
            },
            SoundField::SampNumber => match coerce_int(t) {
                Some(i) => {
                    self.samp_number = i;
                    true
                },
                None => false,
            },
            SoundField::SampBitReduction => match coerce_int(t) {
                Some(i) => {
                    self.samp_bit_reduction = i;
                    true
                },
                None => false,
            },
            SoundField::SampStart => match coerce_num(t) {
                Some(n) => {
                    self.samp_start = n;
                    true
                },
                None => false,
            },
            SoundField::SampEnd => match coerce_num(t) {
                Some(n) => {
                    self.samp_end = n;
                    true
                },
                None => false,
            },
            SoundField::SampLoopFlag => match coerce_bool01(t) {
                Some(b) => {
                    self.samp_loop_flag = b;
                    true
                },
                None => false,
            },
            SoundField::SampVolume => match coerce_int(t) {
                Some(i) => {
                    self.samp_volume = i;
                    true
                },
                None => false,
            },
            SoundField::VelModAmt => match coerce_int(t) {
                Some(i) => {
                    self.vel_mod_amts.set(slot, i);
                    true
                },
                None => false,
            },
            SoundField::AtModAmt => match coerce_int(t) {
                Some(i) => {
                    self.at_mod_amts.set(slot, i);
                    true
                },
                None => false,
            },
            SoundField::EnvResetFilter => match coerce_bool01(t) {
                Some(b) => {
                    self.env_reset_filter = b;
                    true
                },
                None => false,
            },
            SoundField::VelToVol => match coerce_bool01(t) {
                Some(b) => {
                    self.vel_to_vol = b;
                    true
                },
                None => false,
            },
            SoundField::LegacyFxSend => match coerce_bool01(t) {
                Some(b) => {
                    self.legacy_fx_send = b;
                    true
                },
                None => false,
            },
        }
    }

    /// Reads the stored variant of the enumerated type.
    pub fn get_enum(&self, t: SoundEnumType, slot: usize) -> (r: String)
        requires
            self.wf(),
            0 <= slot < sound_enum_slot_count(t),
        ensures
            r@ == sound_enum_value(self@, t, slot as int),
            sound_enum_variant_ok(t, r@),
    {
        match t {
            SoundEnumType::MachineType => self.machine_type.clone(),
            SoundEnumType::LfoDestination => self.lfo_destination.clone(),
            SoundEnumType::VelModTarget => self.vel_mod_targets[slot].clone(),
            SoundEnumType::AtModTarget => self.at_mod_targets[slot].clone(),
            SoundEnumType::FilterType => self.filter_type.clone(),
            SoundEnumType::LfoMultiplier => self.lfo_multiplier.clone(),
            SoundEnumType::LfoWaveform => self.lfo_waveform.clone(),
            SoundEnumType::LfoMode => self.lfo_mode.clone(),
            SoundEnumType::ChromaticMode => self.chromatic_mode.clone(),
        }
    }

    /// Writes the enumerated type from a variant symbol, validating it
    /// against the type's domain; returns whether the write applied.
    #[verifier::rlimit(100)]
    pub fn set_enum(&mut self, t: SoundEnumType, slot: usize, s: &String) -> (r: bool)
        requires
            old(self).wf(),
            0 <= slot < sound_enum_slot_count(t),
        ensures
            final(self).wf(),
            match sound_set_enum_spec(old(self)@, t, slot as int, s@) {
                Some(v2) => r == true && final(self)@ =~~= v2,
                None => r == false && final(self)@ =~~= old(self)@,
            },
    {
        match t {
            SoundEnumType::MachineType => {
                if check_machine_type_variant(s) {
                    self.machine_type = s.clone();
                    true
                } else {
                    false
                }
            },
            SoundEnumType::LfoDestination => {
                if check_lfo_destination_variant(s) {
                    self.lfo_destination = s.clone();
                    true
                } else {
                    false
                }
            },
            SoundEnumType::VelModTarget => {
                if check_sound_mod_target_variant(s) {
                    self.vel_mod_targets.set(slot, s.clone());
                    proof {
                        assert(self.vel_mod_targets.deep_view() =~~= old(self).vel_mod_targets.deep_view().update(
                            slot as int,
                            s@,
                        )) by {
                            assert forall|i: int|
                                0 <= i < self.vel_mod_targets@.len() && i != slot implies #[trigger] self.vel_mod_targets.deep_view()[i] == old(
                                self,
                            ).vel_mod_targets.deep_view()[i] by {
                                assert(self.vel_mod_targets@[i] == old(self).vel_mod_targets@[i]);
                            }
                        }
                    }
                    true
                } else {
                    false
                }
            },
            SoundEnumType::AtModTarget => {
                if check_sound_mod_target_variant(s) {
                    self.at_mod_targets.set(slot, s.clone());
                    proof {
                        assert(self.at_mod_targets.deep_view() =~~= old(self).at_mod_targets.deep_view().update(
                            slot as int,
                            s@,
                        )) by {
                            assert forall|i: int|
                                0 <= i < self.at_mod_targets@.len() && i != slot implies #[trigger] self.at_mod_targets.deep_view()[i] == old(
                                self,
                            ).at_mod_targets.deep_view()[i] by {
                                assert(self.at_mod_targets@[i] == old(self).at_mod_targets@[i]);
                            }
                        }
                    }
                    true
                } else {
                    false
                }
            },
            SoundEnumType::FilterType => {
                if check_filter_type_variant(s) {
                    self.filter_type = s.clone();
                    true
                } else {
                    false
                }
            },
            SoundEnumType::LfoMultiplier => {
                if check_lfo_multiplier_variant(s) {
                    self.lfo_multiplier = s.clone();
                    true
                } else {
                    false
                }
            },
            SoundEnumType::LfoWaveform => {
                if check_lfo_waveform_variant(s) {
                    self.lfo_waveform = s.clone();
                    true
                } else {
                    false
                }
            },
            SoundEnumType::LfoMode => {
                if check_lfo_mode_variant(s) {
                    self.lfo_mode = s.clone();
                    true
                } else {
                    false
                }
            },
            SoundEnumType::ChromaticMode => {
                if check_chromatic_mode_variant(s) {
                    self.chromatic_mode = s.clone();
                    true
                } else {
                    false
                }
            },
        }
    }

}

/// Read-after-write: a plain-field write that applies is read back exactly,
/// for every state, field, slot and parameter; slot-marking fields are the
/// one exception, for they take no value.
#[verifier::rlimit(100)]
pub proof fn lemma_sound_set_get(v: SoundView, f: SoundField, slot: int, t: TokenV)
    requires
        sound_view_wf(v),
        0 <= slot < sound_field_slot_count(f),
        !sound_field_is_mark(f),
        sound_set_spec(v, f, slot, t) is Some,
    ensures
        sound_get_spec(sound_set_spec(v, f, slot, t)->Some_0, f, slot) == t,
{
}

/// Read-after-write for enumerated identifiers: a variant write that
/// applies is read back exactly, for every state, type, slot and variant.
pub proof fn lemma_sound_enum_set_get(v: SoundView, t: SoundEnumType, slot: int, s: Seq<char>)
    requires
        sound_view_wf(v),
        0 <= slot < sound_enum_slot_count(t),
        sound_set_enum_spec(v, t, slot, s) is Some,
    ensures
        sound_enum_value(sound_set_enum_spec(v, t, slot, s)->Some_0, t, slot) == s,
{
}

impl DeepView for Sound {
    type V = SoundView;

    open spec fn deep_view(&self) -> SoundView {
        self.view()
    }
}

} // verus!
