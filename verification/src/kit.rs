//! A kit: its FX pages, the per-track kit elements, and its 12 sounds.

use vstd::prelude::*;
#[allow(unused_imports)]
use vstd::pervasive::VecAdditionalExecFns;
use crate::fields::{KitField, KitEnumType, KitElement};
#[allow(unused_imports)]
use crate::token::{bool01_to_token, bool01_token, coerce_bool01, coerce_int, coerce_num, num_to_token, num_token, token_bool01, token_int, token_num, Num, Token, TokenV};
#[allow(unused_imports)]
use crate::strutil::valid_name;
use crate::variants_fx::{check_control_in_mod_target_variant, check_fx_comp_attack_variant, check_fx_comp_ratio_variant, check_fx_comp_release_variant, check_fx_comp_side_chain_eq_variant, check_fx_delay_time_on_the_grid_variant, check_fx_lfo_destination_variant, is_control_in_mod_target_variant, is_fx_comp_attack_variant, is_fx_comp_ratio_variant, is_fx_comp_release_variant, is_fx_comp_side_chain_eq_variant, is_fx_delay_time_on_the_grid_variant, is_fx_lfo_destination_variant};
use crate::variants_seq::{check_length_variant, check_retrig_rate_variant, is_length_variant, is_retrig_rate_variant};
use crate::sound::{Sound, SoundView};

verus! {

/// The kit model object.
pub struct Kit {
    pub version: i64,
    pub index: u8,
    pub name: String,
    pub fx_delay_time: i64,
    pub fx_delay_ping_pong: bool,
    pub fx_delay_stereo_width: i64,
    pub fx_delay_feedback: i64,
    pub fx_delay_hpf: i64,
    pub fx_delay_lpf: i64,
    pub fx_delay_reverb_send: i64,
    pub fx_delay_volume: i64,
    pub fx_reverb_pre_delay: i64,
    pub fx_reverb_decay: i64,
    pub fx_reverb_freq: i64,
    pub fx_reverb_gain: i64,
    pub fx_reverb_hpf: i64,
    pub fx_reverb_lpf: i64,
    pub fx_reverb_volume: i64,
    pub fx_comp_threshold: i64,
    pub fx_comp_gain: i64,
    pub fx_comp_mix: i64,
    pub fx_comp_volume: i64,
    pub fx_lfo_speed: i64,
    pub fx_lfo_fade: i64,
    pub fx_lfo_start_phase: i64,
    pub fx_lfo_depth: Num,
    pub control_in_mod_targets: Vec<String>,
    pub fx_lfo_destination: String,
    pub fx_delay_time_on_the_grid: String,
    pub fx_comp_attack: String,
    pub fx_comp_release: String,
    pub fx_comp_ratio: String,
    pub fx_comp_side_chain_eq: String,
    pub track_levels: Vec<i64>,
    pub track_retrig_rates: Vec<String>,
    pub track_retrig_lengths: Vec<String>,
    pub track_retrig_vel_offsets: Vec<i64>,
    pub track_retrig_always_on: Vec<bool>,
    pub sounds: Vec<Sound>,
}

/// The mathematical view of a kit.
#[verifier::ext_equal]
pub ghost struct KitView {
    pub version: i64,
    pub index: u8,
    pub name: Seq<char>,
    pub fx_delay_time: i64,
    pub fx_delay_ping_pong: bool,
    pub fx_delay_stereo_width: i64,
    pub fx_delay_feedback: i64,
    pub fx_delay_hpf: i64,
    pub fx_delay_lpf: i64,
    pub fx_delay_reverb_send: i64,
    pub fx_delay_volume: i64,
    pub fx_reverb_pre_delay: i64,
    pub fx_reverb_decay: i64,
    pub fx_reverb_freq: i64,
    pub fx_reverb_gain: i64,
    pub fx_reverb_hpf: i64,
    pub fx_reverb_lpf: i64,
    pub fx_reverb_volume: i64,
    pub fx_comp_threshold: i64,
    pub fx_comp_gain: i64,
    pub fx_comp_mix: i64,
    pub fx_comp_volume: i64,
    pub fx_lfo_speed: i64,
    pub fx_lfo_fade: i64,
    pub fx_lfo_start_phase: i64,
    pub fx_lfo_depth: Num,
    pub control_in_mod_targets: Seq<Seq<char>>,
    pub fx_lfo_destination: Seq<char>,
    pub fx_delay_time_on_the_grid: Seq<char>,
    pub fx_comp_attack: Seq<char>,
    pub fx_comp_release: Seq<char>,
    pub fx_comp_ratio: Seq<char>,
    pub fx_comp_side_chain_eq: Seq<char>,
    pub track_levels: Seq<i64>,
    pub track_retrig_rates: Seq<Seq<char>>,
    pub track_retrig_lengths: Seq<Seq<char>>,
    pub track_retrig_vel_offsets: Seq<i64>,
    pub track_retrig_always_on: Seq<bool>,
    pub sounds: Seq<SoundView>,
}

impl View for Kit {
    type V = KitView;

    open spec fn view(&self) -> KitView {
        KitView {
            version: self.version,
            index: self.index,
            name: self.name@,
            fx_delay_time: self.fx_delay_time,
            fx_delay_ping_pong: self.fx_delay_ping_pong,
            fx_delay_stereo_width: self.fx_delay_stereo_width,
            fx_delay_feedback: self.fx_delay_feedback,
            fx_delay_hpf: self.fx_delay_hpf,
            fx_delay_lpf: self.fx_delay_lpf,
            fx_delay_reverb_send: self.fx_delay_reverb_send,
            fx_delay_volume: self.fx_delay_volume,
            fx_reverb_pre_delay: self.fx_reverb_pre_delay,
            fx_reverb_decay: self.fx_reverb_decay,
            fx_reverb_freq: self.fx_reverb_freq,
            fx_reverb_gain: self.fx_reverb_gain,
            fx_reverb_hpf: self.fx_reverb_hpf,
            fx_reverb_lpf: self.fx_reverb_lpf,
            fx_reverb_volume: self.fx_reverb_volume,
            fx_comp_threshold: self.fx_comp_threshold,
            fx_comp_gain: self.fx_comp_gain,
            fx_comp_mix: self.fx_comp_mix,
            fx_comp_volume: self.fx_comp_volume,
            fx_lfo_speed: self.fx_lfo_speed,
            fx_lfo_fade: self.fx_lfo_fade,
            fx_lfo_start_phase: self.fx_lfo_start_phase,
            fx_lfo_depth: self.fx_lfo_depth,
            control_in_mod_targets: self.control_in_mod_targets.deep_view(),
            fx_lfo_destination: self.fx_lfo_destination@,
            fx_delay_time_on_the_grid: self.fx_delay_time_on_the_grid@,
            fx_comp_attack: self.fx_comp_attack@,
            fx_comp_release: self.fx_comp_release@,
            fx_comp_ratio: self.fx_comp_ratio@,
            fx_comp_side_chain_eq: self.fx_comp_side_chain_eq@,
            track_levels: self.track_levels@,
            track_retrig_rates: self.track_retrig_rates.deep_view(),
            track_retrig_lengths: self.track_retrig_lengths.deep_view(),
            track_retrig_vel_offsets: self.track_retrig_vel_offsets@,
            track_retrig_always_on: self.track_retrig_always_on@,
            sounds: self.sounds.deep_view(),
        }
    }
}

/// Well-formedness of a kit view: indices in range, vectors at their
/// fixed lengths, every enumerated field holding a variant of its domain.
pub open spec fn kit_view_wf(v: KitView) -> bool {
    &&& valid_name(v.name)
    &&& v.control_in_mod_targets.len() == 4
    &&& (forall|i: int| 0 <= i < 4 ==> is_control_in_mod_target_variant(#[trigger] v.control_in_mod_targets[i]))
    &&& is_fx_lfo_destination_variant(v.fx_lfo_destination)
    &&& is_fx_delay_time_on_the_grid_variant(v.fx_delay_time_on_the_grid)
    &&& is_fx_comp_attack_variant(v.fx_comp_attack)
    &&& is_fx_comp_release_variant(v.fx_comp_release)
    &&& is_fx_comp_ratio_variant(v.fx_comp_ratio)
    &&& is_fx_comp_side_chain_eq_variant(v.fx_comp_side_chain_eq)
    &&& v.track_levels.len() == 13
    &&& v.track_retrig_rates.len() == 13
    &&& (forall|i: int| 0 <= i < 13 ==> is_retrig_rate_variant(#[trigger] v.track_retrig_rates[i]))
    &&& v.track_retrig_lengths.len() == 13
    &&& (forall|i: int| 0 <= i < 13 ==> is_length_variant(#[trigger] v.track_retrig_lengths[i]))
    &&& v.track_retrig_vel_offsets.len() == 13
    &&& v.track_retrig_always_on.len() == 13
    &&& v.sounds.len() == 12
}

/// The fresh state of a kit.
pub open spec fn kit_default(index: u8) -> KitView {
    KitView {
        version: 0,
        index: index,
        name: Seq::empty(),
        fx_delay_time: 0,
        fx_delay_ping_pong: false,
        fx_delay_stereo_width: 0,
        fx_delay_feedback: 0,
        fx_delay_hpf: 0,
        fx_delay_lpf: 0,
        fx_delay_reverb_send: 0,
        fx_delay_volume: 0,
        fx_reverb_pre_delay: 0,
        fx_reverb_decay: 0,
        fx_reverb_freq: 0,
        fx_reverb_gain: 0,
        fx_reverb_hpf: 0,
        fx_reverb_lpf: 0,
        fx_reverb_volume: 0,
        fx_comp_threshold: 0,
        fx_comp_gain: 0,
        fx_comp_mix: 0,
        fx_comp_volume: 0,
        fx_lfo_speed: 0,
        fx_lfo_fade: 0,
        fx_lfo_start_phase: 0,
        fx_lfo_depth: Num::Int(0),
        control_in_mod_targets: Seq::new(4, |i: int| "unset"@),
        fx_lfo_destination: "unset"@,
        fx_delay_time_on_the_grid: "128th"@,
        fx_comp_attack: "0.03"@,
        fx_comp_release: "0.1"@,
        fx_comp_ratio: "1:2"@,
        fx_comp_side_chain_eq: "off"@,
        track_levels: Seq::new(13, |j: int| 0i64),
        track_retrig_rates: Seq::new(13, |j: int| "1/16"@),
        track_retrig_lengths: Seq::new(13, |j: int| "1/16"@),
        track_retrig_vel_offsets: Seq::new(13, |j: int| 0i64),
        track_retrig_always_on: Seq::new(13, |j: int| false),
        sounds: Seq::new(12, |j: int| crate::sound::sound_default()),
    }
}

/// How many slots the plain field has; 1 for an unslotted field.
pub open spec fn kit_field_slot_count(f: KitField) -> int {
    match f {
        KitField::Version => 1,
        KitField::Index => 1,
        KitField::Name => 1,
        KitField::FxDelayTime => 1,
        KitField::FxDelayPingPong => 1,
        KitField::FxDelayStereoWidth => 1,
        KitField::FxDelayFeedback => 1,
        KitField::FxDelayHpf => 1,
        KitField::FxDelayLpf => 1,
        KitField::FxDelayReverbSend => 1,
        KitField::FxDelayVolume => 1,
        KitField::FxReverbPreDelay => 1,
        KitField::FxReverbDecay => 1,
        KitField::FxReverbFreq => 1,
        KitField::FxReverbGain => 1,
        KitField::FxReverbHpf => 1,
        KitField::FxReverbLpf => 1,
        KitField::FxReverbVolume => 1,
        KitField::FxCompThreshold => 1,
        KitField::FxCompGain => 1,
        KitField::FxCompMix => 1,
        KitField::FxCompVolume => 1,
        KitField::FxLfoSpeed => 1,
        KitField::FxLfoFade => 1,
        KitField::FxLfoStartPhase => 1,
        KitField::FxLfoDepth => 1,
    }
}

/// Executable slot count of a plain field.
pub fn kit_slot_count(f: KitField) -> (r: usize)
    ensures
        r as int == kit_field_slot_count(f),
{
    match f {
        KitField::Version => 1,
        KitField::Index => 1,
        KitField::Name => 1,
        KitField::FxDelayTime => 1,
        KitField::FxDelayPingPong => 1,
        KitField::FxDelayStereoWidth => 1,
        KitField::FxDelayFeedback => 1,
        KitField::FxDelayHpf => 1,
        KitField::FxDelayLpf => 1,
        KitField::FxDelayReverbSend => 1,
        KitField::FxDelayVolume => 1,
        KitField::FxReverbPreDelay => 1,
        KitField::FxReverbDecay => 1,
        KitField::FxReverbFreq => 1,
        KitField::FxReverbGain => 1,
        KitField::FxReverbHpf => 1,
        KitField::FxReverbLpf => 1,
        KitField::FxReverbVolume => 1,
        KitField::FxCompThreshold => 1,
        KitField::FxCompGain => 1,
        KitField::FxCompMix => 1,
        KitField::FxCompVolume => 1,
        KitField::FxLfoSpeed => 1,
        KitField::FxLfoFade => 1,
        KitField::FxLfoStartPhase => 1,
        KitField::FxLfoDepth => 1,
    }
}

/// Whether a write to the field marks the slot given by its parameter.
pub open spec fn kit_field_is_mark(f: KitField) -> bool {
    match f {
        KitField::Version => false,
        KitField::Index => false,
        KitField::Name => false,
        KitField::FxDelayTime => false,
        KitField::FxDelayPingPong => false,
        KitField::FxDelayStereoWidth => false,
        KitField::FxDelayFeedback => false,
        KitField::FxDelayHpf => false,
        KitField::FxDelayLpf => false,
        KitField::FxDelayReverbSend => false,
        KitField::FxDelayVolume => false,
        KitField::FxReverbPreDelay => false,
        KitField::FxReverbDecay => false,
        KitField::FxReverbFreq => false,
        KitField::FxReverbGain => false,
        KitField::FxReverbHpf => false,
        KitField::FxReverbLpf => false,
        KitField::FxReverbVolume => false,
        KitField::FxCompThreshold => false,
        KitField::FxCompGain => false,
        KitField::FxCompMix => false,
        KitField::FxCompVolume => false,
        KitField::FxLfoSpeed => false,
        KitField::FxLfoFade => false,
        KitField::FxLfoStartPhase => false,
        KitField::FxLfoDepth => false,
    }
}

/// Executable form of the marking check.
pub fn kit_is_mark(f: KitField) -> (r: bool)
    ensures
        r == kit_field_is_mark(f),
{
    match f {
        KitField::Version => false,
        KitField::Index => false,
        KitField::Name => false,
        KitField::FxDelayTime => false,
        KitField::FxDelayPingPong => false,
        KitField::FxDelayStereoWidth => false,
        KitField::FxDelayFeedback => false,
        KitField::FxDelayHpf => false,
        KitField::FxDelayLpf => false,
        KitField::FxDelayReverbSend => false,
        KitField::FxDelayVolume => false,
        KitField::FxReverbPreDelay => false,
        KitField::FxReverbDecay => false,
        KitField::FxReverbFreq => false,
        KitField::FxReverbGain => false,
        KitField::FxReverbHpf => false,
        KitField::FxReverbLpf => false,
        KitField::FxReverbVolume => false,
        KitField::FxCompThreshold => false,
        KitField::FxCompGain => false,
        KitField::FxCompMix => false,
        KitField::FxCompVolume => false,
        KitField::FxLfoSpeed => false,
        KitField::FxLfoFade => false,
        KitField::FxLfoStartPhase => false,
        KitField::FxLfoDepth => false,
    }
}

/// Whether the plain field accepts a write; the rest are read-only.
pub open spec fn kit_field_settable(f: KitField) -> bool {
    match f {
        KitField::Version => false,
        KitField::Index => false,
        KitField::Name => true,
        KitField::FxDelayTime => true,
        KitField::FxDelayPingPong => true,
        KitField::FxDelayStereoWidth => true,
        KitField::FxDelayFeedback => true,
        KitField::FxDelayHpf => true,
        KitField::FxDelayLpf => true,
        KitField::FxDelayReverbSend => true,
        KitField::FxDelayVolume => true,
        KitField::FxReverbPreDelay => true,
        KitField::FxReverbDecay => true,
        KitField::FxReverbFreq => true,
        KitField::FxReverbGain => true,
        KitField::FxReverbHpf => true,
        KitField::FxReverbLpf => true,
        KitField::FxReverbVolume => true,
        KitField::FxCompThreshold => true,
        KitField::FxCompGain => true,
        KitField::FxCompMix => true,
        KitField::FxCompVolume => true,
        KitField::FxLfoSpeed => true,
        KitField::FxLfoFade => true,
        KitField::FxLfoStartPhase => true,
        KitField::FxLfoDepth => true,
    }
}

/// The value the plain field reads back as, echoed as a token.
pub open spec fn kit_get_spec(v: KitView, f: KitField, slot: int) -> TokenV {
    match f {
        KitField::Version => TokenV::Int(v.version),
        KitField::Index => TokenV::Int(v.index as i64),
        KitField::Name => TokenV::Sym(v.name),
        KitField::FxDelayTime => TokenV::Int(v.fx_delay_time),
        KitField::FxDelayPingPong => bool01_token(v.fx_delay_ping_pong),
        KitField::FxDelayStereoWidth => TokenV::Int(v.fx_delay_stereo_width),
        KitField::FxDelayFeedback => TokenV::Int(v.fx_delay_feedback),
        KitField::FxDelayHpf => TokenV::Int(v.fx_delay_hpf),
        KitField::FxDelayLpf => TokenV::Int(v.fx_delay_lpf),
        KitField::FxDelayReverbSend => TokenV::Int(v.fx_delay_reverb_send),
        KitField::FxDelayVolume => TokenV::Int(v.fx_delay_volume),
        KitField::FxReverbPreDelay => TokenV::Int(v.fx_reverb_pre_delay),
        KitField::FxReverbDecay => TokenV::Int(v.fx_reverb_decay),
        KitField::FxReverbFreq => TokenV::Int(v.fx_reverb_freq),
        KitField::FxReverbGain => TokenV::Int(v.fx_reverb_gain),
        KitField::FxReverbHpf => TokenV::Int(v.fx_reverb_hpf),
        KitField::FxReverbLpf => TokenV::Int(v.fx_reverb_lpf),
        KitField::FxReverbVolume => TokenV::Int(v.fx_reverb_volume),
        KitField::FxCompThreshold => TokenV::Int(v.fx_comp_threshold),
        KitField::FxCompGain => TokenV::Int(v.fx_comp_gain),
        KitField::FxCompMix => TokenV::Int(v.fx_comp_mix),
        KitField::FxCompVolume => TokenV::Int(v.fx_comp_volume),
        KitField::FxLfoSpeed => TokenV::Int(v.fx_lfo_speed),
        KitField::FxLfoFade => TokenV::Int(v.fx_lfo_fade),
        KitField::FxLfoStartPhase => TokenV::Int(v.fx_lfo_start_phase),
        KitField::FxLfoDepth => num_token(v.fx_lfo_depth),
    }
}

/// The state a write to the plain field produces, if its parameter
/// token coerces; read-only fields and failed coercions produce nothing.
pub open spec fn kit_set_spec(v: KitView, f: KitField, slot: int, t: TokenV) -> Option<KitView> {
    match f {
        KitField::Version => None,
        KitField::Index => None,
        KitField::Name => match t {
            TokenV::Sym(s) => if valid_name(s) {
                Some(KitView { name: s, ..v })
            } else {
                None
            },
            _ => None,
        },
        KitField::FxDelayTime => match token_int(t) {
            Some(i) => Some(KitView { fx_delay_time: i, ..v }),
            None => None,
        },
        KitField::FxDelayPingPong => match token_bool01(t) {
            Some(b) => Some(KitView { fx_delay_ping_pong: b, ..v }),
            None => None,
        },
        KitField::FxDelayStereoWidth => match token_int(t) {
            Some(i) => Some(KitView { fx_delay_stereo_width: i, ..v }),
            None => None,
        },
        KitField::FxDelayFeedback => match token_int(t) {
            Some(i) => Some(KitView { fx_delay_feedback: i, ..v }),
            None => None,
        },
        KitField::FxDelayHpf => match token_int(t) {
            Some(i) => Some(KitView { fx_delay_hpf: i, ..v }),
            None => None,
        },
        KitField::FxDelayLpf => match token_int(t) {
            Some(i) => Some(KitView { fx_delay_lpf: i, ..v }),
            None => None,
        },
        KitField::FxDelayReverbSend => match token_int(t) {
            Some(i) => Some(KitView { fx_delay_reverb_send: i, ..v }),
            None => None,
        },
        KitField::FxDelayVolume => match token_int(t) {
            Some(i) => Some(KitView { fx_delay_volume: i, ..v }),
            None => None,
        },
        KitField::FxReverbPreDelay => match token_int(t) {
            Some(i) => Some(KitView { fx_reverb_pre_delay: i, ..v }),
            None => None,
        },
        KitField::FxReverbDecay => match token_int(t) {
            Some(i) => Some(KitView { fx_reverb_decay: i, ..v }),
            None => None,
        },
        KitField::FxReverbFreq => match token_int(t) {
            Some(i) => Some(KitView { fx_reverb_freq: i, ..v }),
            None => None,
        },
        KitField::FxReverbGain => match token_int(t) {
            Some(i) => Some(KitView { fx_reverb_gain: i, ..v }),
            None => None,
        },
        KitField::FxReverbHpf => match token_int(t) {
            Some(i) => Some(KitView { fx_reverb_hpf: i, ..v }),
            None => None,
        },
        KitField::FxReverbLpf => match token_int(t) {
            Some(i) => Some(KitView { fx_reverb_lpf: i, ..v }),
            None => None,
        },
        KitField::FxReverbVolume => match token_int(t) {
            Some(i) => Some(KitView { fx_reverb_volume: i, ..v }),
            None => None,
        },
        KitField::FxCompThreshold => match token_int(t) {
            Some(i) => Some(KitView { fx_comp_threshold: i, ..v }),
            None => None,
        },
        KitField::FxCompGain => match token_int(t) {
            Some(i) => Some(KitView { fx_comp_gain: i, ..v }),
            None => None,
        },
        KitField::FxCompMix => match token_int(t) {
            Some(i) => Some(KitView { fx_comp_mix: i, ..v }),
            None => None,
        },
        KitField::FxCompVolume => match token_int(t) {
            Some(i) => Some(KitView { fx_comp_volume: i, ..v }),
            None => None,
        },
        KitField::FxLfoSpeed => match token_int(t) {
            Some(i) => Some(KitView { fx_lfo_speed: i, ..v }),
            None => None,
        },
        KitField::FxLfoFade => match token_int(t) {
            Some(i) => Some(KitView { fx_lfo_fade: i, ..v }),
            None => None,
        },
        KitField::FxLfoStartPhase => match token_int(t) {
            Some(i) => Some(KitView { fx_lfo_start_phase: i, ..v }),
            None => None,
        },
        KitField::FxLfoDepth => match token_num(t) {
            Some(n) => Some(KitView { fx_lfo_depth: n, ..v }),
            None => None,
        },
    }
}

/// How many slots the enumerated type has; 1 for an unslotted type.
pub open spec fn kit_enum_slot_count(t: KitEnumType) -> int {
    match t {
        KitEnumType::ControlInModTarget => 4,
        KitEnumType::FxLfoDestination => 1,
        KitEnumType::FxDelayTimeOnTheGrid => 1,
        KitEnumType::FxCompAttack => 1,
        KitEnumType::FxCompRelease => 1,
        KitEnumType::FxCompRatio => 1,
        KitEnumType::FxCompSideChainEq => 1,
    }
}

/// Executable slot count of an enumerated type.
pub fn kit_enum_slots(t: KitEnumType) -> (r: usize)
    ensures
        r as int == kit_enum_slot_count(t),
{
    match t {
        KitEnumType::ControlInModTarget => 4,
        KitEnumType::FxLfoDestination => 1,
        KitEnumType::FxDelayTimeOnTheGrid => 1,
        KitEnumType::FxCompAttack => 1,
        KitEnumType::FxCompRelease => 1,
        KitEnumType::FxCompRatio => 1,
        KitEnumType::FxCompSideChainEq => 1,
    }
}

/// The stored variant of the enumerated type.
pub open spec fn kit_enum_value(v: KitView, t: KitEnumType, slot: int) -> Seq<char> {
    match t {
        KitEnumType::ControlInModTarget => v.control_in_mod_targets[slot],
        KitEnumType::FxLfoDestination => v.fx_lfo_destination,
        KitEnumType::FxDelayTimeOnTheGrid => v.fx_delay_time_on_the_grid,
        KitEnumType::FxCompAttack => v.fx_comp_attack,
        KitEnumType::FxCompRelease => v.fx_comp_release,
        KitEnumType::FxCompRatio => v.fx_comp_ratio,
        KitEnumType::FxCompSideChainEq => v.fx_comp_side_chain_eq,
    }
}

/// Whether the symbol is a variant of the enumerated type's domain.
pub open spec fn kit_enum_variant_ok(t: KitEnumType, s: Seq<char>) -> bool {
    match t {
        KitEnumType::ControlInModTarget => is_control_in_mod_target_variant(s),
        KitEnumType::FxLfoDestination => is_fx_lfo_destination_variant(s),
        KitEnumType::FxDelayTimeOnTheGrid => is_fx_delay_time_on_the_grid_variant(s),
        KitEnumType::FxCompAttack => is_fx_comp_attack_variant(s),
        KitEnumType::FxCompRelease => is_fx_comp_release_variant(s),
        KitEnumType::FxCompRatio => is_fx_comp_ratio_variant(s),
        KitEnumType::FxCompSideChainEq => is_fx_comp_side_chain_eq_variant(s),
    }
}

/// The state a write to the enumerated type produces, if the variant
/// belongs to its domain.
pub open spec fn kit_set_enum_spec(v: KitView, t: KitEnumType, slot: int, s: Seq<char>) -> Option<
    KitView,
> {
    if kit_enum_variant_ok(t, s) {
        Some(
            match t {
                KitEnumType::ControlInModTarget => KitView { control_in_mod_targets: v.control_in_mod_targets.update(slot, s), ..v },
                KitEnumType::FxLfoDestination => KitView { fx_lfo_destination: s, ..v },
                KitEnumType::FxDelayTimeOnTheGrid => KitView { fx_delay_time_on_the_grid: s, ..v },
                KitEnumType::FxCompAttack => KitView { fx_comp_attack: s, ..v },
                KitEnumType::FxCompRelease => KitView { fx_comp_release: s, ..v },
                KitEnumType::FxCompRatio => KitView { fx_comp_ratio: s, ..v },
                KitEnumType::FxCompSideChainEq => KitView { fx_comp_side_chain_eq: s, ..v },
            },
        )
    } else {
        None
    }
}

impl Kit {
    /// Well-formedness of the object and everything it owns.
    pub open spec fn wf(&self) -> bool {
        &&& kit_view_wf(self@)
        &&& (forall|i: int| 0 <= i < self.sounds@.len() ==> (#[trigger] self.sounds@[i]).wf())
    }

    /// A fresh kit.
    #[verifier::rlimit(100)]
    pub fn new(index: u8) -> (r: Kit)
        ensures
            r.wf(),
            r@ =~~= kit_default(index),
    {
        proof {
            reveal_strlit("");
            reveal(is_control_in_mod_target_variant);
            reveal(is_fx_lfo_destination_variant);
            reveal(is_fx_delay_time_on_the_grid_variant);
            reveal(is_fx_comp_attack_variant);
            reveal(is_fx_comp_release_variant);
            reveal(is_fx_comp_ratio_variant);
            reveal(is_fx_comp_side_chain_eq_variant);
            reveal(is_retrig_rate_variant);
            reveal(is_length_variant);
        }
        let mut items: Vec<Sound> = Vec::new();
        let mut i: usize = 0;
        while i < 12
            invariant
                0 <= i <= 12,
                items@.len() == i,
                forall|j: int| 0 <= j < i ==> (#[trigger] items@[j]).wf(),
                forall|j: int| 0 <= j < i ==> (#[trigger] items@[j])@ =~~= crate::sound::sound_default(),
            decreases 12 - i,
        {
            items.push(Sound::new());
            i = i + 1;
        }
        proof {
            assert(items.deep_view() =~~= Seq::new(12, |j: int| crate::sound::sound_default())) by {
                assert forall|j: int| 0 <= j < 12 implies #[trigger] items.deep_view()[j] =~~= crate::sound::sound_default() by {
                    assert(items@[j]@ =~~= crate::sound::sound_default());
                }
            }
        }
        Kit {
            version: 0,
            index,
            name: "".to_owned(),
            fx_delay_time: 0,
            fx_delay_ping_pong: false,
            fx_delay_stereo_width: 0,
            fx_delay_feedback: 0,
            fx_delay_hpf: 0,
            fx_delay_lpf: 0,
            fx_delay_reverb_send: 0,
            fx_delay_volume: 0,
            fx_reverb_pre_delay: 0,
            fx_reverb_decay: 0,
            fx_reverb_freq: 0,
            fx_reverb_gain: 0,
            fx_reverb_hpf: 0,
            fx_reverb_lpf: 0,
            fx_reverb_volume: 0,
            fx_comp_threshold: 0,
            fx_comp_gain: 0,
            fx_comp_mix: 0,
            fx_comp_volume: 0,
            fx_lfo_speed: 0,
            fx_lfo_fade: 0,
            fx_lfo_start_phase: 0,
            fx_lfo_depth: Num::Int(0),
            control_in_mod_targets: crate::seed::filled_strings(4, "unset"),
            fx_lfo_destination: "unset".to_owned(),
            fx_delay_time_on_the_grid: "128th".to_owned(),
            fx_comp_attack: "0.03".to_owned(),
            fx_comp_release: "0.1".to_owned(),
            fx_comp_ratio: "1:2".to_owned(),
            fx_comp_side_chain_eq: "off".to_owned(),
            track_levels: crate::seed::filled_i64(13),
            track_retrig_rates: crate::seed::filled_strings(13, "1/16"),
            track_retrig_lengths: crate::seed::filled_strings(13, "1/16"),
            track_retrig_vel_offsets: crate::seed::filled_i64(13),
            track_retrig_always_on: crate::seed::filled_bools(13),
            sounds: items,
        }
    }

    /// Reads the plain field, echoing its value as a token.
    #[verifier::rlimit(100)]
    pub fn get_field(&self, f: KitField, slot: usize) -> (r: Token)
        requires
            self.wf(),
            0 <= slot < kit_field_slot_count(f),
        ensures
            r@ == kit_get_spec(self@, f, slot as int),
    {
        match f {
            KitField::Version => Token::Int(self.version),
            KitField::Index => Token::Int(self.index as i64),
            KitField::Name => Token::Sym(self.name.clone()),
            KitField::FxDelayTime => Token::Int(self.fx_delay_time),
            KitField::FxDelayPingPong => bool01_to_token(self.fx_delay_ping_pong),
            KitField::FxDelayStereoWidth => Token::Int(self.fx_delay_stereo_width),
            KitField::FxDelayFeedback => Token::Int(self.fx_delay_feedback),
            KitField::FxDelayHpf => Token::Int(self.fx_delay_hpf),
            KitField::FxDelayLpf => Token::Int(self.fx_delay_lpf),
            KitField::FxDelayReverbSend => Token::Int(self.fx_delay_reverb_send),
            KitField::FxDelayVolume => Token::Int(self.fx_delay_volume),
            KitField::FxReverbPreDelay => Token::Int(self.fx_reverb_pre_delay),
            KitField::FxReverbDecay => Token::Int(self.fx_reverb_decay),
            KitField::FxReverbFreq => Token::Int(self.fx_reverb_freq),
            KitField::FxReverbGain => Token::Int(self.fx_reverb_gain),
            KitField::FxReverbHpf => Token::Int(self.fx_reverb_hpf),
            KitField::FxReverbLpf => Token::Int(self.fx_reverb_lpf),
            KitField::FxReverbVolume => Token::Int(self.fx_reverb_volume),
            KitField::FxCompThreshold => Token::Int(self.fx_comp_threshold),
            KitField::FxCompGain => Token::Int(self.fx_comp_gain),
            KitField::FxCompMix => Token::Int(self.fx_comp_mix),
            KitField::FxCompVolume => Token::Int(self.fx_comp_volume),
            KitField::FxLfoSpeed => Token::Int(self.fx_lfo_speed),
            KitField::FxLfoFade => Token::Int(self.fx_lfo_fade),
            KitField::FxLfoStartPhase => Token::Int(self.fx_lfo_start_phase),
            KitField::FxLfoDepth => num_to_token(self.fx_lfo_depth),
        }
    }

    /// One slice of the plain-field writer.
    #[verifier::rlimit(100)]
    fn set_field_part0(&mut self, f: KitField, slot: usize, t: &Token) -> (r: bool)
        requires
            old(self).wf(),
            0 <= slot < kit_field_slot_count(f),
            f == KitField::Version || f == KitField::Index || f == KitField::Name || f == KitField::FxDelayTime || f == KitField::FxDelayPingPong || f == KitField::FxDelayStereoWidth || f == KitField::FxDelayFeedback || f == KitField::FxDelayHpf || f == KitField::FxDelayLpf,
        ensures
            final(self).wf(),
            match kit_set_spec(old(self)@, f, slot as int, t@) {
                Some(v2) => r == true && final(self)@ =~~= v2,
                None => r == false && final(self)@ =~~= old(self)@,
            },
    {
        match f {
            KitField::Version => false,
            KitField::Index => false,
            KitField::Name => match t {
                Token::Sym(s) => {
                    if crate::strutil::check_name(s) {
                        self.name = s.clone();
                        true
                    } else {
                        false
                    }
                },
                _ => false,
            },
            KitField::FxDelayTime => match coerce_int(t) {
                Some(i) => {
                    self.fx_delay_time = i;
                    true
                },
                None => false,
            },
            KitField::FxDelayPingPong => match coerce_bool01(t) {
                Some(b) => {
                    self.fx_delay_ping_pong = b;
                    true
                },
                None => false,
            },
            KitField::FxDelayStereoWidth => match coerce_int(t) {
                Some(i) => {
                    self.fx_delay_stereo_width = i;
                    true
                },
                None => false,
            },
            KitField::FxDelayFeedback => match coerce_int(t) {
                Some(i) => {
                    self.fx_delay_feedback = i;
                    true
                },
                None => false,
            },
            KitField::FxDelayHpf => match coerce_int(t) {
                Some(i) => {
                    self.fx_delay_hpf = i;
                    true
                },
                None => false,
            },
            KitField::FxDelayLpf => match coerce_int(t) {
                Some(i) => {
                    self.fx_delay_lpf = i;
                    true
                },
                None => false,
            },
            _ => false,
        }
    }

    /// One slice of the plain-field writer.
    #[verifier::rlimit(100)]
    fn set_field_part1(&mut self, f: KitField, slot: usize, t: &Token) -> (r: bool)
        requires
            old(self).wf(),
            0 <= slot < kit_field_slot_count(f),
            f == KitField::FxDelayReverbSend || f == KitField::FxDelayVolume || f == KitField::FxReverbPreDelay || f == KitField::FxReverbDecay || f == KitField::FxReverbFreq || f == KitField::FxReverbGain || f == KitField::FxReverbHpf || f == KitField::FxReverbLpf || f == KitField::FxReverbVolume,
        ensures
            final(self).wf(),
            match kit_set_spec(old(self)@, f, slot as int, t@) {
                Some(v2) => r == true && final(self)@ =~~= v2,
                None => r == false && final(self)@ =~~= old(self)@,
            },
    {
        match f {
            KitField::FxDelayReverbSend => match coerce_int(t) {
                Some(i) => {
                    self.fx_delay_reverb_send = i;
                    true
                },
                None => false,
            },
            KitField::FxDelayVolume => match coerce_int(t) {
                Some(i) => {
                    self.fx_delay_volume = i;
                    true
                },
                None => false,
            },
            KitField::FxReverbPreDelay => match coerce_int(t) {
                Some(i) => {
                    self.fx_reverb_pre_delay = i;
                    true
                },
                None => false,
            },
            KitField::FxReverbDecay => match coerce_int(t) {
                Some(i) => {
                    self.fx_reverb_decay = i;
                    true
                },
                None => false,
            },
            KitField::FxReverbFreq => match coerce_int(t) {
                Some(i) => {
                    self.fx_reverb_freq = i;
                    true
                },
                None => false,
            },
            KitField::FxReverbGain => match coerce_int(t) {
                Some(i) => {
                    self.fx_reverb_gain = i;
                    true
                },
                None => false,
            },
            KitField::FxReverbHpf => match coerce_int(t) {
                Some(i) => {
                    self.fx_reverb_hpf = i;
                    true
                },
                None => false,
            },
            KitField::FxReverbLpf => match coerce_int(t) {
                Some(i) => {
                    self.fx_reverb_lpf = i;
                    true
                },
                None => false,
            },
            KitField::FxReverbVolume => match coerce_int(t) {
                Some(i) => {
                    self.fx_reverb_volume = i;
                    true
                },
                None => false,
            },
            _ => false,
        }
    }

    /// One slice of the plain-field writer.
    #[verifier::rlimit(100)]
    fn set_field_part2(&mut self, f: KitField, slot: usize, t: &Token) -> (r: bool)
        requires
            old(self).wf(),
            0 <= slot < kit_field_slot_count(f),
            f == KitField::FxCompThreshold || f == KitField::FxCompGain || f == KitField::FxCompMix || f == KitField::FxCompVolume || f == KitField::FxLfoSpeed || f == KitField::FxLfoFade || f == KitField::FxLfoStartPhase || f == KitField::FxLfoDepth,
        ensures
            final(self).wf(),
            match kit_set_spec(old(self)@, f, slot as int, t@) {
                Some(v2) => r == true && final(self)@ =~~= v2,
                None => r == false && final(self)@ =~~= old(self)@,
            },
    {
        match f {
            KitField::FxCompThreshold => match coerce_int(t) {
                Some(i) => {
                    self.fx_comp_threshold = i;
                    true
                },
                None => false,
            },
            KitField::FxCompGain => match coerce_int(t) {
                Some(i) => {
                    self.fx_comp_gain = i;
                    true
                },
                None => false,
            },
            KitField::FxCompMix => match coerce_int(t) {
                Some(i) => {
                    self.fx_comp_mix = i;
                    true
                },
                None => false,
            },
            KitField::FxCompVolume => match coerce_int(t) {
                Some(i) => {
                    self.fx_comp_volume = i;
                    true
                },
                None => false,
            },
            KitField::FxLfoSpeed => match coerce_int(t) {
                Some(i) => {
                    self.fx_lfo_speed = i;
                    true
                },
                None => false,
            },
            KitField::FxLfoFade => match coerce_int(t) {
                Some(i) => {
                    self.fx_lfo_fade = i;
                    true
                },
                None => false,
            },
            KitField::FxLfoStartPhase => match coerce_int(t) {
                Some(i) => {
                    self.fx_lfo_start_phase = i;
                    true
                },
                None => false,
            },
            KitField::FxLfoDepth => match coerce_num(t) {
                Some(n) => {
                    self.fx_lfo_depth = n;
                    true
                },
                None => false,
            },
            _ => false,
        }
    }

    /// Writes the plain field from a parameter token, coercing per the
    /// field's kind; returns whether the write applied.
    pub fn set_field(&mut self, f: KitField, slot: usize, t: &Token) -> (r: bool)
        requires
            old(self).wf(),
            0 <= slot < kit_field_slot_count(f),
        ensures
            final(self).wf(),
            match kit_set_spec(old(self)@, f, slot as int, t@) {
                Some(v2) => r == true && final(self)@ =~~= v2,
                None => r == false && final(self)@ =~~= old(self)@,
            },
    {
        match f {
            KitField::Version | KitField::Index | KitField::Name | KitField::FxDelayTime | KitField::FxDelayPingPong | KitField::FxDelayStereoWidth | KitField::FxDelayFeedback | KitField::FxDelayHpf | KitField::FxDelayLpf => self.set_field_part0(f, slot, t),
            KitField::FxDelayReverbSend | KitField::FxDelayVolume | KitField::FxReverbPreDelay | KitField::FxReverbDecay | KitField::FxReverbFreq | KitField::FxReverbGain | KitField::FxReverbHpf | KitField::FxReverbLpf | KitField::FxReverbVolume => self.set_field_part1(f, slot, t),
            KitField::FxCompThreshold | KitField::FxCompGain | KitField::FxCompMix | KitField::FxCompVolume | KitField::FxLfoSpeed | KitField::FxLfoFade | KitField::FxLfoStartPhase | KitField::FxLfoDepth => self.set_field_part2(f, slot, t),
        }
    }

    /// Reads the stored variant of the enumerated type.
    pub fn get_enum(&self, t: KitEnumType, slot: usize) -> (r: String)
        requires
            self.wf(),
            0 <= slot < kit_enum_slot_count(t),
        ensures
            r@ == kit_enum_value(self@, t, slot as int),
            kit_enum_variant_ok(t, r@),
    {
        match t {
            KitEnumType::ControlInModTarget => self.control_in_mod_targets[slot].clone(),
            KitEnumType::FxLfoDestination => self.fx_lfo_destination.clone(),
            KitEnumType::FxDelayTimeOnTheGrid => self.fx_delay_time_on_the_grid.clone(),
            KitEnumType::FxCompAttack => self.fx_comp_attack.clone(),
            KitEnumType::FxCompRelease => self.fx_comp_release.clone(),
            KitEnumType::FxCompRatio => self.fx_comp_ratio.clone(),
            KitEnumType::FxCompSideChainEq => self.fx_comp_side_chain_eq.clone(),
        }
    }

    /// Writes the enumerated type from a variant symbol, validating it
    /// against the type's domain; returns whether the write applied.
    #[verifier::rlimit(100)]
    pub fn set_enum(&mut self, t: KitEnumType, slot: usize, s: &String) -> (r: bool)
        requires
            old(self).wf(),
            0 <= slot < kit_enum_slot_count(t),
        ensures
            final(self).wf(),
            match kit_set_enum_spec(old(self)@, t, slot as int, s@) {
                Some(v2) => r == true && final(self)@ =~~= v2,
                None => r == false && final(self)@ =~~= old(self)@,
            },
    {
        match t {
            KitEnumType::ControlInModTarget => {
                if check_control_in_mod_target_variant(s) {
                    self.control_in_mod_targets.set(slot, s.clone());
                    proof {
                        assert(self.control_in_mod_targets.deep_view() =~~= old(self).control_in_mod_targets.deep_view().update(
                            slot as int,
                            s@,
                        )) by {
                            assert forall|i: int|
                                0 <= i < self.control_in_mod_targets@.len() && i != slot implies #[trigger] self.control_in_mod_targets.deep_view()[i] == old(
                                self,
                            ).control_in_mod_targets.deep_view()[i] by {
                                assert(self.control_in_mod_targets@[i] == old(self).control_in_mod_targets@[i]);
                            }
                        }
                    }
                    true
                } else {
                    false
                }
            },
            KitEnumType::FxLfoDestination => {
                if check_fx_lfo_destination_variant(s) {
                    self.fx_lfo_destination = s.clone();
                    true
                } else {
                    false
                }
            },
            KitEnumType::FxDelayTimeOnTheGrid => {
                if check_fx_delay_time_on_the_grid_variant(s) {
                    self.fx_delay_time_on_the_grid = s.clone();
                    true
                } else {
                    false
                }
            },
            KitEnumType::FxCompAttack => {
                if check_fx_comp_attack_variant(s) {
                    self.fx_comp_attack = s.clone();
                    true
                } else {
                    false
                }
            },
            KitEnumType::FxCompRelease => {
                if check_fx_comp_release_variant(s) {
                    self.fx_comp_release = s.clone();
                    true
                } else {
                    false
                }
            },
            KitEnumType::FxCompRatio => {
                if check_fx_comp_ratio_variant(s) {
                    self.fx_comp_ratio = s.clone();
                    true
                } else {
                    false
                }
            },
            KitEnumType::FxCompSideChainEq => {
                if check_fx_comp_side_chain_eq_variant(s) {
                    self.fx_comp_side_chain_eq = s.clone();
                    true
                } else {
                    false
                }
            },
        }
    }

}

/// Read-after-write: a plain-field write that applies is read back exactly,
/// for every state, field, slot and parameter; slot-marking fields are the
/// one exception, for they take no value.
#[verifier::rlimit(100)]
pub proof fn lemma_kit_set_get(v: KitView, f: KitField, slot: int, t: TokenV)
    requires
        kit_view_wf(v),
        0 <= slot < kit_field_slot_count(f),
        !kit_field_is_mark(f),
        kit_set_spec(v, f, slot, t) is Some,
    ensures
        kit_get_spec(kit_set_spec(v, f, slot, t)->Some_0, f, slot) == t,
{
}

/// Read-after-write for enumerated identifiers: a variant write that
/// applies is read back exactly, for every state, type, slot and variant.
pub proof fn lemma_kit_enum_set_get(v: KitView, t: KitEnumType, slot: int, s: Seq<char>)
    requires
        kit_view_wf(v),
        0 <= slot < kit_enum_slot_count(t),
        kit_set_enum_spec(v, t, slot, s) is Some,
    ensures
        kit_enum_value(kit_set_enum_spec(v, t, slot, s)->Some_0, t, slot) == s,
{
}

/// The value a kit element reads back as.
pub open spec fn kit_element_get_spec(v: KitView, e: KitElement, idx: int) -> TokenV {
    match e {
        KitElement::TrackLevel => TokenV::Int(v.track_levels[idx]),
        KitElement::RetrigRate => TokenV::Sym(v.track_retrig_rates[idx]),
        KitElement::RetrigLength => TokenV::Sym(v.track_retrig_lengths[idx]),
        KitElement::RetrigVelOffset => TokenV::Int(v.track_retrig_vel_offsets[idx]),
        KitElement::RetrigAlwaysOn => bool01_token(v.track_retrig_always_on[idx]),
    }
}

/// The state a write to a plainly-valued kit element produces, if the
/// parameter token coerces; the two enum-valued elements produce nothing.
pub open spec fn kit_element_set_spec(v: KitView, e: KitElement, idx: int, t: TokenV) -> Option<
    KitView,
> {
    match e {
        KitElement::TrackLevel => match token_int(t) {
            Some(i) => Some(KitView { track_levels: v.track_levels.update(idx, i), ..v }),
            None => None,
        },
        KitElement::RetrigVelOffset => match token_int(t) {
            Some(i) => Some(
                KitView { track_retrig_vel_offsets: v.track_retrig_vel_offsets.update(idx, i), ..v },
            ),
            None => None,
        },
        KitElement::RetrigAlwaysOn => match token_bool01(t) {
            Some(b) => Some(
                KitView { track_retrig_always_on: v.track_retrig_always_on.update(idx, b), ..v },
            ),
            None => None,
        },
        _ => None,
    }
}

/// The state a write to an enum-valued kit element produces, if the variant
/// belongs to the element's domain; plainly-valued elements produce nothing.
pub open spec fn kit_element_set_enum_spec(v: KitView, e: KitElement, idx: int, s: Seq<char>) -> Option<
    KitView,
> {
    match e {
        KitElement::RetrigRate => if is_retrig_rate_variant(s) {
            Some(KitView { track_retrig_rates: v.track_retrig_rates.update(idx, s), ..v })
        } else {
            None
        },
        KitElement::RetrigLength => if is_length_variant(s) {
            Some(KitView { track_retrig_lengths: v.track_retrig_lengths.update(idx, s), ..v })
        } else {
            None
        },
        _ => None,
    }
}

impl Kit {
    /// Reads a kit element at its per-track position.
    pub fn element_get(&self, e: KitElement, idx: usize) -> (r: Token)
        requires
            self.wf(),
            idx < 13,
        ensures
            r@ == kit_element_get_spec(self@, e, idx as int),
    {
        match e {
            KitElement::TrackLevel => Token::Int(self.track_levels[idx]),
            KitElement::RetrigRate => Token::Sym(self.track_retrig_rates[idx].clone()),
            KitElement::RetrigLength => Token::Sym(self.track_retrig_lengths[idx].clone()),
            KitElement::RetrigVelOffset => Token::Int(self.track_retrig_vel_offsets[idx]),
            KitElement::RetrigAlwaysOn => bool01_to_token(self.track_retrig_always_on[idx]),
        }
    }

    /// Writes a plainly-valued kit element at its per-track position.
    pub fn element_set(&mut self, e: KitElement, idx: usize, t: &Token) -> (r: bool)
        requires
            old(self).wf(),
            idx < 13,
        ensures
            final(self).wf(),
            match kit_element_set_spec(old(self)@, e, idx as int, t@) {
                Some(v2) => r == true && final(self)@ =~~= v2,
                None => r == false && final(self)@ =~~= old(self)@,
            },
    {
        match e {
            KitElement::TrackLevel => match coerce_int(t) {
                Some(i) => {
                    self.track_levels.set(idx, i);
                    true
                },
                None => false,
            },
            KitElement::RetrigVelOffset => match coerce_int(t) {
                Some(i) => {
                    self.track_retrig_vel_offsets.set(idx, i);
                    true
                },
                None => false,
            },
            KitElement::RetrigAlwaysOn => match coerce_bool01(t) {
                Some(b) => {
                    self.track_retrig_always_on.set(idx, b);
                    true
                },
                None => false,
            },
            _ => false,
        }
    }

    /// Writes an enum-valued kit element at its per-track position.
    pub fn element_set_enum(&mut self, e: KitElement, idx: usize, s: &String) -> (r: bool)
        requires
            old(self).wf(),
            idx < 13,
        ensures
            final(self).wf(),
            match kit_element_set_enum_spec(old(self)@, e, idx as int, s@) {
                Some(v2) => r == true && final(self)@ =~~= v2,
                None => r == false && final(self)@ =~~= old(self)@,
            },
    {
        match e {
            KitElement::RetrigRate => {
                if check_retrig_rate_variant(s) {
                    self.track_retrig_rates.set(idx, s.clone());
                    proof {
                        assert(self.track_retrig_rates.deep_view() =~~= old(
                            self,
                        ).track_retrig_rates.deep_view().update(idx as int, s@)) by {
                            assert forall|i: int|
                                0 <= i < self.track_retrig_rates@.len() && i
                                    != idx implies #[trigger] self.track_retrig_rates.deep_view()[i]
                                == old(self).track_retrig_rates.deep_view()[i] by {
                                assert(self.track_retrig_rates@[i] == old(
                                    self,
                                ).track_retrig_rates@[i]);
                            }
                        }
                    }
                    true
                } else {
                    false
                }
            },
            KitElement::RetrigLength => {
                if check_length_variant(s) {
                    self.track_retrig_lengths.set(idx, s.clone());
                    proof {
                        assert(self.track_retrig_lengths.deep_view() =~~= old(
                            self,
                        ).track_retrig_lengths.deep_view().update(idx as int, s@)) by {
                            assert forall|i: int|
                                0 <= i < self.track_retrig_lengths@.len() && i
                                    != idx implies #[trigger] self.track_retrig_lengths.deep_view()[i]
                                == old(self).track_retrig_lengths.deep_view()[i] by {
                                assert(self.track_retrig_lengths@[i] == old(
                                    self,
                                ).track_retrig_lengths@[i]);
                            }
                        }
                    }
                    true
                } else {
                    false
                }
            },
            _ => false,
        }
    }
}

/// Read-after-write for kit elements: an element write that applies is read
/// back exactly, at every per-track position.
pub proof fn lemma_kit_element_set_get(v: KitView, e: KitElement, idx: int, t: TokenV)
    requires
        kit_view_wf(v),
        0 <= idx < 13,
        kit_element_set_spec(v, e, idx, t) is Some,
    ensures
        kit_element_get_spec(kit_element_set_spec(v, e, idx, t)->Some_0, e, idx) == t,
{
}

/// Read-after-write for enum-valued kit elements.
pub proof fn lemma_kit_element_enum_set_get(v: KitView, e: KitElement, idx: int, s: Seq<char>)
    requires
        kit_view_wf(v),
        0 <= idx < 13,
        kit_element_set_enum_spec(v, e, idx, s) is Some,
    ensures
        kit_element_get_spec(kit_element_set_enum_spec(v, e, idx, s)->Some_0, e, idx) == TokenV::Sym(
            s,
        ),
{
}

impl DeepView for Kit {
    type V = KitView;

    open spec fn deep_view(&self) -> KitView {
        self.view()
    }
}

} // verus!
