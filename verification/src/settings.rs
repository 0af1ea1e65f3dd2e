//! The device settings object: project tempo, selection state, sound
//! mutes and the sample recorder configuration.

use vstd::prelude::*;
#[allow(unused_imports)]
use vstd::pervasive::VecAdditionalExecFns;
use crate::fields::{SettingsField, SettingsEnumType};
#[allow(unused_imports)]
use crate::token::{bool01_to_token, bool01_token, coerce_bool01, coerce_int, coerce_num, num_to_token, num_token, token_bool01, token_int, token_num, Num, Token, TokenV};
#[allow(unused_imports)]
use crate::strutil::valid_name;
use crate::variants_global::{check_fx_parameter_menu_item_variant, check_parameter_menu_item_variant, check_pattern_mode_variant, check_sample_recorder_recording_length_variant, check_sample_recorder_source_variant, check_sequencer_mode_variant, is_fx_parameter_menu_item_variant, is_parameter_menu_item_variant, is_pattern_mode_variant, is_sample_recorder_recording_length_variant, is_sample_recorder_source_variant, is_sequencer_mode_variant};

verus! {

/// The settings model object.
pub struct Settings {
    pub bpm: Num,
    pub selected_track: i64,
    pub selected_page: i64,
    pub muted_sounds: Vec<bool>,
    pub fixed_velocity_enable: bool,
    pub fixed_velocity_amount: i64,
    pub sample_recorder_thr: i64,
    pub sample_recorder_monitor: bool,
    pub parameter_menu_item: String,
    pub fx_parameter_menu_item: String,
    pub sequencer_mode: String,
    pub pattern_mode: String,
    pub sample_recorder_source: String,
    pub sample_recorder_recording_length: String,
}

/// The mathematical view of a settings.
#[verifier::ext_equal]
pub ghost struct SettingsView {
    pub bpm: Num,
    pub selected_track: i64,
    pub selected_page: i64,
    pub muted_sounds: Seq<bool>,
    pub fixed_velocity_enable: bool,
    pub fixed_velocity_amount: i64,
    pub sample_recorder_thr: i64,
    pub sample_recorder_monitor: bool,
    pub parameter_menu_item: Seq<char>,
    pub fx_parameter_menu_item: Seq<char>,
    pub sequencer_mode: Seq<char>,
    pub pattern_mode: Seq<char>,
    pub sample_recorder_source: Seq<char>,
    pub sample_recorder_recording_length: Seq<char>,
}

impl View for Settings {
    type V = SettingsView;

    open spec fn view(&self) -> SettingsView {
        SettingsView {
            bpm: self.bpm,
            selected_track: self.selected_track,
            selected_page: self.selected_page,
            muted_sounds: self.muted_sounds@,
            fixed_velocity_enable: self.fixed_velocity_enable,
            fixed_velocity_amount: self.fixed_velocity_amount,
            sample_recorder_thr: self.sample_recorder_thr,
            sample_recorder_monitor: self.sample_recorder_monitor,
            parameter_menu_item: self.parameter_menu_item@,
            fx_parameter_menu_item: self.fx_parameter_menu_item@,
            sequencer_mode: self.sequencer_mode@,
            pattern_mode: self.pattern_mode@,
            sample_recorder_source: self.sample_recorder_source@,
            sample_recorder_recording_length: self.sample_recorder_recording_length@,
        }
    }
}

/// Well-formedness of a settings view: indices in range, vectors at their
/// fixed lengths, every enumerated field holding a variant of its domain.
pub open spec fn settings_view_wf(v: SettingsView) -> bool {
    &&& v.muted_sounds.len() == 12
    &&& is_parameter_menu_item_variant(v.parameter_menu_item)
    &&& is_fx_parameter_menu_item_variant(v.fx_parameter_menu_item)
    &&& is_sequencer_mode_variant(v.sequencer_mode)
    &&& is_pattern_mode_variant(v.pattern_mode)
    &&& is_sample_recorder_source_variant(v.sample_recorder_source)
    &&& is_sample_recorder_recording_length_variant(v.sample_recorder_recording_length)
}

/// The fresh state of a settings.
pub open spec fn settings_default() -> SettingsView {
    SettingsView {
        bpm: Num::Int(0),
        selected_track: 0,
        selected_page: 0,
        muted_sounds: Seq::new(12, |i: int| false),
        fixed_velocity_enable: false,
        fixed_velocity_amount: 0,
        sample_recorder_thr: 0,
        sample_recorder_monitor: false,
        parameter_menu_item: "trig"@,
        fx_parameter_menu_item: "trig"@,
        sequencer_mode: "normal"@,
        pattern_mode: "sequential"@,
        sample_recorder_source: "main"@,
        sample_recorder_recording_length: "max"@,
    }
}

/// How many slots the plain field has; 1 for an unslotted field.
pub open spec fn settings_field_slot_count(f: SettingsField) -> int {
    match f {
        SettingsField::BpmProject => 1,
        SettingsField::SelectedTrack => 1,
        SettingsField::SelectedPage => 1,
        SettingsField::Mute => 12,
        SettingsField::FixedVelocityEnable => 1,
        SettingsField::FixedVelocityAmount => 1,
        SettingsField::SampleRecorderThr => 1,
        SettingsField::SampleRecorderMonitor => 1,
    }
}

/// Executable slot count of a plain field.
pub fn settings_slot_count(f: SettingsField) -> (r: usize)
    ensures
        r as int == settings_field_slot_count(f),
{
    match f {
        SettingsField::BpmProject => 1,
        SettingsField::SelectedTrack => 1,
        SettingsField::SelectedPage => 1,
        SettingsField::Mute => 12,
        SettingsField::FixedVelocityEnable => 1,
        SettingsField::FixedVelocityAmount => 1,
        SettingsField::SampleRecorderThr => 1,
        SettingsField::SampleRecorderMonitor => 1,
    }
}

/// Whether a write to the field marks the slot given by its parameter.
pub open spec fn settings_field_is_mark(f: SettingsField) -> bool {
    match f {
        SettingsField::BpmProject => false,
        SettingsField::SelectedTrack => false,
        SettingsField::SelectedPage => false,
        SettingsField::Mute => true,
        SettingsField::FixedVelocityEnable => false,
        SettingsField::FixedVelocityAmount => false,
        SettingsField::SampleRecorderThr => false,
        SettingsField::SampleRecorderMonitor => false,
    }
}

/// Executable form of the marking check.
pub fn settings_is_mark(f: SettingsField) -> (r: bool)
    ensures
        r == settings_field_is_mark(f),
{
    match f {
        SettingsField::BpmProject => false,
        SettingsField::SelectedTrack => false,
        SettingsField::SelectedPage => false,
        SettingsField::Mute => true,
        SettingsField::FixedVelocityEnable => false,
        SettingsField::FixedVelocityAmount => false,
        SettingsField::SampleRecorderThr => false,
        SettingsField::SampleRecorderMonitor => false,
    }
}

/// Whether the plain field accepts a write; the rest are read-only.
pub open spec fn settings_field_settable(f: SettingsField) -> bool {
    match f {
        SettingsField::BpmProject => true,
        SettingsField::SelectedTrack => true,
        SettingsField::SelectedPage => true,
        SettingsField::Mute => true,
        SettingsField::FixedVelocityEnable => true,
        SettingsField::FixedVelocityAmount => true,
        SettingsField::SampleRecorderThr => true,
        SettingsField::SampleRecorderMonitor => true,
    }
}

/// The value the plain field reads back as, echoed as a token.
pub open spec fn settings_get_spec(v: SettingsView, f: SettingsField, slot: int) -> TokenV {
    match f {
        SettingsField::BpmProject => num_token(v.bpm),
        SettingsField::SelectedTrack => TokenV::Int(v.selected_track),
        SettingsField::SelectedPage => TokenV::Int(v.selected_page),
        SettingsField::Mute => bool01_token(v.muted_sounds[slot]),
        SettingsField::FixedVelocityEnable => bool01_token(v.fixed_velocity_enable),
        SettingsField::FixedVelocityAmount => TokenV::Int(v.fixed_velocity_amount),
        SettingsField::SampleRecorderThr => TokenV::Int(v.sample_recorder_thr),
        SettingsField::SampleRecorderMonitor => bool01_token(v.sample_recorder_monitor),
    }
}

/// The state a write to the plain field produces, if its parameter
/// token coerces; read-only fields and failed coercions produce nothing.
pub open spec fn settings_set_spec(v: SettingsView, f: SettingsField, slot: int, t: TokenV) -> Option<SettingsView> {
    match f {
        SettingsField::BpmProject => match token_num(t) {
            Some(n) => Some(SettingsView { bpm: n, ..v }),
            None => None,
        },
        SettingsField::SelectedTrack => match token_int(t) {
            Some(i) => Some(SettingsView { selected_track: i, ..v }),
            None => None,
        },
        SettingsField::SelectedPage => match token_int(t) {
            Some(i) => Some(SettingsView { selected_page: i, ..v }),
            None => None,
        },
        SettingsField::Mute => Some(SettingsView { muted_sounds: v.muted_sounds.update(slot, true), ..v }),
        SettingsField::FixedVelocityEnable => match token_bool01(t) {
            Some(b) => Some(SettingsView { fixed_velocity_enable: b, ..v }),
            None => None,
        },
        SettingsField::FixedVelocityAmount => match token_int(t) {
            Some(i) => Some(SettingsView { fixed_velocity_amount: i, ..v }),
            None => None,
        },
        SettingsField::SampleRecorderThr => match token_int(t) {
            Some(i) => Some(SettingsView { sample_recorder_thr: i, ..v }),
            None => None,
        },
        SettingsField::SampleRecorderMonitor => match token_bool01(t) {
            Some(b) => Some(SettingsView { sample_recorder_monitor: b, ..v }),
            None => None,
        },
    }
}

/// How many slots the enumerated type has; 1 for an unslotted type.
pub open spec fn settings_enum_slot_count(t: SettingsEnumType) -> int {
    match t {
        SettingsEnumType::ParameterMenuItem => 1,
        SettingsEnumType::FxParameterMenuItem => 1,
        SettingsEnumType::SequencerMode => 1,
        SettingsEnumType::PatternMode => 1,
        SettingsEnumType::SampleRecorderSource => 1,
        SettingsEnumType::SampleRecorderRecordingLength => 1,
    }
}

/// Executable slot count of an enumerated type.
pub fn settings_enum_slots(t: SettingsEnumType) -> (r: usize)
    ensures
        r as int == settings_enum_slot_count(t),
{
    match t {
        SettingsEnumType::ParameterMenuItem => 1,
        SettingsEnumType::FxParameterMenuItem => 1,
        SettingsEnumType::SequencerMode => 1,
        SettingsEnumType::PatternMode => 1,
        SettingsEnumType::SampleRecorderSource => 1,
        SettingsEnumType::SampleRecorderRecordingLength => 1,
    }
}

/// The stored variant of the enumerated type.
pub open spec fn settings_enum_value(v: SettingsView, t: SettingsEnumType, slot: int) -> Seq<char> {
    match t {
        SettingsEnumType::ParameterMenuItem => v.parameter_menu_item,
        SettingsEnumType::FxParameterMenuItem => v.fx_parameter_menu_item,
        SettingsEnumType::SequencerMode => v.sequencer_mode,
        SettingsEnumType::PatternMode => v.pattern_mode,
        SettingsEnumType::SampleRecorderSource => v.sample_recorder_source,
        SettingsEnumType::SampleRecorderRecordingLength => v.sample_recorder_recording_length,
    }
}

/// Whether the symbol is a variant of the enumerated type's domain.
pub open spec fn settings_enum_variant_ok(t: SettingsEnumType, s: Seq<char>) -> bool {
    match t {
        SettingsEnumType::ParameterMenuItem => is_parameter_menu_item_variant(s),
        SettingsEnumType::FxParameterMenuItem => is_fx_parameter_menu_item_variant(s),
        SettingsEnumType::SequencerMode => is_sequencer_mode_variant(s),
        SettingsEnumType::PatternMode => is_pattern_mode_variant(s),
        SettingsEnumType::SampleRecorderSource => is_sample_recorder_source_variant(s),
        SettingsEnumType::SampleRecorderRecordingLength => is_sample_recorder_recording_length_variant(s),
    }
}

/// The state a write to the enumerated type produces, if the variant
/// belongs to its domain.
pub open spec fn settings_set_enum_spec(v: SettingsView, t: SettingsEnumType, slot: int, s: Seq<char>) -> Option<
    SettingsView,
> {
    if settings_enum_variant_ok(t, s) {
        Some(
            match t {
                SettingsEnumType::ParameterMenuItem => SettingsView { parameter_menu_item: s, ..v },
                SettingsEnumType::FxParameterMenuItem => SettingsView { fx_parameter_menu_item: s, ..v },
                SettingsEnumType::SequencerMode => SettingsView { sequencer_mode: s, ..v },
                SettingsEnumType::PatternMode => SettingsView { pattern_mode: s, ..v },
                SettingsEnumType::SampleRecorderSource => SettingsView { sample_recorder_source: s, ..v },
                SettingsEnumType::SampleRecorderRecordingLength => SettingsView { sample_recorder_recording_length: s, ..v },
            },
        )
    } else {
        None
    }
}

impl Settings {
    /// Well-formedness of the object and everything it owns.
    pub open spec fn wf(&self) -> bool {
        &&& settings_view_wf(self@)
    }

    /// A fresh settings.
    pub fn new() -> (r: Settings)
        ensures
            r.wf(),
            r@ =~~= settings_default(),
    {
        proof {
            reveal(is_parameter_menu_item_variant);
            reveal(is_fx_parameter_menu_item_variant);
            reveal(is_sequencer_mode_variant);
            reveal(is_pattern_mode_variant);
            reveal(is_sample_recorder_source_variant);
            reveal(is_sample_recorder_recording_length_variant);
        }
        Settings {
            bpm: Num::Int(0),
            selected_track: 0,
            selected_page: 0,
            muted_sounds: crate::seed::filled_bools(12),
            fixed_velocity_enable: false,
            fixed_velocity_amount: 0,
            sample_recorder_thr: 0,
            sample_recorder_monitor: false,
            parameter_menu_item: "trig".to_owned(),
            fx_parameter_menu_item: "trig".to_owned(),
            sequencer_mode: "normal".to_owned(),
            pattern_mode: "sequential".to_owned(),
            sample_recorder_source: "main".to_owned(),
            sample_recorder_recording_length: "max".to_owned(),
        }
    }

    /// Reads the plain field, echoing its value as a token.
    pub fn get_field(&self, f: SettingsField, slot: usize) -> (r: Token)
        requires
            self.wf(),
            0 <= slot < settings_field_slot_count(f),
        ensures
            r@ == settings_get_spec(self@, f, slot as int),
    {
        match f {
            SettingsField::BpmProject => num_to_token(self.bpm),
            SettingsField::SelectedTrack => Token::Int(self.selected_track),
            SettingsField::SelectedPage => Token::Int(self.selected_page),
            SettingsField::Mute => bool01_to_token(self.muted_sounds[slot]),
            SettingsField::FixedVelocityEnable => bool01_to_token(self.fixed_velocity_enable),
            SettingsField::FixedVelocityAmount => Token::Int(self.fixed_velocity_amount),
            SettingsField::SampleRecorderThr => Token::Int(self.sample_recorder_thr),
            SettingsField::SampleRecorderMonitor => bool01_to_token(self.sample_recorder_monitor),
        }
    }

    /// Writes the plain field from a parameter token, coercing per the
    /// field's kind; returns whether the write applied.
    pub fn set_field(&mut self, f: SettingsField, slot: usize, t: &Token) -> (r: bool)
        requires
            old(self).wf(),
            0 <= slot < settings_field_slot_count(f),
        ensures
            final(self).wf(),
            match settings_set_spec(old(self)@, f, slot as int, t@) {
                Some(v2) => r == true && final(self)@ =~~= v2,
                None => r == false && final(self)@ =~~= old(self)@,
            },
    {
        match f {
            SettingsField::BpmProject => match coerce_num(t) {
                Some(n) => {
                    self.bpm = n;
                    true
                },
                None => false,
            },
            SettingsField::SelectedTrack => match coerce_int(t) {
                Some(i) => {
                    self.selected_track = i;
                    true
                },
                None => false,
            },
            SettingsField::SelectedPage => match coerce_int(t) {
                Some(i) => {
                    self.selected_page = i;
                    true
                },
                None => false,
            },
            SettingsField::Mute => {
                self.muted_sounds.set(slot, true);
                true
            },
            SettingsField::FixedVelocityEnable => match coerce_bool01(t) {
                Some(b) => {
                    self.fixed_velocity_enable = b;
                    true
                },
                None => false,
            },
            SettingsField::FixedVelocityAmount => match coerce_int(t) {
                Some(i) => {
                    self.fixed_velocity_amount = i;
                    true
                },
                None => false,
            },
            SettingsField::SampleRecorderThr => match coerce_int(t) {
                Some(i) => {
                    self.sample_recorder_thr = i;
                    true
                },
                None => false,
            },
            SettingsField::SampleRecorderMonitor => match coerce_bool01(t) {
                Some(b) => {
                    self.sample_recorder_monitor = b;
                    true
                },
                None => false,
            },
        }
    }

    /// Reads the stored variant of the enumerated type.
    pub fn get_enum(&self, t: SettingsEnumType, slot: usize) -> (r: String)
        requires
            self.wf(),
            0 <= slot < settings_enum_slot_count(t),
        ensures
            r@ == settings_enum_value(self@, t, slot as int),
            settings_enum_variant_ok(t, r@),
    {
        match t {
            SettingsEnumType::ParameterMenuItem => self.parameter_menu_item.clone(),
            SettingsEnumType::FxParameterMenuItem => self.fx_parameter_menu_item.clone(),
            SettingsEnumType::SequencerMode => self.sequencer_mode.clone(),
            SettingsEnumType::PatternMode => self.pattern_mode.clone(),
            SettingsEnumType::SampleRecorderSource => self.sample_recorder_source.clone(),
            SettingsEnumType::SampleRecorderRecordingLength => self.sample_recorder_recording_length.clone(),
        }
    }

    /// Writes the enumerated type from a variant symbol, validating it
    /// against the type's domain; returns whether the write applied.
    pub fn set_enum(&mut self, t: SettingsEnumType, slot: usize, s: &String) -> (r: bool)
        requires
            old(self).wf(),
            0 <= slot < settings_enum_slot_count(t),
        ensures
            final(self).wf(),
            match settings_set_enum_spec(old(self)@, t, slot as int, s@) {
                Some(v2) => r == true && final(self)@ =~~= v2,
                None => r == false && final(self)@ =~~= old(self)@,
            },
    {
        match t {
            SettingsEnumType::ParameterMenuItem => {
                if check_parameter_menu_item_variant(s) {
                    self.parameter_menu_item = s.clone();
                    true
                } else {
                    false
                }
            },
            SettingsEnumType::FxParameterMenuItem => {
                if check_fx_parameter_menu_item_variant(s) {
                    self.fx_parameter_menu_item = s.clone();
                    true
                } else {
                    false
                }
            },
            SettingsEnumType::SequencerMode => {
                if check_sequencer_mode_variant(s) {
                    self.sequencer_mode = s.clone();
                    true
                } else {
                    false
                }
            },
            SettingsEnumType::PatternMode => {
                if check_pattern_mode_variant(s) {
                    self.pattern_mode = s.clone();
                    true
                } else {
                    false
                }
            },
            SettingsEnumType::SampleRecorderSource => {
                if check_sample_recorder_source_variant(s) {
                    self.sample_recorder_source = s.clone();
                    true
                } else {
                    false
                }
            },
            SettingsEnumType::SampleRecorderRecordingLength => {
                if check_sample_recorder_recording_length_variant(s) {
                    self.sample_recorder_recording_length = s.clone();
                    true
                } else {
                    false
                }
            },
        }
    }

}

/// Read-after-write: a plain-field write that applies is read back exactly,
/// for every state, field, slot and parameter; slot-marking fields are the
/// one exception, for they take no value.
#[verifier::rlimit(100)]
pub proof fn lemma_settings_set_get(v: SettingsView, f: SettingsField, slot: int, t: TokenV)
    requires
        settings_view_wf(v),
        0 <= slot < settings_field_slot_count(f),
        !settings_field_is_mark(f),
        settings_set_spec(v, f, slot, t) is Some,
    ensures
        settings_get_spec(settings_set_spec(v, f, slot, t)->Some_0, f, slot) == t,
{
}

/// Read-after-write for enumerated identifiers: a variant write that
/// applies is read back exactly, for every state, type, slot and variant.
pub proof fn lemma_settings_enum_set_get(v: SettingsView, t: SettingsEnumType, slot: int, s: Seq<char>)
    requires
        settings_view_wf(v),
        0 <= slot < settings_enum_slot_count(t),
        settings_set_enum_spec(v, t, slot, s) is Some,
    ensures
        settings_enum_value(settings_set_enum_spec(v, t, slot, s)->Some_0, t, slot) == s,
{
}

impl DeepView for Settings {
    type V = SettingsView;

    open spec fn deep_view(&self) -> SettingsView {
        self.view()
    }
}

} // verus!
