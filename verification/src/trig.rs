//! One step of a track's sequence: its flags, note data, and the per-step
//! parameter-lock overrides.

use vstd::prelude::*;
#[allow(unused_imports)]
use vstd::pervasive::VecAdditionalExecFns;
use crate::fields::{TrigField, TrigEnumType};
#[allow(unused_imports)]
use crate::token::{bool01_to_token, bool01_token, coerce_bool01, coerce_int, coerce_num, num_to_token, num_token, token_bool01, token_int, token_num, Num, Token, TokenV};
#[allow(unused_imports)]
use crate::strutil::valid_name;
use crate::variants_seq::{check_length_variant, check_micro_time_variant, check_retrig_rate_variant, check_trig_condition_variant, is_length_variant, is_micro_time_variant, is_retrig_rate_variant, is_trig_condition_variant};
use crate::plock::{PlockKey, PlockTable, PlockValV};

verus! {

/// The trig model object.
pub struct Trig {
    pub enable: bool,
    pub retrig: bool,
    pub mute: bool,
    pub accent: bool,
    pub swing: bool,
    pub slide: bool,
    pub note: i64,
    pub velocity: i64,
    pub retrig_velocity_offset: i64,
    pub sound_lock: i64,
    pub micro_time: String,
    pub note_length: String,
    pub retrig_length: String,
    pub retrig_rate: String,
    pub trig_condition: String,
    pub index: u8,
    pub track_index: u8,
    pub plocks: PlockTable,
}

/// The mathematical view of a trig.
#[verifier::ext_equal]
pub ghost struct TrigView {
    pub enable: bool,
    pub retrig: bool,
    pub mute: bool,
    pub accent: bool,
    pub swing: bool,
    pub slide: bool,
    pub note: i64,
    pub velocity: i64,
    pub retrig_velocity_offset: i64,
    pub sound_lock: i64,
    pub micro_time: Seq<char>,
    pub note_length: Seq<char>,
    pub retrig_length: Seq<char>,
    pub retrig_rate: Seq<char>,
    pub trig_condition: Seq<char>,
    pub index: u8,
    pub track_index: u8,
    pub plocks: Map<PlockKey, PlockValV>,
}

impl View for Trig {
    type V = TrigView;

    open spec fn view(&self) -> TrigView {
        TrigView {
            enable: self.enable,
            retrig: self.retrig,
            mute: self.mute,
            accent: self.accent,
            swing: self.swing,
            slide: self.slide,
            note: self.note,
            velocity: self.velocity,
            retrig_velocity_offset: self.retrig_velocity_offset,
            sound_lock: self.sound_lock,
            micro_time: self.micro_time@,
            note_length: self.note_length@,
            retrig_length: self.retrig_length@,
            retrig_rate: self.retrig_rate@,
            trig_condition: self.trig_condition@,
            index: self.index,
            track_index: self.track_index,
            plocks: self.plocks@,
        }
    }
}

/// Well-formedness of a trig view: indices in range, vectors at their
/// fixed lengths, every enumerated field holding a variant of its domain.
pub open spec fn trig_view_wf(v: TrigView) -> bool {
    &&& is_micro_time_variant(v.micro_time)
    &&& is_length_variant(v.note_length)
    &&& is_length_variant(v.retrig_length)
    &&& is_retrig_rate_variant(v.retrig_rate)
    &&& is_trig_condition_variant(v.trig_condition)
}

/// The fresh state of a trig.
pub open spec fn trig_default(index: u8, track_index: u8) -> TrigView {
    TrigView {
        enable: false,
        retrig: false,
        mute: false,
        accent: false,
        swing: false,
        slide: false,
        note: 0,
        velocity: 0,
        retrig_velocity_offset: 0,
        sound_lock: 0,
        micro_time: "ongrid"@,
        note_length: "1/16"@,
        retrig_length: "1/16"@,
        retrig_rate: "1/16"@,
        trig_condition: "unset"@,
        index: index,
        track_index: track_index,
        plocks: Map::empty(),
    }
}

/// How many slots the plain field has; 1 for an unslotted field.
pub open spec fn trig_field_slot_count(f: TrigField) -> int {
    match f {
        TrigField::Enable => 1,
        TrigField::Retrig => 1,
        TrigField::Mute => 1,
        TrigField::Accent => 1,
        TrigField::Swing => 1,
        TrigField::Slide => 1,
        TrigField::Note => 1,
        TrigField::Velocity => 1,
        TrigField::RetrigVelOffset => 1,
        TrigField::SoundLock => 1,
    }
}

/// Executable slot count of a plain field.
pub fn trig_slot_count(f: TrigField) -> (r: usize)
    ensures
        r as int == trig_field_slot_count(f),
{
    match f {
        TrigField::Enable => 1,
        TrigField::Retrig => 1,
        TrigField::Mute => 1,
        TrigField::Accent => 1,
        TrigField::Swing => 1,
        TrigField::Slide => 1,
        TrigField::Note => 1,
        TrigField::Velocity => 1,
        TrigField::RetrigVelOffset => 1,
        TrigField::SoundLock => 1,
    }
}

/// Whether a write to the field marks the slot given by its parameter.
pub open spec fn trig_field_is_mark(f: TrigField) -> bool {
    match f {
        TrigField::Enable => false,
        TrigField::Retrig => false,
        TrigField::Mute => false,
        TrigField::Accent => false,
        TrigField::Swing => false,
        TrigField::Slide => false,
        TrigField::Note => false,
        TrigField::Velocity => false,
        TrigField::RetrigVelOffset => false,
        TrigField::SoundLock => false,
    }
}

/// Executable form of the marking check.
pub fn trig_is_mark(f: TrigField) -> (r: bool)
    ensures
        r == trig_field_is_mark(f),
{
    match f {
        TrigField::Enable => false,
        TrigField::Retrig => false,
        TrigField::Mute => false,
        TrigField::Accent => false,
        TrigField::Swing => false,
        TrigField::Slide => false,
        TrigField::Note => false,
        TrigField::Velocity => false,
        TrigField::RetrigVelOffset => false,
        TrigField::SoundLock => false,
    }
}

/// Whether the plain field accepts a write; the rest are read-only.
pub open spec fn trig_field_settable(f: TrigField) -> bool {
    match f {
        TrigField::Enable => true,
        TrigField::Retrig => true,
        TrigField::Mute => true,
        TrigField::Accent => true,
        TrigField::Swing => true,
        TrigField::Slide => true,
        TrigField::Note => true,
        TrigField::Velocity => true,
        TrigField::RetrigVelOffset => true,
        TrigField::SoundLock => true,
    }
}

/// The value the plain field reads back as, echoed as a token.
pub open spec fn trig_get_spec(v: TrigView, f: TrigField, slot: int) -> TokenV {
    match f {
        TrigField::Enable => bool01_token(v.enable),
        TrigField::Retrig => bool01_token(v.retrig),
        TrigField::Mute => bool01_token(v.mute),
        TrigField::Accent => bool01_token(v.accent),
        TrigField::Swing => bool01_token(v.swing),
        TrigField::Slide => bool01_token(v.slide),
        TrigField::Note => TokenV::Int(v.note),
        TrigField::Velocity => TokenV::Int(v.velocity),
        TrigField::RetrigVelOffset => TokenV::Int(v.retrig_velocity_offset),
        TrigField::SoundLock => TokenV::Int(v.sound_lock),
    }
}

/// The state a write to the plain field produces, if its parameter
/// token coerces; read-only fields and failed coercions produce nothing.
pub open spec fn trig_set_spec(v: TrigView, f: TrigField, slot: int, t: TokenV) -> Option<TrigView> {
    match f {
        TrigField::Enable => match token_bool01(t) {
            Some(b) => Some(TrigView { enable: b, ..v }),
            None => None,
        },
        TrigField::Retrig => match token_bool01(t) {
            Some(b) => Some(TrigView { retrig: b, ..v }),
            None => None,
        },
        TrigField::Mute => match token_bool01(t) {
            Some(b) => Some(TrigView { mute: b, ..v }),
            None => None,
        },
        TrigField::Accent => match token_bool01(t) {
            Some(b) => Some(TrigView { accent: b, ..v }),
            None => None,
        },
        TrigField::Swing => match token_bool01(t) {
            Some(b) => Some(TrigView { swing: b, ..v }),
            None => None,
        },
        TrigField::Slide => match token_bool01(t) {
            Some(b) => Some(TrigView { slide: b, ..v }),
            None => None,
        },
        TrigField::Note => match token_int(t) {
            Some(i) => Some(TrigView { note: i, ..v }),
            None => None,
        },
        TrigField::Velocity => match token_int(t) {
            Some(i) => Some(TrigView { velocity: i, ..v }),
            None => None,
        },
        TrigField::RetrigVelOffset => match token_int(t) {
            Some(i) => Some(TrigView { retrig_velocity_offset: i, ..v }),
            None => None,
        },
        TrigField::SoundLock => match token_int(t) {
            Some(i) => Some(TrigView { sound_lock: i, ..v }),
            None => None,
        },
    }
}

/// How many slots the enumerated type has; 1 for an unslotted type.
pub open spec fn trig_enum_slot_count(t: TrigEnumType) -> int {
    match t {
        TrigEnumType::MicroTime => 1,
        TrigEnumType::NoteLength => 1,
        TrigEnumType::RetrigLength => 1,
        TrigEnumType::RetrigRate => 1,
        TrigEnumType::TrigCondition => 1,
    }
}

/// Executable slot count of an enumerated type.
pub fn trig_enum_slots(t: TrigEnumType) -> (r: usize)
    ensures
        r as int == trig_enum_slot_count(t),
{
    match t {
        TrigEnumType::MicroTime => 1,
        TrigEnumType::NoteLength => 1,
        TrigEnumType::RetrigLength => 1,
        TrigEnumType::RetrigRate => 1,
        TrigEnumType::TrigCondition => 1,
    }
}

/// The stored variant of the enumerated type.
pub open spec fn trig_enum_value(v: TrigView, t: TrigEnumType, slot: int) -> Seq<char> {
    match t {
        TrigEnumType::MicroTime => v.micro_time,
        TrigEnumType::NoteLength => v.note_length,
        TrigEnumType::RetrigLength => v.retrig_length,
        TrigEnumType::RetrigRate => v.retrig_rate,
        TrigEnumType::TrigCondition => v.trig_condition,
    }
}

/// Whether the symbol is a variant of the enumerated type's domain.
pub open spec fn trig_enum_variant_ok(t: TrigEnumType, s: Seq<char>) -> bool {
    match t {
        TrigEnumType::MicroTime => is_micro_time_variant(s),
        TrigEnumType::NoteLength => is_length_variant(s),
        TrigEnumType::RetrigLength => is_length_variant(s),
        TrigEnumType::RetrigRate => is_retrig_rate_variant(s),
        TrigEnumType::TrigCondition => is_trig_condition_variant(s),
    }
}

/// The state a write to the enumerated type produces, if the variant
/// belongs to its domain.
pub open spec fn trig_set_enum_spec(v: TrigView, t: TrigEnumType, slot: int, s: Seq<char>) -> Option<
    TrigView,
> {
    if trig_enum_variant_ok(t, s) {
        Some(
            match t {
                TrigEnumType::MicroTime => TrigView { micro_time: s, ..v },
                TrigEnumType::NoteLength => TrigView { note_length: s, ..v },
                TrigEnumType::RetrigLength => TrigView { retrig_length: s, ..v },
                TrigEnumType::RetrigRate => TrigView { retrig_rate: s, ..v },
                TrigEnumType::TrigCondition => TrigView { trig_condition: s, ..v },
            },
        )
    } else {
        None
    }
}

impl Trig {
    /// Well-formedness of the object and everything it owns.
    pub open spec fn wf(&self) -> bool {
        &&& trig_view_wf(self@)
        &&& self.plocks.wf()
    }

    /// A fresh trig.
    pub fn new(index: u8, track_index: u8) -> (r: Trig)
        ensures
            r.wf(),
            r@ =~~= trig_default(index, track_index),
    {
        proof {
            reveal(is_micro_time_variant);
            reveal(is_length_variant);
            reveal(is_retrig_rate_variant);
            reveal(is_trig_condition_variant);
        }
        Trig {
            index,
            track_index,
            enable: false,
            retrig: false,
            mute: false,
            accent: false,
            swing: false,
            slide: false,
            note: 0,
            velocity: 0,
            retrig_velocity_offset: 0,
            sound_lock: 0,
            micro_time: "ongrid".to_owned(),
            note_length: "1/16".to_owned(),
            retrig_length: "1/16".to_owned(),
            retrig_rate: "1/16".to_owned(),
            trig_condition: "unset".to_owned(),
            plocks: PlockTable::empty(),
        }
    }

    /// Reads the plain field, echoing its value as a token.
    pub fn get_field(&self, f: TrigField, slot: usize) -> (r: Token)
        requires
            self.wf(),
            0 <= slot < trig_field_slot_count(f),
        ensures
            r@ == trig_get_spec(self@, f, slot as int),
    {
        match f {
            TrigField::Enable => bool01_to_token(self.enable),
            TrigField::Retrig => bool01_to_token(self.retrig),
            TrigField::Mute => bool01_to_token(self.mute),
            TrigField::Accent => bool01_to_token(self.accent),
            TrigField::Swing => bool01_to_token(self.swing),
            TrigField::Slide => bool01_to_token(self.slide),
            TrigField::Note => Token::Int(self.note),
            TrigField::Velocity => Token::Int(self.velocity),
            TrigField::RetrigVelOffset => Token::Int(self.retrig_velocity_offset),
            TrigField::SoundLock => Token::Int(self.sound_lock),
        }
    }

    /// Writes the plain field from a parameter token, coercing per the
    /// field's kind; returns whether the write applied.
    pub fn set_field(&mut self, f: TrigField, slot: usize, t: &Token) -> (r: bool)
        requires
            old(self).wf(),
            0 <= slot < trig_field_slot_count(f),
        ensures
            final(self).wf(),
            match trig_set_spec(old(self)@, f, slot as int, t@) {
                Some(v2) => r == true && final(self)@ =~~= v2,
                None => r == false && final(self)@ =~~= old(self)@,
            },
    {
        match f {
            TrigField::Enable => match coerce_bool01(t) {
                Some(b) => {
                    self.enable = b;
                    true
                },
                None => false,
            },
            TrigField::Retrig => match coerce_bool01(t) {
                Some(b) => {
                    self.retrig = b;
                    true
                },
                None => false,
            },
            TrigField::Mute => match coerce_bool01(t) {
                Some(b) => {
                    self.mute = b;
                    true
                },
                None => false,
            },
            TrigField::Accent => match coerce_bool01(t) {
                Some(b) => {
                    self.accent = b;
                    true
                },
                None => false,
            },
            TrigField::Swing => match coerce_bool01(t) {
                Some(b) => {
                    self.swing = b;
                    true
                },
                None => false,
            },
            TrigField::Slide => match coerce_bool01(t) {
                Some(b) => {
                    self.slide = b;
                    true
                },
                None => false,
            },
            TrigField::Note => match coerce_int(t) {
                Some(i) => {
                    self.note = i;
                    true
                },
                None => false,
            },
            TrigField::Velocity => match coerce_int(t) {
                Some(i) => {
                    self.velocity = i;
                    true
                },
                None => false,
            },
            TrigField::RetrigVelOffset => match coerce_int(t) {
                Some(i) => {
                    self.retrig_velocity_offset = i;
                    true
                },
                None => false,
            },
            TrigField::SoundLock => match coerce_int(t) {
                Some(i) => {
                    self.sound_lock = i;
                    true
                },
                None => false,
            },
        }
    }

    /// Reads the stored variant of the enumerated type.
    pub fn get_enum(&self, t: TrigEnumType, slot: usize) -> (r: String)
        requires
            self.wf(),
            0 <= slot < trig_enum_slot_count(t),
        ensures
            r@ == trig_enum_value(self@, t, slot as int),
            trig_enum_variant_ok(t, r@),
    {
        match t {
            TrigEnumType::MicroTime => self.micro_time.clone(),
            TrigEnumType::NoteLength => self.note_length.clone(),
            TrigEnumType::RetrigLength => self.retrig_length.clone(),
            TrigEnumType::RetrigRate => self.retrig_rate.clone(),
            TrigEnumType::TrigCondition => self.trig_condition.clone(),
        }
    }

    /// Writes the enumerated type from a variant symbol, validating it
    /// against the type's domain; returns whether the write applied.
    pub fn set_enum(&mut self, t: TrigEnumType, slot: usize, s: &String) -> (r: bool)
        requires
            old(self).wf(),
            0 <= slot < trig_enum_slot_count(t),
        ensures
            final(self).wf(),
            match trig_set_enum_spec(old(self)@, t, slot as int, s@) {
                Some(v2) => r == true && final(self)@ =~~= v2,
                None => r == false && final(self)@ =~~= old(self)@,
            },
    {
        match t {
            TrigEnumType::MicroTime => {
                if check_micro_time_variant(s) {
                    self.micro_time = s.clone();
                    true
                } else {
                    false
                }
            },
            TrigEnumType::NoteLength => {
                if check_length_variant(s) {
                    self.note_length = s.clone();
                    true
                } else {
                    false
                }
            },
            TrigEnumType::RetrigLength => {
                if check_length_variant(s) {
                    self.retrig_length = s.clone();
                    true
                } else {
                    false
                }
            },
            TrigEnumType::RetrigRate => {
                if check_retrig_rate_variant(s) {
                    self.retrig_rate = s.clone();
                    true
                } else {
                    false
                }
            },
            TrigEnumType::TrigCondition => {
                if check_trig_condition_variant(s) {
                    self.trig_condition = s.clone();
                    true
                } else {
                    false
                }
            },
        }
    }

}

/// Read-after-write: a plain-field write that applies is read back exactly,
/// for every state, field, slot and parameter; slot-marking fields are the
/// one exception, for they take no value.
#[verifier::rlimit(100)]
pub proof fn lemma_trig_set_get(v: TrigView, f: TrigField, slot: int, t: TokenV)
    requires
        trig_view_wf(v),
        0 <= slot < trig_field_slot_count(f),
        !trig_field_is_mark(f),
        trig_set_spec(v, f, slot, t) is Some,
    ensures
        trig_get_spec(trig_set_spec(v, f, slot, t)->Some_0, f, slot) == t,
{
}

/// Read-after-write for enumerated identifiers: a variant write that
/// applies is read back exactly, for every state, type, slot and variant.
pub proof fn lemma_trig_enum_set_get(v: TrigView, t: TrigEnumType, slot: int, s: Seq<char>)
    requires
        trig_view_wf(v),
        0 <= slot < trig_enum_slot_count(t),
        trig_set_enum_spec(v, t, slot, s) is Some,
    ensures
        trig_enum_value(trig_set_enum_spec(v, t, slot, s)->Some_0, t, slot) == s,
{
}

impl Trig {
    /// Reads the parameter lock under the key as the token it echoes, or
    /// reports it unset; an unset lock is a normal outcome, never an error.
    pub fn plock_read(&self, k: PlockKey) -> (r: Option<Token>)
        requires
            self.wf(),
        ensures
            match r {
                Some(t) => self@.plocks.contains_key(k) && t@ == crate::plock::plock_val_token(
                    self@.plocks[k],
                ),
                None => !self@.plocks.contains_key(k),
            },
    {
        self.plocks.read(k)
    }

    /// Sets the parameter lock under the key, overwriting any earlier value.
    pub fn plock_write(&mut self, k: PlockKey, v: crate::plock::PlockVal)
        requires
            old(self).wf(),
        ensures
            final(self).wf(),
            final(self)@ =~~= (TrigView { plocks: old(self)@.plocks.insert(k, v@), ..old(self)@ }),
    {
        self.plocks.write(k, v)
    }

    /// Clears the parameter lock under the key; clearing an unset lock is
    /// not an error and changes nothing.
    pub fn plock_clear(&mut self, k: PlockKey)
        requires
            old(self).wf(),
        ensures
            final(self).wf(),
            final(self)@ =~~= (TrigView { plocks: old(self)@.plocks.remove(k), ..old(self)@ }),
    {
        self.plocks.clear(k)
    }
}

impl DeepView for Trig {
    type V = TrigView;

    open spec fn deep_view(&self) -> TrigView {
        self.view()
    }
}

} // verus!
