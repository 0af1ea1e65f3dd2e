//! A pattern: its own playback parameters and its 13 tracks.

use vstd::prelude::*;
#[allow(unused_imports)]
use vstd::pervasive::VecAdditionalExecFns;
use crate::fields::{PatternField, PatternEnumType};
#[allow(unused_imports)]
use crate::token::{bool01_to_token, bool01_token, coerce_bool01, coerce_int, coerce_num, num_to_token, num_token, token_bool01, token_int, token_num, Num, Token, TokenV};
#[allow(unused_imports)]
use crate::strutil::valid_name;
use crate::variants_seq::{check_speed_variant, check_time_mode_variant, is_speed_variant, is_time_mode_variant};
use crate::track::{Track, TrackView};

verus! {

/// The pattern model object.
pub struct Pattern {
    pub is_work_buffer: bool,
    pub version: i64,
    pub index: u8,
    pub master_length: i64,
    pub master_change: i64,
    pub kit_number: i64,
    pub swing_amount: i64,
    pub global_quantize: i64,
    pub bpm: Num,
    pub speed: String,
    pub time_mode: String,
    pub tracks: Vec<Track>,
}

/// The mathematical view of a pattern.
#[verifier::ext_equal]
pub ghost struct PatternView {
    pub is_work_buffer: bool,
    pub version: i64,
    pub index: u8,
    pub master_length: i64,
    pub master_change: i64,
    pub kit_number: i64,
    pub swing_amount: i64,
    pub global_quantize: i64,
    pub bpm: Num,
    pub speed: Seq<char>,
    pub time_mode: Seq<char>,
    pub tracks: Seq<TrackView>,
}

impl View for Pattern {
    type V = PatternView;

    open spec fn view(&self) -> PatternView {
        PatternView {
            is_work_buffer: self.is_work_buffer,
            version: self.version,
            index: self.index,
            master_length: self.master_length,
            master_change: self.master_change,
            kit_number: self.kit_number,
            swing_amount: self.swing_amount,
            global_quantize: self.global_quantize,
            bpm: self.bpm,
            speed: self.speed@,
            time_mode: self.time_mode@,
            tracks: self.tracks.deep_view(),
        }
    }
}

/// Well-formedness of a pattern view: indices in range, vectors at their
/// fixed lengths, every enumerated field holding a variant of its domain.
pub open spec fn pattern_view_wf(v: PatternView) -> bool {
    &&& is_speed_variant(v.speed)
    &&& is_time_mode_variant(v.time_mode)
    &&& v.tracks.len() == 13
}

/// The fresh state of a pattern.
pub open spec fn pattern_default(index: u8, wb: bool) -> PatternView {
    PatternView {
        is_work_buffer: wb,
        version: 0,
        index: index,
        master_length: 0,
        master_change: 0,
        kit_number: 0,
        swing_amount: 0,
        global_quantize: 0,
        bpm: Num::Int(0),
        speed: "1x"@,
        time_mode: "normal"@,
        tracks: Seq::new(13, |j: int| crate::track::track_default(j as u8, index)),
    }
}

/// How many slots the plain field has; 1 for an unslotted field.
pub open spec fn pattern_field_slot_count(f: PatternField) -> int {
    match f {
        PatternField::IsWb => 1,
        PatternField::Version => 1,
        PatternField::Index => 1,
        PatternField::MasterLength => 1,
        PatternField::MasterChange => 1,
        PatternField::KitNumber => 1,
        PatternField::SwingAmount => 1,
        PatternField::GlobalQuantize => 1,
        PatternField::Bpm => 1,
    }
}

/// Executable slot count of a plain field.
pub fn pattern_slot_count(f: PatternField) -> (r: usize)
    ensures
        r as int == pattern_field_slot_count(f),
{
    match f {
        PatternField::IsWb => 1,
        PatternField::Version => 1,
        PatternField::Index => 1,
        PatternField::MasterLength => 1,
        PatternField::MasterChange => 1,
        PatternField::KitNumber => 1,
        PatternField::SwingAmount => 1,
        PatternField::GlobalQuantize => 1,
        PatternField::Bpm => 1,
    }
}

/// Whether a write to the field marks the slot given by its parameter.
pub open spec fn pattern_field_is_mark(f: PatternField) -> bool {
    match f {
        PatternField::IsWb => false,
        PatternField::Version => false,
        PatternField::Index => false,
        PatternField::MasterLength => false,
        PatternField::MasterChange => false,
        PatternField::KitNumber => false,
        PatternField::SwingAmount => false,
        PatternField::GlobalQuantize => false,
        PatternField::Bpm => false,
    }
}

/// Executable form of the marking check.
pub fn pattern_is_mark(f: PatternField) -> (r: bool)
    ensures
        r == pattern_field_is_mark(f),
{
    match f {
        PatternField::IsWb => false,
        PatternField::Version => false,
        PatternField::Index => false,
        PatternField::MasterLength => false,
        PatternField::MasterChange => false,
        PatternField::KitNumber => false,
        PatternField::SwingAmount => false,
        PatternField::GlobalQuantize => false,
        PatternField::Bpm => false,
    }
}

/// Whether the plain field accepts a write; the rest are read-only.
pub open spec fn pattern_field_settable(f: PatternField) -> bool {
    match f {
        PatternField::IsWb => false,
        PatternField::Version => false,
        PatternField::Index => false,
        PatternField::MasterLength => true,
        PatternField::MasterChange => true,
        PatternField::KitNumber => true,
        PatternField::SwingAmount => true,
        PatternField::GlobalQuantize => true,
        PatternField::Bpm => true,
    }
}

/// The value the plain field reads back as, echoed as a token.
pub open spec fn pattern_get_spec(v: PatternView, f: PatternField, slot: int) -> TokenV {
    match f {
        PatternField::IsWb => bool01_token(v.is_work_buffer),
        PatternField::Version => TokenV::Int(v.version),
        PatternField::Index => TokenV::Int(v.index as i64),
        PatternField::MasterLength => TokenV::Int(v.master_length),
        PatternField::MasterChange => TokenV::Int(v.master_change),
        PatternField::KitNumber => TokenV::Int(v.kit_number),
        PatternField::SwingAmount => TokenV::Int(v.swing_amount),
        PatternField::GlobalQuantize => TokenV::Int(v.global_quantize),
        PatternField::Bpm => num_token(v.bpm),
    }
}

/// The state a write to the plain field produces, if its parameter
/// token coerces; read-only fields and failed coercions produce nothing.
pub open spec fn pattern_set_spec(v: PatternView, f: PatternField, slot: int, t: TokenV) -> Option<PatternView> {
    match f {
        PatternField::IsWb => None,
        PatternField::Version => None,
        PatternField::Index => None,
        PatternField::MasterLength => match token_int(t) {
            Some(i) => Some(PatternView { master_length: i, ..v }),
            None => None,
        },
        PatternField::MasterChange => match token_int(t) {
            Some(i) => Some(PatternView { master_change: i, ..v }),
            None => None,
        },
        PatternField::KitNumber => match token_int(t) {
            Some(i) => Some(PatternView { kit_number: i, ..v }),
            None => None,
        },
        PatternField::SwingAmount => match token_int(t) {
            Some(i) => Some(PatternView { swing_amount: i, ..v }),
            None => None,
        },
        PatternField::GlobalQuantize => match token_int(t) {
            Some(i) => Some(PatternView { global_quantize: i, ..v }),
            None => None,
        },
        PatternField::Bpm => match token_num(t) {
            Some(n) => Some(PatternView { bpm: n, ..v }),
            None => None,
        },
    }
}

/// How many slots the enumerated type has; 1 for an unslotted type.
pub open spec fn pattern_enum_slot_count(t: PatternEnumType) -> int {
    match t {
        PatternEnumType::Speed => 1,
        PatternEnumType::TimeMode => 1,
    }
}

/// Executable slot count of an enumerated type.
pub fn pattern_enum_slots(t: PatternEnumType) -> (r: usize)
    ensures
        r as int == pattern_enum_slot_count(t),
{
    match t {
        PatternEnumType::Speed => 1,
        PatternEnumType::TimeMode => 1,
    }
}

/// The stored variant of the enumerated type.
pub open spec fn pattern_enum_value(v: PatternView, t: PatternEnumType, slot: int) -> Seq<char> {
    match t {
        PatternEnumType::Speed => v.speed,
        PatternEnumType::TimeMode => v.time_mode,
    }
}

/// Whether the symbol is a variant of the enumerated type's domain.
pub open spec fn pattern_enum_variant_ok(t: PatternEnumType, s: Seq<char>) -> bool {
    match t {
        PatternEnumType::Speed => is_speed_variant(s),
        PatternEnumType::TimeMode => is_time_mode_variant(s),
    }
}

/// The state a write to the enumerated type produces, if the variant
/// belongs to its domain.
pub open spec fn pattern_set_enum_spec(v: PatternView, t: PatternEnumType, slot: int, s: Seq<char>) -> Option<
    PatternView,
> {
    if pattern_enum_variant_ok(t, s) {
        Some(
            match t {
                PatternEnumType::Speed => PatternView { speed: s, ..v },
                PatternEnumType::TimeMode => PatternView { time_mode: s, ..v },
            },
        )
    } else {
        None
    }
}

impl Pattern {
    /// Well-formedness of the object and everything it owns.
    pub open spec fn wf(&self) -> bool {
        &&& pattern_view_wf(self@)
        &&& (forall|i: int| 0 <= i < self.tracks@.len() ==> (#[trigger] self.tracks@[i]).wf())
    }

    /// A fresh pattern.
    pub fn new(index: u8, wb: bool) -> (r: Pattern)
        ensures
            r.wf(),
            r@ =~~= pattern_default(index, wb),
    {
        proof {
            reveal(is_speed_variant);
            reveal(is_time_mode_variant);
        }
        let mut items: Vec<Track> = Vec::new();
        let mut i: usize = 0;
        while i < 13
            invariant
                0 <= i <= 13,
                items@.len() == i,
                forall|j: int| 0 <= j < i ==> (#[trigger] items@[j]).wf(),
                forall|j: int| 0 <= j < i ==> (#[trigger] items@[j])@ =~~= crate::track::track_default(j as u8, index),
            decreases 13 - i,
        {
            items.push(Track::new(i as u8, index));
            i = i + 1;
        }
        proof {
            assert(items.deep_view() =~~= Seq::new(13, |j: int| crate::track::track_default(j as u8, index))) by {
                assert forall|j: int| 0 <= j < 13 implies #[trigger] items.deep_view()[j] =~~= crate::track::track_default(j as u8, index) by {
                    assert(items@[j]@ =~~= crate::track::track_default(j as u8, index));
                }
            }
        }
        Pattern {
            is_work_buffer: wb,
            version: 0,
            index,
            master_length: 0,
            master_change: 0,
            kit_number: 0,
            swing_amount: 0,
            global_quantize: 0,
            bpm: Num::Int(0),
            speed: "1x".to_owned(),
            time_mode: "normal".to_owned(),
            tracks: items,
        }
    }

    /// Reads the plain field, echoing its value as a token.
    pub fn get_field(&self, f: PatternField, slot: usize) -> (r: Token)
        requires
            self.wf(),
            0 <= slot < pattern_field_slot_count(f),
        ensures
            r@ == pattern_get_spec(self@, f, slot as int),
    {
        match f {
            PatternField::IsWb => bool01_to_token(self.is_work_buffer),
            PatternField::Version => Token::Int(self.version),
            PatternField::Index => Token::Int(self.index as i64),
            PatternField::MasterLength => Token::Int(self.master_length),
            PatternField::MasterChange => Token::Int(self.master_change),
            PatternField::KitNumber => Token::Int(self.kit_number),
            PatternField::SwingAmount => Token::Int(self.swing_amount),
            PatternField::GlobalQuantize => Token::Int(self.global_quantize),
            PatternField::Bpm => num_to_token(self.bpm),
        }
    }

    /// Writes the plain field from a parameter token, coercing per the
    /// field's kind; returns whether the write applied.
    pub fn set_field(&mut self, f: PatternField, slot: usize, t: &Token) -> (r: bool)
        requires
            old(self).wf(),
            0 <= slot < pattern_field_slot_count(f),
        ensures
            final(self).wf(),
            match pattern_set_spec(old(self)@, f, slot as int, t@) {
                Some(v2) => r == true && final(self)@ =~~= v2,
                None => r == false && final(self)@ =~~= old(self)@,
            },
    {
        match f {
            PatternField::IsWb => false,
            PatternField::Version => false,
            PatternField::Index => false,
            PatternField::MasterLength => match coerce_int(t) {
                Some(i) => {
                    self.master_length = i;
                    true
                },
                None => false,
            },
            PatternField::MasterChange => match coerce_int(t) {
                Some(i) => {
                    self.master_change = i;
                    true
                },
                None => false,
            },
            PatternField::KitNumber => match coerce_int(t) {
                Some(i) => {
                    self.kit_number = i;
                    true
                },
                None => false,
            },
            PatternField::SwingAmount => match coerce_int(t) {
                Some(i) => {
                    self.swing_amount = i;
                    true
                },
                None => false,
            },
            PatternField::GlobalQuantize => match coerce_int(t) {
                Some(i) => {
                    self.global_quantize = i;
                    true
                },
                None => false,
            },
            PatternField::Bpm => match coerce_num(t) {
                Some(n) => {
                    self.bpm = n;
                    true
                },
                None => false,
            },
        }
    }

    /// Reads the stored variant of the enumerated type.
    pub fn get_enum(&self, t: PatternEnumType, slot: usize) -> (r: String)
        requires
            self.wf(),
            0 <= slot < pattern_enum_slot_count(t),
        ensures
            r@ == pattern_enum_value(self@, t, slot as int),
            pattern_enum_variant_ok(t, r@),
    {
        match t {
            PatternEnumType::Speed => self.speed.clone(),
            PatternEnumType::TimeMode => self.time_mode.clone(),
        }
    }

    /// Writes the enumerated type from a variant symbol, validating it
    /// against the type's domain; returns whether the write applied.
    pub fn set_enum(&mut self, t: PatternEnumType, slot: usize, s: &String) -> (r: bool)
        requires
            old(self).wf(),
            0 <= slot < pattern_enum_slot_count(t),
        ensures
            final(self).wf(),
            match pattern_set_enum_spec(old(self)@, t, slot as int, s@) {
                Some(v2) => r == true && final(self)@ =~~= v2,
                None => r == false && final(self)@ =~~= old(self)@,
            },
    {
        match t {
            PatternEnumType::Speed => {
                if check_speed_variant(s) {
                    self.speed = s.clone();
                    true
                } else {
                    false
                }
            },
            PatternEnumType::TimeMode => {
                if check_time_mode_variant(s) {
                    self.time_mode = s.clone();
                    true
                } else {
                    false
                }
            },
        }
    }

}

/// Read-after-write: a plain-field write that applies is read back exactly,
/// for every state, field, slot and parameter; slot-marking fields are the
/// one exception, for they take no value.
#[verifier::rlimit(100)]
pub proof fn lemma_pattern_set_get(v: PatternView, f: PatternField, slot: int, t: TokenV)
    requires
        pattern_view_wf(v),
        0 <= slot < pattern_field_slot_count(f),
        !pattern_field_is_mark(f),
        pattern_set_spec(v, f, slot, t) is Some,
    ensures
        pattern_get_spec(pattern_set_spec(v, f, slot, t)->Some_0, f, slot) == t,
{
}

/// Read-after-write for enumerated identifiers: a variant write that
/// applies is read back exactly, for every state, type, slot and variant.
pub proof fn lemma_pattern_enum_set_get(v: PatternView, t: PatternEnumType, slot: int, s: Seq<char>)
    requires
        pattern_view_wf(v),
        0 <= slot < pattern_enum_slot_count(t),
        pattern_set_enum_spec(v, t, slot, s) is Some,
    ensures
        pattern_enum_value(pattern_set_enum_spec(v, t, slot, s)->Some_0, t, slot) == s,
{
}

impl DeepView for Pattern {
    type V = PatternView;

    open spec fn deep_view(&self) -> PatternView {
        self.view()
    }
}

} // verus!
