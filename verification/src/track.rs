//! One track of a pattern: its sequencing parameters and its 64 trigs.

use vstd::prelude::*;
#[allow(unused_imports)]
use vstd::pervasive::VecAdditionalExecFns;
use crate::fields::{TrackField, TrackEnumType};
#[allow(unused_imports)]
use crate::token::{bool01_to_token, bool01_token, coerce_bool01, coerce_int, coerce_num, num_to_token, num_token, token_bool01, token_int, token_num, Num, Token, TokenV};
#[allow(unused_imports)]
use crate::strutil::valid_name;
use crate::variants_seq::{check_length_variant, check_pad_scale_variant, check_root_note_variant, is_length_variant, is_pad_scale_variant, is_root_note_variant};
use crate::trig::{Trig, TrigView};

verus! {

/// The track model object.
pub struct Track {
    pub index: u8,
    pub owner_pattern_index: u8,
    pub def_trig_note: i64,
    pub def_trig_velocity: i64,
    pub def_trig_probability: i64,
    pub number_of_steps: i64,
    pub quantize_amount: i64,
    pub sends_midi: bool,
    pub euclidean_mode: bool,
    pub euclidean_pl1: i64,
    pub euclidean_pl2: i64,
    pub euclidean_ro1: i64,
    pub euclidean_ro2: i64,
    pub euclidean_tro: i64,
    pub root_note: String,
    pub pad_scale: String,
    pub default_note_length: String,
    pub trigs: Vec<Trig>,
}

/// The mathematical view of a track.
#[verifier::ext_equal]
pub ghost struct TrackView {
    pub index: u8,
    pub owner_pattern_index: u8,
    pub def_trig_note: i64,
    pub def_trig_velocity: i64,
    pub def_trig_probability: i64,
    pub number_of_steps: i64,
    pub quantize_amount: i64,
    pub sends_midi: bool,
    pub euclidean_mode: bool,
    pub euclidean_pl1: i64,
    pub euclidean_pl2: i64,
    pub euclidean_ro1: i64,
    pub euclidean_ro2: i64,
    pub euclidean_tro: i64,
    pub root_note: Seq<char>,
    pub pad_scale: Seq<char>,
    pub default_note_length: Seq<char>,
    pub trigs: Seq<TrigView>,
}

impl View for Track {
    type V = TrackView;

    open spec fn view(&self) -> TrackView {
        TrackView {
            index: self.index,
            owner_pattern_index: self.owner_pattern_index,
            def_trig_note: self.def_trig_note,
            def_trig_velocity: self.def_trig_velocity,
            def_trig_probability: self.def_trig_probability,
            number_of_steps: self.number_of_steps,
            quantize_amount: self.quantize_amount,
            sends_midi: self.sends_midi,
            euclidean_mode: self.euclidean_mode,
            euclidean_pl1: self.euclidean_pl1,
            euclidean_pl2: self.euclidean_pl2,
            euclidean_ro1: self.euclidean_ro1,
            euclidean_ro2: self.euclidean_ro2,
            euclidean_tro: self.euclidean_tro,
            root_note: self.root_note@,
            pad_scale: self.pad_scale@,
            default_note_length: self.default_note_length@,
            trigs: self.trigs.deep_view(),
        }
    }
}

/// Well-formedness of a track view: indices in range, vectors at their
/// fixed lengths, every enumerated field holding a variant of its domain.
pub open spec fn track_view_wf(v: TrackView) -> bool {
    &&& is_root_note_variant(v.root_note)
    &&& is_pad_scale_variant(v.pad_scale)
    &&& is_length_variant(v.default_note_length)
    &&& v.trigs.len() == 64
}

/// The fresh state of a track.
pub open spec fn track_default(index: u8, owner: u8) -> TrackView {
    TrackView {
        index: index,
        owner_pattern_index: owner,
        def_trig_note: 0,
        def_trig_velocity: 0,
        def_trig_probability: 0,
        number_of_steps: 0,
        quantize_amount: 0,
        sends_midi: false,
        euclidean_mode: false,
        euclidean_pl1: 0,
        euclidean_pl2: 0,
        euclidean_ro1: 0,
        euclidean_ro2: 0,
        euclidean_tro: 0,
        root_note: "c"@,
        pad_scale: "chromatic"@,
        default_note_length: "1/16"@,
        trigs: Seq::new(64, |j: int| crate::trig::trig_default(j as u8, index)),
    }
}

/// How many slots the plain field has; 1 for an unslotted field.
pub open spec fn track_field_slot_count(f: TrackField) -> int {
    match f {
        TrackField::Index => 1,
        TrackField::OwnerIndex => 1,
        TrackField::DefTrigNote => 1,
        TrackField::DefTrigVelocity => 1,
        TrackField::DefTrigProb => 1,
        TrackField::NumberOfSteps => 1,
        TrackField::QuantizeAmount => 1,
        TrackField::SendsMidi => 1,
        TrackField::EuclideanMode => 1,
        TrackField::EuclideanPl1 => 1,
        TrackField::EuclideanPl2 => 1,
        TrackField::EuclideanRo1 => 1,
        TrackField::EuclideanRo2 => 1,
        TrackField::EuclideanTro => 1,
    }
}

/// Executable slot count of a plain field.
pub fn track_slot_count(f: TrackField) -> (r: usize)
    ensures
        r as int == track_field_slot_count(f),
{
    match f {
        TrackField::Index => 1,
        TrackField::OwnerIndex => 1,
        TrackField::DefTrigNote => 1,
        TrackField::DefTrigVelocity => 1,
        TrackField::DefTrigProb => 1,
        TrackField::NumberOfSteps => 1,
        TrackField::QuantizeAmount => 1,
        TrackField::SendsMidi => 1,
        TrackField::EuclideanMode => 1,
        TrackField::EuclideanPl1 => 1,
        TrackField::EuclideanPl2 => 1,
        TrackField::EuclideanRo1 => 1,
        TrackField::EuclideanRo2 => 1,
        TrackField::EuclideanTro => 1,
    }
}

/// Whether a write to the field marks the slot given by its parameter.
pub open spec fn track_field_is_mark(f: TrackField) -> bool {
    match f {
        TrackField::Index => false,
        TrackField::OwnerIndex => false,
        TrackField::DefTrigNote => false,
        TrackField::DefTrigVelocity => false,
        TrackField::DefTrigProb => false,
        TrackField::NumberOfSteps => false,
        TrackField::QuantizeAmount => false,
        TrackField::SendsMidi => false,
        TrackField::EuclideanMode => false,
        TrackField::EuclideanPl1 => false,
        TrackField::EuclideanPl2 => false,
        TrackField::EuclideanRo1 => false,
        TrackField::EuclideanRo2 => false,
        TrackField::EuclideanTro => false,
    }
}

/// Executable form of the marking check.
pub fn track_is_mark(f: TrackField) -> (r: bool)
    ensures
        r == track_field_is_mark(f),
{
    match f {
        TrackField::Index => false,
        TrackField::OwnerIndex => false,
        TrackField::DefTrigNote => false,
        TrackField::DefTrigVelocity => false,
        TrackField::DefTrigProb => false,
        TrackField::NumberOfSteps => false,
        TrackField::QuantizeAmount => false,
        TrackField::SendsMidi => false,
        TrackField::EuclideanMode => false,
        TrackField::EuclideanPl1 => false,
        TrackField::EuclideanPl2 => false,
        TrackField::EuclideanRo1 => false,
        TrackField::EuclideanRo2 => false,
        TrackField::EuclideanTro => false,
    }
}

/// Whether the plain field accepts a write; the rest are read-only.
pub open spec fn track_field_settable(f: TrackField) -> bool {
    match f {
        TrackField::Index => false,
        TrackField::OwnerIndex => false,
        TrackField::DefTrigNote => true,
        TrackField::DefTrigVelocity => true,
        TrackField::DefTrigProb => true,
        TrackField::NumberOfSteps => true,
        TrackField::QuantizeAmount => true,
        TrackField::SendsMidi => true,
        TrackField::EuclideanMode => true,
        TrackField::EuclideanPl1 => true,
        TrackField::EuclideanPl2 => true,
        TrackField::EuclideanRo1 => true,
        TrackField::EuclideanRo2 => true,
        TrackField::EuclideanTro => true,
    }
}

/// The value the plain field reads back as, echoed as a token.
pub open spec fn track_get_spec(v: TrackView, f: TrackField, slot: int) -> TokenV {
    match f {
        TrackField::Index => TokenV::Int(v.index as i64),
        TrackField::OwnerIndex => TokenV::Int(v.owner_pattern_index as i64),
        TrackField::DefTrigNote => TokenV::Int(v.def_trig_note),
        TrackField::DefTrigVelocity => TokenV::Int(v.def_trig_velocity),
        TrackField::DefTrigProb => TokenV::Int(v.def_trig_probability),
        TrackField::NumberOfSteps => TokenV::Int(v.number_of_steps),
        TrackField::QuantizeAmount => TokenV::Int(v.quantize_amount),
        TrackField::SendsMidi => bool01_token(v.sends_midi),
        TrackField::EuclideanMode => bool01_token(v.euclidean_mode),
        TrackField::EuclideanPl1 => TokenV::Int(v.euclidean_pl1),
        TrackField::EuclideanPl2 => TokenV::Int(v.euclidean_pl2),
        TrackField::EuclideanRo1 => TokenV::Int(v.euclidean_ro1),
        TrackField::EuclideanRo2 => TokenV::Int(v.euclidean_ro2),
        TrackField::EuclideanTro => TokenV::Int(v.euclidean_tro),
    }
}

/// The state a write to the plain field produces, if its parameter
/// token coerces; read-only fields and failed coercions produce nothing.
pub open spec fn track_set_spec(v: TrackView, f: TrackField, slot: int, t: TokenV) -> Option<TrackView> {
    match f {
        TrackField::Index => None,
        TrackField::OwnerIndex => None,
        TrackField::DefTrigNote => match token_int(t) {
            Some(i) => Some(TrackView { def_trig_note: i, ..v }),
            None => None,
        },
        TrackField::DefTrigVelocity => match token_int(t) {
            Some(i) => Some(TrackView { def_trig_velocity: i, ..v }),
            None => None,
        },
        TrackField::DefTrigProb => match token_int(t) {
            Some(i) => Some(TrackView { def_trig_probability: i, ..v }),
            None => None,
        },
        TrackField::NumberOfSteps => match token_int(t) {
            Some(i) => Some(TrackView { number_of_steps: i, ..v }),
            None => None,
        },
        TrackField::QuantizeAmount => match token_int(t) {
            Some(i) => Some(TrackView { quantize_amount: i, ..v }),
            None => None,
        },
        TrackField::SendsMidi => match token_bool01(t) {
            Some(b) => Some(TrackView { sends_midi: b, ..v }),
            None => None,
        },
        TrackField::EuclideanMode => match token_bool01(t) {
            Some(b) => Some(TrackView { euclidean_mode: b, ..v }),
            None => None,
        },
        TrackField::EuclideanPl1 => match token_int(t) {
            Some(i) => Some(TrackView { euclidean_pl1: i, ..v }),
            None => None,
        },
        TrackField::EuclideanPl2 => match token_int(t) {
            Some(i) => Some(TrackView { euclidean_pl2: i, ..v }),
            None => None,
        },
        TrackField::EuclideanRo1 => match token_int(t) {
            Some(i) => Some(TrackView { euclidean_ro1: i, ..v }),
            None => None,
        },
        TrackField::EuclideanRo2 => match token_int(t) {
            Some(i) => Some(TrackView { euclidean_ro2: i, ..v }),
            None => None,
        },
        TrackField::EuclideanTro => match token_int(t) {
            Some(i) => Some(TrackView { euclidean_tro: i, ..v }),
            None => None,
        },
    }
}

/// How many slots the enumerated type has; 1 for an unslotted type.
pub open spec fn track_enum_slot_count(t: TrackEnumType) -> int {
    match t {
        TrackEnumType::RootNote => 1,
        TrackEnumType::PadScale => 1,
        TrackEnumType::DefaultNoteLength => 1,
    }
}

/// Executable slot count of an enumerated type.
pub fn track_enum_slots(t: TrackEnumType) -> (r: usize)
    ensures
        r as int == track_enum_slot_count(t),
{
    match t {
        TrackEnumType::RootNote => 1,
        TrackEnumType::PadScale => 1,
        TrackEnumType::DefaultNoteLength => 1,
    }
}

/// The stored variant of the enumerated type.
pub open spec fn track_enum_value(v: TrackView, t: TrackEnumType, slot: int) -> Seq<char> {
    match t {
        TrackEnumType::RootNote => v.root_note,
        TrackEnumType::PadScale => v.pad_scale,
        TrackEnumType::DefaultNoteLength => v.default_note_length,
    }
}

/// Whether the symbol is a variant of the enumerated type's domain.
pub open spec fn track_enum_variant_ok(t: TrackEnumType, s: Seq<char>) -> bool {
    match t {
        TrackEnumType::RootNote => is_root_note_variant(s),
        TrackEnumType::PadScale => is_pad_scale_variant(s),
        TrackEnumType::DefaultNoteLength => is_length_variant(s),
    }
}

/// The state a write to the enumerated type produces, if the variant
/// belongs to its domain.
pub open spec fn track_set_enum_spec(v: TrackView, t: TrackEnumType, slot: int, s: Seq<char>) -> Option<
    TrackView,
> {
    if track_enum_variant_ok(t, s) {
        Some(
            match t {
                TrackEnumType::RootNote => TrackView { root_note: s, ..v },
                TrackEnumType::PadScale => TrackView { pad_scale: s, ..v },
                TrackEnumType::DefaultNoteLength => TrackView { default_note_length: s, ..v },
            },
        )
    } else {
        None
    }
}

impl Track {
    /// Well-formedness of the object and everything it owns.
    pub open spec fn wf(&self) -> bool {
        &&& track_view_wf(self@)
        &&& (forall|i: int| 0 <= i < self.trigs@.len() ==> (#[trigger] self.trigs@[i]).wf())
    }

    /// A fresh track.
    pub fn new(index: u8, owner: u8) -> (r: Track)
        ensures
            r.wf(),
            r@ =~~= track_default(index, owner),
    {
        proof {
            reveal(is_root_note_variant);
            reveal(is_pad_scale_variant);
            reveal(is_length_variant);
        }
        let mut items: Vec<Trig> = Vec::new();
        let mut i: usize = 0;
        while i < 64
            invariant
                0 <= i <= 64,
                items@.len() == i,
                forall|j: int| 0 <= j < i ==> (#[trigger] items@[j]).wf(),
                forall|j: int| 0 <= j < i ==> (#[trigger] items@[j])@ =~~= crate::trig::trig_default(j as u8, index),
            decreases 64 - i,
        {
            items.push(Trig::new(i as u8, index));
            i = i + 1;
        }
        proof {
            assert(items.deep_view() =~~= Seq::new(64, |j: int| crate::trig::trig_default(j as u8, index))) by {
                assert forall|j: int| 0 <= j < 64 implies #[trigger] items.deep_view()[j] =~~= crate::trig::trig_default(j as u8, index) by {
                    assert(items@[j]@ =~~= crate::trig::trig_default(j as u8, index));
                }
            }
        }
        Track {
            index,
            owner_pattern_index: owner,
            def_trig_note: 0,
            def_trig_velocity: 0,
            def_trig_probability: 0,
            number_of_steps: 0,
            quantize_amount: 0,
            sends_midi: false,
            euclidean_mode: false,
            euclidean_pl1: 0,
            euclidean_pl2: 0,
            euclidean_ro1: 0,
            euclidean_ro2: 0,
            euclidean_tro: 0,
            root_note: "c".to_owned(),
            pad_scale: "chromatic".to_owned(),
            default_note_length: "1/16".to_owned(),
            trigs: items,
        }
    }

    /// Reads the plain field, echoing its value as a token.
    pub fn get_field(&self, f: TrackField, slot: usize) -> (r: Token)
        requires
            self.wf(),
            0 <= slot < track_field_slot_count(f),
        ensures
            r@ == track_get_spec(self@, f, slot as int),
    {
        match f {
            TrackField::Index => Token::Int(self.index as i64),
            TrackField::OwnerIndex => Token::Int(self.owner_pattern_index as i64),
            TrackField::DefTrigNote => Token::Int(self.def_trig_note),
            TrackField::DefTrigVelocity => Token::Int(self.def_trig_velocity),
            TrackField::DefTrigProb => Token::Int(self.def_trig_probability),
            TrackField::NumberOfSteps => Token::Int(self.number_of_steps),
            TrackField::QuantizeAmount => Token::Int(self.quantize_amount),
            TrackField::SendsMidi => bool01_to_token(self.sends_midi),
            TrackField::EuclideanMode => bool01_to_token(self.euclidean_mode),
            TrackField::EuclideanPl1 => Token::Int(self.euclidean_pl1),
            TrackField::EuclideanPl2 => Token::Int(self.euclidean_pl2),
            TrackField::EuclideanRo1 => Token::Int(self.euclidean_ro1),
            TrackField::EuclideanRo2 => Token::Int(self.euclidean_ro2),
            TrackField::EuclideanTro => Token::Int(self.euclidean_tro),
        }
    }

    /// Writes the plain field from a parameter token, coercing per the
    /// field's kind; returns whether the write applied.
    pub fn set_field(&mut self, f: TrackField, slot: usize, t: &Token) -> (r: bool)
        requires
            old(self).wf(),
            0 <= slot < track_field_slot_count(f),
        ensures
            final(self).wf(),
            match track_set_spec(old(self)@, f, slot as int, t@) {
                Some(v2) => r == true && final(self)@ =~~= v2,
                None => r == false && final(self)@ =~~= old(self)@,
            },
    {
        match f {
            TrackField::Index => false,
            TrackField::OwnerIndex => false,
            TrackField::DefTrigNote => match coerce_int(t) {
                Some(i) => {
                    self.def_trig_note = i;
                    true
                },
                None => false,
            },
            TrackField::DefTrigVelocity => match coerce_int(t) {
                Some(i) => {
                    self.def_trig_velocity = i;
                    true
                },
                None => false,
            },
            TrackField::DefTrigProb => match coerce_int(t) {
                Some(i) => {
                    self.def_trig_probability = i;
                    true
                },
                None => false,
            },
            TrackField::NumberOfSteps => match coerce_int(t) {
                Some(i) => {
                    self.number_of_steps = i;
                    true
                },
                None => false,
            },
            TrackField::QuantizeAmount => match coerce_int(t) {
                Some(i) => {
                    self.quantize_amount = i;
                    true
                },
                None => false,
            },
            TrackField::SendsMidi => match coerce_bool01(t) {
                Some(b) => {
                    self.sends_midi = b;
                    true
                },
                None => false,
            },
            TrackField::EuclideanMode => match coerce_bool01(t) {
                Some(b) => {
                    self.euclidean_mode = b;
                    true
                },
                None => false,
            },
            TrackField::EuclideanPl1 => match coerce_int(t) {
                Some(i) => {
                    self.euclidean_pl1 = i;
                    true
                },
                None => false,
            },
            TrackField::EuclideanPl2 => match coerce_int(t) {
                Some(i) => {
                    self.euclidean_pl2 = i;
                    true
                },
                None => false,
            },
            TrackField::EuclideanRo1 => match coerce_int(t) {
                Some(i) => {
                    self.euclidean_ro1 = i;
                    true
                },
                None => false,
            },
            TrackField::EuclideanRo2 => match coerce_int(t) {
                Some(i) => {
                    self.euclidean_ro2 = i;
                    true
                },
                None => false,
            },
            TrackField::EuclideanTro => match coerce_int(t) {
                Some(i) => {
                    self.euclidean_tro = i;
                    true
                },
                None => false,
            },
        }
    }

    /// Reads the stored variant of the enumerated type.
    pub fn get_enum(&self, t: TrackEnumType, slot: usize) -> (r: String)
        requires
            self.wf(),
            0 <= slot < track_enum_slot_count(t),
        ensures
            r@ == track_enum_value(self@, t, slot as int),
            track_enum_variant_ok(t, r@),
    {
        match t {
            TrackEnumType::RootNote => self.root_note.clone(),
            TrackEnumType::PadScale => self.pad_scale.clone(),
            TrackEnumType::DefaultNoteLength => self.default_note_length.clone(),
        }
    }

    /// Writes the enumerated type from a variant symbol, validating it
    /// against the type's domain; returns whether the write applied.
    pub fn set_enum(&mut self, t: TrackEnumType, slot: usize, s: &String) -> (r: bool)
        requires
            old(self).wf(),
            0 <= slot < track_enum_slot_count(t),
        ensures
            final(self).wf(),
            match track_set_enum_spec(old(self)@, t, slot as int, s@) {
                Some(v2) => r == true && final(self)@ =~~= v2,
                None => r == false && final(self)@ =~~= old(self)@,
            },
    {
        match t {
            TrackEnumType::RootNote => {
                if check_root_note_variant(s) {
                    self.root_note = s.clone();
                    true
                } else {
                    false
                }
            },
            TrackEnumType::PadScale => {
                if check_pad_scale_variant(s) {
                    self.pad_scale = s.clone();
                    true
                } else {
                    false
                }
            },
            TrackEnumType::DefaultNoteLength => {
                if check_length_variant(s) {
                    self.default_note_length = s.clone();
                    true
                } else {
                    false
                }
            },
        }
    }

}

/// Read-after-write: a plain-field write that applies is read back exactly,
/// for every state, field, slot and parameter; slot-marking fields are the
/// one exception, for they take no value.
#[verifier::rlimit(100)]
pub proof fn lemma_track_set_get(v: TrackView, f: TrackField, slot: int, t: TokenV)
    requires
        track_view_wf(v),
        0 <= slot < track_field_slot_count(f),
        !track_field_is_mark(f),
        track_set_spec(v, f, slot, t) is Some,
    ensures
        track_get_spec(track_set_spec(v, f, slot, t)->Some_0, f, slot) == t,
{
}

/// Read-after-write for enumerated identifiers: a variant write that
/// applies is read back exactly, for every state, type, slot and variant.
pub proof fn lemma_track_enum_set_get(v: TrackView, t: TrackEnumType, slot: int, s: Seq<char>)
    requires
        track_view_wf(v),
        0 <= slot < track_enum_slot_count(t),
        track_set_enum_spec(v, t, slot, s) is Some,
    ensures
        track_enum_value(track_set_enum_spec(v, t, slot, s)->Some_0, t, slot) == s,
{
}

impl DeepView for Track {
    type V = TrackView;

    open spec fn deep_view(&self) -> TrackView {
        self.view()
    }
}

} // verus!
