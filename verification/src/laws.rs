//! The cross-cutting laws of the protocol, stated once and proved for every
//! state, identifier and value. The read-after-write laws of each object
//! kind stand beside that kind's handlers.

use vstd::prelude::*;

use crate::fields::{kit_symbol_spec, sound_symbol_spec, KitSymbol, SoundSymbol,
    global_symbol_spec, pattern_symbol_spec, settings_symbol_spec, track_symbol_spec,
    trig_symbol_spec, GlobalSymbol, PatternSymbol, SettingsSymbol, TrackSymbol, TrigSymbol};
use crate::plock::{plock_val_token, PlockKey, PlockValV};
use crate::plockmsg::{plock_enum_key, plock_plain_key, plock_read_token};
use crate::token::TokenV;
use crate::trig::TrigView;

verus! {

/// The tri-state of one (trig, identifier) lock cell: after a clear the
/// cell reads back as the `unset` sentinel; after a set it reads back as
/// exactly the set value; a clear after a set returns it to `unset`; and
/// clearing an already-unset cell changes nothing.
pub proof fn lemma_plock_tri_state(v: TrigView, k: PlockKey, val: PlockValV)
    ensures
        plock_read_token(TrigView { plocks: v.plocks.remove(k), ..v }, k) == TokenV::Sym("unset"@),
        plock_read_token(TrigView { plocks: v.plocks.insert(k, val), ..v }, k) == plock_val_token(
            val,
        ),
        plock_read_token(
            TrigView { plocks: v.plocks.insert(k, val).remove(k), ..v },
            k,
        ) == TokenV::Sym("unset"@),
        v.plocks.remove(k).remove(k) =~= v.plocks.remove(k),
{
}

/// No symbol is both a plain identifier and an enumerated-type identifier
/// of the pattern kind: each kind has one table, and one lookup.
pub proof fn lemma_pattern_tables_disjoint(s: Seq<char>)
    ensures
        !((pattern_symbol_spec(s) matches Some(PatternSymbol::Plain(_))) && (pattern_symbol_spec(s)
            matches Some(PatternSymbol::EnumType(_)))),
{
}

/// No symbol is both a plain identifier and an enumerated-type identifier
/// of the track kind.
pub proof fn lemma_track_tables_disjoint(s: Seq<char>)
    ensures
        !((track_symbol_spec(s) matches Some(TrackSymbol::Plain(_))) && (track_symbol_spec(s)
            matches Some(TrackSymbol::EnumType(_)))),
{
}

/// No symbol is both a plain identifier and an enumerated-type identifier
/// of the trig kind.
pub proof fn lemma_trig_tables_disjoint(s: Seq<char>)
    ensures
        !((trig_symbol_spec(s) matches Some(TrigSymbol::Plain(_))) && (trig_symbol_spec(s)
            matches Some(TrigSymbol::EnumType(_)))),
{
}

/// No symbol is both a plain identifier and an enumerated-type identifier
/// of the kit kind, nor additionally a kit element.
pub proof fn lemma_kit_tables_disjoint(s: Seq<char>)
    ensures
        !((kit_symbol_spec(s) matches Some(KitSymbol::Plain(_))) && (kit_symbol_spec(s)
            matches Some(KitSymbol::EnumType(_)))),
        !((kit_symbol_spec(s) matches Some(KitSymbol::Plain(_))) && (kit_symbol_spec(s)
            matches Some(KitSymbol::Element(_)))),
        !((kit_symbol_spec(s) matches Some(KitSymbol::EnumType(_))) && (kit_symbol_spec(s)
            matches Some(KitSymbol::Element(_)))),
{
}

/// No symbol is both a plain identifier and an enumerated-type identifier
/// of the sound kind.
pub proof fn lemma_sound_tables_disjoint(s: Seq<char>)
    ensures
        !((sound_symbol_spec(s) matches Some(SoundSymbol::Plain(_))) && (sound_symbol_spec(s)
            matches Some(SoundSymbol::EnumType(_)))),
{
}

/// No symbol is both a plain identifier and an enumerated-type identifier
/// of the global kind.
pub proof fn lemma_global_tables_disjoint(s: Seq<char>)
    ensures
        !((global_symbol_spec(s) matches Some(GlobalSymbol::Plain(_))) && (global_symbol_spec(s)
            matches Some(GlobalSymbol::EnumType(_)))),
{
}

/// No symbol is both a plain identifier and an enumerated-type identifier
/// of the settings kind.
pub proof fn lemma_settings_tables_disjoint(s: Seq<char>)
    ensures
        !((settings_symbol_spec(s) matches Some(SettingsSymbol::Plain(_))) && (settings_symbol_spec(
            s,
        ) matches Some(SettingsSymbol::EnumType(_)))),
{
}

/// Every identifier the parameter-lock sub-dispatcher accepts is an
/// identifier of the kit or sound tables: the lock system consults those
/// very tables, so the two can never drift apart.
pub proof fn lemma_plock_keys_are_base_identifiers(s: Seq<char>)
    ensures
        plock_plain_key(s) is Some ==> ((kit_symbol_spec(s) matches Some(KitSymbol::Plain(_))) || (
        sound_symbol_spec(s) matches Some(SoundSymbol::Plain(_)))),
        plock_enum_key(s) is Some ==> ((kit_symbol_spec(s) matches Some(KitSymbol::EnumType(_)))
            || (sound_symbol_spec(s) matches Some(SoundSymbol::EnumType(_)))),
{
}

} // verus!
