//! The path resolver and the top-level dispatch. A message is a flat token
//! list: the Object-Type Selector resolves its head to an object class and
//! slot, the resolver walks indices down the Pattern - Track - Trig and
//! Kit - Element / Sound hierarchies, and the terminal identifier is handed
//! to a field handler or to the parameter-lock sub-dispatcher.

use vstd::prelude::*;

use crate::error::{GetError, RytmExternalError, SetError};
use crate::kit::{kit_element_get_spec, kit_element_set_enum_spec, kit_element_set_spec, Kit,
    KitView};
use crate::fields::{kit_classify, kit_symbol_spec, KitElement, KitSymbol};
use crate::leafmsg::{enum_err, fmt_err, ident_err, kit_handle_leaf_get, kit_handle_leaf_set,
    kit_leaf_get_msg, kit_leaf_set_msg, param_err, pattern_handle_leaf_get,
    pattern_handle_leaf_set, pattern_leaf_get_msg, pattern_leaf_set_msg, range_err,
    sound_handle_leaf_get, sound_handle_leaf_set, sound_leaf_get_msg, sound_leaf_set_msg,
    track_handle_leaf_get, track_handle_leaf_set, track_leaf_get_msg, track_leaf_set_msg,
    trig_handle_leaf_get, trig_handle_leaf_set, trig_leaf_get_msg, trig_leaf_set_msg,
    global_handle_leaf_get, global_handle_leaf_set, global_leaf_get_msg, global_leaf_set_msg,
    settings_handle_leaf_get, settings_handle_leaf_set, settings_leaf_get_msg,
    settings_leaf_set_msg};
use crate::pattern::{Pattern, PatternView};
use crate::plockmsg::{trig_handle_plock_clear, trig_handle_plock_get, trig_handle_plock_set,
    trig_plock_clear_msg, trig_plock_get_msg, trig_plock_set_msg};
use crate::project::{Project, ProjectView};
use crate::strutil::enum_split;
use crate::token::{quad, token_int, Token, TokenV};
use crate::track::TrackView;
use crate::trig::{Trig, TrigView};
use crate::types::{selector_outcome, ObjectTypeSelector, SelectorOutcome};

verus! {

/// What a set message does from a trig-level position: a plock action, or a
/// plain or enumerated trig field write.
pub open spec fn trig_set_msg(v: TrigView, toks: Seq<TokenV>, i: int) -> Option<TrigView> {
    if !(0 <= i < toks.len()) {
        None
    } else {
        match toks[i] {
            TokenV::Sym(sym) => if sym == "plockset"@ {
                trig_plock_set_msg(v, toks, i + 1)
            } else if sym == "plockclear"@ {
                trig_plock_clear_msg(v, toks, i + 1)
            } else if sym == "plockget"@ {
                None
            } else {
                trig_leaf_set_msg(v, toks, i)
            },
            _ => None,
        }
    }
}

/// What a get message reads from a trig-level position.
pub open spec fn trig_get_msg(v: TrigView, toks: Seq<TokenV>, i: int, top: i64) -> Option<
    Seq<TokenV>,
> {
    if !(0 <= i < toks.len()) {
        None
    } else {
        match toks[i] {
            TokenV::Sym(sym) => if sym == "plockget"@ {
                trig_plock_get_msg(v, toks, i + 1, top)
            } else if sym == "plockset"@ || sym == "plockclear"@ {
                None
            } else {
                trig_leaf_get_msg(v, toks, i, top)
            },
            _ => None,
        }
    }
}

/// Applies a set message from a trig-level position.
pub fn trig_handle_set(trig: &mut Trig, toks: &Vec<Token>, i: usize) -> (r: Result<
    (),
    RytmExternalError,
>)
    requires
        old(trig).wf(),
    ensures
        final(trig).wf(),
        match trig_set_msg(old(trig)@, toks.deep_view(), i as int) {
            Some(v2) => r is Ok && final(trig)@ =~~= v2,
            None => r is Err && final(trig)@ =~~= old(trig)@,
        },
{
    if i >= toks.len() {
        return Err(fmt_err());
    }
    match &toks[i] {
        Token::Sym(sym) => {
            if *sym == "plockset".to_owned() {
                trig_handle_plock_set(trig, toks, i + 1)
            } else if *sym == "plockclear".to_owned() {
                trig_handle_plock_clear(trig, toks, i + 1)
            } else if *sym == "plockget".to_owned() {
                Err(fmt_err())
            } else {
                trig_handle_leaf_set(trig, toks, i)
            }
        },
        _ => Err(fmt_err()),
    }
}

/// Reads with a get message from a trig-level position.
pub fn trig_handle_get(trig: &Trig, toks: &Vec<Token>, i: usize, top: i64) -> (r: Result<
    Vec<Token>,
    RytmExternalError,
>)
    requires
        trig.wf(),
    ensures
        match trig_get_msg(trig@, toks.deep_view(), i as int, top) {
            Some(out) => r matches Ok(o) && o.deep_view() =~~= out,
            None => r is Err,
        },
{
    if i >= toks.len() {
        return Err(fmt_err());
    }
    match &toks[i] {
        Token::Sym(sym) => {
            if *sym == "plockget".to_owned() {
                trig_handle_plock_get(trig, toks, i + 1, top)
            } else if *sym == "plockset".to_owned() || *sym == "plockclear".to_owned() {
                Err(fmt_err())
            } else {
                trig_handle_leaf_get(trig, toks, i, top)
            }
        },
        _ => Err(fmt_err()),
    }
}

/// What a set message does from a pattern-level position: a pattern field
/// write, or a descent by track index and then trig index.
pub open spec fn pattern_set_msg(v: PatternView, toks: Seq<TokenV>, i: int) -> Option<PatternView> {
    if !(0 <= i < toks.len()) {
        None
    } else {
        match toks[i] {
            TokenV::Sym(_) => pattern_leaf_set_msg(v, toks, i),
            TokenV::Int(tr) => if !(0 <= tr <= 12) {
                None
            } else if !(i + 1 < toks.len()) {
                None
            } else {
                match toks[i + 1] {
                    TokenV::Sym(_) => match track_leaf_set_msg(v.tracks[tr as int], toks, i + 1) {
                        Some(tv) => Some(PatternView { tracks: v.tracks.update(tr as int, tv), ..v }),
                        None => None,
                    },
                    TokenV::Int(tg) => if !(0 <= tg <= 63) {
                        None
                    } else {
                        match trig_set_msg(v.tracks[tr as int].trigs[tg as int], toks, i + 2) {
                            Some(gv) => Some(
                                PatternView {
                                    tracks: v.tracks.update(
                                        tr as int,
                                        TrackView {
                                            trigs: v.tracks[tr as int].trigs.update(tg as int, gv),
                                            ..v.tracks[tr as int]
                                        },
                                    ),
                                    ..v
                                },
                            ),
                            None => None,
                        }
                    },
                    _ => None,
                }
            },
            _ => None,
        }
    }
}

/// What a get message reads from a pattern-level position.
pub open spec fn pattern_get_msg(v: PatternView, toks: Seq<TokenV>, i: int, top: i64) -> Option<
    Seq<TokenV>,
> {
    if !(0 <= i < toks.len()) {
        None
    } else {
        match toks[i] {
            TokenV::Sym(_) => pattern_leaf_get_msg(v, toks, i, top),
            TokenV::Int(tr) => if !(0 <= tr <= 12) {
                None
            } else if !(i + 1 < toks.len()) {
                None
            } else {
                match toks[i + 1] {
                    TokenV::Sym(_) => track_leaf_get_msg(v.tracks[tr as int], toks, i + 1, top),
                    TokenV::Int(tg) => if !(0 <= tg <= 63) {
                        None
                    } else {
                        trig_get_msg(v.tracks[tr as int].trigs[tg as int], toks, i + 2, top)
                    },
                    _ => None,
                }
            },
            _ => None,
        }
    }
}

/// Applies a set message from a pattern-level position, descending through
/// track and trig indices as the tokens dictate.
pub fn pattern_handle_set(p: &mut Pattern, toks: &Vec<Token>, i: usize) -> (r: Result<
    (),
    RytmExternalError,
>)
    requires
        old(p).wf(),
    ensures
        final(p).wf(),
        match pattern_set_msg(old(p)@, toks.deep_view(), i as int) {
            Some(v2) => r is Ok && final(p)@ =~~= v2,
            None => r is Err && final(p)@ =~~= old(p)@,
        },
{
    if i >= toks.len() {
        return Err(fmt_err());
    }
    match &toks[i] {
        Token::Sym(_) => pattern_handle_leaf_set(p, toks, i),
        Token::Int(tr) => {
            if !(0 <= *tr && *tr <= 12) {
                return Err(range_track_err());
            }
            let ti = *tr as usize;
            if i + 1 >= toks.len() {
                return Err(fmt_err());
            }
            match &toks[i + 1] {
                Token::Sym(_) => {
                    let trk = &mut p.tracks[ti];
                    let r = track_handle_leaf_set(trk, toks, i + 1);
                    proof {
                        assert(p.tracks.deep_view() =~~= old(p).tracks.deep_view().update(
                            ti as int,
                            p.tracks@[ti as int]@,
                        )) by {
                            assert forall|j: int|
                                0 <= j < p.tracks@.len() && j != ti implies #[trigger] p.tracks.deep_view()[j]
                                == old(p).tracks.deep_view()[j] by {
                                assert(p.tracks@[j] == old(p).tracks@[j]);
                            }
                        }
                        if r is Err {
                            assert(p@ =~~= old(p)@);
                        }
                    }
                    r
                },
                Token::Int(tg) => {
                    if !(0 <= *tg && *tg <= 63) {
                        return Err(range_trig_err());
                    }
                    let gi = *tg as usize;
                    let trk = &mut p.tracks[ti];
                    let ghost old_track = trk@;
                    let tg_ref = &mut trk.trigs[gi];
                    let r = trig_handle_set(tg_ref, toks, i + 2);
                    proof {
                        assert(trk.trigs.deep_view() =~~= old_track.trigs.update(
                            gi as int,
                            trk.trigs@[gi as int]@,
                        )) by {
                            assert forall|j: int|
                                0 <= j < trk.trigs@.len() && j != gi implies #[trigger] trk.trigs.deep_view()[j]
                                == old_track.trigs[j] by {
                                assert(trk.trigs@[j] == old(p).tracks@[ti as int].trigs@[j]);
                            }
                        }
                        assert(p.tracks.deep_view() =~~= old(p).tracks.deep_view().update(
                            ti as int,
                            p.tracks@[ti as int]@,
                        )) by {
                            assert forall|j: int|
                                0 <= j < p.tracks@.len() && j != ti implies #[trigger] p.tracks.deep_view()[j]
                                == old(p).tracks.deep_view()[j] by {
                                assert(p.tracks@[j] == old(p).tracks@[j]);
                            }
                        }
                        if r is Err {
                            assert(p@ =~~= old(p)@);
                        }
                    }
                    r
                },
                Token::Float(_) => Err(fmt_err()),
            }
        },
        Token::Float(_) => Err(fmt_err()),
    }
}

/// Reads with a get message from a pattern-level position.
pub fn pattern_handle_get(p: &Pattern, toks: &Vec<Token>, i: usize, top: i64) -> (r: Result<
    Vec<Token>,
    RytmExternalError,
>)
    requires
        p.wf(),
    ensures
        match pattern_get_msg(p@, toks.deep_view(), i as int, top) {
            Some(out) => r matches Ok(o) && o.deep_view() =~~= out,
            None => r is Err,
        },
{
    if i >= toks.len() {
        return Err(get_fmt_err());
    }
    match &toks[i] {
        Token::Sym(_) => pattern_handle_leaf_get(p, toks, i, top),
        Token::Int(tr) => {
            if !(0 <= *tr && *tr <= 12) {
                return Err(range_track_err());
            }
            let ti = *tr as usize;
            if i + 1 >= toks.len() {
                return Err(get_fmt_err());
            }
            match &toks[i + 1] {
                Token::Sym(_) => track_handle_leaf_get(&p.tracks[ti], toks, i + 1, top),
                Token::Int(tg) => {
                    if !(0 <= *tg && *tg <= 63) {
                        return Err(range_trig_err());
                    }
                    let gi = *tg as usize;
                    trig_handle_get(&p.tracks[ti].trigs[gi], toks, i + 2, top)
                },
                Token::Float(_) => Err(get_fmt_err()),
            }
        },
        Token::Float(_) => Err(get_fmt_err()),
    }
}

/// A format error of the get path.
pub fn get_fmt_err() -> (r: RytmExternalError)
    ensures
        r is Getter,
{
    RytmExternalError::Getter(
        GetError::InvalidFormat("the message ended before the expected token".to_owned()),
    )
}

/// A track index outside 0 to 12.
pub fn range_track_err() -> (r: RytmExternalError)
    ensures
        r is Custom,
{
    RytmExternalError::Custom("the track index must be an integer between 0 and 12".to_owned())
}

/// A trig index outside 0 to 63.
pub fn range_trig_err() -> (r: RytmExternalError)
    ensures
        r is Custom,
{
    RytmExternalError::Custom("the trig index must be an integer between 0 and 63".to_owned())
}

/// What a set message does from a kit-level position: a kit field write, a
/// per-track element write, or a hand-off to a sound of the kit.
pub open spec fn kit_set_msg(v: KitView, toks: Seq<TokenV>, i: int) -> Option<KitView> {
    if !(0 <= i < toks.len()) {
        None
    } else {
        match toks[i] {
            TokenV::Sym(sym) => if !vstd::utf8::is_ascii_chars(sym) {
                None
            } else if enum_split(sym) is Some {
                kit_leaf_set_msg(v, toks, i)
            } else {
                match kit_symbol_spec(sym) {
                    Some(KitSymbol::Element(e)) => if i + 2 < toks.len() {
                        match token_int(toks[i + 1]) {
                            Some(idx) => if 0 <= idx <= 12 {
                                kit_element_write_msg(v, e, idx as int, toks[i + 2])
                            } else {
                                None
                            },
                            None => None,
                        }
                    } else {
                        None
                    },
                    Some(KitSymbol::SoundPart) => if i + 1 < toks.len() {
                        match token_int(toks[i + 1]) {
                            Some(si) => if 0 <= si <= 11 {
                                match sound_leaf_set_msg(v.sounds[si as int], toks, i + 2) {
                                    Some(sv) => Some(
                                        KitView { sounds: v.sounds.update(si as int, sv), ..v },
                                    ),
                                    None => None,
                                }
                            } else {
                                None
                            },
                            None => None,
                        }
                    } else {
                        None
                    },
                    _ => kit_leaf_set_msg(v, toks, i),
                }
            },
            _ => None,
        }
    }
}

/// What one element-write token does: plainly-valued elements coerce it as
/// a parameter, the two enum-valued elements read the `value` part of a
/// `type:value` symbol as the variant.
pub open spec fn kit_element_write_msg(v: KitView, e: KitElement, idx: int, t: TokenV) -> Option<
    KitView,
> {
    match e {
        KitElement::RetrigRate | KitElement::RetrigLength => match t {
            TokenV::Sym(p) => if !vstd::utf8::is_ascii_chars(p) {
                None
            } else {
                match enum_split(p) {
                    Some(parts) => kit_element_set_enum_spec(v, e, idx, parts.1),
                    None => None,
                }
            },
            _ => None,
        },
        _ => kit_element_set_spec(v, e, idx, t),
    }
}

/// What a get message reads from a kit-level position.
pub open spec fn kit_get_msg(v: KitView, toks: Seq<TokenV>, i: int, top: i64) -> Option<
    Seq<TokenV>,
> {
    if !(0 <= i < toks.len()) {
        None
    } else {
        match toks[i] {
            TokenV::Sym(sym) => if !vstd::utf8::is_ascii_chars(sym) {
                None
            } else if enum_split(sym) is Some {
                kit_leaf_get_msg(v, toks, i, top)
            } else {
                match kit_symbol_spec(sym) {
                    Some(KitSymbol::Element(e)) => if i + 1 < toks.len() {
                        match token_int(toks[i + 1]) {
                            Some(idx) => if 0 <= idx <= 12 {
                                Some(
                                    seq![
                                        TokenV::Sym(sym),
                                        TokenV::Int(top),
                                        TokenV::Int(idx),
                                        kit_element_get_spec(v, e, idx as int),
                                    ],
                                )
                            } else {
                                None
                            },
                            None => None,
                        }
                    } else {
                        None
                    },
                    Some(KitSymbol::SoundPart) => if i + 1 < toks.len() {
                        match token_int(toks[i + 1]) {
                            Some(si) => if 0 <= si <= 11 {
                                sound_leaf_get_msg(v.sounds[si as int], toks, i + 2, top)
                            } else {
                                None
                            },
                            None => None,
                        }
                    } else {
                        None
                    },
                    _ => kit_leaf_get_msg(v, toks, i, top),
                }
            },
            _ => None,
        }
    }
}

/// Applies a set message from a kit-level position.
pub fn kit_handle_set(kit: &mut Kit, toks: &Vec<Token>, i: usize) -> (r: Result<
    (),
    RytmExternalError,
>)
    requires
        old(kit).wf(),
    ensures
        final(kit).wf(),
        match kit_set_msg(old(kit)@, toks.deep_view(), i as int) {
            Some(v2) => r is Ok && final(kit)@ =~~= v2,
            None => r is Err && final(kit)@ =~~= old(kit)@,
        },
{
    if i >= toks.len() {
        return Err(fmt_err());
    }
    let sym = match &toks[i] {
        Token::Sym(s) => s,
        _ => {
            return Err(fmt_err());
        },
    };
    if !sym.as_str().is_ascii() {
        return Err(ident_err(sym));
    }
    let has_colon = match crate::strutil::split_colon(sym) {
        Some(_) => true,
        None => false,
    };
    if has_colon {
        return kit_handle_leaf_set(kit, toks, i);
    }
    match kit_classify(sym) {
        Some(KitSymbol::Element(e)) => {
            if !(toks.len() > 2 && i < toks.len() - 2) {
                return Err(fmt_err());
            }
            let idx = match &toks[i + 1] {
                Token::Int(idx) => {
                    if 0 <= *idx && *idx <= 12 {
                        *idx as usize
                    } else {
                        return Err(range_track_err());
                    }
                },
                _ => {
                    return Err(range_err(sym));
                },
            };
            let tk = &toks[i + 2];
            match e {
                KitElement::RetrigRate | KitElement::RetrigLength => {
                    let p = match tk {
                        Token::Sym(p) => p,
                        _ => {
                            return Err(param_err(sym));
                        },
                    };
                    if !p.as_str().is_ascii() {
                        return Err(param_err(sym));
                    }
                    match crate::strutil::split_colon(p) {
                        Some(parts) => {
                            if kit.element_set_enum(e, idx, &parts.1) {
                                Ok(())
                            } else {
                                Err(param_err(sym))
                            }
                        },
                        None => Err(param_err(sym)),
                    }
                },
                _ => {
                    if kit.element_set(e, idx, tk) {
                        Ok(())
                    } else {
                        Err(param_err(sym))
                    }
                },
            }
        },
        Some(KitSymbol::SoundPart) => {
            if i + 1 >= toks.len() {
                return Err(fmt_err());
            }
            let si = match &toks[i + 1] {
                Token::Int(si) => {
                    if 0 <= *si && *si <= 11 {
                        *si as usize
                    } else {
                        return Err(range_sound_err());
                    }
                },
                _ => {
                    return Err(range_err(sym));
                },
            };
            let snd = &mut kit.sounds[si];
            let r = sound_handle_leaf_set(snd, toks, i + 2);
            proof {
                assert(kit.sounds.deep_view() =~~= old(kit).sounds.deep_view().update(
                    si as int,
                    kit.sounds@[si as int]@,
                )) by {
                    assert forall|j: int|
                        0 <= j < kit.sounds@.len() && j != si implies #[trigger] kit.sounds.deep_view()[j]
                        == old(kit).sounds.deep_view()[j] by {
                        assert(kit.sounds@[j] == old(kit).sounds@[j]);
                    }
                }
                if r is Err {
                    assert(kit@ =~~= old(kit)@);
                }
            }
            r
        },
        _ => kit_handle_leaf_set(kit, toks, i),
    }
}

/// A sound index outside 0 to 11.
pub fn range_sound_err() -> (r: RytmExternalError)
    ensures
        r is Custom,
{
    RytmExternalError::Custom("the sound index must be an integer between 0 and 11".to_owned())
}

/// Reads with a get message from a kit-level position.
pub fn kit_handle_get(kit: &Kit, toks: &Vec<Token>, i: usize, top: i64) -> (r: Result<
    Vec<Token>,
    RytmExternalError,
>)
    requires
        kit.wf(),
    ensures
        match kit_get_msg(kit@, toks.deep_view(), i as int, top) {
            Some(out) => r matches Ok(o) && o.deep_view() =~~= out,
            None => r is Err,
        },
{
    if i >= toks.len() {
        return Err(get_fmt_err());
    }
    let sym = match &toks[i] {
        Token::Sym(s) => s,
        _ => {
            return Err(get_fmt_err());
        },
    };
    if !sym.as_str().is_ascii() {
        return Err(ident_err(sym));
    }
    let has_colon = match crate::strutil::split_colon(sym) {
        Some(_) => true,
        None => false,
    };
    if has_colon {
        return kit_handle_leaf_get(kit, toks, i, top);
    }
    match kit_classify(sym) {
        Some(KitSymbol::Element(e)) => {
            if i + 1 >= toks.len() {
                return Err(get_fmt_err());
            }
            let idx = match &toks[i + 1] {
                Token::Int(idx) => {
                    if 0 <= *idx && *idx <= 12 {
                        *idx
                    } else {
                        return Err(range_track_err());
                    }
                },
                _ => {
                    return Err(range_err(sym));
                },
            };
            let value = kit.element_get(e, idx as usize);
            Ok(quad(Token::Sym(sym.clone()), Token::Int(top), Token::Int(idx), value))
        },
        Some(KitSymbol::SoundPart) => {
            if i + 1 >= toks.len() {
                return Err(get_fmt_err());
            }
            let si = match &toks[i + 1] {
                Token::Int(si) => {
                    if 0 <= *si && *si <= 11 {
                        *si as usize
                    } else {
                        return Err(range_sound_err());
                    }
                },
                _ => {
                    return Err(range_err(sym));
                },
            };
            sound_handle_leaf_get(&kit.sounds[si], toks, i + 2, top)
        },
        _ => kit_handle_leaf_get(kit, toks, i, top),
    }
}

/// What a whole set message does to the project: the selector resolves an
/// object class and slot, the resolver descends, and exactly one field,
/// element or lock of the addressed object changes. Nothing changes on any
/// error.
pub open spec fn project_set_msg(p: ProjectView, toks: Seq<TokenV>) -> Option<ProjectView> {
    if toks.len() == 0 {
        None
    } else {
        let second = if toks.len() > 1 {
            Some(toks[1])
        } else {
            None
        };
        match selector_outcome(toks[0], second) {
            SelectorOutcome::Resolved(sel) => match sel {
                ObjectTypeSelector::Pattern(ix) => match pattern_set_msg(
                    p.patterns[ix as int],
                    toks,
                    2,
                ) {
                    Some(pv) => Some(ProjectView { patterns: p.patterns.update(ix as int, pv), ..p }),
                    None => None,
                },
                ObjectTypeSelector::PatternWorkBuffer => match pattern_set_msg(
                    p.pattern_wb,
                    toks,
                    1,
                ) {
                    Some(pv) => Some(ProjectView { pattern_wb: pv, ..p }),
                    None => None,
                },
                ObjectTypeSelector::Kit(ix) => match kit_set_msg(p.kits[ix as int], toks, 2) {
                    Some(kv) => Some(ProjectView { kits: p.kits.update(ix as int, kv), ..p }),
                    None => None,
                },
                ObjectTypeSelector::KitWorkBuffer => match kit_set_msg(p.kit_wb, toks, 1) {
                    Some(kv) => Some(ProjectView { kit_wb: kv, ..p }),
                    None => None,
                },
                ObjectTypeSelector::Sound(ix) => match sound_leaf_set_msg(
                    p.pool_sounds[ix as int],
                    toks,
                    2,
                ) {
                    Some(sv) => Some(
                        ProjectView { pool_sounds: p.pool_sounds.update(ix as int, sv), ..p },
                    ),
                    None => None,
                },
                ObjectTypeSelector::SoundWorkBuffer(ix) => match sound_leaf_set_msg(
                    p.work_buffer_sounds[ix as int],
                    toks,
                    2,
                ) {
                    Some(sv) => Some(
                        ProjectView {
                            work_buffer_sounds: p.work_buffer_sounds.update(ix as int, sv),
                            ..p
                        },
                    ),
                    None => None,
                },
                ObjectTypeSelector::Global(ix) => match global_leaf_set_msg(
                    p.globals[ix as int],
                    toks,
                    2,
                ) {
                    Some(gv) => Some(ProjectView { globals: p.globals.update(ix as int, gv), ..p }),
                    None => None,
                },
                ObjectTypeSelector::GlobalWorkBuffer => match global_leaf_set_msg(
                    p.global_wb,
                    toks,
                    1,
                ) {
                    Some(gv) => Some(ProjectView { global_wb: gv, ..p }),
                    None => None,
                },
                ObjectTypeSelector::Settings => match settings_leaf_set_msg(p.settings, toks, 1) {
                    Some(sv) => Some(ProjectView { settings: sv, ..p }),
                    None => None,
                },
            },
            _ => None,
        }
    }
}

/// What a whole get message reads from the project, as its reply tuple.
pub open spec fn project_get_msg(p: ProjectView, toks: Seq<TokenV>) -> Option<Seq<TokenV>> {
    if toks.len() == 0 {
        None
    } else {
        let second = if toks.len() > 1 {
            Some(toks[1])
        } else {
            None
        };
        match selector_outcome(toks[0], second) {
            SelectorOutcome::Resolved(sel) => match sel {
                ObjectTypeSelector::Pattern(ix) => pattern_get_msg(
                    p.patterns[ix as int],
                    toks,
                    2,
                    ix as i64,
                ),
                ObjectTypeSelector::PatternWorkBuffer => pattern_get_msg(p.pattern_wb, toks, 1, 0),
                ObjectTypeSelector::Kit(ix) => kit_get_msg(p.kits[ix as int], toks, 2, ix as i64),
                ObjectTypeSelector::KitWorkBuffer => kit_get_msg(p.kit_wb, toks, 1, 0),
                ObjectTypeSelector::Sound(ix) => sound_leaf_get_msg(
                    p.pool_sounds[ix as int],
                    toks,
                    2,
                    ix as i64,
                ),
                ObjectTypeSelector::SoundWorkBuffer(ix) => sound_leaf_get_msg(
                    p.work_buffer_sounds[ix as int],
                    toks,
                    2,
                    ix as i64,
                ),
                ObjectTypeSelector::Global(ix) => global_leaf_get_msg(
                    p.globals[ix as int],
                    toks,
                    2,
                    ix as i64,
                ),
                ObjectTypeSelector::GlobalWorkBuffer => global_leaf_get_msg(p.global_wb, toks, 1, 0),
                ObjectTypeSelector::Settings => settings_leaf_get_msg(p.settings, toks, 1, 0),
            },
            _ => None,
        }
    }
}

/// Applies one whole set message to the project. Exactly the messages the
/// grammar accepts succeed, and a failed message leaves the project as it
/// was: no partial mutation survives an error.
pub fn handle_set(p: &mut Project, toks: &Vec<Token>) -> (r: Result<(), RytmExternalError>)
    requires
        old(p).wf(),
    ensures
        final(p).wf(),
        match project_set_msg(old(p)@, toks.deep_view()) {
            Some(v2) => r is Ok && final(p)@ =~~= v2,
            None => r is Err && final(p)@ =~~= old(p)@,
        },
{
    if toks.len() == 0 {
        return Err(
            RytmExternalError::Setter(
                SetError::InvalidFormat("nothing follows the set selector".to_owned()),
            ),
        );
    }
    let second = if toks.len() > 1 {
        Some(&toks[1])
    } else {
        None
    };
    let sel = match ObjectTypeSelector::try_from_tokens(&toks[0], second) {
        Ok(sel) => sel,
        Err(e) => {
            return Err(e);
        },
    };
    match sel {
        ObjectTypeSelector::Pattern(ix) => {
            let obj = &mut p.patterns[ix];
            let r = pattern_handle_set(obj, toks, 2);
            proof {
                assert(p.patterns.deep_view() =~~= old(p).patterns.deep_view().update(
                    ix as int,
                    p.patterns@[ix as int]@,
                )) by {
                    assert forall|j: int|
                        0 <= j < p.patterns@.len() && j != ix implies #[trigger] p.patterns.deep_view()[j]
                        == old(p).patterns.deep_view()[j] by {
                        assert(p.patterns@[j] == old(p).patterns@[j]);
                    }
                }
                if r is Err {
                    assert(p@ =~~= old(p)@);
                }
            }
            r
        },
        ObjectTypeSelector::PatternWorkBuffer => pattern_handle_set(&mut p.pattern_wb, toks, 1),
        ObjectTypeSelector::Kit(ix) => {
            let obj = &mut p.kits[ix];
            let r = kit_handle_set(obj, toks, 2);
            proof {
                assert(p.kits.deep_view() =~~= old(p).kits.deep_view().update(
                    ix as int,
                    p.kits@[ix as int]@,
                )) by {
                    assert forall|j: int|
                        0 <= j < p.kits@.len() && j != ix implies #[trigger] p.kits.deep_view()[j]
                        == old(p).kits.deep_view()[j] by {
                        assert(p.kits@[j] == old(p).kits@[j]);
                    }
                }
                if r is Err {
                    assert(p@ =~~= old(p)@);
                }
            }
            r
        },
        ObjectTypeSelector::KitWorkBuffer => kit_handle_set(&mut p.kit_wb, toks, 1),
        ObjectTypeSelector::Sound(ix) => {
            let obj = &mut p.pool_sounds[ix];
            let r = sound_handle_leaf_set(obj, toks, 2);
            proof {
                assert(p.pool_sounds.deep_view() =~~= old(p).pool_sounds.deep_view().update(
                    ix as int,
                    p.pool_sounds@[ix as int]@,
                )) by {
                    assert forall|j: int|
                        0 <= j < p.pool_sounds@.len() && j != ix implies #[trigger] p.pool_sounds.deep_view()[j]
                        == old(p).pool_sounds.deep_view()[j] by {
                        assert(p.pool_sounds@[j] == old(p).pool_sounds@[j]);
                    }
                }
                if r is Err {
                    assert(p@ =~~= old(p)@);
                }
            }
            r
        },
        ObjectTypeSelector::SoundWorkBuffer(ix) => {
            let obj = &mut p.work_buffer_sounds[ix];
            let r = sound_handle_leaf_set(obj, toks, 2);
            proof {
                assert(p.work_buffer_sounds.deep_view()
                    =~~= old(p).work_buffer_sounds.deep_view().update(
                    ix as int,
                    p.work_buffer_sounds@[ix as int]@,
                )) by {
                    assert forall|j: int|
                        0 <= j < p.work_buffer_sounds@.len() && j
                            != ix implies #[trigger] p.work_buffer_sounds.deep_view()[j] == old(
                        p,
                    ).work_buffer_sounds.deep_view()[j] by {
                        assert(p.work_buffer_sounds@[j] == old(p).work_buffer_sounds@[j]);
                    }
                }
                if r is Err {
                    assert(p@ =~~= old(p)@);
                }
            }
            r
        },
        ObjectTypeSelector::Global(ix) => {
            let obj = &mut p.globals[ix];
            let r = global_handle_leaf_set(obj, toks, 2);
            proof {
                assert(p.globals.deep_view() =~~= old(p).globals.deep_view().update(
                    ix as int,
                    p.globals@[ix as int]@,
                )) by {
                    assert forall|j: int|
                        0 <= j < p.globals@.len() && j != ix implies #[trigger] p.globals.deep_view()[j]
                        == old(p).globals.deep_view()[j] by {
                        assert(p.globals@[j] == old(p).globals@[j]);
                    }
                }
                if r is Err {
                    assert(p@ =~~= old(p)@);
                }
            }
            r
        },
        ObjectTypeSelector::GlobalWorkBuffer => global_handle_leaf_set(&mut p.global_wb, toks, 1),
        ObjectTypeSelector::Settings => settings_handle_leaf_set(&mut p.settings, toks, 1),
    }
}

/// Reads one whole get message from the project, producing the reply tuple
/// that would be sent to the output channel. Reading never mutates.
pub fn handle_get(p: &Project, toks: &Vec<Token>) -> (r: Result<Vec<Token>, RytmExternalError>)
    requires
        p.wf(),
    ensures
        match project_get_msg(p@, toks.deep_view()) {
            Some(out) => r matches Ok(o) && o.deep_view() =~~= out,
            None => r is Err,
        },
{
    if toks.len() == 0 {
        return Err(
            RytmExternalError::Getter(
                GetError::InvalidFormat("nothing follows the get selector".to_owned()),
            ),
        );
    }
    let second = if toks.len() > 1 {
        Some(&toks[1])
    } else {
        None
    };
    let sel = match ObjectTypeSelector::try_from_tokens(&toks[0], second) {
        Ok(sel) => sel,
        Err(e) => {
            return Err(e);
        },
    };
    match sel {
        ObjectTypeSelector::Pattern(ix) => pattern_handle_get(&p.patterns[ix], toks, 2, ix as i64),
        ObjectTypeSelector::PatternWorkBuffer => pattern_handle_get(&p.pattern_wb, toks, 1, 0),
        ObjectTypeSelector::Kit(ix) => kit_handle_get(&p.kits[ix], toks, 2, ix as i64),
        ObjectTypeSelector::KitWorkBuffer => kit_handle_get(&p.kit_wb, toks, 1, 0),
        ObjectTypeSelector::Sound(ix) => sound_handle_leaf_get(
            &p.pool_sounds[ix],
            toks,
            2,
            ix as i64,
        ),
        ObjectTypeSelector::SoundWorkBuffer(ix) => sound_handle_leaf_get(
            &p.work_buffer_sounds[ix],
            toks,
            2,
            ix as i64,
        ),
        ObjectTypeSelector::Global(ix) => global_handle_leaf_get(&p.globals[ix], toks, 2, ix as i64),
        ObjectTypeSelector::GlobalWorkBuffer => global_handle_leaf_get(&p.global_wb, toks, 1, 0),
        ObjectTypeSelector::Settings => settings_handle_leaf_get(&p.settings, toks, 1, 0),
    }
}

} // verus!
