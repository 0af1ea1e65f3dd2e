//! The Object-Type Selector: the first one or two tokens of a message name
//! one of the nine addressable object classes, with a bounds-checked slot
//! index where the class is indexable. Work-buffer and singleton classes
//! never consume a second token; it is left for the path resolver.

use vstd::prelude::*;

use crate::error::{QueryError, RytmExternalError};
use crate::token::{Token, TokenV};

verus! {

/// An addressed object class, with its validated index where one is needed.
#[derive(Debug, Copy, Clone, PartialEq, Eq, Structural)]
pub enum ObjectTypeSelector {
    Pattern(usize),
    PatternWorkBuffer,
    Kit(usize),
    KitWorkBuffer,
    Sound(usize),
    SoundWorkBuffer(usize),
    Global(usize),
    GlobalWorkBuffer,
    Settings,
}

/// How resolving the first tokens of a message can end.
pub ghost enum SelectorOutcome {
    Resolved(ObjectTypeSelector),
    /// The first token is not a symbol, or names no object class.
    BadSelector,
    /// An indexable class came without its index token.
    MissingIndex,
    /// The index position holds a non-integer atom.
    BadIndexType,
    /// The index is an integer outside the class's valid range.
    IndexOutOfRange,
}

/// The ceiling of the index range of an indexable class keyword, if the
/// keyword names an indexable class; every floor is 0.
pub open spec fn indexable_class_ceiling(s: Seq<char>) -> Option<i64> {
    if s == "pattern"@ {
        Some(127)
    } else if s == "kit"@ {
        Some(127)
    } else if s == "sound"@ {
        Some(11)
    } else if s == "sound_wb"@ {
        Some(11)
    } else if s == "global"@ {
        Some(3)
    } else {
        None
    }
}

/// The selector an indexable class keyword resolves to, for an in-range index.
pub open spec fn indexed_selector(s: Seq<char>, i: i64) -> ObjectTypeSelector {
    if s == "pattern"@ {
        ObjectTypeSelector::Pattern(i as usize)
    } else if s == "kit"@ {
        ObjectTypeSelector::Kit(i as usize)
    } else if s == "sound"@ {
        ObjectTypeSelector::Sound(i as usize)
    } else if s == "sound_wb"@ {
        ObjectTypeSelector::SoundWorkBuffer(i as usize)
    } else {
        ObjectTypeSelector::Global(i as usize)
    }
}

/// The selector a singleton or work-buffer class keyword resolves to.
pub open spec fn singleton_selector(s: Seq<char>) -> Option<ObjectTypeSelector> {
    if s == "pattern_wb"@ {
        Some(ObjectTypeSelector::PatternWorkBuffer)
    } else if s == "kit_wb"@ {
        Some(ObjectTypeSelector::KitWorkBuffer)
    } else if s == "global_wb"@ {
        Some(ObjectTypeSelector::GlobalWorkBuffer)
    } else if s == "settings"@ {
        Some(ObjectTypeSelector::Settings)
    } else {
        None
    }
}

/// What the Object-Type Selector decides for the first token and, where one
/// is present, the token after it.
pub open spec fn selector_outcome(first: TokenV, second: Option<TokenV>) -> SelectorOutcome {
    match first {
        TokenV::Sym(s) => {
            if singleton_selector(s) is Some {
                SelectorOutcome::Resolved(singleton_selector(s)->Some_0)
            } else {
                match indexable_class_ceiling(s) {
                    Some(ceiling) => match second {
                        None => SelectorOutcome::MissingIndex,
                        Some(TokenV::Int(i)) => if 0 <= i <= ceiling {
                            SelectorOutcome::Resolved(indexed_selector(s, i))
                        } else {
                            SelectorOutcome::IndexOutOfRange
                        },
                        Some(_) => SelectorOutcome::BadIndexType,
                    },
                    None => SelectorOutcome::BadSelector,
                }
            }
        },
        _ => SelectorOutcome::BadSelector,
    }
}

impl ObjectTypeSelector {
    /// Whether the class carries a pool or slot index of its own.
    pub fn indexable(&self) -> (r: bool)
        ensures
            r == (self matches ObjectTypeSelector::Pattern(_) || self
                matches ObjectTypeSelector::Kit(_) || self matches ObjectTypeSelector::Sound(_)
                || self matches ObjectTypeSelector::SoundWorkBuffer(_) || self
                matches ObjectTypeSelector::Global(_)),
    {
        matches!(
            self,
            Self::Pattern(_) | Self::Kit(_) | Self::Sound(_) | Self::SoundWorkBuffer(_)
                | Self::Global(_)
        )
    }

    /// Resolves the first token of a message, and the token after it where
    /// one exists, to an object class and validated index. Rejects unknown
    /// class keywords, a missing index, a non-integer index, and an index
    /// outside the class's documented range; never clamps.
    pub fn try_from_tokens(first: &Token, second: Option<&Token>) -> (r: Result<
        ObjectTypeSelector,
        RytmExternalError,
    >)
        ensures
            match selector_outcome(first@, match second {
                Some(t) => Some(t@),
                None => None,
            }) {
                SelectorOutcome::Resolved(sel) => r == Ok::<_, RytmExternalError>(sel),
                SelectorOutcome::BadSelector => r == Err::<ObjectTypeSelector, _>(
                    RytmExternalError::Query(QueryError::InvalidSelector),
                ),
                SelectorOutcome::MissingIndex => r == Err::<ObjectTypeSelector, _>(
                    RytmExternalError::Query(QueryError::InvalidFormat),
                ),
                SelectorOutcome::BadIndexType => r == Err::<ObjectTypeSelector, _>(
                    RytmExternalError::Query(QueryError::InvalidIndexType),
                ),
                SelectorOutcome::IndexOutOfRange => r matches Err(e) && e is Custom,
            },
    {
        let sym = match first {
            Token::Sym(s) => s,
            _ => {
                return Err(RytmExternalError::Query(QueryError::InvalidSelector));
            },
        };
        if *sym == "pattern_wb".to_owned() {
            Ok(Self::PatternWorkBuffer)
        } else if *sym == "kit_wb".to_owned() {
            Ok(Self::KitWorkBuffer)
        } else if *sym == "global_wb".to_owned() {
            Ok(Self::GlobalWorkBuffer)
        } else if *sym == "settings".to_owned() {
            Ok(Self::Settings)
        } else {
            let ceiling: i64 = if *sym == "pattern".to_owned() {
                127
            } else if *sym == "kit".to_owned() {
                127
            } else if *sym == "sound".to_owned() {
                11
            } else if *sym == "sound_wb".to_owned() {
                11
            } else if *sym == "global".to_owned() {
                3
            } else {
                return Err(RytmExternalError::Query(QueryError::InvalidSelector));
            };
            let index_token = match second {
                Some(t) => t,
                None => {
                    return Err(RytmExternalError::Query(QueryError::InvalidFormat));
                },
            };
            let i = match index_token {
                Token::Int(i) => *i,
                _ => {
                    return Err(RytmExternalError::Query(QueryError::InvalidIndexType));
                },
            };
            if !(0 <= i && i <= ceiling) {
                return Err(
                    RytmExternalError::Custom(
                        "Invalid index: the slot index is out of the range of its object class.".to_owned(),
                    ),
                );
            }
            if *sym == "pattern".to_owned() {
                Ok(Self::Pattern(i as usize))
            } else if *sym == "kit".to_owned() {
                Ok(Self::Kit(i as usize))
            } else if *sym == "sound".to_owned() {
                Ok(Self::Sound(i as usize))
            } else if *sym == "sound_wb".to_owned() {
                Ok(Self::SoundWorkBuffer(i as usize))
            } else {
                Ok(Self::Global(i as usize))
            }
        }
    }
}

} // verus!

verus! {

/// The six per-step flags of a trig, as a standalone action type.
#[derive(Debug, Copy, Clone, PartialEq, Eq, Structural)]
pub enum TrigActionType {
    Enable,
    Retrig,
    Mute,
    Accent,
    Swing,
    Slide,
}

/// The flag a symbol names, if it names one.
pub open spec fn trig_action_type_spec(s: Seq<char>) -> Option<TrigActionType> {
    if s == "enable"@ {
        Some(TrigActionType::Enable)
    } else if s == "retrig"@ {
        Some(TrigActionType::Retrig)
    } else if s == "mute"@ {
        Some(TrigActionType::Mute)
    } else if s == "accent"@ {
        Some(TrigActionType::Accent)
    } else if s == "swing"@ {
        Some(TrigActionType::Swing)
    } else if s == "slide"@ {
        Some(TrigActionType::Slide)
    } else {
        None
    }
}

impl TrigActionType {
    /// Resolves a symbol to the trig flag it names.
    pub fn try_from_name(s: &String) -> (r: Result<TrigActionType, RytmExternalError>)
        ensures
            match trig_action_type_spec(s@) {
                Some(t) => r == Ok::<_, RytmExternalError>(t),
                None => r is Err,
            },
    {
        if *s == "enable".to_owned() {
            Ok(TrigActionType::Enable)
        } else if *s == "retrig".to_owned() {
            Ok(TrigActionType::Retrig)
        } else if *s == "mute".to_owned() {
            Ok(TrigActionType::Mute)
        } else if *s == "accent".to_owned() {
            Ok(TrigActionType::Accent)
        } else if *s == "swing".to_owned() {
            Ok(TrigActionType::Swing)
        } else if *s == "slide".to_owned() {
            Ok(TrigActionType::Slide)
        } else {
            Err(RytmExternalError::Custom("the symbol names no trig flag".to_owned()))
        }
    }
}

} // verus!
