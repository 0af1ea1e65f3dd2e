//! Boundary tests of the Object-Type Selector, at both ends of every
//! documented index range.

use rytm_external::error::{QueryError, RytmExternalError};
use rytm_external::token::Token;
use rytm_external::types::{ObjectTypeSelector, TrigActionType};

fn sym(s: &str) -> Token {
    Token::Sym(s.to_string())
}

fn ival(i: i64) -> Token {
    Token::Int(i)
}

fn resolve(first: Token, second: Option<Token>) -> Result<ObjectTypeSelector, RytmExternalError> {
    ObjectTypeSelector::try_from_tokens(&first, second.as_ref())
}

#[test]
fn selector_pattern_bounds() {
    assert!(matches!(resolve(sym("pattern"), Some(ival(0))), Ok(ObjectTypeSelector::Pattern(0))));
    assert!(
        matches!(resolve(sym("pattern"), Some(ival(127))), Ok(ObjectTypeSelector::Pattern(127)))
    );
    assert!(matches!(resolve(sym("pattern"), Some(ival(-1))), Err(RytmExternalError::Custom(_))));
    assert!(matches!(resolve(sym("pattern"), Some(ival(128))), Err(RytmExternalError::Custom(_))));
}

#[test]
fn selector_kit_bounds() {
    assert!(matches!(resolve(sym("kit"), Some(ival(0))), Ok(ObjectTypeSelector::Kit(0))));
    assert!(matches!(resolve(sym("kit"), Some(ival(127))), Ok(ObjectTypeSelector::Kit(127))));
    assert!(matches!(resolve(sym("kit"), Some(ival(-1))), Err(RytmExternalError::Custom(_))));
    assert!(matches!(resolve(sym("kit"), Some(ival(128))), Err(RytmExternalError::Custom(_))));
}

#[test]
fn selector_sound_bounds() {
    assert!(matches!(resolve(sym("sound"), Some(ival(0))), Ok(ObjectTypeSelector::Sound(0))));
    assert!(matches!(resolve(sym("sound"), Some(ival(11))), Ok(ObjectTypeSelector::Sound(11))));
    assert!(matches!(resolve(sym("sound"), Some(ival(-1))), Err(RytmExternalError::Custom(_))));
    assert!(matches!(resolve(sym("sound"), Some(ival(12))), Err(RytmExternalError::Custom(_))));
}

#[test]
fn selector_sound_work_buffer_bounds() {
    assert!(
        matches!(
            resolve(sym("sound_wb"), Some(ival(0))),
            Ok(ObjectTypeSelector::SoundWorkBuffer(0))
        )
    );
    assert!(
        matches!(
            resolve(sym("sound_wb"), Some(ival(11))),
            Ok(ObjectTypeSelector::SoundWorkBuffer(11))
        )
    );
    assert!(matches!(resolve(sym("sound_wb"), Some(ival(-1))), Err(RytmExternalError::Custom(_))));
    assert!(matches!(resolve(sym("sound_wb"), Some(ival(12))), Err(RytmExternalError::Custom(_))));
}

#[test]
fn selector_global_bounds() {
    assert!(matches!(resolve(sym("global"), Some(ival(0))), Ok(ObjectTypeSelector::Global(0))));
    assert!(matches!(resolve(sym("global"), Some(ival(3))), Ok(ObjectTypeSelector::Global(3))));
    assert!(matches!(resolve(sym("global"), Some(ival(-1))), Err(RytmExternalError::Custom(_))));
    assert!(matches!(resolve(sym("global"), Some(ival(4))), Err(RytmExternalError::Custom(_))));
}

#[test]
fn selector_singletons_ignore_second_token() {
    assert!(
        matches!(
            resolve(sym("pattern_wb"), Some(ival(5))),
            Ok(ObjectTypeSelector::PatternWorkBuffer)
        )
    );
    assert!(matches!(resolve(sym("kit_wb"), None), Ok(ObjectTypeSelector::KitWorkBuffer)));
    assert!(
        matches!(resolve(sym("global_wb"), Some(sym("x"))), Ok(ObjectTypeSelector::GlobalWorkBuffer))
    );
    assert!(matches!(resolve(sym("settings"), None), Ok(ObjectTypeSelector::Settings)));
}

#[test]
fn selector_error_taxonomy() {
    assert!(
        matches!(
            resolve(sym("nonsense"), Some(ival(0))),
            Err(RytmExternalError::Query(QueryError::InvalidSelector))
        )
    );
    assert!(
        matches!(
            resolve(ival(4), Some(ival(0))),
            Err(RytmExternalError::Query(QueryError::InvalidSelector))
        )
    );
    assert!(
        matches!(
            resolve(sym("pattern"), None),
            Err(RytmExternalError::Query(QueryError::InvalidFormat))
        )
    );
    assert!(
        matches!(
            resolve(sym("pattern"), Some(sym("three"))),
            Err(RytmExternalError::Query(QueryError::InvalidIndexType))
        )
    );
}

#[test]
fn selector_indexable_classification() {
    assert!(ObjectTypeSelector::Pattern(0).indexable());
    assert!(ObjectTypeSelector::Kit(5).indexable());
    assert!(ObjectTypeSelector::Sound(1).indexable());
    assert!(ObjectTypeSelector::SoundWorkBuffer(1).indexable());
    assert!(ObjectTypeSelector::Global(2).indexable());
    assert!(!ObjectTypeSelector::PatternWorkBuffer.indexable());
    assert!(!ObjectTypeSelector::KitWorkBuffer.indexable());
    assert!(!ObjectTypeSelector::GlobalWorkBuffer.indexable());
    assert!(!ObjectTypeSelector::Settings.indexable());
}

#[test]
fn trig_action_type_names() {
    assert!(
        matches!(TrigActionType::try_from_name(&"enable".to_string()), Ok(TrigActionType::Enable))
    );
    assert!(
        matches!(TrigActionType::try_from_name(&"slide".to_string()), Ok(TrigActionType::Slide))
    );
    assert!(TrigActionType::try_from_name(&"wobble".to_string()).is_err());
}
