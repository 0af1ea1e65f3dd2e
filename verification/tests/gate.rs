//! The system-exclusive input gate, and the identifier-table disjointness
//! sampled on concrete symbols.

use rytm_external::fields::{
    kit_classify, sound_classify, trig_classify, KitSymbol, SoundSymbol, TrigSymbol,
};
use rytm_external::sysex_in::{FeedOutcome, SysexInBuffer};

#[test]
fn gate_buffers_one_whole_message() {
    let mut g = SysexInBuffer::new();
    assert!(matches!(g.feed(0xF0), FeedOutcome::Buffered));
    assert!(matches!(g.feed(0x41), FeedOutcome::Buffered));
    assert!(matches!(g.feed(0x42), FeedOutcome::Buffered));
    match g.feed(0xF7) {
        FeedOutcome::Complete(m) => assert_eq!(m, vec![0xF0, 0x41, 0x42, 0xF7]),
        other => panic!("expected a complete message, got {other:?}"),
    }
    // A following message then starts cleanly.
    assert!(matches!(g.feed(0xF0), FeedOutcome::Buffered));
    match g.feed(0xF7) {
        FeedOutcome::Complete(m) => assert_eq!(m, vec![0xF0, 0xF7]),
        other => panic!("expected a complete message, got {other:?}"),
    }
}

#[test]
fn gate_rejects_bytes_outside_a_message() {
    let mut g = SysexInBuffer::new();
    assert!(matches!(g.feed(0x13), FeedOutcome::Rejected));
    assert!(matches!(g.feed(0xF7), FeedOutcome::Rejected));
    assert!(matches!(g.feed(0xF0), FeedOutcome::Buffered));
}

#[test]
fn tables_classify_each_symbol_one_way() {
    // A symbol is a plain identifier or an enumerated type, never both:
    // the classifier returns a single answer per kind.
    assert!(matches!(
        trig_classify(&"note".to_string()),
        Some(TrigSymbol::Plain(_))
    ));
    assert!(matches!(
        trig_classify(&"microtime".to_string()),
        Some(TrigSymbol::EnumType(_))
    ));
    assert!(trig_classify(&"fxdelaytime".to_string()).is_none());

    assert!(matches!(
        kit_classify(&"fxdelaytime".to_string()),
        Some(KitSymbol::Plain(_))
    ));
    assert!(matches!(
        kit_classify(&"fxcompattack".to_string()),
        Some(KitSymbol::EnumType(_))
    ));
    assert!(matches!(
        kit_classify(&"tracklevel".to_string()),
        Some(KitSymbol::Element(_))
    ));
    assert!(matches!(kit_classify(&"sound".to_string()), Some(KitSymbol::SoundPart)));

    assert!(matches!(
        sound_classify(&"ampvolume".to_string()),
        Some(SoundSymbol::Plain(_))
    ));
    assert!(matches!(
        sound_classify(&"filtertype".to_string()),
        Some(SoundSymbol::EnumType(_))
    ));
}
