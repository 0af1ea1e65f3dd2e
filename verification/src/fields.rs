//! The identifier tables: for each object kind, one shared classifier maps a
//! symbol to the plain field, enumerated-type or (for kits) element it names.
//! Each kind has exactly one table, so a symbol can never be both a plain
//! identifier and an enumerated-type identifier of the same kind.

use vstd::prelude::*;

verus! {

/// A plain field identifier of a pattern.
#[derive(Debug, Copy, Clone, PartialEq, Eq, Structural)]
pub enum PatternField {
    IsWb,
    Version,
    Index,
    MasterLength,
    MasterChange,
    KitNumber,
    SwingAmount,
    GlobalQuantize,
    Bpm,
}

/// An enumerated-type identifier of a pattern.
#[derive(Debug, Copy, Clone, PartialEq, Eq, Structural)]
pub enum PatternEnumType {
    Speed,
    TimeMode,
}

/// What a symbol means under the pattern kind.
#[derive(Debug, Copy, Clone, PartialEq, Eq, Structural)]
pub enum PatternSymbol {
    Plain(PatternField),
    EnumType(PatternEnumType),
}

/// The one identifier table of the pattern kind.
pub open spec fn pattern_symbol_spec(s: Seq<char>) -> Option<PatternSymbol> {
    if s == "iswb"@ {
        Some(PatternSymbol::Plain(PatternField::IsWb))
    } else if s == "version"@ {
        Some(PatternSymbol::Plain(PatternField::Version))
    } else if s == "index"@ {
        Some(PatternSymbol::Plain(PatternField::Index))
    } else if s == "masterlength"@ {
        Some(PatternSymbol::Plain(PatternField::MasterLength))
    } else if s == "masterchg"@ {
        Some(PatternSymbol::Plain(PatternField::MasterChange))
    } else if s == "kitnumber"@ {
        Some(PatternSymbol::Plain(PatternField::KitNumber))
    } else if s == "swingamount"@ {
        Some(PatternSymbol::Plain(PatternField::SwingAmount))
    } else if s == "globalquantize"@ {
        Some(PatternSymbol::Plain(PatternField::GlobalQuantize))
    } else if s == "patternbpm"@ {
        Some(PatternSymbol::Plain(PatternField::Bpm))
    } else if s == "speed"@ {
        Some(PatternSymbol::EnumType(PatternEnumType::Speed))
    } else if s == "timemode"@ {
        Some(PatternSymbol::EnumType(PatternEnumType::TimeMode))
    } else {
        None
    }
}

/// Looks a symbol up in the pattern identifier table.
pub fn pattern_classify(s: &String) -> (r: Option<PatternSymbol>)
    ensures
        r == pattern_symbol_spec(s@),
{
    if *s == "iswb".to_owned() {
        Some(PatternSymbol::Plain(PatternField::IsWb))
    } else if *s == "version".to_owned() {
        Some(PatternSymbol::Plain(PatternField::Version))
    } else if *s == "index".to_owned() {
        Some(PatternSymbol::Plain(PatternField::Index))
    } else if *s == "masterlength".to_owned() {
        Some(PatternSymbol::Plain(PatternField::MasterLength))
    } else if *s == "masterchg".to_owned() {
        Some(PatternSymbol::Plain(PatternField::MasterChange))
    } else if *s == "kitnumber".to_owned() {
        Some(PatternSymbol::Plain(PatternField::KitNumber))
    } else if *s == "swingamount".to_owned() {
        Some(PatternSymbol::Plain(PatternField::SwingAmount))
    } else if *s == "globalquantize".to_owned() {
        Some(PatternSymbol::Plain(PatternField::GlobalQuantize))
    } else if *s == "patternbpm".to_owned() {
        Some(PatternSymbol::Plain(PatternField::Bpm))
    } else if *s == "speed".to_owned() {
        Some(PatternSymbol::EnumType(PatternEnumType::Speed))
    } else if *s == "timemode".to_owned() {
        Some(PatternSymbol::EnumType(PatternEnumType::TimeMode))
    } else {
        None
    }
}

/// A plain field identifier of a track.
#[derive(Debug, Copy, Clone, PartialEq, Eq, Structural)]
pub enum TrackField {
    Index,
    OwnerIndex,
    DefTrigNote,
    DefTrigVelocity,
    DefTrigProb,
    NumberOfSteps,
    QuantizeAmount,
    SendsMidi,
    EuclideanMode,
    EuclideanPl1,
    EuclideanPl2,
    EuclideanRo1,
    EuclideanRo2,
    EuclideanTro,
}

/// An enumerated-type identifier of a track.
#[derive(Debug, Copy, Clone, PartialEq, Eq, Structural)]
pub enum TrackEnumType {
    RootNote,
    PadScale,
    DefaultNoteLength,
}

/// What a symbol means under the track kind.
#[derive(Debug, Copy, Clone, PartialEq, Eq, Structural)]
pub enum TrackSymbol {
    Plain(TrackField),
    EnumType(TrackEnumType),
}

/// The one identifier table of the track kind.
pub open spec fn track_symbol_spec(s: Seq<char>) -> Option<TrackSymbol> {
    if s == "index"@ {
        Some(TrackSymbol::Plain(TrackField::Index))
    } else if s == "parentindex"@ {
        Some(TrackSymbol::Plain(TrackField::OwnerIndex))
    } else if s == "deftrignote"@ {
        Some(TrackSymbol::Plain(TrackField::DefTrigNote))
    } else if s == "deftrigvel"@ {
        Some(TrackSymbol::Plain(TrackField::DefTrigVelocity))
    } else if s == "deftrigprob"@ {
        Some(TrackSymbol::Plain(TrackField::DefTrigProb))
    } else if s == "steps"@ {
        Some(TrackSymbol::Plain(TrackField::NumberOfSteps))
    } else if s == "quantizeamount"@ {
        Some(TrackSymbol::Plain(TrackField::QuantizeAmount))
    } else if s == "sendsmidi"@ {
        Some(TrackSymbol::Plain(TrackField::SendsMidi))
    } else if s == "euc"@ {
        Some(TrackSymbol::Plain(TrackField::EuclideanMode))
    } else if s == "pl1"@ {
        Some(TrackSymbol::Plain(TrackField::EuclideanPl1))
    } else if s == "pl2"@ {
        Some(TrackSymbol::Plain(TrackField::EuclideanPl2))
    } else if s == "ro1"@ {
        Some(TrackSymbol::Plain(TrackField::EuclideanRo1))
    } else if s == "ro2"@ {
        Some(TrackSymbol::Plain(TrackField::EuclideanRo2))
    } else if s == "tro"@ {
        Some(TrackSymbol::Plain(TrackField::EuclideanTro))
    } else if s == "rootnote"@ {
        Some(TrackSymbol::EnumType(TrackEnumType::RootNote))
    } else if s == "padscale"@ {
        Some(TrackSymbol::EnumType(TrackEnumType::PadScale))
    } else if s == "defaultnotelength"@ {
        Some(TrackSymbol::EnumType(TrackEnumType::DefaultNoteLength))
    } else {
        None
    }
}

/// Looks a symbol up in the track identifier table.
pub fn track_classify(s: &String) -> (r: Option<TrackSymbol>)
    ensures
        r == track_symbol_spec(s@),
{
    if *s == "index".to_owned() {
        Some(TrackSymbol::Plain(TrackField::Index))
    } else if *s == "parentindex".to_owned() {
        Some(TrackSymbol::Plain(TrackField::OwnerIndex))
    } else if *s == "deftrignote".to_owned() {
        Some(TrackSymbol::Plain(TrackField::DefTrigNote))
    } else if *s == "deftrigvel".to_owned() {
        Some(TrackSymbol::Plain(TrackField::DefTrigVelocity))
    } else if *s == "deftrigprob".to_owned() {
        Some(TrackSymbol::Plain(TrackField::DefTrigProb))
    } else if *s == "steps".to_owned() {
        Some(TrackSymbol::Plain(TrackField::NumberOfSteps))
    } else if *s == "quantizeamount".to_owned() {
        Some(TrackSymbol::Plain(TrackField::QuantizeAmount))
    } else if *s == "sendsmidi".to_owned() {
        Some(TrackSymbol::Plain(TrackField::SendsMidi))
    } else if *s == "euc".to_owned() {
        Some(TrackSymbol::Plain(TrackField::EuclideanMode))
    } else if *s == "pl1".to_owned() {
        Some(TrackSymbol::Plain(TrackField::EuclideanPl1))
    } else if *s == "pl2".to_owned() {
        Some(TrackSymbol::Plain(TrackField::EuclideanPl2))
    } else if *s == "ro1".to_owned() {
        Some(TrackSymbol::Plain(TrackField::EuclideanRo1))
    } else if *s == "ro2".to_owned() {
        Some(TrackSymbol::Plain(TrackField::EuclideanRo2))
    } else if *s == "tro".to_owned() {
        Some(TrackSymbol::Plain(TrackField::EuclideanTro))
    } else if *s == "rootnote".to_owned() {
        Some(TrackSymbol::EnumType(TrackEnumType::RootNote))
    } else if *s == "padscale".to_owned() {
        Some(TrackSymbol::EnumType(TrackEnumType::PadScale))
    } else if *s == "defaultnotelength".to_owned() {
        Some(TrackSymbol::EnumType(TrackEnumType::DefaultNoteLength))
    } else {
        None
    }
}

/// A plain field identifier of a trig.
#[derive(Debug, Copy, Clone, PartialEq, Eq, Structural)]
pub enum TrigField {
    Enable,
    Retrig,
    Mute,
    Accent,
    Swing,
    Slide,
    Note,
    Velocity,
    RetrigVelOffset,
    SoundLock,
}

/// An enumerated-type identifier of a trig.
#[derive(Debug, Copy, Clone, PartialEq, Eq, Structural)]
pub enum TrigEnumType {
    MicroTime,
    NoteLength,
    RetrigLength,
    RetrigRate,
    TrigCondition,
}

/// What a symbol means under the trig kind.
#[derive(Debug, Copy, Clone, PartialEq, Eq, Structural)]
pub enum TrigSymbol {
    Plain(TrigField),
    EnumType(TrigEnumType),
}

/// The one identifier table of the trig kind.
pub open spec fn trig_symbol_spec(s: Seq<char>) -> Option<TrigSymbol> {
    if s == "enable"@ {
        Some(TrigSymbol::Plain(TrigField::Enable))
    } else if s == "retrig"@ {
        Some(TrigSymbol::Plain(TrigField::Retrig))
    } else if s == "mute"@ {
        Some(TrigSymbol::Plain(TrigField::Mute))
    } else if s == "accent"@ {
        Some(TrigSymbol::Plain(TrigField::Accent))
    } else if s == "swing"@ {
        Some(TrigSymbol::Plain(TrigField::Swing))
    } else if s == "slide"@ {
        Some(TrigSymbol::Plain(TrigField::Slide))
    } else if s == "note"@ {
        Some(TrigSymbol::Plain(TrigField::Note))
    } else if s == "velocity"@ {
        Some(TrigSymbol::Plain(TrigField::Velocity))
    } else if s == "retrigveloffset"@ {
        Some(TrigSymbol::Plain(TrigField::RetrigVelOffset))
    } else if s == "soundlock"@ {
        Some(TrigSymbol::Plain(TrigField::SoundLock))
    } else if s == "microtime"@ {
        Some(TrigSymbol::EnumType(TrigEnumType::MicroTime))
    } else if s == "notelength"@ {
        Some(TrigSymbol::EnumType(TrigEnumType::NoteLength))
    } else if s == "retriglength"@ {
        Some(TrigSymbol::EnumType(TrigEnumType::RetrigLength))
    } else if s == "retrigrate"@ {
        Some(TrigSymbol::EnumType(TrigEnumType::RetrigRate))
    } else if s == "trigcondition"@ {
        Some(TrigSymbol::EnumType(TrigEnumType::TrigCondition))
    } else {
        None
    }
}

/// Looks a symbol up in the trig identifier table.
pub fn trig_classify(s: &String) -> (r: Option<TrigSymbol>)
    ensures
        r == trig_symbol_spec(s@),
{
    if *s == "enable".to_owned() {
        Some(TrigSymbol::Plain(TrigField::Enable))
    } else if *s == "retrig".to_owned() {
        Some(TrigSymbol::Plain(TrigField::Retrig))
    } else if *s == "mute".to_owned() {
        Some(TrigSymbol::Plain(TrigField::Mute))
    } else if *s == "accent".to_owned() {
        Some(TrigSymbol::Plain(TrigField::Accent))
    } else if *s == "swing".to_owned() {
        Some(TrigSymbol::Plain(TrigField::Swing))
    } else if *s == "slide".to_owned() {
        Some(TrigSymbol::Plain(TrigField::Slide))
    } else if *s == "note".to_owned() {
        Some(TrigSymbol::Plain(TrigField::Note))
    } else if *s == "velocity".to_owned() {
        Some(TrigSymbol::Plain(TrigField::Velocity))
    } else if *s == "retrigveloffset".to_owned() {
        Some(TrigSymbol::Plain(TrigField::RetrigVelOffset))
    } else if *s == "soundlock".to_owned() {
        Some(TrigSymbol::Plain(TrigField::SoundLock))
    } else if *s == "microtime".to_owned() {
        Some(TrigSymbol::EnumType(TrigEnumType::MicroTime))
    } else if *s == "notelength".to_owned() {
        Some(TrigSymbol::EnumType(TrigEnumType::NoteLength))
    } else if *s == "retriglength".to_owned() {
        Some(TrigSymbol::EnumType(TrigEnumType::RetrigLength))
    } else if *s == "retrigrate".to_owned() {
        Some(TrigSymbol::EnumType(TrigEnumType::RetrigRate))
    } else if *s == "trigcondition".to_owned() {
        Some(TrigSymbol::EnumType(TrigEnumType::TrigCondition))
    } else {
        None
    }
}

/// A plain field identifier of a kit.
#[derive(Debug, Copy, Clone, PartialEq, Eq, Structural)]
pub enum KitField {
    Version,
    Index,
    Name,
    FxDelayTime,
    FxDelayPingPong,
    FxDelayStereoWidth,
    FxDelayFeedback,
    FxDelayHpf,
    FxDelayLpf,
    FxDelayReverbSend,
    FxDelayVolume,
    FxReverbPreDelay,
    FxReverbDecay,
    FxReverbFreq,
    FxReverbGain,
    FxReverbHpf,
    FxReverbLpf,
    FxReverbVolume,
    FxCompThreshold,
    FxCompGain,
    FxCompMix,
    FxCompVolume,
    FxLfoSpeed,
    FxLfoFade,
    FxLfoStartPhase,
    FxLfoDepth,
}

/// An enumerated-type identifier of a kit.
#[derive(Debug, Copy, Clone, PartialEq, Eq, Structural)]
pub enum KitEnumType {
    ControlInModTarget,
    FxLfoDestination,
    FxDelayTimeOnTheGrid,
    FxCompAttack,
    FxCompRelease,
    FxCompRatio,
    FxCompSideChainEq,
}

/// A per-track kit element identifier.
#[derive(Debug, Copy, Clone, PartialEq, Eq, Structural)]
pub enum KitElement {
    TrackLevel,
    RetrigRate,
    RetrigLength,
    RetrigVelOffset,
    RetrigAlwaysOn,
}

/// What a symbol means under the kit kind.
#[derive(Debug, Copy, Clone, PartialEq, Eq, Structural)]
pub enum KitSymbol {
    Plain(KitField),
    EnumType(KitEnumType),
    Element(KitElement),
    SoundPart,
}

/// The one identifier table of the kit kind.
pub open spec fn kit_symbol_spec(s: Seq<char>) -> Option<KitSymbol> {
    if s == "version"@ {
        Some(KitSymbol::Plain(KitField::Version))
    } else if s == "index"@ {
        Some(KitSymbol::Plain(KitField::Index))
    } else if s == "name"@ {
        Some(KitSymbol::Plain(KitField::Name))
    } else if s == "fxdelaytime"@ {
        Some(KitSymbol::Plain(KitField::FxDelayTime))
    } else if s == "fxdelaypingpong"@ {
        Some(KitSymbol::Plain(KitField::FxDelayPingPong))
    } else if s == "fxdelaystereowidth"@ {
        Some(KitSymbol::Plain(KitField::FxDelayStereoWidth))
    } else if s == "fxdelayfeedback"@ {
        Some(KitSymbol::Plain(KitField::FxDelayFeedback))
    } else if s == "fxdelayhpf"@ {
        Some(KitSymbol::Plain(KitField::FxDelayHpf))
    } else if s == "fxdelaylpf"@ {
        Some(KitSymbol::Plain(KitField::FxDelayLpf))
    } else if s == "fxdelayreverbsend"@ {
        Some(KitSymbol::Plain(KitField::FxDelayReverbSend))
    } else if s == "fxdelayvolume"@ {
        Some(KitSymbol::Plain(KitField::FxDelayVolume))
    } else if s == "fxreverbpredelay"@ {
        Some(KitSymbol::Plain(KitField::FxReverbPreDelay))
    } else if s == "fxreverbdecay"@ {
        Some(KitSymbol::Plain(KitField::FxReverbDecay))
    } else if s == "fxreverbfreq"@ {
        Some(KitSymbol::Plain(KitField::FxReverbFreq))
    } else if s == "fxreverbgain"@ {
        Some(KitSymbol::Plain(KitField::FxReverbGain))
    } else if s == "fxreverbhpf"@ {
        Some(KitSymbol::Plain(KitField::FxReverbHpf))
    } else if s == "fxreverblpf"@ {
        Some(KitSymbol::Plain(KitField::FxReverbLpf))
    } else if s == "fxreverbvolume"@ {
        Some(KitSymbol::Plain(KitField::FxReverbVolume))
    } else if s == "fxcompthreshold"@ {
        Some(KitSymbol::Plain(KitField::FxCompThreshold))
    } else if s == "fxcompgain"@ {
        Some(KitSymbol::Plain(KitField::FxCompGain))
    } else if s == "fxcompmix"@ {
        Some(KitSymbol::Plain(KitField::FxCompMix))
    } else if s == "fxcompvolume"@ {
        Some(KitSymbol::Plain(KitField::FxCompVolume))
    } else if s == "fxlfospeed"@ {
        Some(KitSymbol::Plain(KitField::FxLfoSpeed))
    } else if s == "fxlfofade"@ {
        Some(KitSymbol::Plain(KitField::FxLfoFade))
    } else if s == "fxlfostartphase"@ {
        Some(KitSymbol::Plain(KitField::FxLfoStartPhase))
    } else if s == "fxlfodepth"@ {
        Some(KitSymbol::Plain(KitField::FxLfoDepth))
    } else if s == "controlinmodtarget"@ {
        Some(KitSymbol::EnumType(KitEnumType::ControlInModTarget))
    } else if s == "fxlfodestination"@ {
        Some(KitSymbol::EnumType(KitEnumType::FxLfoDestination))
    } else if s == "fxdelaytimeonthegrid"@ {
        Some(KitSymbol::EnumType(KitEnumType::FxDelayTimeOnTheGrid))
    } else if s == "fxcompattack"@ {
        Some(KitSymbol::EnumType(KitEnumType::FxCompAttack))
    } else if s == "fxcomprelease"@ {
        Some(KitSymbol::EnumType(KitEnumType::FxCompRelease))
    } else if s == "fxcompratio"@ {
        Some(KitSymbol::EnumType(KitEnumType::FxCompRatio))
    } else if s == "fxcompsidechaineq"@ {
        Some(KitSymbol::EnumType(KitEnumType::FxCompSideChainEq))
    } else if s == "tracklevel"@ {
        Some(KitSymbol::Element(KitElement::TrackLevel))
    } else if s == "trackretrigrate"@ {
        Some(KitSymbol::Element(KitElement::RetrigRate))
    } else if s == "trackretriglength"@ {
        Some(KitSymbol::Element(KitElement::RetrigLength))
    } else if s == "trackretrigveloffset"@ {
        Some(KitSymbol::Element(KitElement::RetrigVelOffset))
    } else if s == "trackretrigalwayson"@ {
        Some(KitSymbol::Element(KitElement::RetrigAlwaysOn))
    } else if s == "sound"@ {
        Some(KitSymbol::SoundPart)
    } else {
        None
    }
}

/// Looks a symbol up in the kit identifier table.
#[verifier::rlimit(40)]
pub fn kit_classify(s: &String) -> (r: Option<KitSymbol>)
    ensures
        r == kit_symbol_spec(s@),
{
    if *s == "version".to_owned() {
        Some(KitSymbol::Plain(KitField::Version))
    } else if *s == "index".to_owned() {
        Some(KitSymbol::Plain(KitField::Index))
    } else if *s == "name".to_owned() {
        Some(KitSymbol::Plain(KitField::Name))
    } else if *s == "fxdelaytime".to_owned() {
        Some(KitSymbol::Plain(KitField::FxDelayTime))
    } else if *s == "fxdelaypingpong".to_owned() {
        Some(KitSymbol::Plain(KitField::FxDelayPingPong))
    } else if *s == "fxdelaystereowidth".to_owned() {
        Some(KitSymbol::Plain(KitField::FxDelayStereoWidth))
    } else if *s == "fxdelayfeedback".to_owned() {
        Some(KitSymbol::Plain(KitField::FxDelayFeedback))
    } else if *s == "fxdelayhpf".to_owned() {
        Some(KitSymbol::Plain(KitField::FxDelayHpf))
    } else if *s == "fxdelaylpf".to_owned() {
        Some(KitSymbol::Plain(KitField::FxDelayLpf))
    } else if *s == "fxdelayreverbsend".to_owned() {
        Some(KitSymbol::Plain(KitField::FxDelayReverbSend))
    } else if *s == "fxdelayvolume".to_owned() {
        Some(KitSymbol::Plain(KitField::FxDelayVolume))
    } else if *s == "fxreverbpredelay".to_owned() {
        Some(KitSymbol::Plain(KitField::FxReverbPreDelay))
    } else if *s == "fxreverbdecay".to_owned() {
        Some(KitSymbol::Plain(KitField::FxReverbDecay))
    } else if *s == "fxreverbfreq".to_owned() {
        Some(KitSymbol::Plain(KitField::FxReverbFreq))
    } else if *s == "fxreverbgain".to_owned() {
        Some(KitSymbol::Plain(KitField::FxReverbGain))
    } else if *s == "fxreverbhpf".to_owned() {
        Some(KitSymbol::Plain(KitField::FxReverbHpf))
    } else if *s == "fxreverblpf".to_owned() {
        Some(KitSymbol::Plain(KitField::FxReverbLpf))
    } else if *s == "fxreverbvolume".to_owned() {
        Some(KitSymbol::Plain(KitField::FxReverbVolume))
    } else if *s == "fxcompthreshold".to_owned() {
        Some(KitSymbol::Plain(KitField::FxCompThreshold))
    } else if *s == "fxcompgain".to_owned() {
        Some(KitSymbol::Plain(KitField::FxCompGain))
    } else if *s == "fxcompmix".to_owned() {
        Some(KitSymbol::Plain(KitField::FxCompMix))
    } else if *s == "fxcompvolume".to_owned() {
        Some(KitSymbol::Plain(KitField::FxCompVolume))
    } else if *s == "fxlfospeed".to_owned() {
        Some(KitSymbol::Plain(KitField::FxLfoSpeed))
    } else if *s == "fxlfofade".to_owned() {
        Some(KitSymbol::Plain(KitField::FxLfoFade))
    } else if *s == "fxlfostartphase".to_owned() {
        Some(KitSymbol::Plain(KitField::FxLfoStartPhase))
    } else if *s == "fxlfodepth".to_owned() {
        Some(KitSymbol::Plain(KitField::FxLfoDepth))
    } else if *s == "controlinmodtarget".to_owned() {
        Some(KitSymbol::EnumType(KitEnumType::ControlInModTarget))
    } else if *s == "fxlfodestination".to_owned() {
        Some(KitSymbol::EnumType(KitEnumType::FxLfoDestination))
    } else if *s == "fxdelaytimeonthegrid".to_owned() {
        Some(KitSymbol::EnumType(KitEnumType::FxDelayTimeOnTheGrid))
    } else if *s == "fxcompattack".to_owned() {
        Some(KitSymbol::EnumType(KitEnumType::FxCompAttack))
    } else if *s == "fxcomprelease".to_owned() {
        Some(KitSymbol::EnumType(KitEnumType::FxCompRelease))
    } else if *s == "fxcompratio".to_owned() {
        Some(KitSymbol::EnumType(KitEnumType::FxCompRatio))
    } else if *s == "fxcompsidechaineq".to_owned() {
        Some(KitSymbol::EnumType(KitEnumType::FxCompSideChainEq))
    } else if *s == "tracklevel".to_owned() {
        Some(KitSymbol::Element(KitElement::TrackLevel))
    } else if *s == "trackretrigrate".to_owned() {
        Some(KitSymbol::Element(KitElement::RetrigRate))
    } else if *s == "trackretriglength".to_owned() {
        Some(KitSymbol::Element(KitElement::RetrigLength))
    } else if *s == "trackretrigveloffset".to_owned() {
        Some(KitSymbol::Element(KitElement::RetrigVelOffset))
    } else if *s == "trackretrigalwayson".to_owned() {
        Some(KitSymbol::Element(KitElement::RetrigAlwaysOn))
    } else if *s == "sound".to_owned() {
        Some(KitSymbol::SoundPart)
    } else {
        None
    }
}

/// A plain field identifier of a sound.
#[derive(Debug, Copy, Clone, PartialEq, Eq, Structural)]
pub enum SoundField {
    Name,
    AccentLevel,
    AmpAttack,
    AmpHold,
    AmpDecay,
    AmpOverdrive,
    AmpDelaySend,
    AmpReverbSend,
    AmpPan,
    AmpVolume,
    FiltAttack,
    FiltHold,
    FiltDecay,
    FiltRelease,
    FiltCutoff,
    FiltResonance,
    FiltEnvAmount,
    LfoSpeed,
    LfoFade,
    LfoStartPhase,
    LfoDepth,
    SampTune,
    SampFineTune,
    SampNumber,
    SampBitReduction,
    SampStart,
    SampEnd,
    SampLoopFlag,
    SampVolume,
    VelModAmt,
    AtModAmt,
    EnvResetFilter,
    VelToVol,
    LegacyFxSend,
}

/// An enumerated-type identifier of a sound.
#[derive(Debug, Copy, Clone, PartialEq, Eq, Structural)]
pub enum SoundEnumType {
    MachineType,
    LfoDestination,
    VelModTarget,
    AtModTarget,
    FilterType,
    LfoMultiplier,
    LfoWaveform,
    LfoMode,
    ChromaticMode,
}

/// What a symbol means under the sound kind.
#[derive(Debug, Copy, Clone, PartialEq, Eq, Structural)]
pub enum SoundSymbol {
    Plain(SoundField),
    EnumType(SoundEnumType),
}

/// The one identifier table of the sound kind.
pub open spec fn sound_symbol_spec(s: Seq<char>) -> Option<SoundSymbol> {
    if s == "name"@ {
        Some(SoundSymbol::Plain(SoundField::Name))
    } else if s == "accentlevel"@ {
        Some(SoundSymbol::Plain(SoundField::AccentLevel))
    } else if s == "ampattack"@ {
        Some(SoundSymbol::Plain(SoundField::AmpAttack))
    } else if s == "amphold"@ {
        Some(SoundSymbol::Plain(SoundField::AmpHold))
    } else if s == "ampdecay"@ {
        Some(SoundSymbol::Plain(SoundField::AmpDecay))
    } else if s == "ampoverdrive"@ {
        Some(SoundSymbol::Plain(SoundField::AmpOverdrive))
    } else if s == "ampdelaysend"@ {
        Some(SoundSymbol::Plain(SoundField::AmpDelaySend))
    } else if s == "ampreverbsend"@ {
        Some(SoundSymbol::Plain(SoundField::AmpReverbSend))
    } else if s == "amppan"@ {
        Some(SoundSymbol::Plain(SoundField::AmpPan))
    } else if s == "ampvolume"@ {
        Some(SoundSymbol::Plain(SoundField::AmpVolume))
    } else if s == "filtattack"@ {
        Some(SoundSymbol::Plain(SoundField::FiltAttack))
    } else if s == "filthold"@ {
        Some(SoundSymbol::Plain(SoundField::FiltHold))
    } else if s == "filtdecay"@ {
        Some(SoundSymbol::Plain(SoundField::FiltDecay))
    } else if s == "filtrelease"@ {
        Some(SoundSymbol::Plain(SoundField::FiltRelease))
    } else if s == "filtcutoff"@ {
        Some(SoundSymbol::Plain(SoundField::FiltCutoff))
    } else if s == "filtres"@ {
        Some(SoundSymbol::Plain(SoundField::FiltResonance))
    } else if s == "filtenvamt"@ {
        Some(SoundSymbol::Plain(SoundField::FiltEnvAmount))
    } else if s == "lfospeed"@ {
        Some(SoundSymbol::Plain(SoundField::LfoSpeed))
    } else if s == "lfofade"@ {
        Some(SoundSymbol::Plain(SoundField::LfoFade))
    } else if s == "lfostartphase"@ {
        Some(SoundSymbol::Plain(SoundField::LfoStartPhase))
    } else if s == "lfodepth"@ {
        Some(SoundSymbol::Plain(SoundField::LfoDepth))
    } else if s == "samptune"@ {
        Some(SoundSymbol::Plain(SoundField::SampTune))
    } else if s == "sampfinetune"@ {
        Some(SoundSymbol::Plain(SoundField::SampFineTune))
    } else if s == "sampnumber"@ {
        Some(SoundSymbol::Plain(SoundField::SampNumber))
    } else if s == "sampbitreduction"@ {
        Some(SoundSymbol::Plain(SoundField::SampBitReduction))
    } else if s == "sampstart"@ {
        Some(SoundSymbol::Plain(SoundField::SampStart))
    } else if s == "sampend"@ {
        Some(SoundSymbol::Plain(SoundField::SampEnd))
    } else if s == "samploopflag"@ {
        Some(SoundSymbol::Plain(SoundField::SampLoopFlag))
    } else if s == "sampvolume"@ {
        Some(SoundSymbol::Plain(SoundField::SampVolume))
    } else if s == "velmodamt"@ {
        Some(SoundSymbol::Plain(SoundField::VelModAmt))
    } else if s == "atmodamt"@ {
        Some(SoundSymbol::Plain(SoundField::AtModAmt))
    } else if s == "envresetfilter"@ {
        Some(SoundSymbol::Plain(SoundField::EnvResetFilter))
    } else if s == "veltovol"@ {
        Some(SoundSymbol::Plain(SoundField::VelToVol))
    } else if s == "legacyfxsend"@ {
        Some(SoundSymbol::Plain(SoundField::LegacyFxSend))
    } else if s == "machinetype"@ {
        Some(SoundSymbol::EnumType(SoundEnumType::MachineType))
    } else if s == "lfodestination"@ {
        Some(SoundSymbol::EnumType(SoundEnumType::LfoDestination))
    } else if s == "velmodtarget"@ {
        Some(SoundSymbol::EnumType(SoundEnumType::VelModTarget))
    } else if s == "atmodtarget"@ {
        Some(SoundSymbol::EnumType(SoundEnumType::AtModTarget))
    } else if s == "filtertype"@ {
        Some(SoundSymbol::EnumType(SoundEnumType::FilterType))
    } else if s == "lfomultiplier"@ {
        Some(SoundSymbol::EnumType(SoundEnumType::LfoMultiplier))
    } else if s == "lfowaveform"@ {
        Some(SoundSymbol::EnumType(SoundEnumType::LfoWaveform))
    } else if s == "lfomode"@ {
        Some(SoundSymbol::EnumType(SoundEnumType::LfoMode))
    } else if s == "chromaticmode"@ {
        Some(SoundSymbol::EnumType(SoundEnumType::ChromaticMode))
    } else {
        None
    }
}

/// Looks a symbol up in the sound identifier table.
#[verifier::rlimit(40)]
pub fn sound_classify(s: &String) -> (r: Option<SoundSymbol>)
    ensures
        r == sound_symbol_spec(s@),
{
    if *s == "name".to_owned() {
        Some(SoundSymbol::Plain(SoundField::Name))
    } else if *s == "accentlevel".to_owned() {
        Some(SoundSymbol::Plain(SoundField::AccentLevel))
    } else if *s == "ampattack".to_owned() {
        Some(SoundSymbol::Plain(SoundField::AmpAttack))
    } else if *s == "amphold".to_owned() {
        Some(SoundSymbol::Plain(SoundField::AmpHold))
    } else if *s == "ampdecay".to_owned() {
        Some(SoundSymbol::Plain(SoundField::AmpDecay))
    } else if *s == "ampoverdrive".to_owned() {
        Some(SoundSymbol::Plain(SoundField::AmpOverdrive))
    } else if *s == "ampdelaysend".to_owned() {
        Some(SoundSymbol::Plain(SoundField::AmpDelaySend))
    } else if *s == "ampreverbsend".to_owned() {
        Some(SoundSymbol::Plain(SoundField::AmpReverbSend))
    } else if *s == "amppan".to_owned() {
        Some(SoundSymbol::Plain(SoundField::AmpPan))
    } else if *s == "ampvolume".to_owned() {
        Some(SoundSymbol::Plain(SoundField::AmpVolume))
    } else if *s == "filtattack".to_owned() {
        Some(SoundSymbol::Plain(SoundField::FiltAttack))
    } else if *s == "filthold".to_owned() {
        Some(SoundSymbol::Plain(SoundField::FiltHold))
    } else if *s == "filtdecay".to_owned() {
        Some(SoundSymbol::Plain(SoundField::FiltDecay))
    } else if *s == "filtrelease".to_owned() {
        Some(SoundSymbol::Plain(SoundField::FiltRelease))
    } else if *s == "filtcutoff".to_owned() {
        Some(SoundSymbol::Plain(SoundField::FiltCutoff))
    } else if *s == "filtres".to_owned() {
        Some(SoundSymbol::Plain(SoundField::FiltResonance))
    } else if *s == "filtenvamt".to_owned() {
        Some(SoundSymbol::Plain(SoundField::FiltEnvAmount))
    } else if *s == "lfospeed".to_owned() {
        Some(SoundSymbol::Plain(SoundField::LfoSpeed))
    } else if *s == "lfofade".to_owned() {
        Some(SoundSymbol::Plain(SoundField::LfoFade))
    } else if *s == "lfostartphase".to_owned() {
        Some(SoundSymbol::Plain(SoundField::LfoStartPhase))
    } else if *s == "lfodepth".to_owned() {
        Some(SoundSymbol::Plain(SoundField::LfoDepth))
    } else if *s == "samptune".to_owned() {
        Some(SoundSymbol::Plain(SoundField::SampTune))
    } else if *s == "sampfinetune".to_owned() {
        Some(SoundSymbol::Plain(SoundField::SampFineTune))
    } else if *s == "sampnumber".to_owned() {
        Some(SoundSymbol::Plain(SoundField::SampNumber))
    } else if *s == "sampbitreduction".to_owned() {
        Some(SoundSymbol::Plain(SoundField::SampBitReduction))
    } else if *s == "sampstart".to_owned() {
        Some(SoundSymbol::Plain(SoundField::SampStart))
    } else if *s == "sampend".to_owned() {
        Some(SoundSymbol::Plain(SoundField::SampEnd))
    } else if *s == "samploopflag".to_owned() {
        Some(SoundSymbol::Plain(SoundField::SampLoopFlag))
    } else if *s == "sampvolume".to_owned() {
        Some(SoundSymbol::Plain(SoundField::SampVolume))
    } else if *s == "velmodamt".to_owned() {
        Some(SoundSymbol::Plain(SoundField::VelModAmt))
    } else if *s == "atmodamt".to_owned() {
        Some(SoundSymbol::Plain(SoundField::AtModAmt))
    } else if *s == "envresetfilter".to_owned() {
        Some(SoundSymbol::Plain(SoundField::EnvResetFilter))
    } else if *s == "veltovol".to_owned() {
        Some(SoundSymbol::Plain(SoundField::VelToVol))
    } else if *s == "legacyfxsend".to_owned() {
        Some(SoundSymbol::Plain(SoundField::LegacyFxSend))
    } else if *s == "machinetype".to_owned() {
        Some(SoundSymbol::EnumType(SoundEnumType::MachineType))
    } else if *s == "lfodestination".to_owned() {
        Some(SoundSymbol::EnumType(SoundEnumType::LfoDestination))
    } else if *s == "velmodtarget".to_owned() {
        Some(SoundSymbol::EnumType(SoundEnumType::VelModTarget))
    } else if *s == "atmodtarget".to_owned() {
        Some(SoundSymbol::EnumType(SoundEnumType::AtModTarget))
    } else if *s == "filtertype".to_owned() {
        Some(SoundSymbol::EnumType(SoundEnumType::FilterType))
    } else if *s == "lfomultiplier".to_owned() {
        Some(SoundSymbol::EnumType(SoundEnumType::LfoMultiplier))
    } else if *s == "lfowaveform".to_owned() {
        Some(SoundSymbol::EnumType(SoundEnumType::LfoWaveform))
    } else if *s == "lfomode".to_owned() {
        Some(SoundSymbol::EnumType(SoundEnumType::LfoMode))
    } else if *s == "chromaticmode".to_owned() {
        Some(SoundSymbol::EnumType(SoundEnumType::ChromaticMode))
    } else {
        None
    }
}

/// A plain field identifier of a global.
#[derive(Debug, Copy, Clone, PartialEq, Eq, Structural)]
pub enum GlobalField {
    Version,
    Index,
    IsWb,
    KitReloadOnChange,
    QuantizeLiveRec,
    AutoTrackSwitch,
    RouteToMain,
    SendToFx,
    ClockReceive,
    ClockSend,
    TransportReceive,
    TransportSend,
    ProgramChangeReceive,
    ProgramChangeSend,
    ReceiveNotes,
    ReceiveCcNrpn,
    TurboSpeed,
    MetronomeActive,
    MetronomePreRollBars,
    MetronomeVolume,
}

/// An enumerated-type identifier of a global.
#[derive(Debug, Copy, Clone, PartialEq, Eq, Structural)]
pub enum GlobalEnumType {
    MetronomeTimeSignature,
    RoutingUsbIn,
    RoutingUsbOut,
    RoutingUsbToMainDb,
    OutPortFunction,
    ThruPortFunction,
    InputFrom,
    OutputTo,
    ParamOutput,
    PadDest,
    PressureDest,
    EncoderDest,
    MuteDest,
    PortsOutputChannel,
    AutoChannel,
    TrackChannels,
    TrackFxChannel,
    ProgramChangeInChannel,
    ProgramChangeOutChannel,
    PerformanceChannel,
}

/// What a symbol means under the global kind.
#[derive(Debug, Copy, Clone, PartialEq, Eq, Structural)]
pub enum GlobalSymbol {
    Plain(GlobalField),
    EnumType(GlobalEnumType),
}

/// The one identifier table of the global kind.
pub open spec fn global_symbol_spec(s: Seq<char>) -> Option<GlobalSymbol> {
    if s == "version"@ {
        Some(GlobalSymbol::Plain(GlobalField::Version))
    } else if s == "index"@ {
        Some(GlobalSymbol::Plain(GlobalField::Index))
    } else if s == "iswb"@ {
        Some(GlobalSymbol::Plain(GlobalField::IsWb))
    } else if s == "kitreloadonchg"@ {
        Some(GlobalSymbol::Plain(GlobalField::KitReloadOnChange))
    } else if s == "quantizeliverec"@ {
        Some(GlobalSymbol::Plain(GlobalField::QuantizeLiveRec))
    } else if s == "autotrackswitch"@ {
        Some(GlobalSymbol::Plain(GlobalField::AutoTrackSwitch))
    } else if s == "routetomain"@ {
        Some(GlobalSymbol::Plain(GlobalField::RouteToMain))
    } else if s == "sendtofx"@ {
        Some(GlobalSymbol::Plain(GlobalField::SendToFx))
    } else if s == "clockreceive"@ {
        Some(GlobalSymbol::Plain(GlobalField::ClockReceive))
    } else if s == "clocksend"@ {
        Some(GlobalSymbol::Plain(GlobalField::ClockSend))
    } else if s == "transportreceive"@ {
        Some(GlobalSymbol::Plain(GlobalField::TransportReceive))
    } else if s == "transportsend"@ {
        Some(GlobalSymbol::Plain(GlobalField::TransportSend))
    } else if s == "programchangereceive"@ {
        Some(GlobalSymbol::Plain(GlobalField::ProgramChangeReceive))
    } else if s == "programchangesend"@ {
        Some(GlobalSymbol::Plain(GlobalField::ProgramChangeSend))
    } else if s == "receivenotes"@ {
        Some(GlobalSymbol::Plain(GlobalField::ReceiveNotes))
    } else if s == "receiveccnrpn"@ {
        Some(GlobalSymbol::Plain(GlobalField::ReceiveCcNrpn))
    } else if s == "turbospeed"@ {
        Some(GlobalSymbol::Plain(GlobalField::TurboSpeed))
    } else if s == "metronomeactive"@ {
        Some(GlobalSymbol::Plain(GlobalField::MetronomeActive))
    } else if s == "metronomeprerollbars"@ {
        Some(GlobalSymbol::Plain(GlobalField::MetronomePreRollBars))
    } else if s == "metronomevolume"@ {
        Some(GlobalSymbol::Plain(GlobalField::MetronomeVolume))
    } else if s == "metronometimesignature"@ {
        Some(GlobalSymbol::EnumType(GlobalEnumType::MetronomeTimeSignature))
    } else if s == "routingusbin"@ {
        Some(GlobalSymbol::EnumType(GlobalEnumType::RoutingUsbIn))
    } else if s == "routingusbout"@ {
        Some(GlobalSymbol::EnumType(GlobalEnumType::RoutingUsbOut))
    } else if s == "routingusbtomaindb"@ {
        Some(GlobalSymbol::EnumType(GlobalEnumType::RoutingUsbToMainDb))
    } else if s == "outportfunction"@ {
        Some(GlobalSymbol::EnumType(GlobalEnumType::OutPortFunction))
    } else if s == "thruportfunction"@ {
        Some(GlobalSymbol::EnumType(GlobalEnumType::ThruPortFunction))
    } else if s == "inputfrom"@ {
        Some(GlobalSymbol::EnumType(GlobalEnumType::InputFrom))
    } else if s == "outputto"@ {
        Some(GlobalSymbol::EnumType(GlobalEnumType::OutputTo))
    } else if s == "paramoutput"@ {
        Some(GlobalSymbol::EnumType(GlobalEnumType::ParamOutput))
    } else if s == "paddest"@ {
        Some(GlobalSymbol::EnumType(GlobalEnumType::PadDest))
    } else if s == "pressuredest"@ {
        Some(GlobalSymbol::EnumType(GlobalEnumType::PressureDest))
    } else if s == "encoderdest"@ {
        Some(GlobalSymbol::EnumType(GlobalEnumType::EncoderDest))
    } else if s == "mutedest"@ {
        Some(GlobalSymbol::EnumType(GlobalEnumType::MuteDest))
    } else if s == "portsoutputchannel"@ {
        Some(GlobalSymbol::EnumType(GlobalEnumType::PortsOutputChannel))
    } else if s == "autochannel"@ {
        Some(GlobalSymbol::EnumType(GlobalEnumType::AutoChannel))
    } else if s == "trackchannels"@ {
        Some(GlobalSymbol::EnumType(GlobalEnumType::TrackChannels))
    } else if s == "trackfxchannel"@ {
        Some(GlobalSymbol::EnumType(GlobalEnumType::TrackFxChannel))
    } else if s == "programchangeinchannel"@ {
        Some(GlobalSymbol::EnumType(GlobalEnumType::ProgramChangeInChannel))
    } else if s == "programchangeoutchannel"@ {
        Some(GlobalSymbol::EnumType(GlobalEnumType::ProgramChangeOutChannel))
    } else if s == "performancechannel"@ {
        Some(GlobalSymbol::EnumType(GlobalEnumType::PerformanceChannel))
    } else {
        None
    }
}

/// Looks a symbol up in the global identifier table.
#[verifier::rlimit(40)]
pub fn global_classify(s: &String) -> (r: Option<GlobalSymbol>)
    ensures
        r == global_symbol_spec(s@),
{
    if *s == "version".to_owned() {
        Some(GlobalSymbol::Plain(GlobalField::Version))
    } else if *s == "index".to_owned() {
        Some(GlobalSymbol::Plain(GlobalField::Index))
    } else if *s == "iswb".to_owned() {
        Some(GlobalSymbol::Plain(GlobalField::IsWb))
    } else if *s == "kitreloadonchg".to_owned() {
        Some(GlobalSymbol::Plain(GlobalField::KitReloadOnChange))
    } else if *s == "quantizeliverec".to_owned() {
        Some(GlobalSymbol::Plain(GlobalField::QuantizeLiveRec))
    } else if *s == "autotrackswitch".to_owned() {
        Some(GlobalSymbol::Plain(GlobalField::AutoTrackSwitch))
    } else if *s == "routetomain".to_owned() {
        Some(GlobalSymbol::Plain(GlobalField::RouteToMain))
    } else if *s == "sendtofx".to_owned() {
        Some(GlobalSymbol::Plain(GlobalField::SendToFx))
    } else if *s == "clockreceive".to_owned() {
        Some(GlobalSymbol::Plain(GlobalField::ClockReceive))
    } else if *s == "clocksend".to_owned() {
        Some(GlobalSymbol::Plain(GlobalField::ClockSend))
    } else if *s == "transportreceive".to_owned() {
        Some(GlobalSymbol::Plain(GlobalField::TransportReceive))
    } else if *s == "transportsend".to_owned() {
        Some(GlobalSymbol::Plain(GlobalField::TransportSend))
    } else if *s == "programchangereceive".to_owned() {
        Some(GlobalSymbol::Plain(GlobalField::ProgramChangeReceive))
    } else if *s == "programchangesend".to_owned() {
        Some(GlobalSymbol::Plain(GlobalField::ProgramChangeSend))
    } else if *s == "receivenotes".to_owned() {
        Some(GlobalSymbol::Plain(GlobalField::ReceiveNotes))
    } else if *s == "receiveccnrpn".to_owned() {
        Some(GlobalSymbol::Plain(GlobalField::ReceiveCcNrpn))
    } else if *s == "turbospeed".to_owned() {
        Some(GlobalSymbol::Plain(GlobalField::TurboSpeed))
    } else if *s == "metronomeactive".to_owned() {
        Some(GlobalSymbol::Plain(GlobalField::MetronomeActive))
    } else if *s == "metronomeprerollbars".to_owned() {
        Some(GlobalSymbol::Plain(GlobalField::MetronomePreRollBars))
    } else if *s == "metronomevolume".to_owned() {
        Some(GlobalSymbol::Plain(GlobalField::MetronomeVolume))
    } else if *s == "metronometimesignature".to_owned() {
        Some(GlobalSymbol::EnumType(GlobalEnumType::MetronomeTimeSignature))
    } else if *s == "routingusbin".to_owned() {
        Some(GlobalSymbol::EnumType(GlobalEnumType::RoutingUsbIn))
    } else if *s == "routingusbout".to_owned() {
        Some(GlobalSymbol::EnumType(GlobalEnumType::RoutingUsbOut))
    } else if *s == "routingusbtomaindb".to_owned() {
        Some(GlobalSymbol::EnumType(GlobalEnumType::RoutingUsbToMainDb))
    } else if *s == "outportfunction".to_owned() {
        Some(GlobalSymbol::EnumType(GlobalEnumType::OutPortFunction))
    } else if *s == "thruportfunction".to_owned() {
        Some(GlobalSymbol::EnumType(GlobalEnumType::ThruPortFunction))
    } else if *s == "inputfrom".to_owned() {
        Some(GlobalSymbol::EnumType(GlobalEnumType::InputFrom))
    } else if *s == "outputto".to_owned() {
        Some(GlobalSymbol::EnumType(GlobalEnumType::OutputTo))
    } else if *s == "paramoutput".to_owned() {
        Some(GlobalSymbol::EnumType(GlobalEnumType::ParamOutput))
    } else if *s == "paddest".to_owned() {
        Some(GlobalSymbol::EnumType(GlobalEnumType::PadDest))
    } else if *s == "pressuredest".to_owned() {
        Some(GlobalSymbol::EnumType(GlobalEnumType::PressureDest))
    } else if *s == "encoderdest".to_owned() {
        Some(GlobalSymbol::EnumType(GlobalEnumType::EncoderDest))
    } else if *s == "mutedest".to_owned() {
        Some(GlobalSymbol::EnumType(GlobalEnumType::MuteDest))
    } else if *s == "portsoutputchannel".to_owned() {
        Some(GlobalSymbol::EnumType(GlobalEnumType::PortsOutputChannel))
    } else if *s == "autochannel".to_owned() {
        Some(GlobalSymbol::EnumType(GlobalEnumType::AutoChannel))
    } else if *s == "trackchannels".to_owned() {
        Some(GlobalSymbol::EnumType(GlobalEnumType::TrackChannels))
    } else if *s == "trackfxchannel".to_owned() {
        Some(GlobalSymbol::EnumType(GlobalEnumType::TrackFxChannel))
    } else if *s == "programchangeinchannel".to_owned() {
        Some(GlobalSymbol::EnumType(GlobalEnumType::ProgramChangeInChannel))
    } else if *s == "programchangeoutchannel".to_owned() {
        Some(GlobalSymbol::EnumType(GlobalEnumType::ProgramChangeOutChannel))
    } else if *s == "performancechannel".to_owned() {
        Some(GlobalSymbol::EnumType(GlobalEnumType::PerformanceChannel))
    } else {
        None
    }
}

/// A plain field identifier of a settings.
#[derive(Debug, Copy, Clone, PartialEq, Eq, Structural)]
pub enum SettingsField {
    BpmProject,
    SelectedTrack,
    SelectedPage,
    Mute,
    FixedVelocityEnable,
    FixedVelocityAmount,
    SampleRecorderThr,
    SampleRecorderMonitor,
}

/// An enumerated-type identifier of a settings.
#[derive(Debug, Copy, Clone, PartialEq, Eq, Structural)]
pub enum SettingsEnumType {
    ParameterMenuItem,
    FxParameterMenuItem,
    SequencerMode,
    PatternMode,
    SampleRecorderSource,
    SampleRecorderRecordingLength,
}

/// What a symbol means under the settings kind.
#[derive(Debug, Copy, Clone, PartialEq, Eq, Structural)]
pub enum SettingsSymbol {
    Plain(SettingsField),
    EnumType(SettingsEnumType),
}

/// The one identifier table of the settings kind.
pub open spec fn settings_symbol_spec(s: Seq<char>) -> Option<SettingsSymbol> {
    if s == "projectbpm"@ {
        Some(SettingsSymbol::Plain(SettingsField::BpmProject))
    } else if s == "selectedtrack"@ {
        Some(SettingsSymbol::Plain(SettingsField::SelectedTrack))
    } else if s == "selectedpage"@ {
        Some(SettingsSymbol::Plain(SettingsField::SelectedPage))
    } else if s == "mute"@ {
        Some(SettingsSymbol::Plain(SettingsField::Mute))
    } else if s == "fixedvelocity"@ {
        Some(SettingsSymbol::Plain(SettingsField::FixedVelocityEnable))
    } else if s == "fixedvelocityamt"@ {
        Some(SettingsSymbol::Plain(SettingsField::FixedVelocityAmount))
    } else if s == "samplerecorderthr"@ {
        Some(SettingsSymbol::Plain(SettingsField::SampleRecorderThr))
    } else if s == "samplerecordermonitor"@ {
        Some(SettingsSymbol::Plain(SettingsField::SampleRecorderMonitor))
    } else if s == "parametermenuitem"@ {
        Some(SettingsSymbol::EnumType(SettingsEnumType::ParameterMenuItem))
    } else if s == "fxparametermenuitem"@ {
        Some(SettingsSymbol::EnumType(SettingsEnumType::FxParameterMenuItem))
    } else if s == "sequencermode"@ {
        Some(SettingsSymbol::EnumType(SettingsEnumType::SequencerMode))
    } else if s == "patternmode"@ {
        Some(SettingsSymbol::EnumType(SettingsEnumType::PatternMode))
    } else if s == "samplerecordersource"@ {
        Some(SettingsSymbol::EnumType(SettingsEnumType::SampleRecorderSource))
    } else if s == "samplerecorderrecordinglength"@ {
        Some(SettingsSymbol::EnumType(SettingsEnumType::SampleRecorderRecordingLength))
    } else {
        None
    }
}

/// Looks a symbol up in the settings identifier table.
pub fn settings_classify(s: &String) -> (r: Option<SettingsSymbol>)
    ensures
        r == settings_symbol_spec(s@),
{
    if *s == "projectbpm".to_owned() {
        Some(SettingsSymbol::Plain(SettingsField::BpmProject))
    } else if *s == "selectedtrack".to_owned() {
        Some(SettingsSymbol::Plain(SettingsField::SelectedTrack))
    } else if *s == "selectedpage".to_owned() {
        Some(SettingsSymbol::Plain(SettingsField::SelectedPage))
    } else if *s == "mute".to_owned() {
        Some(SettingsSymbol::Plain(SettingsField::Mute))
    } else if *s == "fixedvelocity".to_owned() {
        Some(SettingsSymbol::Plain(SettingsField::FixedVelocityEnable))
    } else if *s == "fixedvelocityamt".to_owned() {
        Some(SettingsSymbol::Plain(SettingsField::FixedVelocityAmount))
    } else if *s == "samplerecorderthr".to_owned() {
        Some(SettingsSymbol::Plain(SettingsField::SampleRecorderThr))
    } else if *s == "samplerecordermonitor".to_owned() {
        Some(SettingsSymbol::Plain(SettingsField::SampleRecorderMonitor))
    } else if *s == "parametermenuitem".to_owned() {
        Some(SettingsSymbol::EnumType(SettingsEnumType::ParameterMenuItem))
    } else if *s == "fxparametermenuitem".to_owned() {
        Some(SettingsSymbol::EnumType(SettingsEnumType::FxParameterMenuItem))
    } else if *s == "sequencermode".to_owned() {
        Some(SettingsSymbol::EnumType(SettingsEnumType::SequencerMode))
    } else if *s == "patternmode".to_owned() {
        Some(SettingsSymbol::EnumType(SettingsEnumType::PatternMode))
    } else if *s == "samplerecordersource".to_owned() {
        Some(SettingsSymbol::EnumType(SettingsEnumType::SampleRecorderSource))
    } else if *s == "samplerecorderrecordinglength".to_owned() {
        Some(SettingsSymbol::EnumType(SettingsEnumType::SampleRecorderRecordingLength))
    } else {
        None
    }
}

/// Whether a kit plain field can carry a parameter lock: every FX field
/// can; the kit's version, index and name cannot.
pub open spec fn kit_field_plockable(f: KitField) -> bool {
    !(f == KitField::Version || f == KitField::Index || f == KitField::Name)
}

/// Whether a sound plain field can carry a parameter lock: the amplitude,
/// filter, LFO and sample pages can; names, accent level, the slotted
/// modulation amounts and the settings flags cannot.
pub open spec fn sound_field_plockable(f: SoundField) -> bool {
    !(f == SoundField::Name || f == SoundField::AccentLevel || f == SoundField::VelModAmt
        || f == SoundField::AtModAmt || f == SoundField::EnvResetFilter || f == SoundField::VelToVol
        || f == SoundField::LegacyFxSend)
}

/// Whether a kit enumerated type can carry a parameter lock.
pub open spec fn kit_enum_plockable(t: KitEnumType) -> bool {
    !(t == KitEnumType::ControlInModTarget || t == KitEnumType::FxDelayTimeOnTheGrid)
}

/// Whether a sound enumerated type can carry a parameter lock.
pub open spec fn sound_enum_plockable(t: SoundEnumType) -> bool {
    t == SoundEnumType::LfoDestination || t == SoundEnumType::FilterType || t
        == SoundEnumType::LfoMultiplier || t == SoundEnumType::LfoWaveform || t
        == SoundEnumType::LfoMode
}

/// Decides whether a kit plain field can carry a parameter lock.
pub fn is_kit_field_plockable(f: KitField) -> (r: bool)
    ensures
        r == kit_field_plockable(f),
{
    !(f == KitField::Version || f == KitField::Index || f == KitField::Name)
}

/// Decides whether a sound plain field can carry a parameter lock.
pub fn is_sound_field_plockable(f: SoundField) -> (r: bool)
    ensures
        r == sound_field_plockable(f),
{
    !(f == SoundField::Name || f == SoundField::AccentLevel || f == SoundField::VelModAmt
        || f == SoundField::AtModAmt || f == SoundField::EnvResetFilter || f == SoundField::VelToVol
        || f == SoundField::LegacyFxSend)
}

/// Decides whether a kit enumerated type can carry a parameter lock.
pub fn is_kit_enum_plockable(t: KitEnumType) -> (r: bool)
    ensures
        r == kit_enum_plockable(t),
{
    !(t == KitEnumType::ControlInModTarget || t == KitEnumType::FxDelayTimeOnTheGrid)
}

/// Decides whether a sound enumerated type can carry a parameter lock.
pub fn is_sound_enum_plockable(t: SoundEnumType) -> (r: bool)
    ensures
        r == sound_enum_plockable(t),
{
    t == SoundEnumType::LfoDestination || t == SoundEnumType::FilterType || t
        == SoundEnumType::LfoMultiplier || t == SoundEnumType::LfoWaveform || t
        == SoundEnumType::LfoMode
}

} // verus!
