//! Variant-name domains of the kit FX pages and the sound pages.
//!
//! Each domain is a closed set of symbolic variant names; the spec function
//! states the set and the checker decides membership.

use vstd::prelude::*;

verus! {

/// The variant names of the control-input modulation target domain.
#[verifier::opaque]
pub open spec fn is_control_in_mod_target_variant(s: Seq<char>) -> bool {
    ||| s == "unset"@
    ||| s == "lfomultiplier"@
    ||| s == "lfowaveform"@
    ||| s == "lfotrigmode"@
    ||| s == "lfospeed"@
    ||| s == "lfofade"@
    ||| s == "lfophase"@
    ||| s == "lfodepth"@
    ||| s == "sampletune"@
    ||| s == "samplefinetune"@
    ||| s == "sampleslice"@
    ||| s == "samplebitreduction"@
    ||| s == "samplestart"@
    ||| s == "sampleend"@
    ||| s == "sampleloop"@
    ||| s == "samplelevel"@
    ||| s == "filterenvelope"@
    ||| s == "filterattack"@
    ||| s == "filterdecay"@
    ||| s == "filtersustain"@
    ||| s == "filterrelease"@
    ||| s == "filterfrequency"@
    ||| s == "filterresonance"@
    ||| s == "ampattack"@
    ||| s == "amphold"@
    ||| s == "ampdecay"@
    ||| s == "ampoverdrive"@
    ||| s == "ampvolume"@
    ||| s == "amppan"@
    ||| s == "ampaccent"@
    ||| s == "ampdelaysend"@
    ||| s == "ampreverbsend"@
}

/// Decides membership in the control-input modulation target domain.
pub fn check_control_in_mod_target_variant(s: &String) -> (r: bool)
    ensures
        r == is_control_in_mod_target_variant(s@),
{
    proof {
        reveal(is_control_in_mod_target_variant);
    }
    *s == "unset".to_owned()
        || *s == "lfomultiplier".to_owned()
        || *s == "lfowaveform".to_owned()
        || *s == "lfotrigmode".to_owned()
        || *s == "lfospeed".to_owned()
        || *s == "lfofade".to_owned()
        || *s == "lfophase".to_owned()
        || *s == "lfodepth".to_owned()
        || *s == "sampletune".to_owned()
        || *s == "samplefinetune".to_owned()
        || *s == "sampleslice".to_owned()
        || *s == "samplebitreduction".to_owned()
        || *s == "samplestart".to_owned()
        || *s == "sampleend".to_owned()
        || *s == "sampleloop".to_owned()
        || *s == "samplelevel".to_owned()
        || *s == "filterenvelope".to_owned()
        || *s == "filterattack".to_owned()
        || *s == "filterdecay".to_owned()
        || *s == "filtersustain".to_owned()
        || *s == "filterrelease".to_owned()
        || *s == "filterfrequency".to_owned()
        || *s == "filterresonance".to_owned()
        || *s == "ampattack".to_owned()
        || *s == "amphold".to_owned()
        || *s == "ampdecay".to_owned()
        || *s == "ampoverdrive".to_owned()
        || *s == "ampvolume".to_owned()
        || *s == "amppan".to_owned()
        || *s == "ampaccent".to_owned()
        || *s == "ampdelaysend".to_owned()
        || *s == "ampreverbsend".to_owned()
}

/// The variant names of the FX LFO destination domain.
#[verifier::opaque]
pub open spec fn is_fx_lfo_destination_variant(s: Seq<char>) -> bool {
    ||| s == "unset"@
    ||| s == "delaytime"@
    ||| s == "delaypingpong"@
    ||| s == "delaystereowidth"@
    ||| s == "delayfeedback"@
    ||| s == "delayhpfilter"@
    ||| s == "delaylpfilter"@
    ||| s == "delayreverbsend"@
    ||| s == "delaymixvolume"@
    ||| s == "delayoverdrive"@
    ||| s == "reverbpredelay"@
    ||| s == "reverbdecay"@
    ||| s == "reverbshelvingfreq"@
    ||| s == "reverbshelvinggain"@
    ||| s == "reverbhpfilter"@
    ||| s == "reverblpfilter"@
    ||| s == "reverbmixvolume"@
    ||| s == "distortionamount"@
    ||| s == "distortionsymmetry"@
    ||| s == "compressorthreshold"@
    ||| s == "compressorattack"@
    ||| s == "compressorrelease"@
    ||| s == "compressorratio"@
    ||| s == "compressorsidechaineq"@
    ||| s == "compressormakeupgain"@
    ||| s == "compressordrywetmix"@
    ||| s == "compressorvolume"@
}

/// Decides membership in the FX LFO destination domain.
pub fn check_fx_lfo_destination_variant(s: &String) -> (r: bool)
    ensures
        r == is_fx_lfo_destination_variant(s@),
{
    proof {
        reveal(is_fx_lfo_destination_variant);
    }
    *s == "unset".to_owned()
        || *s == "delaytime".to_owned()
        || *s == "delaypingpong".to_owned()
        || *s == "delaystereowidth".to_owned()
        || *s == "delayfeedback".to_owned()
        || *s == "delayhpfilter".to_owned()
        || *s == "delaylpfilter".to_owned()
        || *s == "delayreverbsend".to_owned()
        || *s == "delaymixvolume".to_owned()
        || *s == "delayoverdrive".to_owned()
        || *s == "reverbpredelay".to_owned()
        || *s == "reverbdecay".to_owned()
        || *s == "reverbshelvingfreq".to_owned()
        || *s == "reverbshelvinggain".to_owned()
        || *s == "reverbhpfilter".to_owned()
        || *s == "reverblpfilter".to_owned()
        || *s == "reverbmixvolume".to_owned()
        || *s == "distortionamount".to_owned()
        || *s == "distortionsymmetry".to_owned()
        || *s == "compressorthreshold".to_owned()
        || *s == "compressorattack".to_owned()
        || *s == "compressorrelease".to_owned()
        || *s == "compressorratio".to_owned()
        || *s == "compressorsidechaineq".to_owned()
        || *s == "compressormakeupgain".to_owned()
        || *s == "compressordrywetmix".to_owned()
        || *s == "compressorvolume".to_owned()
}

/// The variant names of the FX delay grid time domain.
#[verifier::opaque]
pub open spec fn is_fx_delay_time_on_the_grid_variant(s: Seq<char>) -> bool {
    ||| s == "128th"@
    ||| s == "64th"@
    ||| s == "64thdotted"@
    ||| s == "32nd"@
    ||| s == "32nddotted"@
    ||| s == "16th"@
    ||| s == "16thdotted"@
    ||| s == "8th"@
    ||| s == "8thdotted"@
    ||| s == "quarter"@
    ||| s == "quarterdotted"@
    ||| s == "half"@
    ||| s == "halfdotted"@
    ||| s == "whole"@
}

/// Decides membership in the FX delay grid time domain.
pub fn check_fx_delay_time_on_the_grid_variant(s: &String) -> (r: bool)
    ensures
        r == is_fx_delay_time_on_the_grid_variant(s@),
{
    proof {
        reveal(is_fx_delay_time_on_the_grid_variant);
    }
    *s == "128th".to_owned()
        || *s == "64th".to_owned()
        || *s == "64thdotted".to_owned()
        || *s == "32nd".to_owned()
        || *s == "32nddotted".to_owned()
        || *s == "16th".to_owned()
        || *s == "16thdotted".to_owned()
        || *s == "8th".to_owned()
        || *s == "8thdotted".to_owned()
        || *s == "quarter".to_owned()
        || *s == "quarterdotted".to_owned()
        || *s == "half".to_owned()
        || *s == "halfdotted".to_owned()
        || *s == "whole".to_owned()
}

/// The variant names of the FX compressor attack domain.
#[verifier::opaque]
pub open spec fn is_fx_comp_attack_variant(s: Seq<char>) -> bool {
    ||| s == "0.03"@
    ||| s == "0.1"@
    ||| s == "0.3"@
    ||| s == "1"@
    ||| s == "3"@
    ||| s == "10"@
    ||| s == "30"@
}

/// Decides membership in the FX compressor attack domain.
pub fn check_fx_comp_attack_variant(s: &String) -> (r: bool)
    ensures
        r == is_fx_comp_attack_variant(s@),
{
    proof {
        reveal(is_fx_comp_attack_variant);
    }
    *s == "0.03".to_owned()
        || *s == "0.1".to_owned()
        || *s == "0.3".to_owned()
        || *s == "1".to_owned()
        || *s == "3".to_owned()
        || *s == "10".to_owned()
        || *s == "30".to_owned()
}

/// The variant names of the FX compressor release domain.
#[verifier::opaque]
pub open spec fn is_fx_comp_release_variant(s: Seq<char>) -> bool {
    ||| s == "0.1"@
    ||| s == "0.2"@
    ||| s == "0.4"@
    ||| s == "0.6"@
    ||| s == "1"@
    ||| s == "2"@
    ||| s == "A1"@
    ||| s == "A2"@
}

/// Decides membership in the FX compressor release domain.
pub fn check_fx_comp_release_variant(s: &String) -> (r: bool)
    ensures
        r == is_fx_comp_release_variant(s@),
{
    proof {
        reveal(is_fx_comp_release_variant);
    }
    *s == "0.1".to_owned()
        || *s == "0.2".to_owned()
        || *s == "0.4".to_owned()
        || *s == "0.6".to_owned()
        || *s == "1".to_owned()
        || *s == "2".to_owned()
        || *s == "A1".to_owned()
        || *s == "A2".to_owned()
}

/// The variant names of the FX compressor ratio domain.
#[verifier::opaque]
pub open spec fn is_fx_comp_ratio_variant(s: Seq<char>) -> bool {
    ||| s == "1:2"@
    ||| s == "1:4"@
    ||| s == "1:8"@
    ||| s == "max"@
}

/// Decides membership in the FX compressor ratio domain.
pub fn check_fx_comp_ratio_variant(s: &String) -> (r: bool)
    ensures
        r == is_fx_comp_ratio_variant(s@),
{
    proof {
        reveal(is_fx_comp_ratio_variant);
    }
    *s == "1:2".to_owned()
        || *s == "1:4".to_owned()
        || *s == "1:8".to_owned()
        || *s == "max".to_owned()
}

/// The variant names of the FX compressor side-chain EQ domain.
#[verifier::opaque]
pub open spec fn is_fx_comp_side_chain_eq_variant(s: Seq<char>) -> bool {
    ||| s == "off"@
    ||| s == "lpf"@
    ||| s == "hpf"@
    ||| s == "hit"@
}

/// Decides membership in the FX compressor side-chain EQ domain.
pub fn check_fx_comp_side_chain_eq_variant(s: &String) -> (r: bool)
    ensures
        r == is_fx_comp_side_chain_eq_variant(s@),
{
    proof {
        reveal(is_fx_comp_side_chain_eq_variant);
    }
    *s == "off".to_owned()
        || *s == "lpf".to_owned()
        || *s == "hpf".to_owned()
        || *s == "hit".to_owned()
}

/// The variant names of the sound machine type domain.
#[verifier::opaque]
pub open spec fn is_machine_type_variant(s: Seq<char>) -> bool {
    ||| s == "bdhard"@
    ||| s == "bdclassic"@
    ||| s == "sdhard"@
    ||| s == "sdclassic"@
    ||| s == "rshard"@
    ||| s == "rsclassic"@
    ||| s == "cpclassic"@
    ||| s == "btclassic"@
    ||| s == "xtclassic"@
    ||| s == "chclassic"@
    ||| s == "ohclassic"@
    ||| s == "cyclassic"@
    ||| s == "cbclassic"@
    ||| s == "bdfm"@
    ||| s == "sdfm"@
    ||| s == "utnoise"@
    ||| s == "utimpulse"@
    ||| s == "chmetallic"@
    ||| s == "ohmetallic"@
    ||| s == "cymetallic"@
    ||| s == "cbmetallic"@
    ||| s == "bdplastic"@
    ||| s == "bdsilky"@
    ||| s == "sdnatural"@
    ||| s == "hhbasic"@
    ||| s == "cyride"@
    ||| s == "bdsharp"@
    ||| s == "disable"@
    ||| s == "sydualvco"@
    ||| s == "sychip"@
    ||| s == "bdacoustic"@
    ||| s == "sdacoustic"@
    ||| s == "syraw"@
    ||| s == "hhlab"@
    ||| s == "unset"@
}

/// Decides membership in the sound machine type domain.
pub fn check_machine_type_variant(s: &String) -> (r: bool)
    ensures
        r == is_machine_type_variant(s@),
{
    proof {
        reveal(is_machine_type_variant);
    }
    *s == "bdhard".to_owned()
        || *s == "bdclassic".to_owned()
        || *s == "sdhard".to_owned()
        || *s == "sdclassic".to_owned()
        || *s == "rshard".to_owned()
        || *s == "rsclassic".to_owned()
        || *s == "cpclassic".to_owned()
        || *s == "btclassic".to_owned()
        || *s == "xtclassic".to_owned()
        || *s == "chclassic".to_owned()
        || *s == "ohclassic".to_owned()
        || *s == "cyclassic".to_owned()
        || *s == "cbclassic".to_owned()
        || *s == "bdfm".to_owned()
        || *s == "sdfm".to_owned()
        || *s == "utnoise".to_owned()
        || *s == "utimpulse".to_owned()
        || *s == "chmetallic".to_owned()
        || *s == "ohmetallic".to_owned()
        || *s == "cymetallic".to_owned()
        || *s == "cbmetallic".to_owned()
        || *s == "bdplastic".to_owned()
        || *s == "bdsilky".to_owned()
        || *s == "sdnatural".to_owned()
        || *s == "hhbasic".to_owned()
        || *s == "cyride".to_owned()
        || *s == "bdsharp".to_owned()
        || *s == "disable".to_owned()
        || *s == "sydualvco".to_owned()
        || *s == "sychip".to_owned()
        || *s == "bdacoustic".to_owned()
        || *s == "sdacoustic".to_owned()
        || *s == "syraw".to_owned()
        || *s == "hhlab".to_owned()
        || *s == "unset".to_owned()
}

/// The variant names of the sound LFO destination domain.
#[verifier::opaque]
pub open spec fn is_lfo_destination_variant(s: Seq<char>) -> bool {
    ||| s == "syn1"@
    ||| s == "syn2"@
    ||| s == "syn3"@
    ||| s == "syn4"@
    ||| s == "syn5"@
    ||| s == "syn6"@
    ||| s == "syn7"@
    ||| s == "syn8"@
    ||| s == "sampletune"@
    ||| s == "samplefinetune"@
    ||| s == "sampleslice"@
    ||| s == "samplebitreduction"@
    ||| s == "samplestart"@
    ||| s == "sampleend"@
    ||| s == "sampleloop"@
    ||| s == "samplelevel"@
    ||| s == "filterenvelope"@
    ||| s == "filterattack"@
    ||| s == "filterdecay"@
    ||| s == "filtersustain"@
    ||| s == "filterrelease"@
    ||| s == "filterfrequency"@
    ||| s == "filterresonance"@
    ||| s == "ampattack"@
    ||| s == "amphold"@
    ||| s == "ampdecay"@
    ||| s == "ampoverdrive"@
    ||| s == "ampvolume"@
    ||| s == "amppan"@
    ||| s == "ampaccent"@
    ||| s == "ampdelaysend"@
    ||| s == "ampreverb_send"@
    ||| s == "unset"@
}

/// Decides membership in the sound LFO destination domain.
pub fn check_lfo_destination_variant(s: &String) -> (r: bool)
    ensures
        r == is_lfo_destination_variant(s@),
{
    proof {
        reveal(is_lfo_destination_variant);
    }
    *s == "syn1".to_owned()
        || *s == "syn2".to_owned()
        || *s == "syn3".to_owned()
        || *s == "syn4".to_owned()
        || *s == "syn5".to_owned()
        || *s == "syn6".to_owned()
        || *s == "syn7".to_owned()
        || *s == "syn8".to_owned()
        || *s == "sampletune".to_owned()
        || *s == "samplefinetune".to_owned()
        || *s == "sampleslice".to_owned()
        || *s == "samplebitreduction".to_owned()
        || *s == "samplestart".to_owned()
        || *s == "sampleend".to_owned()
        || *s == "sampleloop".to_owned()
        || *s == "samplelevel".to_owned()
        || *s == "filterenvelope".to_owned()
        || *s == "filterattack".to_owned()
        || *s == "filterdecay".to_owned()
        || *s == "filtersustain".to_owned()
        || *s == "filterrelease".to_owned()
        || *s == "filterfrequency".to_owned()
        || *s == "filterresonance".to_owned()
        || *s == "ampattack".to_owned()
        || *s == "amphold".to_owned()
        || *s == "ampdecay".to_owned()
        || *s == "ampoverdrive".to_owned()
        || *s == "ampvolume".to_owned()
        || *s == "amppan".to_owned()
        || *s == "ampaccent".to_owned()
        || *s == "ampdelaysend".to_owned()
        || *s == "ampreverb_send".to_owned()
        || *s == "unset".to_owned()
}

/// The variant names of the velocity and after-touch modulation target domain.
#[verifier::opaque]
pub open spec fn is_sound_mod_target_variant(s: Seq<char>) -> bool {
    ||| s == "unset"@
    ||| s == "lfomultiplier"@
    ||| s == "lfowaveform"@
    ||| s == "lfotrigmode"@
    ||| s == "lfospeed"@
    ||| s == "lfofade"@
    ||| s == "lfophase"@
    ||| s == "lfodepth"@
    ||| s == "syn1"@
    ||| s == "syn2"@
    ||| s == "syn3"@
    ||| s == "syn4"@
    ||| s == "syn5"@
    ||| s == "syn6"@
    ||| s == "syn7"@
    ||| s == "syn8"@
    ||| s == "sampletune"@
    ||| s == "samplefinetune"@
    ||| s == "sampleslice"@
    ||| s == "samplebitreduction"@
    ||| s == "samplestart"@
    ||| s == "sampleend"@
    ||| s == "sampleloop"@
    ||| s == "samplelevel"@
    ||| s == "filterenvelope"@
    ||| s == "filterattack"@
    ||| s == "filterdecay"@
    ||| s == "filtersustain"@
    ||| s == "filterrelease"@
    ||| s == "filterfrequency"@
    ||| s == "filterresonance"@
    ||| s == "ampattack"@
    ||| s == "amphold"@
    ||| s == "ampdecay"@
    ||| s == "ampoverdrive"@
    ||| s == "ampvolume"@
    ||| s == "amppan"@
    ||| s == "ampaccent"@
    ||| s == "ampdelaysend"@
    ||| s == "ampreverbsend"@
}

/// Decides membership in the velocity and after-touch modulation target domain.
pub fn check_sound_mod_target_variant(s: &String) -> (r: bool)
    ensures
        r == is_sound_mod_target_variant(s@),
{
    proof {
        reveal(is_sound_mod_target_variant);
    }
    *s == "unset".to_owned()
        || *s == "lfomultiplier".to_owned()
        || *s == "lfowaveform".to_owned()
        || *s == "lfotrigmode".to_owned()
        || *s == "lfospeed".to_owned()
        || *s == "lfofade".to_owned()
        || *s == "lfophase".to_owned()
        || *s == "lfodepth".to_owned()
        || *s == "syn1".to_owned()
        || *s == "syn2".to_owned()
        || *s == "syn3".to_owned()
        || *s == "syn4".to_owned()
        || *s == "syn5".to_owned()
        || *s == "syn6".to_owned()
        || *s == "syn7".to_owned()
        || *s == "syn8".to_owned()
        || *s == "sampletune".to_owned()
        || *s == "samplefinetune".to_owned()
        || *s == "sampleslice".to_owned()
        || *s == "samplebitreduction".to_owned()
        || *s == "samplestart".to_owned()
        || *s == "sampleend".to_owned()
        || *s == "sampleloop".to_owned()
        || *s == "samplelevel".to_owned()
        || *s == "filterenvelope".to_owned()
        || *s == "filterattack".to_owned()
        || *s == "filterdecay".to_owned()
        || *s == "filtersustain".to_owned()
        || *s == "filterrelease".to_owned()
        || *s == "filterfrequency".to_owned()
        || *s == "filterresonance".to_owned()
        || *s == "ampattack".to_owned()
        || *s == "amphold".to_owned()
        || *s == "ampdecay".to_owned()
        || *s == "ampoverdrive".to_owned()
        || *s == "ampvolume".to_owned()
        || *s == "amppan".to_owned()
        || *s == "ampaccent".to_owned()
        || *s == "ampdelaysend".to_owned()
        || *s == "ampreverbsend".to_owned()
}

/// The variant names of the filter type domain.
#[verifier::opaque]
pub open spec fn is_filter_type_variant(s: Seq<char>) -> bool {
    ||| s == "lp2"@
    ||| s == "lp1"@
    ||| s == "bp"@
    ||| s == "hp1"@
    ||| s == "hp2"@
    ||| s == "bs"@
    ||| s == "pk"@
}

/// Decides membership in the filter type domain.
pub fn check_filter_type_variant(s: &String) -> (r: bool)
    ensures
        r == is_filter_type_variant(s@),
{
    proof {
        reveal(is_filter_type_variant);
    }
    *s == "lp2".to_owned()
        || *s == "lp1".to_owned()
        || *s == "bp".to_owned()
        || *s == "hp1".to_owned()
        || *s == "hp2".to_owned()
        || *s == "bs".to_owned()
        || *s == "pk".to_owned()
}

/// The variant names of the LFO multiplier domain.
#[verifier::opaque]
pub open spec fn is_lfo_multiplier_variant(s: Seq<char>) -> bool {
    ||| s == "x1"@
    ||| s == "x2"@
    ||| s == "x4"@
    ||| s == "x8"@
    ||| s == "x16"@
    ||| s == "x32"@
    ||| s == "x64"@
    ||| s == "x128"@
    ||| s == "x256"@
    ||| s == "x512"@
    ||| s == "x1k"@
    ||| s == "x2k"@
    ||| s == ".1"@
    ||| s == ".2"@
    ||| s == ".4"@
    ||| s == ".8"@
    ||| s == ".16"@
    ||| s == ".32"@
    ||| s == ".64"@
    ||| s == ".128"@
    ||| s == ".256"@
    ||| s == ".512"@
    ||| s == ".1k"@
    ||| s == ".2k"@
}

/// Decides membership in the LFO multiplier domain.
pub fn check_lfo_multiplier_variant(s: &String) -> (r: bool)
    ensures
        r == is_lfo_multiplier_variant(s@),
{
    proof {
        reveal(is_lfo_multiplier_variant);
    }
    *s == "x1".to_owned()
        || *s == "x2".to_owned()
        || *s == "x4".to_owned()
        || *s == "x8".to_owned()
        || *s == "x16".to_owned()
        || *s == "x32".to_owned()
        || *s == "x64".to_owned()
        || *s == "x128".to_owned()
        || *s == "x256".to_owned()
        || *s == "x512".to_owned()
        || *s == "x1k".to_owned()
        || *s == "x2k".to_owned()
        || *s == ".1".to_owned()
        || *s == ".2".to_owned()
        || *s == ".4".to_owned()
        || *s == ".8".to_owned()
        || *s == ".16".to_owned()
        || *s == ".32".to_owned()
        || *s == ".64".to_owned()
        || *s == ".128".to_owned()
        || *s == ".256".to_owned()
        || *s == ".512".to_owned()
        || *s == ".1k".to_owned()
        || *s == ".2k".to_owned()
}

/// The variant names of the LFO waveform domain.
#[verifier::opaque]
pub open spec fn is_lfo_waveform_variant(s: Seq<char>) -> bool {
    ||| s == "tri"@
    ||| s == "sin"@
    ||| s == "sqr"@
    ||| s == "saw"@
    ||| s == "exp"@
    ||| s == "rmp"@
    ||| s == "rnd"@
}

/// Decides membership in the LFO waveform domain.
pub fn check_lfo_waveform_variant(s: &String) -> (r: bool)
    ensures
        r == is_lfo_waveform_variant(s@),
{
    proof {
        reveal(is_lfo_waveform_variant);
    }
    *s == "tri".to_owned()
        || *s == "sin".to_owned()
        || *s == "sqr".to_owned()
        || *s == "saw".to_owned()
        || *s == "exp".to_owned()
        || *s == "rmp".to_owned()
        || *s == "rnd".to_owned()
}

/// The variant names of the LFO mode domain.
#[verifier::opaque]
pub open spec fn is_lfo_mode_variant(s: Seq<char>) -> bool {
    ||| s == "free"@
    ||| s == "trig"@
    ||| s == "hold"@
    ||| s == "one"@
    ||| s == "half"@
}

/// Decides membership in the LFO mode domain.
pub fn check_lfo_mode_variant(s: &String) -> (r: bool)
    ensures
        r == is_lfo_mode_variant(s@),
{
    proof {
        reveal(is_lfo_mode_variant);
    }
    *s == "free".to_owned()
        || *s == "trig".to_owned()
        || *s == "hold".to_owned()
        || *s == "one".to_owned()
        || *s == "half".to_owned()
}

/// The variant names of the chromatic mode domain.
#[verifier::opaque]
pub open spec fn is_chromatic_mode_variant(s: Seq<char>) -> bool {
    ||| s == "off"@
    ||| s == "syn"@
    ||| s == "samp"@
    ||| s == "syn+samp"@
}

/// Decides membership in the chromatic mode domain.
pub fn check_chromatic_mode_variant(s: &String) -> (r: bool)
    ensures
        r == is_chromatic_mode_variant(s@),
{
    proof {
        reveal(is_chromatic_mode_variant);
    }
    *s == "off".to_owned()
        || *s == "syn".to_owned()
        || *s == "samp".to_owned()
        || *s == "syn+samp".to_owned()
}

} // verus!
