//! Variant-name domains of the sequencer hierarchy: pattern, track and trig.
//!
//! Each domain is a closed set of symbolic variant names; the spec function
//! states the set and the checker decides membership.

use vstd::prelude::*;

verus! {

/// The variant names of the pattern playback speed domain.
#[verifier::opaque]
pub open spec fn is_speed_variant(s: Seq<char>) -> bool {
    ||| s == "1x"@
    ||| s == "2x"@
    ||| s == "3/2x"@
    ||| s == "3/4x"@
    ||| s == "1/2x"@
    ||| s == "1/4x"@
    ||| s == "1/8x"@
}

/// Decides membership in the pattern playback speed domain.
pub fn check_speed_variant(s: &String) -> (r: bool)
    ensures
        r == is_speed_variant(s@),
{
    proof {
        reveal(is_speed_variant);
    }
    *s == "1x".to_owned()
        || *s == "2x".to_owned()
        || *s == "3/2x".to_owned()
        || *s == "3/4x".to_owned()
        || *s == "1/2x".to_owned()
        || *s == "1/4x".to_owned()
        || *s == "1/8x".to_owned()
}

/// The variant names of the pattern time mode domain.
#[verifier::opaque]
pub open spec fn is_time_mode_variant(s: Seq<char>) -> bool {
    ||| s == "normal"@
    ||| s == "advanced"@
}

/// Decides membership in the pattern time mode domain.
pub fn check_time_mode_variant(s: &String) -> (r: bool)
    ensures
        r == is_time_mode_variant(s@),
{
    proof {
        reveal(is_time_mode_variant);
    }
    *s == "normal".to_owned()
        || *s == "advanced".to_owned()
}

/// The variant names of the track root note domain.
#[verifier::opaque]
pub open spec fn is_root_note_variant(s: Seq<char>) -> bool {
    ||| s == "c"@
    ||| s == "c#"@
    ||| s == "d"@
    ||| s == "eb"@
    ||| s == "e"@
    ||| s == "f"@
    ||| s == "f#"@
    ||| s == "g"@
    ||| s == "g#"@
    ||| s == "a"@
    ||| s == "bb"@
    ||| s == "b"@
}

/// Decides membership in the track root note domain.
pub fn check_root_note_variant(s: &String) -> (r: bool)
    ensures
        r == is_root_note_variant(s@),
{
    proof {
        reveal(is_root_note_variant);
    }
    *s == "c".to_owned()
        || *s == "c#".to_owned()
        || *s == "d".to_owned()
        || *s == "eb".to_owned()
        || *s == "e".to_owned()
        || *s == "f".to_owned()
        || *s == "f#".to_owned()
        || *s == "g".to_owned()
        || *s == "g#".to_owned()
        || *s == "a".to_owned()
        || *s == "bb".to_owned()
        || *s == "b".to_owned()
}

/// The variant names of the track pad scale domain.
#[verifier::opaque]
pub open spec fn is_pad_scale_variant(s: Seq<char>) -> bool {
    ||| s == "chromatic"@
    ||| s == "ionianmajor"@
    ||| s == "dorian"@
    ||| s == "phrygian"@
    ||| s == "lydian"@
    ||| s == "mixolydian"@
    ||| s == "aeolianminor"@
    ||| s == "locrian"@
    ||| s == "pentatonicminor"@
    ||| s == "pentatonicmajor"@
    ||| s == "melodicminor"@
    ||| s == "harmonicminor"@
    ||| s == "wholetone"@
    ||| s == "blues"@
    ||| s == "combominor"@
    ||| s == "persian"@
    ||| s == "iwato"@
    ||| s == "insen"@
    ||| s == "hirajoshi"@
    ||| s == "pelog"@
    ||| s == "phrygiandominant"@
    ||| s == "wholehalfdiminished"@
    ||| s == "halfwholediminished"@
    ||| s == "spanish"@
    ||| s == "majorlocrian"@
    ||| s == "superlocrian"@
    ||| s == "dorianb2"@
    ||| s == "lydianaugmented"@
    ||| s == "lydiandominant"@
    ||| s == "doubleharmonicmajor"@
    ||| s == "lydian26"@
    ||| s == "ultraphrygian"@
    ||| s == "hungarianminor"@
    ||| s == "oriental"@
    ||| s == "ionian25"@
    ||| s == "locrianbb3bb7"@
}

/// Decides membership in the track pad scale domain.
pub fn check_pad_scale_variant(s: &String) -> (r: bool)
    ensures
        r == is_pad_scale_variant(s@),
{
    proof {
        reveal(is_pad_scale_variant);
    }
    *s == "chromatic".to_owned()
        || *s == "ionianmajor".to_owned()
        || *s == "dorian".to_owned()
        || *s == "phrygian".to_owned()
        || *s == "lydian".to_owned()
        || *s == "mixolydian".to_owned()
        || *s == "aeolianminor".to_owned()
        || *s == "locrian".to_owned()
        || *s == "pentatonicminor".to_owned()
        || *s == "pentatonicmajor".to_owned()
        || *s == "melodicminor".to_owned()
        || *s == "harmonicminor".to_owned()
        || *s == "wholetone".to_owned()
        || *s == "blues".to_owned()
        || *s == "combominor".to_owned()
        || *s == "persian".to_owned()
        || *s == "iwato".to_owned()
        || *s == "insen".to_owned()
        || *s == "hirajoshi".to_owned()
        || *s == "pelog".to_owned()
        || *s == "phrygiandominant".to_owned()
        || *s == "wholehalfdiminished".to_owned()
        || *s == "halfwholediminished".to_owned()
        || *s == "spanish".to_owned()
        || *s == "majorlocrian".to_owned()
        || *s == "superlocrian".to_owned()
        || *s == "dorianb2".to_owned()
        || *s == "lydianaugmented".to_owned()
        || *s == "lydiandominant".to_owned()
        || *s == "doubleharmonicmajor".to_owned()
        || *s == "lydian26".to_owned()
        || *s == "ultraphrygian".to_owned()
        || *s == "hungarianminor".to_owned()
        || *s == "oriental".to_owned()
        || *s == "ionian25".to_owned()
        || *s == "locrianbb3bb7".to_owned()
}

/// The variant names of the trig micro timing domain.
#[verifier::opaque]
pub open spec fn is_micro_time_variant(s: Seq<char>) -> bool {
    ||| s == "-23/384"@
    ||| s == "-11/192"@
    ||| s == "-7/128"@
    ||| s == "-5/96"@
    ||| s == "-19/384"@
    ||| s == "-3/64"@
    ||| s == "-17/384"@
    ||| s == "-1/24"@
    ||| s == "-5/128"@
    ||| s == "-7/192"@
    ||| s == "-13/384"@
    ||| s == "-1/32"@
    ||| s == "-11/384"@
    ||| s == "-5/192"@
    ||| s == "-3/128"@
    ||| s == "-1/48"@
    ||| s == "-7/384"@
    ||| s == "-1/64"@
    ||| s == "-5/384"@
    ||| s == "-1/96"@
    ||| s == "-1/128"@
    ||| s == "-1/192"@
    ||| s == "-1/384"@
    ||| s == "ongrid"@
    ||| s == "1/384"@
    ||| s == "1/192"@
    ||| s == "1/128"@
    ||| s == "1/96"@
    ||| s == "5/384"@
    ||| s == "1/64"@
    ||| s == "7/384"@
    ||| s == "1/48"@
    ||| s == "3/128"@
    ||| s == "5/192"@
    ||| s == "11/384"@
    ||| s == "1/32"@
    ||| s == "13/384"@
    ||| s == "7/192"@
    ||| s == "5/128"@
    ||| s == "1/24"@
    ||| s == "17/384"@
    ||| s == "3/64"@
    ||| s == "19/384"@
    ||| s == "5/96"@
    ||| s == "7/128"@
    ||| s == "11/192"@
    ||| s == "23/384"@
}

/// Decides membership in the trig micro timing domain.
#[verifier::rlimit(40)]
pub fn check_micro_time_variant(s: &String) -> (r: bool)
    ensures
        r == is_micro_time_variant(s@),
{
    proof {
        reveal(is_micro_time_variant);
    }
    *s == "-23/384".to_owned()
        || *s == "-11/192".to_owned()
        || *s == "-7/128".to_owned()
        || *s == "-5/96".to_owned()
        || *s == "-19/384".to_owned()
        || *s == "-3/64".to_owned()
        || *s == "-17/384".to_owned()
        || *s == "-1/24".to_owned()
        || *s == "-5/128".to_owned()
        || *s == "-7/192".to_owned()
        || *s == "-13/384".to_owned()
        || *s == "-1/32".to_owned()
        || *s == "-11/384".to_owned()
        || *s == "-5/192".to_owned()
        || *s == "-3/128".to_owned()
        || *s == "-1/48".to_owned()
        || *s == "-7/384".to_owned()
        || *s == "-1/64".to_owned()
        || *s == "-5/384".to_owned()
        || *s == "-1/96".to_owned()
        || *s == "-1/128".to_owned()
        || *s == "-1/192".to_owned()
        || *s == "-1/384".to_owned()
        || *s == "ongrid".to_owned()
        || *s == "1/384".to_owned()
        || *s == "1/192".to_owned()
        || *s == "1/128".to_owned()
        || *s == "1/96".to_owned()
        || *s == "5/384".to_owned()
        || *s == "1/64".to_owned()
        || *s == "7/384".to_owned()
        || *s == "1/48".to_owned()
        || *s == "3/128".to_owned()
        || *s == "5/192".to_owned()
        || *s == "11/384".to_owned()
        || *s == "1/32".to_owned()
        || *s == "13/384".to_owned()
        || *s == "7/192".to_owned()
        || *s == "5/128".to_owned()
        || *s == "1/24".to_owned()
        || *s == "17/384".to_owned()
        || *s == "3/64".to_owned()
        || *s == "19/384".to_owned()
        || *s == "5/96".to_owned()
        || *s == "7/128".to_owned()
        || *s == "11/192".to_owned()
        || *s == "23/384".to_owned()
}

/// The variant names of the note, retrig and default-note length domain.
#[verifier::opaque]
pub open spec fn is_length_variant(s: Seq<char>) -> bool {
    ||| s == "1/128"@
    ||| s == ".188"@
    ||| s == "1/64"@
    ||| s == ".313"@
    ||| s == ".375"@
    ||| s == ".438"@
    ||| s == "1/32"@
    ||| s == ".563"@
    ||| s == ".625"@
    ||| s == ".688"@
    ||| s == ".75"@
    ||| s == ".813"@
    ||| s == ".875"@
    ||| s == ".938"@
    ||| s == "1/16"@
    ||| s == "1.06"@
    ||| s == "1.13"@
    ||| s == "1.19"@
    ||| s == "1.25"@
    ||| s == "1.31"@
    ||| s == "1.38"@
    ||| s == "1.44"@
    ||| s == "1.5"@
    ||| s == "1.56"@
    ||| s == "1.63"@
    ||| s == "1.69"@
    ||| s == "1.75"@
    ||| s == "1.81"@
    ||| s == "1.88"@
    ||| s == "1.94"@
    ||| s == "1/8"@
    ||| s == "2.13"@
    ||| s == "2.25"@
    ||| s == "2.38"@
    ||| s == "2.5"@
    ||| s == "2.63"@
    ||| s == "2.75"@
    ||| s == "2.88"@
    ||| s == "3"@
    ||| s == "3.13"@
    ||| s == "3.25"@
    ||| s == "3.38"@
    ||| s == "3.5"@
    ||| s == "3.63"@
    ||| s == "3.75"@
    ||| s == "3.88"@
    ||| s == "1/4"@
    ||| s == "4.25"@
    ||| s == "4.5"@
    ||| s == "4.75"@
    ||| s == "5"@
    ||| s == "5.25"@
    ||| s == "5.5"@
    ||| s == "5.75"@
    ||| s == "6"@
    ||| s == "6.25"@
    ||| s == "6.5"@
    ||| s == "6.75"@
    ||| s == "7"@
    ||| s == "7.25"@
    ||| s == "7.5"@
    ||| s == "7.75"@
    ||| s == "1/2"@
    ||| s == "8.5"@
    ||| s == "9"@
    ||| s == "9.5"@
    ||| s == "10"@
    ||| s == "10.5"@
    ||| s == "11"@
    ||| s == "11.5"@
    ||| s == "12"@
    ||| s == "12.5"@
    ||| s == "13"@
    ||| s == "13.5"@
    ||| s == "14"@
    ||| s == "14.5"@
    ||| s == "15"@
    ||| s == "15.5"@
    ||| s == "1/1"@
    ||| s == "17"@
    ||| s == "18"@
    ||| s == "19"@
    ||| s == "20"@
    ||| s == "21"@
    ||| s == "22"@
    ||| s == "23"@
    ||| s == "24"@
    ||| s == "25"@
    ||| s == "26"@
    ||| s == "27"@
    ||| s == "28"@
    ||| s == "29"@
    ||| s == "30"@
    ||| s == "31"@
    ||| s == "32"@
    ||| s == "34"@
    ||| s == "36"@
    ||| s == "38"@
    ||| s == "40"@
    ||| s == "42"@
    ||| s == "44"@
    ||| s == "46"@
    ||| s == "48"@
    ||| s == "50"@
    ||| s == "52"@
    ||| s == "54"@
    ||| s == "56"@
    ||| s == "58"@
    ||| s == "60"@
    ||| s == "62"@
    ||| s == "64"@
    ||| s == "68"@
    ||| s == "72"@
    ||| s == "76"@
    ||| s == "80"@
    ||| s == "84"@
    ||| s == "88"@
    ||| s == "92"@
    ||| s == "96"@
    ||| s == "100"@
    ||| s == "104"@
    ||| s == "108"@
    ||| s == "112"@
    ||| s == "116"@
    ||| s == "120"@
    ||| s == "124"@
    ||| s == "128"@
    ||| s == "inf"@
    ||| s == "unset"@
}

/// Decides membership in the note, retrig and default-note length domain.
#[verifier::rlimit(40)]
pub fn check_length_variant(s: &String) -> (r: bool)
    ensures
        r == is_length_variant(s@),
{
    proof {
        reveal(is_length_variant);
    }
    *s == "1/128".to_owned()
        || *s == ".188".to_owned()
        || *s == "1/64".to_owned()
        || *s == ".313".to_owned()
        || *s == ".375".to_owned()
        || *s == ".438".to_owned()
        || *s == "1/32".to_owned()
        || *s == ".563".to_owned()
        || *s == ".625".to_owned()
        || *s == ".688".to_owned()
        || *s == ".75".to_owned()
        || *s == ".813".to_owned()
        || *s == ".875".to_owned()
        || *s == ".938".to_owned()
        || *s == "1/16".to_owned()
        || *s == "1.06".to_owned()
        || *s == "1.13".to_owned()
        || *s == "1.19".to_owned()
        || *s == "1.25".to_owned()
        || *s == "1.31".to_owned()
        || *s == "1.38".to_owned()
        || *s == "1.44".to_owned()
        || *s == "1.5".to_owned()
        || *s == "1.56".to_owned()
        || *s == "1.63".to_owned()
        || *s == "1.69".to_owned()
        || *s == "1.75".to_owned()
        || *s == "1.81".to_owned()
        || *s == "1.88".to_owned()
        || *s == "1.94".to_owned()
        || *s == "1/8".to_owned()
        || *s == "2.13".to_owned()
        || *s == "2.25".to_owned()
        || *s == "2.38".to_owned()
        || *s == "2.5".to_owned()
        || *s == "2.63".to_owned()
        || *s == "2.75".to_owned()
        || *s == "2.88".to_owned()
        || *s == "3".to_owned()
        || *s == "3.13".to_owned()
        || *s == "3.25".to_owned()
        || *s == "3.38".to_owned()
        || *s == "3.5".to_owned()
        || *s == "3.63".to_owned()
        || *s == "3.75".to_owned()
        || *s == "3.88".to_owned()
        || *s == "1/4".to_owned()
        || *s == "4.25".to_owned()
        || *s == "4.5".to_owned()
        || *s == "4.75".to_owned()
        || *s == "5".to_owned()
        || *s == "5.25".to_owned()
        || *s == "5.5".to_owned()
        || *s == "5.75".to_owned()
        || *s == "6".to_owned()
        || *s == "6.25".to_owned()
        || *s == "6.5".to_owned()
        || *s == "6.75".to_owned()
        || *s == "7".to_owned()
        || *s == "7.25".to_owned()
        || *s == "7.5".to_owned()
        || *s == "7.75".to_owned()
        || *s == "1/2".to_owned()
        || *s == "8.5".to_owned()
        || *s == "9".to_owned()
        || *s == "9.5".to_owned()
        || *s == "10".to_owned()
        || *s == "10.5".to_owned()
        || *s == "11".to_owned()
        || *s == "11.5".to_owned()
        || *s == "12".to_owned()
        || *s == "12.5".to_owned()
        || *s == "13".to_owned()
        || *s == "13.5".to_owned()
        || *s == "14".to_owned()
        || *s == "14.5".to_owned()
        || *s == "15".to_owned()
        || *s == "15.5".to_owned()
        || *s == "1/1".to_owned()
        || *s == "17".to_owned()
        || *s == "18".to_owned()
        || *s == "19".to_owned()
        || *s == "20".to_owned()
        || *s == "21".to_owned()
        || *s == "22".to_owned()
        || *s == "23".to_owned()
        || *s == "24".to_owned()
        || *s == "25".to_owned()
        || *s == "26".to_owned()
        || *s == "27".to_owned()
        || *s == "28".to_owned()
        || *s == "29".to_owned()
        || *s == "30".to_owned()
        || *s == "31".to_owned()
        || *s == "32".to_owned()
        || *s == "34".to_owned()
        || *s == "36".to_owned()
        || *s == "38".to_owned()
        || *s == "40".to_owned()
        || *s == "42".to_owned()
        || *s == "44".to_owned()
        || *s == "46".to_owned()
        || *s == "48".to_owned()
        || *s == "50".to_owned()
        || *s == "52".to_owned()
        || *s == "54".to_owned()
        || *s == "56".to_owned()
        || *s == "58".to_owned()
        || *s == "60".to_owned()
        || *s == "62".to_owned()
        || *s == "64".to_owned()
        || *s == "68".to_owned()
        || *s == "72".to_owned()
        || *s == "76".to_owned()
        || *s == "80".to_owned()
        || *s == "84".to_owned()
        || *s == "88".to_owned()
        || *s == "92".to_owned()
        || *s == "96".to_owned()
        || *s == "100".to_owned()
        || *s == "104".to_owned()
        || *s == "108".to_owned()
        || *s == "112".to_owned()
        || *s == "116".to_owned()
        || *s == "120".to_owned()
        || *s == "124".to_owned()
        || *s == "128".to_owned()
        || *s == "inf".to_owned()
        || *s == "unset".to_owned()
}

/// The variant names of the retrig rate domain.
#[verifier::opaque]
pub open spec fn is_retrig_rate_variant(s: Seq<char>) -> bool {
    ||| s == "1/1"@
    ||| s == "1/2"@
    ||| s == "1/3"@
    ||| s == "1/4"@
    ||| s == "1/5"@
    ||| s == "1/6"@
    ||| s == "1/8"@
    ||| s == "1/10"@
    ||| s == "1/12"@
    ||| s == "1/16"@
    ||| s == "1/20"@
    ||| s == "1/24"@
    ||| s == "1/32"@
    ||| s == "1/40"@
    ||| s == "1/48"@
    ||| s == "1/64"@
    ||| s == "1/80"@
}

/// Decides membership in the retrig rate domain.
pub fn check_retrig_rate_variant(s: &String) -> (r: bool)
    ensures
        r == is_retrig_rate_variant(s@),
{
    proof {
        reveal(is_retrig_rate_variant);
    }
    *s == "1/1".to_owned()
        || *s == "1/2".to_owned()
        || *s == "1/3".to_owned()
        || *s == "1/4".to_owned()
        || *s == "1/5".to_owned()
        || *s == "1/6".to_owned()
        || *s == "1/8".to_owned()
        || *s == "1/10".to_owned()
        || *s == "1/12".to_owned()
        || *s == "1/16".to_owned()
        || *s == "1/20".to_owned()
        || *s == "1/24".to_owned()
        || *s == "1/32".to_owned()
        || *s == "1/40".to_owned()
        || *s == "1/48".to_owned()
        || *s == "1/64".to_owned()
        || *s == "1/80".to_owned()
}

/// The variant names of the trig condition domain.
#[verifier::opaque]
pub open spec fn is_trig_condition_variant(s: Seq<char>) -> bool {
    ||| s == "1%"@
    ||| s == "3%"@
    ||| s == "4%"@
    ||| s == "6%"@
    ||| s == "9%"@
    ||| s == "13%"@
    ||| s == "19%"@
    ||| s == "25%"@
    ||| s == "33%"@
    ||| s == "41%"@
    ||| s == "50%"@
    ||| s == "59%"@
    ||| s == "67%"@
    ||| s == "75%"@
    ||| s == "81%"@
    ||| s == "87%"@
    ||| s == "91%"@
    ||| s == "94%"@
    ||| s == "96%"@
    ||| s == "98%"@
    ||| s == "99%"@
    ||| s == "100%"@
    ||| s == "fill"@
    ||| s == "fillnot"@
    ||| s == "pre"@
    ||| s == "prenot"@
    ||| s == "nei"@
    ||| s == "neinot"@
    ||| s == "1st"@
    ||| s == "1stnot"@
    ||| s == "1:2"@
    ||| s == "2:2"@
    ||| s == "1:3"@
    ||| s == "2:3"@
    ||| s == "3:3"@
    ||| s == "1:4"@
    ||| s == "2:4"@
    ||| s == "3:4"@
    ||| s == "4:4"@
    ||| s == "1:5"@
    ||| s == "2:5"@
    ||| s == "3:5"@
    ||| s == "4:5"@
    ||| s == "5:5"@
    ||| s == "1:6"@
    ||| s == "2:6"@
    ||| s == "3:6"@
    ||| s == "4:6"@
    ||| s == "5:6"@
    ||| s == "6:6"@
    ||| s == "1:7"@
    ||| s == "2:7"@
    ||| s == "3:7"@
    ||| s == "4:7"@
    ||| s == "5:7"@
    ||| s == "6:7"@
    ||| s == "7:7"@
    ||| s == "1:8"@
    ||| s == "2:8"@
    ||| s == "3:8"@
    ||| s == "4:8"@
    ||| s == "5:8"@
    ||| s == "6:8"@
    ||| s == "7:8"@
    ||| s == "8:8"@
    ||| s == "unset"@
}

/// Decides membership in the trig condition domain.
#[verifier::rlimit(40)]
pub fn check_trig_condition_variant(s: &String) -> (r: bool)
    ensures
        r == is_trig_condition_variant(s@),
{
    proof {
        reveal(is_trig_condition_variant);
    }
    *s == "1%".to_owned()
        || *s == "3%".to_owned()
        || *s == "4%".to_owned()
        || *s == "6%".to_owned()
        || *s == "9%".to_owned()
        || *s == "13%".to_owned()
        || *s == "19%".to_owned()
        || *s == "25%".to_owned()
        || *s == "33%".to_owned()
        || *s == "41%".to_owned()
        || *s == "50%".to_owned()
        || *s == "59%".to_owned()
        || *s == "67%".to_owned()
        || *s == "75%".to_owned()
        || *s == "81%".to_owned()
        || *s == "87%".to_owned()
        || *s == "91%".to_owned()
        || *s == "94%".to_owned()
        || *s == "96%".to_owned()
        || *s == "98%".to_owned()
        || *s == "99%".to_owned()
        || *s == "100%".to_owned()
        || *s == "fill".to_owned()
        || *s == "fillnot".to_owned()
        || *s == "pre".to_owned()
        || *s == "prenot".to_owned()
        || *s == "nei".to_owned()
        || *s == "neinot".to_owned()
        || *s == "1st".to_owned()
        || *s == "1stnot".to_owned()
        || *s == "1:2".to_owned()
        || *s == "2:2".to_owned()
        || *s == "1:3".to_owned()
        || *s == "2:3".to_owned()
        || *s == "3:3".to_owned()
        || *s == "1:4".to_owned()
        || *s == "2:4".to_owned()
        || *s == "3:4".to_owned()
        || *s == "4:4".to_owned()
        || *s == "1:5".to_owned()
        || *s == "2:5".to_owned()
        || *s == "3:5".to_owned()
        || *s == "4:5".to_owned()
        || *s == "5:5".to_owned()
        || *s == "1:6".to_owned()
        || *s == "2:6".to_owned()
        || *s == "3:6".to_owned()
        || *s == "4:6".to_owned()
        || *s == "5:6".to_owned()
        || *s == "6:6".to_owned()
        || *s == "1:7".to_owned()
        || *s == "2:7".to_owned()
        || *s == "3:7".to_owned()
        || *s == "4:7".to_owned()
        || *s == "5:7".to_owned()
        || *s == "6:7".to_owned()
        || *s == "7:7".to_owned()
        || *s == "1:8".to_owned()
        || *s == "2:8".to_owned()
        || *s == "3:8".to_owned()
        || *s == "4:8".to_owned()
        || *s == "5:8".to_owned()
        || *s == "6:8".to_owned()
        || *s == "7:8".to_owned()
        || *s == "8:8".to_owned()
        || *s == "unset".to_owned()
}

} // verus!
