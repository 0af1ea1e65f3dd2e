//! Variant-name domains of the global slots and the settings object.
//!
//! Each domain is a closed set of symbolic variant names; the spec function
//! states the set and the checker decides membership.

use vstd::prelude::*;

verus! {

/// The variant names of the metronome time signature domain.
#[verifier::opaque]
pub open spec fn is_time_signature_variant(s: Seq<char>) -> bool {
    ||| s == "1/1"@
    ||| s == "2/1"@
    ||| s == "3/1"@
    ||| s == "4/1"@
    ||| s == "5/1"@
    ||| s == "6/1"@
    ||| s == "7/1"@
    ||| s == "8/1"@
    ||| s == "9/1"@
    ||| s == "10/1"@
    ||| s == "11/1"@
    ||| s == "12/1"@
    ||| s == "13/1"@
    ||| s == "14/1"@
    ||| s == "15/1"@
    ||| s == "16/1"@
    ||| s == "1/2"@
    ||| s == "2/2"@
    ||| s == "3/2"@
    ||| s == "4/2"@
    ||| s == "5/2"@
    ||| s == "6/2"@
    ||| s == "7/2"@
    ||| s == "8/2"@
    ||| s == "9/2"@
    ||| s == "10/2"@
    ||| s == "11/2"@
    ||| s == "12/2"@
    ||| s == "13/2"@
    ||| s == "14/2"@
    ||| s == "15/2"@
    ||| s == "16/2"@
    ||| s == "1/4"@
    ||| s == "2/4"@
    ||| s == "3/4"@
    ||| s == "4/4"@
    ||| s == "5/4"@
    ||| s == "6/4"@
    ||| s == "7/4"@
    ||| s == "8/4"@
    ||| s == "9/4"@
    ||| s == "10/4"@
    ||| s == "11/4"@
    ||| s == "12/4"@
    ||| s == "13/4"@
    ||| s == "14/4"@
    ||| s == "15/4"@
    ||| s == "16/4"@
    ||| s == "1/8"@
    ||| s == "2/8"@
    ||| s == "3/8"@
    ||| s == "4/8"@
    ||| s == "5/8"@
    ||| s == "6/8"@
    ||| s == "7/8"@
    ||| s == "8/8"@
    ||| s == "9/8"@
    ||| s == "10/8"@
    ||| s == "11/8"@
    ||| s == "12/8"@
    ||| s == "13/8"@
    ||| s == "14/8"@
    ||| s == "15/8"@
    ||| s == "16/8"@
    ||| s == "1/16"@
    ||| s == "2/16"@
    ||| s == "3/16"@
    ||| s == "4/16"@
    ||| s == "5/16"@
    ||| s == "6/16"@
    ||| s == "7/16"@
    ||| s == "8/16"@
    ||| s == "9/16"@
    ||| s == "10/16"@
    ||| s == "11/16"@
    ||| s == "12/16"@
    ||| s == "13/16"@
    ||| s == "14/16"@
    ||| s == "15/16"@
    ||| s == "16/16"@
}

/// Decides membership in the metronome time signature domain.
#[verifier::rlimit(40)]
pub fn check_time_signature_variant(s: &String) -> (r: bool)
    ensures
        r == is_time_signature_variant(s@),
{
    proof {
        reveal(is_time_signature_variant);
    }
    *s == "1/1".to_owned()
        || *s == "2/1".to_owned()
        || *s == "3/1".to_owned()
        || *s == "4/1".to_owned()
        || *s == "5/1".to_owned()
        || *s == "6/1".to_owned()
        || *s == "7/1".to_owned()
        || *s == "8/1".to_owned()
        || *s == "9/1".to_owned()
        || *s == "10/1".to_owned()
        || *s == "11/1".to_owned()
        || *s == "12/1".to_owned()
        || *s == "13/1".to_owned()
        || *s == "14/1".to_owned()
        || *s == "15/1".to_owned()
        || *s == "16/1".to_owned()
        || *s == "1/2".to_owned()
        || *s == "2/2".to_owned()
        || *s == "3/2".to_owned()
        || *s == "4/2".to_owned()
        || *s == "5/2".to_owned()
        || *s == "6/2".to_owned()
        || *s == "7/2".to_owned()
        || *s == "8/2".to_owned()
        || *s == "9/2".to_owned()
        || *s == "10/2".to_owned()
        || *s == "11/2".to_owned()
        || *s == "12/2".to_owned()
        || *s == "13/2".to_owned()
        || *s == "14/2".to_owned()
        || *s == "15/2".to_owned()
        || *s == "16/2".to_owned()
        || *s == "1/4".to_owned()
        || *s == "2/4".to_owned()
        || *s == "3/4".to_owned()
        || *s == "4/4".to_owned()
        || *s == "5/4".to_owned()
        || *s == "6/4".to_owned()
        || *s == "7/4".to_owned()
        || *s == "8/4".to_owned()
        || *s == "9/4".to_owned()
        || *s == "10/4".to_owned()
        || *s == "11/4".to_owned()
        || *s == "12/4".to_owned()
        || *s == "13/4".to_owned()
        || *s == "14/4".to_owned()
        || *s == "15/4".to_owned()
        || *s == "16/4".to_owned()
        || *s == "1/8".to_owned()
        || *s == "2/8".to_owned()
        || *s == "3/8".to_owned()
        || *s == "4/8".to_owned()
        || *s == "5/8".to_owned()
        || *s == "6/8".to_owned()
        || *s == "7/8".to_owned()
        || *s == "8/8".to_owned()
        || *s == "9/8".to_owned()
        || *s == "10/8".to_owned()
        || *s == "11/8".to_owned()
        || *s == "12/8".to_owned()
        || *s == "13/8".to_owned()
        || *s == "14/8".to_owned()
        || *s == "15/8".to_owned()
        || *s == "16/8".to_owned()
        || *s == "1/16".to_owned()
        || *s == "2/16".to_owned()
        || *s == "3/16".to_owned()
        || *s == "4/16".to_owned()
        || *s == "5/16".to_owned()
        || *s == "6/16".to_owned()
        || *s == "7/16".to_owned()
        || *s == "8/16".to_owned()
        || *s == "9/16".to_owned()
        || *s == "10/16".to_owned()
        || *s == "11/16".to_owned()
        || *s == "12/16".to_owned()
        || *s == "13/16".to_owned()
        || *s == "14/16".to_owned()
        || *s == "15/16".to_owned()
        || *s == "16/16".to_owned()
}

/// The variant names of the USB-in routing domain.
#[verifier::opaque]
pub open spec fn is_routing_usb_in_variant(s: Seq<char>) -> bool {
    ||| s == "pre-fx"@
    ||| s == "post-fx"@
    ||| s == "1"@
    ||| s == "2"@
    ||| s == "3:4"@
    ||| s == "5"@
    ||| s == "6"@
    ||| s == "7:8"@
    ||| s == "9:10"@
    ||| s == "11:12"@
    ||| s == "l:1r:2"@
    ||| s == "l:1r:3:4"@
    ||| s == "l:1r:5"@
    ||| s == "l:1r:6"@
    ||| s == "l:1r:7:8"@
    ||| s == "l:1r:9:10"@
    ||| s == "l:1r:11:12"@
    ||| s == "l:2r:1"@
    ||| s == "l:2r:3:4"@
    ||| s == "l:2r:5"@
    ||| s == "l:2r:6"@
    ||| s == "l:2r:7:8"@
    ||| s == "l:2r:9:10"@
    ||| s == "l:2r:11:12"@
    ||| s == "l:3:4r:1"@
    ||| s == "l:3:4r:2"@
    ||| s == "l:3:4r:5"@
    ||| s == "l:3:4r:6"@
    ||| s == "l:3:4r:7:8"@
    ||| s == "l:3:4r:9:10"@
    ||| s == "l:3:4r:11:12"@
    ||| s == "l:5r:1"@
    ||| s == "l:5r:2"@
    ||| s == "l:5r:3:4"@
    ||| s == "l:5r:6"@
    ||| s == "l:5r:7:8"@
    ||| s == "l:5r:9:10"@
    ||| s == "l:5r:11:12"@
    ||| s == "l:6r:1"@
    ||| s == "l:6r:2"@
    ||| s == "l:6r:3:4"@
    ||| s == "l:6r:5"@
    ||| s == "l:6r:7:8"@
    ||| s == "l:6r:9:10"@
    ||| s == "l:6r:11:12"@
    ||| s == "l:7:8r:1"@
    ||| s == "l:7:8r:2"@
    ||| s == "l:7:8r:3:4"@
    ||| s == "l:7:8r:5"@
    ||| s == "l:7:8r:6"@
    ||| s == "l:7:8r:9:10"@
    ||| s == "l:7:8r:11:12"@
    ||| s == "l:9:10r:1"@
    ||| s == "l:9:10r:2"@
    ||| s == "l:9:10r:3:4"@
    ||| s == "l:9:10r:5"@
    ||| s == "l:9:10r:6"@
    ||| s == "l:9:10r:7:8"@
    ||| s == "l:9:10r:11:12"@
    ||| s == "l:11:12r:1"@
    ||| s == "l:11:12r:2"@
    ||| s == "l:11:12r:3:4"@
    ||| s == "l:11:12r:5"@
    ||| s == "l:11:12r:6"@
    ||| s == "l:11:12r:7:8"@
    ||| s == "l:11:12r:9:10"@
    ||| s == "sampleronly"@
}

/// Decides membership in the USB-in routing domain.
#[verifier::rlimit(40)]
pub fn check_routing_usb_in_variant(s: &String) -> (r: bool)
    ensures
        r == is_routing_usb_in_variant(s@),
{
    proof {
        reveal(is_routing_usb_in_variant);
    }
    *s == "pre-fx".to_owned()
        || *s == "post-fx".to_owned()
        || *s == "1".to_owned()
        || *s == "2".to_owned()
        || *s == "3:4".to_owned()
        || *s == "5".to_owned()
        || *s == "6".to_owned()
        || *s == "7:8".to_owned()
        || *s == "9:10".to_owned()
        || *s == "11:12".to_owned()
        || *s == "l:1r:2".to_owned()
        || *s == "l:1r:3:4".to_owned()
        || *s == "l:1r:5".to_owned()
        || *s == "l:1r:6".to_owned()
        || *s == "l:1r:7:8".to_owned()
        || *s == "l:1r:9:10".to_owned()
        || *s == "l:1r:11:12".to_owned()
        || *s == "l:2r:1".to_owned()
        || *s == "l:2r:3:4".to_owned()
        || *s == "l:2r:5".to_owned()
        || *s == "l:2r:6".to_owned()
        || *s == "l:2r:7:8".to_owned()
        || *s == "l:2r:9:10".to_owned()
        || *s == "l:2r:11:12".to_owned()
        || *s == "l:3:4r:1".to_owned()
        || *s == "l:3:4r:2".to_owned()
        || *s == "l:3:4r:5".to_owned()
        || *s == "l:3:4r:6".to_owned()
        || *s == "l:3:4r:7:8".to_owned()
        || *s == "l:3:4r:9:10".to_owned()
        || *s == "l:3:4r:11:12".to_owned()
        || *s == "l:5r:1".to_owned()
        || *s == "l:5r:2".to_owned()
        || *s == "l:5r:3:4".to_owned()
        || *s == "l:5r:6".to_owned()
        || *s == "l:5r:7:8".to_owned()
        || *s == "l:5r:9:10".to_owned()
        || *s == "l:5r:11:12".to_owned()
        || *s == "l:6r:1".to_owned()
        || *s == "l:6r:2".to_owned()
        || *s == "l:6r:3:4".to_owned()
        || *s == "l:6r:5".to_owned()
        || *s == "l:6r:7:8".to_owned()
        || *s == "l:6r:9:10".to_owned()
        || *s == "l:6r:11:12".to_owned()
        || *s == "l:7:8r:1".to_owned()
        || *s == "l:7:8r:2".to_owned()
        || *s == "l:7:8r:3:4".to_owned()
        || *s == "l:7:8r:5".to_owned()
        || *s == "l:7:8r:6".to_owned()
        || *s == "l:7:8r:9:10".to_owned()
        || *s == "l:7:8r:11:12".to_owned()
        || *s == "l:9:10r:1".to_owned()
        || *s == "l:9:10r:2".to_owned()
        || *s == "l:9:10r:3:4".to_owned()
        || *s == "l:9:10r:5".to_owned()
        || *s == "l:9:10r:6".to_owned()
        || *s == "l:9:10r:7:8".to_owned()
        || *s == "l:9:10r:11:12".to_owned()
        || *s == "l:11:12r:1".to_owned()
        || *s == "l:11:12r:2".to_owned()
        || *s == "l:11:12r:3:4".to_owned()
        || *s == "l:11:12r:5".to_owned()
        || *s == "l:11:12r:6".to_owned()
        || *s == "l:11:12r:7:8".to_owned()
        || *s == "l:11:12r:9:10".to_owned()
        || *s == "sampleronly".to_owned()
}

/// The variant names of the USB-out routing domain.
#[verifier::opaque]
pub open spec fn is_routing_usb_out_variant(s: Seq<char>) -> bool {
    ||| s == "mainout"@
    ||| s == "1"@
    ||| s == "2"@
    ||| s == "3:4"@
    ||| s == "5"@
    ||| s == "6"@
    ||| s == "7:8"@
    ||| s == "9:10"@
    ||| s == "11:12"@
    ||| s == "l:1r:2"@
    ||| s == "l:1r:3:4"@
    ||| s == "l:1r:5"@
    ||| s == "l:1r:6"@
    ||| s == "l:1r:7:8"@
    ||| s == "l:1r:9:10"@
    ||| s == "l:1r:11:12"@
    ||| s == "l:2r:1"@
    ||| s == "l:2r:3:4"@
    ||| s == "l:2r:5"@
    ||| s == "l:2r:6"@
    ||| s == "l:2r:7:8"@
    ||| s == "l:2r:9:10"@
    ||| s == "l:2r:11:12"@
    ||| s == "l:3:4r:1"@
    ||| s == "l:3:4r:2"@
    ||| s == "l:3:4r:5"@
    ||| s == "l:3:4r:6"@
    ||| s == "l:3:4r:7:8"@
    ||| s == "l:3:4r:9:10"@
    ||| s == "l:3:4r:11:12"@
    ||| s == "l:5r:1"@
    ||| s == "l:5r:2"@
    ||| s == "l:5r:3:4"@
    ||| s == "l:5r:6"@
    ||| s == "l:5r:7:8"@
    ||| s == "l:5r:9:10"@
    ||| s == "l:5r:11:12"@
    ||| s == "l:6r:1"@
    ||| s == "l:6r:2"@
    ||| s == "l:6r:3:4"@
    ||| s == "l:6r:5"@
    ||| s == "l:6r:7:8"@
    ||| s == "l:6r:9:10"@
    ||| s == "l:6r:11:12"@
    ||| s == "l:7:8r:1"@
    ||| s == "l:7:8r:2"@
    ||| s == "l:7:8r:3:4"@
    ||| s == "l:7:8r:5"@
    ||| s == "l:7:8r:6"@
    ||| s == "l:7:8r:9:10"@
    ||| s == "l:7:8r:11:12"@
    ||| s == "l:9:10r:1"@
    ||| s == "l:9:10r:2"@
    ||| s == "l:9:10r:3:4"@
    ||| s == "l:9:10r:5"@
    ||| s == "l:9:10r:6"@
    ||| s == "l:9:10r:7:8"@
    ||| s == "l:9:10r:11:12"@
    ||| s == "l:11:12r:1"@
    ||| s == "l:11:12r:2"@
    ||| s == "l:11:12r:3:4"@
    ||| s == "l:11:12r:5"@
    ||| s == "l:11:12r:6"@
    ||| s == "l:11:12r:7:8"@
    ||| s == "l:11:12r:9:10"@
    ||| s == "audio in"@
    ||| s == "off"@
}

/// Decides membership in the USB-out routing domain.
#[verifier::rlimit(40)]
pub fn check_routing_usb_out_variant(s: &String) -> (r: bool)
    ensures
        r == is_routing_usb_out_variant(s@),
{
    proof {
        reveal(is_routing_usb_out_variant);
    }
    *s == "mainout".to_owned()
        || *s == "1".to_owned()
        || *s == "2".to_owned()
        || *s == "3:4".to_owned()
        || *s == "5".to_owned()
        || *s == "6".to_owned()
        || *s == "7:8".to_owned()
        || *s == "9:10".to_owned()
        || *s == "11:12".to_owned()
        || *s == "l:1r:2".to_owned()
        || *s == "l:1r:3:4".to_owned()
        || *s == "l:1r:5".to_owned()
        || *s == "l:1r:6".to_owned()
        || *s == "l:1r:7:8".to_owned()
        || *s == "l:1r:9:10".to_owned()
        || *s == "l:1r:11:12".to_owned()
        || *s == "l:2r:1".to_owned()
        || *s == "l:2r:3:4".to_owned()
        || *s == "l:2r:5".to_owned()
        || *s == "l:2r:6".to_owned()
        || *s == "l:2r:7:8".to_owned()
        || *s == "l:2r:9:10".to_owned()
        || *s == "l:2r:11:12".to_owned()
        || *s == "l:3:4r:1".to_owned()
        || *s == "l:3:4r:2".to_owned()
        || *s == "l:3:4r:5".to_owned()
        || *s == "l:3:4r:6".to_owned()
        || *s == "l:3:4r:7:8".to_owned()
        || *s == "l:3:4r:9:10".to_owned()
        || *s == "l:3:4r:11:12".to_owned()
        || *s == "l:5r:1".to_owned()
        || *s == "l:5r:2".to_owned()
        || *s == "l:5r:3:4".to_owned()
        || *s == "l:5r:6".to_owned()
        || *s == "l:5r:7:8".to_owned()
        || *s == "l:5r:9:10".to_owned()
        || *s == "l:5r:11:12".to_owned()
        || *s == "l:6r:1".to_owned()
        || *s == "l:6r:2".to_owned()
        || *s == "l:6r:3:4".to_owned()
        || *s == "l:6r:5".to_owned()
        || *s == "l:6r:7:8".to_owned()
        || *s == "l:6r:9:10".to_owned()
        || *s == "l:6r:11:12".to_owned()
        || *s == "l:7:8r:1".to_owned()
        || *s == "l:7:8r:2".to_owned()
        || *s == "l:7:8r:3:4".to_owned()
        || *s == "l:7:8r:5".to_owned()
        || *s == "l:7:8r:6".to_owned()
        || *s == "l:7:8r:9:10".to_owned()
        || *s == "l:7:8r:11:12".to_owned()
        || *s == "l:9:10r:1".to_owned()
        || *s == "l:9:10r:2".to_owned()
        || *s == "l:9:10r:3:4".to_owned()
        || *s == "l:9:10r:5".to_owned()
        || *s == "l:9:10r:6".to_owned()
        || *s == "l:9:10r:7:8".to_owned()
        || *s == "l:9:10r:11:12".to_owned()
        || *s == "l:11:12r:1".to_owned()
        || *s == "l:11:12r:2".to_owned()
        || *s == "l:11:12r:3:4".to_owned()
        || *s == "l:11:12r:5".to_owned()
        || *s == "l:11:12r:6".to_owned()
        || *s == "l:11:12r:7:8".to_owned()
        || *s == "l:11:12r:9:10".to_owned()
        || *s == "audio in".to_owned()
        || *s == "off".to_owned()
}

/// The variant names of the USB-to-main gain domain.
#[verifier::opaque]
pub open spec fn is_routing_usb_to_main_db_variant(s: Seq<char>) -> bool {
    ||| s == "0db"@
    ||| s == "+6db"@
    ||| s == "+12db"@
    ||| s == "+18db"@
}

/// Decides membership in the USB-to-main gain domain.
pub fn check_routing_usb_to_main_db_variant(s: &String) -> (r: bool)
    ensures
        r == is_routing_usb_to_main_db_variant(s@),
{
    proof {
        reveal(is_routing_usb_to_main_db_variant);
    }
    *s == "0db".to_owned()
        || *s == "+6db".to_owned()
        || *s == "+12db".to_owned()
        || *s == "+18db".to_owned()
}

/// The variant names of the MIDI port function domain.
#[verifier::opaque]
pub open spec fn is_midi_port_function_variant(s: Seq<char>) -> bool {
    ||| s == "midi"@
    ||| s == "din24"@
    ||| s == "din48"@
}

/// Decides membership in the MIDI port function domain.
pub fn check_midi_port_function_variant(s: &String) -> (r: bool)
    ensures
        r == is_midi_port_function_variant(s@),
{
    proof {
        reveal(is_midi_port_function_variant);
    }
    *s == "midi".to_owned()
        || *s == "din24".to_owned()
        || *s == "din48".to_owned()
}

/// The variant names of the MIDI transport layer domain.
#[verifier::opaque]
pub open spec fn is_midi_transport_layer_variant(s: Seq<char>) -> bool {
    ||| s == "disabled"@
    ||| s == "midi"@
    ||| s == "usb"@
    ||| s == "midi+usb"@
}

/// Decides membership in the MIDI transport layer domain.
pub fn check_midi_transport_layer_variant(s: &String) -> (r: bool)
    ensures
        r == is_midi_transport_layer_variant(s@),
{
    proof {
        reveal(is_midi_transport_layer_variant);
    }
    *s == "disabled".to_owned()
        || *s == "midi".to_owned()
        || *s == "usb".to_owned()
        || *s == "midi+usb".to_owned()
}

/// The variant names of the MIDI parameter output domain.
#[verifier::opaque]
pub open spec fn is_midi_parameter_output_variant(s: Seq<char>) -> bool {
    ||| s == "nrpn"@
    ||| s == "cc"@
}

/// Decides membership in the MIDI parameter output domain.
pub fn check_midi_parameter_output_variant(s: &String) -> (r: bool)
    ensures
        r == is_midi_parameter_output_variant(s@),
{
    proof {
        reveal(is_midi_parameter_output_variant);
    }
    *s == "nrpn".to_owned()
        || *s == "cc".to_owned()
}

/// The variant names of the parameter destination domain.
#[verifier::opaque]
pub open spec fn is_parameter_destination_variant(s: Seq<char>) -> bool {
    ||| s == "int"@
    ||| s == "int+ext"@
    ||| s == "ext"@
}

/// Decides membership in the parameter destination domain.
pub fn check_parameter_destination_variant(s: &String) -> (r: bool)
    ensures
        r == is_parameter_destination_variant(s@),
{
    proof {
        reveal(is_parameter_destination_variant);
    }
    *s == "int".to_owned()
        || *s == "int+ext".to_owned()
        || *s == "ext".to_owned()
}

/// The variant names of the ports output channel domain.
#[verifier::opaque]
pub open spec fn is_midi_ports_output_channel_variant(s: Seq<char>) -> bool {
    ||| s == "auto"@
    ||| s == "track"@
}

/// Decides membership in the ports output channel domain.
pub fn check_midi_ports_output_channel_variant(s: &String) -> (r: bool)
    ensures
        r == is_midi_ports_output_channel_variant(s@),
{
    proof {
        reveal(is_midi_ports_output_channel_variant);
    }
    *s == "auto".to_owned()
        || *s == "track".to_owned()
}

/// The variant names of the parameter menu item domain.
#[verifier::opaque]
pub open spec fn is_parameter_menu_item_variant(s: Seq<char>) -> bool {
    ||| s == "trig"@
    ||| s == "src"@
    ||| s == "smpl"@
    ||| s == "fltr"@
    ||| s == "amp"@
    ||| s == "lfo"@
}

/// Decides membership in the parameter menu item domain.
pub fn check_parameter_menu_item_variant(s: &String) -> (r: bool)
    ensures
        r == is_parameter_menu_item_variant(s@),
{
    proof {
        reveal(is_parameter_menu_item_variant);
    }
    *s == "trig".to_owned()
        || *s == "src".to_owned()
        || *s == "smpl".to_owned()
        || *s == "fltr".to_owned()
        || *s == "amp".to_owned()
        || *s == "lfo".to_owned()
}

/// The variant names of the FX parameter menu item domain.
#[verifier::opaque]
pub open spec fn is_fx_parameter_menu_item_variant(s: Seq<char>) -> bool {
    ||| s == "trig"@
    ||| s == "delay"@
    ||| s == "reverb"@
    ||| s == "dist"@
    ||| s == "comp"@
    ||| s == "lfo"@
}

/// Decides membership in the FX parameter menu item domain.
pub fn check_fx_parameter_menu_item_variant(s: &String) -> (r: bool)
    ensures
        r == is_fx_parameter_menu_item_variant(s@),
{
    proof {
        reveal(is_fx_parameter_menu_item_variant);
    }
    *s == "trig".to_owned()
        || *s == "delay".to_owned()
        || *s == "reverb".to_owned()
        || *s == "dist".to_owned()
        || *s == "comp".to_owned()
        || *s == "lfo".to_owned()
}

/// The variant names of the sequencer mode domain.
#[verifier::opaque]
pub open spec fn is_sequencer_mode_variant(s: Seq<char>) -> bool {
    ||| s == "normal"@
    ||| s == "chain"@
    ||| s == "song"@
}

/// Decides membership in the sequencer mode domain.
pub fn check_sequencer_mode_variant(s: &String) -> (r: bool)
    ensures
        r == is_sequencer_mode_variant(s@),
{
    proof {
        reveal(is_sequencer_mode_variant);
    }
    *s == "normal".to_owned()
        || *s == "chain".to_owned()
        || *s == "song".to_owned()
}

/// The variant names of the pattern mode domain.
#[verifier::opaque]
pub open spec fn is_pattern_mode_variant(s: Seq<char>) -> bool {
    ||| s == "sequential"@
    ||| s == "directstart"@
    ||| s == "directjump"@
    ||| s == "tempjump"@
}

/// Decides membership in the pattern mode domain.
pub fn check_pattern_mode_variant(s: &String) -> (r: bool)
    ensures
        r == is_pattern_mode_variant(s@),
{
    proof {
        reveal(is_pattern_mode_variant);
    }
    *s == "sequential".to_owned()
        || *s == "directstart".to_owned()
        || *s == "directjump".to_owned()
        || *s == "tempjump".to_owned()
}

/// The variant names of the sample recorder source domain.
#[verifier::opaque]
pub open spec fn is_sample_recorder_source_variant(s: Seq<char>) -> bool {
    ||| s == "audl+r"@
    ||| s == "audl"@
    ||| s == "audr"@
    ||| s == "bd"@
    ||| s == "sd"@
    ||| s == "rs/cp"@
    ||| s == "bt"@
    ||| s == "lt"@
    ||| s == "mt/ht"@
    ||| s == "ch/oh"@
    ||| s == "cy/cb"@
    ||| s == "main"@
    ||| s == "usbl"@
    ||| s == "usbr"@
    ||| s == "usbl+r"@
}

/// Decides membership in the sample recorder source domain.
pub fn check_sample_recorder_source_variant(s: &String) -> (r: bool)
    ensures
        r == is_sample_recorder_source_variant(s@),
{
    proof {
        reveal(is_sample_recorder_source_variant);
    }
    *s == "audl+r".to_owned()
        || *s == "audl".to_owned()
        || *s == "audr".to_owned()
        || *s == "bd".to_owned()
        || *s == "sd".to_owned()
        || *s == "rs/cp".to_owned()
        || *s == "bt".to_owned()
        || *s == "lt".to_owned()
        || *s == "mt/ht".to_owned()
        || *s == "ch/oh".to_owned()
        || *s == "cy/cb".to_owned()
        || *s == "main".to_owned()
        || *s == "usbl".to_owned()
        || *s == "usbr".to_owned()
        || *s == "usbl+r".to_owned()
}

/// The variant names of the sample recorder length domain.
#[verifier::opaque]
pub open spec fn is_sample_recorder_recording_length_variant(s: Seq<char>) -> bool {
    ||| s == "1step"@
    ||| s == "2steps"@
    ||| s == "4steps"@
    ||| s == "8steps"@
    ||| s == "16steps"@
    ||| s == "32steps"@
    ||| s == "64steps"@
    ||| s == "128steps"@
    ||| s == "max"@
}

/// Decides membership in the sample recorder length domain.
pub fn check_sample_recorder_recording_length_variant(s: &String) -> (r: bool)
    ensures
        r == is_sample_recorder_recording_length_variant(s@),
{
    proof {
        reveal(is_sample_recorder_recording_length_variant);
    }
    *s == "1step".to_owned()
        || *s == "2steps".to_owned()
        || *s == "4steps".to_owned()
        || *s == "8steps".to_owned()
        || *s == "16steps".to_owned()
        || *s == "32steps".to_owned()
        || *s == "64steps".to_owned()
        || *s == "128steps".to_owned()
        || *s == "max".to_owned()
}

/// The variant names of the MIDI channel domain: `auto`, `off`, or a one- or
/// two-digit channel numeral between 0 and 15.
#[verifier::opaque]
pub open spec fn is_midi_channel_variant(s: Seq<char>) -> bool {
    ||| s == "auto"@
    ||| s == "off"@
    ||| (crate::numparse::small_dec_value(s) matches Some(v) && v <= 15)
}

/// Decides membership in the MIDI channel domain.
pub fn check_midi_channel_variant(s: &String) -> (r: bool)
    ensures
        r == is_midi_channel_variant(s@),
{
    proof {
        reveal(is_midi_channel_variant);
    }
    if *s == "auto".to_owned() || *s == "off".to_owned() {
        true
    } else {
        match crate::numparse::parse_small_dec(s) {
            Some(v) => v <= 15,
            None => false,
        }
    }
}

} // verus!
