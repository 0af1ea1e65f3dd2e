//! A global slot: sequencer behaviour, per-track routing marks, MIDI
//! synchronisation, port configuration and channel assignments.

use vstd::prelude::*;
#[allow(unused_imports)]
use vstd::pervasive::VecAdditionalExecFns;
use crate::fields::{GlobalField, GlobalEnumType};
#[allow(unused_imports)]
use crate::token::{bool01_to_token, bool01_token, coerce_bool01, coerce_int, coerce_num, num_to_token, num_token, token_bool01, token_int, token_num, Num, Token, TokenV};
#[allow(unused_imports)]
use crate::strutil::valid_name;
use crate::variants_global::{check_midi_channel_variant, check_midi_parameter_output_variant, check_midi_port_function_variant, check_midi_ports_output_channel_variant, check_midi_transport_layer_variant, check_parameter_destination_variant, check_routing_usb_in_variant, check_routing_usb_out_variant, check_routing_usb_to_main_db_variant, check_time_signature_variant, is_midi_channel_variant, is_midi_parameter_output_variant, is_midi_port_function_variant, is_midi_ports_output_channel_variant, is_midi_transport_layer_variant, is_parameter_destination_variant, is_routing_usb_in_variant, is_routing_usb_out_variant, is_routing_usb_to_main_db_variant, is_time_signature_variant};

verus! {

/// The global model object.
pub struct Global {
    pub version: i64,
    pub index: u8,
    pub is_work_buffer: bool,
    pub kit_reload_on_chg: bool,
    pub quantize_live_rec: bool,
    pub auto_trk_switch: bool,
    pub routed_to_main: Vec<bool>,
    pub sent_to_fx: Vec<bool>,
    pub clock_receive: bool,
    pub clock_send: bool,
    pub transport_receive: bool,
    pub transport_send: bool,
    pub program_change_receive: bool,
    pub program_change_send: bool,
    pub receive_notes: bool,
    pub receive_cc_nrpn: bool,
    pub turbo_speed: i64,
    pub metronome_active: bool,
    pub metronome_pre_roll_bars: i64,
    pub metronome_volume: i64,
    pub time_signature: String,
    pub routing_usb_in: String,
    pub routing_usb_out: String,
    pub routing_usb_to_main_db: String,
    pub out_port_function: String,
    pub thru_port_function: String,
    pub input_from: String,
    pub output_to: String,
    pub param_output: String,
    pub pad_dest: String,
    pub pressure_dest: String,
    pub encoder_dest: String,
    pub mute_dest: String,
    pub ports_output_channel: String,
    pub auto_channel: String,
    pub track_channels: Vec<String>,
    pub track_fx_channel: String,
    pub program_change_in_channel: String,
    pub program_change_out_channel: String,
    pub performance_channel: String,
}

/// The mathematical view of a global.
#[verifier::ext_equal]
pub ghost struct GlobalView {
    pub version: i64,
    pub index: u8,
    pub is_work_buffer: bool,
    pub kit_reload_on_chg: bool,
    pub quantize_live_rec: bool,
    pub auto_trk_switch: bool,
    pub routed_to_main: Seq<bool>,
    pub sent_to_fx: Seq<bool>,
    pub clock_receive: bool,
    pub clock_send: bool,
    pub transport_receive: bool,
    pub transport_send: bool,
    pub program_change_receive: bool,
    pub program_change_send: bool,
    pub receive_notes: bool,
    pub receive_cc_nrpn: bool,
    pub turbo_speed: i64,
    pub metronome_active: bool,
    pub metronome_pre_roll_bars: i64,
    pub metronome_volume: i64,
    pub time_signature: Seq<char>,
    pub routing_usb_in: Seq<char>,
    pub routing_usb_out: Seq<char>,
    pub routing_usb_to_main_db: Seq<char>,
    pub out_port_function: Seq<char>,
    pub thru_port_function: Seq<char>,
    pub input_from: Seq<char>,
    pub output_to: Seq<char>,
    pub param_output: Seq<char>,
    pub pad_dest: Seq<char>,
    pub pressure_dest: Seq<char>,
    pub encoder_dest: Seq<char>,
    pub mute_dest: Seq<char>,
    pub ports_output_channel: Seq<char>,
    pub auto_channel: Seq<char>,
    pub track_channels: Seq<Seq<char>>,
    pub track_fx_channel: Seq<char>,
    pub program_change_in_channel: Seq<char>,
    pub program_change_out_channel: Seq<char>,
    pub performance_channel: Seq<char>,
}

impl View for Global {
    type V = GlobalView;

    open spec fn view(&self) -> GlobalView {
        GlobalView {
            version: self.version,
            index: self.index,
            is_work_buffer: self.is_work_buffer,
            kit_reload_on_chg: self.kit_reload_on_chg,
            quantize_live_rec: self.quantize_live_rec,
            auto_trk_switch: self.auto_trk_switch,
            routed_to_main: self.routed_to_main@,
            sent_to_fx: self.sent_to_fx@,
            clock_receive: self.clock_receive,
            clock_send: self.clock_send,
            transport_receive: self.transport_receive,
            transport_send: self.transport_send,
            program_change_receive: self.program_change_receive,
            program_change_send: self.program_change_send,
            receive_notes: self.receive_notes,
            receive_cc_nrpn: self.receive_cc_nrpn,
            turbo_speed: self.turbo_speed,
            metronome_active: self.metronome_active,
            metronome_pre_roll_bars: self.metronome_pre_roll_bars,
            metronome_volume: self.metronome_volume,
            time_signature: self.time_signature@,
            routing_usb_in: self.routing_usb_in@,
            routing_usb_out: self.routing_usb_out@,
            routing_usb_to_main_db: self.routing_usb_to_main_db@,
            out_port_function: self.out_port_function@,
            thru_port_function: self.thru_port_function@,
            input_from: self.input_from@,
            output_to: self.output_to@,
            param_output: self.param_output@,
            pad_dest: self.pad_dest@,
            pressure_dest: self.pressure_dest@,
            encoder_dest: self.encoder_dest@,
            mute_dest: self.mute_dest@,
            ports_output_channel: self.ports_output_channel@,
            auto_channel: self.auto_channel@,
            track_channels: self.track_channels.deep_view(),
            track_fx_channel: self.track_fx_channel@,
            program_change_in_channel: self.program_change_in_channel@,
            program_change_out_channel: self.program_change_out_channel@,
            performance_channel: self.performance_channel@,
        }
    }
}

/// Well-formedness of a global view: indices in range, vectors at their
/// fixed lengths, every enumerated field holding a variant of its domain.
pub open spec fn global_view_wf(v: GlobalView) -> bool {
    &&& v.routed_to_main.len() == 12
    &&& v.sent_to_fx.len() == 12
    &&& is_time_signature_variant(v.time_signature)
    &&& is_routing_usb_in_variant(v.routing_usb_in)
    &&& is_routing_usb_out_variant(v.routing_usb_out)
    &&& is_routing_usb_to_main_db_variant(v.routing_usb_to_main_db)
    &&& is_midi_port_function_variant(v.out_port_function)
    &&& is_midi_port_function_variant(v.thru_port_function)
    &&& is_midi_transport_layer_variant(v.input_from)
    &&& is_midi_transport_layer_variant(v.output_to)
    &&& is_midi_parameter_output_variant(v.param_output)
    &&& is_parameter_destination_variant(v.pad_dest)
    &&& is_parameter_destination_variant(v.pressure_dest)
    &&& is_parameter_destination_variant(v.encoder_dest)
    &&& is_parameter_destination_variant(v.mute_dest)
    &&& is_midi_ports_output_channel_variant(v.ports_output_channel)
    &&& is_midi_channel_variant(v.auto_channel)
    &&& v.track_channels.len() == 12
    &&& (forall|i: int| 0 <= i < 12 ==> is_midi_channel_variant(#[trigger] v.track_channels[i]))
    &&& is_midi_channel_variant(v.track_fx_channel)
    &&& is_midi_channel_variant(v.program_change_in_channel)
    &&& is_midi_channel_variant(v.program_change_out_channel)
    &&& is_midi_channel_variant(v.performance_channel)
}

/// The fresh state of a global.
pub open spec fn global_default(index: u8, wb: bool) -> GlobalView {
    GlobalView {
        version: 0,
        index: index,
        is_work_buffer: wb,
        kit_reload_on_chg: false,
        quantize_live_rec: false,
        auto_trk_switch: false,
        routed_to_main: Seq::new(12, |i: int| false),
        sent_to_fx: Seq::new(12, |i: int| false),
        clock_receive: false,
        clock_send: false,
        transport_receive: false,
        transport_send: false,
        program_change_receive: false,
        program_change_send: false,
        receive_notes: false,
        receive_cc_nrpn: false,
        turbo_speed: 0,
        metronome_active: false,
        metronome_pre_roll_bars: 0,
        metronome_volume: 0,
        time_signature: "4/4"@,
        routing_usb_in: "pre-fx"@,
        routing_usb_out: "mainout"@,
        routing_usb_to_main_db: "0db"@,
        out_port_function: "midi"@,
        thru_port_function: "midi"@,
        input_from: "midi"@,
        output_to: "midi"@,
        param_output: "nrpn"@,
        pad_dest: "int"@,
        pressure_dest: "int"@,
        encoder_dest: "int"@,
        mute_dest: "int"@,
        ports_output_channel: "auto"@,
        auto_channel: "auto"@,
        track_channels: Seq::new(12, |i: int| "auto"@),
        track_fx_channel: "auto"@,
        program_change_in_channel: "auto"@,
        program_change_out_channel: "auto"@,
        performance_channel: "auto"@,
    }
}

/// How many slots the plain field has; 1 for an unslotted field.
pub open spec fn global_field_slot_count(f: GlobalField) -> int {
    match f {
        GlobalField::Version => 1,
        GlobalField::Index => 1,
        GlobalField::IsWb => 1,
        GlobalField::KitReloadOnChange => 1,
        GlobalField::QuantizeLiveRec => 1,
        GlobalField::AutoTrackSwitch => 1,
        GlobalField::RouteToMain => 12,
        GlobalField::SendToFx => 12,
        GlobalField::ClockReceive => 1,
        GlobalField::ClockSend => 1,
        GlobalField::TransportReceive => 1,
        GlobalField::TransportSend => 1,
        GlobalField::ProgramChangeReceive => 1,
        GlobalField::ProgramChangeSend => 1,
        GlobalField::ReceiveNotes => 1,
        GlobalField::ReceiveCcNrpn => 1,
        GlobalField::TurboSpeed => 1,
        GlobalField::MetronomeActive => 1,
        GlobalField::MetronomePreRollBars => 1,
        GlobalField::MetronomeVolume => 1,
    }
}

/// Executable slot count of a plain field.
pub fn global_slot_count(f: GlobalField) -> (r: usize)
    ensures
        r as int == global_field_slot_count(f),
{
    match f {
        GlobalField::Version => 1,
        GlobalField::Index => 1,
        GlobalField::IsWb => 1,
        GlobalField::KitReloadOnChange => 1,
        GlobalField::QuantizeLiveRec => 1,
        GlobalField::AutoTrackSwitch => 1,
        GlobalField::RouteToMain => 12,
        GlobalField::SendToFx => 12,
        GlobalField::ClockReceive => 1,
        GlobalField::ClockSend => 1,
        GlobalField::TransportReceive => 1,
        GlobalField::TransportSend => 1,
        GlobalField::ProgramChangeReceive => 1,
        GlobalField::ProgramChangeSend => 1,
        GlobalField::ReceiveNotes => 1,
        GlobalField::ReceiveCcNrpn => 1,
        GlobalField::TurboSpeed => 1,
        GlobalField::MetronomeActive => 1,
        GlobalField::MetronomePreRollBars => 1,
        GlobalField::MetronomeVolume => 1,
    }
}

/// Whether a write to the field marks the slot given by its parameter.
pub open spec fn global_field_is_mark(f: GlobalField) -> bool {
    match f {
        GlobalField::Version => false,
        GlobalField::Index => false,
        GlobalField::IsWb => false,
        GlobalField::KitReloadOnChange => false,
        GlobalField::QuantizeLiveRec => false,
        GlobalField::AutoTrackSwitch => false,
        GlobalField::RouteToMain => true,
        GlobalField::SendToFx => true,
        GlobalField::ClockReceive => false,
        GlobalField::ClockSend => false,
        GlobalField::TransportReceive => false,
        GlobalField::TransportSend => false,
        GlobalField::ProgramChangeReceive => false,
        GlobalField::ProgramChangeSend => false,
        GlobalField::ReceiveNotes => false,
        GlobalField::ReceiveCcNrpn => false,
        GlobalField::TurboSpeed => false,
        GlobalField::MetronomeActive => false,
        GlobalField::MetronomePreRollBars => false,
        GlobalField::MetronomeVolume => false,
    }
}

/// Executable form of the marking check.
pub fn global_is_mark(f: GlobalField) -> (r: bool)
    ensures
        r == global_field_is_mark(f),
{
    match f {
        GlobalField::Version => false,
        GlobalField::Index => false,
        GlobalField::IsWb => false,
        GlobalField::KitReloadOnChange => false,
        GlobalField::QuantizeLiveRec => false,
        GlobalField::AutoTrackSwitch => false,
        GlobalField::RouteToMain => true,
        GlobalField::SendToFx => true,
        GlobalField::ClockReceive => false,
        GlobalField::ClockSend => false,
        GlobalField::TransportReceive => false,
        GlobalField::TransportSend => false,
        GlobalField::ProgramChangeReceive => false,
        GlobalField::ProgramChangeSend => false,
        GlobalField::ReceiveNotes => false,
        GlobalField::ReceiveCcNrpn => false,
        GlobalField::TurboSpeed => false,
        GlobalField::MetronomeActive => false,
        GlobalField::MetronomePreRollBars => false,
        GlobalField::MetronomeVolume => false,
    }
}

/// Whether the plain field accepts a write; the rest are read-only.
pub open spec fn global_field_settable(f: GlobalField) -> bool {
    match f {
        GlobalField::Version => false,
        GlobalField::Index => false,
        GlobalField::IsWb => false,
        GlobalField::KitReloadOnChange => true,
        GlobalField::QuantizeLiveRec => true,
        GlobalField::AutoTrackSwitch => true,
        GlobalField::RouteToMain => true,
        GlobalField::SendToFx => true,
        GlobalField::ClockReceive => true,
        GlobalField::ClockSend => true,
        GlobalField::TransportReceive => true,
        GlobalField::TransportSend => true,
        GlobalField::ProgramChangeReceive => true,
        GlobalField::ProgramChangeSend => true,
        GlobalField::ReceiveNotes => true,
        GlobalField::ReceiveCcNrpn => true,
        GlobalField::TurboSpeed => false,
        GlobalField::MetronomeActive => true,
        GlobalField::MetronomePreRollBars => true,
        GlobalField::MetronomeVolume => true,
    }
}

/// The value the plain field reads back as, echoed as a token.
pub open spec fn global_get_spec(v: GlobalView, f: GlobalField, slot: int) -> TokenV {
    match f {
        GlobalField::Version => TokenV::Int(v.version),
        GlobalField::Index => TokenV::Int(v.index as i64),
        GlobalField::IsWb => bool01_token(v.is_work_buffer),
        GlobalField::KitReloadOnChange => bool01_token(v.kit_reload_on_chg),
        GlobalField::QuantizeLiveRec => bool01_token(v.quantize_live_rec),
        GlobalField::AutoTrackSwitch => bool01_token(v.auto_trk_switch),
        GlobalField::RouteToMain => bool01_token(v.routed_to_main[slot]),
        GlobalField::SendToFx => bool01_token(v.sent_to_fx[slot]),
        GlobalField::ClockReceive => bool01_token(v.clock_receive),
        GlobalField::ClockSend => bool01_token(v.clock_send),
        GlobalField::TransportReceive => bool01_token(v.transport_receive),
        GlobalField::TransportSend => bool01_token(v.transport_send),
        GlobalField::ProgramChangeReceive => bool01_token(v.program_change_receive),
        GlobalField::ProgramChangeSend => bool01_token(v.program_change_send),
        GlobalField::ReceiveNotes => bool01_token(v.receive_notes),
        GlobalField::ReceiveCcNrpn => bool01_token(v.receive_cc_nrpn),
        GlobalField::TurboSpeed => TokenV::Int(v.turbo_speed),
        GlobalField::MetronomeActive => bool01_token(v.metronome_active),
        GlobalField::MetronomePreRollBars => TokenV::Int(v.metronome_pre_roll_bars),
        GlobalField::MetronomeVolume => TokenV::Int(v.metronome_volume),
    }
}

/// The state a write to the plain field produces, if its parameter
/// token coerces; read-only fields and failed coercions produce nothing.
pub open spec fn global_set_spec(v: GlobalView, f: GlobalField, slot: int, t: TokenV) -> Option<GlobalView> {
    match f {
        GlobalField::Version => None,
        GlobalField::Index => None,
        GlobalField::IsWb => None,
        GlobalField::KitReloadOnChange => match token_bool01(t) {
            Some(b) => Some(GlobalView { kit_reload_on_chg: b, ..v }),
            None => None,
        },
        GlobalField::QuantizeLiveRec => match token_bool01(t) {
            Some(b) => Some(GlobalView { quantize_live_rec: b, ..v }),
            None => None,
        },
        GlobalField::AutoTrackSwitch => match token_bool01(t) {
            Some(b) => Some(GlobalView { auto_trk_switch: b, ..v }),
            None => None,
        },
        GlobalField::RouteToMain => Some(GlobalView { routed_to_main: v.routed_to_main.update(slot, true), ..v }),
        GlobalField::SendToFx => Some(GlobalView { sent_to_fx: v.sent_to_fx.update(slot, true), ..v }),
        GlobalField::ClockReceive => match token_bool01(t) {
            Some(b) => Some(GlobalView { clock_receive: b, ..v }),
            None => None,
        },
        GlobalField::ClockSend => match token_bool01(t) {
            Some(b) => Some(GlobalView { clock_send: b, ..v }),
            None => None,
        },
        GlobalField::TransportReceive => match token_bool01(t) {
            Some(b) => Some(GlobalView { transport_receive: b, ..v }),
            None => None,
        },
        GlobalField::TransportSend => match token_bool01(t) {
            Some(b) => Some(GlobalView { transport_send: b, ..v }),
            None => None,
        },
        GlobalField::ProgramChangeReceive => match token_bool01(t) {
            Some(b) => Some(GlobalView { program_change_receive: b, ..v }),
            None => None,
        },
        GlobalField::ProgramChangeSend => match token_bool01(t) {
            Some(b) => Some(GlobalView { program_change_send: b, ..v }),
            None => None,
        },
        GlobalField::ReceiveNotes => match token_bool01(t) {
            Some(b) => Some(GlobalView { receive_notes: b, ..v }),
            None => None,
        },
        GlobalField::ReceiveCcNrpn => match token_bool01(t) {
            Some(b) => Some(GlobalView { receive_cc_nrpn: b, ..v }),
            None => None,
        },
        GlobalField::TurboSpeed => None,
        GlobalField::MetronomeActive => match token_bool01(t) {
            Some(b) => Some(GlobalView { metronome_active: b, ..v }),
            None => None,
        },
        GlobalField::MetronomePreRollBars => match token_int(t) {
            Some(i) => Some(GlobalView { metronome_pre_roll_bars: i, ..v }),
            None => None,
        },
        GlobalField::MetronomeVolume => match token_int(t) {
            Some(i) => Some(GlobalView { metronome_volume: i, ..v }),
            None => None,
        },
    }
}

/// How many slots the enumerated type has; 1 for an unslotted type.
pub open spec fn global_enum_slot_count(t: GlobalEnumType) -> int {
    match t {
        GlobalEnumType::MetronomeTimeSignature => 1,
        GlobalEnumType::RoutingUsbIn => 1,
        GlobalEnumType::RoutingUsbOut => 1,
        GlobalEnumType::RoutingUsbToMainDb => 1,
        GlobalEnumType::OutPortFunction => 1,
        GlobalEnumType::ThruPortFunction => 1,
        GlobalEnumType::InputFrom => 1,
        GlobalEnumType::OutputTo => 1,
        GlobalEnumType::ParamOutput => 1,
        GlobalEnumType::PadDest => 1,
        GlobalEnumType::PressureDest => 1,
        GlobalEnumType::EncoderDest => 1,
        GlobalEnumType::MuteDest => 1,
        GlobalEnumType::PortsOutputChannel => 1,
        GlobalEnumType::AutoChannel => 1,
        GlobalEnumType::TrackChannels => 12,
        GlobalEnumType::TrackFxChannel => 1,
        GlobalEnumType::ProgramChangeInChannel => 1,
        GlobalEnumType::ProgramChangeOutChannel => 1,
        GlobalEnumType::PerformanceChannel => 1,
    }
}

/// Executable slot count of an enumerated type.
pub fn global_enum_slots(t: GlobalEnumType) -> (r: usize)
    ensures
        r as int == global_enum_slot_count(t),
{
    match t {
        GlobalEnumType::MetronomeTimeSignature => 1,
        GlobalEnumType::RoutingUsbIn => 1,
        GlobalEnumType::RoutingUsbOut => 1,
        GlobalEnumType::RoutingUsbToMainDb => 1,
        GlobalEnumType::OutPortFunction => 1,
        GlobalEnumType::ThruPortFunction => 1,
        GlobalEnumType::InputFrom => 1,
        GlobalEnumType::OutputTo => 1,
        GlobalEnumType::ParamOutput => 1,
        GlobalEnumType::PadDest => 1,
        GlobalEnumType::PressureDest => 1,
        GlobalEnumType::EncoderDest => 1,
        GlobalEnumType::MuteDest => 1,
        GlobalEnumType::PortsOutputChannel => 1,
        GlobalEnumType::AutoChannel => 1,
        GlobalEnumType::TrackChannels => 12,
        GlobalEnumType::TrackFxChannel => 1,
        GlobalEnumType::ProgramChangeInChannel => 1,
        GlobalEnumType::ProgramChangeOutChannel => 1,
        GlobalEnumType::PerformanceChannel => 1,
    }
}

/// The stored variant of the enumerated type.
pub open spec fn global_enum_value(v: GlobalView, t: GlobalEnumType, slot: int) -> Seq<char> {
    match t {
        GlobalEnumType::MetronomeTimeSignature => v.time_signature,
        GlobalEnumType::RoutingUsbIn => v.routing_usb_in,
        GlobalEnumType::RoutingUsbOut => v.routing_usb_out,
        GlobalEnumType::RoutingUsbToMainDb => v.routing_usb_to_main_db,
        GlobalEnumType::OutPortFunction => v.out_port_function,
        GlobalEnumType::ThruPortFunction => v.thru_port_function,
        GlobalEnumType::InputFrom => v.input_from,
        GlobalEnumType::OutputTo => v.output_to,
        GlobalEnumType::ParamOutput => v.param_output,
        GlobalEnumType::PadDest => v.pad_dest,
        GlobalEnumType::PressureDest => v.pressure_dest,
        GlobalEnumType::EncoderDest => v.encoder_dest,
        GlobalEnumType::MuteDest => v.mute_dest,
        GlobalEnumType::PortsOutputChannel => v.ports_output_channel,
        GlobalEnumType::AutoChannel => v.auto_channel,
        GlobalEnumType::TrackChannels => v.track_channels[slot],
        GlobalEnumType::TrackFxChannel => v.track_fx_channel,
        GlobalEnumType::ProgramChangeInChannel => v.program_change_in_channel,
        GlobalEnumType::ProgramChangeOutChannel => v.program_change_out_channel,
        GlobalEnumType::PerformanceChannel => v.performance_channel,
    }
}

/// Whether the symbol is a variant of the enumerated type's domain.
pub open spec fn global_enum_variant_ok(t: GlobalEnumType, s: Seq<char>) -> bool {
    match t {
        GlobalEnumType::MetronomeTimeSignature => is_time_signature_variant(s),
        GlobalEnumType::RoutingUsbIn => is_routing_usb_in_variant(s),
        GlobalEnumType::RoutingUsbOut => is_routing_usb_out_variant(s),
        GlobalEnumType::RoutingUsbToMainDb => is_routing_usb_to_main_db_variant(s),
        GlobalEnumType::OutPortFunction => is_midi_port_function_variant(s),
        GlobalEnumType::ThruPortFunction => is_midi_port_function_variant(s),
        GlobalEnumType::InputFrom => is_midi_transport_layer_variant(s),
        GlobalEnumType::OutputTo => is_midi_transport_layer_variant(s),
        GlobalEnumType::ParamOutput => is_midi_parameter_output_variant(s),
        GlobalEnumType::PadDest => is_parameter_destination_variant(s),
        GlobalEnumType::PressureDest => is_parameter_destination_variant(s),
        GlobalEnumType::EncoderDest => is_parameter_destination_variant(s),
        GlobalEnumType::MuteDest => is_parameter_destination_variant(s),
        GlobalEnumType::PortsOutputChannel => is_midi_ports_output_channel_variant(s),
        GlobalEnumType::AutoChannel => is_midi_channel_variant(s),
        GlobalEnumType::TrackChannels => is_midi_channel_variant(s),
        GlobalEnumType::TrackFxChannel => is_midi_channel_variant(s),
        GlobalEnumType::ProgramChangeInChannel => is_midi_channel_variant(s),
        GlobalEnumType::ProgramChangeOutChannel => is_midi_channel_variant(s),
        GlobalEnumType::PerformanceChannel => is_midi_channel_variant(s),
    }
}

/// The state a write to the enumerated type produces, if the variant
/// belongs to its domain.
pub open spec fn global_set_enum_spec(v: GlobalView, t: GlobalEnumType, slot: int, s: Seq<char>) -> Option<
    GlobalView,
> {
    if global_enum_variant_ok(t, s) {
        Some(
            match t {
                GlobalEnumType::MetronomeTimeSignature => GlobalView { time_signature: s, ..v },
                GlobalEnumType::RoutingUsbIn => GlobalView { routing_usb_in: s, ..v },
                GlobalEnumType::RoutingUsbOut => GlobalView { routing_usb_out: s, ..v },
                GlobalEnumType::RoutingUsbToMainDb => GlobalView { routing_usb_to_main_db: s, ..v },
                GlobalEnumType::OutPortFunction => GlobalView { out_port_function: s, ..v },
                GlobalEnumType::ThruPortFunction => GlobalView { thru_port_function: s, ..v },
                GlobalEnumType::InputFrom => GlobalView { input_from: s, ..v },
                GlobalEnumType::OutputTo => GlobalView { output_to: s, ..v },
                GlobalEnumType::ParamOutput => GlobalView { param_output: s, ..v },
                GlobalEnumType::PadDest => GlobalView { pad_dest: s, ..v },
                GlobalEnumType::PressureDest => GlobalView { pressure_dest: s, ..v },
                GlobalEnumType::EncoderDest => GlobalView { encoder_dest: s, ..v },
                GlobalEnumType::MuteDest => GlobalView { mute_dest: s, ..v },
                GlobalEnumType::PortsOutputChannel => GlobalView { ports_output_channel: s, ..v },
                GlobalEnumType::AutoChannel => GlobalView { auto_channel: s, ..v },
                GlobalEnumType::TrackChannels => GlobalView { track_channels: v.track_channels.update(slot, s), ..v },
                GlobalEnumType::TrackFxChannel => GlobalView { track_fx_channel: s, ..v },
                GlobalEnumType::ProgramChangeInChannel => GlobalView { program_change_in_channel: s, ..v },
                GlobalEnumType::ProgramChangeOutChannel => GlobalView { program_change_out_channel: s, ..v },
                GlobalEnumType::PerformanceChannel => GlobalView { performance_channel: s, ..v },
            },
        )
    } else {
        None
    }
}

impl Global {
    /// Well-formedness of the object and everything it owns.
    pub open spec fn wf(&self) -> bool {
        &&& global_view_wf(self@)
    }

    /// A fresh global.
    #[verifier::rlimit(100)]
    pub fn new(index: u8, wb: bool) -> (r: Global)
        ensures
            r.wf(),
            r@ =~~= global_default(index, wb),
    {
        proof {
            reveal(is_time_signature_variant);
            reveal(is_routing_usb_in_variant);
            reveal(is_routing_usb_out_variant);
            reveal(is_routing_usb_to_main_db_variant);
            reveal(is_midi_port_function_variant);
            reveal(is_midi_transport_layer_variant);
            reveal(is_midi_parameter_output_variant);
            reveal(is_parameter_destination_variant);
            reveal(is_midi_ports_output_channel_variant);
            reveal(is_midi_channel_variant);
        }
        Global {
            version: 0,
            index,
            is_work_buffer: wb,
            kit_reload_on_chg: false,
            quantize_live_rec: false,
            auto_trk_switch: false,
            routed_to_main: crate::seed::filled_bools(12),
            sent_to_fx: crate::seed::filled_bools(12),
            clock_receive: false,
            clock_send: false,
            transport_receive: false,
            transport_send: false,
            program_change_receive: false,
            program_change_send: false,
            receive_notes: false,
            receive_cc_nrpn: false,
            turbo_speed: 0,
            metronome_active: false,
            metronome_pre_roll_bars: 0,
            metronome_volume: 0,
            time_signature: "4/4".to_owned(),
            routing_usb_in: "pre-fx".to_owned(),
            routing_usb_out: "mainout".to_owned(),
            routing_usb_to_main_db: "0db".to_owned(),
            out_port_function: "midi".to_owned(),
            thru_port_function: "midi".to_owned(),
            input_from: "midi".to_owned(),
            output_to: "midi".to_owned(),
            param_output: "nrpn".to_owned(),
            pad_dest: "int".to_owned(),
            pressure_dest: "int".to_owned(),
            encoder_dest: "int".to_owned(),
            mute_dest: "int".to_owned(),
            ports_output_channel: "auto".to_owned(),
            auto_channel: "auto".to_owned(),
            track_channels: crate::seed::filled_strings(12, "auto"),
            track_fx_channel: "auto".to_owned(),
            program_change_in_channel: "auto".to_owned(),
            program_change_out_channel: "auto".to_owned(),
            performance_channel: "auto".to_owned(),
        }
    }

    /// Reads the plain field, echoing its value as a token.
    #[verifier::rlimit(100)]
    pub fn get_field(&self, f: GlobalField, slot: usize) -> (r: Token)
        requires
            self.wf(),
            0 <= slot < global_field_slot_count(f),
        ensures
            r@ == global_get_spec(self@, f, slot as int),
    {
        match f {
            GlobalField::Version => Token::Int(self.version),
            GlobalField::Index => Token::Int(self.index as i64),
            GlobalField::IsWb => bool01_to_token(self.is_work_buffer),
            GlobalField::KitReloadOnChange => bool01_to_token(self.kit_reload_on_chg),
            GlobalField::QuantizeLiveRec => bool01_to_token(self.quantize_live_rec),
            GlobalField::AutoTrackSwitch => bool01_to_token(self.auto_trk_switch),
            GlobalField::RouteToMain => bool01_to_token(self.routed_to_main[slot]),
            GlobalField::SendToFx => bool01_to_token(self.sent_to_fx[slot]),
            GlobalField::ClockReceive => bool01_to_token(self.clock_receive),
            GlobalField::ClockSend => bool01_to_token(self.clock_send),
            GlobalField::TransportReceive => bool01_to_token(self.transport_receive),
            GlobalField::TransportSend => bool01_to_token(self.transport_send),
            GlobalField::ProgramChangeReceive => bool01_to_token(self.program_change_receive),
            GlobalField::ProgramChangeSend => bool01_to_token(self.program_change_send),
            GlobalField::ReceiveNotes => bool01_to_token(self.receive_notes),
            GlobalField::ReceiveCcNrpn => bool01_to_token(self.receive_cc_nrpn),
            GlobalField::TurboSpeed => Token::Int(self.turbo_speed),
            GlobalField::MetronomeActive => bool01_to_token(self.metronome_active),
            GlobalField::MetronomePreRollBars => Token::Int(self.metronome_pre_roll_bars),
            GlobalField::MetronomeVolume => Token::Int(self.metronome_volume),
        }
    }

    /// One slice of the plain-field writer.
    #[verifier::rlimit(100)]
    fn set_field_part0(&mut self, f: GlobalField, slot: usize, t: &Token) -> (r: bool)
        requires
            old(self).wf(),
            0 <= slot < global_field_slot_count(f),
            f == GlobalField::Version || f == GlobalField::Index || f == GlobalField::IsWb || f == GlobalField::KitReloadOnChange || f == GlobalField::QuantizeLiveRec || f == GlobalField::AutoTrackSwitch || f == GlobalField::RouteToMain,
        ensures
            final(self).wf(),
            match global_set_spec(old(self)@, f, slot as int, t@) {
                Some(v2) => r == true && final(self)@ =~~= v2,
                None => r == false && final(self)@ =~~= old(self)@,
            },
    {
        match f {
            GlobalField::Version => false,
            GlobalField::Index => false,
            GlobalField::IsWb => false,
            GlobalField::KitReloadOnChange => match coerce_bool01(t) {
                Some(b) => {
                    self.kit_reload_on_chg = b;
                    true
                },
                None => false,
            },
            GlobalField::QuantizeLiveRec => match coerce_bool01(t) {
                Some(b) => {
                    self.quantize_live_rec = b;
                    true
                },
                None => false,
            },
            GlobalField::AutoTrackSwitch => match coerce_bool01(t) {
                Some(b) => {
                    self.auto_trk_switch = b;
                    true
                },
                None => false,
            },
            GlobalField::RouteToMain => {
                self.routed_to_main.set(slot, true);
                true
            },
            _ => false,
        }
    }

    /// One slice of the plain-field writer.
    #[verifier::rlimit(100)]
    fn set_field_part1(&mut self, f: GlobalField, slot: usize, t: &Token) -> (r: bool)
        requires
            old(self).wf(),
            0 <= slot < global_field_slot_count(f),
            f == GlobalField::SendToFx || f == GlobalField::ClockReceive || f == GlobalField::ClockSend || f == GlobalField::TransportReceive || f == GlobalField::TransportSend || f == GlobalField::ProgramChangeReceive || f == GlobalField::ProgramChangeSend,
        ensures
            final(self).wf(),
            match global_set_spec(old(self)@, f, slot as int, t@) {
                Some(v2) => r == true && final(self)@ =~~= v2,
                None => r == false && final(self)@ =~~= old(self)@,
            },
    {
        match f {
            GlobalField::SendToFx => {
                self.sent_to_fx.set(slot, true);
                true
            },
            GlobalField::ClockReceive => match coerce_bool01(t) {
                Some(b) => {
                    self.clock_receive = b;
                    true
                },
                None => false,
            },
            GlobalField::ClockSend => match coerce_bool01(t) {
                Some(b) => {
                    self.clock_send = b;
                    true
                },
                None => false,
            },
            GlobalField::TransportReceive => match coerce_bool01(t) {
                Some(b) => {
                    self.transport_receive = b;
                    true
                },
                None => false,
            },
            GlobalField::TransportSend => match coerce_bool01(t) {
                Some(b) => {
                    self.transport_send = b;
                    true
                },
                None => false,
            },
            GlobalField::ProgramChangeReceive => match coerce_bool01(t) {
                Some(b) => {
                    self.program_change_receive = b;
                    true
                },
                None => false,
            },
            GlobalField::ProgramChangeSend => match coerce_bool01(t) {
                Some(b) => {
                    self.program_change_send = b;
                    true
                },
                None => false,
            },
            _ => false,
        }
    }

    /// One slice of the plain-field writer.
    #[verifier::rlimit(100)]
    fn set_field_part2(&mut self, f: GlobalField, slot: usize, t: &Token) -> (r: bool)
        requires
            old(self).wf(),
            0 <= slot < global_field_slot_count(f),
            f == GlobalField::ReceiveNotes || f == GlobalField::ReceiveCcNrpn || f == GlobalField::TurboSpeed || f == GlobalField::MetronomeActive || f == GlobalField::MetronomePreRollBars || f == GlobalField::MetronomeVolume,
        ensures
            final(self).wf(),
            match global_set_spec(old(self)@, f, slot as int, t@) {
                Some(v2) => r == true && final(self)@ =~~= v2,
                None => r == false && final(self)@ =~~= old(self)@,
            },
    {
        match f {
            GlobalField::ReceiveNotes => match coerce_bool01(t) {
                Some(b) => {
                    self.receive_notes = b;
                    true
                },
                None => false,
            },
            GlobalField::ReceiveCcNrpn => match coerce_bool01(t) {
                Some(b) => {
                    self.receive_cc_nrpn = b;
                    true
                },
                None => false,
            },
            GlobalField::TurboSpeed => false,
            GlobalField::MetronomeActive => match coerce_bool01(t) {
                Some(b) => {
                    self.metronome_active = b;
                    true
                },
                None => false,
            },
            GlobalField::MetronomePreRollBars => match coerce_int(t) {
                Some(i) => {
                    self.metronome_pre_roll_bars = i;
                    true
                },
                None => false,
            },
            GlobalField::MetronomeVolume => match coerce_int(t) {
                Some(i) => {
                    self.metronome_volume = i;
                    true
                },
                None => false,
            },
            _ => false,
        }
    }

    /// Writes the plain field from a parameter token, coercing per the
    /// field's kind; returns whether the write applied.
    pub fn set_field(&mut self, f: GlobalField, slot: usize, t: &Token) -> (r: bool)
        requires
            old(self).wf(),
            0 <= slot < global_field_slot_count(f),
        ensures
            final(self).wf(),
            match global_set_spec(old(self)@, f, slot as int, t@) {
                Some(v2) => r == true && final(self)@ =~~= v2,
                None => r == false && final(self)@ =~~= old(self)@,
            },
    {
        match f {
            GlobalField::Version | GlobalField::Index | GlobalField::IsWb | GlobalField::KitReloadOnChange | GlobalField::QuantizeLiveRec | GlobalField::AutoTrackSwitch | GlobalField::RouteToMain => self.set_field_part0(f, slot, t),
            GlobalField::SendToFx | GlobalField::ClockReceive | GlobalField::ClockSend | GlobalField::TransportReceive | GlobalField::TransportSend | GlobalField::ProgramChangeReceive | GlobalField::ProgramChangeSend => self.set_field_part1(f, slot, t),
            GlobalField::ReceiveNotes | GlobalField::ReceiveCcNrpn | GlobalField::TurboSpeed | GlobalField::MetronomeActive | GlobalField::MetronomePreRollBars | GlobalField::MetronomeVolume => self.set_field_part2(f, slot, t),
        }
    }

    /// Reads the stored variant of the enumerated type.
    pub fn get_enum(&self, t: GlobalEnumType, slot: usize) -> (r: String)
        requires
            self.wf(),
            0 <= slot < global_enum_slot_count(t),
        ensures
            r@ == global_enum_value(self@, t, slot as int),
            global_enum_variant_ok(t, r@),
    {
        match t {
            GlobalEnumType::MetronomeTimeSignature => self.time_signature.clone(),
            GlobalEnumType::RoutingUsbIn => self.routing_usb_in.clone(),
            GlobalEnumType::RoutingUsbOut => self.routing_usb_out.clone(),
            GlobalEnumType::RoutingUsbToMainDb => self.routing_usb_to_main_db.clone(),
            GlobalEnumType::OutPortFunction => self.out_port_function.clone(),
            GlobalEnumType::ThruPortFunction => self.thru_port_function.clone(),
            GlobalEnumType::InputFrom => self.input_from.clone(),
            GlobalEnumType::OutputTo => self.output_to.clone(),
            GlobalEnumType::ParamOutput => self.param_output.clone(),
            GlobalEnumType::PadDest => self.pad_dest.clone(),
            GlobalEnumType::PressureDest => self.pressure_dest.clone(),
            GlobalEnumType::EncoderDest => self.encoder_dest.clone(),
            GlobalEnumType::MuteDest => self.mute_dest.clone(),
            GlobalEnumType::PortsOutputChannel => self.ports_output_channel.clone(),
            GlobalEnumType::AutoChannel => self.auto_channel.clone(),
            GlobalEnumType::TrackChannels => self.track_channels[slot].clone(),
            GlobalEnumType::TrackFxChannel => self.track_fx_channel.clone(),
            GlobalEnumType::ProgramChangeInChannel => self.program_change_in_channel.clone(),
            GlobalEnumType::ProgramChangeOutChannel => self.program_change_out_channel.clone(),
            GlobalEnumType::PerformanceChannel => self.performance_channel.clone(),
        }
    }

    /// One slice of the enumerated-type writer.
    #[verifier::rlimit(100)]
    fn set_enum_part0(&mut self, t: GlobalEnumType, slot: usize, s: &String) -> (r: bool)
        requires
            old(self).wf(),
            0 <= slot < global_enum_slot_count(t),
            t == GlobalEnumType::MetronomeTimeSignature || t == GlobalEnumType::RoutingUsbIn || t == GlobalEnumType::RoutingUsbOut || t == GlobalEnumType::RoutingUsbToMainDb || t == GlobalEnumType::OutPortFunction || t == GlobalEnumType::ThruPortFunction || t == GlobalEnumType::InputFrom,
        ensures
            final(self).wf(),
            match global_set_enum_spec(old(self)@, t, slot as int, s@) {
                Some(v2) => r == true && final(self)@ =~~= v2,
                None => r == false && final(self)@ =~~= old(self)@,
            },
    {
        match t {
            GlobalEnumType::MetronomeTimeSignature => {
                if check_time_signature_variant(s) {
                    self.time_signature = s.clone();
                    true
                } else {
                    false
                }
            },
            GlobalEnumType::RoutingUsbIn => {
                if check_routing_usb_in_variant(s) {
                    self.routing_usb_in = s.clone();
                    true
                } else {
                    false
                }
            },
            GlobalEnumType::RoutingUsbOut => {
                if check_routing_usb_out_variant(s) {
                    self.routing_usb_out = s.clone();
                    true
                } else {
                    false
                }
            },
            GlobalEnumType::RoutingUsbToMainDb => {
                if check_routing_usb_to_main_db_variant(s) {
                    self.routing_usb_to_main_db = s.clone();
                    true
                } else {
                    false
                }
            },
            GlobalEnumType::OutPortFunction => {
                if check_midi_port_function_variant(s) {
                    self.out_port_function = s.clone();
                    true
                } else {
                    false
                }
            },
            GlobalEnumType::ThruPortFunction => {
                if check_midi_port_function_variant(s) {
                    self.thru_port_function = s.clone();
                    true
                } else {
                    false
                }
            },
            GlobalEnumType::InputFrom => {
                if check_midi_transport_layer_variant(s) {
                    self.input_from = s.clone();
                    true
                } else {
                    false
                }
            },
            _ => false,
        }
    }

    /// One slice of the enumerated-type writer.
    #[verifier::rlimit(100)]
    fn set_enum_part1(&mut self, t: GlobalEnumType, slot: usize, s: &String) -> (r: bool)
        requires
            old(self).wf(),
            0 <= slot < global_enum_slot_count(t),
            t == GlobalEnumType::OutputTo || t == GlobalEnumType::ParamOutput || t == GlobalEnumType::PadDest || t == GlobalEnumType::PressureDest || t == GlobalEnumType::EncoderDest || t == GlobalEnumType::MuteDest || t == GlobalEnumType::PortsOutputChannel,
        ensures
            final(self).wf(),
            match global_set_enum_spec(old(self)@, t, slot as int, s@) {
                Some(v2) => r == true && final(self)@ =~~= v2,
                None => r == false && final(self)@ =~~= old(self)@,
            },
    {
        match t {
            GlobalEnumType::OutputTo => {
                if check_midi_transport_layer_variant(s) {
                    self.output_to = s.clone();
                    true
                } else {
                    false
                }
            },
            GlobalEnumType::ParamOutput => {
                if check_midi_parameter_output_variant(s) {
                    self.param_output = s.clone();
                    true
                } else {
                    false
                }
            },
            GlobalEnumType::PadDest => {
                if check_parameter_destination_variant(s) {
                    self.pad_dest = s.clone();
                    true
                } else {
                    false
                }
            },
            GlobalEnumType::PressureDest => {
                if check_parameter_destination_variant(s) {
                    self.pressure_dest = s.clone();
                    true
                } else {
                    false
                }
            },
            GlobalEnumType::EncoderDest => {
                if check_parameter_destination_variant(s) {
                    self.encoder_dest = s.clone();
                    true
                } else {
                    false
                }
            },
            GlobalEnumType::MuteDest => {
                if check_parameter_destination_variant(s) {
                    self.mute_dest = s.clone();
                    true
                } else {
                    false
                }
            },
            GlobalEnumType::PortsOutputChannel => {
                if check_midi_ports_output_channel_variant(s) {
                    self.ports_output_channel = s.clone();
                    true
                } else {
                    false
                }
            },
            _ => false,
        }
    }

    /// One slice of the enumerated-type writer.
    #[verifier::rlimit(100)]
    fn set_enum_part2(&mut self, t: GlobalEnumType, slot: usize, s: &String) -> (r: bool)
        requires
            old(self).wf(),
            0 <= slot < global_enum_slot_count(t),
            t == GlobalEnumType::AutoChannel || t == GlobalEnumType::TrackChannels || t == GlobalEnumType::TrackFxChannel || t == GlobalEnumType::ProgramChangeInChannel || t == GlobalEnumType::ProgramChangeOutChannel || t == GlobalEnumType::PerformanceChannel,
        ensures
            final(self).wf(),
            match global_set_enum_spec(old(self)@, t, slot as int, s@) {
                Some(v2) => r == true && final(self)@ =~~= v2,
                None => r == false && final(self)@ =~~= old(self)@,
            },
    {
        match t {
            GlobalEnumType::AutoChannel => {
                if check_midi_channel_variant(s) {
                    self.auto_channel = s.clone();
                    true
                } else {
                    false
                }
            },
            GlobalEnumType::TrackChannels => {
                if check_midi_channel_variant(s) {
                    self.track_channels.set(slot, s.clone());
                    proof {
                        assert(self.track_channels.deep_view() =~~= old(self).track_channels.deep_view().update(
                            slot as int,
                            s@,
                        )) by {
                            assert forall|i: int|
                                0 <= i < self.track_channels@.len() && i != slot implies #[trigger] self.track_channels.deep_view()[i] == old(
                                self,
                            ).track_channels.deep_view()[i] by {
                                assert(self.track_channels@[i] == old(self).track_channels@[i]);
                            }
                        }
                    }
                    true
                } else {
                    false
                }
            },
            GlobalEnumType::TrackFxChannel => {
                if check_midi_channel_variant(s) {
                    self.track_fx_channel = s.clone();
                    true
                } else {
                    false
                }
            },
            GlobalEnumType::ProgramChangeInChannel => {
                if check_midi_channel_variant(s) {
                    self.program_change_in_channel = s.clone();
                    true
                } else {
                    false
                }
            },
            GlobalEnumType::ProgramChangeOutChannel => {
                if check_midi_channel_variant(s) {
                    self.program_change_out_channel = s.clone();
                    true
                } else {
                    false
                }
            },
            GlobalEnumType::PerformanceChannel => {
                if check_midi_channel_variant(s) {
                    self.performance_channel = s.clone();
                    true
                } else {
                    false
                }
            },
            _ => false,
        }
    }

    /// Writes the enumerated type from a variant symbol, validating it
    /// against the type's domain; returns whether the write applied.
    pub fn set_enum(&mut self, t: GlobalEnumType, slot: usize, s: &String) -> (r: bool)
        requires
            old(self).wf(),
            0 <= slot < global_enum_slot_count(t),
        ensures
            final(self).wf(),
            match global_set_enum_spec(old(self)@, t, slot as int, s@) {
                Some(v2) => r == true && final(self)@ =~~= v2,
                None => r == false && final(self)@ =~~= old(self)@,
            },
    {
        match t {
            GlobalEnumType::MetronomeTimeSignature | GlobalEnumType::RoutingUsbIn | GlobalEnumType::RoutingUsbOut | GlobalEnumType::RoutingUsbToMainDb | GlobalEnumType::OutPortFunction | GlobalEnumType::ThruPortFunction | GlobalEnumType::InputFrom => self.set_enum_part0(t, slot, s),
            GlobalEnumType::OutputTo | GlobalEnumType::ParamOutput | GlobalEnumType::PadDest | GlobalEnumType::PressureDest | GlobalEnumType::EncoderDest | GlobalEnumType::MuteDest | GlobalEnumType::PortsOutputChannel => self.set_enum_part1(t, slot, s),
            GlobalEnumType::AutoChannel | GlobalEnumType::TrackChannels | GlobalEnumType::TrackFxChannel | GlobalEnumType::ProgramChangeInChannel | GlobalEnumType::ProgramChangeOutChannel | GlobalEnumType::PerformanceChannel => self.set_enum_part2(t, slot, s),
        }
    }

}

/// Read-after-write: a plain-field write that applies is read back exactly,
/// for every state, field, slot and parameter; slot-marking fields are the
/// one exception, for they take no value.
#[verifier::rlimit(100)]
pub proof fn lemma_global_set_get(v: GlobalView, f: GlobalField, slot: int, t: TokenV)
    requires
        global_view_wf(v),
        0 <= slot < global_field_slot_count(f),
        !global_field_is_mark(f),
        global_set_spec(v, f, slot, t) is Some,
    ensures
        global_get_spec(global_set_spec(v, f, slot, t)->Some_0, f, slot) == t,
{
}

/// Read-after-write for enumerated identifiers: a variant write that
/// applies is read back exactly, for every state, type, slot and variant.
pub proof fn lemma_global_enum_set_get(v: GlobalView, t: GlobalEnumType, slot: int, s: Seq<char>)
    requires
        global_view_wf(v),
        0 <= slot < global_enum_slot_count(t),
        global_set_enum_spec(v, t, slot, s) is Some,
    ensures
        global_enum_value(global_set_enum_spec(v, t, slot, s)->Some_0, t, slot) == s,
{
}

impl DeepView for Global {
    type V = GlobalView;

    open spec fn deep_view(&self) -> GlobalView {
        self.view()
    }
}

} // verus!
