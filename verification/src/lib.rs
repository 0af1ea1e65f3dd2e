//! A verified text-command interpreter over the data model of a hardware
//! drum machine: object addressing, identifier tables, per-field get/set
//! handlers, the parameter-lock sub-protocol, and value coercion.

pub mod error;
pub mod fields;
pub mod global_slot;
pub mod kit;
pub mod laws;
pub mod leafmsg;
pub mod msg;
pub mod numparse;
pub mod pattern;
pub mod plock;
pub mod plockmsg;
pub mod project;
pub mod seed;
pub mod settings;
pub mod sound;
pub mod strutil;
pub mod sysex_in;
pub mod token;
pub mod track;
pub mod trig;
pub mod types;
pub mod variants_fx;
pub mod variants_global;
pub mod variants_seq;
