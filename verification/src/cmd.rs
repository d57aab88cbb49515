//! Per-opcode request builders and response accessors, grouped by the
//! chip's command classes.  Pure byte packing and unpacking, derived from
//! the hardware datasheet; the transaction engine carries the bytes.

pub mod cmd_crypto;
pub mod cmd_fsk;
pub mod cmd_gnss;
pub mod cmd_lora;
pub mod cmd_lrfhss;
pub mod cmd_radio;
pub mod cmd_regmem;
pub mod cmd_system;
pub mod cmd_wifi;
