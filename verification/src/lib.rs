//! Futurist: an open protocol library for the Stark Varg electric motorcycle.
//!
//! Byte-level decoders for the bike's GATT characteristics, TLV
//! demultiplexing, the aggregated telemetry state, PIN and key derivation,
//! VCU configuration packets and firmware-flash helpers, each with a
//! machine-checked contract.

pub mod api;
pub mod ble;
pub mod cli;
pub mod crypto;
pub mod decode;
pub mod flash;
pub mod presets;
pub mod protocol;
pub mod telemetry;
pub mod text;
