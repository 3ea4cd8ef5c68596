//! Verified core of the ShadowGuessr telemetry interceptor: WebSocket payload
//! unmasking, capture-line handling, GeoGuessr protocol decisions and the
//! radar/settings state that the user interface shows.

pub mod hex_codec;
pub mod text;
pub mod sniffer;
pub mod capture;
pub mod protocol;
pub mod api;
pub mod message;
pub mod errors;
pub mod processor;
pub mod radar;
pub mod settings;
pub mod info;
