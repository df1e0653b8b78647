//! Protocol core of a LoRa packet-forwarder gateway.

pub mod event;
pub mod gateway;
pub mod guarantees;
pub mod keyed_uri;
pub mod packet;
