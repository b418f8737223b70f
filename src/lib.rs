//! Packet data plane of a store-and-forward L2/L3 tunnel: header decoding,
//! intrusion checks, ARP rate control, duplicate suppression, TTL repair,
//! firewall evaluation, write batching and injection filtering.
pub mod types;
pub mod bytes;
pub mod clock;
pub mod decoder;
pub mod checksum;
pub mod ttl;
pub mod firewall;
pub mod writer;
pub mod arp_controller;
pub mod arp;
pub mod ethernet;
pub mod transport;
pub mod ip;
pub mod errors;
pub mod reader;
pub mod dedup;
pub mod text;
pub mod metrics;
pub mod tasks;
pub mod config;
pub mod logger;
pub mod idps;
pub mod pipeline;
pub mod monitor;
pub mod stats;
