//! Decoding of Ethernet frame headers and ARP packets from raw byte buffers,
//! and the table of address bindings learned from ARP traffic.
//!
//! Every function is verified against a contract stated over byte sequences.
pub mod arp;
pub mod ethernet;
pub mod ip;
pub mod net;
