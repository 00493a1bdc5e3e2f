//! Telemetry and command layer of a vehicle dashboard on a CAN-FD bus.
//!
//! Frames from the bus are classified by identifier, decoded into one of a
//! fixed catalog of typed records and published into a store of slots that
//! other subsystems read. Records can be encoded back into payloads for
//! transmission. Every function is verified against a contract stated over
//! byte sequences and a map from identifiers to records.
//!
//! - [`wire`]: fixed-width big-endian integers, read and written by `bincode`.
//! - [`layout`]: field layouts as data, and the codec that follows a layout.
//! - [`eco_can`]: the packages of the bus, each with its identifier, length
//!   and wire format.
//! - [`catalog`]: the lookup from an identifier to a package's descriptor.
//! - [`record`]: a record of any package, and the dispatch by identifier.
//! - [`store`]: one slot per package, holding the record decoded last.
//! - [`frame`]: inbound and outbound frames.
//! - [`can_mod`]: the frame router, the egress publisher and the ingress pump.
//! - [`fault`]: what decoding and encoding can report.

pub mod fault;
pub mod wire;
pub mod layout;
pub mod eco_can;
pub mod frame;
pub mod catalog;
pub mod record;
pub mod store;
pub mod can_mod;
