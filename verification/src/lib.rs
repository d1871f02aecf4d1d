//! Binary framing layer of a Levin-style peer-to-peer wire protocol:
//! the fixed 33-byte message envelope with its command and flag
//! validation, and the tagged-union network-address value carried
//! inside protocol payloads as a generic key/value document.

pub mod header;
pub mod network_address;
