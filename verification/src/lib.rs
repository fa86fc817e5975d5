//! Zero-copy decoding of captured link-layer frames into Ethernet, IPv4 and
//! TCP header views, with every field accessor specified over the bytes of
//! the frame.

pub mod bits;
pub mod dump;
pub mod endian;
pub mod error;
pub mod ethernet;
pub mod ipv4;
pub mod report;
pub mod shared;
pub mod tcp;
pub mod text;
pub mod timestamp;
pub mod visitor;
