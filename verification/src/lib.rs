//! Codec for the IPv6 fixed header and IPv6 address model of a small,
//! allocation-free network stack.
//!
//! The crate has three parts: an address model (`address`), the 40-byte
//! fixed-header codec (`header`), and the registry of next-header protocol
//! numbers (`ip6_nh`). Every operation is a bounded, synchronous
//! transformation over caller-owned memory; nothing here allocates.

pub mod address;
pub mod header;
pub mod ip6_nh;

pub use crate::address::IPAddr;
pub use crate::address::MacAddr;
pub use crate::header::HeaderError;
pub use crate::header::IP6Header;
