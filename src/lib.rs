//! Construction of XDP sockets: descriptor ownership, sharing of one
//! descriptor between sockets, and resolution of the network-namespace cookie.

pub mod errno;
pub mod fd;
pub mod iface;
pub mod socket;
