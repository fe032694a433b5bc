//! The engine of a daemon that lets clients add MAC addresses to an IPSet
//! set, delete them from it, and look up the MAC address bound to an IP
//! address, over a line protocol on TCP.
//!
//! The library decides; the caller does the outside work that it asks for
//! (reading and writing sockets, running the `ipset` and `ip` commands,
//! telling whether a text is an IP literal) and hands back what came of it.

pub mod adapter;
pub mod admission;
pub mod conf;
pub mod dispatch;
pub mod mac;
pub mod protocol;
