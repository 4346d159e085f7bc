//! Packet classification for traffic-control hook points, and the decisions
//! of the userspace attachment lifecycle.

pub mod packet;
pub mod walker;
pub mod attach;
pub mod laws;
