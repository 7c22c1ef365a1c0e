//! Packet-crafting and packet-capture toolkit: byte-exact codecs for the
//! common link-, network- and transport-layer headers, a multi-layer packet
//! builder, socket-option validation, and the filtering logic of a live
//! capture session.

/// Header codecs and the multi-layer packet builder.
pub mod packet;
/// Filtered-capture options, the frame decoder and the capture session.
pub mod pcap;
/// Socket option validation for raw protocol sockets.
pub mod socket;
