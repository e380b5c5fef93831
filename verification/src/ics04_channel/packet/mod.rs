//! Packets: sending, receiving, acknowledging and timing out.
pub mod acknowledgement;
pub mod functions;
pub mod packet_types;
pub mod receive_packet;
pub mod send_packet;
pub mod timeout;
pub mod timeout_on_close;
pub mod write_acknowledgement;
