pub mod add_peer;
pub mod connect_and_resend;
pub mod peer_connected;
pub mod peer_disconnected;
pub mod receive_message;
pub mod send_message;
