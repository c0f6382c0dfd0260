//! Connection layer over KCP: packet framing, the handshake state machine, the
//! bookkeeping of an endpoint and the decisions its tasks take, all verified.

pub mod buffer;
pub mod conn_id;
pub mod conn_state;
pub mod connect;
pub mod connection;
pub mod endpoint;
pub mod error;
pub mod ffi_safe;
pub mod log_throttle;
pub mod packet_def;
pub mod printing;
pub mod state;
pub mod state_map;
pub mod wire;
