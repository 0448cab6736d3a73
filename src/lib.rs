//! Signaling layer of an L2CAP channel: identifier allocation, the signaling
//! PDU codec, and the per-channel connection state machine.

pub mod channel;
pub mod ids;
pub mod signal;

pub use channel::{Channel, ChannelError, State, Substate};
pub use ids::IdAllocator;
pub use signal::{
    decode_signal, encode_signal, get_u16_le, DecodeError, EncodeError, Signal, SignalingCommand,
};
