//! Client-side wire protocol engine for the RoboMaster referee system
//! serial link: CRC primitives, bit-level message codec, stream deframer
//! and framer, and the session-layer state (sequence stamping and
//! per-topic latest-value slots).

pub mod codec;
pub mod crc;
pub mod errors;
pub mod frame;
pub mod graphic;
pub mod id;
pub mod proto;
pub mod session;
pub mod wire;
