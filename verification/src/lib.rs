//! Realtime client engine for a streaming speech-synthesis service.
//!
//! A caller opens a session over a duplex text-frame transport, configures the
//! synthesis voice and audio format, streams text increments, and receives
//! interleaved audio and status events until the server signals completion.
//! This crate holds the verified engine: the session lifecycle state machine,
//! the outbound command builder with its unique event ids, the inbound event
//! codec, and the dispatch-loop logic that delivers events to a caller-supplied
//! callback. The transport itself (the socket handshake and the async read and
//! write halves) is driven by the embedding program.

pub mod audio_format;
pub mod codec;
pub mod connect;
pub mod dispatch;
pub mod odps;
pub mod session;
