//! Control facade for a remote-controlled vehicle: a command sequencer that
//! enforces legal command ordering, the transports it runs against, the
//! request pipeline of the networked backend, and the telemetry decoder.

pub mod error;
pub mod flags;
pub mod json;
pub mod state;
pub mod text;
pub mod http_api;
pub mod telemetry;
pub mod transport;
pub mod frames;
pub mod drone;
pub mod poll;
