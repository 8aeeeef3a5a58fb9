//! Command dispatch and live-broadcast synchronisation for a shared karaoke
//! play queue.
//!
//! The library holds the decisions: how each command changes the queue and
//! which events it emits, and how one live session turns inbound frames,
//! broadcast events and the passing of time into outbound frames. The
//! threads, channels and sockets that carry those values live around it.
pub mod track;
pub mod command;
pub mod queue;
pub mod worker;
pub mod session;

pub use track::Kfile;
pub use command::{LiveCommand, PlayerCommand, WebsocketCommand, WorkerCommand};
pub use queue::PlayQueue;
pub use worker::{NativeEffects, NativeWorker, WebWorker};
pub use session::{
    accepts_protocol, greeting, heartbeat_frame, inbound_step, live_frame, protocol, FrameView,
    InFrame, InboundStep, OutFrame, Outbound, TickPlan, HEARTBEAT_SECS,
};
