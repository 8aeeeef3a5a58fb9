use vstd::prelude::*;
use crate::track::Kfile;

verus! {

/// A control message from the request layer to the worker.
#[derive(Debug, Clone)]
pub enum WorkerCommand {
    Stop,
    Next,
    PlayNow { kfile: Kfile },
    ClearQueue,
    AddQueue { kfile: Kfile },
}

/// A playback-transition pulse pushed from the worker to connected sessions.
#[derive(Debug, Clone, Copy, PartialEq, Eq, Structural)]
pub enum LiveCommand {
    Stop,
}

/// An instruction to the local playback controller.
#[derive(Debug, Clone)]
pub enum PlayerCommand {
    Play { kfile: Kfile },
}

/// A control signal handed from a session's inbound half to its outbound half.
#[derive(Debug, Clone)]
pub enum WebsocketCommand {
    Close,
    Ping { data: Vec<u8> },
}

} // verus!
