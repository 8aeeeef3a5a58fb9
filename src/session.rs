use vstd::prelude::*;
use vstd::string::*;
use crate::command::{LiveCommand, WebsocketCommand};

verus! {

/// Seconds between two heartbeat pings on an idle session.
pub const HEARTBEAT_SECS: u64 = 20;

/// The sub-protocol a client must offer during the handshake.
pub open spec fn protocol_name() -> Seq<char> {
    "rust-websocket"@
}

/// The bytes a heartbeat ping carries: the text "Ping".
pub open spec fn heartbeat_payload() -> Seq<u8> {
    seq![80u8, 105u8, 110u8, 103u8]
}

/// A frame read from a peer.
#[derive(Debug)]
pub enum InFrame {
    Close,
    Ping { data: Vec<u8> },
    Pong,
    Text { text: String },
    Other,
}

/// A frame to send to a peer.
#[derive(Debug, Clone)]
pub enum OutFrame {
    Text { text: String },
    Ping { data: Vec<u8> },
    Pong { data: Vec<u8> },
}

/// What a frame is, over plain sequences.
pub enum FrameView {
    Text(Seq<char>),
    Ping(Seq<u8>),
    Pong(Seq<u8>),
}

impl View for OutFrame {
    type V = FrameView;

    open spec fn view(&self) -> FrameView {
        match self {
            OutFrame::Text { text } => FrameView::Text(text@),
            OutFrame::Ping { data } => FrameView::Ping(data@),
            OutFrame::Pong { data } => FrameView::Pong(data@),
        }
    }
}

/// The name of the sub-protocol, as a value.
pub fn protocol() -> (r: String)
    ensures
        r@ == protocol_name(),
{
    proof {
        reveal_strlit("rust-websocket");
    }
    String::from_str("rust-websocket")
}

/// Whether the handshake offers the expected sub-protocol.
pub fn accepts_protocol(protocols: &Vec<String>) -> (r: bool)
    ensures
        r == exists|i: int| 0 <= i < protocols@.len() && #[trigger] protocols@[i]@ == protocol_name(),
{
    let expected = protocol();
    let mut i: usize = 0;
    while i < protocols.len()
        invariant
            i <= protocols@.len(),
            expected@ == protocol_name(),
            forall|j: int| 0 <= j < i ==> #[trigger] protocols@[j]@ != protocol_name(),
        decreases protocols@.len() - i,
    {
        if protocols[i] == expected {
            return true;
        }
        i = i + 1;
    }
    false
}

/// The informational frame sent once a session is accepted.
pub fn greeting() -> (r: OutFrame)
    ensures
        r@ == FrameView::Text("Hello"@),
{
    proof {
        reveal_strlit("Hello");
    }
    OutFrame::Text { text: String::from_str("Hello") }
}

/// The frame that carries a live event to a peer.
pub fn live_frame(cmd: LiveCommand) -> (r: OutFrame)
    ensures
        r@ == FrameView::Text("Stop"@),
{
    proof {
        reveal_strlit("Stop");
    }
    match cmd {
        LiveCommand::Stop => OutFrame::Text { text: String::from_str("Stop") },
    }
}

/// The liveness ping sent by the server on its own schedule.
pub fn heartbeat_frame() -> (r: OutFrame)
    ensures
        r@ == FrameView::Ping(heartbeat_payload()),
{
    let data: Vec<u8> = vec![80u8, 105u8, 110u8, 103u8];
    proof {
        assert(data@ =~= heartbeat_payload());
    }
    OutFrame::Ping { data }
}

/// What the inbound half does with one frame.
#[derive(Debug)]
pub struct InboundStep {
    /// A signal for the outbound half.
    pub control: Option<WebsocketCommand>,
    /// Whether the inbound half stops reading.
    pub stop: bool,
}

/// Translates one inbound frame: a close ends reading and tells the outbound
/// half to end; a ping is handed over so the outbound half answers it; other
/// frames change nothing.
pub fn inbound_step(frame: InFrame) -> (r: InboundStep)
    ensures
        r.stop == (frame is Close),
        frame is Close ==> r.control == Some(WebsocketCommand::Close),
        frame is Ping ==> r.control == Some(WebsocketCommand::Ping { data: frame->Ping_data }),
        !(frame is Close) && !(frame is Ping) ==> r.control.is_none(),
{
    match frame {
        InFrame::Close => InboundStep { control: Some(WebsocketCommand::Close), stop: true },
        InFrame::Ping { data } => InboundStep {
            control: Some(WebsocketCommand::Ping { data }),
            stop: false,
        },
        _ => InboundStep { control: None, stop: false },
    }
}

/// Whether a heartbeat is owed at time `now` when the last one went at `last`.
pub open spec fn heartbeat_due(last: nat, now: nat) -> bool {
    now >= last + HEARTBEAT_SECS
}

/// Whether a control signal ends the session.
pub open spec fn closes(control: Option<WebsocketCommand>) -> bool {
    match control {
        Some(WebsocketCommand::Close) => true,
        _ => false,
    }
}

/// The time of the last heartbeat after a tick at `now`.
pub open spec fn last_after(last: nat, now: nat, control: Option<WebsocketCommand>) -> nat {
    if !closes(control) && heartbeat_due(last, now) {
        now
    } else {
        last
    }
}

/// The frames one tick sends, in order: the pending live event, then the
/// answer to a ping, then a heartbeat when one is due. A close signal ends
/// the tick after the live event.
pub open spec fn tick_frames(
    last: nat,
    now: nat,
    live: Option<LiveCommand>,
    control: Option<WebsocketCommand>,
) -> Seq<FrameView> {
    let live_part = if live is Some {
        seq![FrameView::Text("Stop"@)]
    } else {
        Seq::empty()
    };
    if closes(control) {
        live_part
    } else {
        let pong_part = match control {
            Some(WebsocketCommand::Ping { data }) => seq![FrameView::Pong(data@)],
            _ => Seq::empty(),
        };
        let beat_part = if heartbeat_due(last, now) {
            seq![FrameView::Ping(heartbeat_payload())]
        } else {
            Seq::empty()
        };
        live_part + pong_part + beat_part
    }
}

/// What one tick of the outbound half asks for.
#[derive(Debug)]
pub struct TickPlan {
    /// Frames to send in order; the session ends at the first that fails.
    pub frames: Vec<OutFrame>,
    /// Whether the session ends after these frames.
    pub close: bool,
}

/// The outbound half of one session: the time, in seconds since the session
/// began, of the last heartbeat. Sessions share nothing with each other.
pub struct Outbound {
    last_ping: u64,
}

impl View for Outbound {
    type V = nat;

    closed spec fn view(&self) -> nat {
        self.last_ping as nat
    }
}

impl Outbound {
    /// A session accepted at time `now`; its first heartbeat is owed
    /// `HEARTBEAT_SECS` later.
    pub fn new(now: u64) -> (r: Outbound)
        ensures
            r@ == now as nat,
    {
        Outbound { last_ping: now }
    }

    /// One tick at time `now`, with what the broadcast view and the inbound
    /// half handed over since the last one.
    pub fn tick(
        &mut self,
        now: u64,
        live: Option<LiveCommand>,
        control: Option<WebsocketCommand>,
    ) -> (r: TickPlan)
        ensures
            final(self)@ == last_after(old(self)@, now as nat, control),
            r.close == closes(control),
            r.frames@.map_values(|f: OutFrame| f@) == tick_frames(
                old(self)@,
                now as nat,
                live,
                control,
            ),
    {
        let ghost control0 = control;
        let ghost last0 = self@;
        let mut frames: Vec<OutFrame> = Vec::new();
        match live {
            Some(cmd) => frames.push(live_frame(cmd)),
            None => {},
        }
        let close = match control {
            Some(WebsocketCommand::Close) => true,
            Some(WebsocketCommand::Ping { data }) => {
                frames.push(OutFrame::Pong { data });
                false
            },
            None => false,
        };
        if !close && now >= HEARTBEAT_SECS && now - HEARTBEAT_SECS >= self.last_ping {
            self.last_ping = now;
            frames.push(heartbeat_frame());
        }
        proof {
            assert(frames@.map_values(|f: OutFrame| f@) =~= tick_frames(
                last0,
                now as nat,
                live,
                control0,
            ));
        }
        TickPlan { frames, close }
    }
}

/// The times of the heartbeats sent over `n` idle ticks, one each second
/// from `now`, when the last heartbeat went at `last`. An idle tick brings
/// no live event and no control signal.
pub open spec fn idle_heartbeats(last: nat, now: nat, n: nat) -> Seq<nat>
    decreases n,
{
    if n == 0 {
        Seq::empty()
    } else {
        let rest = idle_heartbeats(last_after(last, now, None), now + 1, (n - 1) as nat);
        if heartbeat_due(last, now) {
            seq![now] + rest
        } else {
            rest
        }
    }
}

/// A session whose peer sends nothing is never closed by a tick, gets a
/// heartbeat ping exactly when one is due, and, ticked once a second, gets
/// one every `HEARTBEAT_SECS` seconds.
pub proof fn lemma_idle_heartbeat(start: nat, k: nat)
    ensures
        !closes(None),
        forall|last: nat, now: nat| #[trigger]
            tick_frames(last, now, None, None) == (if heartbeat_due(last, now) {
                seq![FrameView::Ping(heartbeat_payload())]
            } else {
                Seq::<FrameView>::empty()
            }),
        idle_heartbeats(start, start + 1, (k * HEARTBEAT_SECS) as nat) == Seq::new(
            k,
            |i: int| (start + HEARTBEAT_SECS * (i + 1)) as nat,
        ),
    decreases k,
{
    assert forall|last: nat, now: nat| #[trigger]
        tick_frames(last, now, None, None) == (if heartbeat_due(last, now) {
            seq![FrameView::Ping(heartbeat_payload())]
        } else {
            Seq::<FrameView>::empty()
        }) by {
        if heartbeat_due(last, now) {
            assert(Seq::<FrameView>::empty() + Seq::<FrameView>::empty() + seq![
                FrameView::Ping(heartbeat_payload()),
            ] =~= seq![FrameView::Ping(heartbeat_payload())]);
        } else {
            assert(Seq::<FrameView>::empty() + Seq::<FrameView>::empty() + Seq::<FrameView>::empty()
                =~= Seq::<FrameView>::empty());
        }
    }
    if k == 0 {
        assert(idle_heartbeats(start, start + 1, 0) =~= Seq::<nat>::new(
            0,
            |i: int| (start + HEARTBEAT_SECS * (i + 1)) as nat,
        ));
    } else {
        let km = (k - 1) as nat;
        let beat = (start + HEARTBEAT_SECS) as nat;
        let tail = (km * HEARTBEAT_SECS) as nat;
        lemma_idle_heartbeat(beat, km);
        lemma_quiet_ticks(start, start + 1, (HEARTBEAT_SECS - 1) as nat, tail + 1);
        assert(k * HEARTBEAT_SECS == (HEARTBEAT_SECS - 1) + tail + 1);
        assert(idle_heartbeats(start, beat, tail + 1) == seq![beat] + idle_heartbeats(
            beat,
            beat + 1,
            tail,
        ));
        assert(idle_heartbeats(start, start + 1, (k * HEARTBEAT_SECS) as nat) =~= Seq::new(
            k,
            |i: int| (start + HEARTBEAT_SECS * (i + 1)) as nat,
        ));
    }
}

proof fn lemma_quiet_ticks(last: nat, now: nat, n: nat, m: nat)
    requires
        now + n <= last + HEARTBEAT_SECS,
    ensures
        idle_heartbeats(last, now, n + m) == idle_heartbeats(last, now + n, m),
    decreases n,
{
    if n > 0 {
        lemma_quiet_ticks(last, now + 1, (n - 1) as nat, m);
        assert((n - 1) as nat + m == (n + m - 1) as nat);
    }
}

/// A close from one peer ends that session alone: its inbound half stops
/// reading, its outbound half ends after at most the live event already in
/// hand, with no answer or heartbeat, and another session, which shares
/// nothing with it, is not closed by its own tick unless its own peer
/// closed.
pub proof fn lemma_close_is_local(
    a_last: nat,
    b_last: nat,
    now: nat,
    a_live: Option<LiveCommand>,
    b_live: Option<LiveCommand>,
    b_control: Option<WebsocketCommand>,
)
    requires
        !closes(b_control),
    ensures
        closes(Some(WebsocketCommand::Close)),
        tick_frames(a_last, now, a_live, Some(WebsocketCommand::Close)) == (if a_live is Some {
            seq![FrameView::Text("Stop"@)]
        } else {
            Seq::<FrameView>::empty()
        }),
        !closes(b_control),
        b_control is None && !heartbeat_due(b_last, now) ==> tick_frames(
            b_last,
            now,
            b_live,
            b_control,
        ).len() == (if b_live is Some {
            1int
        } else {
            0int
        }),
{
    if b_control is None && !heartbeat_due(b_last, now) {
        let f = tick_frames(b_last, now, b_live, b_control);
        if b_live is Some {
            assert(f =~= seq![FrameView::Text("Stop"@)]);
        } else {
            assert(f =~= Seq::<FrameView>::empty());
        }
    }
}

} // verus!
