use vstd::prelude::*;
use vstd::multiset::Multiset;
use crate::command::{LiveCommand, PlayerCommand, WorkerCommand};
use crate::queue::{replace_head, without_head, PlayQueue};
use crate::track::Kfile;

verus! {

/// The queue after the distributed-mode worker handles `cmd`.
pub open spec fn web_queue_after(q: Seq<Kfile>, cmd: WorkerCommand) -> Seq<Kfile> {
    match cmd {
        WorkerCommand::Stop => Seq::empty(),
        WorkerCommand::Next => without_head(q),
        WorkerCommand::PlayNow { kfile } => replace_head(q, kfile),
        WorkerCommand::ClearQueue => Seq::empty(),
        WorkerCommand::AddQueue { kfile } => q.push(kfile),
    }
}

/// The broadcast the distributed-mode worker attempts after handling `cmd`
/// on queue `q`.
pub open spec fn web_event(q: Seq<Kfile>, cmd: WorkerCommand) -> Option<LiveCommand> {
    match cmd {
        WorkerCommand::Stop => Some(LiveCommand::Stop),
        WorkerCommand::Next => if q.len() > 0 {
            Some(LiveCommand::Stop)
        } else {
            None
        },
        WorkerCommand::PlayNow { .. } => Some(LiveCommand::Stop),
        WorkerCommand::ClearQueue => None,
        WorkerCommand::AddQueue { .. } => None,
    }
}

/// The queue after the direct-mode worker handles `cmd`: there the playback
/// controller, not the worker, advances the queue.
pub open spec fn native_queue_after(q: Seq<Kfile>, cmd: WorkerCommand) -> Seq<Kfile> {
    match cmd {
        WorkerCommand::Stop => Seq::empty(),
        WorkerCommand::Next => q,
        WorkerCommand::PlayNow { .. } => q,
        WorkerCommand::ClearQueue => Seq::empty(),
        WorkerCommand::AddQueue { kfile } => q.push(kfile),
    }
}

/// The stop pulse the direct-mode worker emits after handling `cmd` on queue
/// `q`, given whether a stop is still waiting to be delivered.
pub open spec fn native_live(q: Seq<Kfile>, cmd: WorkerCommand, live_pending: bool) -> Option<
    LiveCommand,
> {
    match cmd {
        WorkerCommand::Stop => if live_pending {
            None
        } else {
            Some(LiveCommand::Stop)
        },
        WorkerCommand::Next => if q.len() > 0 {
            Some(LiveCommand::Stop)
        } else {
            None
        },
        WorkerCommand::PlayNow { .. } => Some(LiveCommand::Stop),
        _ => None,
    }
}

/// The instruction the direct-mode worker hands the playback controller
/// after `cmd`.
pub open spec fn native_play(cmd: WorkerCommand) -> Option<PlayerCommand> {
    match cmd {
        WorkerCommand::PlayNow { kfile } => Some(PlayerCommand::Play { kfile }),
        _ => None,
    }
}

/// The queue after the distributed-mode worker handles `cmds` in order.
pub open spec fn web_run(q: Seq<Kfile>, cmds: Seq<WorkerCommand>) -> Seq<Kfile>
    decreases cmds.len(),
{
    if cmds.len() == 0 {
        q
    } else {
        web_run(web_queue_after(q, cmds[0]), cmds.drop_first())
    }
}

/// The queue after the direct-mode worker handles `cmds` in order.
pub open spec fn native_run(q: Seq<Kfile>, cmds: Seq<WorkerCommand>) -> Seq<Kfile>
    decreases cmds.len(),
{
    if cmds.len() == 0 {
        q
    } else {
        native_run(native_queue_after(q, cmds[0]), cmds.drop_first())
    }
}

/// One `AddQueue` command for each track, in the same order.
pub open spec fn add_commands(tracks: Seq<Kfile>) -> Seq<WorkerCommand> {
    tracks.map_values(|k: Kfile| WorkerCommand::AddQueue { kfile: k })
}

/// What the direct-mode worker asks of the outside after one command.
#[derive(Debug)]
pub struct NativeEffects {
    /// A stop pulse to send to the playback controller's live channel.
    pub live: Option<LiveCommand>,
    /// A track for the playback controller to start at once.
    pub play: Option<PlayerCommand>,
}

/// The distributed-mode worker: it owns the play queue and, for each
/// command, changes it and names the broadcast to attempt afterwards.
pub struct WebWorker {
    queue: PlayQueue,
}

impl View for WebWorker {
    type V = Seq<Kfile>;

    closed spec fn view(&self) -> Seq<Kfile> {
        self.queue@
    }
}

impl WebWorker {
    pub fn new() -> (r: WebWorker)
        ensures
            r@ == Seq::<Kfile>::empty(),
    {
        WebWorker { queue: PlayQueue::new() }
    }

    pub fn queue(&self) -> (r: &PlayQueue)
        ensures
            r@ == self@,
    {
        &self.queue
    }

    /// Handles one command. The queue is changed before the returned event
    /// is broadcast, so a client that re-reads the head after a stop pulse
    /// sees the new state.
    pub fn process_cmd(&mut self, cmd: WorkerCommand) -> (r: Option<LiveCommand>)
        ensures
            final(self)@ == web_queue_after(old(self)@, cmd),
            r == web_event(old(self)@, cmd),
    {
        match cmd {
            WorkerCommand::Stop => self.stop(),
            WorkerCommand::Next => self.next(),
            WorkerCommand::PlayNow { kfile } => self.play_now(kfile),
            WorkerCommand::ClearQueue => {
                self.clear_queue();
                None
            },
            WorkerCommand::AddQueue { kfile } => {
                self.add_queue(kfile);
                None
            },
        }
    }

    /// Empties the queue; a stop pulse is always attempted.
    pub fn stop(&mut self) -> (r: Option<LiveCommand>)
        ensures
            final(self)@ == Seq::<Kfile>::empty(),
            r == Some(LiveCommand::Stop),
    {
        self.clear_queue();
        Some(LiveCommand::Stop)
    }

    /// Removes the head, if any; a stop pulse follows only when there was one.
    pub fn next(&mut self) -> (r: Option<LiveCommand>)
        ensures
            old(self)@.len() > 0 ==> final(self)@ == old(self)@.drop_first() && r == Some(
                LiveCommand::Stop,
            ),
            old(self)@.len() == 0 ==> final(self)@ == old(self)@ && r.is_none(),
    {
        if self.queue.is_empty() {
            return None;
        }
        self.queue.pop_front_if_present();
        Some(LiveCommand::Stop)
    }

    /// Replaces the head with `kfile` (or makes it the only item), then asks
    /// for a stop pulse.
    pub fn play_now(&mut self, kfile: Kfile) -> (r: Option<LiveCommand>)
        ensures
            old(self)@.len() > 0 ==> final(self)@ == seq![kfile] + old(self)@.drop_first(),
            old(self)@.len() == 0 ==> final(self)@ == seq![kfile],
            r == Some(LiveCommand::Stop),
    {
        self.queue.insert_front(kfile);
        Some(LiveCommand::Stop)
    }

    pub fn clear_queue(&mut self)
        ensures
            final(self)@ == Seq::<Kfile>::empty(),
    {
        self.queue.clear();
    }

    pub fn add_queue(&mut self, kfile: Kfile)
        ensures
            final(self)@ == old(self)@.push(kfile),
    {
        self.queue.push(kfile);
    }
}

/// The direct-mode worker: it owns the play queue and drives a local
/// playback controller.
pub struct NativeWorker {
    queue: PlayQueue,
}

impl View for NativeWorker {
    type V = Seq<Kfile>;

    closed spec fn view(&self) -> Seq<Kfile> {
        self.queue@
    }
}

impl NativeWorker {
    pub fn new() -> (r: NativeWorker)
        ensures
            r@ == Seq::<Kfile>::empty(),
    {
        NativeWorker { queue: PlayQueue::new() }
    }

    pub fn queue(&self) -> (r: &PlayQueue)
        ensures
            r@ == self@,
    {
        &self.queue
    }

    /// Handles one command; `live_pending` tells whether a stop pulse is
    /// still waiting in the live channel.
    pub fn process_cmd(&mut self, cmd: WorkerCommand, live_pending: bool) -> (r: NativeEffects)
        ensures
            final(self)@ == native_queue_after(old(self)@, cmd),
            r.live == native_live(old(self)@, cmd, live_pending),
            r.play == native_play(cmd),
    {
        match cmd {
            WorkerCommand::Stop => NativeEffects { live: self.stop(live_pending), play: None },
            WorkerCommand::Next => NativeEffects { live: self.next(), play: None },
            WorkerCommand::PlayNow { kfile } => self.play_now(kfile),
            WorkerCommand::ClearQueue => {
                self.clear_queue();
                NativeEffects { live: None, play: None }
            },
            WorkerCommand::AddQueue { kfile } => {
                self.add_queue(kfile);
                NativeEffects { live: None, play: None }
            },
        }
    }

    /// Empties the queue; a stop pulse is emitted only when none is pending.
    pub fn stop(&mut self, live_pending: bool) -> (r: Option<LiveCommand>)
        ensures
            final(self)@ == Seq::<Kfile>::empty(),
            r == (if live_pending {
                None
            } else {
                Some(LiveCommand::Stop)
            }),
    {
        self.clear_queue();
        if live_pending {
            None
        } else {
            Some(LiveCommand::Stop)
        }
    }

    /// Leaves the queue alone; a stop pulse tells the controller to load the
    /// next head, when there is one.
    pub fn next(&self) -> (r: Option<LiveCommand>)
        ensures
            r == (if self@.len() > 0 {
                Some(LiveCommand::Stop)
            } else {
                None
            }),
    {
        if self.queue.is_empty() {
            None
        } else {
            Some(LiveCommand::Stop)
        }
    }

    /// Interrupts playback with `kfile`, outside the queue's order.
    pub fn play_now(&self, kfile: Kfile) -> (r: NativeEffects)
        ensures
            r.live == Some(LiveCommand::Stop),
            r.play == Some(PlayerCommand::Play { kfile }),
    {
        NativeEffects { live: Some(LiveCommand::Stop), play: Some(PlayerCommand::Play { kfile }) }
    }

    pub fn clear_queue(&mut self)
        ensures
            final(self)@ == Seq::<Kfile>::empty(),
    {
        self.queue.clear();
    }

    pub fn add_queue(&mut self, kfile: Kfile)
        ensures
            final(self)@ == old(self)@.push(kfile),
    {
        self.queue.push(kfile);
    }
}

/// Whether `s` is an interleaving of `a` and `b`: every item of `s` is
/// taken from the front of one of them, until both are used up.
pub open spec fn interleaving(s: Seq<Kfile>, a: Seq<Kfile>, b: Seq<Kfile>) -> bool
    decreases s.len(),
{
    if s.len() == 0 {
        a.len() == 0 && b.len() == 0
    } else {
        (a.len() > 0 && s[0] == a[0] && interleaving(s.drop_first(), a.drop_first(), b)) || (b.len()
            > 0 && s[0] == b[0] && interleaving(s.drop_first(), a, b.drop_first()))
    }
}

/// Adding tracks one command at a time leaves them at the tail in the order
/// they were submitted, in either mode.
pub proof fn lemma_add_queue_fifo(q: Seq<Kfile>, tracks: Seq<Kfile>)
    ensures
        web_run(q, add_commands(tracks)) == q + tracks,
        native_run(q, add_commands(tracks)) == q + tracks,
    decreases tracks.len(),
{
    if tracks.len() == 0 {
        assert(q + tracks =~= q);
    } else {
        let cmds = add_commands(tracks);
        assert(cmds.drop_first() =~= add_commands(tracks.drop_first()));
        lemma_add_queue_fifo(q.push(tracks[0]), tracks.drop_first());
        assert(q.push(tracks[0]) + tracks.drop_first() =~= q + tracks);
    }
}

/// Stopping empties the queue and always attempts one stop pulse; a second
/// stop finds the same state and does the same, so nothing accumulates.
pub proof fn lemma_stop_idempotent(q: Seq<Kfile>)
    ensures
        web_queue_after(q, WorkerCommand::Stop) == Seq::<Kfile>::empty(),
        web_event(q, WorkerCommand::Stop) == Some(LiveCommand::Stop),
        web_queue_after(web_queue_after(q, WorkerCommand::Stop), WorkerCommand::Stop)
            == web_queue_after(q, WorkerCommand::Stop),
        web_event(web_queue_after(q, WorkerCommand::Stop), WorkerCommand::Stop) == web_event(
            q,
            WorkerCommand::Stop,
        ),
{
}

/// Clearing empties the queue in either mode and never emits a stop pulse.
pub proof fn lemma_clear_queue(q: Seq<Kfile>, live_pending: bool)
    ensures
        web_queue_after(q, WorkerCommand::ClearQueue) == Seq::<Kfile>::empty(),
        web_event(q, WorkerCommand::ClearQueue).is_none(),
        native_queue_after(q, WorkerCommand::ClearQueue) == Seq::<Kfile>::empty(),
        native_live(q, WorkerCommand::ClearQueue, live_pending).is_none(),
        native_play(WorkerCommand::ClearQueue).is_none(),
{
}

/// Tracks added concurrently by two producers reach the worker in some
/// interleaving of their submissions; the queue then holds exactly that
/// interleaving: each producer's order is kept, and every submitted track is
/// there once.
pub proof fn lemma_concurrent_adds(p1: Seq<Kfile>, p2: Seq<Kfile>, delivered: Seq<Kfile>)
    requires
        interleaving(delivered, p1, p2),
    ensures
        web_run(Seq::empty(), add_commands(delivered)) == delivered,
        interleaving(web_run(Seq::empty(), add_commands(delivered)), p1, p2),
        delivered.to_multiset() == p1.to_multiset().add(p2.to_multiset()),
{
    lemma_add_queue_fifo(Seq::empty(), delivered);
    assert(Seq::<Kfile>::empty() + delivered =~= delivered);
    lemma_interleaving_multiset(delivered, p1, p2);
}

proof fn lemma_interleaving_multiset(s: Seq<Kfile>, a: Seq<Kfile>, b: Seq<Kfile>)
    requires
        interleaving(s, a, b),
    ensures
        s.to_multiset() == a.to_multiset().add(b.to_multiset()),
    decreases s.len(),
{
    broadcast use vstd::seq_lib::group_to_multiset_ensures, vstd::multiset::group_multiset_axioms;

    if s.len() == 0 {
        assert(a =~= Seq::<Kfile>::empty());
        assert(b =~= Seq::<Kfile>::empty());
        assert(a.to_multiset().add(b.to_multiset()) =~= Multiset::empty());
    } else {
        assert(s =~= seq![s[0]] + s.drop_first());
        if a.len() > 0 && s[0] == a[0] && interleaving(s.drop_first(), a.drop_first(), b) {
            lemma_interleaving_multiset(s.drop_first(), a.drop_first(), b);
            lemma_drop_first_multiset(s);
            lemma_drop_first_multiset(a);
            assert(s.to_multiset() =~= a.to_multiset().add(b.to_multiset()));
        } else {
            lemma_interleaving_multiset(s.drop_first(), a, b.drop_first());
            lemma_drop_first_multiset(s);
            lemma_drop_first_multiset(b);
            assert(s.to_multiset() =~= a.to_multiset().add(b.to_multiset()));
        }
    }
}

proof fn lemma_drop_first_multiset(s: Seq<Kfile>)
    requires
        s.len() > 0,
    ensures
        s.to_multiset() == s.drop_first().to_multiset().insert(s[0]),
{
    broadcast use vstd::seq_lib::group_to_multiset_ensures, vstd::multiset::group_multiset_axioms;

    assert(s.remove(0) =~= s.drop_first());
    assert(s.contains(s[0]));
    assert(s.to_multiset() =~= s.drop_first().to_multiset().insert(s[0]));
}

} // verus!
