use vstd::prelude::*;
use crate::track::Kfile;

verus! {

/// The ordered list of tracks waiting to play. Index 0, when present, is the
/// track playing now or next.
pub struct PlayQueue {
    items: Vec<Kfile>,
}

impl View for PlayQueue {
    type V = Seq<Kfile>;

    closed spec fn view(&self) -> Seq<Kfile> {
        self.items@
    }
}

/// The queue after "play now": the head, if any, is dropped and `k` takes
/// its place.
pub open spec fn replace_head(q: Seq<Kfile>, k: Kfile) -> Seq<Kfile> {
    if q.len() == 0 {
        seq![k]
    } else {
        seq![k] + q.drop_first()
    }
}

/// The queue with its head removed, or unchanged when it is empty.
pub open spec fn without_head(q: Seq<Kfile>) -> Seq<Kfile> {
    if q.len() == 0 {
        q
    } else {
        q.drop_first()
    }
}

impl PlayQueue {
    pub fn new() -> (r: PlayQueue)
        ensures
            r@ == Seq::<Kfile>::empty(),
    {
        PlayQueue { items: Vec::new() }
    }

    pub fn len(&self) -> (r: usize)
        ensures
            r == self@.len(),
    {
        self.items.len()
    }

    pub fn is_empty(&self) -> (r: bool)
        ensures
            r == (self@.len() == 0),
    {
        self.items.len() == 0
    }

    /// The head of the queue, if there is one.
    pub fn head(&self) -> (r: Option<&Kfile>)
        ensures
            self@.len() == 0 ==> r.is_none(),
            self@.len() > 0 ==> r == Some(&self@[0]),
    {
        if self.items.len() == 0 {
            None
        } else {
            Some(&self.items[0])
        }
    }

    /// Appends `k` at the tail.
    pub fn push(&mut self, k: Kfile)
        ensures
            final(self)@ == old(self)@.push(k),
    {
        self.items.push(k);
    }

    /// Drops the current head, if any, and puts `k` at index 0.
    pub fn insert_front(&mut self, k: Kfile)
        ensures
            final(self)@ == replace_head(old(self)@, k),
    {
        if self.items.len() > 0 {
            self.items.remove(0);
        }
        self.items.insert(0, k);
        proof {
            assert(self@ =~= replace_head(old(self)@, k));
        }
    }

    /// Removes index 0 when the queue is not empty.
    pub fn pop_front_if_present(&mut self) -> (r: Option<Kfile>)
        ensures
            final(self)@ == without_head(old(self)@),
            old(self)@.len() == 0 ==> r.is_none(),
            old(self)@.len() > 0 ==> r == Some(old(self)@[0]),
    {
        if self.items.len() == 0 {
            None
        } else {
            let k = self.items.remove(0);
            proof {
                assert(self@ =~= old(self)@.drop_first());
            }
            Some(k)
        }
    }

    /// Empties the queue.
    pub fn clear(&mut self)
        ensures
            final(self)@ == Seq::<Kfile>::empty(),
    {
        self.items.clear();
    }

    /// A copy of the whole sequence, for readers.
    pub fn snapshot(&self) -> (r: Vec<Kfile>)
        ensures
            r@ == self@,
    {
        let mut out: Vec<Kfile> = Vec::new();
        let mut i: usize = 0;
        while i < self.items.len()
            invariant
                i <= self.items@.len(),
                out@ == self.items@.subrange(0, i as int),
            decreases self.items@.len() - i,
        {
            out.push(self.items[i].clone());
            i = i + 1;
            proof {
                assert(out@ =~= self.items@.subrange(0, i as int));
            }
        }
        proof {
            assert(self.items@.subrange(0, self.items@.len() as int) =~= self.items@);
        }
        out
    }
}

} // verus!
