//! The caller-facing side of a supervised run: the cloneable task-sending
//! endpoint, and the bounded buffer that retains the newest events until
//! the caller drains them.

use crate::channel::{channel_send, channel_try_recv};
use crate::events::MinecraftServerEvent;
use crate::tasks::{MinecraftServerTask, MinecraftServerTaskCallback, TaskOutcome};
use std::collections::VecDeque;
use vstd::prelude::*;

verus! {

/// What rides the supervisor's task queue: the task and the sending end of
/// its reply stream.
pub type TaskSubmission = (MinecraftServerTask, std::sync::mpsc::Sender<TaskOutcome>);

/// A cloneable endpoint through which any thread may submit tasks to the
/// supervisor.
#[derive(Clone)]
pub struct MinecraftServerTaskSender(pub std::sync::mpsc::Sender<TaskSubmission>);

impl MinecraftServerTaskSender {
    /// Submits one task: pairs it with a fresh, single-use reply channel
    /// and enqueues it. Never blocks on the task's execution. The result
    /// is the reply stream's receiving end, or an error when the
    /// supervisor's receiving end is gone (the run has ended).
    pub fn send_task(&self, task: MinecraftServerTask) -> Result<MinecraftServerTaskCallback, ()> {
        let (sendable, callback) = task.generate_callback();
        if channel_send(&self.0, sendable) {
            Ok(callback)
        } else {
            Err(())
        }
    }
}

/// The mathematical value of the event buffer: what it retains, how much
/// of that the caller has not seen, and its fixed capacity.
pub ghost struct BufferModel {
    pub events: Seq<MinecraftServerEvent>,
    pub unseen: nat,
    pub capacity: nat,
}

/// A well-formed buffer value: at least one slot, never over capacity, and
/// the unseen count never exceeds what is retained.
pub open spec fn buffer_model_wf(m: BufferModel) -> bool {
    m.capacity >= 1 && m.events.len() <= m.capacity && m.unseen <= m.events.len()
}

/// The newest `cap` entries of `h`, or all of `h` when it is shorter.
pub open spec fn recent_of(h: Seq<MinecraftServerEvent>, cap: nat) -> Seq<MinecraftServerEvent> {
    if h.len() <= cap {
        h
    } else {
        h.skip(h.len() - cap)
    }
}

/// One recording: append, evicting the oldest entry first when full, and
/// raise the unseen count, capped at what is retained.
pub open spec fn record_model(m: BufferModel, e: MinecraftServerEvent) -> BufferModel {
    let events = if m.events.len() >= m.capacity {
        m.events.skip(1).push(e)
    } else {
        m.events.push(e)
    };
    let unseen = if m.unseen + 1 <= events.len() {
        m.unseen + 1
    } else {
        events.len()
    };
    BufferModel { events, unseen: unseen as nat, capacity: m.capacity }
}

/// `es` recorded one after the other, oldest first.
pub open spec fn record_all(m: BufferModel, es: Seq<MinecraftServerEvent>) -> BufferModel
    decreases es.len(),
{
    if es.len() == 0 {
        m
    } else {
        record_model(record_all(m, es.drop_last()), es.last())
    }
}

/// What a drain hands out: the unseen suffix, oldest first.
pub open spec fn drain_result(m: BufferModel) -> Seq<MinecraftServerEvent> {
    m.events.skip(m.events.len() - m.unseen)
}

/// The buffer after a drain: everything retained, nothing unseen.
pub open spec fn drain_model(m: BufferModel) -> BufferModel {
    BufferModel { events: m.events, unseen: 0, capacity: m.capacity }
}

/// The bounded event buffer fed by the supervisor's event channel: a ring
/// of fixed capacity retaining the newest events, with a count of how many
/// the caller has not yet seen.
pub struct ThreadData {
    mpsc: std::sync::mpsc::Receiver<MinecraftServerEvent>,
    buffer: VecDeque<MinecraftServerEvent>,
    unhandeled: usize,
    capacity: usize,
    history: Ghost<Seq<MinecraftServerEvent>>,
}

impl ThreadData {
    /// The buffer's mathematical value.
    pub closed spec fn model(self) -> BufferModel {
        BufferModel {
            events: self.buffer@,
            unseen: self.unhandeled as nat,
            capacity: self.capacity as nat,
        }
    }

    /// Every event ever recorded into this buffer, oldest first.
    pub closed spec fn history(self) -> Seq<MinecraftServerEvent> {
        self.history@
    }

    /// The buffer is well formed and retains exactly the newest events of
    /// its history.
    pub closed spec fn wf(self) -> bool {
        buffer_model_wf(self.model()) && self.buffer@ == recent_of(
            self.history@,
            self.capacity as nat,
        )
    }

    /// An empty buffer of the given capacity, fed from `mpsc_receiver`.
    pub fn new(
        mpsc_receiver: std::sync::mpsc::Receiver<MinecraftServerEvent>,
        capacity: usize,
    ) -> (r: Self)
        requires
            capacity >= 1,
        ensures
            r.wf(),
            r.model() == (BufferModel {
                events: Seq::<MinecraftServerEvent>::empty(),
                unseen: 0,
                capacity: capacity as nat,
            }),
            r.history() == Seq::<MinecraftServerEvent>::empty(),
    {
        Self {
            mpsc: mpsc_receiver,
            buffer: VecDeque::with_capacity(capacity),
            unhandeled: 0,
            capacity,
            history: Ghost(Seq::empty()),
        }
    }

    /// Appends one event, evicting the oldest entry when the buffer is
    /// full, and counts it as unseen (the count never exceeds what is
    /// retained).
    pub fn record(&mut self, e: MinecraftServerEvent)
        requires
            old(self).wf(),
        ensures
            final(self).wf(),
            final(self).model() == record_model(old(self).model(), e),
            final(self).history() == old(self).history().push(e),
    {
        proof {
            let h = self.history@;
            let cap = self.capacity as nat;
            if self.buffer@.len() >= cap {
                assert(h.len() >= cap);
                assert(recent_of(h, cap).skip(1).push(e) =~= recent_of(h.push(e), cap));
            } else {
                assert(h.len() < cap);
                assert(recent_of(h, cap).push(e) =~= recent_of(h.push(e), cap));
            }
        }
        if self.buffer.len() == self.capacity {
            self.buffer.pop_front();
        }
        self.buffer.push_back(e);
        if self.unhandeled < self.buffer.len() {
            self.unhandeled = self.unhandeled + 1;
        }
        self.history = Ghost(self.history@.push(e));
    }

    /// Moves the events waiting in the channel into the buffer and says
    /// how many arrived. What arrives depends on the sending thread, so
    /// the contract holds for some sequence of received events.
    pub fn update(&mut self) -> (r: usize)
        requires
            old(self).wf(),
        ensures
            final(self).wf(),
            exists|es: Seq<MinecraftServerEvent>|
                {
                    &&& final(self).model() == record_all(old(self).model(), es)
                    &&& final(self).history() == old(self).history() + es
                    &&& r as nat == es.len()
                },
    {
        let ghost m0 = self.model();
        let ghost h0 = self.history@;
        let ghost mut es: Seq<MinecraftServerEvent> = Seq::empty();
        let mut n: usize = 0;
        let mut fuel: usize = usize::MAX;
        proof {
            assert(h0 + es =~= h0);
        }
        while fuel > 0
            invariant
                self.wf(),
                self.model() == record_all(m0, es),
                self.history@ == h0 + es,
                n as nat == es.len(),
                n <= usize::MAX - fuel,
            decreases fuel,
        {
            match channel_try_recv(&self.mpsc) {
                Some(e) => {
                    proof {
                        assert(es.push(e).drop_last() =~= es);
                    }
                    self.record(e);
                    n = n + 1;
                    fuel = fuel - 1;
                    proof {
                        es = es.push(e);
                        assert(self.history@ =~= h0 + es);
                    }
                },
                None => {
                    break ;
                },
            }
        }
        n
    }

    /// Hands out the unseen events, oldest first, and marks everything
    /// seen. The buffer keeps all retained events; a second call with no
    /// recording in between returns nothing.
    pub fn handle_all(&mut self) -> (r: Vec<MinecraftServerEvent>)
        requires
            old(self).wf(),
        ensures
            final(self).wf(),
            r@ == drain_result(old(self).model()),
            final(self).model() == drain_model(old(self).model()),
            final(self).history() == old(self).history(),
    {
        let ghost m0 = self.model();
        let len = self.buffer.len();
        let start = len - self.unhandeled;
        let mut out: Vec<MinecraftServerEvent> = Vec::new();
        let mut i: usize = start;
        while i < len
            invariant
                len == self.buffer@.len(),
                start == len - self.unhandeled,
                self.unhandeled <= len,
                start <= i <= len,
                out@ =~= self.buffer@.subrange(start as int, i as int),
            decreases len - i,
        {
            let e = self.buffer[i].duplicate();
            out.push(e);
            i = i + 1;
        }
        self.unhandeled = 0;
        proof {
            assert(out@ =~= drain_result(m0));
        }
        out
    }
}

/// After any run of recordings into a fresh buffer, the buffer retains at
/// most its capacity of events, and they are exactly the newest recorded
/// ones: every kept event is newer than every evicted one.
pub proof fn lemma_record_all_keeps_newest(m: BufferModel, es: Seq<MinecraftServerEvent>)
    requires
        buffer_model_wf(m),
        m.events == recent_of(Seq::<MinecraftServerEvent>::empty(), m.capacity),
    ensures
        record_all(m, es).events == recent_of(es, m.capacity),
        record_all(m, es).events.len() <= m.capacity,
        buffer_model_wf(record_all(m, es)),
    decreases es.len(),
{
    lemma_record_all_recent(m, Seq::empty(), es);
    assert(Seq::<MinecraftServerEvent>::empty() + es =~= es);
}

/// Recording extends the retained window over the combined history.
proof fn lemma_record_all_recent(
    m: BufferModel,
    h: Seq<MinecraftServerEvent>,
    es: Seq<MinecraftServerEvent>,
)
    requires
        buffer_model_wf(m),
        m.events == recent_of(h, m.capacity),
    ensures
        record_all(m, es).events == recent_of(h + es, m.capacity),
        record_all(m, es).capacity == m.capacity,
        buffer_model_wf(record_all(m, es)),
    decreases es.len(),
{
    if es.len() == 0 {
        assert(h + es =~= h);
    } else {
        lemma_record_all_recent(m, h, es.drop_last());
        let prev = record_all(m, es.drop_last());
        let cap = m.capacity;
        let h2 = h + es.drop_last();
        let e = es.last();
        let stepped = record_model(prev, e);
        assert(record_all(m, es) == stepped);
        assert(prev.events == recent_of(h2, cap));
        if prev.events.len() >= cap {
            assert(h2.len() >= cap);
            assert(stepped.events == recent_of(h2, cap).skip(1).push(e));
            assert(stepped.events =~= recent_of(h2.push(e), cap));
        } else {
            assert(h2.len() < cap);
            assert(stepped.events == recent_of(h2, cap).push(e));
            assert(stepped.events =~= recent_of(h2.push(e), cap));
        }
        assert(h2.push(e) =~= h + es);
        assert(stepped.events == recent_of(h + es, cap));
    }
}

/// A drain right after a drain hands out nothing: the unseen suffix is
/// empty the second time.
pub proof fn lemma_drain_twice(m: BufferModel)
    requires
        buffer_model_wf(m),
    ensures
        drain_result(drain_model(m)) =~= Seq::<MinecraftServerEvent>::empty(),
{
}

} // verus!
