//! The state shared by the sending and receiving ends of a task channel.
//!
//! A channel holds a FIFO queue of tasks, the number of live senders, and one
//! slot per receiver.  A live receiver's slot records whether the channel has
//! changed since the receiver last acted on it.  Every change that a waiting
//! receiver must react to (a task pushed, a task taken, a sender gone, the
//! queue discarded) marks every live receiver as changed and advances a change
//! counter that the runtime uses to wake waiting receivers.
use std::collections::VecDeque;
use vstd::prelude::*;

verus! {

broadcast use vstd::std_specs::vecdeque::group_vec_dequeue_axioms;

/// Sending failed because no receiver is left.
#[derive(Debug, Clone, Copy, PartialEq, Eq, Structural)]
pub enum SendError {
    Disconnected,
}

/// Waiting for a task failed because no sender is left and the queue is empty.
#[derive(Debug, Clone, Copy, PartialEq, Eq, Structural)]
pub enum RecvError {
    Disconnected,
}

/// Taking a task without waiting failed.
#[derive(Debug, Clone, Copy, PartialEq, Eq, Structural)]
pub enum TryRecvError {
    /// No task is available now, but a sender is still alive.
    Empty,
    /// No sender is left.
    Disconnected,
}

/// The abstract state of a channel.
pub struct ChannelView<T> {
    pub queue: Seq<T>,
    pub sender_count: usize,
    /// One slot per receiver ever registered: `Some(changed)` while it is
    /// alive, `None` once it is gone.
    pub receivers: Seq<Option<bool>>,
    pub receiver_count: usize,
    pub version: u64,
}

/// What a receiver learns from one wake-up.
pub enum RecvPoll<T> {
    /// A task was taken, or the channel turned out to be disconnected.
    Ready(Result<T, RecvError>),
    /// Nothing for this receiver: it has to wait for the next change.
    Pending,
}

/// The number of live receivers among the slots.
pub open spec fn live_count(r: Seq<Option<bool>>) -> nat
    decreases r.len(),
{
    if r.len() == 0 {
        0
    } else {
        live_count(r.drop_last()) + (if r.last() is Some { 1nat } else { 0nat })
    }
}

/// A slot after a change: a live receiver is marked as changed.
pub open spec fn mark(o: Option<bool>) -> Option<bool> {
    if o is Some { Some(true) } else { None }
}

/// Every live receiver marked as changed.
pub open spec fn mark_all(r: Seq<Option<bool>>) -> Seq<Option<bool>> {
    r.map_values(|o: Option<bool>| mark(o))
}

/// The channel is well formed: the slots fit in memory, the receiver count is
/// the number of live slots, and a live receiver believes nothing changed only while the queue
/// is empty.
pub open spec fn wf_view<T>(s: ChannelView<T>) -> bool {
    &&& s.receivers.len() <= usize::MAX
    &&& s.receiver_count == live_count(s.receivers)
    &&& forall|i: int| 0 <= i < s.receivers.len() && #[trigger] s.receivers[i] == Some(false) ==> s.queue.len() == 0
}

/// Whether `id` names a live receiver.
pub open spec fn is_live<T>(s: ChannelView<T>, id: usize) -> bool {
    id < s.receivers.len() && s.receivers[id as int] is Some
}

/// Whether the channel changed since the receiver `id` last acted on it; an
/// identifier that names no live receiver counts as changed.
pub open spec fn changed_for<T>(s: ChannelView<T>, id: usize) -> bool {
    if is_live(s, id) { s.receivers[id as int]->0 } else { true }
}

/// The change counter after one more change.
pub open spec fn next_version(v: u64) -> u64 {
    vstd::wrapping::u64_specs::wrapping_add(v, 1)
}

/// A change: every live receiver is marked, and the counter advances when at
/// least one receiver can observe it.
pub open spec fn notified<T>(s: ChannelView<T>) -> ChannelView<T> {
    ChannelView {
        receivers: mark_all(s.receivers),
        version: if s.receiver_count == 0 { s.version } else { next_version(s.version) },
        ..s
    }
}

/// A fresh channel: one sender, one receiver (identifier 0) that has seen
/// everything, nothing queued.
pub open spec fn initial_channel<T>() -> ChannelView<T> {
    ChannelView { queue: Seq::empty(), sender_count: 1, receivers: seq![Some(false)], receiver_count: 1, version: 0 }
}

/// Sending a task: queued at the back when a receiver exists, refused otherwise.
pub open spec fn send_spec<T>(s: ChannelView<T>, task: T) -> (ChannelView<T>, Result<(), SendError>) {
    if s.receiver_count != 0 {
        (notified(ChannelView { queue: s.queue.push(task), ..s }), Ok(()))
    } else {
        (s, Err(SendError::Disconnected))
    }
}

/// Taking the task at the front of the queue without waiting.
pub open spec fn try_pop_spec<T>(s: ChannelView<T>) -> (ChannelView<T>, Result<T, TryRecvError>) {
    if s.queue.len() > 0 {
        (notified(ChannelView { queue: s.queue.drop_first(), ..s }), Ok(s.queue[0]))
    } else if s.sender_count == 0 {
        (s, Err(TryRecvError::Disconnected))
    } else {
        (s, Err(TryRecvError::Empty))
    }
}

/// Taking a task without waiting, for the receiver `id`: the queue is looked
/// at only when something changed since the receiver last acted.
pub open spec fn try_recv_spec<T>(s: ChannelView<T>, id: usize) -> (ChannelView<T>, Result<T, TryRecvError>) {
    if changed_for(s, id) {
        try_pop_spec(s)
    } else if s.sender_count == 0 {
        (s, Err(TryRecvError::Disconnected))
    } else {
        (s, Err(TryRecvError::Empty))
    }
}

/// The receiver `id` acknowledges every change so far.
pub open spec fn acknowledged<T>(s: ChannelView<T>, id: usize) -> ChannelView<T> {
    if is_live(s, id) {
        ChannelView { receivers: s.receivers.update(id as int, Some(false)), ..s }
    } else {
        s
    }
}

/// One wake-up of the waiting receiver `id`: when something changed, the
/// receiver acknowledges it and tries the queue.
pub open spec fn recv_poll_spec<T>(s: ChannelView<T>, id: usize) -> (ChannelView<T>, RecvPoll<T>) {
    if !changed_for(s, id) {
        (s, RecvPoll::Pending)
    } else {
        let (s2, r) = try_pop_spec(acknowledged(s, id));
        match r {
            Ok(task) => (s2, RecvPoll::Ready(Ok(task))),
            Err(TryRecvError::Disconnected) => (s2, RecvPoll::Ready(Err(RecvError::Disconnected))),
            Err(TryRecvError::Empty) => (s2, RecvPoll::Pending),
        }
    }
}

/// A sender handle was duplicated.
pub open spec fn add_sender_spec<T>(s: ChannelView<T>) -> ChannelView<T> {
    ChannelView { sender_count: vstd::wrapping::usize_specs::wrapping_add(s.sender_count, 1), ..s }
}

/// A sender handle went away; waiting receivers are told.
pub open spec fn remove_sender_spec<T>(s: ChannelView<T>) -> ChannelView<T> {
    notified(ChannelView { sender_count: vstd::wrapping::usize_specs::wrapping_sub(s.sender_count, 1), ..s })
}

/// The first free slot: the lowest slot of a receiver that is gone, or the
/// next new slot when every slot is in use.
pub open spec fn first_free(r: Seq<Option<bool>>) -> int
    decreases r.len(),
{
    if r.len() == 0 {
        0
    } else {
        let f = first_free(r.drop_last());
        if f < r.len() - 1 {
            f
        } else if r.last() is None {
            r.len() - 1
        } else {
            r.len() as int
        }
    }
}

/// The receiver `from` was duplicated: the new receiver takes the first free
/// slot, with the same view of what changed as `from`.
pub open spec fn add_receiver_spec<T>(s: ChannelView<T>, from: usize) -> (ChannelView<T>, usize) {
    let f = first_free(s.receivers);
    let slot = Some(changed_for(s, from));
    (
        ChannelView {
            receivers: if f < s.receivers.len() { s.receivers.update(f, slot) } else { s.receivers.push(slot) },
            receiver_count: (s.receiver_count + 1) as usize,
            ..s
        },
        f as usize,
    )
}

/// The receiver `id` went away; the last one discards the queued tasks.
pub open spec fn remove_receiver_spec<T>(s: ChannelView<T>, id: usize) -> ChannelView<T> {
    if !is_live(s, id) {
        s
    } else {
        let s1 = if s.receiver_count == 1 && s.queue.len() > 0 {
            notified(ChannelView { queue: Seq::empty(), ..s })
        } else {
            s
        };
        ChannelView {
            receivers: s1.receivers.update(id as int, None),
            receiver_count: (s1.receiver_count - 1) as usize,
            ..s1
        }
    }
}

/// The shared state of a task channel.
pub struct ChannelCore<T> {
    queue: VecDeque<T>,
    sender_count: usize,
    receivers: Vec<Option<bool>>,
    receiver_count: usize,
    version: u64,
}

/// Identifies one receiver of a channel.
pub struct ReceiverId {
    slot: usize,
}

impl View for ReceiverId {
    type V = usize;

    closed spec fn view(&self) -> usize {
        self.slot
    }
}

impl<T> View for ChannelCore<T> {
    type V = ChannelView<T>;

    closed spec fn view(&self) -> ChannelView<T> {
        ChannelView {
            queue: self.queue@,
            sender_count: self.sender_count,
            receivers: self.receivers@,
            receiver_count: self.receiver_count,
            version: self.version,
        }
    }
}

/// Marks every live receiver as changed and advances the counter when a
/// receiver is alive.
fn notify_parts(receivers: &mut Vec<Option<bool>>, receiver_count: usize, version: &mut u64)
    ensures
        final(receivers)@ == mark_all(old(receivers)@),
        *final(version) == (if receiver_count == 0 { *old(version) } else { next_version(*old(version)) }),
{
    if receiver_count != 0 {
        *version = version.wrapping_add(1);
    }
    let ghost before = receivers@;
    let mut i: usize = 0;
    while i < receivers.len()
        invariant
            i <= receivers@.len(),
            receivers@.len() == before.len(),
            forall|j: int| 0 <= j < i ==> #[trigger] receivers@[j] == mark(before[j]),
            forall|j: int| i <= j < before.len() ==> #[trigger] receivers@[j] == before[j],
        decreases before.len() - i,
    {
        if receivers[i].is_some() {
            receivers.set(i, Some(true));
        }
        i = i + 1;
    }
    assert(receivers@ =~= mark_all(before));
}

impl<T> ChannelCore<T> {
    #[verifier::type_invariant]
    spec fn well_formed(self) -> bool {
        wf_view(self@)
    }

    /// Creates a channel with one sender and one receiver; the receiver's
    /// identifier is returned beside it.
    pub fn new() -> (res: (ChannelCore<T>, ReceiverId))
        ensures
            res.0@ == initial_channel::<T>(),
            res.1@ == 0,
    {
        let mut receivers: Vec<Option<bool>> = Vec::new();
        receivers.push(Some(false));
        proof {
            lemma_initial_wf::<T>();
            assert(receivers@ =~= seq![Some(false)]);
        }
        (
            ChannelCore { queue: VecDeque::new(), sender_count: 1, receivers, receiver_count: 1, version: 0 },
            ReceiverId { slot: 0 },
        )
    }

    /// The number of live senders.
    pub fn sender_count(&self) -> (n: usize)
        ensures
            n == self@.sender_count,
            wf_view(self@),
    {
        proof { use_type_invariant(self); }
        self.sender_count
    }

    /// The number of live receivers.
    pub fn receiver_count(&self) -> (n: usize)
        ensures
            n == self@.receiver_count,
            wf_view(self@),
    {
        proof { use_type_invariant(self); }
        self.receiver_count
    }

    /// The change counter.
    pub fn version(&self) -> (v: u64)
        ensures
            v == self@.version,
            wf_view(self@),
    {
        proof { use_type_invariant(self); }
        self.version
    }

    /// The number of queued tasks.
    pub fn len(&self) -> (n: usize)
        ensures
            n == self@.queue.len(),
            wf_view(self@),
    {
        proof { use_type_invariant(self); }
        self.queue.len()
    }

    /// Whether `id` names a live receiver of this channel.
    pub fn is_live(&self, id: &ReceiverId) -> (r: bool)
        ensures
            r == is_live(self@, id@),
            wf_view(self@),
    {
        proof { use_type_invariant(self); }
        id.slot < self.receivers.len() && self.receivers[id.slot].is_some()
    }

    fn changed_for(&self, id: &ReceiverId) -> (r: bool)
        ensures
            r == changed_for(self@, id@),
    {
        if id.slot < self.receivers.len() {
            match self.receivers[id.slot] {
                Some(changed) => changed,
                None => true,
            }
        } else {
            true
        }
    }

    fn vacant() -> (c: ChannelCore<T>) {
        proof {
            assert(live_count(Seq::<Option<bool>>::empty()) == 0);
        }
        ChannelCore { queue: VecDeque::new(), sender_count: 0, receivers: Vec::new(), receiver_count: 0, version: 0 }
    }

    /// Queues `task` behind every task already queued, or refuses it when no
    /// receiver is left (the task is then dropped).
    pub fn send(&mut self, task: T) -> (r: Result<(), SendError>)
        ensures
            wf_view(old(self)@),
            wf_view(final(self)@),
            (final(self)@, r) == send_spec(old(self)@, task),
    {
        proof { use_type_invariant(&*self); }
        if self.receiver_count == 0 {
            return Err(SendError::Disconnected);
        }
        let mut core = Self::vacant();
        std::mem::swap(&mut core, self);
        proof {
            use_type_invariant(&core);
            lemma_operations_preserve_wf(core@, 0, task);
        }
        let ChannelCore { mut queue, sender_count, mut receivers, receiver_count, mut version } = core;
        queue.push_back(task);
        notify_parts(&mut receivers, receiver_count, &mut version);
        *self = ChannelCore { queue, sender_count, receivers, receiver_count, version };
        Ok(())
    }

    /// Takes the task at the front of the queue.  With an empty queue, reports
    /// `Disconnected` when no sender is left and `Empty` otherwise.
    pub fn try_pop(&mut self) -> (r: Result<T, TryRecvError>)
        ensures
            wf_view(old(self)@),
            wf_view(final(self)@),
            (final(self)@, r) == try_pop_spec(old(self)@),
    {
        proof { use_type_invariant(&*self); }
        if self.queue.len() == 0 {
            if self.sender_count == 0 {
                return Err(TryRecvError::Disconnected);
            } else {
                return Err(TryRecvError::Empty);
            }
        }
        let mut core = Self::vacant();
        std::mem::swap(&mut core, self);
        proof {
            use_type_invariant(&core);
            lemma_operations_preserve_wf(core@, 0, core@.queue[0]);
        }
        let ChannelCore { mut queue, sender_count, mut receivers, receiver_count, mut version } = core;
        let front = queue.pop_front();
        notify_parts(&mut receivers, receiver_count, &mut version);
        *self = ChannelCore { queue, sender_count, receivers, receiver_count, version };
        match front {
            Some(task) => Ok(task),
            None => Err(TryRecvError::Empty),
        }
    }

    /// Takes a task without waiting, for the receiver `id`: the queue is tried
    /// only when the channel changed since the receiver last acted on it.
    pub fn try_recv(&mut self, id: &ReceiverId) -> (r: Result<T, TryRecvError>)
        ensures
            wf_view(old(self)@),
            wf_view(final(self)@),
            (final(self)@, r) == try_recv_spec(old(self)@, id@),
    {
        proof { use_type_invariant(&*self); }
        if self.changed_for(id) {
            self.try_pop()
        } else if self.sender_count == 0 {
            Err(TryRecvError::Disconnected)
        } else {
            Err(TryRecvError::Empty)
        }
    }

    /// Handles one wake-up of the receiver `id`.
    pub fn recv_poll(&mut self, id: &ReceiverId) -> (r: RecvPoll<T>)
        ensures
            wf_view(old(self)@),
            wf_view(final(self)@),
            (final(self)@, r) == recv_poll_spec(old(self)@, id@),
    {
        proof { use_type_invariant(&*self); }
        if !self.changed_for(id) {
            return RecvPoll::Pending;
        }
        let mut core = Self::vacant();
        std::mem::swap(&mut core, self);
        proof {
            use_type_invariant(&core);
            lemma_operations_preserve_wf(core@, id@, core@.queue[0]);
        }
        let ghost start = core@;
        let ChannelCore { mut queue, sender_count, mut receivers, receiver_count, mut version } = core;
        if id.slot < receivers.len() && receivers[id.slot].is_some() {
            receivers.set(id.slot, Some(false));
        }
        assert(receivers@ == acknowledged(start, id@).receivers);
        let front = queue.pop_front();
        match front {
            Some(task) => {
                notify_parts(&mut receivers, receiver_count, &mut version);
                *self = ChannelCore { queue, sender_count, receivers, receiver_count, version };
                RecvPoll::Ready(Ok(task))
            },
            None => {
                *self = ChannelCore { queue, sender_count, receivers, receiver_count, version };
                if sender_count == 0 {
                    RecvPoll::Ready(Err(RecvError::Disconnected))
                } else {
                    RecvPoll::Pending
                }
            },
        }
    }

    /// Registers one more sender.
    pub fn add_sender(&mut self)
        ensures
            wf_view(old(self)@),
            wf_view(final(self)@),
            final(self)@ == add_sender_spec(old(self)@),
    {
        proof { use_type_invariant(&*self); }
        self.sender_count = self.sender_count.wrapping_add(1);
    }

    /// Unregisters a sender and wakes the receivers.
    pub fn remove_sender(&mut self)
        ensures
            wf_view(old(self)@),
            wf_view(final(self)@),
            final(self)@ == remove_sender_spec(old(self)@),
    {
        proof { use_type_invariant(&*self); }
        let mut core = Self::vacant();
        std::mem::swap(&mut core, self);
        proof {
            use_type_invariant(&core);
            lemma_operations_preserve_wf(core@, 0, arbitrary());
        }
        let ChannelCore { queue, sender_count, mut receivers, receiver_count, mut version } = core;
        notify_parts(&mut receivers, receiver_count, &mut version);
        *self = ChannelCore { queue, sender_count: sender_count.wrapping_sub(1), receivers, receiver_count, version };
    }

    /// Registers one more receiver, which starts with the same view of what
    /// changed as the receiver `from`; it takes the first free slot.
    pub fn add_receiver(&mut self, from: &ReceiverId) -> (id: ReceiverId)
        ensures
            wf_view(old(self)@),
            wf_view(final(self)@),
            (final(self)@, id@) == add_receiver_spec(old(self)@, from@),
    {
        proof { use_type_invariant(&*self); }
        let changed = self.changed_for(from);
        let mut core = Self::vacant();
        std::mem::swap(&mut core, self);
        proof { use_type_invariant(&core); }
        let ghost start = core@;
        let ChannelCore { queue, sender_count, mut receivers, receiver_count, version } = core;
        let mut slot: usize = 0;
        while slot < receivers.len() && receivers[slot].is_some()
            invariant
                slot <= receivers@.len(),
                receivers@ == start.receivers,
                forall|j: int| 0 <= j < slot ==> #[trigger] receivers@[j] is Some,
            decreases receivers@.len() - slot,
        {
            slot = slot + 1;
        }
        proof {
            lemma_first_free_is(start.receivers, slot as int);
            lemma_live_count_bound(start.receivers);
        }
        if slot < receivers.len() {
            proof { lemma_live_count_update(start.receivers, slot as int, Some(changed)); }
            receivers.set(slot, Some(changed));
        } else {
            receivers.push(Some(changed));
            let _ = receivers.len();
        }
        proof {
            lemma_operations_preserve_wf(start, from@, arbitrary());
        }
        *self = ChannelCore { queue, sender_count, receivers, receiver_count: receiver_count + 1, version };
        ReceiverId { slot }
    }

    /// Unregisters the receiver `id`.  When it is the last one, the queued
    /// tasks are discarded.  An identifier of no live receiver changes nothing.
    pub fn remove_receiver(&mut self, id: &ReceiverId)
        ensures
            wf_view(old(self)@),
            wf_view(final(self)@),
            final(self)@ == remove_receiver_spec(old(self)@, id@),
    {
        proof { use_type_invariant(&*self); }
        if !self.is_live(id) {
            return;
        }
        let mut core = Self::vacant();
        std::mem::swap(&mut core, self);
        proof {
            use_type_invariant(&core);
            lemma_operations_preserve_wf(core@, id@, arbitrary());
            lemma_live_count_update(core@.receivers, id@ as int, None);
        }
        let ChannelCore { mut queue, sender_count, mut receivers, receiver_count, mut version } = core;
        if receiver_count == 1 && queue.len() != 0 {
            queue.clear();
            notify_parts(&mut receivers, receiver_count, &mut version);
        }
        receivers.set(id.slot, None);
        *self = ChannelCore { queue, sender_count, receivers, receiver_count: receiver_count - 1, version };
    }
}

proof fn lemma_first_free(r: Seq<Option<bool>>)
    ensures
        0 <= first_free(r) <= r.len(),
        forall|j: int| 0 <= j < first_free(r) ==> #[trigger] r[j] is Some,
        first_free(r) < r.len() ==> r[first_free(r)] is None,
    decreases r.len(),
{
    if r.len() > 0 {
        lemma_first_free(r.drop_last());
        assert forall|j: int| 0 <= j < first_free(r) implies #[trigger] r[j] is Some by {
            if j < r.len() - 1 {
                assert(r[j] == r.drop_last()[j]);
            }
        }
        if first_free(r.drop_last()) < r.len() - 1 {
            assert(r[first_free(r)] == r.drop_last()[first_free(r)]);
        }
    }
}

proof fn lemma_first_free_is(r: Seq<Option<bool>>, i: int)
    requires
        0 <= i <= r.len(),
        forall|j: int| 0 <= j < i ==> #[trigger] r[j] is Some,
        i < r.len() ==> r[i] is None,
    ensures
        first_free(r) == i,
{
    lemma_first_free(r);
    let f = first_free(r);
    if f < i {
        assert(r[f] is Some);
    } else if i < f {
        assert(r[i] is Some);
    }
}

proof fn lemma_live_count_bound(r: Seq<Option<bool>>)
    ensures
        live_count(r) <= r.len(),
    decreases r.len(),
{
    if r.len() > 0 {
        lemma_live_count_bound(r.drop_last());
    }
}

proof fn lemma_live_count_update(r: Seq<Option<bool>>, i: int, o: Option<bool>)
    requires
        0 <= i < r.len(),
    ensures
        live_count(r.update(i, o)) + (if r[i] is Some { 1int } else { 0int })
            == live_count(r) + (if o is Some { 1int } else { 0int }),
    decreases r.len(),
{
    let u = r.update(i, o);
    if i == r.len() - 1 {
        assert(u.drop_last() =~= r.drop_last());
    } else {
        assert(u.drop_last() =~= r.drop_last().update(i, o));
        lemma_live_count_update(r.drop_last(), i, o);
    }
}

proof fn lemma_live_count_mark_all(r: Seq<Option<bool>>)
    ensures
        live_count(mark_all(r)) == live_count(r),
        mark_all(r).len() == r.len(),
    decreases r.len(),
{
    if r.len() > 0 {
        assert(mark_all(r).drop_last() =~= mark_all(r.drop_last()));
        lemma_live_count_mark_all(r.drop_last());
    }
}

proof fn lemma_live_count_zero(r: Seq<Option<bool>>, i: int)
    requires
        live_count(r) == 0,
        0 <= i < r.len(),
    ensures
        r[i] is None,
    decreases r.len(),
{
    if i < r.len() - 1 {
        assert(r.drop_last()[i] == r[i]);
        lemma_live_count_zero(r.drop_last(), i);
    }
}

proof fn lemma_notified_wf<T>(s: ChannelView<T>)
    requires
        s.receivers.len() <= usize::MAX,
        s.receiver_count == live_count(s.receivers),
    ensures
        wf_view(notified(s)),
{
    lemma_live_count_mark_all(s.receivers);
}

/// A new channel is well formed.
pub proof fn lemma_initial_wf<T>()
    ensures
        wf_view(initial_channel::<T>()),
{
    let r = seq![Some(false)];
    assert(r.drop_last() =~= Seq::<Option<bool>>::empty());
    assert(live_count(r.drop_last()) == 0);
    assert(live_count(r) == 1);
}

/// Every operation keeps the channel well formed.  In particular a live
/// receiver never believes it is up to date while a task is queued.
pub proof fn lemma_operations_preserve_wf<T>(s: ChannelView<T>, id: usize, task: T)
    requires
        wf_view(s),
    ensures
        wf_view(send_spec(s, task).0),
        wf_view(try_pop_spec(s).0),
        wf_view(try_recv_spec(s, id).0),
        wf_view(recv_poll_spec(s, id).0),
        wf_view(add_sender_spec(s)),
        wf_view(remove_sender_spec(s)),
        (first_free(s.receivers) < s.receivers.len() || s.receivers.len() < usize::MAX) ==> wf_view(add_receiver_spec(s, id).0),
        wf_view(remove_receiver_spec(s, id)),
{
    lemma_notified_wf(ChannelView { queue: s.queue.push(task), ..s });
    lemma_notified_wf(ChannelView { queue: s.queue.drop_first(), ..s });
    lemma_notified_wf(ChannelView { sender_count: vstd::wrapping::usize_specs::wrapping_sub(s.sender_count, 1), ..s });
    lemma_notified_wf(ChannelView { queue: Seq::<T>::empty(), ..s });
    lemma_live_count_bound(s.receivers);
    if is_live(s, id) {
        let a = acknowledged(s, id);
        lemma_live_count_update(s.receivers, id as int, Some(false));
        lemma_notified_wf(ChannelView { queue: a.queue.drop_first(), ..a });
        assert(wf_view(recv_poll_spec(s, id).0));
        let s1 = if s.receiver_count == 1 && s.queue.len() > 0 {
            notified(ChannelView { queue: Seq::empty(), ..s })
        } else {
            s
        };
        lemma_live_count_mark_all(s.receivers);
        lemma_live_count_update(s1.receivers, id as int, None);
        assert(wf_view(remove_receiver_spec(s, id)));
    }
    lemma_first_free(s.receivers);
    let f = first_free(s.receivers);
    let n = add_receiver_spec(s, id).0;
    if !changed_for(s, id) {
        assert(s.receivers[id as int] == Some(false));
    }
    if f < s.receivers.len() {
        assert(s.receivers[f] is None);
        assert(n.receivers == s.receivers.update(f, Some(changed_for(s, id))));
        lemma_live_count_update(s.receivers, f, Some(changed_for(s, id)));
        lemma_live_count_bound(n.receivers);
        assert(live_count(n.receivers) == live_count(s.receivers) + 1);
        assert(live_count(n.receivers) <= usize::MAX);
        assert forall|i: int| 0 <= i < n.receivers.len() && #[trigger] n.receivers[i] == Some(false) implies n.queue.len() == 0 by {
            if i != f {
                assert(s.receivers[i] == Some(false));
            }
        }
        assert(n.receiver_count == live_count(n.receivers));
    } else if s.receivers.len() < usize::MAX {
        assert(n.receivers.drop_last() =~= s.receivers);
        assert(live_count(n.receivers) == live_count(s.receivers) + 1);
        assert forall|i: int| 0 <= i < n.receivers.len() && #[trigger] n.receivers[i] == Some(false) implies n.queue.len() == 0 by {
            if i < s.receivers.len() {
                assert(s.receivers[i] == Some(false));
            }
        }
    }
}

/// A receiver never misses a queued task: in a well-formed channel, taking a
/// task without waiting behaves exactly like taking the front of the queue,
/// whichever receiver asks.
pub proof fn lemma_try_recv_is_try_pop<T>(s: ChannelView<T>, id: usize)
    requires
        wf_view(s),
    ensures
        try_recv_spec(s, id) == try_pop_spec(s),
{
    if !changed_for(s, id) {
        assert(s.receivers[id as int] == Some(false));
    }
}

/// No wake-up is lost: a receiver of a well-formed channel with a non-empty
/// queue gets the task at the front, whether it waits or asks without waiting.
pub proof fn lemma_queued_task_is_delivered<T>(s: ChannelView<T>, id: usize)
    requires
        wf_view(s),
        s.queue.len() > 0,
    ensures
        recv_poll_spec(s, id).1 == RecvPoll::Ready(Ok::<T, RecvError>(s.queue[0])),
        try_recv_spec(s, id).1 == Ok::<T, TryRecvError>(s.queue[0]),
{
    lemma_try_recv_is_try_pop(s, id);
    if !changed_for(s, id) {
        assert(s.receivers[id as int] == Some(false));
    }
}

/// The channel after sending every task of `tasks`, first to last.
pub open spec fn send_all<T>(s: ChannelView<T>, tasks: Seq<T>) -> ChannelView<T>
    decreases tasks.len(),
{
    if tasks.len() == 0 {
        s
    } else {
        send_spec(send_all(s, tasks.drop_last()), tasks.last()).0
    }
}

/// The channel after `n` attempts to take a task without waiting, and the
/// tasks taken, in the order they were taken.
pub open spec fn pop_n<T>(s: ChannelView<T>, n: nat) -> (ChannelView<T>, Seq<T>)
    decreases n,
{
    if n == 0 {
        (s, Seq::empty())
    } else {
        let (s1, taken) = pop_n(s, (n - 1) as nat);
        let (s2, r) = try_pop_spec(s1);
        match r {
            Ok(task) => (s2, taken.push(task)),
            Err(_) => (s2, taken),
        }
    }
}

/// The channel after `n` calls of `try_recv` by the receiver `id`, and the
/// tasks they returned, in order.
pub open spec fn recv_n<T>(s: ChannelView<T>, id: usize, n: nat) -> (ChannelView<T>, Seq<T>)
    decreases n,
{
    if n == 0 {
        (s, Seq::empty())
    } else {
        let (s1, taken) = recv_n(s, id, (n - 1) as nat);
        let (s2, r) = try_recv_spec(s1, id);
        match r {
            Ok(task) => (s2, taken.push(task)),
            Err(_) => (s2, taken),
        }
    }
}

/// With a receiver alive, sending a sequence of tasks appends it to the queue,
/// keeps the channel well formed and leaves both counts alone.
pub proof fn lemma_send_all_appends<T>(s: ChannelView<T>, tasks: Seq<T>)
    requires
        s.receiver_count != 0,
    ensures
        send_all(s, tasks).queue == s.queue + tasks,
        send_all(s, tasks).sender_count == s.sender_count,
        send_all(s, tasks).receiver_count == s.receiver_count,
        wf_view(s) ==> wf_view(send_all(s, tasks)),
    decreases tasks.len(),
{
    if tasks.len() > 0 {
        lemma_send_all_appends(s, tasks.drop_last());
        assert(s.queue + tasks =~= (s.queue + tasks.drop_last()).push(tasks.last()));
        if wf_view(s) {
            lemma_operations_preserve_wf(send_all(s, tasks.drop_last()), 0, tasks.last());
        }
    } else {
        assert(s.queue + tasks =~= s.queue);
    }
}

/// Taking `n` tasks from a queue of at least `n` tasks yields its first `n`
/// tasks, in queue order, and leaves the rest queued.
pub proof fn lemma_pop_n_takes_prefix<T>(s: ChannelView<T>, n: nat)
    requires
        n <= s.queue.len(),
    ensures
        pop_n(s, n).1 == s.queue.take(n as int),
        pop_n(s, n).0.queue == s.queue.skip(n as int),
        pop_n(s, n).0.sender_count == s.sender_count,
        pop_n(s, n).0.receiver_count == s.receiver_count,
        wf_view(s) ==> wf_view(pop_n(s, n).0),
    decreases n,
{
    if n == 0 {
        assert(s.queue.take(0) =~= Seq::<T>::empty());
        assert(s.queue.skip(0) =~= s.queue);
    } else {
        lemma_pop_n_takes_prefix(s, (n - 1) as nat);
        let (s1, taken) = pop_n(s, (n - 1) as nat);
        assert(s1.queue.len() > 0);
        assert(s1.queue[0] == s.queue[n - 1]);
        assert(s.queue.take(n as int) =~= s.queue.take(n - 1).push(s.queue[n - 1]));
        assert(s1.queue.drop_first() =~= s.queue.skip(n as int));
        if wf_view(s) {
            lemma_operations_preserve_wf(s1, 0, s.queue[0]);
        }
    }
}

/// In a well-formed channel, a run of `try_recv` calls takes the same tasks
/// as a run of `try_pop` calls.
pub proof fn lemma_recv_n_is_pop_n<T>(s: ChannelView<T>, id: usize, n: nat)
    requires
        wf_view(s),
    ensures
        recv_n(s, id, n) == pop_n(s, n),
        wf_view(pop_n(s, n).0),
    decreases n,
{
    if n > 0 {
        lemma_recv_n_is_pop_n(s, id, (n - 1) as nat);
        let s1 = pop_n(s, (n - 1) as nat).0;
        lemma_try_recv_is_try_pop(s1, id);
        lemma_operations_preserve_wf(s1, id, s.queue[0]);
    }
}

/// Every task sent to an empty channel with a receiver comes out again, in the
/// order in which the tasks were sent.
pub proof fn lemma_delivery_order<T>(s: ChannelView<T>, tasks: Seq<T>)
    requires
        s.receiver_count != 0,
        s.queue.len() == 0,
    ensures
        pop_n(send_all(s, tasks), tasks.len()).1 == tasks,
        pop_n(send_all(s, tasks), tasks.len()).0.queue.len() == 0,
{
    lemma_send_all_appends(s, tasks);
    let sent = send_all(s, tasks);
    assert(sent.queue =~= tasks);
    lemma_pop_n_takes_prefix(sent, tasks.len());
    assert(sent.queue.take(tasks.len() as int) =~= tasks);
}

/// A receiver that sends nothing itself and only calls `try_recv` gets every
/// task sent to an empty well-formed channel, in sending order; after that it
/// gets `Empty` while a sender lives, and `Disconnected` once the last sender
/// is gone.
pub proof fn lemma_try_recv_sequence<T>(s: ChannelView<T>, id: usize, tasks: Seq<T>)
    requires
        wf_view(s),
        s.receiver_count != 0,
        s.queue.len() == 0,
    ensures
        forall|k: int| 0 <= k <= tasks.len() ==> #[trigger] send_all(s, tasks.take(k)).receiver_count != 0,
        ({
            let sent = send_all(s, tasks);
            let (drained, taken) = recv_n(sent, id, tasks.len());
            &&& taken == tasks
            &&& (s.sender_count != 0 ==> try_recv_spec(drained, id) == (drained, Err::<T, TryRecvError>(TryRecvError::Empty)))
            &&& (s.sender_count == 1 ==> try_recv_spec(remove_sender_spec(drained), id).1 == Err::<T, TryRecvError>(TryRecvError::Disconnected))
        }),
{
    assert forall|k: int| 0 <= k <= tasks.len() implies #[trigger] send_all(s, tasks.take(k)).receiver_count != 0 by {
        lemma_send_all_appends(s, tasks.take(k));
    }
    lemma_send_all_appends(s, tasks);
    let sent = send_all(s, tasks);
    lemma_recv_n_is_pop_n(sent, id, tasks.len());
    lemma_delivery_order(s, tasks);
    lemma_pop_n_takes_prefix(sent, tasks.len());
    let drained = pop_n(sent, tasks.len()).0;
    lemma_try_recv_is_try_pop(drained, id);
    lemma_operations_preserve_wf(drained, id, tasks[0]);
    lemma_try_recv_is_try_pop(remove_sender_spec(drained), id);
}

/// One call on a channel, by whichever handle makes it.
pub enum ChannelOp<T> {
    Send(T),
    TryPop,
    TryRecv(usize),
    Poll(usize),
    AddSender,
    RemoveSender,
    AddReceiver(usize),
}

/// The effect of one call: the new channel, the tasks the call accepted for
/// delivery, and the tasks it handed to a receiver.
pub open spec fn apply_op<T>(s: ChannelView<T>, op: ChannelOp<T>) -> (ChannelView<T>, Seq<T>, Seq<T>) {
    match op {
        ChannelOp::Send(task) => {
            let (s2, r) = send_spec(s, task);
            (s2, if r is Ok { seq![task] } else { Seq::empty() }, Seq::empty())
        },
        ChannelOp::TryPop => {
            let (s2, r) = try_pop_spec(s);
            (s2, Seq::empty(), match r { Ok(task) => seq![task], Err(_) => Seq::empty() })
        },
        ChannelOp::TryRecv(id) => {
            let (s2, r) = try_recv_spec(s, id);
            (s2, Seq::empty(), match r { Ok(task) => seq![task], Err(_) => Seq::empty() })
        },
        ChannelOp::Poll(id) => {
            let (s2, r) = recv_poll_spec(s, id);
            (s2, Seq::empty(), match r { RecvPoll::Ready(Ok(task)) => seq![task], _ => Seq::empty() })
        },
        ChannelOp::AddSender => (add_sender_spec(s), Seq::empty(), Seq::empty()),
        ChannelOp::RemoveSender => (remove_sender_spec(s), Seq::empty(), Seq::empty()),
        ChannelOp::AddReceiver(from) => (add_receiver_spec(s, from).0, Seq::empty(), Seq::empty()),
    }
}

/// The effect of a sequence of calls, first to last: the final channel, every
/// task accepted, and every task handed to a receiver, in order.
pub open spec fn run_ops<T>(s: ChannelView<T>, ops: Seq<ChannelOp<T>>) -> (ChannelView<T>, Seq<T>, Seq<T>)
    decreases ops.len(),
{
    if ops.len() == 0 {
        (s, Seq::empty(), Seq::empty())
    } else {
        let (s1, accepted, delivered) = run_ops(s, ops.drop_last());
        let (s2, a2, d2) = apply_op(s1, ops.last());
        (s2, accepted + a2, delivered + d2)
    }
}

/// Exactly-once delivery in sending order, whatever the interleaving of the
/// senders' and receivers' calls (as long as no receiver discards the queue by
/// leaving last): the tasks handed out, followed by those still queued, are
/// exactly the tasks queued at the start followed by the tasks accepted since.
pub proof fn lemma_exactly_once_in_order<T>(s: ChannelView<T>, ops: Seq<ChannelOp<T>>)
    ensures
        run_ops(s, ops).2 + run_ops(s, ops).0.queue == s.queue + run_ops(s, ops).1,
    decreases ops.len(),
{
    if ops.len() > 0 {
        lemma_exactly_once_in_order(s, ops.drop_last());
        let (s1, accepted, delivered) = run_ops(s, ops.drop_last());
        let (s2, a2, d2) = apply_op(s1, ops.last());
        assert(d2 + s2.queue =~= s1.queue + a2) by {
            match ops.last() {
                ChannelOp::TryPop => {
                    if s1.queue.len() > 0 {
                        assert(seq![s1.queue[0]] + s1.queue.drop_first() =~= s1.queue);
                    }
                },
                ChannelOp::TryRecv(id) => {
                    if s1.queue.len() > 0 {
                        assert(seq![s1.queue[0]] + s1.queue.drop_first() =~= s1.queue);
                    }
                },
                ChannelOp::Poll(id) => {
                    let a = acknowledged(s1, id);
                    assert(a.queue == s1.queue);
                    if s1.queue.len() > 0 {
                        assert(seq![s1.queue[0]] + s1.queue.drop_first() =~= s1.queue);
                    }
                },
                _ => {},
            }
        }
        assert((delivered + d2) + s2.queue =~= delivered + (d2 + s2.queue));
        assert(s.queue + (accepted + a2) =~= (s.queue + accepted) + a2);
        assert(delivered + (s1.queue + a2) =~= (delivered + s1.queue) + a2);
    }
}

/// A task sent to a non-empty queue does not overtake the tasks already there.
pub proof fn lemma_send_does_not_overtake<T>(s: ChannelView<T>, task: T)
    requires
        s.receiver_count != 0,
        s.queue.len() > 0,
    ensures
        try_pop_spec(send_spec(s, task).0).1 == Ok::<T, TryRecvError>(s.queue[0]),
        try_pop_spec(send_spec(s, task).0).0.queue == s.queue.drop_first().push(task),
{
    assert(s.queue.push(task).drop_first() =~= s.queue.drop_first().push(task));
}

/// Sending succeeds exactly when a receiver is alive.
pub proof fn lemma_send_fails_iff_no_receiver<T>(s: ChannelView<T>, task: T)
    ensures
        send_spec(s, task).1 is Err <==> s.receiver_count == 0,
        send_spec(s, task).1 is Err ==> send_spec(s, task).0 == s,
{
}

/// Once every sender is gone and the queue is drained, taking a task without
/// waiting always reports `Disconnected` and changes nothing, and waiting can
/// never yield a task.
pub proof fn lemma_disconnected_is_final<T>(s: ChannelView<T>, id: usize)
    requires
        s.sender_count == 0,
        s.queue.len() == 0,
    ensures
        try_pop_spec(s) == (s, Err::<T, TryRecvError>(TryRecvError::Disconnected)),
        try_recv_spec(s, id) == (s, Err::<T, TryRecvError>(TryRecvError::Disconnected)),
        !(recv_poll_spec(s, id).1 is Ready && recv_poll_spec(s, id).1->Ready_0 is Ok),
{
}

/// When the last sender leaves, every receiver waiting on an empty queue is
/// woken and learns that the channel is disconnected.
pub proof fn lemma_last_sender_wakes_receiver<T>(s: ChannelView<T>, id: usize)
    requires
        wf_view(s),
        s.sender_count == 1,
        s.queue.len() == 0,
    ensures
        recv_poll_spec(remove_sender_spec(s), id).1 == RecvPoll::<T>::Ready(Err(RecvError::Disconnected)),
{
    let t = remove_sender_spec(s);
    lemma_live_count_mark_all(s.receivers);
    if is_live(t, id) {
        assert(t.receivers[id as int] == mark(s.receivers[id as int]));
    }
}

/// Duplicating a sender and dropping the duplicate leaves the queue and both
/// counts as they were.
pub proof fn lemma_add_then_remove_sender<T>(s: ChannelView<T>)
    ensures
        remove_sender_spec(add_sender_spec(s)).queue == s.queue,
        remove_sender_spec(add_sender_spec(s)).sender_count == s.sender_count,
        remove_sender_spec(add_sender_spec(s)).receiver_count == s.receiver_count,
{
}

/// Duplicating a receiver and dropping the duplicate leaves the queue, both
/// counts and every existing slot as they were.
pub proof fn lemma_add_then_remove_receiver<T>(s: ChannelView<T>, from: usize)
    requires
        wf_view(s),
        is_live(s, from),
        s.receivers.len() < usize::MAX,
    ensures
        ({
            let (added, id) = add_receiver_spec(s, from);
            let removed = remove_receiver_spec(added, id);
            &&& removed.queue == s.queue
            &&& removed.sender_count == s.sender_count
            &&& removed.receiver_count == s.receiver_count
            &&& removed.receivers.len() >= s.receivers.len()
            &&& forall|i: int| 0 <= i < s.receivers.len() ==> #[trigger] removed.receivers[i] == s.receivers[i]
        }),
{
    lemma_live_count_bound(s.receivers);
    lemma_live_count_update(s.receivers, from as int, None);
    lemma_first_free(s.receivers);
    let (added, id) = add_receiver_spec(s, from);
    let f = first_free(s.receivers);
    if f < s.receivers.len() {
        assert(added.receivers.update(id as int, None) =~= s.receivers);
    } else {
        assert(added.receivers.update(id as int, None) =~= s.receivers.push(None));
    }
}

/// When the last receiver goes away the queued tasks are discarded, and every
/// later send is refused.
pub proof fn lemma_last_receiver_discards<T>(s: ChannelView<T>, id: usize, task: T)
    requires
        s.receiver_count == 1,
        is_live(s, id),
    ensures
        remove_receiver_spec(s, id).queue.len() == 0,
        remove_receiver_spec(s, id).receiver_count == 0,
        send_spec(remove_receiver_spec(s, id), task).1 == Err::<(), SendError>(SendError::Disconnected),
{
}

} // verus!
