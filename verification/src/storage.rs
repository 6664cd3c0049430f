//! The bounded store and the fan-out broadcaster.
//!
//! The store is an ordered sequence of stored entries, oldest first, with a
//! configured maximum capacity. An append places the new entry at the tail,
//! evicts from the head until the length is back within the capacity, and
//! then publishes the entry's projection to every live subscriber — one
//! logical operation, so no snapshot ever observes an over-full store, and
//! no subscriber ever observes a record that was not appended first.

use vstd::prelude::*;

use crate::gelf::{
    response_of, GelfMessage, MessageResponse, MessageResponseV, StoredMessage, StoredMessageV,
};

verus! {

#[verifier::external_type_specification]
#[verifier::external_body]
#[verifier::reject_recursive_types(T)]
pub struct ExSender<T>(tokio::sync::broadcast::Sender<T>);

#[verifier::external_type_specification]
#[verifier::external_body]
#[verifier::reject_recursive_types(T)]
pub struct ExReceiver<T>(tokio::sync::broadcast::Receiver<T>);

/// Relies on `tokio::sync::broadcast::channel`: creates a channel whose
/// subscribers each buffer up to (at least) `capacity` pending values; the
/// call panics when `capacity` is zero or above `usize::MAX / 2`, so those
/// inputs are excluded here.
#[verifier::external_body]
fn broadcast_channel(capacity: usize) -> (tokio::sync::broadcast::Sender<MessageResponse>,
    tokio::sync::broadcast::Receiver<MessageResponse>)
    requires
        1 <= capacity <= usize::MAX / 2,
{
    tokio::sync::broadcast::channel(capacity)
}

/// Relies on `tokio::sync::broadcast::Sender::send`: hands the value to the
/// channel without blocking; it fails exactly when no receiver is currently
/// subscribed, and a slow receiver only lags, it never blocks the sender.
/// Whether any receiver exists depends on runtime state, so only the shape
/// of the outcome is stated.
#[verifier::external_body]
fn broadcast_send(
    tx: &tokio::sync::broadcast::Sender<MessageResponse>,
    message: MessageResponse,
) -> (delivered: bool) {
    tx.send(message).is_ok()
}

/// Relies on `tokio::sync::broadcast::Sender::subscribe`: returns a fresh
/// receiver that observes values sent after this call, with no replay of
/// earlier values.
#[verifier::external_body]
fn broadcast_subscribe(tx: &tokio::sync::broadcast::Sender<MessageResponse>) -> (r:
    tokio::sync::broadcast::Receiver<MessageResponse>) {
    tx.subscribe()
}

/// What one non-blocking receive attempt observes.
#[derive(Debug, PartialEq)]
pub enum RecvOutcome {
    /// The next value published after this subscriber's subscription.
    Message(MessageResponse),
    /// Nothing is pending right now.
    Empty,
    /// The subscriber lagged: this many values were overwritten before they
    /// were read. Receiving resumes at the oldest value still buffered.
    Lagged(u64),
    /// Every sender is gone; no further value will arrive.
    Closed,
}

/// Relies on `tokio::sync::broadcast::Receiver::try_recv`: yields the next
/// pending value, or reports an empty buffer, a lag with the number of
/// values missed, or a closed channel — never blocking. The outcome depends
/// on what was published and consumed meanwhile, so only its shape is
/// stated.
#[verifier::external_body]
fn try_recv_outcome(rx: &mut tokio::sync::broadcast::Receiver<MessageResponse>) -> (r:
    RecvOutcome) {
    match rx.try_recv() {
        Ok(m) => RecvOutcome::Message(m),
        Err(tokio::sync::broadcast::error::TryRecvError::Empty) => RecvOutcome::Empty,
        Err(tokio::sync::broadcast::error::TryRecvError::Lagged(n)) => RecvOutcome::Lagged(n),
        Err(tokio::sync::broadcast::error::TryRecvError::Closed) => RecvOutcome::Closed,
    }
}

/// One live subscription: an independent, owned handle that observes every
/// record accepted after it was created, buffering up to the broadcaster's
/// capacity. Dropping it is the explicit unsubscribe; that never affects
/// delivery to other subscribers and never fails the publisher.
pub struct Subscriber {
    rx: tokio::sync::broadcast::Receiver<MessageResponse>,
}

impl Subscriber {
    /// One non-blocking receive attempt. A subscriber that fell behind sees
    /// `Lagged` here — "some messages were missed" — and then resumes at
    /// the oldest value still buffered.
    pub fn try_next(&mut self) -> RecvOutcome {
        try_recv_outcome(&mut self.rx)
    }

    /// The raw channel receiver, for asynchronous consumption outside the
    /// library.
    pub fn into_receiver(self) -> tokio::sync::broadcast::Receiver<MessageResponse> {
        self.rx
    }
}

/// Fan-out of accepted records to any number of live subscribers.
///
/// Publishing never blocks and never fails the publisher: a subscriber that
/// does not drain its own bounded channel sees an explicit lag signal on its
/// next receive instead. The ghost `history` is the sequence of every value
/// published so far, in order.
pub struct DefaultBroadcaster {
    tx: tokio::sync::broadcast::Sender<MessageResponse>,
    hist: Ghost<Seq<MessageResponseV>>,
}

impl DefaultBroadcaster {
    /// Every value published so far, in order.
    pub closed spec fn history(&self) -> Seq<MessageResponseV> {
        self.hist@
    }

    /// A broadcaster whose subscribers each buffer up to `capacity` pending
    /// values.
    pub fn new(capacity: usize) -> (r: Self)
        requires
            1 <= capacity <= usize::MAX / 2,
        ensures
            r.history() == Seq::<MessageResponseV>::empty(),
    {
        let (tx, _rx) = broadcast_channel(capacity);
        DefaultBroadcaster { tx, hist: Ghost(Seq::empty()) }
    }

    /// Publishes one value to every currently subscribed receiver, without
    /// blocking; reports (without failing) whether any subscriber existed.
    pub fn broadcast(&mut self, message: MessageResponse) -> (delivered: bool)
        ensures
            final(self).history() == old(self).history().push(message@),
    {
        let ghost h = self.hist@;
        let ghost m = message@;
        let delivered = broadcast_send(&self.tx, message);
        proof {
            self.hist@ = h.push(m);
        }
        delivered
    }

    /// A new, independent subscription that observes every value published
    /// after this call returns, and none published before.
    pub fn subscribe(&self) -> Subscriber {
        Subscriber { rx: broadcast_subscribe(&self.tx) }
    }
}

/// A stored entry from its parts.
pub open spec fn entry_v(g: crate::gelf::GelfMessageV, t: u64, raw: Seq<char>) -> StoredMessageV {
    StoredMessageV { gelf_message: g, received_at: t, raw_message: raw }
}

/// The shape of a sequence of stored entries.
pub open spec fn entries_view(s: Seq<StoredMessage>) -> Seq<StoredMessageV> {
    s.map(|i: int, m: StoredMessage| m@)
}

/// The shape of a sequence of responses.
pub open spec fn responses_view(s: Seq<MessageResponse>) -> Seq<MessageResponseV> {
    s.map(|i: int, m: MessageResponse| m@)
}

/// Evicts from the head until the length is within the capacity. Correct
/// even when the capacity shrank dynamically and several entries must go.
pub open spec fn evict_spec(s: Seq<StoredMessageV>, cap: int) -> Seq<StoredMessageV> {
    if s.len() <= cap {
        s
    } else {
        s.skip(s.len() - cap)
    }
}

/// One append step: the entry joins at the tail, then the head is evicted
/// back to within the capacity.
pub open spec fn append_spec(
    entries: Seq<StoredMessageV>,
    cap: int,
    entry: StoredMessageV,
) -> Seq<StoredMessageV> {
    evict_spec(entries.push(entry), cap)
}

/// Up to `limit` most recent entries (all of them when `limit` is absent),
/// newest first, projected to responses.
pub open spec fn snapshot_spec(
    entries: Seq<StoredMessageV>,
    limit: Option<usize>,
) -> Seq<MessageResponseV> {
    let n: int = match limit {
        Some(l) => if l <= entries.len() {
            l as int
        } else {
            entries.len() as int
        },
        None => entries.len() as int,
    };
    Seq::new(n as nat, |i: int| response_of(entries[entries.len() - 1 - i]))
}

/// Current length and configured capacity of the store.
#[derive(Debug, Clone, Copy, PartialEq, Eq, Structural)]
pub struct StoreStats {
    pub total_messages: usize,
    pub max_capacity: usize,
}

/// The bounded in-memory store: an ordered sequence of entries, oldest
/// first, never longer than its capacity, publishing every accepted entry to
/// its broadcaster.
pub struct InMemoryMessageStore {
    messages: Vec<StoredMessage>,
    max_size: usize,
    broadcaster: DefaultBroadcaster,
}

impl InMemoryMessageStore {
    /// The retained entries, oldest first.
    pub closed spec fn entries(&self) -> Seq<StoredMessageV> {
        entries_view(self.messages@)
    }

    /// The configured maximum capacity.
    pub closed spec fn capacity(&self) -> usize {
        self.max_size
    }

    /// Every value published to subscribers so far, in order.
    pub closed spec fn published(&self) -> Seq<MessageResponseV> {
        self.broadcaster.history()
    }

    /// The store invariant: the length never exceeds the capacity.
    pub open spec fn wf(&self) -> bool {
        self.entries().len() <= self.capacity()
    }

    /// An empty store of the given capacity, with the default broadcaster
    /// (each subscriber buffers up to 100 pending values).
    pub fn new(max_size: usize) -> (r: Self)
        ensures
            r.wf(),
            r.entries() == Seq::<StoredMessageV>::empty(),
            r.capacity() == max_size,
            r.published() == Seq::<MessageResponseV>::empty(),
    {
        Self::with_broadcaster(max_size, DefaultBroadcaster::new(100))
    }

    /// An empty store of the given capacity around an existing broadcaster.
    pub fn with_broadcaster(max_size: usize, broadcaster: DefaultBroadcaster) -> (r: Self)
        ensures
            r.wf(),
            r.entries() == Seq::<StoredMessageV>::empty(),
            r.capacity() == max_size,
            r.published() == broadcaster.history(),
    {
        let r = InMemoryMessageStore { messages: Vec::new(), max_size, broadcaster };
        proof {
            assert(r.entries() =~= Seq::<StoredMessageV>::empty());
        }
        r
    }

    /// Append + evict + publish as one step, with the entry's reception time
    /// supplied by the caller, so the step is exact for every input.
    pub fn add_message_at(
        &mut self,
        gelf_message: GelfMessage,
        raw_message: String,
        received_at: u64,
    )
        requires
            old(self).wf(),
        ensures
            final(self).wf(),
            final(self).capacity() == old(self).capacity(),
            final(self).entries() == append_spec(
                old(self).entries(),
                old(self).capacity() as int,
                entry_v(gelf_message@, received_at, raw_message@),
            ),
            final(self).published() == old(self).published().push(
                response_of(entry_v(gelf_message@, received_at, raw_message@)),
            ),
    {
        self.push_entry(StoredMessage { gelf_message, received_at, raw_message });
    }

    /// Append + evict + publish as one step, stamping the entry with the
    /// current reception time.
    pub fn add_message(&mut self, gelf_message: GelfMessage, raw_message: String)
        requires
            old(self).wf(),
        ensures
            final(self).wf(),
            final(self).capacity() == old(self).capacity(),
            exists|t: u64|
                final(self).entries() == append_spec(
                    old(self).entries(),
                    old(self).capacity() as int,
                    #[trigger] entry_v(gelf_message@, t, raw_message@),
                ) && final(self).published() == old(self).published().push(
                    response_of(entry_v(gelf_message@, t, raw_message@)),
                ),
    {
        let ghost g = gelf_message@;
        let ghost rw = raw_message@;
        let stored = StoredMessage::new(gelf_message, raw_message);
        let ghost t = stored.received_at;
        self.push_entry(stored);
        proof {
            assert(stored@ == entry_v(g, t, rw));
        }
    }

    fn push_entry(&mut self, stored: StoredMessage)
        requires
            old(self).wf(),
        ensures
            final(self).wf(),
            final(self).capacity() == old(self).capacity(),
            final(self).entries() == append_spec(
                old(self).entries(),
                old(self).capacity() as int,
                stored@,
            ),
            final(self).published() == old(self).published().push(response_of(stored@)),
    {
        let ghost old_entries = self.entries();
        let ghost cap = self.max_size as int;
        let ghost old_published = self.published();
        let response = stored.to_response();
        let ghost sv = stored@;
        self.messages.push(stored);
        let ghost full: Seq<StoredMessage> = self.messages@;
        proof {
            assert(entries_view(full) =~= old_entries.push(sv));
        }
        while self.messages.len() > self.max_size
            invariant
                self.max_size as int == cap,
                self.broadcaster.history() == old_published,
                self.messages@.len() <= full.len(),
                self.messages@ == full.skip(full.len() - self.messages@.len()),
                full.len() > cap ==> self.messages@.len() >= cap,
                full.len() <= cap ==> self.messages@.len() == full.len(),
            decreases self.messages@.len(),
        {
            let ghost before = self.messages@;
            self.messages.remove(0);
            proof {
                assert(before.remove(0) =~= full.skip(full.len() - before.len() + 1));
            }
        }
        proof {
            let m = self.messages@;
            if full.len() <= cap {
                assert(m =~= full);
                assert(entries_view(m) == entries_view(full));
            } else {
                assert(m == full.skip(full.len() - cap));
                assert(entries_view(m) =~= entries_view(full).skip(full.len() - cap));
                assert(entries_view(full).len() == full.len());
            }
            assert(entries_view(full) == old_entries.push(sv));
            assert(entries_view(m) == evict_spec(old_entries.push(sv), cap));
        }
        let _delivered = self.broadcaster.broadcast(response);
    }

    /// A point-in-time snapshot: up to `limit` most recent entries (all of
    /// them when `limit` is absent), newest first. A limit of zero yields an
    /// empty sequence.
    pub fn get_messages(&self, limit: Option<usize>) -> (r: Vec<MessageResponse>)
        ensures
            responses_view(r@) == snapshot_spec(self.entries(), limit),
    {
        let len = self.messages.len();
        let n: usize = match limit {
            Some(l) => if l <= len {
                l
            } else {
                len
            },
            None => len,
        };
        let mut out: Vec<MessageResponse> = Vec::new();
        let mut i: usize = 0;
        while i < n
            invariant
                i <= n,
                n <= len,
                len == self.messages@.len(),
                out@.len() == i,
                forall|j: int| 0 <= j < i ==> #[trigger] out@[j]@ == response_of(
                    self.entries()[len - 1 - j],
                ),
            decreases n - i,
        {
            let m = &self.messages[len - 1 - i];
            out.push(m.to_response());
            i = i + 1;
        }
        proof {
            assert(responses_view(out@) =~= snapshot_spec(self.entries(), limit));
        }
        out
    }

    /// The current length and the configured capacity.
    pub fn get_stats(&self) -> (r: StoreStats)
        ensures
            r.total_messages == self.entries().len(),
            r.max_capacity == self.capacity(),
    {
        StoreStats { total_messages: self.messages.len(), max_capacity: self.max_size }
    }

    /// A new, independent subscription to the store's broadcaster: it
    /// observes every record accepted after this call returns.
    pub fn subscribe(&self) -> Subscriber {
        self.broadcaster.subscribe()
    }
}

/// The retained entries after a sequence of appends into an initially empty
/// store of capacity `cap`.
pub open spec fn entries_after_appends(cap: int, es: Seq<StoredMessageV>) -> Seq<StoredMessageV>
    decreases es.len(),
{
    if es.len() == 0 {
        Seq::empty()
    } else {
        append_spec(entries_after_appends(cap, es.drop_last()), cap, es.last())
    }
}

/// Law (eviction bound): for every sequence of appends into an empty store
/// of capacity `cap`, the store holds exactly the `cap` most recently
/// appended entries — all of them while there are fewer — so its length is
/// `min(N, cap)` after the `N`th append.
pub proof fn lemma_eviction_bound(cap: int, es: Seq<StoredMessageV>)
    requires
        cap >= 0,
    ensures
        entries_after_appends(cap, es) == if es.len() <= cap {
            es
        } else {
            es.skip(es.len() - cap)
        },
        entries_after_appends(cap, es).len() == if es.len() <= cap {
            es.len() as int
        } else {
            cap
        },
    decreases es.len(),
{
    if es.len() > 0 {
        lemma_eviction_bound(cap, es.drop_last());
        let prev = entries_after_appends(cap, es.drop_last());
        assert(prev.push(es.last()) =~= if es.drop_last().len() <= cap {
            es
        } else {
            es.drop_last().skip(es.drop_last().len() - cap).push(es.last())
        });
        if es.drop_last().len() > cap {
            assert(es.drop_last().skip(es.drop_last().len() - cap).push(es.last()) =~= es.skip(
                es.len() - 1 - cap,
            ));
        }
        if prev.push(es.last()).len() > cap {
            assert(evict_spec(prev.push(es.last()), cap) =~= if es.len() <= cap {
                es
            } else {
                es.skip(es.len() - cap)
            });
        }
    }
}

/// Law (snapshot ordering): a snapshot without a limit lists every entry,
/// newest first.
pub proof fn lemma_snapshot_newest_first(entries: Seq<StoredMessageV>)
    ensures
        snapshot_spec(entries, None).len() == entries.len(),
        forall|i: int| 0 <= i < entries.len() ==> snapshot_spec(entries, None)[i] == response_of(
            entries[entries.len() - 1 - i],
        ),
{
}

/// Law (snapshot limit): a limit of zero yields the empty sequence whatever
/// the store holds, and a limit at or above the length yields the full
/// newest-first snapshot.
pub proof fn lemma_snapshot_limit(entries: Seq<StoredMessageV>, k: usize)
    ensures
        snapshot_spec(entries, Some(0)) == Seq::<MessageResponseV>::empty(),
        k >= entries.len() ==> snapshot_spec(entries, Some(k)) == snapshot_spec(entries, None),
{
    assert(snapshot_spec(entries, Some(0)) =~= Seq::<MessageResponseV>::empty());
    if k >= entries.len() {
        assert(snapshot_spec(entries, Some(k)) =~= snapshot_spec(entries, None));
    }
}

} // verus!
