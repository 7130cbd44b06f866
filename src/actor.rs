use vstd::prelude::*;
use vstd::pervasive::strictly_cloned;
use crate::lock::LockState;

verus! {

/// A request to the actor that owns one shared value. `R` is the single-use
/// channel on which a read is answered.
pub enum SharedValueMessage<T, R> {
    /// Best-effort replace: lost while an exclusive hold is active.
    Write { data: T },
    /// Replace under the exclusive hold.
    WriteLock { data: T },
    /// Best-effort snapshot, whatever the lock state.
    Read { tx: R },
    /// Snapshot under a shared hold.
    ReadLock { tx: R },
}

/// What the driver of the actor does once a request has been handled.
pub enum Action<T, R> {
    /// Send `snapshot` on `tx`; when `wake` is set, wake every waiter afterwards.
    Reply { tx: R, snapshot: T, wake: bool },
    /// The value was replaced: wake every waiter.
    Stored,
    /// A best-effort write was lost to an exclusive hold; nothing to do.
    Dropped,
}

/// The value a request carries in, if it writes one.
pub open spec fn written_data<T, R>(m: SharedValueMessage<T, R>) -> Option<T> {
    match m {
        SharedValueMessage::Write { data } => Some(data),
        SharedValueMessage::WriteLock { data } => Some(data),
        _ => None,
    }
}

/// Whether the lock state lets the request be granted now.
pub open spec fn ready_for<T, R>(lock: LockState, m: SharedValueMessage<T, R>) -> bool {
    match m {
        SharedValueMessage::WriteLock { .. } => lock.exclusive_allowed(),
        SharedValueMessage::ReadLock { .. } => lock.shared_allowed(),
        _ => true,
    }
}

/// The stored value once the request has been handled.
pub open spec fn stored_after<T, R>(value: T, lock: LockState, m: SharedValueMessage<T, R>) -> T {
    match m {
        SharedValueMessage::Write { data } => if lock.exclusive_active {
            value
        } else {
            data
        },
        SharedValueMessage::WriteLock { data } => data,
        _ => value,
    }
}

/// `r` is what handling `m` may hand back when `value` is stored: the reply
/// channel of a read with a clone of `value`, or whether a write took effect.
pub open spec fn action_for<T: Clone, R>(
    value: T,
    lock: LockState,
    m: SharedValueMessage<T, R>,
    r: Action<T, R>,
) -> bool {
    match m {
        SharedValueMessage::Read { tx } => match r {
            Action::Reply { tx: t, snapshot, wake } => t == tx && strictly_cloned(value, snapshot)
                && !wake,
            _ => false,
        },
        SharedValueMessage::ReadLock { tx } => match r {
            Action::Reply { tx: t, snapshot, wake } => t == tx && strictly_cloned(value, snapshot)
                && wake,
            _ => false,
        },
        SharedValueMessage::Write { .. } => if lock.exclusive_active {
            r is Dropped
        } else {
            r is Stored
        },
        SharedValueMessage::WriteLock { .. } => r is Stored,
    }
}

/// The stored value after a run of requests, each handled in turn, starting
/// from `seed` with no hold active.
pub open spec fn value_after<T, R>(seed: T, msgs: Seq<SharedValueMessage<T, R>>) -> T
    decreases msgs.len(),
{
    if msgs.len() == 0 {
        seed
    } else {
        stored_after(value_after(seed, msgs.drop_last()), LockState::idle(), msgs.last())
    }
}

/// A best-effort write is never held back: whatever holds are active, it is
/// handled as soon as it arrives.
pub proof fn lemma_write_never_waits<T, R>(lock: LockState, data: T)
    ensures
        ready_for::<T, R>(lock, SharedValueMessage::Write { data }),
{
}

/// Whatever run of requests an actor has handled, the value it stores is one
/// complete value: the seed, or the whole value that one of the writes carried.
pub proof fn lemma_value_is_complete<T, R>(seed: T, msgs: Seq<SharedValueMessage<T, R>>)
    ensures
        value_after(seed, msgs) == seed || exists|i: int|
            0 <= i < msgs.len() && written_data(#[trigger] msgs[i]) == Some(value_after(seed, msgs)),
    decreases msgs.len(),
{
    if msgs.len() > 0 {
        let prev = msgs.drop_last();
        lemma_value_is_complete(seed, prev);
        if written_data(msgs.last()) is None {
            if value_after(seed, prev) != seed {
                let i = choose|i: int| 0 <= i < prev.len() && written_data(#[trigger] prev[i]) == Some(
                    value_after(seed, prev),
                );
                assert(msgs[i] == prev[i]);
            }
        } else {
            assert(msgs[msgs.len() - 1] == msgs.last());
        }
    }
}

/// After any number of exclusive writes, the stored value is exactly the value
/// of the last one to be handled.
pub proof fn lemma_exclusive_writes_keep_last<T, R>(seed: T, msgs: Seq<SharedValueMessage<T, R>>)
    requires
        msgs.len() > 0,
        forall|i: int| 0 <= i < msgs.len() ==> #[trigger] msgs[i] is WriteLock,
    ensures
        written_data(msgs.last()) == Some(value_after(seed, msgs)),
{
    assert(msgs[msgs.len() - 1] is WriteLock);
}

/// A shared read, whatever requests came before it, answers with a clone of
/// one complete value: the seed, or the whole value of one of those writes.
pub proof fn lemma_read_lock_sees_complete_value<T: Clone, R>(
    seed: T,
    msgs: Seq<SharedValueMessage<T, R>>,
    tx: R,
    r: Action<T, R>,
)
    requires
        action_for(value_after(seed, msgs), LockState::idle(), SharedValueMessage::ReadLock { tx }, r),
    ensures
        r is Reply,
        ready_for::<T, R>(LockState::idle(), SharedValueMessage::ReadLock { tx }),
        strictly_cloned(seed, r->snapshot) || exists|i: int|
            0 <= i < msgs.len() && written_data(#[trigger] msgs[i]) == Some(value_after(seed, msgs))
                && strictly_cloned(value_after(seed, msgs), r->snapshot),
{
    lemma_value_is_complete(seed, msgs);
}

/// An exclusive write of `v` followed by a shared read answers with a clone of
/// `v`, whatever was handled before.
pub proof fn lemma_write_lock_then_read_lock<T: Clone, R>(
    seed: T,
    msgs: Seq<SharedValueMessage<T, R>>,
    v: T,
    tx: R,
    r: Action<T, R>,
)
    requires
        action_for(
            value_after(seed, msgs.push(SharedValueMessage::WriteLock { data: v })),
            LockState::idle(),
            SharedValueMessage::ReadLock { tx },
            r,
        ),
    ensures
        value_after(seed, msgs.push(SharedValueMessage::WriteLock { data: v })) == v,
        r is Reply,
        r->tx == tx,
        strictly_cloned(v, r->snapshot),
{
    assert(msgs.push(SharedValueMessage::WriteLock { data: v }).drop_last() =~= msgs);
}

/// The private state of the actor that serialises every access to one value.
pub struct SharedValueActor<T> {
    storage: T,
    lock: LockState,
}

impl<T: Clone> SharedValueActor<T> {
    pub closed spec fn value(&self) -> T {
        self.storage
    }

    pub closed spec fn lock(&self) -> LockState {
        self.lock
    }

    /// Between two requests no hold is active: each one taken while handling a
    /// request is released before the request is done.
    pub open spec fn wf(&self) -> bool {
        self.lock() == LockState::idle()
    }

    pub fn new(data: T) -> (r: SharedValueActor<T>)
        ensures
            r.wf(),
            r.value() == data,
    {
        SharedValueActor { storage: data, lock: LockState::new() }
    }

    /// The stored value.
    pub fn current(&self) -> (r: &T)
        ensures
            *r == self.value(),
    {
        &self.storage
    }

    /// Whether `msg` can be granted now; a request that cannot waits for the
    /// next wake and is tried again.
    pub fn is_ready<R>(&self, msg: &SharedValueMessage<T, R>) -> (r: bool)
        ensures
            r == ready_for(self.lock(), *msg),
    {
        match msg {
            SharedValueMessage::WriteLock { .. } => self.lock.can_exclude(),
            SharedValueMessage::ReadLock { .. } => self.lock.can_share(),
            _ => true,
        }
    }

    /// Handles one granted request.
    pub fn handle<R>(&mut self, msg: SharedValueMessage<T, R>) -> (r: Action<T, R>)
        requires
            old(self).wf(),
            ready_for(old(self).lock(), msg),
        ensures
            final(self).wf(),
            final(self).value() == stored_after(old(self).value(), old(self).lock(), msg),
            action_for(old(self).value(), old(self).lock(), msg, r),
    {
        match msg {
            SharedValueMessage::Write { data } => {
                if !self.lock.exclusive_active {
                    self.storage = data;
                    Action::Stored
                } else {
                    Action::Dropped
                }
            },
            SharedValueMessage::Read { tx } => {
                let snapshot = self.storage.clone();
                Action::Reply { tx, snapshot, wake: false }
            },
            SharedValueMessage::WriteLock { data } => {
                self.lock.acquire_exclusive();
                self.storage = data;
                self.lock.release_exclusive();
                Action::Stored
            },
            SharedValueMessage::ReadLock { tx } => {
                self.lock.acquire_shared();
                let snapshot = self.storage.clone();
                self.lock.release_shared();
                Action::Reply { tx, snapshot, wake: true }
            },
        }
    }
}

} // verus!
