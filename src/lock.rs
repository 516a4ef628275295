use vstd::prelude::*;

verus! {

/// The thread that holds a lock and how many times it has taken it.
#[derive(Clone, Copy, Debug, PartialEq, Eq, Structural)]
pub struct Ownership {
    pub owner: u64,
    pub holders: usize,
}

/// Who holds a lock: nobody, or a thread with a count of holds.
pub type Holding = Option<(u64, nat)>;

/// The holding after `thread` tries to take the lock, and whether it got it.
pub open spec fn lock_step(h: Holding, thread: u64) -> (Holding, bool) {
    match h {
        None => (Some((thread, 1nat)), true),
        Some((owner, n)) => if owner == thread {
            (Some((owner, n + 1)), true)
        } else {
            (h, false)
        },
    }
}

/// The holding after its owner releases the lock once.
pub open spec fn unlock_step(h: Holding) -> Holding {
    match h {
        Some((owner, n)) => if n <= 1 {
            None
        } else {
            Some((owner, (n - 1) as nat))
        },
        None => None,
    }
}

/// The holding after `thread` has taken the lock `k` times.
pub open spec fn lock_times(h: Holding, thread: u64, k: nat) -> Holding
    decreases k,
{
    if k == 0 {
        h
    } else {
        lock_step(lock_times(h, thread, (k - 1) as nat), thread).0
    }
}

/// The holding after `j` releases.
pub open spec fn unlock_times(h: Holding, j: nat) -> Holding
    decreases j,
{
    if j == 0 {
        h
    } else {
        unlock_step(unlock_times(h, (j - 1) as nat))
    }
}

/// A lock that the thread holding it may take again without blocking.
///
/// It owns the value it protects; the value is reached through the lock only.
pub struct SpinLock<T> {
    value: T,
    ownership: Option<Ownership>,
}

impl<T> SpinLock<T> {
    pub closed spec fn value(&self) -> T {
        self.value
    }

    pub closed spec fn holding(&self) -> Holding {
        match self.ownership {
            None => None,
            Some(o) => Some((o.owner, o.holders as nat)),
        }
    }

    pub closed spec fn wf(&self) -> bool {
        self.ownership matches Some(o) ==> o.holders >= 1
    }

    pub open spec fn held_by(&self, thread: u64) -> bool {
        self.holding() matches Some((owner, _)) && owner == thread
    }

    /// Creates a lock, held by nobody, around `t`.
    pub fn new(t: T) -> (r: SpinLock<T>)
        ensures
            r.wf(),
            r.value() == t,
            r.holding() is None,
    {
        SpinLock { value: t, ownership: None }
    }

    /// One attempt of `thread` to take the lock. It succeeds when nobody holds
    /// the lock or when `thread` already does; otherwise nothing changes and
    /// the caller tries again later.
    pub fn lock(&mut self, thread: u64) -> (r: bool)
        requires
            old(self).wf(),
            old(self).held_by(thread) ==> old(self).holding().unwrap().1 < usize::MAX,
        ensures
            final(self).wf(),
            final(self).value() == old(self).value(),
            (final(self).holding(), r) == lock_step(old(self).holding(), thread),
            old(self).holding() is None ==> r && final(self).holding() == Some((thread, 1nat)),
            old(self).held_by(thread) ==> r && final(self).holding() == Some(
                (thread, old(self).holding().unwrap().1 + 1),
            ),
            old(self).holding() is Some && !old(self).held_by(thread) ==> !r && final(self).holding()
                == old(self).holding(),
    {
        match &mut self.ownership {
            None => {
                self.ownership = Some(Ownership { owner: thread, holders: 1 });
                true
            },
            Some(o) => {
                if o.owner == thread {
                    o.holders = o.holders + 1;
                    true
                } else {
                    false
                }
            },
        }
    }

    /// Releases one hold of `thread`; the outermost release frees the lock.
    pub fn unlock(&mut self, thread: u64)
        requires
            old(self).wf(),
            old(self).held_by(thread),
        ensures
            final(self).wf(),
            final(self).value() == old(self).value(),
            final(self).holding() == unlock_step(old(self).holding()),
    {
        let cleanup = match &mut self.ownership {
            Some(o) => {
                o.holders = o.holders - 1;
                o.holders == 0
            },
            None => false,
        };
        if cleanup {
            self.ownership = None;
        }
    }

    /// The thread that holds the lock, if any.
    pub fn owner(&self) -> (r: Option<u64>)
        ensures
            r == match self.holding() {
                None => None,
                Some((owner, _)) => Some(owner),
            },
    {
        match &self.ownership {
            None => None,
            Some(o) => Some(o.owner),
        }
    }

    /// How many times the holder has taken the lock; 0 when it is free.
    pub fn hold_count(&self) -> (r: usize)
        ensures
            r == match self.holding() {
                None => 0,
                Some((_, n)) => n,
            },
    {
        match &self.ownership {
            None => 0,
            Some(o) => o.holders,
        }
    }

    /// The protected value, for a thread that holds the lock.
    pub fn get(&self, thread: u64) -> (r: &T)
        requires
            self.held_by(thread),
        ensures
            *r == self.value(),
    {
        &self.value
    }

    /// The protected value, to change, for a thread that holds the lock.
    pub fn get_mut(&mut self, thread: u64) -> (r: &mut T)
        requires
            old(self).held_by(thread),
        ensures
            *r == old(self).value(),
            final(self).value() == *final(r),
            final(self).holding() == old(self).holding(),
            final(self).wf() == old(self).wf(),
    {
        &mut self.value
    }
}

/// The lock is reentrant: a thread that holds it takes it again at once, as
/// often as it likes. Another thread cannot take it until the holder has
/// released it as often as it took it, and can take it right after the
/// outermost release.
pub proof fn law_reentrant_lock(thread: u64, other: u64, k: nat, j: nat)
    requires
        thread != other,
        k >= 1,
        j <= k,
    ensures
        lock_step(lock_times(None, thread, (k - 1) as nat), thread).1,
        lock_times(None, thread, k) == Some((thread, k)),
        j < k ==> !lock_step(unlock_times(lock_times(None, thread, k), j), other).1,
        j < k ==> unlock_times(lock_times(None, thread, k), j) == Some((thread, (k - j) as nat)),
        unlock_times(lock_times(None, thread, k), k) is None,
        lock_step(unlock_times(lock_times(None, thread, k), k), other).1,
{
    lemma_lock_times(thread, k);
    lemma_unlock_times(thread, k, j);
    lemma_unlock_times(thread, k, k);
}

proof fn lemma_lock_times(thread: u64, k: nat)
    requires
        k >= 1,
    ensures
        lock_times(None, thread, k) == Some((thread, k)),
    decreases k,
{
    if k > 1 {
        lemma_lock_times(thread, (k - 1) as nat);
    } else {
        assert(lock_times(None, thread, 0) == None::<(u64, nat)>);
    }
}

proof fn lemma_unlock_times(thread: u64, k: nat, j: nat)
    requires
        j <= k,
        k >= 1,
    ensures
        j < k ==> unlock_times(Some((thread, k)), j) == Some((thread, (k - j) as nat)),
        j == k ==> unlock_times(Some((thread, k)), j) is None,
    decreases j,
{
    if j > 0 {
        lemma_unlock_times(thread, k, (j - 1) as nat);
    }
}

} // verus!
