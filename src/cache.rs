use vstd::prelude::*;

verus! {

/// A lazily filled value of one expensive accessor: empty until the first
/// successful fetch, then authoritative until invalidated. Callers hold the
/// slot under its own lock from the emptiness check to the store, so that
/// concurrent readers perform one fetch between them.
pub struct CacheSlot<T> {
    value: Option<T>,
}

impl<T> View for CacheSlot<T> {
    type V = Option<T>;

    closed spec fn view(&self) -> Option<T> {
        self.value
    }
}

/// One reader holding the slot's lock: a populated slot is read as it is;
/// an empty one is fetched (yielding `fetched`) and filled. The result is the
/// slot afterwards, the value read and whether a fetch happened.
pub open spec fn read_step<T>(slot: Option<T>, fetched: T) -> (Option<T>, T, bool) {
    match slot {
        Some(v) => (slot, v, false),
        None => (Some(fetched), fetched, true),
    }
}

/// `n` readers taking the lock in turn; the `k`-th fetch yields
/// `fetches[k]`. The result is the slot afterwards, the values read in order
/// and the number of fetches.
pub open spec fn serve<T>(slot: Option<T>, fetches: Seq<T>, n: nat) -> (Option<T>, Seq<T>, nat)
    decreases n,
{
    if n == 0 {
        (slot, Seq::empty(), 0)
    } else {
        let prev = serve(slot, fetches, (n - 1) as nat);
        let step = read_step(prev.0, fetches[prev.2 as int]);
        (step.0, prev.1.push(step.1), if step.2 {
            prev.2 + 1
        } else {
            prev.2
        })
    }
}

impl<T> CacheSlot<T> {
    /// An empty slot.
    pub fn new() -> (r: Self)
        ensures
            r@ is None,
    {
        CacheSlot { value: None }
    }

    /// Whether the slot is empty, so that a reader must fetch.
    pub fn needs_fetch(&self) -> (r: bool)
        ensures
            r == self@ is None,
    {
        self.value.is_none()
    }

    /// The cached value, if any.
    pub fn get(&self) -> (r: Option<&T>)
        ensures
            match r {
                Some(v) => self@ == Some(*v),
                None => self@ is None,
            },
    {
        self.value.as_ref()
    }

    /// Stores the outcome of a fetch: a value fills the slot, a failure
    /// leaves it as it was and is handed back.
    pub fn store<E>(&mut self, fetched: Result<T, E>) -> (r: Result<(), E>)
        ensures
            match fetched {
                Ok(v) => final(self)@ == Some(v) && r is Ok,
                Err(e) => final(self)@ == old(self)@ && r == Err::<(), E>(e),
            },
    {
        match fetched {
            Ok(v) => {
                self.value = Some(v);
                Ok(())
            },
            Err(e) => Err(e),
        }
    }

    /// Empties the slot after a mutation that may have changed its value.
    pub fn invalidate(&mut self)
        ensures
            final(self)@ is None,
    {
        self.value = None;
    }
}

/// Single flight: however many readers come to an empty slot, exactly one
/// fetch happens and every reader gets the value that it fetched.
pub proof fn lemma_single_flight<T>(fetches: Seq<T>, n: nat)
    requires
        n >= 1,
        fetches.len() >= 1,
    ensures
        serve(None::<T>, fetches, n).2 == 1,
        serve(None::<T>, fetches, n).1.len() == n,
        serve(None::<T>, fetches, n).0 == Some(fetches[0]),
        forall|i: int| 0 <= i < n ==> serve(None::<T>, fetches, n).1[i] == fetches[0],
    decreases n,
{
    if n > 1 {
        lemma_single_flight(fetches, (n - 1) as nat);
        let prev = serve(None::<T>, fetches, (n - 1) as nat);
        assert forall|i: int| 0 <= i < n implies serve(None::<T>, fetches, n).1[i] == fetches[0] by {
            if i < n - 1 {
                assert(serve(None::<T>, fetches, n).1[i] == prev.1[i]);
            }
        }
    } else {
        let prev = serve(None::<T>, fetches, 0);
        assert(prev.0 is None && prev.1.len() == 0 && prev.2 == 0);
    }
}

/// A populated slot is authoritative: readers never fetch again and all see
/// the cached value.
pub proof fn lemma_populated_never_refetches<T>(v: T, fetches: Seq<T>, n: nat)
    ensures
        serve(Some(v), fetches, n).2 == 0,
        serve(Some(v), fetches, n).0 == Some(v),
        serve(Some(v), fetches, n).1 == Seq::new(n, |i: int| v),
    decreases n,
{
    if n > 0 {
        lemma_populated_never_refetches(v, fetches, (n - 1) as nat);
        assert(serve(Some(v), fetches, n).1 =~= Seq::new(n, |i: int| v));
    }
}

/// Invalidation: once a slot has been emptied, the next reader fetches and
/// gets the fresh value.
pub proof fn lemma_read_after_invalidate<T>(emptied: CacheSlot<T>, fresh: T)
    requires
        emptied@ is None,
    ensures
        read_step(emptied@, fresh) == (Some(fresh), fresh, true),
{
}

} // verus!
