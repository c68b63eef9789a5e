//! A counting model of one path's concurrency: the occupancy of the
//! three bounded channels, the scrape workers in flight, and the permits
//! of the shared semaphore. Each transition carries the guard under
//! which the real stage may take the corresponding step, so the model
//! proves what the wiring is meant to guarantee: permits are conserved,
//! channels never overfill, a stalled post stage stops the fetcher, and
//! a cancelled path drains to a state with every permit returned.

use vstd::prelude::*;

verus! {

/// The counters of one running path.
pub struct PathState {
    /// Buffer bound of the fetcher's raw channel.
    pub raw_cap: usize,
    /// Buffer bound of the two inner channels.
    pub inner_cap: usize,
    /// Capacity of the scrape semaphore.
    pub permit_cap: usize,
    /// Items sitting in the raw channel (fetcher to prior).
    pub raw_len: usize,
    /// Items sitting in the process channel (prior to scrape).
    pub proc_len: usize,
    /// Items sitting in the result channel (scrape to post).
    pub result_len: usize,
    /// Scrape workers in flight, each holding one permit.
    pub workers: usize,
    /// Permits currently free in the semaphore.
    pub permits_free: usize,
    /// Whether the path's root token was cancelled.
    pub cancelled: bool,
}

impl PathState {
    /// The path invariant: channels within their bounds, and every
    /// permit either free or held by exactly one worker.
    pub open spec fn wf(&self) -> bool {
        &&& self.raw_len <= self.raw_cap
        &&& self.proc_len <= self.inner_cap
        &&& self.result_len <= self.inner_cap
        &&& self.workers + self.permits_free == self.permit_cap
    }

    /// A freshly wired path: empty channels, all permits free.
    pub fn new(raw_cap: usize, inner_cap: usize, permit_cap: usize) -> (s: Self)
        ensures
            s.wf(),
            s.raw_cap == raw_cap,
            s.inner_cap == inner_cap,
            s.permit_cap == permit_cap,
            s.raw_len == 0,
            s.proc_len == 0,
            s.result_len == 0,
            s.workers == 0,
            s.permits_free == permit_cap,
            !s.cancelled,
    {
        PathState {
            raw_cap,
            inner_cap,
            permit_cap,
            raw_len: 0,
            proc_len: 0,
            result_len: 0,
            workers: 0,
            permits_free: permit_cap,
            cancelled: false,
        }
    }

    /// The fetcher may hand a popped payload onward only while the raw
    /// channel has room and the path is live; this guard is why a full
    /// raw channel stops further `BLPOP` issuing.
    pub open spec fn fetch_enabled(&self) -> bool {
        !self.cancelled && self.raw_len < self.raw_cap
    }

    /// The fetcher delivers one payload into the raw channel.
    pub fn fetch_deliver(&mut self)
        requires
            old(self).wf(),
            old(self).fetch_enabled(),
        ensures
            final(self).wf(),
            *final(self) == (PathState { raw_len: (old(self).raw_len + 1) as usize, ..*old(self) }),
    {
        self.raw_len = self.raw_len + 1;
    }

    /// The prior stage consumes one raw payload and forwards the built
    /// item; it needs room in the process channel.
    pub open spec fn prior_enabled(&self) -> bool {
        !self.cancelled && self.raw_len > 0 && self.proc_len < self.inner_cap
    }

    pub fn prior_forward(&mut self)
        requires
            old(self).wf(),
            old(self).prior_enabled(),
        ensures
            final(self).wf(),
            *final(self) == (PathState {
                raw_len: (old(self).raw_len - 1) as usize,
                proc_len: (old(self).proc_len + 1) as usize,
                ..*old(self)
            }),
    {
        self.raw_len = self.raw_len - 1;
        self.proc_len = self.proc_len + 1;
    }

    /// The prior stage drops an undecodable payload: it leaves the raw
    /// channel and nothing is forwarded.
    pub fn prior_drop(&mut self)
        requires
            old(self).wf(),
            old(self).raw_len > 0,
        ensures
            final(self).wf(),
            *final(self) == (PathState { raw_len: (old(self).raw_len - 1) as usize, ..*old(self) }),
    {
        self.raw_len = self.raw_len - 1;
    }

    /// The dispatcher may start a worker only with a free permit and a
    /// waiting item.
    pub open spec fn dispatch_enabled(&self) -> bool {
        !self.cancelled && self.proc_len > 0 && self.permits_free > 0
    }

    /// The dispatcher takes one item and one permit and spawns a worker.
    pub fn dispatch_worker(&mut self)
        requires
            old(self).wf(),
            old(self).dispatch_enabled(),
        ensures
            final(self).wf(),
            *final(self) == (PathState {
                proc_len: (old(self).proc_len - 1) as usize,
                workers: (old(self).workers + 1) as usize,
                permits_free: (old(self).permits_free - 1) as usize,
                ..*old(self)
            }),
    {
        self.proc_len = self.proc_len - 1;
        self.workers = self.workers + 1;
        self.permits_free = self.permits_free - 1;
    }

    /// A worker may send its result only while the result channel has
    /// room; a blocked post stage therefore keeps workers alive and
    /// their permits held.
    pub open spec fn worker_send_enabled(&self) -> bool {
        self.workers > 0 && self.result_len < self.inner_cap
    }

    pub fn worker_send(&mut self)
        requires
            old(self).wf(),
            old(self).worker_send_enabled(),
        ensures
            final(self).wf(),
            *final(self) == (PathState { result_len: (old(self).result_len + 1) as usize, ..*old(
                self,
            ) }),
    {
        self.result_len = self.result_len + 1;
    }

    /// A worker ends — after sending, or abandoning its send on
    /// cancellation — and its permit returns to the semaphore on every
    /// such path.
    pub fn worker_finish(&mut self)
        requires
            old(self).wf(),
            old(self).workers > 0,
        ensures
            final(self).wf(),
            *final(self) == (PathState {
                workers: (old(self).workers - 1) as usize,
                permits_free: (old(self).permits_free + 1) as usize,
                ..*old(self)
            }),
    {
        self.workers = self.workers - 1;
        self.permits_free = self.permits_free + 1;
    }

    /// The post stage consumes one result.
    pub fn post_take(&mut self)
        requires
            old(self).wf(),
            old(self).result_len > 0,
        ensures
            final(self).wf(),
            *final(self) == (PathState { result_len: (old(self).result_len - 1) as usize, ..*old(
                self,
            ) }),
    {
        self.result_len = self.result_len - 1;
    }

    /// Cancelling the root token: stages accept no further items.
    pub fn cancel(&mut self)
        requires
            old(self).wf(),
        ensures
            final(self).wf(),
            *final(self) == (PathState { cancelled: true, ..*old(self) }),
    {
        self.cancelled = true;
    }

    /// Tearing a path down: cancel, then join every in-flight worker.
    /// It returns after finitely many joins, and afterwards no worker
    /// remains and the semaphore is back at full capacity — no permit
    /// leaks through cancellation.
    pub fn stop(&mut self)
        requires
            old(self).wf(),
        ensures
            final(self).wf(),
            final(self).cancelled,
            final(self).workers == 0,
            final(self).permits_free == final(self).permit_cap,
    {
        self.cancel();
        while self.workers > 0
            invariant
                self.wf(),
                self.cancelled,
            decreases self.workers,
        {
            self.worker_finish();
        }
    }
}

/// Back-pressure. The items a path holds at once are bounded by the
/// configured buffers plus the semaphore capacity; and once the path is
/// saturated — result channel full, every permit taken, process and raw
/// channels full — no stage upstream of the post stage can move: in
/// particular the fetcher is stopped.
pub proof fn lemma_backpressure(s: PathState)
    requires
        s.wf(),
    ensures
        s.raw_len + s.proc_len + s.workers + s.result_len <= s.raw_cap + s.inner_cap
            + s.permit_cap + s.inner_cap,
        (s.result_len == s.inner_cap && s.workers == s.permit_cap && s.permit_cap > 0
            && s.proc_len == s.inner_cap && s.raw_len == s.raw_cap) ==> {
            &&& !s.fetch_enabled()
            &&& !s.prior_enabled()
            &&& !s.dispatch_enabled()
            &&& !s.worker_send_enabled()
        },
{
}

/// Cancellation restores the semaphore. In any well-formed state, a
/// path holds exactly `permit_cap` permits between its free pool and
/// its workers, so when the last worker has finished, the free pool is
/// the full capacity again.
pub proof fn lemma_permits_conserved(s: PathState)
    requires
        s.wf(),
    ensures
        s.workers == 0 ==> s.permits_free == s.permit_cap,
{
}

} // verus!
