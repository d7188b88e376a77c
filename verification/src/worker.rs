//! Dispatch worker life cycle. One cancellable worker drains one typed
//! channel and hands each item to the application handler of its current
//! generation. The worker suspends only on bounded-timeout receives, so a
//! set cancellation flag is observed within one poll interval. Handler
//! replacement is stop-drain-join-restart: signal cancellation, join the
//! worker to a full stop, clear the flag, start the next generation. The
//! channel itself is never recreated, so queued items survive replacement.
//!
//! The polling loop itself runs on an application-owned thread; the state
//! transitions it takes are the functions here.

use vstd::prelude::*;

use crate::channel::FifoChannel;

verus! {

/// Life-cycle state of a dispatch worker.
#[derive(Debug, Clone, Copy, PartialEq, Eq, Structural)]
pub enum WorkerState {
    /// No thread running.
    Stopped,
    /// The thread loops: deliver an item, or check the flag on timeout.
    Running,
    /// Cancellation signaled, thread not yet joined.
    Stopping,
}

/// A dispatch worker bound to one channel: its life-cycle state, its
/// cancellation flag, the handler generation it serves, and the trace of
/// items handed to handlers, oldest first (kept as ghost history).
pub struct DispatchWorker<T> {
    pub state: WorkerState,
    pub cancel: bool,
    pub generation: u64,
    pub handled: Ghost<Seq<T>>,
}

/// Worker state after one poll: a timed-out wait on an empty channel is
/// the only point where the cancellation flag is observed.
pub open spec fn spec_poll_state(state: WorkerState, cancel: bool, queue_empty: bool) -> WorkerState {
    if queue_empty && cancel {
        WorkerState::Stopped
    } else {
        state
    }
}

/// Signaling cancellation: the flag is set; a running worker is logically
/// stopping until joined.
pub open spec fn spec_signal<T>(w: DispatchWorker<T>) -> DispatchWorker<T> {
    DispatchWorker {
        state: if w.state == WorkerState::Running {
            WorkerState::Stopping
        } else {
            w.state
        },
        cancel: true,
        ..w
    }
}

/// Joining a signaled worker: the thread has observed the flag and exited.
pub open spec fn spec_join<T>(w: DispatchWorker<T>) -> DispatchWorker<T> {
    DispatchWorker { state: WorkerState::Stopped, ..w }
}

/// Starting the next handler generation on a stopped worker.
pub open spec fn spec_start_next<T>(w: DispatchWorker<T>) -> DispatchWorker<T> {
    DispatchWorker {
        state: WorkerState::Running,
        cancel: false,
        generation: (w.generation + 1) as u64,
        ..w
    }
}

/// The whole replacement protocol: signal, join, clear-and-restart.
pub open spec fn spec_replace<T>(w: DispatchWorker<T>) -> DispatchWorker<T> {
    spec_start_next(spec_join(spec_signal(w)))
}

impl<T> DispatchWorker<T> {
    /// A worker that has not been started: no thread, no trace.
    pub fn new() -> (r: Self)
        ensures
            r.state == WorkerState::Stopped,
            r.cancel == false,
            r.generation == 0u64,
            r.handled@ == Seq::<T>::empty(),
    {
        DispatchWorker {
            state: WorkerState::Stopped,
            cancel: false,
            generation: 0,
            handled: Ghost(Seq::empty()),
        }
    }

    /// Starts the first worker thread on a stopped, uncancelled worker.
    pub fn start(&mut self)
        requires
            old(self).state == WorkerState::Stopped,
        ensures
            *final(self) == (DispatchWorker {
                state: WorkerState::Running,
                cancel: false,
                ..*old(self)
            }),
    {
        self.state = WorkerState::Running;
        self.cancel = false;
    }

    /// One poll step of the worker loop, taken on the worker's thread: if
    /// an item is queued, it is removed and returned for the handler —
    /// the flag is not checked on this path; on an empty channel (a
    /// timed-out wait) the cancellation flag is observed and a set flag
    /// stops the worker.
    pub fn poll(&mut self, chan: &mut FifoChannel<T>) -> (r: Option<T>)
        requires
            old(self).state != WorkerState::Stopped,
        ensures
            final(self).state == spec_poll_state(
                old(self).state,
                old(self).cancel,
                old(chan)@.len() == 0,
            ),
            final(self).cancel == old(self).cancel,
            final(self).generation == old(self).generation,
            old(chan)@.len() > 0 ==> (r matches Some(it) && it == old(chan)@[0] && final(chan)@
                == old(chan)@.drop_first() && final(self).handled@ == old(self).handled@.push(
                old(chan)@[0],
            )),
            old(chan)@.len() == 0 ==> (r is None && final(chan)@ == old(chan)@
                && final(self).handled@ == old(self).handled@),
    {
        match chan.try_pop() {
            Some(it) => {
                proof {
                    self.handled@ = self.handled@.push(it);
                }
                Some(it)
            },
            None => {
                if self.cancel {
                    self.state = WorkerState::Stopped;
                }
                None
            },
        }
    }

    /// Signals cancellation; the worker observes it within one poll
    /// interval.
    pub fn signal_cancel(&mut self)
        ensures
            *final(self) == spec_signal(*old(self)),
    {
        self.cancel = true;
        if self.state == WorkerState::Running {
            self.state = WorkerState::Stopping;
        }
    }

    /// Joins a signaled worker to a full stop; the queue is untouched and
    /// the trace of handled items is kept.
    pub fn join(&mut self)
        requires
            old(self).cancel == true,
        ensures
            *final(self) == spec_join(*old(self)),
    {
        self.state = WorkerState::Stopped;
    }

    /// Replaces the handler: signal cancellation, join the worker to
    /// completion, clear the flag, and start the next generation. At no
    /// point do two generations run at once, and the channel is not
    /// touched: queued items await the new generation.
    pub fn replace_handler(&mut self)
        requires
            old(self).generation < u64::MAX,
        ensures
            *final(self) == spec_replace(*old(self)),
            final(self).state == WorkerState::Running,
            final(self).cancel == false,
            final(self).generation == old(self).generation + 1,
            final(self).handled == old(self).handled,
    {
        self.signal_cancel();
        self.join();
        self.cancel = false;
        self.generation = self.generation + 1;
        self.state = WorkerState::Running;
    }

    /// Tears the worker down for good: signal and join, leaving the flag
    /// set so no further generation starts by accident.
    pub fn shutdown(&mut self)
        ensures
            *final(self) == spec_join(spec_signal(*old(self))),
            final(self).state == WorkerState::Stopped,
            final(self).handled == old(self).handled,
    {
        self.signal_cancel();
        self.join();
    }
}

/// The four dispatch workers of a session, one per typed channel.
pub struct DispatchWorkerPool {
    pub msg: DispatchWorker<crate::solmsg::SolMsg>,
    pub request: DispatchWorker<crate::solmsg::SolMsg>,
    pub p2p: DispatchWorker<crate::solmsg::SolMsg>,
    pub event: DispatchWorker<crate::solevent::SolEvent>,
}

impl DispatchWorkerPool {
    /// All four workers fresh and stopped.
    pub fn new() -> (r: Self)
        ensures
            r.msg.state == WorkerState::Stopped,
            r.request.state == WorkerState::Stopped,
            r.p2p.state == WorkerState::Stopped,
            r.event.state == WorkerState::Stopped,
    {
        DispatchWorkerPool {
            msg: DispatchWorker::new(),
            request: DispatchWorker::new(),
            p2p: DispatchWorker::new(),
            event: DispatchWorker::new(),
        }
    }

    /// Session teardown: all four cancellation flags are set, then all
    /// four workers are joined, before any channel is released. No worker
    /// survives and every handled trace is kept.
    pub fn shutdown_all(&mut self)
        ensures
            final(self).msg == spec_join(spec_signal(old(self).msg)),
            final(self).request == spec_join(spec_signal(old(self).request)),
            final(self).p2p == spec_join(spec_signal(old(self).p2p)),
            final(self).event == spec_join(spec_signal(old(self).event)),
            final(self).msg.state == WorkerState::Stopped,
            final(self).request.state == WorkerState::Stopped,
            final(self).p2p.state == WorkerState::Stopped,
            final(self).event.state == WorkerState::Stopped,
    {
        self.msg.signal_cancel();
        self.request.signal_cancel();
        self.p2p.signal_cancel();
        self.event.signal_cancel();
        self.msg.join();
        self.request.join();
        self.p2p.join();
        self.event.join();
    }
}

/// First-in-first-out dispatch: one poll hands the handler the oldest
/// queued item, the trace of handled items plus the queue is conserved,
/// and earlier handled items keep their place — so of two items enqueued
/// in order, the first is handled before the second.
pub proof fn lemma_fifo_per_channel<T>(handled: Seq<T>, queue: Seq<T>)
    requires
        queue.len() > 0,
    ensures
        handled.push(queue[0]) + queue.drop_first() == handled + queue,
        handled.push(queue[0]).len() > handled.len(),
        forall|i: int| 0 <= i < handled.len() ==> handled.push(queue[0])[i] == handled[i],
{
    assert(handled.push(queue[0]) + queue.drop_first() =~= handled + queue);
}

/// Cancellation bounded latency: once the flag is set, the very next poll
/// that finds the channel empty stops the worker — one poll interval,
/// plus at most the in-flight item.
pub proof fn lemma_cancellation_bounded_latency(state: WorkerState, cancel: bool)
    requires
        cancel,
    ensures
        spec_poll_state(state, cancel, true) == WorkerState::Stopped,
{
}

/// Handler replacement race freedom: the protocol factors through a full
/// stop — the old generation is joined to `Stopped` before the new one
/// starts — so no two generations ever run at once; the new generation
/// runs with a cleared flag, and the handled trace (and the untouched
/// channel) carry over.
pub proof fn lemma_replacement_race_free<T>(w: DispatchWorker<T>)
    requires
        w.generation < u64::MAX,
    ensures
        spec_join(spec_signal(w)).state == WorkerState::Stopped,
        spec_replace(w) == spec_start_next(spec_join(spec_signal(w))),
        spec_replace(w).state == WorkerState::Running,
        spec_replace(w).cancel == false,
        spec_replace(w).generation == w.generation + 1,
        spec_replace(w).handled == w.handled,
{
}

/// The worker after `n` back-to-back handler replacements.
pub open spec fn spec_replace_n<T>(w: DispatchWorker<T>, n: nat) -> DispatchWorker<T>
    decreases n,
{
    if n == 0 {
        w
    } else {
        spec_replace(spec_replace_n(w, (n - 1) as nat))
    }
}

/// Replacing a handler any number of times in quick succession still
/// factors each round through a full stop: one generation per round,
/// never two at once, the handled trace kept, and the channel — which no
/// replacement touches — keeping its queued items for the newest
/// generation.
pub proof fn lemma_replacement_race_free_n<T>(w: DispatchWorker<T>, n: nat)
    requires
        w.generation + n <= u64::MAX,
    ensures
        ({
            let wn = spec_replace_n(w, n);
            &&& n > 0 ==> (wn.state == WorkerState::Running && wn.cancel == false)
            &&& wn.generation == w.generation + n
            &&& wn.handled == w.handled
            &&& n > 0 ==> spec_replace_n(w, n) == spec_start_next(
                spec_join(spec_signal(spec_replace_n(w, (n - 1) as nat))),
            )
        }),
    decreases n,
{
    if n > 0 {
        lemma_replacement_race_free_n(w, (n - 1) as nat);
    }
}

} // verus!
