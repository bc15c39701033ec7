//! The batching state machine.
//!
//! A [`Batcher`] coordinates many producers that submit units of work against
//! one shared resource. At most one batch is ever in flight: an append while
//! idle launches immediately as a singleton batch, while appends during an
//! in-flight run are coalesced into exactly one follow-up batch. Completion
//! callbacks are tracked per batch: the callbacks of the batch in flight fire
//! when that run completes, and callbacks registered while it ran are rotated
//! in for the follow-up batch.
//!
//! The batcher never invokes the run operation or the callbacks itself; it
//! returns actions that the embedding program must carry out. This keeps the
//! coordinator independent of how runs execute (synchronously, on an event
//! loop, or as asynchronous tasks) and lets every transition be verified.

use vstd::prelude::*;

verus! {

/// The abstract state of a [`Batcher`]: the value of each of its four fields,
/// with the buffers as mathematical sequences.
#[verifier::ext_equal]
pub ghost struct BatcherView<T, C> {
    /// True while a run is in flight (launched, `done` not yet called).
    pub running: bool,
    /// Values submitted since the in-flight batch launched, in submission
    /// order; they form the next batch.
    pub pending_batch: Seq<T>,
    /// Callbacks registered by appends that were queued; they belong to the
    /// next batch, not the one in flight.
    pub pending_callbacks: Seq<C>,
    /// Callbacks of the batch currently in flight; they fire when `done` is
    /// called for it.
    pub callbacks: Seq<C>,
}

impl<T, C> BatcherView<T, C> {
    /// The state of a freshly constructed batcher: idle, all buffers empty.
    pub open spec fn init() -> BatcherView<T, C> {
        BatcherView {
            running: false,
            pending_batch: Seq::empty(),
            pending_callbacks: Seq::empty(),
            callbacks: Seq::empty(),
        }
    }

    /// The batcher's internal invariant: an idle batcher holds nothing in any
    /// buffer, and queued callbacks exist only alongside queued values (every
    /// queued callback was registered together with a value, and the first
    /// value of a queuing phase clears stale callbacks first).
    pub open spec fn wf(self) -> bool {
        &&& !self.running ==> {
            &&& self.pending_batch.len() == 0
            &&& self.pending_callbacks.len() == 0
            &&& self.callbacks.len() == 0
        }
        &&& self.pending_batch.len() == 0 ==> self.pending_callbacks.len() == 0
    }

    /// The state after `append(value)` with the given optional callback.
    ///
    /// While running, the value is queued; the first value of a new queuing
    /// phase (pending batch empty) resets the pending callbacks before the
    /// callback, if any, is added. While idle, the batch `[value]` launches:
    /// the flag is set and a supplied callback becomes the sole callback of
    /// the new in-flight batch.
    pub open spec fn after_append(self, value: T, callback: Option<C>) -> BatcherView<T, C> {
        if self.running {
            BatcherView {
                running: true,
                pending_batch: self.pending_batch.push(value),
                pending_callbacks: if self.pending_batch.len() == 0 {
                    match callback {
                        Some(c) => Seq::empty().push(c),
                        None => Seq::empty(),
                    }
                } else {
                    match callback {
                        Some(c) => self.pending_callbacks.push(c),
                        None => self.pending_callbacks,
                    }
                },
                callbacks: self.callbacks,
            }
        } else {
            BatcherView {
                running: true,
                pending_batch: self.pending_batch,
                pending_callbacks: self.pending_callbacks,
                callbacks: match callback {
                    Some(c) => Seq::empty().push(c),
                    None => self.callbacks,
                },
            }
        }
    }

    /// Whether `done` settles to idle: nothing was queued while the batch ran.
    pub open spec fn done_settles(self) -> bool {
        self.pending_batch.len() == 0 && self.pending_callbacks.len() == 0
    }

    /// The state after `done` on a running batcher: the pending buffers are
    /// drained, the pending callbacks rotate in as the callbacks of the next
    /// batch, and the batcher either goes idle or launches the drained batch
    /// at once.
    pub open spec fn after_done(self) -> BatcherView<T, C> {
        BatcherView {
            running: !self.done_settles(),
            pending_batch: Seq::empty(),
            pending_callbacks: Seq::empty(),
            callbacks: self.pending_callbacks,
        }
    }
}

/// What an append requires of the caller.
#[derive(Debug)]
pub enum AppendAction<T> {
    /// The batcher was idle: this batch launched. The caller must invoke the
    /// run operation with it, exactly once; the run's owner must call `done`
    /// when it completes.
    Launched(Vec<T>),
    /// A batch was in flight: the value was queued into the follow-up batch
    /// and nothing is to be done now.
    Queued,
}

/// What follows a completed run.
#[derive(Debug)]
pub enum DoneAction<T> {
    /// Nothing accumulated while the batch ran: the batcher is idle again.
    Idle,
    /// Work accumulated: this batch launched immediately, with no idle window.
    /// The caller must invoke the run operation with it, exactly once, after
    /// notifying the completed batch's callbacks.
    Launch(Vec<T>),
}

/// Everything `done` asks the caller to carry out, in order: first invoke each
/// callback in `notify` with `result`, then perform `next`.
#[derive(Debug)]
pub struct DoneOutcome<T, C, R> {
    /// The completion result, forwarded unchanged for the callbacks.
    pub result: R,
    /// The completed batch's callbacks, in registration order; each is to be
    /// invoked once with `result`, before `next` is performed.
    pub notify: Vec<C>,
    /// Whether the batcher settled to idle or launched the follow-up batch.
    pub next: DoneAction<T>,
}

/// Misuse of the completion protocol.
#[derive(Clone, Copy, Debug, PartialEq, Eq, Structural)]
pub enum ProtocolError {
    /// `done` was called while no run was in flight (double completion or a
    /// stray caller); the state is left untouched.
    DoneWhileIdle,
}

/// The batching coordinator. `T` is the unit of work submitted per append and
/// `C` the caller's completion-callback representation (the batcher only
/// stores and rotates callbacks, so any handle type serves).
pub struct Batcher<T, C> {
    running: bool,
    pending_batch: Vec<T>,
    pending_callbacks: Vec<C>,
    callbacks: Vec<C>,
}

impl<T, C> View for Batcher<T, C> {
    type V = BatcherView<T, C>;

    closed spec fn view(&self) -> BatcherView<T, C> {
        BatcherView {
            running: self.running,
            pending_batch: self.pending_batch@,
            pending_callbacks: self.pending_callbacks@,
            callbacks: self.callbacks@,
        }
    }
}

impl<T, C> Batcher<T, C> {
    /// Creates an idle batcher with all buffers empty.
    pub fn new() -> (b: Batcher<T, C>)
        ensures
            b@ == BatcherView::<T, C>::init(),
            b@.wf(),
    {
        let b = Batcher {
            running: false,
            pending_batch: Vec::new(),
            pending_callbacks: Vec::new(),
            callbacks: Vec::new(),
        };
        proof {
            assert(b@ =~= BatcherView::<T, C>::init());
        }
        b
    }

    /// Submits one unit of work without a completion callback.
    ///
    /// On an idle batcher this launches the singleton batch `[value]` at
    /// once; while a batch is in flight the value is queued into the one
    /// follow-up batch, in submission order.
    pub fn append(&mut self, value: T) -> (a: AppendAction<T>)
        requires
            old(self)@.wf(),
        ensures
            final(self)@ == old(self)@.after_append(value, Option::<C>::None),
            final(self)@.wf(),
            final(self)@.running,
            !old(self)@.running ==> (a matches AppendAction::Launched(batch) && batch@ == Seq::empty().push(value)),
            old(self)@.running ==> a matches AppendAction::Queued,
    {
        self.append_opt(value, None)
    }

    /// Submits one unit of work together with a completion callback.
    ///
    /// The callback is tied to the batch the value actually ships in: an
    /// immediate launch makes it the in-flight batch's sole callback, while a
    /// queued append files it for the follow-up batch.
    pub fn appendcb(&mut self, value: T, callback: C) -> (a: AppendAction<T>)
        requires
            old(self)@.wf(),
        ensures
            final(self)@ == old(self)@.after_append(value, Some(callback)),
            final(self)@.wf(),
            final(self)@.running,
            !old(self)@.running ==> (a matches AppendAction::Launched(batch) && batch@ == Seq::empty().push(value)),
            old(self)@.running ==> a matches AppendAction::Queued,
    {
        self.append_opt(value, Some(callback))
    }

    /// Shared transition of the two append entry points.
    fn append_opt(&mut self, value: T, callback: Option<C>) -> (a: AppendAction<T>)
        requires
            old(self)@.wf(),
        ensures
            final(self)@ == old(self)@.after_append(value, callback),
            final(self)@.wf(),
            final(self)@.running,
            !old(self)@.running ==> (a matches AppendAction::Launched(batch) && batch@ == Seq::empty().push(value)),
            old(self)@.running ==> a matches AppendAction::Queued,
    {
        let ghost pre = *self;
        if self.running {
            if self.pending_batch.len() == 0 {
                self.pending_callbacks.clear();
            }
            self.pending_batch.push(value);
            if let Some(c) = callback {
                self.pending_callbacks.push(c);
            }
            proof {
                assert(self@ =~= pre@.after_append(value, callback));
            }
            AppendAction::Queued
        } else {
            if let Some(c) = callback {
                self.callbacks.clear();
                self.callbacks.push(c);
            }
            self.running = true;
            let mut batch: Vec<T> = Vec::new();
            batch.push(value);
            proof {
                assert(self@ =~= pre@.after_append(value, callback));
                assert(batch@ == Seq::empty().push(value));
            }
            AppendAction::Launched(batch)
        }
    }

    /// Completes the batch in flight, forwarding `result` unchanged.
    ///
    /// Exactly one call is owed per launched batch. It hands back the
    /// completed batch's callbacks, drains whatever was queued meanwhile,
    /// rotates the queued callbacks in for that follow-up batch, and either
    /// settles to idle or launches the follow-up batch with no idle window in
    /// between. Calling it while idle is a protocol violation: the error is
    /// reported and the state is untouched.
    pub fn done<R>(&mut self, result: R) -> (r: Result<DoneOutcome<T, C, R>, ProtocolError>)
        requires
            old(self)@.wf(),
        ensures
            final(self)@.wf(),
            old(self)@.running ==> {
                &&& r matches Ok(out)
                &&& out.result == result
                &&& out.notify@ == old(self)@.callbacks
                &&& final(self)@ == old(self)@.after_done()
                &&& old(self)@.done_settles() ==> out.next is Idle
                &&& !old(self)@.done_settles() ==> match out.next {
                    DoneAction::Launch(batch) => batch@ == old(self)@.pending_batch,
                    DoneAction::Idle => false,
                }
            },
            !old(self)@.running ==> {
                &&& r matches Err(e) && e == ProtocolError::DoneWhileIdle
                &&& final(self)@ == old(self)@
            },
    {
        let ghost pre = *self;
        if !self.running {
            return Err(ProtocolError::DoneWhileIdle);
        }
        let mut notify: Vec<C> = Vec::new();
        core::mem::swap(&mut notify, &mut self.callbacks);
        self.running = false;
        let mut next_batch: Vec<T> = Vec::new();
        core::mem::swap(&mut next_batch, &mut self.pending_batch);
        core::mem::swap(&mut self.callbacks, &mut self.pending_callbacks);
        if next_batch.len() == 0 && self.callbacks.len() == 0 {
            proof {
                assert(self@ =~= pre@.after_done());
            }
            Ok(DoneOutcome { result, notify, next: DoneAction::Idle })
        } else {
            self.running = true;
            proof {
                assert(self@ =~= pre@.after_done());
            }
            Ok(DoneOutcome { result, notify, next: DoneAction::Launch(next_batch) })
        }
    }

    /// Whether a run is currently in flight.
    pub fn is_running(&self) -> (r: bool)
        ensures
            r == self@.running,
    {
        self.running
    }
}

} // verus!
