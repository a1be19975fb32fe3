use vstd::prelude::*;
use vstd::multiset::Multiset;
use crate::job::{CallbackRef, Job};
use crate::sandbox::{resolved, validate_path};
use crate::status::FSASYNC;

verus! {

/// The host-thread side of the library: the count of callbacks still owed, and
/// whether the tick hook is subscribed.
pub struct Dispatcher {
    /// Callback-bound jobs submitted and not yet delivered.
    pub pending: usize,
    /// Whether the tick hook is subscribed to the host's periodic tick.
    pub subscribed: bool,
    /// Whether the completion bridge has been found closed.
    pub closed: bool,
    /// The callbacks still owed, one entry per outstanding job.
    pub outstanding: Ghost<Multiset<CallbackRef>>,
}

/// What the host does with a submission.
pub enum Submission {
    /// The identifier failed validation: nothing is written and no callback runs.
    Rejected,
    /// Write the payload now, on the host thread, then call the callback (if
    /// any) with the identifier and `status_of` the outcome.
    Inline { raw_path: String, path: String, data: Vec<u8>, append: bool, has_callback: bool },
    /// Hand the job to the worker pool; subscribe the tick hook first when
    /// `subscribe` is set.
    Queued { job: Job, subscribe: bool },
}

/// What one non-blocking receive from the completion bridge gave.
pub enum BridgeEvent {
    /// A completed job.
    Received(Job),
    /// Nothing is waiting.
    Empty,
    /// Every sender is gone; nothing will come any more.
    Disconnected,
}

/// A callback to invoke on the host thread, and with what.
pub struct Delivery {
    /// The callback, released after the call.
    pub callback: CallbackRef,
    /// The identifier the caller gave.
    pub raw_path: String,
    /// The outcome of the file operation.
    pub status: FSASYNC,
}

/// What the host does on one tick.
pub struct Tick {
    /// The callback to invoke, if a completion arrived.
    pub deliver: Option<Delivery>,
    /// Whether to unsubscribe the tick hook afterwards.
    pub unsubscribe: bool,
}

/// The state after a callback-bound job is queued.
pub open spec fn on_submit(s: Dispatcher, h: CallbackRef) -> Dispatcher {
    Dispatcher {
        pending: (s.pending + 1) as usize,
        subscribed: true,
        closed: s.closed,
        outstanding: Ghost(s.outstanding@.insert(h)),
    }
}

/// The state after the completion of a job with callback `h` is delivered.
pub open spec fn on_delivery(s: Dispatcher, h: CallbackRef) -> Dispatcher {
    Dispatcher {
        pending: (s.pending - 1) as usize,
        subscribed: s.subscribed && s.pending != 1,
        closed: s.closed,
        outstanding: Ghost(s.outstanding@.remove(h)),
    }
}

impl Dispatcher {
    /// The counter counts exactly the callbacks owed; the hook is subscribed
    /// only while some are owed, and always while some are owed and the bridge is
    /// open.
    pub open spec fn wf(&self) -> bool {
        &&& self.pending == self.outstanding@.len()
        &&& self.subscribed ==> self.pending > 0
        &&& (!self.closed && self.pending > 0) ==> self.subscribed
    }

    /// Nothing pending, the hook unsubscribed, the bridge open.
    pub fn new() -> (r: Dispatcher)
        ensures
            r.wf(),
            r.pending == 0,
            !r.subscribed,
            !r.closed,
            r.outstanding@ == Multiset::<CallbackRef>::empty(),
    {
        Dispatcher { pending: 0, subscribed: false, closed: false, outstanding: Ghost(Multiset::empty()) }
    }

    /// Callback-bound jobs not yet delivered.
    pub fn pending(&self) -> (r: usize)
        ensures
            r == self.pending,
    {
        self.pending
    }

    /// Whether the tick hook is subscribed.
    pub fn subscribed(&self) -> (r: bool)
        ensures
            r == self.subscribed,
    {
        self.subscribed
    }

    /// Dispatches a submission whose identifier has been validated to `validated`
    /// (`None` when validation failed). Returns the status for the caller and
    /// what the host is to do. A queued job with a callback is counted, and asks
    /// for the tick hook unless it is already subscribed.
    pub fn submit(
        &mut self,
        raw_path: String,
        validated: Option<String>,
        data: Vec<u8>,
        callback: Option<CallbackRef>,
        sync: bool,
        append: bool,
    ) -> (r: (FSASYNC, Submission))
        requires
            old(self).wf(),
            (validated is Some && !sync && callback is Some) ==> old(self).pending < usize::MAX,
        ensures
            final(self).wf(),
            validated is None ==> r.0 == FSASYNC::FSASYNC_ERR_FILEOPEN && r.1 is Rejected,
            validated is Some ==> r.0 == FSASYNC::FSASYNC_OK,
            (validated is None || sync || callback is None) ==> *final(self) == *old(self),
            (validated is Some && sync) ==> (r.1 matches Submission::Inline {
                raw_path: rp,
                path: q,
                data: d,
                append: a,
                has_callback: c,
            } && rp == raw_path && q == validated->0 && d == data && a == append && c == (callback is Some)),
            (validated is Some && !sync) ==> (r.1 matches Submission::Queued {
                job: j,
                subscribe: s,
            } && j.raw_path == raw_path && j.path == validated->0 && j.data == data && j.callback
                == callback && j.append == append && j.result is None && j.wf() && s == (
            callback is Some && !old(self).subscribed)),
            (validated is Some && !sync && callback is Some) ==> *final(self) == on_submit(
                *old(self),
                callback->0,
            ),
    {
        match validated {
            None => (FSASYNC::FSASYNC_ERR_FILEOPEN, Submission::Rejected),
            Some(path) => {
                if sync {
                    let has_callback = callback.is_some();
                    (FSASYNC::FSASYNC_OK, Submission::Inline { raw_path, path, data, append, has_callback })
                } else {
                    let mut subscribe = false;
                    match callback {
                        Some(h) => {
                            subscribe = !self.subscribed;
                            self.subscribed = true;
                            self.pending = self.pending + 1;
                            self.outstanding = Ghost(self.outstanding@.insert(h));
                        },
                        None => {},
                    }
                    let job = Job::new(raw_path, path, data, callback, append);
                    (FSASYNC::FSASYNC_OK, Submission::Queued { job, subscribe })
                }
            },
        }
    }

    /// Submits a write that replaces the file's contents. The identifier is
    /// validated first; one that the lexical rules reject is refused with
    /// `FSASYNC_ERR_FILEOPEN`, with no job, no callback and no change of state.
    pub fn async_write(
        &mut self,
        file_name: &str,
        data: Vec<u8>,
        callback: Option<CallbackRef>,
        sync: bool,
    ) -> (r: (FSASYNC, Submission))
        requires
            old(self).wf(),
            (!sync && callback is Some) ==> old(self).pending < usize::MAX,
        ensures
            final(self).wf(),
            resolved(file_name@) is None ==> r.0 == FSASYNC::FSASYNC_ERR_FILEOPEN && r.1 is Rejected
                && *final(self) == *old(self),
            r.1 is Rejected <==> r.0 == FSASYNC::FSASYNC_ERR_FILEOPEN,
            !(r.1 is Rejected) ==> r.0 == FSASYNC::FSASYNC_OK,
            r.1 matches Submission::Inline { raw_path, path, data: d, append, has_callback } ==> {
                &&& sync
                &&& raw_path@ == file_name@
                &&& resolved(file_name@) == Some(path@)
                &&& d == data
                &&& !append
                &&& has_callback == (callback is Some)
                &&& *final(self) == *old(self)
            },
            r.1 matches Submission::Queued { job, subscribe } ==> {
                &&& !sync
                &&& job.raw_path@ == file_name@
                &&& resolved(file_name@) == Some(job.path@)
                &&& job.data == data
                &&& !job.append
                &&& job.callback == callback
                &&& job.result is None
                &&& subscribe == (callback is Some && !old(self).subscribed)
                &&& callback is None ==> *final(self) == *old(self)
                &&& callback is Some ==> *final(self) == on_submit(*old(self), callback->0)
            },
    {
        let validated = validate_path(file_name);
        self.submit(file_name.to_owned(), validated, data, callback, sync, false)
    }

    /// Submits a write that appends to the file, creating it when absent. The
    /// identifier is validated as for `async_write`.
    pub fn async_append(
        &mut self,
        file_name: &str,
        data: Vec<u8>,
        callback: Option<CallbackRef>,
        sync: bool,
    ) -> (r: (FSASYNC, Submission))
        requires
            old(self).wf(),
            (!sync && callback is Some) ==> old(self).pending < usize::MAX,
        ensures
            final(self).wf(),
            resolved(file_name@) is None ==> r.0 == FSASYNC::FSASYNC_ERR_FILEOPEN && r.1 is Rejected
                && *final(self) == *old(self),
            r.1 is Rejected <==> r.0 == FSASYNC::FSASYNC_ERR_FILEOPEN,
            !(r.1 is Rejected) ==> r.0 == FSASYNC::FSASYNC_OK,
            r.1 matches Submission::Inline { raw_path, path, data: d, append, has_callback } ==> {
                &&& sync
                &&& raw_path@ == file_name@
                &&& resolved(file_name@) == Some(path@)
                &&& d == data
                &&& append
                &&& has_callback == (callback is Some)
                &&& *final(self) == *old(self)
            },
            r.1 matches Submission::Queued { job, subscribe } ==> {
                &&& !sync
                &&& job.raw_path@ == file_name@
                &&& resolved(file_name@) == Some(job.path@)
                &&& job.data == data
                &&& job.append
                &&& job.callback == callback
                &&& job.result is None
                &&& subscribe == (callback is Some && !old(self).subscribed)
                &&& callback is None ==> *final(self) == *old(self)
                &&& callback is Some ==> *final(self) == on_submit(*old(self), callback->0)
            },
    {
        let validated = validate_path(file_name);
        self.submit(file_name.to_owned(), validated, data, callback, sync, true)
    }

    /// One tick of the hook: acts on what one non-blocking receive from the
    /// completion bridge gave. A completed job is delivered and counted off; the
    /// hook unsubscribes when the count reaches zero, or when the bridge is closed.
    pub fn poll(&mut self, event: BridgeEvent) -> (r: Tick)
        requires
            old(self).wf(),
            event matches BridgeEvent::Received(j) ==> j.completed() && old(
                self,
            ).outstanding@.count(j.callback->0) > 0,
        ensures
            final(self).wf(),
            event is Empty ==> r.deliver is None && !r.unsubscribe && *final(self) == *old(self),
            event is Disconnected ==> {
                &&& r.deliver is None
                &&& r.unsubscribe
                &&& !final(self).subscribed
                &&& final(self).closed
                &&& final(self).pending == old(self).pending
                &&& final(self).outstanding == old(self).outstanding
            },
            event matches BridgeEvent::Received(j) ==> {
                &&& r.deliver matches Some(d) && d.callback == j.callback->0 && d.raw_path
                    == j.raw_path && d.status == j.result->0
                &&& *final(self) == on_delivery(*old(self), j.callback->0)
                &&& r.unsubscribe == (final(self).pending == 0)
            },
    {
        match event {
            BridgeEvent::Received(job) => {
                let callback = match job.callback {
                    Some(h) => h,
                    None => 0,
                };
                let status = match job.result {
                    Some(s) => s,
                    None => FSASYNC::FSASYNC_OK,
                };
                self.pending = self.pending - 1;
                self.outstanding = Ghost(self.outstanding@.remove(callback));
                let unsubscribe = self.pending == 0;
                if unsubscribe {
                    self.subscribed = false;
                }
                Tick { deliver: Some(Delivery { callback, raw_path: job.raw_path, status }), unsubscribe }
            },
            BridgeEvent::Empty => Tick { deliver: None, unsubscribe: false },
            BridgeEvent::Disconnected => {
                self.subscribed = false;
                self.closed = true;
                Tick { deliver: None, unsubscribe: true }
            },
        }
    }
}

} // verus!
