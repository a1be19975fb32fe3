use vstd::prelude::*;
use crate::status::FSASYNC;

verus! {

/// A reference to a host-side callable, held in the host's registry until the
/// callback is delivered.
pub type CallbackRef = i32;

/// How a file operation ended.
#[derive(Debug, Clone, Copy, PartialEq, Eq, Structural)]
pub enum WriteOutcome {
    /// The file was opened and the whole payload written.
    Written,
    /// The file could not be opened or created.
    OpenFailed,
    /// The file was opened but writing the payload failed.
    WriteFailed,
}

/// The status reported for each outcome.
pub open spec fn status_spec(o: WriteOutcome) -> FSASYNC {
    match o {
        WriteOutcome::Written => FSASYNC::FSASYNC_OK,
        WriteOutcome::OpenFailed => FSASYNC::FSASYNC_ERR_FILEOPEN,
        WriteOutcome::WriteFailed => FSASYNC::FSASYNC_ERR_FAILURE,
    }
}

/// The status reported to the host for the outcome of a file operation.
pub fn status_of(o: WriteOutcome) -> (r: FSASYNC)
    ensures
        r == status_spec(o),
{
    match o {
        WriteOutcome::Written => FSASYNC::FSASYNC_OK,
        WriteOutcome::OpenFailed => FSASYNC::FSASYNC_ERR_FILEOPEN,
        WriteOutcome::WriteFailed => FSASYNC::FSASYNC_ERR_FAILURE,
    }
}

/// One file write or append, with its destiny: fire-and-forget when it has no
/// callback, delivered back to the host when it has one.
#[derive(Debug)]
pub struct Job {
    /// The identifier as the caller gave it, handed back to the callback.
    pub raw_path: String,
    /// The validated path that is written.
    pub path: String,
    /// The payload.
    pub data: Vec<u8>,
    /// The callback to deliver the result to, if any.
    pub callback: Option<CallbackRef>,
    /// Append to the file rather than replace its contents.
    pub append: bool,
    /// The result, set once the operation has run, and only for a job with a
    /// callback.
    pub result: Option<FSASYNC>,
}

impl Job {
    /// A job is consistent when a result is only ever attached to a job that
    /// will be delivered.
    pub open spec fn wf(&self) -> bool {
        self.result is Some ==> self.callback is Some
    }

    /// Whether this job has run and waits to be delivered to its callback.
    pub open spec fn completed(&self) -> bool {
        self.callback is Some && self.result is Some
    }

    /// A job that has not run yet.
    pub fn new(
        raw_path: String,
        path: String,
        data: Vec<u8>,
        callback: Option<CallbackRef>,
        append: bool,
    ) -> (r: Job)
        ensures
            r.raw_path == raw_path,
            r.path == path,
            r.data == data,
            r.callback == callback,
            r.append == append,
            r.result is None,
            r.wf(),
    {
        Job { raw_path, path, data, callback, append, result: None }
    }

    /// Records how the job's file operation ended. A job without a callback is
    /// dropped here, its outcome unobserved; a job with one comes back carrying
    /// its status, its payload released, ready for the completion bridge.
    pub fn complete(self, outcome: WriteOutcome) -> (r: Option<Job>)
        ensures
            self.callback is None ==> r is None,
            self.callback is Some ==> r is Some,
            r matches Some(j) ==> {
                &&& j.raw_path == self.raw_path
                &&& j.path == self.path
                &&& j.callback == self.callback
                &&& j.append == self.append
                &&& j.data@.len() == 0
                &&& j.result == Some(status_spec(outcome))
                &&& j.completed()
            },
    {
        match self.callback {
            None => None,
            Some(_) => {
                let mut job = self;
                job.data = Vec::new();
                job.result = Some(status_of(outcome));
                Some(job)
            },
        }
    }
}

} // verus!
