use vstd::prelude::*;
use crate::render::ReadError;

verus! {

/// How many times a file is read before the read is given up.
pub const MAX_READ_ATTEMPTS: u32 = 3;

/// How long to wait, in milliseconds, between two attempts.
pub const READ_BACKOFF_MS: u64 = 300;

/// What the caller does after reporting one attempt.
pub enum ReadStep {
    /// The read succeeded: here is the whole text.
    Done(String),
    /// Wait this many milliseconds, then read again.
    Backoff(u64),
    /// Every attempt failed.
    Failed(ReadError),
}

/// The retry policy of one read of one file. Editors that save by removing
/// and recreating a file make a read fail for a moment; a few attempts with a
/// pause between them ride that out.
pub struct ResilientReader {
    pub path: String,
    /// Attempts that failed so far.
    pub failures: u32,
}

/// `post` and `step` are what reporting `outcome` to `pre` gives.
pub open spec fn read_transition(
    pre: ResilientReader,
    outcome: Result<String, String>,
    post: ResilientReader,
    step: ReadStep,
) -> bool {
    &&& post.path == pre.path
    &&& match outcome {
        Ok(text) => post.failures == pre.failures && step == ReadStep::Done(text),
        Err(cause) => {
            &&& post.failures == pre.failures + 1
            &&& if post.failures < MAX_READ_ATTEMPTS {
                step == ReadStep::Backoff(READ_BACKOFF_MS)
            } else {
                step == ReadStep::Failed(ReadError { path: pre.path, cause })
            }
        },
    }
}

impl ResilientReader {
    /// Attempts remain.
    pub open spec fn wf(&self) -> bool {
        self.failures < MAX_READ_ATTEMPTS
    }

    pub fn new(path: String) -> (r: ResilientReader)
        ensures
            r.path == path,
            r.failures == 0,
            r.wf(),
    {
        ResilientReader { path, failures: 0 }
    }

    /// Whether the read has been given up.
    pub fn exhausted(&self) -> (r: bool)
        ensures
            r == !self.wf(),
    {
        self.failures >= MAX_READ_ATTEMPTS
    }

    /// Reports the outcome of one attempt (the text, or the cause of the
    /// failure) and says what to do next.
    pub fn record(&mut self, outcome: Result<String, String>) -> (step: ReadStep)
        requires
            old(self).wf(),
        ensures
            read_transition(*old(self), outcome, *final(self), step),
            step is Backoff ==> final(self).wf(),
    {
        match outcome {
            Ok(text) => ReadStep::Done(text),
            Err(cause) => {
                self.failures = self.failures + 1;
                if self.failures < MAX_READ_ATTEMPTS {
                    ReadStep::Backoff(READ_BACKOFF_MS)
                } else {
                    ReadStep::Failed(ReadError { path: self.path.clone(), cause })
                }
            },
        }
    }
}

/// A read that fails twice and then succeeds delivers the text of the third
/// attempt, after two pauses of the full backoff.
pub proof fn lemma_retry_recovers(
    r0: ResilientReader,
    r1: ResilientReader,
    r2: ResilientReader,
    r3: ResilientReader,
    e1: String,
    e2: String,
    text: String,
    s1: ReadStep,
    s2: ReadStep,
    s3: ReadStep,
)
    requires
        r0.failures == 0,
        read_transition(r0, Err(e1), r1, s1),
        read_transition(r1, Err(e2), r2, s2),
        read_transition(r2, Ok(text), r3, s3),
    ensures
        s1 == ReadStep::Backoff(READ_BACKOFF_MS),
        s2 == ReadStep::Backoff(READ_BACKOFF_MS),
        s3 == ReadStep::Done(text),
{
}

/// A read that fails on every attempt pauses between attempts and then
/// gives up with the cause of the last failure.
pub proof fn lemma_retry_exhausted(
    r0: ResilientReader,
    r1: ResilientReader,
    r2: ResilientReader,
    r3: ResilientReader,
    e1: String,
    e2: String,
    e3: String,
    s1: ReadStep,
    s2: ReadStep,
    s3: ReadStep,
)
    requires
        r0.failures == 0,
        read_transition(r0, Err(e1), r1, s1),
        read_transition(r1, Err(e2), r2, s2),
        read_transition(r2, Err(e3), r3, s3),
    ensures
        s1 == ReadStep::Backoff(READ_BACKOFF_MS),
        s2 == ReadStep::Backoff(READ_BACKOFF_MS),
        s3 == ReadStep::Failed(ReadError { path: r0.path, cause: e3 }),
        !r3.wf(),
{
}

} // verus!
