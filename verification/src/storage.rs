//! The storage task's one-pass session.
//!
//! The task runs a single self-test pass against the storage collaborator:
//! query the device capacity, open volume 0, open its root directory, open
//! a named file in append-or-create mode, write a fixed payload, then close
//! file, directory and volume, in that order.  A failed capacity query ends
//! the pass at once — storage is best-effort and the task goes idle.  Once
//! a resource is open, its close runs on every exit path: a failed write,
//! or a failed close earlier in the chain, never skips the closes that are
//! still owed.  The task records the first failure and reports it at the
//! end.
//!
//! The session is a state machine: [`StorageSession::next_op`] names the
//! operation the driver must perform next, and [`StorageSession::step`]
//! consumes that operation's outcome.  The driver performs the physical
//! operations; every decision is made here.

use vstd::prelude::*;

verus! {

/// The name of the file the self-test writes.
pub fn log_file_name() -> (r: &'static str)
    ensures
        r@ == "file.txt"@,
{
    "file.txt"
}

/// The index of the logical volume the task opens.
pub const VOLUME_INDEX: usize = 0;

/// The fixed twelve-byte payload the self-test appends.
pub open spec fn log_payload_spec() -> Seq<u8> {
    seq![72u8, 101u8, 108u8, 108u8, 111u8, 32u8, 87u8, 111u8, 114u8, 108u8, 100u8, 33u8]
}

/// The bytes handed to the write operation: the text `Hello World!`.
pub fn log_payload() -> (r: Vec<u8>)
    ensures
        r@ == log_payload_spec(),
{
    let mut r: Vec<u8> = Vec::new();
    r.push(72u8);
    r.push(101u8);
    r.push(108u8);
    r.push(108u8);
    r.push(111u8);
    r.push(32u8);
    r.push(87u8);
    r.push(111u8);
    r.push(114u8);
    r.push(108u8);
    r.push(100u8);
    r.push(33u8);
    proof {
        assert(r@ =~= log_payload_spec());
    }
    r
}

/// The operations of the storage collaborator, in the order the pass
/// performs them.
#[derive(Clone, Copy, Debug, PartialEq, Eq, Structural)]
pub enum StorageOp {
    /// Ask the device how many bytes it holds.
    QueryCapacity,
    /// Open the logical volume at [`VOLUME_INDEX`].
    OpenVolume,
    /// Open the volume's root directory.
    OpenRootDir,
    /// Open [`log_file_name`] in append-or-create mode.
    OpenFile,
    /// Append [`log_payload`] to the open file.
    Write,
    /// Close the open file.
    CloseFile,
    /// Close the open directory.
    CloseDir,
    /// Close the open volume.
    CloseVolume,
}

/// How a failed storage operation is classified.
#[derive(Clone, Copy, Debug, PartialEq, Eq, Structural)]
pub enum StorageError {
    /// The physical device refused or garbled a transfer.
    Device,
    /// The volume's filesystem refused the operation.
    Filesystem,
}

/// What one performed operation came back with.
#[derive(Clone, Copy, Debug, PartialEq, Eq, Structural)]
pub enum StorageOutcome {
    /// The capacity query succeeded: the device holds this many bytes.
    Capacity(u64),
    /// Any other operation succeeded.
    Completed,
    /// The operation failed.
    Failed(StorageError),
}

/// Whether an outcome is one the given operation can report: the capacity
/// query reports a byte count or a failure, every other operation reports
/// completion or a failure.
pub open spec fn outcome_matches(op: StorageOp, outcome: StorageOutcome) -> bool {
    match outcome {
        StorageOutcome::Capacity(_) => op is QueryCapacity,
        StorageOutcome::Completed => op !is QueryCapacity,
        StorageOutcome::Failed(_) => true,
    }
}

/// The storage task's session state.  `next_op` is the operation the
/// driver owes the collaborator next — `None` once the pass is over.
/// `capacity` is the queried byte count once known, and `error` the first
/// failure observed, if any.
#[derive(Clone, Copy, Debug, PartialEq, Eq, Structural)]
pub struct StorageSession {
    pub next_op: Option<StorageOp>,
    pub capacity: Option<u64>,
    pub error: Option<StorageError>,
}

impl StorageSession {
    /// A fresh session, about to query the device capacity.
    pub open spec fn spec_new() -> StorageSession {
        StorageSession {
            next_op: Some(StorageOp::QueryCapacity),
            capacity: None,
            error: None,
        }
    }

    /// A session that can actually be reached: while no error is recorded,
    /// the capacity is known as soon as the query is behind us.
    pub open spec fn wf(self) -> bool {
        self.error is None && self.next_op != Some(StorageOp::QueryCapacity) ==> self.capacity is Some
    }

    /// The session after consuming one outcome.  A failed capacity query
    /// or volume open ends the pass with nothing to release; a failure
    /// after that jumps to the closes still owed — a directory open that
    /// failed leaves the volume to close, a file open that failed leaves
    /// directory and volume, and from the write on the whole close chain
    /// runs whatever the write and the closes themselves report.  Only the
    /// first failure is recorded.
    pub open spec fn spec_step(self, outcome: StorageOutcome) -> StorageSession {
        if self.next_op is None {
            self
        } else {
            let op = self.next_op->0;
            let failed = self.after_failure(outcome);
            match op {
                StorageOp::QueryCapacity => match outcome {
                    StorageOutcome::Capacity(n) => StorageSession {
                        next_op: Some(StorageOp::OpenVolume),
                        capacity: Some(n),
                        ..self
                    },
                    _ => StorageSession { next_op: None, ..failed },
                },
                StorageOp::OpenVolume => match outcome {
                    StorageOutcome::Failed(_) => StorageSession { next_op: None, ..failed },
                    _ => StorageSession { next_op: Some(StorageOp::OpenRootDir), ..self },
                },
                StorageOp::OpenRootDir => match outcome {
                    StorageOutcome::Failed(_) => StorageSession {
                        next_op: Some(StorageOp::CloseVolume),
                        ..failed
                    },
                    _ => StorageSession { next_op: Some(StorageOp::OpenFile), ..self },
                },
                StorageOp::OpenFile => match outcome {
                    StorageOutcome::Failed(_) => StorageSession {
                        next_op: Some(StorageOp::CloseDir),
                        ..failed
                    },
                    _ => StorageSession { next_op: Some(StorageOp::Write), ..self },
                },
                StorageOp::Write => StorageSession { next_op: Some(StorageOp::CloseFile), ..failed },
                StorageOp::CloseFile => StorageSession { next_op: Some(StorageOp::CloseDir), ..failed },
                StorageOp::CloseDir => StorageSession { next_op: Some(StorageOp::CloseVolume), ..failed },
                StorageOp::CloseVolume => StorageSession { next_op: None, ..failed },
            }
        }
    }

    /// This session with the outcome's failure recorded, if it is one and
    /// none came earlier.
    pub open spec fn after_failure(self, outcome: StorageOutcome) -> StorageSession {
        match outcome {
            StorageOutcome::Failed(e) => if self.error is None {
                StorageSession { error: Some(e), ..self }
            } else {
                self
            },
            _ => self,
        }
    }

    /// What the pass reports once it is over: the queried capacity, or the
    /// first failure.  `None` while operations are still owed.
    pub open spec fn spec_report(self) -> Option<Result<u64, StorageError>> {
        if self.next_op is Some {
            None
        } else {
            match self.error {
                Some(e) => Some(Err(e)),
                None => Some(Ok(self.capacity->0)),
            }
        }
    }

    /// A fresh session, about to query the device capacity.
    pub fn new() -> (s: StorageSession)
        ensures
            s == StorageSession::spec_new(),
            s.wf(),
    {
        StorageSession {
            next_op: Some(StorageOp::QueryCapacity),
            capacity: None,
            error: None,
        }
    }

    /// Consume the outcome of the operation that was owed.  The driver
    /// must hand back an outcome of the right shape for that operation.
    pub fn step(&mut self, outcome: StorageOutcome)
        requires
            old(self).wf(),
            old(self).next_op is Some,
            outcome_matches(old(self).next_op->0, outcome),
        ensures
            *final(self) == old(self).spec_step(outcome),
            final(self).wf(),
    {
        let op = match self.next_op {
            Some(op) => op,
            None => { return; }
        };
        match outcome {
            StorageOutcome::Failed(e) => {
                if self.error.is_none() {
                    self.error = Some(e);
                }
            }
            StorageOutcome::Capacity(n) => {
                self.capacity = Some(n);
            }
            StorageOutcome::Completed => {}
        }
        self.next_op = match op {
            StorageOp::QueryCapacity => match outcome {
                StorageOutcome::Capacity(_) => Some(StorageOp::OpenVolume),
                _ => None,
            },
            StorageOp::OpenVolume => match outcome {
                StorageOutcome::Failed(_) => None,
                _ => Some(StorageOp::OpenRootDir),
            },
            StorageOp::OpenRootDir => match outcome {
                StorageOutcome::Failed(_) => Some(StorageOp::CloseVolume),
                _ => Some(StorageOp::OpenFile),
            },
            StorageOp::OpenFile => match outcome {
                StorageOutcome::Failed(_) => Some(StorageOp::CloseDir),
                _ => Some(StorageOp::Write),
            },
            StorageOp::Write => Some(StorageOp::CloseFile),
            StorageOp::CloseFile => Some(StorageOp::CloseDir),
            StorageOp::CloseDir => Some(StorageOp::CloseVolume),
            StorageOp::CloseVolume => None,
        };
    }

    /// What the pass reports: `None` while operations are still owed, then
    /// the queried capacity on success, or the first failure.
    pub fn report(&self) -> (r: Option<Result<u64, StorageError>>)
        requires
            self.wf(),
        ensures
            r == self.spec_report(),
    {
        match self.next_op {
            Some(_) => None,
            None => match self.error {
                Some(e) => Some(Err(e)),
                None => match self.capacity {
                    Some(n) => Some(Ok(n)),
                    None => None,
                },
            },
        }
    }
}

/// The session after consuming a whole sequence of outcomes, first first.
pub open spec fn spec_run(s: StorageSession, outcomes: Seq<StorageOutcome>) -> StorageSession
    decreases outcomes.len(),
{
    if outcomes.len() == 0 {
        s
    } else {
        spec_run(s.spec_step(outcomes[0]), outcomes.skip(1))
    }
}

/// The operations the session asks for, in order, when driven by the given
/// outcomes: one per outcome consumed, stopping when the pass is over.
pub open spec fn spec_trace(s: StorageSession, outcomes: Seq<StorageOutcome>) -> Seq<StorageOp>
    decreases outcomes.len(),
{
    if outcomes.len() == 0 || s.next_op is None {
        Seq::empty()
    } else {
        seq![s.next_op->0] + spec_trace(s.spec_step(outcomes[0]), outcomes.skip(1))
    }
}

/// A finished pass stays finished: further outcomes change nothing.
pub proof fn lemma_run_terminal(s: StorageSession, outcomes: Seq<StorageOutcome>)
    requires
        s.next_op is None,
    ensures
        spec_run(s, outcomes) == s,
        spec_trace(s, outcomes) == Seq::<StorageOp>::empty(),
    decreases outcomes.len(),
{
    if outcomes.len() > 0 {
        lemma_run_terminal(s, outcomes.skip(1));
    }
}

/// Resource safety of the close-down chain: once file, directory and
/// volume are open, then for every outcome of the write step — success or
/// failure — and every outcome of the closes themselves, the pass performs
/// `CloseFile`, `CloseDir` and `CloseVolume`, each exactly once and in that
/// order, and then ends.  No handle is leaked on any exit path.
pub proof fn lemma_close_chain(
    n: u64,
    w: StorageOutcome,
    c1: StorageOutcome,
    c2: StorageOutcome,
    c3: StorageOutcome,
)
    requires
        w !is Capacity,
        c1 !is Capacity,
        c2 !is Capacity,
        c3 !is Capacity,
    ensures
        spec_trace(
            StorageSession::spec_new(),
            seq![StorageOutcome::Capacity(n), StorageOutcome::Completed, StorageOutcome::Completed,
                StorageOutcome::Completed, w, c1, c2, c3],
        ) =~= seq![
            StorageOp::QueryCapacity,
            StorageOp::OpenVolume,
            StorageOp::OpenRootDir,
            StorageOp::OpenFile,
            StorageOp::Write,
            StorageOp::CloseFile,
            StorageOp::CloseDir,
            StorageOp::CloseVolume,
        ],
        spec_run(
            StorageSession::spec_new(),
            seq![StorageOutcome::Capacity(n), StorageOutcome::Completed, StorageOutcome::Completed,
                StorageOutcome::Completed, w, c1, c2, c3],
        ).next_op is None,
{
    let outs = seq![StorageOutcome::Capacity(n), StorageOutcome::Completed, StorageOutcome::Completed,
        StorageOutcome::Completed, w, c1, c2, c3];
    let r1 = seq![StorageOutcome::Completed, StorageOutcome::Completed, StorageOutcome::Completed,
        w, c1, c2, c3];
    let r2 = seq![StorageOutcome::Completed, StorageOutcome::Completed, w, c1, c2, c3];
    let r3 = seq![StorageOutcome::Completed, w, c1, c2, c3];
    let r4 = seq![w, c1, c2, c3];
    let r5 = seq![c1, c2, c3];
    let r6 = seq![c2, c3];
    let r7 = seq![c3];
    let r8 = Seq::<StorageOutcome>::empty();
    assert(outs.skip(1) =~= r1);
    assert(r1.skip(1) =~= r2);
    assert(r2.skip(1) =~= r3);
    assert(r3.skip(1) =~= r4);
    assert(r4.skip(1) =~= r5);
    assert(r5.skip(1) =~= r6);
    assert(r6.skip(1) =~= r7);
    assert(r7.skip(1) =~= r8);
    let s0 = StorageSession::spec_new();
    let s1 = s0.spec_step(StorageOutcome::Capacity(n));
    let s2 = s1.spec_step(StorageOutcome::Completed);
    let s3 = s2.spec_step(StorageOutcome::Completed);
    let s4 = s3.spec_step(StorageOutcome::Completed);
    let s5 = s4.spec_step(w);
    let s6 = s5.spec_step(c1);
    let s7 = s6.spec_step(c2);
    let s8 = s7.spec_step(c3);
    assert(s1.next_op == Some(StorageOp::OpenVolume));
    assert(s2.next_op == Some(StorageOp::OpenRootDir));
    assert(s3.next_op == Some(StorageOp::OpenFile));
    assert(s4.next_op == Some(StorageOp::Write));
    assert(s5.next_op == Some(StorageOp::CloseFile));
    assert(s6.next_op == Some(StorageOp::CloseDir));
    assert(s7.next_op == Some(StorageOp::CloseVolume));
    assert(s8.next_op is None);
    assert(spec_run(s8, r8) == s8);
    assert(spec_run(s7, r7) == s8);
    assert(spec_run(s6, r6) == s8);
    assert(spec_run(s5, r5) == s8);
    assert(spec_run(s4, r4) == s8);
    assert(spec_run(s3, r3) == s8);
    assert(spec_run(s2, r2) == s8);
    assert(spec_run(s1, r1) == s8);
    assert(spec_run(s0, outs) == s8);
    assert(spec_trace(s8, r8) =~= Seq::<StorageOp>::empty());
    assert(spec_trace(s7, r7) =~= seq![StorageOp::CloseVolume]);
    assert(spec_trace(s6, r6) =~= seq![StorageOp::CloseDir, StorageOp::CloseVolume]);
    assert(spec_trace(s5, r5) =~= seq![StorageOp::CloseFile, StorageOp::CloseDir,
        StorageOp::CloseVolume]);
    assert(spec_trace(s4, r4) =~= seq![StorageOp::Write, StorageOp::CloseFile, StorageOp::CloseDir,
        StorageOp::CloseVolume]);
    assert(spec_trace(s3, r3) =~= seq![StorageOp::OpenFile, StorageOp::Write, StorageOp::CloseFile,
        StorageOp::CloseDir, StorageOp::CloseVolume]);
    assert(spec_trace(s2, r2) =~= seq![StorageOp::OpenRootDir, StorageOp::OpenFile, StorageOp::Write,
        StorageOp::CloseFile, StorageOp::CloseDir, StorageOp::CloseVolume]);
    assert(spec_trace(s1, r1) =~= seq![StorageOp::OpenVolume, StorageOp::OpenRootDir,
        StorageOp::OpenFile, StorageOp::Write, StorageOp::CloseFile, StorageOp::CloseDir,
        StorageOp::CloseVolume]);
    assert(spec_trace(s0, outs) =~= seq![
        StorageOp::QueryCapacity,
        StorageOp::OpenVolume,
        StorageOp::OpenRootDir,
        StorageOp::OpenFile,
        StorageOp::Write,
        StorageOp::CloseFile,
        StorageOp::CloseDir,
        StorageOp::CloseVolume,
    ]);
}

/// Best-effort storage: a failed capacity query reports that failure and
/// performs no further storage operation at all, whatever would have been
/// fed to the session afterwards.
pub proof fn lemma_capacity_failure_stops(e: StorageError, rest: Seq<StorageOutcome>)
    ensures
        spec_trace(StorageSession::spec_new(), seq![StorageOutcome::Failed(e)] + rest)
            =~= seq![StorageOp::QueryCapacity],
        spec_run(StorageSession::spec_new(), seq![StorageOutcome::Failed(e)] + rest).spec_report()
            == Some(Err::<u64, StorageError>(e)),
{
    let outs = seq![StorageOutcome::Failed(e)] + rest;
    let s0 = StorageSession::spec_new();
    let s1 = s0.spec_step(outs[0]);
    assert(outs.skip(1) =~= rest);
    assert(s1.next_op is None);
    lemma_run_terminal(s1, rest);
}

} // verus!
