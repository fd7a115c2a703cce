use vstd::prelude::*;

verus! {

/// The Linux errno value EINVAL. On a write to the wakeup-count file it is
/// the kernel's signal that the counter changed since it was read: a wakeup
/// occurred.
pub const ERRNO_EINVAL: i32 = 22;

/// The Linux errno value EBUSY. On a write to the wakeup-count file it
/// means kernel autosleep is engaged by another actor; on a write to the
/// suspend-state file it means something currently blocks suspend.
pub const ERRNO_EBUSY: i32 = 16;

/// The race-free suspend handshake's token: the exact counter text that was
/// read when the handshake began. The kernel's contract demands that the text
/// written back at commit be byte-identical to the text read, or the write
/// is rejected — that is what detects an intervening wakeup. The field is
/// private so the text cannot be altered between the two phases.
pub struct WakeupCountToken {
    count: String,
}

impl View for WakeupCountToken {
    type V = Seq<char>;

    closed spec fn view(&self) -> Seq<char> {
        self.count@
    }
}

impl WakeupCountToken {
    /// Starts the handshake over the counter text just read from the kernel.
    pub fn begin(count: String) -> (t: Self)
        ensures
            t@ == count@,
    {
        WakeupCountToken { count }
    }

    /// The exact text that commit must write back: byte-identical to what
    /// `begin` received.
    pub fn payload(&self) -> (r: &str)
        ensures
            r@ == self@,
    {
        self.count.as_str()
    }
}

/// How the write-back phase of the wakeup-count handshake ended.
#[derive(Clone, Copy, Debug, PartialEq, Eq, Structural)]
pub enum CommitOutcome {
    /// The write was accepted: no wakeup occurred since the counter was read,
    /// and it is now safe to suspend.
    Clean,
    /// The counter changed — a wakeup occurred during the wait. Expected
    /// in normal operation; the cycle restarts.
    CounterChanged,
    /// Kernel autosleep is engaged by another actor. Not expected, but it
    /// must not crash the daemon; the cycle restarts.
    AutosleepBusy,
    /// Any other I/O error: the daemon must terminate.
    Fatal,
}

/// Classifies the result of writing the token back: `Ok` when the kernel
/// accepted the write, otherwise the errno the write failed with (`None`
/// when the failure carried no errno).
pub fn classify_commit_write(outcome: Result<(), Option<i32>>) -> (r: CommitOutcome)
    ensures
        (r == CommitOutcome::Clean <==> outcome is Ok),
        (r == CommitOutcome::CounterChanged <==> outcome == Result::<(), Option<i32>>::Err(
            Some(ERRNO_EINVAL),
        )),
        (r == CommitOutcome::AutosleepBusy <==> outcome == Result::<(), Option<i32>>::Err(
            Some(ERRNO_EBUSY),
        )),
{
    match outcome {
        Ok(()) => CommitOutcome::Clean,
        Err(Some(code)) => {
            if code == ERRNO_EINVAL {
                CommitOutcome::CounterChanged
            } else if code == ERRNO_EBUSY {
                CommitOutcome::AutosleepBusy
            } else {
                CommitOutcome::Fatal
            }
        },
        Err(None) => CommitOutcome::Fatal,
    }
}

} // verus!
