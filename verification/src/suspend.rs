use vstd::prelude::*;

use crate::wakeup_count::ERRNO_EBUSY;
use crate::text::{tokenize, tokens_of, views_of, SepKind};

verus! {

/// Why no suspend mode could be selected. Either is fatal at startup.
#[derive(Clone, Copy, Debug, PartialEq, Eq, Structural)]
pub enum ModeError {
    /// An explicitly requested mode is absent from the kernel's list.
    Unsupported,
    /// The kernel lists no suspend mode at all.
    NoModes,
}

/// The suspend modes the kernel supports: the whitespace-separated tokens
/// of the suspend-state file's contents.
pub open spec fn spec_modes(states: Seq<char>) -> Seq<Seq<char>> {
    tokens_of(states, SepKind::Whitespace)
}

/// Whether `m` is one of the sequences in `ts`.
pub open spec fn seq_contains(ts: Seq<Seq<char>>, m: Seq<char>) -> bool {
    exists|i: int| 0 <= i < ts.len() && ts[i] == m
}

pub open spec fn mode_supported(states: Seq<char>, m: Seq<char>) -> bool {
    seq_contains(spec_modes(states), m)
}

/// The selection policy, first match wins: an explicit request must be in
/// the kernel's list or selection fails; otherwise "mem" is preferred,
/// then "freeze", then the first listed mode; an empty list is fatal.
pub open spec fn spec_select_mode(states: Seq<char>, requested: Option<Seq<char>>) -> Result<
    Seq<char>,
    ModeError,
> {
    match requested {
        Some(m) => if mode_supported(states, m) {
            Ok(m)
        } else {
            Err(ModeError::Unsupported)
        },
        None => if mode_supported(states, "mem"@) {
            Ok("mem"@)
        } else if mode_supported(states, "freeze"@) {
            Ok("freeze"@)
        } else if spec_modes(states).len() > 0 {
            Ok(spec_modes(states)[0])
        } else {
            Err(ModeError::NoModes)
        },
    }
}

/// Whether one of the tokens equals `m`.
fn contains_token(toks: &Vec<String>, m: &String) -> (r: bool)
    ensures
        r == seq_contains(views_of(toks@), m@),
{
    let mut i: usize = 0;
    while i < toks.len()
        invariant
            i <= toks@.len(),
            forall|t: int| 0 <= t < i ==> views_of(toks@)[t] != m@,
        decreases toks@.len() - i,
    {
        if toks[i] == *m {
            proof {
                assert(views_of(toks@)[i as int] == m@);
            }
            return true;
        }
        i = i + 1;
    }
    false
}

/// Selects the suspend mode from the suspend-state file's contents and an
/// optional explicit request, per the policy of `spec_select_mode`.
pub fn select_mode(states: &str, requested: Option<&str>) -> (r: Result<String, ModeError>)
    ensures
        ({
            let want = match requested {
                Some(s) => Some(s@),
                None => None,
            };
            match r {
                Ok(m) => spec_select_mode(states@, want) == Result::<Seq<char>, ModeError>::Ok(m@),
                Err(e) => spec_select_mode(states@, want) == Result::<Seq<char>, ModeError>::Err(e),
            }
        }),
{
    let toks = tokenize(states, SepKind::Whitespace);
    match requested {
        Some(s) => {
            let s_owned: String = s.to_owned();
            if contains_token(&toks, &s_owned) {
                Ok(s_owned)
            } else {
                Err(ModeError::Unsupported)
            }
        },
        None => {
            let mem: String = "mem".to_owned();
            let freeze: String = "freeze".to_owned();
            if contains_token(&toks, &mem) {
                Ok(mem)
            } else if contains_token(&toks, &freeze) {
                Ok(freeze)
            } else if toks.len() > 0 {
                Ok(toks[0].clone())
            } else {
                Err(ModeError::NoModes)
            }
        },
    }
}

/// What a suspend attempt should do.
#[derive(Clone, Copy, Debug, PartialEq, Eq, Structural)]
pub enum SleepAction {
    /// Dry-run configuration: no suspend-state file is held at all; report
    /// a simulated attempt and count it as a success.
    Simulate,
    /// Write the selected mode to the long-lived suspend-state handle.
    WriteMode,
}

/// How a real suspend write ended.
#[derive(Clone, Copy, Debug, PartialEq, Eq, Structural)]
pub enum SleepOutcome {
    /// The kernel accepted the write: the machine suspended and has since
    /// resumed.
    Suspended,
    /// Something currently blocks suspend; a benign, transient refusal.
    Busy,
    /// Any other I/O error: the daemon must terminate.
    Fatal,
}

/// The suspend actuator's configuration: whether this is a dry run, and
/// the mode selected at startup and held for the daemon's lifetime.
pub struct SuspendActuator {
    pub dry_run: bool,
    pub mode: String,
}

impl SuspendActuator {
    /// Builds the actuator by selecting the mode; fails exactly when the
    /// selection policy does.
    pub fn new(dry_run: bool, states: &str, requested: Option<&str>) -> (r: Result<
        SuspendActuator,
        ModeError,
    >)
        ensures
            ({
                let want = match requested {
                    Some(s) => Some(s@),
                    None => None,
                };
                match r {
                    Ok(a) => a.dry_run == dry_run && spec_select_mode(states@, want)
                        == Result::<Seq<char>, ModeError>::Ok(a.mode@),
                    Err(e) => spec_select_mode(states@, want) == Result::<
                        Seq<char>,
                        ModeError,
                    >::Err(e),
                }
            }),
    {
        match select_mode(states, requested) {
            Ok(mode) => Ok(SuspendActuator { dry_run, mode }),
            Err(e) => Err(e),
        }
    }

    /// What `sleep` does this cycle: in a dry run it only simulates, and
    /// succeeds unconditionally; otherwise the mode is written.
    pub fn plan_sleep(&self) -> (a: SleepAction)
        ensures
            a == SleepAction::Simulate <==> self.dry_run,
            a == SleepAction::WriteMode <==> !self.dry_run,
    {
        if self.dry_run {
            SleepAction::Simulate
        } else {
            SleepAction::WriteMode
        }
    }
}

/// Classifies the result of writing the mode to the suspend-state file:
/// `Ok` when the kernel accepted the write (the machine has suspended and
/// resumed), otherwise the errno the write failed with.
pub fn classify_suspend_write(outcome: Result<(), Option<i32>>) -> (r: SleepOutcome)
    ensures
        (r == SleepOutcome::Suspended <==> outcome is Ok),
        (r == SleepOutcome::Busy <==> outcome == Result::<(), Option<i32>>::Err(
            Some(ERRNO_EBUSY),
        )),
{
    match outcome {
        Ok(()) => SleepOutcome::Suspended,
        Err(Some(code)) => {
            if code == ERRNO_EBUSY {
                SleepOutcome::Busy
            } else {
                SleepOutcome::Fatal
            }
        },
        Err(None) => SleepOutcome::Fatal,
    }
}

} // verus!
