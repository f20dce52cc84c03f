//! Signal dispositions: which signals the guest resets, and how the
//! disposition of `SIGCHLD` is read.

use vstd::prelude::*;

verus! {

/// One more than the highest signal number (`_NSIG`).
pub const NSIG: u32 = 65;

/// `SIGKILL`.
pub const SIGKILL: u32 = 9;

/// `SIGSTOP`.
pub const SIGSTOP: u32 = 19;

/// `SIG_DFL`.
pub const SIG_DFL: usize = 0;

/// `SIG_IGN`.
pub const SIG_IGN: usize = 1;

/// `SA_NOCLDWAIT`.
pub const SA_NOCLDWAIT: u64 = 2;

/// Whether the disposition of a signal is reset.
pub open spec fn is_resettable(s: u32) -> bool {
    1 <= s < NSIG && s != SIGKILL && s != SIGSTOP
}

/// The signals whose disposition the guest resets to the default, in
/// increasing order.
pub fn signals_to_reset() -> (signals: Vec<u32>)
    ensures
        forall|i: int, j: int| 0 <= i < j < signals@.len() ==> signals@[i] < signals@[j],
        forall|s: u32| signals@.contains(s) <==> is_resettable(s),
{
    let mut signals: Vec<u32> = Vec::new();
    let mut signal: u32 = 1;
    while signal < NSIG
        invariant
            1 <= signal <= NSIG,
            forall|i: int, j: int| 0 <= i < j < signals@.len() ==> signals@[i] < signals@[j],
            forall|i: int| 0 <= i < signals@.len() ==> signals@[i] < signal,
            forall|s: u32| signals@.contains(s) <==> (is_resettable(s) && s < signal),
        decreases NSIG - signal,
    {
        if signal != SIGKILL && signal != SIGSTOP {
            let ghost before = signals@;
            signals.push(signal);
            assert forall|s: u32| signals@.contains(s) <==> (is_resettable(s) && s < signal + 1) by {
                if s == signal {
                    assert(signals@[signals@.len() - 1] == s);
                }
                if signals@.contains(s) && s != signal {
                    let k = choose|k: int| 0 <= k < signals@.len() && signals@[k] == s;
                    assert(before[k] == s);
                }
                if is_resettable(s) && s < signal {
                    assert(before.contains(s));
                    let k = choose|k: int| 0 <= k < before.len() && before[k] == s;
                    assert(signals@[k] == s);
                }
            }
        }
        signal = signal + 1;
    }
    signals
}

/// Disposition of `SIGCHLD`.
///
/// See `sigaction(3p)` for more details.
#[derive(PartialEq, Eq, Structural, Copy, Clone, Debug)]
pub enum SigchldDisposition {
    /// Default behavior.
    Default,
    /// Ignored.
    Ignored,
    /// Custom handler.
    Handler,
    /// Reap children but generate `SIGCHLD`.
    NoChildWait,
}

/// The disposition of `SIGCHLD` that a handler and flags describe: ignored
/// first, then no child wait, then the default, and otherwise a handler.
pub open spec fn spec_sigchld_disposition(handler: usize, flags: u64) -> SigchldDisposition {
    if handler == SIG_IGN {
        SigchldDisposition::Ignored
    } else if flags & SA_NOCLDWAIT != 0 {
        SigchldDisposition::NoChildWait
    } else if handler == SIG_DFL {
        SigchldDisposition::Default
    } else {
        SigchldDisposition::Handler
    }
}

/// Reads the disposition of `SIGCHLD` from the handler and flags that
/// `sigaction(2)` reported.
pub fn sigchld_disposition_of(handler: usize, flags: u64) -> (d: SigchldDisposition)
    ensures
        d == spec_sigchld_disposition(handler, flags),
{
    if handler == SIG_IGN {
        SigchldDisposition::Ignored
    } else if flags & SA_NOCLDWAIT != 0 {
        SigchldDisposition::NoChildWait
    } else if handler == SIG_DFL {
        SigchldDisposition::Default
    } else {
        SigchldDisposition::Handler
    }
}

} // verus!
