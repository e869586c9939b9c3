use vstd::prelude::*;
use crate::vmcs::{VMX_REASON_EPT_VIOLATION, VMX_REASON_EXC_NMI, VMX_REASON_HLT, VMX_REASON_IRQ, VMX_REASON_MTF};

verus! {

/// Why the virtual CPU handed control back to the monitor.
#[derive(Clone, Copy, Debug, PartialEq, Eq, Structural)]
pub enum ExitReason {
    /// The guest raised an exception or a software interrupt.
    ExceptionOrNmi,
    /// A host interrupt arrived while the guest ran.
    HostInterrupt,
    /// The guest executed HLT.
    Halt,
    /// The guest completed one instruction under the monitor trap flag.
    MonitorTrap,
    /// A guest access violated the nested page tables.
    EptViolation,
    /// Any other exit reason, with its code.
    Other(u64),
}

/// The classification of a basic exit-reason code.
pub open spec fn exit_reason_of(code: u64) -> ExitReason {
    if code == VMX_REASON_EXC_NMI {
        ExitReason::ExceptionOrNmi
    } else if code == VMX_REASON_IRQ {
        ExitReason::HostInterrupt
    } else if code == VMX_REASON_HLT {
        ExitReason::Halt
    } else if code == VMX_REASON_MTF {
        ExitReason::MonitorTrap
    } else if code == VMX_REASON_EPT_VIOLATION {
        ExitReason::EptViolation
    } else {
        ExitReason::Other(code)
    }
}

/// The exit-reason code that a classification stands for.
pub open spec fn exit_code(r: ExitReason) -> u64 {
    match r {
        ExitReason::ExceptionOrNmi => VMX_REASON_EXC_NMI,
        ExitReason::HostInterrupt => VMX_REASON_IRQ,
        ExitReason::Halt => VMX_REASON_HLT,
        ExitReason::MonitorTrap => VMX_REASON_MTF,
        ExitReason::EptViolation => VMX_REASON_EPT_VIOLATION,
        ExitReason::Other(c) => c,
    }
}

/// Whether the dispatcher has a handler of its own for an exit-reason code.
pub open spec fn is_known_exit(code: u64) -> bool {
    code == VMX_REASON_EXC_NMI || code == VMX_REASON_IRQ || code == VMX_REASON_HLT || code
        == VMX_REASON_MTF || code == VMX_REASON_EPT_VIOLATION
}

/// Classifies a basic exit-reason code.
pub fn classify_exit(code: u64) -> (r: ExitReason)
    ensures
        r == exit_reason_of(code),
{
    if code == VMX_REASON_EXC_NMI {
        ExitReason::ExceptionOrNmi
    } else if code == VMX_REASON_IRQ {
        ExitReason::HostInterrupt
    } else if code == VMX_REASON_HLT {
        ExitReason::Halt
    } else if code == VMX_REASON_MTF {
        ExitReason::MonitorTrap
    } else if code == VMX_REASON_EPT_VIOLATION {
        ExitReason::EptViolation
    } else {
        ExitReason::Other(code)
    }
}

/// Every exit-reason code lands in exactly one class: the class keeps the
/// code, so no code is lost, and the catch-all class takes exactly the codes
/// that have no handler of their own.
pub proof fn lemma_classification_total(code: u64)
    ensures
        exit_code(exit_reason_of(code)) == code,
        (exit_reason_of(code) is Other) <==> !is_known_exit(code),
        forall|c: u64| #[trigger] exit_reason_of(c) == exit_reason_of(code) ==> c == code,
{
    assert forall|c: u64| #[trigger] exit_reason_of(c) == exit_reason_of(code) implies c == code by {
        assert(exit_code(exit_reason_of(c)) == c);
    }
}

} // verus!
