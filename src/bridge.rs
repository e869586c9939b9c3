use vstd::prelude::*;

verus! {

/// The guest service emulator's status codes, as the interrupt bridge reads
/// them.
pub struct DOSKernel {}

/// The emulator's outcome for one interrupt dispatch.
#[derive(Clone, Copy, Debug, PartialEq, Eq, Structural)]
pub enum Verdict {
    Handled,
    Stop,
    Unhandled,
    Unsupported,
    NoReturn,
    /// A status code outside the emulator's documented set.
    Unknown(i32),
}

impl DOSKernel {
    pub const STATUS_HANDLED: i32 = 0;
    pub const STATUS_STOP: i32 = 1;
    pub const STATUS_UNHANDLED: i32 = 2;
    pub const STATUS_UNSUPPORTED: i32 = 3;
    pub const STATUS_NORETURN: i32 = 4;

    /// Reads an emulator status code as a verdict.
    pub fn verdict(status: i32) -> (r: Verdict)
        ensures
            r == verdict_of(status),
    {
        if status == Self::STATUS_HANDLED {
            Verdict::Handled
        } else if status == Self::STATUS_STOP {
            Verdict::Stop
        } else if status == Self::STATUS_UNHANDLED {
            Verdict::Unhandled
        } else if status == Self::STATUS_UNSUPPORTED {
            Verdict::Unsupported
        } else if status == Self::STATUS_NORETURN {
            Verdict::NoReturn
        } else {
            Verdict::Unknown(status)
        }
    }
}

/// The verdict that an emulator status code stands for.
pub open spec fn verdict_of(status: i32) -> Verdict {
    if status == 0 {
        Verdict::Handled
    } else if status == 1 {
        Verdict::Stop
    } else if status == 2 {
        Verdict::Unhandled
    } else if status == 3 {
        Verdict::Unsupported
    } else if status == 4 {
        Verdict::NoReturn
    } else {
        Verdict::Unknown(status)
    }
}

/// How the monitor resumes the guest after an interrupt dispatch.
#[derive(Clone, Copy, Debug, PartialEq, Eq, Structural)]
pub enum Resume {
    /// Set the instruction pointer to this value and keep running.
    AdvanceTo(u64),
    /// Keep running with the instruction pointer as the emulator left it.
    Unchanged,
    /// Leave the run loop.
    Stop,
}

/// The length of the legacy software-interrupt instruction `INT n`.
pub const INT_INSN_LEN: u64 = 2;

/// The resumption policy for a verdict, given the instruction pointer after
/// the dispatch.
pub open spec fn resume_of(v: Verdict, rip: u64) -> Resume {
    match v {
        Verdict::Handled => Resume::AdvanceTo((rip + INT_INSN_LEN) as u64),
        Verdict::NoReturn => Resume::Unchanged,
        _ => Resume::Stop,
    }
}

/// The instruction pointer once a resumption has been carried out.
pub open spec fn rip_after(r: Resume, rip: u64) -> u64 {
    match r {
        Resume::AdvanceTo(next) => next,
        _ => rip,
    }
}

/// The resumption that a verdict calls for. A handled interrupt moves the instruction
/// pointer beyond the `INT n` instruction, a verdict of no return keeps the
/// pointer that the emulator set, and every other verdict stops the run.
pub fn resume_after(v: Verdict, rip: u64) -> (r: Resume)
    requires
        v == Verdict::Handled ==> rip <= u64::MAX - INT_INSN_LEN,
    ensures
        r == resume_of(v, rip),
{
    match v {
        Verdict::Handled => Resume::AdvanceTo(rip + INT_INSN_LEN),
        Verdict::NoReturn => Resume::Unchanged,
        _ => Resume::Stop,
    }
}

/// A handled interrupt moves the instruction pointer forward by exactly the
/// length of the interrupt instruction; a verdict of no return leaves it as
/// it is.
pub proof fn lemma_bridge_resumption(rip: u64)
    requires
        rip <= u64::MAX - INT_INSN_LEN,
    ensures
        rip_after(resume_of(Verdict::Handled, rip), rip) == rip + 2,
        rip_after(resume_of(Verdict::NoReturn, rip), rip) == rip,
        resume_of(Verdict::NoReturn, rip) == Resume::Unchanged,
        forall|v: Verdict| v != Verdict::Handled && v != Verdict::NoReturn ==> #[trigger] resume_of(v, rip)
            == Resume::Stop,
{
}

} // verus!
