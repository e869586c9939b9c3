use vstd::prelude::*;
use crate::bridge::{resume_after, resume_of, verdict_of, DOSKernel, Resume, Verdict, INT_INSN_LEN};
use crate::config::{config_plan, config_writes, Capabilities, VmcsWrite, CONFIG_LEN};
use crate::exit::{classify_exit, exit_reason_of, ExitReason};
use crate::memory::{check_image, ImageError, MAX_IMAGE_LEN};

verus! {

/// A general register of the virtual CPU that the monitor writes.
#[derive(Clone, Copy, Debug, PartialEq, Eq, Structural)]
pub enum Register {
    Rip,
    Rflags,
    Rsp,
}

/// What a diagnostic line reports.
#[derive(Clone, Copy, Debug, PartialEq, Eq, Structural)]
pub enum LogKind {
    /// One traced instruction: the code and stack pointers.
    Step,
    /// A host interrupt exit.
    HostInterrupt,
    /// The guest halted.
    Halt,
    /// An exit reason without a handler, with its code.
    Unhandled(u64),
}

/// How a session ended.
#[derive(Clone, Copy, Debug, PartialEq, Eq, Structural)]
pub enum Outcome {
    /// The guest stopped; the emulator's exit status.
    Exited(i32),
    /// A host operation failed.
    Fatal,
}

/// The next thing that the host side must do for the session.
#[derive(Clone, Copy, Debug, PartialEq, Eq, Structural)]
pub enum Action {
    CreateVm,
    ReadCaps,
    MapMemory,
    CreateVcpu,
    WriteVmcs(VmcsWrite),
    CreateKernel,
    LoadImage,
    WriteRegister(Register, u64),
    /// Resume the virtual CPU until its next exit.
    Run,
    /// Hand an interrupt vector to the guest service emulator.
    Dispatch(u8),
    Log(LogKind),
    QueryStatus,
    DestroyKernel,
    DestroyVcpu,
    UnmapMemory,
    DestroyVm,
    /// The session is over; every resource has been released.
    Finish(Outcome),
}

/// What the host side reports back once it has performed an action.
#[derive(Clone, Copy, Debug, PartialEq, Eq, Structural)]
pub enum Event {
    /// The action succeeded and has nothing to report.
    Done,
    /// The host operation failed.
    Failed,
    /// The capability masks that were read.
    Caps(Capabilities),
    /// The virtual CPU exited: the exit-reason code and the vector
    /// information field.
    Exited { reason: u64, vector_info: u64 },
    /// The emulator's status code for a dispatch, and the instruction
    /// pointer after it.
    Dispatched { status: i32, rip: u64 },
    /// The emulator's exit status.
    Status(i32),
}

/// Where a session stands.
#[derive(Clone, Copy, Debug, PartialEq, Eq, Structural)]
pub enum Phase {
    CreateVm,
    ReadCaps,
    MapMemory,
    CreateVcpu,
    /// Writing the configuration field with this index.
    Configure(usize),
    CreateKernel,
    LoadImage,
    /// Writing the initial register with this index.
    InitRegisters(usize),
    Resume,
    Dispatch(u8),
    SetRip(u64),
    /// Emitting a diagnostic; whether the run loop stops after it.
    Log(LogKind, bool),
    QueryStatus,
    Teardown,
}

/// One monitor session: the lifecycle of the VM context, the guest memory
/// mapping, the virtual CPU and the emulator, and the run loop between them.
#[derive(Clone, Copy, Debug, PartialEq, Eq, Structural)]
pub struct Session {
    pub phase: Phase,
    pub caps: Capabilities,
    pub trace: bool,
    pub debug: bool,
    pub status: i32,
    pub fatal: bool,
    pub vm: bool,
    pub mapped: bool,
    pub vcpu: bool,
    pub kernel: bool,
}

/// The number of registers that are set before the first resume.
pub const INIT_REGS_LEN: usize = 3;

/// The guest's initial instruction pointer: the load point.
pub const INITIAL_RIP: u64 = 0x100;

/// The guest's initial flags: only the reserved bit.
pub const INITIAL_RFLAGS: u64 = 0x2;

/// The guest's initial stack pointer.
pub const INITIAL_RSP: u64 = 0xfff8;

/// The initial register writes, in order.
pub open spec fn init_register(i: usize) -> Action {
    if i == 0 {
        Action::WriteRegister(Register::Rip, INITIAL_RIP)
    } else if i == 1 {
        Action::WriteRegister(Register::Rflags, INITIAL_RFLAGS)
    } else {
        Action::WriteRegister(Register::Rsp, INITIAL_RSP)
    }
}

/// How a session that has nothing left to release ended.
pub open spec fn outcome_of(s: Session) -> Outcome {
    if s.fatal {
        Outcome::Fatal
    } else {
        Outcome::Exited(s.status)
    }
}

/// The release that comes next in teardown: the emulator, the virtual CPU,
/// the memory mapping, the VM context, in that order.
pub open spec fn teardown_action(s: Session) -> Action {
    if s.kernel {
        Action::DestroyKernel
    } else if s.vcpu {
        Action::DestroyVcpu
    } else if s.mapped {
        Action::UnmapMemory
    } else if s.vm {
        Action::DestroyVm
    } else {
        Action::Finish(outcome_of(s))
    }
}

/// The action that a session asks for.
pub open spec fn action_of(s: Session) -> Action {
    match s.phase {
        Phase::CreateVm => Action::CreateVm,
        Phase::ReadCaps => Action::ReadCaps,
        Phase::MapMemory => Action::MapMemory,
        Phase::CreateVcpu => Action::CreateVcpu,
        Phase::Configure(i) => Action::WriteVmcs(config_writes(s.caps, s.trace)[i as int]),
        Phase::CreateKernel => Action::CreateKernel,
        Phase::LoadImage => Action::LoadImage,
        Phase::InitRegisters(i) => init_register(i),
        Phase::Resume => Action::Run,
        Phase::Dispatch(v) => Action::Dispatch(v),
        Phase::SetRip(rip) => Action::WriteRegister(Register::Rip, rip),
        Phase::Log(k, _) => Action::Log(k),
        Phase::QueryStatus => Action::QueryStatus,
        Phase::Teardown => teardown_action(s),
    }
}

/// A session that gives up: it releases what it holds and ends as fatal.
pub open spec fn failed(s: Session) -> Session {
    Session { phase: Phase::Teardown, fatal: true, ..s }
}

/// Releases the resource that teardown is at.
pub open spec fn released(s: Session) -> Session {
    if s.kernel {
        Session { kernel: false, ..s }
    } else if s.vcpu {
        Session { vcpu: false, ..s }
    } else if s.mapped {
        Session { mapped: false, ..s }
    } else {
        Session { vm: false, ..s }
    }
}

/// The phase that an exit of the virtual CPU leads to.
pub open spec fn exit_phase(s: Session, reason: ExitReason, vector_info: u64) -> Phase {
    match reason {
        ExitReason::ExceptionOrNmi => Phase::Dispatch(vector_info as u8),
        ExitReason::MonitorTrap => if s.trace {
            Phase::Log(LogKind::Step, false)
        } else {
            Phase::Resume
        },
        ExitReason::HostInterrupt => if s.debug || s.trace {
            Phase::Log(LogKind::HostInterrupt, false)
        } else {
            Phase::Resume
        },
        ExitReason::Halt => if s.debug || s.trace {
            Phase::Log(LogKind::Halt, true)
        } else {
            Phase::QueryStatus
        },
        ExitReason::EptViolation => Phase::Resume,
        ExitReason::Other(code) => Phase::Log(LogKind::Unhandled(code), true),
    }
}

/// The phase that the emulator's verdict leads to. A handled interrupt whose
/// instruction pointer cannot move past the instruction is a broken host.
pub open spec fn dispatch_phase(status: i32, rip: u64) -> Option<Phase> {
    if verdict_of(status) == Verdict::Handled && rip > u64::MAX - INT_INSN_LEN {
        None
    } else {
        match resume_of(verdict_of(status), rip) {
            Resume::AdvanceTo(next) => Some(Phase::SetRip(next)),
            Resume::Unchanged => Some(Phase::Resume),
            Resume::Stop => Some(Phase::QueryStatus),
        }
    }
}

/// The session after the host reports `ev` on the action it asked for.
pub open spec fn next(s: Session, ev: Event) -> Session {
    match s.phase {
        Phase::CreateVm => match ev {
            Event::Done => Session { phase: Phase::ReadCaps, vm: true, ..s },
            _ => failed(s),
        },
        Phase::ReadCaps => match ev {
            Event::Caps(c) => Session { phase: Phase::MapMemory, caps: c, ..s },
            _ => failed(s),
        },
        Phase::MapMemory => match ev {
            Event::Done => Session { phase: Phase::CreateVcpu, mapped: true, ..s },
            _ => failed(s),
        },
        Phase::CreateVcpu => match ev {
            Event::Done => Session { phase: Phase::Configure(0), vcpu: true, ..s },
            _ => failed(s),
        },
        Phase::Configure(i) => match ev {
            Event::Done => if i + 1 < CONFIG_LEN {
                Session { phase: Phase::Configure((i + 1) as usize), ..s }
            } else {
                Session { phase: Phase::CreateKernel, ..s }
            },
            _ => failed(s),
        },
        Phase::CreateKernel => match ev {
            Event::Done => Session { phase: Phase::LoadImage, kernel: true, ..s },
            _ => failed(s),
        },
        Phase::LoadImage => match ev {
            Event::Done => Session { phase: Phase::InitRegisters(0), ..s },
            _ => failed(s),
        },
        Phase::InitRegisters(i) => match ev {
            Event::Done => if i + 1 < INIT_REGS_LEN {
                Session { phase: Phase::InitRegisters((i + 1) as usize), ..s }
            } else {
                Session { phase: Phase::Resume, ..s }
            },
            _ => failed(s),
        },
        Phase::Resume => match ev {
            Event::Exited { reason, vector_info } => Session {
                phase: exit_phase(s, exit_reason_of(reason), vector_info),
                ..s
            },
            _ => failed(s),
        },
        Phase::Dispatch(_) => match ev {
            Event::Dispatched { status, rip } => match dispatch_phase(status, rip) {
                Some(p) => Session { phase: p, ..s },
                None => failed(s),
            },
            _ => failed(s),
        },
        Phase::SetRip(_) => match ev {
            Event::Done => Session { phase: Phase::Resume, ..s },
            _ => failed(s),
        },
        Phase::Log(_, stop) => match ev {
            Event::Done => if stop {
                Session { phase: Phase::QueryStatus, ..s }
            } else {
                Session { phase: Phase::Resume, ..s }
            },
            _ => failed(s),
        },
        Phase::QueryStatus => match ev {
            Event::Status(st) => Session { phase: Phase::Teardown, status: st, ..s },
            _ => failed(s),
        },
        Phase::Teardown => if !s.kernel && !s.vcpu && !s.mapped && !s.vm {
            s
        } else {
            match ev {
                Event::Failed => Session { fatal: true, ..released(s) },
                _ => released(s),
            }
        },
    }
}

impl Session {
    /// Resources are acquired in the order VM context, memory mapping,
    /// virtual CPU, emulator, and each phase holds exactly those that it
    /// needs.
    pub open spec fn wf(&self) -> bool {
        &&& (self.kernel ==> self.vcpu)
        &&& (self.vcpu ==> self.mapped)
        &&& (self.mapped ==> self.vm)
        &&& match self.phase {
            Phase::CreateVm => !self.vm,
            Phase::ReadCaps | Phase::MapMemory => self.vm && !self.mapped,
            Phase::CreateVcpu => self.mapped && !self.vcpu,
            Phase::Configure(i) => self.vcpu && !self.kernel && i < CONFIG_LEN,
            Phase::CreateKernel => self.vcpu && !self.kernel,
            Phase::InitRegisters(i) => self.kernel && i < INIT_REGS_LEN,
            Phase::Teardown => true,
            _ => self.kernel,
        }
    }

    /// The session before any resource exists.
    pub open spec fn initial(trace: bool, debug: bool) -> Session {
        Session {
            phase: Phase::CreateVm,
            caps: Capabilities { pin_based: 0, proc_based: 0, proc_based2: 0, entry: 0 },
            trace,
            debug,
            status: 0,
            fatal: false,
            vm: false,
            mapped: false,
            vcpu: false,
            kernel: false,
        }
    }

    /// Starts a session for a guest image of `image_len` bytes. An image that
    /// does not fit is refused here, before any resource is acquired.
    pub fn new(image_len: usize, trace: bool, debug: bool) -> (r: Result<Session, ImageError>)
        ensures
            r is Ok <==> image_len <= MAX_IMAGE_LEN,
            r is Ok ==> r == Ok::<Session, ImageError>(Session::initial(trace, debug)),
            r is Err ==> r == Err::<Session, ImageError>(ImageError::TooLarge { len: image_len }),
            r is Ok ==> r->Ok_0.wf(),
    {
        match check_image(image_len) {
            Err(e) => Err(e),
            Ok(()) => Ok(
                Session {
                    phase: Phase::CreateVm,
                    caps: Capabilities { pin_based: 0, proc_based: 0, proc_based2: 0, entry: 0 },
                    trace,
                    debug,
                    status: 0,
                    fatal: false,
                    vm: false,
                    mapped: false,
                    vcpu: false,
                    kernel: false,
                },
            ),
        }
    }

    /// The action that the session asks the host side to perform.
    pub fn action(&self) -> (r: Action)
        requires
            self.wf(),
        ensures
            r == action_of(*self),
    {
        match self.phase {
            Phase::CreateVm => Action::CreateVm,
            Phase::ReadCaps => Action::ReadCaps,
            Phase::MapMemory => Action::MapMemory,
            Phase::CreateVcpu => Action::CreateVcpu,
            Phase::Configure(i) => {
                let plan = config_plan(&self.caps, self.trace);
                Action::WriteVmcs(plan[i])
            },
            Phase::CreateKernel => Action::CreateKernel,
            Phase::LoadImage => Action::LoadImage,
            Phase::InitRegisters(i) => {
                if i == 0 {
                    Action::WriteRegister(Register::Rip, INITIAL_RIP)
                } else if i == 1 {
                    Action::WriteRegister(Register::Rflags, INITIAL_RFLAGS)
                } else {
                    Action::WriteRegister(Register::Rsp, INITIAL_RSP)
                }
            },
            Phase::Resume => Action::Run,
            Phase::Dispatch(v) => Action::Dispatch(v),
            Phase::SetRip(rip) => Action::WriteRegister(Register::Rip, rip),
            Phase::Log(k, _) => Action::Log(k),
            Phase::QueryStatus => Action::QueryStatus,
            Phase::Teardown => {
                if self.kernel {
                    Action::DestroyKernel
                } else if self.vcpu {
                    Action::DestroyVcpu
                } else if self.mapped {
                    Action::UnmapMemory
                } else if self.vm {
                    Action::DestroyVm
                } else if self.fatal {
                    Action::Finish(Outcome::Fatal)
                } else {
                    Action::Finish(Outcome::Exited(self.status))
                }
            },
        }
    }

    fn fail(&mut self)
        ensures
            *final(self) == failed(*old(self)),
    {
        self.phase = Phase::Teardown;
        self.fatal = true;
    }

    fn on_exit(&mut self, reason: u64, vector_info: u64)
        ensures
            *final(self) == (Session { phase: exit_phase(*old(self), exit_reason_of(reason), vector_info), ..*old(self) }),
    {
        self.phase = match classify_exit(reason) {
            ExitReason::ExceptionOrNmi => Phase::Dispatch(vector_info as u8),
            ExitReason::MonitorTrap => if self.trace {
                Phase::Log(LogKind::Step, false)
            } else {
                Phase::Resume
            },
            ExitReason::HostInterrupt => if self.debug || self.trace {
                Phase::Log(LogKind::HostInterrupt, false)
            } else {
                Phase::Resume
            },
            ExitReason::Halt => if self.debug || self.trace {
                Phase::Log(LogKind::Halt, true)
            } else {
                Phase::QueryStatus
            },
            ExitReason::EptViolation => Phase::Resume,
            ExitReason::Other(code) => Phase::Log(LogKind::Unhandled(code), true),
        };
    }

    fn on_dispatched(&mut self, status: i32, rip: u64)
        ensures
            *final(self) == (match dispatch_phase(status, rip) {
                Some(p) => Session { phase: p, ..*old(self) },
                None => failed(*old(self)),
            }),
    {
        let v = DOSKernel::verdict(status);
        if v == Verdict::Handled && rip > u64::MAX - INT_INSN_LEN {
            self.fail();
        } else {
            self.phase = match resume_after(v, rip) {
                Resume::AdvanceTo(next) => Phase::SetRip(next),
                Resume::Unchanged => Phase::Resume,
                Resume::Stop => Phase::QueryStatus,
            };
        }
    }

    fn release(&mut self)
        ensures
            *final(self) == released(*old(self)),
    {
        if self.kernel {
            self.kernel = false;
        } else if self.vcpu {
            self.vcpu = false;
        } else if self.mapped {
            self.mapped = false;
        } else {
            self.vm = false;
        }
    }

    /// Advances the session by the host's report on the action it asked for.
    pub fn step(&mut self, ev: Event)
        requires
            old(self).wf(),
        ensures
            *final(self) == next(*old(self), ev),
            final(self).wf(),
    {
        match self.phase {
            Phase::CreateVm => match ev {
                Event::Done => {
                    self.phase = Phase::ReadCaps;
                    self.vm = true;
                },
                _ => self.fail(),
            },
            Phase::ReadCaps => match ev {
                Event::Caps(c) => {
                    self.phase = Phase::MapMemory;
                    self.caps = c;
                },
                _ => self.fail(),
            },
            Phase::MapMemory => match ev {
                Event::Done => {
                    self.phase = Phase::CreateVcpu;
                    self.mapped = true;
                },
                _ => self.fail(),
            },
            Phase::CreateVcpu => match ev {
                Event::Done => {
                    self.phase = Phase::Configure(0);
                    self.vcpu = true;
                },
                _ => self.fail(),
            },
            Phase::Configure(i) => match ev {
                Event::Done => {
                    if i + 1 < CONFIG_LEN {
                        self.phase = Phase::Configure(i + 1);
                    } else {
                        self.phase = Phase::CreateKernel;
                    }
                },
                _ => self.fail(),
            },
            Phase::CreateKernel => match ev {
                Event::Done => {
                    self.phase = Phase::LoadImage;
                    self.kernel = true;
                },
                _ => self.fail(),
            },
            Phase::LoadImage => match ev {
                Event::Done => self.phase = Phase::InitRegisters(0),
                _ => self.fail(),
            },
            Phase::InitRegisters(i) => match ev {
                Event::Done => {
                    if i + 1 < INIT_REGS_LEN {
                        self.phase = Phase::InitRegisters(i + 1);
                    } else {
                        self.phase = Phase::Resume;
                    }
                },
                _ => self.fail(),
            },
            Phase::Resume => match ev {
                Event::Exited { reason, vector_info } => self.on_exit(reason, vector_info),
                _ => self.fail(),
            },
            Phase::Dispatch(_) => match ev {
                Event::Dispatched { status, rip } => self.on_dispatched(status, rip),
                _ => self.fail(),
            },
            Phase::SetRip(_) => match ev {
                Event::Done => self.phase = Phase::Resume,
                _ => self.fail(),
            },
            Phase::Log(_, stop) => match ev {
                Event::Done => {
                    if stop {
                        self.phase = Phase::QueryStatus;
                    } else {
                        self.phase = Phase::Resume;
                    }
                },
                _ => self.fail(),
            },
            Phase::QueryStatus => match ev {
                Event::Status(st) => {
                    self.phase = Phase::Teardown;
                    self.status = st;
                },
                _ => self.fail(),
            },
            Phase::Teardown => {
                if self.kernel || self.vcpu || self.mapped || self.vm {
                    let failed_release = match ev {
                        Event::Failed => true,
                        _ => false,
                    };
                    self.release();
                    if failed_release {
                        self.fatal = true;
                    }
                }
            },
        }
    }
}

/// In the run loop, a handled interrupt makes the session write the
/// instruction pointer plus the instruction's length and then resume; a
/// verdict of no return makes it resume at once, without touching the
/// instruction pointer.
pub proof fn lemma_session_interrupt_resumption(s: Session, vector: u8, rip: u64)
    requires
        s.wf(),
        s.phase == Phase::Dispatch(vector),
        rip <= u64::MAX - INT_INSN_LEN,
    ensures
        action_of(next(s, Event::Dispatched { status: DOSKernel::STATUS_HANDLED, rip })) == Action::WriteRegister(
            Register::Rip,
            (rip + 2) as u64,
        ),
        action_of(next(next(s, Event::Dispatched { status: DOSKernel::STATUS_HANDLED, rip }), Event::Done))
            == Action::Run,
        action_of(next(s, Event::Dispatched { status: DOSKernel::STATUS_NORETURN, rip })) == Action::Run,
{
}

/// The session after each of `events` in turn.
pub open spec fn run(s: Session, events: Seq<Event>) -> Session
    decreases events.len(),
{
    if events.len() == 0 {
        s
    } else {
        run(next(s, events[0]), events.drop_first())
    }
}

/// The actions that the session asks for after each of `events` in turn.
pub open spec fn actions_after(s: Session, events: Seq<Event>) -> Seq<Action>
    decreases events.len(),
{
    if events.len() == 0 {
        Seq::empty()
    } else {
        seq![action_of(next(s, events[0]))] + actions_after(next(s, events[0]), events.drop_first())
    }
}

/// `n` successful reports.
pub open spec fn dones(n: nat) -> Seq<Event> {
    Seq::new(n, |_j: int| Event::Done)
}

/// The reports that take a fresh session up to its first configuration
/// write: the VM context, the capability masks, the mapping, the virtual CPU.
pub open spec fn acquire_events(caps: Capabilities) -> Seq<Event> {
    seq![Event::Done, Event::Caps(caps), Event::Done, Event::Done]
}

/// Whether an action releases a resource.
pub open spec fn is_release(a: Action) -> bool {
    a is DestroyKernel || a is DestroyVcpu || a is UnmapMemory || a is DestroyVm
}

proof fn lemma_actions_len(s: Session, events: Seq<Event>)
    ensures
        actions_after(s, events).len() == events.len(),
    decreases events.len(),
{
    if events.len() > 0 {
        lemma_actions_len(next(s, events[0]), events.drop_first());
    }
}

proof fn lemma_run_append(s: Session, a: Seq<Event>, b: Seq<Event>)
    ensures
        run(s, a + b) == run(run(s, a), b),
        actions_after(s, a + b) == actions_after(s, a) + actions_after(run(s, a), b),
    decreases a.len(),
{
    if a.len() == 0 {
        assert(a + b =~= b);
        assert(actions_after(s, a) + actions_after(s, b) =~= actions_after(s, b));
    } else {
        assert((a + b).drop_first() =~= a.drop_first() + b);
        lemma_run_append(next(s, a[0]), a.drop_first(), b);
        assert(seq![action_of(next(s, a[0]))] + (actions_after(next(s, a[0]), a.drop_first())
            + actions_after(run(s, a), b)) =~= (seq![action_of(next(s, a[0]))] + actions_after(
            next(s, a[0]), a.drop_first())) + actions_after(run(s, a), b));
    }
}

proof fn lemma_run_one(s: Session, e: Event)
    ensures
        run(s, seq![e]) == next(s, e),
        actions_after(s, seq![e]) == seq![action_of(next(s, e))],
{
    assert(seq![e].drop_first() =~= Seq::<Event>::empty());
    assert(run(next(s, e), Seq::<Event>::empty()) == next(s, e));
    assert(actions_after(next(s, e), Seq::<Event>::empty()) == Seq::<Action>::empty());
    assert(seq![action_of(next(s, e))] + Seq::<Action>::empty() =~= seq![action_of(next(s, e))]);
}

/// The session that is at configuration write `i`.
pub open spec fn configuring(caps: Capabilities, trace: bool, debug: bool, i: usize) -> Session {
    Session {
        phase: Phase::Configure(i),
        caps,
        vm: true,
        mapped: true,
        vcpu: true,
        ..Session::initial(trace, debug)
    }
}

proof fn lemma_reach_configure(caps: Capabilities, trace: bool, debug: bool, i: usize)
    requires
        i < CONFIG_LEN,
    ensures
        run(Session::initial(trace, debug), acquire_events(caps) + dones(i as nat)) == configuring(caps, trace, debug, i),
        forall|j: int| 0 <= j < 4 + i ==> !is_release(
            #[trigger] actions_after(Session::initial(trace, debug), acquire_events(caps) + dones(i as nat))[j]),
    decreases i,
{
    let s0 = Session::initial(trace, debug);
    if i == 0 {
        let a = acquire_events(caps);
        assert(a + dones(0) =~= a);
        assert(a =~= seq![Event::Done] + (seq![Event::Caps(caps)] + (seq![Event::Done] + seq![Event::Done])));
        let s1 = next(s0, Event::Done);
        let s2 = next(s1, Event::Caps(caps));
        let s3 = next(s2, Event::Done);
        lemma_run_append(s0, seq![Event::Done], seq![Event::Caps(caps)] + (seq![Event::Done] + seq![Event::Done]));
        lemma_run_one(s0, Event::Done);
        lemma_run_append(s1, seq![Event::Caps(caps)], seq![Event::Done] + seq![Event::Done]);
        lemma_run_one(s1, Event::Caps(caps));
        lemma_run_append(s2, seq![Event::Done], seq![Event::Done]);
        lemma_run_one(s2, Event::Done);
        lemma_run_one(s3, Event::Done);
        assert(run(s0, a) =~= configuring(caps, trace, debug, 0));
        let acts = actions_after(s0, a);
        assert(acts =~= seq![action_of(s1), action_of(s2), action_of(s3), action_of(next(s3, Event::Done))]);
    } else {
        let k = (i - 1) as usize;
        lemma_reach_configure(caps, trace, debug, k);
        let p = acquire_events(caps) + dones(k as nat);
        assert(acquire_events(caps) + dones(i as nat) =~= p + seq![Event::Done]);
        lemma_run_append(s0, p, seq![Event::Done]);
        lemma_run_one(run(s0, p), Event::Done);
        assert(next(configuring(caps, trace, debug, k), Event::Done) =~= configuring(caps, trace, debug, i));
        lemma_actions_len(s0, p);
        let acts = actions_after(s0, p + seq![Event::Done]);
        assert forall|j: int| 0 <= j < 4 + i implies !is_release(#[trigger] acts[j]) by {
            if j < 4 + k {
                assert(acts[j] == actions_after(s0, p)[j]);
            } else {
                assert(acts[j] == action_of(configuring(caps, trace, debug, i)));
            }
        }
    }
}

proof fn lemma_finished_stays(s: Session, events: Seq<Event>)
    requires
        s.phase == Phase::Teardown,
        !s.kernel && !s.vcpu && !s.mapped && !s.vm,
    ensures
        run(s, events) == s,
        forall|j: int| 0 <= j < events.len() ==> #[trigger] actions_after(s, events)[j] == action_of(s),
    decreases events.len(),
{
    if events.len() > 0 {
        lemma_finished_stays(s, events.drop_first());
        lemma_actions_len(s, events.drop_first());
        assert(next(s, events[0]) == s);
        let acts = actions_after(s, events);
        assert forall|j: int| 0 <= j < events.len() implies #[trigger] acts[j] == action_of(s) by {
            if j > 0 {
                assert(acts[j] == actions_after(s, events.drop_first())[j - 1]);
            }
        }
    }
}

/// Whatever configuration write fails, the session then destroys the
/// virtual CPU, unmaps the guest memory and destroys the VM context, in that
/// order and whatever those steps report, and ends as fatal; nothing was
/// released before the failure and nothing is released after.
pub proof fn lemma_teardown_after_config_failure(
    caps: Capabilities,
    trace: bool,
    debug: bool,
    i: usize,
    e1: Event,
    e2: Event,
    e3: Event,
    rest: Seq<Event>,
)
    requires
        i < CONFIG_LEN,
    ensures
        ({
            let events = acquire_events(caps) + dones(i as nat) + seq![Event::Failed, e1, e2, e3] + rest;
            let acts = actions_after(Session::initial(trace, debug), events);
            &&& acts.len() == 8 + i + rest.len()
            &&& forall|j: int| 0 <= j < 4 + i ==> !is_release(#[trigger] acts[j])
            &&& acts[4 + i] == Action::DestroyVcpu
            &&& acts[5 + i] == Action::UnmapMemory
            &&& acts[6 + i] == Action::DestroyVm
            &&& forall|j: int| 7 + i <= j < acts.len() ==> #[trigger] acts[j] == Action::Finish(Outcome::Fatal)
        }),
{
    let s0 = Session::initial(trace, debug);
    let p = acquire_events(caps) + dones(i as nat);
    let t = seq![Event::Failed, e1, e2, e3];
    lemma_reach_configure(caps, trace, debug, i);
    lemma_run_append(s0, p + t, rest);
    lemma_run_append(s0, p, t);
    let c = configuring(caps, trace, debug, i);
    let f0 = next(c, Event::Failed);
    let f1 = next(f0, e1);
    let f2 = next(f1, e2);
    let f3 = next(f2, e3);
    assert(t =~= seq![Event::Failed] + (seq![e1] + (seq![e2] + seq![e3])));
    lemma_run_append(c, seq![Event::Failed], seq![e1] + (seq![e2] + seq![e3]));
    lemma_run_one(c, Event::Failed);
    lemma_run_append(f0, seq![e1], seq![e2] + seq![e3]);
    lemma_run_one(f0, e1);
    lemma_run_append(f1, seq![e2], seq![e3]);
    lemma_run_one(f1, e2);
    lemma_run_one(f2, e3);
    assert(f3.phase == Phase::Teardown && !f3.kernel && !f3.vcpu && !f3.mapped && !f3.vm && f3.fatal);
    lemma_finished_stays(f3, rest);
    lemma_actions_len(s0, p);
    lemma_actions_len(c, t);
    lemma_actions_len(f3, rest);
    assert(p.len() == 4 + i);
    let acts = actions_after(s0, p + t + rest);
    assert(actions_after(c, t) =~= seq![Action::DestroyVcpu, Action::UnmapMemory, Action::DestroyVm, Action::Finish(Outcome::Fatal)]);
    assert forall|j: int| 7 + i <= j < acts.len() implies #[trigger] acts[j] == Action::Finish(Outcome::Fatal) by {
        if j >= 8 + i {
            assert(acts[j] == actions_after(f3, rest)[j - 8 - i]);
        }
    }
}

} // verus!
