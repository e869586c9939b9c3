use hvdos::config::{config_plan, Capabilities, CONFIG_LEN};
use hvdos::memory::ImageError;
use hvdos::session::{Action, Event, LogKind, Outcome, Register, Session};

const HALT: u64 = 12;

fn caps() -> Capabilities {
    Capabilities {
        pin_based: 0x0000_007f_0000_0016,
        proc_based: 0xffff_ffff_0401_e172,
        proc_based2: 0x0000_00ff_0000_0000,
        entry: 0x0000_ffff_0000_11ff,
    }
}

/// A scripted host: answers each action, taking exits and emulator statuses
/// from `script`, failing the `fail_at`-th action, reporting `status` at
/// the end. Returns every action asked for.
fn drive(session: Session, script: &[Event], fail_at: Option<usize>, status: i32) -> Vec<Action> {
    let mut s = session;
    let mut actions: Vec<Action> = Vec::new();
    let mut script_pos: usize = 0;
    loop {
        let a = s.action();
        actions.push(a);
        if let Action::Finish(_) = a {
            return actions;
        }
        assert!(actions.len() < 10_000);
        let ev = if fail_at == Some(actions.len() - 1) {
            Event::Failed
        } else {
            match a {
                Action::ReadCaps => Event::Caps(caps()),
                Action::Run | Action::Dispatch(_) => {
                    let e = script[script_pos];
                    script_pos += 1;
                    e
                }
                Action::QueryStatus => Event::Status(status),
                _ => Event::Done,
            }
        };
        s.step(ev);
    }
}

fn count(actions: &[Action], a: Action) -> usize {
    actions.iter().filter(|x| **x == a).count()
}

fn tail(actions: &[Action], n: usize) -> Vec<Action> {
    actions[actions.len() - n..].to_vec()
}

#[test]
fn halt_image_runs_once_and_stops() {
    let s = Session::new(1, false, false).unwrap();
    let actions = drive(s, &[Event::Exited { reason: HALT, vector_info: 0 }], None, 0);
    assert_eq!(count(&actions, Action::Run), 1);
    assert_eq!(count(&actions, Action::QueryStatus), 1);
    assert_eq!(*actions.last().unwrap(), Action::Finish(Outcome::Exited(0)));
}

#[test]
fn session_acquires_configures_and_sets_registers_in_order() {
    let s = Session::new(1, false, false).unwrap();
    let actions = drive(s, &[Event::Exited { reason: HALT, vector_info: 0 }], None, 0);
    assert_eq!(&actions[0..4], &[Action::CreateVm, Action::ReadCaps, Action::MapMemory, Action::CreateVcpu]);
    let plan = config_plan(&caps(), false);
    for i in 0..CONFIG_LEN {
        assert_eq!(actions[4 + i], Action::WriteVmcs(plan[i]));
    }
    assert_eq!(
        &actions[4 + CONFIG_LEN..9 + CONFIG_LEN],
        &[
            Action::CreateKernel,
            Action::LoadImage,
            Action::WriteRegister(Register::Rip, 0x100),
            Action::WriteRegister(Register::Rflags, 0x2),
            Action::WriteRegister(Register::Rsp, 0xfff8),
        ]
    );
    assert_eq!(
        tail(&actions, 6),
        vec![
            Action::QueryStatus,
            Action::DestroyKernel,
            Action::DestroyVcpu,
            Action::UnmapMemory,
            Action::DestroyVm,
            Action::Finish(Outcome::Exited(0)),
        ]
    );
}

#[test]
fn handled_interrupt_advances_and_reaches_halt() {
    let s = Session::new(3, false, false).unwrap();
    let script = [
        Event::Exited { reason: 0, vector_info: 0x8000_0321 },
        Event::Dispatched { status: 0, rip: 0x100 },
        Event::Exited { reason: HALT, vector_info: 0 },
    ];
    let actions = drive(s, &script, None, 0);
    assert_eq!(count(&actions, Action::Dispatch(0x21)), 1);
    assert_eq!(count(&actions, Action::WriteRegister(Register::Rip, 0x102)), 1);
    assert_eq!(count(&actions, Action::Run), 2);
    assert_eq!(*actions.last().unwrap(), Action::Finish(Outcome::Exited(0)));
}

#[test]
fn noreturn_leaves_the_instruction_pointer() {
    let s = Session::new(3, false, false).unwrap();
    let script = [
        Event::Exited { reason: 0, vector_info: 0x20 },
        Event::Dispatched { status: 4, rip: 0x7c00 },
        Event::Exited { reason: HALT, vector_info: 0 },
    ];
    let actions = drive(s, &script, None, 5);
    let rip_writes = actions.iter().filter(|a| matches!(a, Action::WriteRegister(Register::Rip, _))).count();
    assert_eq!(rip_writes, 1);
    assert_eq!(count(&actions, Action::Run), 2);
    assert_eq!(*actions.last().unwrap(), Action::Finish(Outcome::Exited(5)));
}

#[test]
fn stop_unsupported_unhandled_and_unknown_verdicts_end_the_run() {
    for status in [1, 2, 3, 9, -4] {
        let s = Session::new(3, false, false).unwrap();
        let script = [Event::Exited { reason: 0, vector_info: 0x21 }, Event::Dispatched { status, rip: 0x100 }];
        let actions = drive(s, &script, None, 7);
        assert_eq!(count(&actions, Action::Run), 1);
        assert_eq!(count(&actions, Action::QueryStatus), 1);
        assert_eq!(*actions.last().unwrap(), Action::Finish(Outcome::Exited(7)));
    }
}

#[test]
fn unrecognized_exit_is_reported_and_stops() {
    let s = Session::new(3, false, false).unwrap();
    let actions = drive(s, &[Event::Exited { reason: 2, vector_info: 0 }], None, 0);
    assert_eq!(count(&actions, Action::Log(LogKind::Unhandled(2))), 1);
    assert_eq!(tail(&actions, 7)[0], Action::Log(LogKind::Unhandled(2)));
    assert_eq!(*actions.last().unwrap(), Action::Finish(Outcome::Exited(0)));
}

#[test]
fn trace_logs_steps_and_host_interrupts_continue() {
    let s = Session::new(3, true, false).unwrap();
    let script = [
        Event::Exited { reason: 37, vector_info: 0 },
        Event::Exited { reason: 1, vector_info: 0 },
        Event::Exited { reason: 48, vector_info: 0 },
        Event::Exited { reason: HALT, vector_info: 0 },
    ];
    let actions = drive(s, &script, None, 0);
    assert_eq!(count(&actions, Action::Run), 4);
    assert_eq!(count(&actions, Action::Log(LogKind::Step)), 1);
    assert_eq!(count(&actions, Action::Log(LogKind::HostInterrupt)), 1);
    assert_eq!(count(&actions, Action::Log(LogKind::Halt)), 1);
}

#[test]
fn quiet_session_does_not_log_steps() {
    let s = Session::new(3, false, false).unwrap();
    let script = [
        Event::Exited { reason: 37, vector_info: 0 },
        Event::Exited { reason: 1, vector_info: 0 },
        Event::Exited { reason: HALT, vector_info: 0 },
    ];
    let actions = drive(s, &script, None, 0);
    assert_eq!(count(&actions, Action::Run), 3);
    assert!(!actions.iter().any(|a| matches!(a, Action::Log(_))));
}

#[test]
fn failure_at_every_configuration_write_tears_down_once() {
    for k in 0..CONFIG_LEN {
        let s = Session::new(1, false, false).unwrap();
        let actions = drive(s, &[], Some(4 + k), 0);
        assert_eq!(
            tail(&actions, 4),
            vec![Action::DestroyVcpu, Action::UnmapMemory, Action::DestroyVm, Action::Finish(Outcome::Fatal)]
        );
        assert_eq!(count(&actions, Action::DestroyVcpu), 1);
        assert_eq!(count(&actions, Action::UnmapMemory), 1);
        assert_eq!(count(&actions, Action::DestroyVm), 1);
        assert_eq!(count(&actions, Action::DestroyKernel), 0);
        assert_eq!(actions.len(), 4 + k + 1 + 4);
    }
}

#[test]
fn failed_run_releases_everything_in_reverse_order() {
    let s = Session::new(1, false, false).unwrap();
    let actions = drive(s, &[], Some(4 + CONFIG_LEN + 5), 0);
    assert_eq!(actions[4 + CONFIG_LEN + 5], Action::Run);
    assert_eq!(
        tail(&actions, 5),
        vec![
            Action::DestroyKernel,
            Action::DestroyVcpu,
            Action::UnmapMemory,
            Action::DestroyVm,
            Action::Finish(Outcome::Fatal),
        ]
    );
}

#[test]
fn failure_before_mapping_releases_only_the_vm() {
    let s = Session::new(1, false, false).unwrap();
    let actions = drive(s, &[], Some(2), 0);
    assert_eq!(actions, vec![Action::CreateVm, Action::ReadCaps, Action::MapMemory, Action::DestroyVm, Action::Finish(Outcome::Fatal)]);
    let s = Session::new(1, false, false).unwrap();
    let actions = drive(s, &[], Some(0), 0);
    assert_eq!(actions, vec![Action::CreateVm, Action::Finish(Outcome::Fatal)]);
}

#[test]
fn oversized_image_is_refused_before_any_resource() {
    assert_eq!(Session::new(0xff01, false, false), Err(ImageError::TooLarge { len: 0xff01 }));
    assert_eq!(Session::new(0x2_0000, true, true), Err(ImageError::TooLarge { len: 0x2_0000 }));
    let s = Session::new(0xff00, false, false).unwrap();
    assert_eq!(s.action(), Action::CreateVm);
}

#[test]
fn finished_session_stays_finished() {
    let s = Session::new(1, false, false).unwrap();
    let actions = drive(s, &[], Some(0), 0);
    assert_eq!(*actions.last().unwrap(), Action::Finish(Outcome::Fatal));
    let mut s = Session::new(1, false, false).unwrap();
    s.step(Event::Failed);
    s.step(Event::Done);
    s.step(Event::Failed);
    assert_eq!(s.action(), Action::Finish(Outcome::Fatal));
}
