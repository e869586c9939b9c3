use hvdos::bridge::{resume_after, DOSKernel, Resume, Verdict};
use hvdos::caps::cap2ctrl;
use hvdos::config::{config_plan, Capabilities, VmcsWrite, CONFIG_LEN};
use hvdos::exit::{classify_exit, ExitReason};
use hvdos::memory::{check_image, guest_memory, load_image, ImageError, MAX_IMAGE_LEN, VM_MEM_SIZE};
use hvdos::vmcs;
use std::collections::HashMap;

#[test]
fn cap2ctrl_forces_low_bits_and_masks_by_high_bits() {
    let cap: u64 = 0x0000_00ff_0000_0016;
    assert_eq!(cap2ctrl(cap, 0x80), 0x96);
    assert_eq!(cap2ctrl(cap, 0x100), 0x16);
    assert_eq!(cap2ctrl(cap, 0), 0x16);
}

#[test]
fn cap2ctrl_excludes_disallowed_and_keeps_mandatory_bits() {
    let cases: [(u64, u64); 4] = [
        (0x0000_00ff_0000_00ff, 0xffff_ffff_ffff_ffff),
        (0x0000_0f0f_0000_0f0f, 0x1234_5678),
        (0xffff_ffff_ffff_ffff, 0),
        (0x0000_0003_0000_0007, 0x2),
    ];
    for (mask, desired) in cases {
        let r = cap2ctrl(mask, desired);
        let low = mask & 0xffff_ffff;
        let high = mask >> 32;
        assert_eq!(r & !low, 0);
        assert_eq!(r & high, high);
    }
}

#[test]
fn cap2ctrl_never_leaves_the_high_half() {
    let r = cap2ctrl(0x0000_0001_0000_0000, 0xff);
    assert_eq!(r, 0x1);
    assert_eq!(cap2ctrl(0x0000_0000_ffff_ffff, 0xff), 0);
}

fn caps() -> Capabilities {
    Capabilities {
        pin_based: 0x0000_007f_0000_0016,
        proc_based: 0xffff_ffff_0401_e172,
        proc_based2: 0x0000_00ff_0000_0000,
        entry: 0x0000_ffff_0000_11ff,
    }
}

fn field(plan: &[VmcsWrite], f: u32) -> u64 {
    plan.iter().find(|w| w.field == f).unwrap().value
}

#[test]
fn config_plan_programs_a_flat_real_mode_environment() {
    let plan = config_plan(&caps(), false);
    assert_eq!(plan.len(), CONFIG_LEN);
    assert_eq!(plan.len(), 48);
    assert_eq!(plan[0], VmcsWrite { field: vmcs::VMCS_CTRL_PIN_BASED, value: 0x16 });
    assert_eq!(field(&plan, vmcs::VMCS_CTRL_CPU_BASED), 0x0401_e172 | 0x80 | 0x8_0000 | 0x10_0000);
    assert_eq!(field(&plan, vmcs::VMCS_CTRL_CPU_BASED2), 0);
    assert_eq!(field(&plan, vmcs::VMCS_CTRL_VMENTRY_CONTROLS), 0x11ff);
    assert_eq!(field(&plan, vmcs::VMCS_CTRL_EXC_BITMAP), 0xffff_ffff);
    assert_eq!(field(&plan, vmcs::VMCS_CTRL_CR0_MASK), 0x6000_0000);
    assert_eq!(field(&plan, vmcs::VMCS_CTRL_CR0_SHADOW), 0);
    assert_eq!(field(&plan, vmcs::VMCS_CTRL_CR4_MASK), 0);
    assert_eq!(field(&plan, vmcs::VMCS_CTRL_CR4_SHADOW), 0);
    assert_eq!(field(&plan, vmcs::VMCS_GUEST_CS), 0);
    assert_eq!(field(&plan, vmcs::VMCS_GUEST_CS_LIMIT), 0xffff);
    assert_eq!(field(&plan, vmcs::VMCS_GUEST_CS_AR), 0x9b);
    assert_eq!(field(&plan, vmcs::VMCS_GUEST_SS_AR), 0x93);
    assert_eq!(field(&plan, vmcs::VMCS_GUEST_DS_BASE), 0);
    assert_eq!(field(&plan, vmcs::VMCS_GUEST_LDTR_LIMIT), 0);
    assert_eq!(field(&plan, vmcs::VMCS_GUEST_LDTR_AR), 0x1_0000);
    assert_eq!(field(&plan, vmcs::VMCS_GUEST_TR_AR), 0x83);
    assert_eq!(field(&plan, vmcs::VMCS_GUEST_GDTR_LIMIT), 0);
    assert_eq!(field(&plan, vmcs::VMCS_GUEST_IDTR_BASE), 0);
    assert_eq!(field(&plan, vmcs::VMCS_GUEST_CR0), 0x20);
    assert_eq!(field(&plan, vmcs::VMCS_GUEST_CR3), 0);
    assert_eq!(field(&plan, vmcs::VMCS_GUEST_CR4), 0x2000);
}

#[test]
fn config_plan_requests_monitor_trap_only_when_tracing() {
    let plain = config_plan(&caps(), false);
    let traced = config_plan(&caps(), true);
    assert_eq!(field(&plain, vmcs::VMCS_CTRL_CPU_BASED) & 0x800_0000, 0);
    assert_eq!(field(&traced, vmcs::VMCS_CTRL_CPU_BASED) & 0x800_0000, 0x800_0000);
}

#[test]
fn configuring_twice_gives_the_same_fields() {
    let mut fields: HashMap<u32, u64> = HashMap::new();
    fields.insert(vmcs::VMCS_GUEST_CS_AR, 0x1234);
    fields.insert(0x9999, 7);
    for w in config_plan(&caps(), true) {
        fields.insert(w.field, w.value);
    }
    let once = fields.clone();
    for w in config_plan(&caps(), true) {
        fields.insert(w.field, w.value);
    }
    assert_eq!(fields, once);
    assert_eq!(once[&vmcs::VMCS_GUEST_CS_AR], 0x9b);
    assert_eq!(once[&0x9999], 7);
}

#[test]
fn classify_exit_maps_each_code_to_one_class() {
    assert_eq!(classify_exit(0), ExitReason::ExceptionOrNmi);
    assert_eq!(classify_exit(1), ExitReason::HostInterrupt);
    assert_eq!(classify_exit(12), ExitReason::Halt);
    assert_eq!(classify_exit(37), ExitReason::MonitorTrap);
    assert_eq!(classify_exit(48), ExitReason::EptViolation);
    assert_eq!(classify_exit(2), ExitReason::Other(2));
    assert_eq!(classify_exit(30), ExitReason::Other(30));
    assert_eq!(classify_exit(u64::MAX), ExitReason::Other(u64::MAX));
}

#[test]
fn verdict_reads_every_status_code() {
    assert_eq!(DOSKernel::verdict(DOSKernel::STATUS_HANDLED), Verdict::Handled);
    assert_eq!(DOSKernel::verdict(1), Verdict::Stop);
    assert_eq!(DOSKernel::verdict(2), Verdict::Unhandled);
    assert_eq!(DOSKernel::verdict(3), Verdict::Unsupported);
    assert_eq!(DOSKernel::verdict(4), Verdict::NoReturn);
    assert_eq!(DOSKernel::verdict(5), Verdict::Unknown(5));
    assert_eq!(DOSKernel::verdict(-1), Verdict::Unknown(-1));
}

#[test]
fn resume_after_advances_past_a_handled_interrupt() {
    assert_eq!(resume_after(Verdict::Handled, 0x100), Resume::AdvanceTo(0x102));
    assert_eq!(resume_after(Verdict::Handled, u64::MAX - 2), Resume::AdvanceTo(u64::MAX));
    assert_eq!(resume_after(Verdict::NoReturn, 0x100), Resume::Unchanged);
    assert_eq!(resume_after(Verdict::Stop, 0x100), Resume::Stop);
    assert_eq!(resume_after(Verdict::Unsupported, 0x100), Resume::Stop);
    assert_eq!(resume_after(Verdict::Unhandled, 0x100), Resume::Stop);
    assert_eq!(resume_after(Verdict::Unknown(9), 0x100), Resume::Stop);
}

#[test]
fn guest_memory_is_one_zeroed_mebibyte() {
    let mem = guest_memory();
    assert_eq!(mem.len(), 0x10_0000);
    assert_eq!(mem.len(), VM_MEM_SIZE);
    assert!(mem.iter().all(|b| *b == 0));
}

#[test]
fn load_image_copies_to_the_load_point() {
    let mut mem = guest_memory();
    mem[0xff] = 0x11;
    mem[0x103] = 0x22;
    assert_eq!(load_image(&mut mem, &[0xcd, 0x21, 0xf4]), Ok(()));
    assert_eq!(mem[0xff], 0x11);
    assert_eq!(&mem[0x100..0x103], &[0xcd, 0x21, 0xf4]);
    assert_eq!(mem[0x103], 0x22);
}

#[test]
fn load_image_takes_the_largest_image_that_fits() {
    let mut mem = guest_memory();
    let image = vec![0x90u8; MAX_IMAGE_LEN];
    assert_eq!(load_image(&mut mem, &image), Ok(()));
    assert_eq!(mem[0xffff], 0x90);
    assert_eq!(mem[0x1_0000], 0);
}

#[test]
fn load_image_refuses_an_oversized_image() {
    let mut mem = guest_memory();
    let image = vec![0x90u8; 0xff01];
    assert_eq!(load_image(&mut mem, &image), Err(ImageError::TooLarge { len: 0xff01 }));
    assert!(mem.iter().all(|b| *b == 0));
    assert_eq!(check_image(0xff00), Ok(()));
    assert_eq!(check_image(0), Ok(()));
    assert_eq!(check_image(0x1_0000), Err(ImageError::TooLarge { len: 0x1_0000 }));
}
