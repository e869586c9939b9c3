use vstd::prelude::*;
use crate::caps::{cap2ctrl, negotiated};
use crate::vmcs::{CPU_BASED_CR8_LOAD, CPU_BASED_CR8_STORE, CPU_BASED_HLT, CPU_BASED_MTF, VMCS_CTRL_CPU_BASED, VMCS_CTRL_CPU_BASED2, VMCS_CTRL_CR0_MASK, VMCS_CTRL_CR0_SHADOW, VMCS_CTRL_CR4_MASK, VMCS_CTRL_CR4_SHADOW, VMCS_CTRL_EXC_BITMAP, VMCS_CTRL_PIN_BASED, VMCS_CTRL_VMENTRY_CONTROLS, VMCS_GUEST_CR0, VMCS_GUEST_CR3, VMCS_GUEST_CR4, VMCS_GUEST_CS, VMCS_GUEST_CS_AR, VMCS_GUEST_CS_BASE, VMCS_GUEST_CS_LIMIT, VMCS_GUEST_DS, VMCS_GUEST_DS_AR, VMCS_GUEST_DS_BASE, VMCS_GUEST_DS_LIMIT, VMCS_GUEST_ES, VMCS_GUEST_ES_AR, VMCS_GUEST_ES_BASE, VMCS_GUEST_ES_LIMIT, VMCS_GUEST_FS, VMCS_GUEST_FS_AR, VMCS_GUEST_FS_BASE, VMCS_GUEST_FS_LIMIT, VMCS_GUEST_GDTR_BASE, VMCS_GUEST_GDTR_LIMIT, VMCS_GUEST_GS, VMCS_GUEST_GS_AR, VMCS_GUEST_GS_BASE, VMCS_GUEST_GS_LIMIT, VMCS_GUEST_IDTR_BASE, VMCS_GUEST_IDTR_LIMIT, VMCS_GUEST_LDTR, VMCS_GUEST_LDTR_AR, VMCS_GUEST_LDTR_BASE, VMCS_GUEST_LDTR_LIMIT, VMCS_GUEST_SS, VMCS_GUEST_SS_AR, VMCS_GUEST_SS_BASE, VMCS_GUEST_SS_LIMIT, VMCS_GUEST_TR, VMCS_GUEST_TR_AR, VMCS_GUEST_TR_BASE, VMCS_GUEST_TR_LIMIT};

verus! {

/// The capability masks that the host reports for the four control-field
/// categories that the configurator programs.
#[derive(Clone, Copy, Debug, PartialEq, Eq, Structural)]
pub struct Capabilities {
    pub pin_based: u64,
    pub proc_based: u64,
    pub proc_based2: u64,
    pub entry: u64,
}

/// One write of a value into a control-structure field of the virtual CPU.
#[derive(Clone, Copy, Debug, PartialEq, Eq, Structural)]
pub struct VmcsWrite {
    pub field: u32,
    pub value: u64,
}

/// Access rights of a code segment: present, executable, readable, accessed.
pub const AR_CODE: u64 = 0x9b;

/// Access rights of a data segment: present, writable, accessed.
pub const AR_DATA: u64 = 0x93;

/// Access rights that mark a segment register unusable.
pub const AR_UNUSABLE: u64 = 0x1_0000;

/// Access rights of a busy 16-bit task state segment.
pub const AR_TSS_BUSY: u64 = 0x83;

/// Guest-owned CR0 bits: reads of them return the shadow.
pub const CR0_MASK: u64 = 0x6000_0000;

/// Initial guest CR0: only the numeric-error bit, which the hardware needs.
pub const GUEST_CR0: u64 = 0x20;

/// Initial guest CR4: only the VMX-enable bit, which the hardware needs.
pub const GUEST_CR4: u64 = 0x2000;

/// The processor-based controls that the configurator asks for: HLT and CR8
/// loads and stores always exit, and every instruction exits when tracing.
pub open spec fn cpu_based_desired(trace: bool) -> u64 {
    (if trace { CPU_BASED_MTF } else { 0 }) | CPU_BASED_HLT | CPU_BASED_CR8_LOAD
        | CPU_BASED_CR8_STORE
}

pub open spec fn write_of(field: u32, value: u64) -> VmcsWrite {
    VmcsWrite { field, value }
}

/// The control fields, negotiated against the capability masks.
pub open spec fn control_writes(caps: Capabilities, trace: bool) -> Seq<VmcsWrite> {
    seq![
        write_of(VMCS_CTRL_PIN_BASED, negotiated(caps.pin_based, 0)),
        write_of(VMCS_CTRL_CPU_BASED, negotiated(caps.proc_based, cpu_based_desired(trace))),
        write_of(VMCS_CTRL_CPU_BASED2, negotiated(caps.proc_based2, 0)),
        write_of(VMCS_CTRL_VMENTRY_CONTROLS, negotiated(caps.entry, 0)),
        write_of(VMCS_CTRL_EXC_BITMAP, 0xffff_ffff),
        write_of(VMCS_CTRL_CR0_MASK, CR0_MASK),
        write_of(VMCS_CTRL_CR0_SHADOW, 0),
        write_of(VMCS_CTRL_CR4_MASK, 0),
        write_of(VMCS_CTRL_CR4_SHADOW, 0),
    ]
}

/// A segment register: selector 0, the given limit and access rights, base 0.
pub open spec fn segment_writes(sel: u32, limit_f: u32, ar_f: u32, base_f: u32, limit: u64, ar: u64) -> Seq<VmcsWrite> {
    seq![write_of(sel, 0), write_of(limit_f, limit), write_of(ar_f, ar), write_of(base_f, 0)]
}

/// The guest-state fields of a flat 16-bit environment without descriptor
/// tables.
pub open spec fn guest_state_writes() -> Seq<VmcsWrite> {
    segment_writes(VMCS_GUEST_CS, VMCS_GUEST_CS_LIMIT, VMCS_GUEST_CS_AR, VMCS_GUEST_CS_BASE, 0xffff, AR_CODE)
        + segment_writes(VMCS_GUEST_DS, VMCS_GUEST_DS_LIMIT, VMCS_GUEST_DS_AR, VMCS_GUEST_DS_BASE, 0xffff, AR_DATA)
        + segment_writes(VMCS_GUEST_ES, VMCS_GUEST_ES_LIMIT, VMCS_GUEST_ES_AR, VMCS_GUEST_ES_BASE, 0xffff, AR_DATA)
        + segment_writes(VMCS_GUEST_FS, VMCS_GUEST_FS_LIMIT, VMCS_GUEST_FS_AR, VMCS_GUEST_FS_BASE, 0xffff, AR_DATA)
        + segment_writes(VMCS_GUEST_GS, VMCS_GUEST_GS_LIMIT, VMCS_GUEST_GS_AR, VMCS_GUEST_GS_BASE, 0xffff, AR_DATA)
        + segment_writes(VMCS_GUEST_SS, VMCS_GUEST_SS_LIMIT, VMCS_GUEST_SS_AR, VMCS_GUEST_SS_BASE, 0xffff, AR_DATA)
        + segment_writes(VMCS_GUEST_LDTR, VMCS_GUEST_LDTR_LIMIT, VMCS_GUEST_LDTR_AR, VMCS_GUEST_LDTR_BASE, 0, AR_UNUSABLE)
        + segment_writes(VMCS_GUEST_TR, VMCS_GUEST_TR_LIMIT, VMCS_GUEST_TR_AR, VMCS_GUEST_TR_BASE, 0, AR_TSS_BUSY)
        + seq![
            write_of(VMCS_GUEST_GDTR_LIMIT, 0),
            write_of(VMCS_GUEST_GDTR_BASE, 0),
            write_of(VMCS_GUEST_IDTR_LIMIT, 0),
            write_of(VMCS_GUEST_IDTR_BASE, 0),
            write_of(VMCS_GUEST_CR0, GUEST_CR0),
            write_of(VMCS_GUEST_CR3, 0),
            write_of(VMCS_GUEST_CR4, GUEST_CR4),
        ]
}

/// Every field write of the configurator, in order.
pub open spec fn config_writes(caps: Capabilities, trace: bool) -> Seq<VmcsWrite> {
    control_writes(caps, trace) + guest_state_writes()
}

/// The number of field writes that configure a virtual CPU.
pub const CONFIG_LEN: usize = 48;

fn push_write(v: &mut Vec<VmcsWrite>, field: u32, value: u64)
    ensures
        final(v)@ == old(v)@.push(write_of(field, value)),
{
    v.push(VmcsWrite { field, value });
}

fn push_segment(v: &mut Vec<VmcsWrite>, sel: u32, limit_f: u32, ar_f: u32, base_f: u32, limit: u64, ar: u64)
    ensures
        final(v)@ == old(v)@ + segment_writes(sel, limit_f, ar_f, base_f, limit, ar),
{
    push_write(v, sel, 0);
    push_write(v, limit_f, limit);
    push_write(v, ar_f, ar);
    push_write(v, base_f, 0);
    assert(final(v)@ =~= old(v)@ + segment_writes(sel, limit_f, ar_f, base_f, limit, ar));
}

/// The field writes that put a virtual CPU into a flat real-mode-like state,
/// with the control fields negotiated against `caps`.
pub fn config_plan(caps: &Capabilities, trace: bool) -> (r: Vec<VmcsWrite>)
    ensures
        r@ == config_writes(*caps, trace),
        r@.len() == CONFIG_LEN,
{
    let mut v: Vec<VmcsWrite> = Vec::new();
    let cpu_based: u64 = (if trace { CPU_BASED_MTF } else { 0 }) | CPU_BASED_HLT | CPU_BASED_CR8_LOAD
        | CPU_BASED_CR8_STORE;
    push_write(&mut v, VMCS_CTRL_PIN_BASED, cap2ctrl(caps.pin_based, 0));
    push_write(&mut v, VMCS_CTRL_CPU_BASED, cap2ctrl(caps.proc_based, cpu_based));
    push_write(&mut v, VMCS_CTRL_CPU_BASED2, cap2ctrl(caps.proc_based2, 0));
    push_write(&mut v, VMCS_CTRL_VMENTRY_CONTROLS, cap2ctrl(caps.entry, 0));
    push_write(&mut v, VMCS_CTRL_EXC_BITMAP, 0xffff_ffff);
    push_write(&mut v, VMCS_CTRL_CR0_MASK, CR0_MASK);
    push_write(&mut v, VMCS_CTRL_CR0_SHADOW, 0);
    push_write(&mut v, VMCS_CTRL_CR4_MASK, 0);
    push_write(&mut v, VMCS_CTRL_CR4_SHADOW, 0);
    assert(v@ =~= control_writes(*caps, trace));
    let ghost controls = v@;
    push_segment(&mut v, VMCS_GUEST_CS, VMCS_GUEST_CS_LIMIT, VMCS_GUEST_CS_AR, VMCS_GUEST_CS_BASE, 0xffff, AR_CODE);
    push_segment(&mut v, VMCS_GUEST_DS, VMCS_GUEST_DS_LIMIT, VMCS_GUEST_DS_AR, VMCS_GUEST_DS_BASE, 0xffff, AR_DATA);
    push_segment(&mut v, VMCS_GUEST_ES, VMCS_GUEST_ES_LIMIT, VMCS_GUEST_ES_AR, VMCS_GUEST_ES_BASE, 0xffff, AR_DATA);
    push_segment(&mut v, VMCS_GUEST_FS, VMCS_GUEST_FS_LIMIT, VMCS_GUEST_FS_AR, VMCS_GUEST_FS_BASE, 0xffff, AR_DATA);
    push_segment(&mut v, VMCS_GUEST_GS, VMCS_GUEST_GS_LIMIT, VMCS_GUEST_GS_AR, VMCS_GUEST_GS_BASE, 0xffff, AR_DATA);
    push_segment(&mut v, VMCS_GUEST_SS, VMCS_GUEST_SS_LIMIT, VMCS_GUEST_SS_AR, VMCS_GUEST_SS_BASE, 0xffff, AR_DATA);
    push_segment(&mut v, VMCS_GUEST_LDTR, VMCS_GUEST_LDTR_LIMIT, VMCS_GUEST_LDTR_AR, VMCS_GUEST_LDTR_BASE, 0, AR_UNUSABLE);
    push_segment(&mut v, VMCS_GUEST_TR, VMCS_GUEST_TR_LIMIT, VMCS_GUEST_TR_AR, VMCS_GUEST_TR_BASE, 0, AR_TSS_BUSY);
    push_write(&mut v, VMCS_GUEST_GDTR_LIMIT, 0);
    push_write(&mut v, VMCS_GUEST_GDTR_BASE, 0);
    push_write(&mut v, VMCS_GUEST_IDTR_LIMIT, 0);
    push_write(&mut v, VMCS_GUEST_IDTR_BASE, 0);
    push_write(&mut v, VMCS_GUEST_CR0, GUEST_CR0);
    push_write(&mut v, VMCS_GUEST_CR3, 0);
    push_write(&mut v, VMCS_GUEST_CR4, GUEST_CR4);
    assert(v@ =~= controls + guest_state_writes());
    v
}

/// The fields of a virtual CPU after the writes `w`, in order, on `fields`.
pub open spec fn apply_writes(fields: Map<u32, u64>, w: Seq<VmcsWrite>) -> Map<u32, u64>
    decreases w.len(),
{
    if w.len() == 0 {
        fields
    } else {
        apply_writes(fields, w.drop_last()).insert(w.last().field, w.last().value)
    }
}

/// Whether some write of `w` targets field `k`.
pub open spec fn writes_field(w: Seq<VmcsWrite>, k: u32) -> bool
    decreases w.len(),
{
    if w.len() == 0 {
        false
    } else {
        w.last().field == k || writes_field(w.drop_last(), k)
    }
}

/// The value of the last write of `w` to field `k`.
pub open spec fn last_value(w: Seq<VmcsWrite>, k: u32) -> u64
    decreases w.len(),
{
    if w.len() == 0 {
        0
    } else if w.last().field == k {
        w.last().value
    } else {
        last_value(w.drop_last(), k)
    }
}

proof fn lemma_apply_key(m: Map<u32, u64>, w: Seq<VmcsWrite>, k: u32)
    ensures
        apply_writes(m, w).contains_key(k) == (m.contains_key(k) || writes_field(w, k)),
        writes_field(w, k) ==> apply_writes(m, w)[k] == last_value(w, k),
        !writes_field(w, k) && m.contains_key(k) ==> apply_writes(m, w)[k] == m[k],
    decreases w.len(),
{
    if w.len() > 0 {
        lemma_apply_key(m, w.drop_last(), k);
    }
}

/// Applying the same writes twice leaves the fields as applying them once,
/// and the fields that the writes target end with the same values whatever
/// the fields held before.
pub proof fn lemma_apply_writes_idempotent(m: Map<u32, u64>, other: Map<u32, u64>, w: Seq<VmcsWrite>)
    ensures
        apply_writes(apply_writes(m, w), w) == apply_writes(m, w),
        forall|k: u32| #[trigger] writes_field(w, k) ==> apply_writes(m, w).contains_key(k)
            && apply_writes(other, w).contains_key(k) && apply_writes(m, w)[k] == apply_writes(other, w)[k],
{
    let once = apply_writes(m, w);
    assert forall|k: u32| #[trigger] writes_field(w, k) implies once.contains_key(k)
        && apply_writes(other, w).contains_key(k) && once[k] == apply_writes(other, w)[k] by {
        lemma_apply_key(m, w, k);
        lemma_apply_key(other, w, k);
    }
    assert forall|k: u32| #[trigger] apply_writes(once, w).contains_key(k) == once.contains_key(k) by {
        lemma_apply_key(m, w, k);
        lemma_apply_key(once, w, k);
    }
    assert forall|k: u32| #[trigger] apply_writes(once, w).contains_key(k) implies apply_writes(once, w)[k]
        == once[k] by {
        lemma_apply_key(m, w, k);
        lemma_apply_key(once, w, k);
    }
    assert(apply_writes(once, w) =~= once);
}

/// Configuring a virtual CPU twice with the same capabilities and trace
/// setting leaves every field as configuring it once, and every configured
/// field holds the same value whatever the virtual CPU held before.
pub proof fn lemma_configure_idempotent(fields: Map<u32, u64>, other: Map<u32, u64>, caps: Capabilities, trace: bool)
    ensures
        apply_writes(apply_writes(fields, config_writes(caps, trace)), config_writes(caps, trace))
            == apply_writes(fields, config_writes(caps, trace)),
        forall|k: u32| #[trigger] writes_field(config_writes(caps, trace), k)
            ==> apply_writes(fields, config_writes(caps, trace))[k] == apply_writes(other, config_writes(caps, trace))[k],
{
    lemma_apply_writes_idempotent(fields, other, config_writes(caps, trace));
}

} // verus!
