use vstd::prelude::*;

verus! {

// Control-structure field encodings (Intel SDM Vol. 3, appendix B).
pub const VMCS_GUEST_ES: u32 = 0x0000_0800;
pub const VMCS_GUEST_CS: u32 = 0x0000_0802;
pub const VMCS_GUEST_SS: u32 = 0x0000_0804;
pub const VMCS_GUEST_DS: u32 = 0x0000_0806;
pub const VMCS_GUEST_FS: u32 = 0x0000_0808;
pub const VMCS_GUEST_GS: u32 = 0x0000_080a;
pub const VMCS_GUEST_LDTR: u32 = 0x0000_080c;
pub const VMCS_GUEST_TR: u32 = 0x0000_080e;
pub const VMCS_CTRL_PIN_BASED: u32 = 0x0000_4000;
pub const VMCS_CTRL_CPU_BASED: u32 = 0x0000_4002;
pub const VMCS_CTRL_EXC_BITMAP: u32 = 0x0000_4004;
pub const VMCS_CTRL_VMENTRY_CONTROLS: u32 = 0x0000_4012;
pub const VMCS_CTRL_CPU_BASED2: u32 = 0x0000_401e;
pub const VMCS_RO_EXIT_REASON: u32 = 0x0000_4402;
pub const VMCS_RO_IDT_VECTOR_INFO: u32 = 0x0000_4408;
pub const VMCS_GUEST_ES_LIMIT: u32 = 0x0000_4800;
pub const VMCS_GUEST_CS_LIMIT: u32 = 0x0000_4802;
pub const VMCS_GUEST_SS_LIMIT: u32 = 0x0000_4804;
pub const VMCS_GUEST_DS_LIMIT: u32 = 0x0000_4806;
pub const VMCS_GUEST_FS_LIMIT: u32 = 0x0000_4808;
pub const VMCS_GUEST_GS_LIMIT: u32 = 0x0000_480a;
pub const VMCS_GUEST_LDTR_LIMIT: u32 = 0x0000_480c;
pub const VMCS_GUEST_TR_LIMIT: u32 = 0x0000_480e;
pub const VMCS_GUEST_GDTR_LIMIT: u32 = 0x0000_4810;
pub const VMCS_GUEST_IDTR_LIMIT: u32 = 0x0000_4812;
pub const VMCS_GUEST_ES_AR: u32 = 0x0000_4814;
pub const VMCS_GUEST_CS_AR: u32 = 0x0000_4816;
pub const VMCS_GUEST_SS_AR: u32 = 0x0000_4818;
pub const VMCS_GUEST_DS_AR: u32 = 0x0000_481a;
pub const VMCS_GUEST_FS_AR: u32 = 0x0000_481c;
pub const VMCS_GUEST_GS_AR: u32 = 0x0000_481e;
pub const VMCS_GUEST_LDTR_AR: u32 = 0x0000_4820;
pub const VMCS_GUEST_TR_AR: u32 = 0x0000_4822;
pub const VMCS_CTRL_CR0_MASK: u32 = 0x0000_6000;
pub const VMCS_CTRL_CR4_MASK: u32 = 0x0000_6002;
pub const VMCS_CTRL_CR0_SHADOW: u32 = 0x0000_6004;
pub const VMCS_CTRL_CR4_SHADOW: u32 = 0x0000_6006;
pub const VMCS_GUEST_CR0: u32 = 0x0000_6800;
pub const VMCS_GUEST_CR3: u32 = 0x0000_6802;
pub const VMCS_GUEST_CR4: u32 = 0x0000_6804;
pub const VMCS_GUEST_ES_BASE: u32 = 0x0000_6806;
pub const VMCS_GUEST_CS_BASE: u32 = 0x0000_6808;
pub const VMCS_GUEST_SS_BASE: u32 = 0x0000_680a;
pub const VMCS_GUEST_DS_BASE: u32 = 0x0000_680c;
pub const VMCS_GUEST_FS_BASE: u32 = 0x0000_680e;
pub const VMCS_GUEST_GS_BASE: u32 = 0x0000_6810;
pub const VMCS_GUEST_LDTR_BASE: u32 = 0x0000_6812;
pub const VMCS_GUEST_TR_BASE: u32 = 0x0000_6814;
pub const VMCS_GUEST_GDTR_BASE: u32 = 0x0000_6816;
pub const VMCS_GUEST_IDTR_BASE: u32 = 0x0000_6818;

// Primary processor-based execution controls.
pub const CPU_BASED_HLT: u64 = 0x80;
pub const CPU_BASED_CR8_LOAD: u64 = 0x8_0000;
pub const CPU_BASED_CR8_STORE: u64 = 0x10_0000;
pub const CPU_BASED_MTF: u64 = 0x800_0000;

// Basic exit reasons.
pub const VMX_REASON_EXC_NMI: u64 = 0;
pub const VMX_REASON_IRQ: u64 = 1;
pub const VMX_REASON_HLT: u64 = 12;
pub const VMX_REASON_MTF: u64 = 37;
pub const VMX_REASON_EPT_VIOLATION: u64 = 48;

} // verus!
