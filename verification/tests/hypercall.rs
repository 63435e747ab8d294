use xrtf::arch::x86_64::{setup_cpu_vendor, CpuVendor};
use xrtf::xen::event::{EventChannel, EVENT_CHANNEL_OP, EVTCHN_SEND};
use xrtf::xen::hypercall::{
    hypercall0, hypercall1, hypercall2, hypercall3, hypercall4, hypercall5, native_hypercall,
    Hypercall, HypercallAbi, ResultRegister, TrapInstruction,
};
use xrtf::xen::{hvm_get_param, hvm_param_value, XenHvmParam};

/// The three registers that CPUID leaf 0 returns for an identification
/// string: `ebx`, `edx`, `ecx`.
fn leaf(id: &[u8; 12]) -> (u32, u32, u32) {
    let word = |i: usize| u32::from_le_bytes([id[i], id[i + 1], id[i + 2], id[i + 3]]);
    (word(0), word(4), word(8))
}

fn vendor(id: &[u8; 12]) -> CpuVendor {
    let (ebx, edx, ecx) = leaf(id);
    setup_cpu_vendor(ebx, edx, ecx)
}

#[test]
fn amd_string_selects_vmmcall() {
    assert_eq!(vendor(b"AuthenticAMD"), CpuVendor::Amd);
    assert_eq!(setup_cpu_vendor(0x6874_7541, 0x6974_6e65, 0x444d_4163), CpuVendor::Amd);
    assert_eq!(native_hypercall(vendor(b"AuthenticAMD")), TrapInstruction::Vmmcall);
}

#[test]
fn any_other_string_selects_vmcall() {
    for id in [
        b"GenuineIntel",
        b"HygonGenuine",
        b"AuthenticAMd",
        b"authenticAMD",
        b"AMDAuthentic",
        b"enticAuthcAMD"[..12].try_into().unwrap(),
        b"\0\0\0\0\0\0\0\0\0\0\0\0",
    ] {
        assert_eq!(vendor(id), CpuVendor::Intel);
        assert_eq!(native_hypercall(vendor(id)), TrapInstruction::Vmcall);
    }
}

#[test]
fn registers_in_another_order_are_not_amd() {
    // ebx, ecx, edx: the order of the registers' names, not of the string
    assert_eq!(setup_cpu_vendor(0x6874_7541, 0x444d_4163, 0x6974_6e65), CpuVendor::Intel);
}

#[test]
fn vendor_stays_the_same_for_every_call() {
    let amd = vendor(b"AuthenticAMD");
    let calls = [
        hypercall0(amd, 1),
        hypercall1(amd, 2, 10),
        hypercall2(amd, 3, [10, 11]),
        hypercall3(amd, 4, [10, 11, 12]),
        hypercall4(amd, 5, [10, 11, 12, 13]),
        hypercall5(amd, 6, [10, 11, 12, 13, 14]),
    ];
    for call in calls {
        assert_eq!(call.instruction, TrapInstruction::Vmmcall);
    }
    assert_eq!(vendor(b"AuthenticAMD"), amd);
}

#[test]
fn hypercalls_load_their_arguments_in_order() {
    let v = CpuVendor::Intel;
    let base = Hypercall {
        instruction: TrapInstruction::Vmcall,
        rax: 0,
        rdi: None,
        rsi: None,
        rdx: None,
        r10: None,
        r8: None,
        result: ResultRegister::Rax,
    };
    assert_eq!(hypercall0(v, 40), Hypercall { rax: 40, ..base });
    assert_eq!(hypercall1(v, 41, 1), Hypercall { rax: 41, rdi: Some(1), ..base });
    assert_eq!(hypercall2(v, 42, [1, 2]), Hypercall { rax: 42, rdi: Some(1), rsi: Some(2), ..base });
    assert_eq!(
        hypercall3(v, 43, [1, 2, 3]),
        Hypercall { rax: 43, rdi: Some(1), rsi: Some(2), rdx: Some(3), ..base }
    );
    assert_eq!(
        hypercall4(v, 44, [1, 2, 3, 4]),
        Hypercall { rax: 44, rdi: Some(1), rsi: Some(2), rdx: Some(3), r10: Some(4), ..base }
    );
    assert_eq!(
        hypercall5(v, 45, [1, 2, 3, 4, 5]),
        Hypercall {
            rax: 45,
            rdi: Some(1),
            rsi: Some(2),
            rdx: Some(3),
            r10: Some(4),
            r8: Some(5),
            ..base
        }
    );
}

#[test]
fn event_is_sent_by_a_two_argument_hypercall() {
    assert_eq!(EVENT_CHANNEL_OP, 32);
    assert_eq!(EVTCHN_SEND, 4);
    let port = EventChannel(9);
    assert_eq!(
        port.send(CpuVendor::Amd, HypercallAbi::Standard, 0x7f00),
        Hypercall {
            instruction: TrapInstruction::Vmmcall,
            rax: 32,
            rdi: Some(4),
            rsi: Some(0x7f00),
            rdx: None,
            r10: None,
            r8: None,
            result: ResultRegister::Rax,
        }
    );
    assert_eq!(
        port.send(CpuVendor::Amd, HypercallAbi::Standard, 0x7f00),
        hypercall2(CpuVendor::Amd, 32, [4, 0x7f00])
    );
}

#[test]
fn fast_event_carries_the_port_in_a_register() {
    let port = EventChannel(9);
    assert_eq!(
        port.send(CpuVendor::Intel, HypercallAbi::Fast, 0x7f00),
        Hypercall {
            instruction: TrapInstruction::Vmcall,
            rax: 0x4000_0020,
            rdi: Some(4),
            rsi: Some(9),
            rdx: None,
            r10: None,
            r8: None,
            result: ResultRegister::Rax,
        }
    );
    assert_eq!(
        EventChannel(u32::MAX).send(CpuVendor::Intel, HypercallAbi::Fast, 0).rsi,
        Some(0xffff_ffff)
    );
}

#[test]
fn parameter_is_read_through_memory() {
    let param = XenHvmParam::new(17);
    assert_eq!(param, XenHvmParam { domid: 0x7FF0, _pad: 0, index: 17, value: 0 });
    assert_eq!(
        hvm_get_param(CpuVendor::Intel, HypercallAbi::Standard, 17, 0x9000),
        hypercall2(CpuVendor::Intel, 34, [1, 0x9000])
    );
    let answered = XenHvmParam { value: 0x1234, ..param };
    assert_eq!(hvm_param_value(HypercallAbi::Standard, &answered, 0xdead), 0x1234);
}

#[test]
fn fast_parameter_is_read_through_registers() {
    assert_eq!(
        hvm_get_param(CpuVendor::Amd, HypercallAbi::Fast, 18, 0x9000),
        Hypercall {
            instruction: TrapInstruction::Vmmcall,
            rax: 0x4000_0022,
            rdi: Some(1),
            rsi: Some(0x7FF0),
            rdx: None,
            r10: None,
            r8: Some(18),
            result: ResultRegister::R9,
        }
    );
    let param = XenHvmParam { value: 0x1234, ..XenHvmParam::new(18) };
    assert_eq!(hvm_param_value(HypercallAbi::Fast, &param, 0xbeef), 0xbeef);
}
