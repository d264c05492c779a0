//! The one-time drop from EL2 to EL1.
//!
//! The boot core stages the state that EL1 starts in, then performs an
//! exception return into the kernel's entry point. This module computes that
//! state as an ordered list of system register writes; the caller performs
//! the writes and the `eret`, after which nothing on the caller's side runs.

use vstd::prelude::*;

verus! {

/// A system register that the drop to EL1 writes.
#[derive(PartialEq, Eq, Structural, Clone, Copy, Debug)]
#[allow(non_camel_case_types)]
pub enum SystemRegister {
    /// Counter-timer hypervisor control: what EL1 may read of the counter.
    CNTHCTL_EL2,
    /// Counter-timer virtual offset.
    CNTVOFF_EL2,
    /// Hypervisor configuration: the execution state of EL1.
    HCR_EL2,
    /// The program status that the exception return restores.
    SPSR_EL2,
    /// The address that the exception return jumps to.
    ELR_EL2,
    /// The stack pointer of EL1.
    SP_EL1,
}

/// One write of `value` to `register`.
#[derive(PartialEq, Eq, Structural, Clone, Copy, Debug)]
pub struct RegisterWrite {
    pub register: SystemRegister,
    pub value: u64,
}

/// `CNTHCTL_EL2` with `EL1PCEN` and `EL1PCTEN` set: EL1 may read the physical
/// counter and use the physical timer.
pub const CNTHCTL_EL2_EL1_COUNTER_ACCESS: u64 = 0x3;

/// `HCR_EL2` with `RW` set: EL1 runs in AArch64.
pub const HCR_EL2_EL1_IS_AARCH64: u64 = 0x8000_0000;

/// `SPSR_EL2` with the D, A, I and F exceptions masked (bits 9 to 6) and
/// `M` = EL1h (0b0101): EL1 using its own stack pointer.
pub const SPSR_EL2_MASKED_EL1H: u64 = 0x3c5;

/// The writes that stage EL1, in the order they are made.
pub open spec fn el1_transition_writes(stack_end: u64, entry: u64) -> Seq<RegisterWrite> {
    seq![
        RegisterWrite {
            register: SystemRegister::CNTHCTL_EL2,
            value: CNTHCTL_EL2_EL1_COUNTER_ACCESS,
        },
        RegisterWrite { register: SystemRegister::CNTVOFF_EL2, value: 0 },
        RegisterWrite { register: SystemRegister::HCR_EL2, value: HCR_EL2_EL1_IS_AARCH64 },
        RegisterWrite { register: SystemRegister::SPSR_EL2, value: SPSR_EL2_MASKED_EL1H },
        RegisterWrite { register: SystemRegister::ELR_EL2, value: entry },
        RegisterWrite { register: SystemRegister::SP_EL1, value: stack_end },
    ]
}

/// Relies on aarch64_cpu's `CNTHCTL_EL2` fields `EL1PCEN` (bit 1) and
/// `EL1PCTEN` (bit 0), combined by tock_registers' `FieldValue` addition.
#[verifier::external_body]
fn cnthctl_el1_counter_access() -> (r: u64)
    ensures
        r == CNTHCTL_EL2_EL1_COUNTER_ACCESS,
{
    (aarch64_cpu::registers::CNTHCTL_EL2::EL1PCEN::SET
        + aarch64_cpu::registers::CNTHCTL_EL2::EL1PCTEN::SET).value
}

/// Relies on aarch64_cpu's `HCR_EL2::RW::EL1IsAarch64`: bit 31 set.
#[verifier::external_body]
fn hcr_el1_is_aarch64() -> (r: u64)
    ensures
        r == HCR_EL2_EL1_IS_AARCH64,
{
    aarch64_cpu::registers::HCR_EL2::RW::EL1IsAarch64.value
}

/// Relies on aarch64_cpu's `SPSR_EL2` fields `D`, `A`, `I`, `F` (bits 9 to 6,
/// `Masked` = 1) and `M` (bits 3 to 0, `EL1h` = 0b0101), combined by
/// tock_registers' `FieldValue` addition.
#[verifier::external_body]
fn spsr_masked_el1h() -> (r: u64)
    ensures
        r == SPSR_EL2_MASKED_EL1H,
{
    (aarch64_cpu::registers::SPSR_EL2::D::Masked + aarch64_cpu::registers::SPSR_EL2::A::Masked
        + aarch64_cpu::registers::SPSR_EL2::I::Masked + aarch64_cpu::registers::SPSR_EL2::F::Masked
        + aarch64_cpu::registers::SPSR_EL2::M::EL1h).value
}

/// The register writes that prepare the drop from EL2 to EL1, in order:
/// EL1 may read the counter; the virtual counter offset is zero; EL1 runs in
/// AArch64; the saved program status masks every asynchronous exception and
/// selects EL1's own stack pointer; the exception return goes to
/// `kernel_init_addr`; and EL1's stack starts at
/// `phys_boot_core_stack_end_exclusive_addr`, reusing the boot stack.
pub fn prepare_el2_to_el1_transition(
    phys_boot_core_stack_end_exclusive_addr: u64,
    kernel_init_addr: u64,
) -> (r: Vec<RegisterWrite>)
    ensures
        r@ == el1_transition_writes(phys_boot_core_stack_end_exclusive_addr, kernel_init_addr),
{
    let mut writes: Vec<RegisterWrite> = Vec::new();
    writes.push(
        RegisterWrite { register: SystemRegister::CNTHCTL_EL2, value: cnthctl_el1_counter_access() },
    );
    writes.push(RegisterWrite { register: SystemRegister::CNTVOFF_EL2, value: 0 });
    writes.push(RegisterWrite { register: SystemRegister::HCR_EL2, value: hcr_el1_is_aarch64() });
    writes.push(RegisterWrite { register: SystemRegister::SPSR_EL2, value: spsr_masked_el1h() });
    writes.push(RegisterWrite { register: SystemRegister::ELR_EL2, value: kernel_init_addr });
    writes.push(
        RegisterWrite {
            register: SystemRegister::SP_EL1,
            value: phys_boot_core_stack_end_exclusive_addr,
        },
    );
    assert(writes@ =~= el1_transition_writes(
        phys_boot_core_stack_end_exclusive_addr,
        kernel_init_addr,
    ));
    writes
}

} // verus!
