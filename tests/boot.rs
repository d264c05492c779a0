use kernel_core::boot::{prepare_el2_to_el1_transition, RegisterWrite, SystemRegister};

#[test]
fn el1_transition_writes_in_order() {
    let w = prepare_el2_to_el1_transition(0x8_0000, 0x8_1234);
    assert_eq!(
        w,
        vec![
            RegisterWrite { register: SystemRegister::CNTHCTL_EL2, value: 0b11 },
            RegisterWrite { register: SystemRegister::CNTVOFF_EL2, value: 0 },
            RegisterWrite { register: SystemRegister::HCR_EL2, value: 1 << 31 },
            RegisterWrite { register: SystemRegister::SPSR_EL2, value: 0x3c5 },
            RegisterWrite { register: SystemRegister::ELR_EL2, value: 0x8_1234 },
            RegisterWrite { register: SystemRegister::SP_EL1, value: 0x8_0000 },
        ]
    );
}
