use reznez::mapper::mappers::vrc::vrc2::{BankLowBitBehavior, Vrc2};
use reznez::mapper::mappers::vrc::vrc4::Vrc4;
use reznez::mapper::mappers::vrc::VrcAction;
use reznez::memory::register_ids::{ChrBankRegisterId, PrgBankRegisterId};

fn vrc2_registers() -> Vec<(u16, u16, ChrBankRegisterId)> {
    vec![
        (0xB000, 0xB001, ChrBankRegisterId::C),
        (0xB002, 0xB003, ChrBankRegisterId::D),
        (0xC000, 0xC001, ChrBankRegisterId::E),
    ]
}

#[test]
fn vrc2_chr_bank_halves() {
    let mut vrc2 = Vrc2::new(&vrc2_registers(), BankLowBitBehavior::Keep);
    assert_eq!(
        vrc2.write_register(0xB000, 0x1F),
        Some(VrcAction::SetChrBankRegisterBits { chr_register: ChrBankRegisterId::C, bank: 0x1F, mask: 0x0F }),
    );
    assert_eq!(
        vrc2.write_register(0xB003, 0x0A),
        Some(VrcAction::SetChrBankRegisterBits { chr_register: ChrBankRegisterId::D, bank: 0xA0, mask: 0xF0 }),
    );
    assert_eq!(vrc2.write_register(0xC004, 5), None);
}

#[test]
fn vrc2_ignoring_the_low_bit_shifts_the_bank() {
    let mut vrc2 = Vrc2::new(&vrc2_registers(), BankLowBitBehavior::Ignore);
    assert_eq!(
        vrc2.write_register(0xC001, 0x0A),
        Some(VrcAction::SetChrBankRegisterBits { chr_register: ChrBankRegisterId::E, bank: 0x50, mask: 0x78 }),
    );
    assert_eq!(
        vrc2.write_register(0xB000, 0x07),
        Some(VrcAction::SetChrBankRegisterBits { chr_register: ChrBankRegisterId::C, bank: 0x03, mask: 0x07 }),
    );
}

#[test]
fn vrc2_prg_and_mirroring_registers() {
    let mut vrc2 = Vrc2::new(&vrc2_registers(), BankLowBitBehavior::Keep);
    assert_eq!(
        vrc2.write_register(0x8000, 0xFF),
        Some(VrcAction::SetPrgRegister { prg_register: PrgBankRegisterId::P, value: 0x1F }),
    );
    assert_eq!(vrc2.write_register(0x9001, 3), Some(VrcAction::SetNameTableMirroring { index: 1 }));
    assert_eq!(
        vrc2.write_register(0xA003, 2),
        Some(VrcAction::SetPrgRegister { prg_register: PrgBankRegisterId::Q, value: 2 }),
    );
    assert_eq!(vrc2.write_register(0xA004, 2), None);
}

#[test]
fn vrc2_microwire_latch() {
    let mut vrc2 = Vrc2::new(&vrc2_registers(), BankLowBitBehavior::Keep);
    assert_eq!(vrc2.peek_register(0x6000).unmasked_value(), 0);
    assert_eq!(vrc2.write_register(0x6000, 0x03), None);
    let read = vrc2.peek_register(0x6FFF);
    assert_eq!(read.unmasked_value(), 1);
    assert_eq!(read.resolve(0xFE), 0xFF);
    assert_eq!(read.resolve(0x00), 0x01);
    vrc2.write_register(0x7010, 0x02);
    assert_eq!(vrc2.peek_register(0x6000).unmasked_value(), 0);
    assert_eq!(vrc2.peek_register(0x7000).resolve(0x5A), 0x5A);
}

#[test]
fn vrc2_later_register_entries_win() {
    let registers = vec![
        (0xB000, 0xB001, ChrBankRegisterId::C),
        (0xB000, 0xB002, ChrBankRegisterId::F),
    ];
    let mut vrc2 = Vrc2::new(&registers, BankLowBitBehavior::Keep);
    assert_eq!(
        vrc2.write_register(0xB000, 1),
        Some(VrcAction::SetChrBankRegisterBits { chr_register: ChrBankRegisterId::F, bank: 1, mask: 0x0F }),
    );
    assert_eq!(
        vrc2.write_register(0xB001, 1),
        Some(VrcAction::SetChrBankRegisterBits { chr_register: ChrBankRegisterId::C, bank: 0x10, mask: 0xF0 }),
    );
}

#[test]
fn vrc4_registers() {
    let vrc4 = Vrc4::new(&[(0xB000, 0xB002, ChrBankRegisterId::C), (0xB001, 0xB003, ChrBankRegisterId::D)]);
    assert_eq!(
        vrc4.write_register(0xB002, 0x1F),
        Some(VrcAction::SetChrBankRegisterBits { chr_register: ChrBankRegisterId::C, bank: 0x1F0, mask: 0x1F0 }),
    );
    assert_eq!(
        vrc4.write_register(0xB001, 0x1F),
        Some(VrcAction::SetChrBankRegisterBits { chr_register: ChrBankRegisterId::D, bank: 0x1F, mask: 0x00F }),
    );
    assert_eq!(
        vrc4.write_register(0x9002, 0b11),
        Some(VrcAction::SetPrgLayoutAndRamEnabled { layout: 1, ram_enabled: true }),
    );
    assert_eq!(
        vrc4.write_register(0x9002, 0b10),
        Some(VrcAction::SetPrgLayoutAndRamEnabled { layout: 1, ram_enabled: false }),
    );
    assert_eq!(vrc4.write_register(0x9000, 6), Some(VrcAction::SetNameTableMirroring { index: 2 }));
    assert_eq!(vrc4.write_register(0x9001, 1), None);
    assert_eq!(
        vrc4.write_register(0x8003, 0x25),
        Some(VrcAction::SetPrgRegister { prg_register: PrgBankRegisterId::P, value: 0x05 }),
    );
    assert_eq!(vrc4.write_register(0xF000, 5), Some(VrcAction::SetIrqReloadValueLowBits { value: 5 }));
    assert_eq!(vrc4.write_register(0xF001, 6), Some(VrcAction::SetIrqReloadValueHighBits { value: 6 }));
    assert_eq!(vrc4.write_register(0xF002, 7), Some(VrcAction::SetIrqMode { value: 7 }));
    assert_eq!(vrc4.write_register(0xF003, 0), Some(VrcAction::AcknowledgeIrq));
    assert_eq!(vrc4.write_register(0xE005, 0), None);
}
