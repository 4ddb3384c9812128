use vstd::prelude::*;

use crate::mapper::mappers::vrc::{bank_register_ids, lemma_register_address_bits, chr_register_at, spec_bank_register_ids, spec_chr_register_at, VrcAction};
use crate::memory::register_ids::{ChrBankRegisterId, PrgBankRegisterId};
use std::collections::BTreeMap;

verus! {

/// The action of a write to a register outside the CHR bank registers.
pub open spec fn spec_vrc4_register_action(addr: u16, value: u8) -> Option<VrcAction> {
    let a = addr & 0xF00F;
    if 0x8000 <= a <= 0x8003 {
        Some(VrcAction::SetPrgRegister { prg_register: PrgBankRegisterId::P, value: value & 0b0001_1111 })
    } else if a == 0x9000 {
        Some(VrcAction::SetNameTableMirroring { index: value & 0b11 })
    } else if a == 0x9002 {
        Some(VrcAction::SetPrgLayoutAndRamEnabled { layout: (value / 2) % 2, ram_enabled: value % 2 == 1 })
    } else if 0xA000 <= a <= 0xA003 {
        Some(VrcAction::SetPrgRegister { prg_register: PrgBankRegisterId::Q, value: value & 0b0001_1111 })
    } else if a == 0xF000 {
        Some(VrcAction::SetIrqReloadValueLowBits { value })
    } else if a == 0xF001 {
        Some(VrcAction::SetIrqReloadValueHighBits { value })
    } else if a == 0xF002 {
        Some(VrcAction::SetIrqMode { value })
    } else if a == 0xF003 {
        Some(VrcAction::AcknowledgeIrq)
    } else {
        None
    }
}

/// The Konami VRC4 mapper.
pub struct Vrc4 {
    low_address_bank_register_ids: BTreeMap<u16, ChrBankRegisterId>,
    high_address_bank_register_ids: BTreeMap<u16, ChrBankRegisterId>,
}

impl Vrc4 {
    pub closed spec fn spec_low_ids(&self) -> Map<u16, ChrBankRegisterId> {
        self.low_address_bank_register_ids@
    }

    pub closed spec fn spec_high_ids(&self) -> Map<u16, ChrBankRegisterId> {
        self.high_address_bank_register_ids@
    }

    /// The action of a write. The low half of a CHR bank register takes the low nibble of the
    /// bank number, the high half the next five bits.
    pub open spec fn spec_write_action(&self, addr: u16, value: u8) -> Option<VrcAction> {
        if 0xB000 <= addr <= 0xEFFF {
            match spec_chr_register_at(self.spec_low_ids(), self.spec_high_ids(), addr) {
                Some((id, is_high)) => Some(VrcAction::SetChrBankRegisterBits {
                    chr_register: id,
                    bank: if is_high { (16 * value) as u16 } else { value as u16 },
                    mask: if is_high { 0b1_1111_0000 } else { 0b0_0000_1111 },
                }),
                None => None,
            }
        } else {
            spec_vrc4_register_action(addr, value)
        }
    }

    /// `bank_registers` gives, for each CHR bank register, the addresses of its low and high halves.
    pub fn new(bank_registers: &[(u16, u16, ChrBankRegisterId)]) -> (r: Vrc4)
        ensures
            r.spec_low_ids() == spec_bank_register_ids(bank_registers@, false),
            r.spec_high_ids() == spec_bank_register_ids(bank_registers@, true),
    {
        // Convert the address-to-register mappings to maps for easy lookup.
        let low_address_bank_register_ids = bank_register_ids(bank_registers, false);
        let high_address_bank_register_ids = bank_register_ids(bank_registers, true);

        Vrc4 { low_address_bank_register_ids, high_address_bank_register_ids }
    }

    /// A CPU write to the mapper's registers. Returns what the write asks of the rest of the
    /// console, IRQ counter updates included.
    pub fn write_register(&self, addr: u16, value: u8) -> (r: Option<VrcAction>)
        ensures
            r == self.spec_write_action(addr, value),
    {
        // Set a CHR bank mapping regs are unmasked.
        if 0xB000 <= addr && addr <= 0xEFFF {
            return match chr_register_at(&self.low_address_bank_register_ids, &self.high_address_bank_register_ids, addr) {
                Some((register_id, is_high)) => {
                    let v = value as u16;
                    let bank: u16 = if is_high { v << 4 } else { v };
                    let mask: u16 = if is_high { 0b1_1111_0000 } else { 0b0_0000_1111 };
                    assert((v << 4) == 16 * v) by (bit_vector)
                        requires
                            v < 256,
                    ;
                    Some(VrcAction::SetChrBankRegisterBits { chr_register: register_id, bank, mask })
                },
                None => None,
            };
        }

        let masked = addr & 0xF00F;
        if 0x8000 <= masked && masked <= 0x8003 {
            // Set bank for 8000 through 9FFF (or C000 through DFFF).
            Some(VrcAction::SetPrgRegister { prg_register: PrgBankRegisterId::P, value: value & 0b0001_1111 })
        } else if masked == 0x9000 {
            Some(VrcAction::SetNameTableMirroring { index: value & 0b11 })
        } else if masked == 0x9002 {
            let layout = (value >> 1) & 1;
            let ram_enabled = value & 1 == 1;
            assert(layout == (value / 2) % 2 && ram_enabled == (value % 2 == 1)) by (bit_vector)
                requires
                    layout == (value >> 1) & 1,
                    ram_enabled == (value & 1 == 1),
            ;
            Some(VrcAction::SetPrgLayoutAndRamEnabled { layout, ram_enabled })
        } else if 0xA000 <= masked && masked <= 0xA003 {
            // Set bank for A000 through AFFF.
            Some(VrcAction::SetPrgRegister { prg_register: PrgBankRegisterId::Q, value: value & 0b0001_1111 })
        } else if masked == 0xF000 {
            Some(VrcAction::SetIrqReloadValueLowBits { value })
        } else if masked == 0xF001 {
            Some(VrcAction::SetIrqReloadValueHighBits { value })
        } else if masked == 0xF002 {
            Some(VrcAction::SetIrqMode { value })
        } else if masked == 0xF003 {
            Some(VrcAction::AcknowledgeIrq)
        } else {
            // No regs here.
            None
        }
    }
}

/// PRG bank switching: a write whose address, with bits 4 through 11 ignored, is 0x8000 through
/// 0x8003 switches the 0x8000 window (register P), one at 0xA000 through 0xA003 switches the
/// 0xA000 window (register Q), each to the value's low five bits; no other write switches a PRG
/// bank.
pub proof fn lemma_vrc4_prg_bank_writes(mapper: Vrc4, addr: u16, value: u8)
    ensures
        (mapper.spec_write_action(addr, value) matches Some(VrcAction::SetPrgRegister { .. }))
            <==> (0x8000 <= addr & 0xF00F <= 0x8003 || 0xA000 <= addr & 0xF00F <= 0xA003),
        0x8000 <= addr & 0xF00F <= 0x8003 ==> mapper.spec_write_action(addr, value)
            == Some(VrcAction::SetPrgRegister { prg_register: PrgBankRegisterId::P, value: value % 32 }),
        0xA000 <= addr & 0xF00F <= 0xA003 ==> mapper.spec_write_action(addr, value)
            == Some(VrcAction::SetPrgRegister { prg_register: PrgBankRegisterId::Q, value: value % 32 }),
{
    lemma_register_address_bits(addr, value);
}

/// The control registers (addresses with bits 4 through 11 ignored): 0x9000 selects the name
/// table mirroring by the value's low two bits; 0x9002 selects the PRG layout by bit 1 and
/// enables PRG RAM by bit 0; 0xF000 and 0xF001 set the low and high bits of the IRQ reload value,
/// 0xF002 the IRQ mode, and 0xF003 acknowledges the IRQ.
pub proof fn lemma_vrc4_control_writes(mapper: Vrc4, addr: u16, value: u8)
    ensures
        addr & 0xF00F == 0x9000 ==> mapper.spec_write_action(addr, value)
            == Some(VrcAction::SetNameTableMirroring { index: value % 4 }),
        addr & 0xF00F == 0x9002 ==> mapper.spec_write_action(addr, value)
            == Some(VrcAction::SetPrgLayoutAndRamEnabled { layout: (value / 2) % 2, ram_enabled: value % 2 == 1 }),
        addr & 0xF00F == 0xF000 ==> mapper.spec_write_action(addr, value)
            == Some(VrcAction::SetIrqReloadValueLowBits { value }),
        addr & 0xF00F == 0xF001 ==> mapper.spec_write_action(addr, value)
            == Some(VrcAction::SetIrqReloadValueHighBits { value }),
        addr & 0xF00F == 0xF002 ==> mapper.spec_write_action(addr, value)
            == Some(VrcAction::SetIrqMode { value }),
        addr & 0xF00F == 0xF003 ==> mapper.spec_write_action(addr, value) == Some(VrcAction::AcknowledgeIrq),
{
    lemma_register_address_bits(addr, value);
}

} // verus!
