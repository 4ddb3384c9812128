use vstd::prelude::*;

use crate::mapper::mappers::vrc::{bank_register_ids, lemma_register_address_bits, chr_register_at, spec_bank_register_ids, spec_chr_register_at, VrcAction};
use crate::memory::read_result::ReadResult;
use crate::memory::register_ids::{ChrBankRegisterId, PrgBankRegisterId};
use std::collections::BTreeMap;

verus! {

/// Whether a VRC2 board drops the low bit of the CHR bank numbers that are written to it.
#[derive(PartialEq, Eq, Clone, Copy, Debug, Structural)]
pub enum BankLowBitBehavior {
    Ignore,
    Keep,
}

/// The CHR bank bits that a write of `value` to a register half sets: the low half takes the
/// low nibble of the bank number, the high half the next nibble; a board that ignores the low
/// bit shifts both right by one.
pub open spec fn spec_vrc2_chr_bits(is_high: bool, value: u8, behavior: BankLowBitBehavior) -> (u16, u16) {
    let (bank, mask) = if is_high { (16 * value as int, 0xF0int) } else { (value as int, 0x0Fint) };
    if behavior == BankLowBitBehavior::Ignore {
        ((bank / 2) as u16, (mask / 2) as u16)
    } else {
        (bank as u16, mask as u16)
    }
}

/// The action of a write to a register outside the CHR bank registers (0x6000 through 0x7FFF
/// only sets the microwire latch).
pub open spec fn spec_vrc2_register_action(addr: u16, value: u8) -> Option<VrcAction> {
    let a = addr & 0xF00F;
    if 0x8000 <= a <= 0x8003 {
        Some(VrcAction::SetPrgRegister { prg_register: PrgBankRegisterId::P, value: value & 0b0001_1111 })
    } else if 0x9000 <= a <= 0x9003 {
        Some(VrcAction::SetNameTableMirroring { index: value & 1 })
    } else if 0xA000 <= a <= 0xA003 {
        Some(VrcAction::SetPrgRegister { prg_register: PrgBankRegisterId::Q, value: value & 0b0001_1111 })
    } else {
        None
    }
}

/// The Konami VRC2 mapper.
pub struct Vrc2 {
    low_address_bank_register_ids: BTreeMap<u16, ChrBankRegisterId>,
    high_address_bank_register_ids: BTreeMap<u16, ChrBankRegisterId>,
    chr_bank_low_bit_behavior: BankLowBitBehavior,

    microwire_latch: bool,
}

impl Vrc2 {
    pub closed spec fn spec_low_ids(&self) -> Map<u16, ChrBankRegisterId> {
        self.low_address_bank_register_ids@
    }

    pub closed spec fn spec_high_ids(&self) -> Map<u16, ChrBankRegisterId> {
        self.high_address_bank_register_ids@
    }

    pub closed spec fn spec_chr_bank_low_bit_behavior(&self) -> BankLowBitBehavior {
        self.chr_bank_low_bit_behavior
    }

    pub closed spec fn spec_microwire_latch(&self) -> bool {
        self.microwire_latch
    }

    /// The action of a write, by the register state before it.
    pub open spec fn spec_write_action(&self, addr: u16, value: u8) -> Option<VrcAction> {
        if 0xB000 <= addr <= 0xEFFF {
            match spec_chr_register_at(self.spec_low_ids(), self.spec_high_ids(), addr) {
                Some((id, is_high)) => {
                    let (bank, mask) = spec_vrc2_chr_bits(is_high, value, self.spec_chr_bank_low_bit_behavior());
                    Some(VrcAction::SetChrBankRegisterBits { chr_register: id, bank, mask })
                },
                None => None,
            }
        } else {
            spec_vrc2_register_action(addr, value)
        }
    }

    /// `bank_registers` gives, for each CHR bank register, the addresses of its low and high halves.
    pub fn new(
        bank_registers: &[(u16, u16, ChrBankRegisterId)],
        chr_bank_low_bit_behavior: BankLowBitBehavior,
    ) -> (r: Vrc2)
        ensures
            r.spec_low_ids() == spec_bank_register_ids(bank_registers@, false),
            r.spec_high_ids() == spec_bank_register_ids(bank_registers@, true),
            r.spec_chr_bank_low_bit_behavior() == chr_bank_low_bit_behavior,
            !r.spec_microwire_latch(),
    {
        // Convert the address-to-register mappings to maps for easy lookup.
        let low_address_bank_register_ids = bank_register_ids(bank_registers, false);
        let high_address_bank_register_ids = bank_register_ids(bank_registers, true);

        Vrc2 {
            low_address_bank_register_ids,
            high_address_bank_register_ids,
            chr_bank_low_bit_behavior,
            microwire_latch: false,
        }
    }

    /// Reads from 0x6000 through 0x6FFF give the microwire latch in bit 0; the rest is open bus.
    pub fn peek_register(&self, addr: u16) -> (r: ReadResult)
        ensures
            0x6000 <= addr <= 0x6FFF ==> r.spec_value() == (if self.spec_microwire_latch() { 1u8 } else { 0u8 })
                && r.spec_mask() == 1,
            !(0x6000 <= addr <= 0x6FFF) ==> r.spec_value() == 0 && r.spec_mask() == 0,
    {
        if 0x6000 <= addr && addr <= 0x6FFF {
            let latch: u8 = if self.microwire_latch { 1 } else { 0 };
            assert(latch & 1 == latch) by (bit_vector)
                requires
                    latch == 0 || latch == 1,
            ;
            ReadResult::partial(latch, 0b0000_0001)
        } else {
            ReadResult::open_bus()
        }
    }

    /// A CPU write to the mapper's registers. Returns what the write asks of the rest of the
    /// console; a write to 0x6000 through 0x7FFF (mirrored every 16 bytes) sets the microwire latch
    /// to bit 0 of the value instead.
    pub fn write_register(&mut self, addr: u16, value: u8) -> (r: Option<VrcAction>)
        ensures
            r == old(self).spec_write_action(addr, value),
            final(self).spec_low_ids() == old(self).spec_low_ids(),
            final(self).spec_high_ids() == old(self).spec_high_ids(),
            final(self).spec_chr_bank_low_bit_behavior() == old(self).spec_chr_bank_low_bit_behavior(),
            final(self).spec_microwire_latch() == spec_latch_after_write(old(self).spec_microwire_latch(), addr, value),
    {
        let masked = addr & 0xF00F;
        assert(0xB000 <= addr <= 0xEFFF ==> 0xB000 <= addr & 0xF00F <= 0xEFFF) by (bit_vector);
        // CHR banking regs are unmasked.
        if 0xB000 <= addr && addr <= 0xEFFF {
            return match chr_register_at(&self.low_address_bank_register_ids, &self.high_address_bank_register_ids, addr) {
                Some((register_id, is_high)) => {
                    let v = value as u16;
                    assert((v << 4) == 16 * v) by (bit_vector)
                        requires
                            v < 256,
                    ;
                    let bank: u16 = if is_high { v << 4 } else { v };
                    let mask: u16 = if is_high { 0b1111_0000 } else { 0b0000_1111 };
                    assert(bank >> 1 == bank / 2 && mask >> 1 == mask / 2) by (bit_vector);
                    let (bank, mask) = if self.chr_bank_low_bit_behavior == BankLowBitBehavior::Ignore {
                        (bank >> 1, mask >> 1)
                    } else {
                        (bank, mask)
                    };
                    Some(VrcAction::SetChrBankRegisterBits { chr_register: register_id, bank, mask })
                },
                None => None,
            };
        }

        if 0x6000 <= masked && masked <= 0x7FFF {
            // Only the latch bit of the microwire interface is kept.
            self.microwire_latch = value & 1 == 1;
            None
        } else if 0x8000 <= masked && masked <= 0x8003 {
            // Set bank for 8000 through 9FFF.
            Some(VrcAction::SetPrgRegister { prg_register: PrgBankRegisterId::P, value: value & 0b0001_1111 })
        } else if 0x9000 <= masked && masked <= 0x9003 {
            Some(VrcAction::SetNameTableMirroring { index: value & 1 })
        } else if 0xA000 <= masked && masked <= 0xA003 {
            // Set bank for A000 through AFFF.
            Some(VrcAction::SetPrgRegister { prg_register: PrgBankRegisterId::Q, value: value & 0b0001_1111 })
        } else {
            // No regs here.
            None
        }
    }
}

/// The microwire latch after a CPU write: bit 0 of the value for 0x6000 through 0x7FFF (mirrored
/// every 16 bytes), unchanged elsewhere.
pub open spec fn spec_latch_after_write(latch: bool, addr: u16, value: u8) -> bool {
    if 0x6000 <= addr & 0xF00F <= 0x7FFF {
        value & 1 == 1
    } else {
        latch
    }
}

/// Every address that reads the microwire latch also writes it: a write there, then a read,
/// gives bit 0 of the written value back.
pub proof fn lemma_microwire_latch_reads_back(latch: bool, addr: u16, value: u8)
    requires
        0x6000 <= addr <= 0x6FFF,
    ensures
        spec_latch_after_write(latch, addr, value) == (value & 1 == 1),
{
    assert(0x6000 <= addr <= 0x6FFF ==> 0x6000 <= addr & 0xF00F <= 0x7FFF) by (bit_vector);
}

/// PRG bank switching: a write whose address, with bits 4 through 11 ignored, is 0x8000 through
/// 0x8003 switches the 0x8000 window (register P), one at 0xA000 through 0xA003 switches the
/// 0xA000 window (register Q), each to the value's low five bits; no other write switches a PRG
/// bank.
pub proof fn lemma_vrc2_prg_bank_writes(mapper: Vrc2, addr: u16, value: u8)
    ensures
        (mapper.spec_write_action(addr, value) matches Some(VrcAction::SetPrgRegister { .. }))
            <==> (0x8000 <= addr & 0xF00F <= 0x8003 || 0xA000 <= addr & 0xF00F <= 0xA003),
        0x8000 <= addr & 0xF00F <= 0x8003 ==> mapper.spec_write_action(addr, value)
            == Some(VrcAction::SetPrgRegister { prg_register: PrgBankRegisterId::P, value: value % 32 }),
        0xA000 <= addr & 0xF00F <= 0xA003 ==> mapper.spec_write_action(addr, value)
            == Some(VrcAction::SetPrgRegister { prg_register: PrgBankRegisterId::Q, value: value % 32 }),
{
    lemma_register_address_bits(addr, value);
}

/// A write at 0x9000 through 0x9003 (bits 4 through 11 ignored) selects the name table
/// mirroring by the value's low bit.
pub proof fn lemma_vrc2_mirroring_writes(mapper: Vrc2, addr: u16, value: u8)
    ensures
        0x9000 <= addr & 0xF00F <= 0x9003 ==> mapper.spec_write_action(addr, value)
            == Some(VrcAction::SetNameTableMirroring { index: value % 2 }),
{
    lemma_register_address_bits(addr, value);
}

} // verus!
