use vstd::prelude::*;

use crate::memory::register_ids::{ChrBankRegisterId, PrgBankRegisterId};
use std::collections::BTreeMap;

pub mod vrc2;
pub mod vrc4;

verus! {

broadcast use vstd::std_specs::btree::group_btree_axioms, vstd::laws_cmp::group_laws_cmp;

/// What a register write asks of the rest of the console.
#[derive(PartialEq, Eq, Clone, Copy, Debug, Structural)]
pub enum VrcAction {
    /// Replace the bits of a CHR bank register that are set in the mask.
    SetChrBankRegisterBits { chr_register: ChrBankRegisterId, bank: u16, mask: u16 },
    /// Switch a PRG bank register to a bank number.
    SetPrgRegister { prg_register: PrgBankRegisterId, value: u8 },
    /// Select a name table mirroring by its index in the mapper's list.
    SetNameTableMirroring { index: u8 },
    /// Select a PRG layout, and enable or disable the PRG RAM window for both reads and writes.
    SetPrgLayoutAndRamEnabled { layout: u8, ram_enabled: bool },
    /// Set the low four bits of the IRQ counter's reload value.
    SetIrqReloadValueLowBits { value: u8 },
    /// Set the high four bits of the IRQ counter's reload value.
    SetIrqReloadValueHighBits { value: u8 },
    /// Set the IRQ mode.
    SetIrqMode { value: u8 },
    /// Acknowledge the IRQ.
    AcknowledgeIrq,
}

/// The register addresses for the low (or high) halves of the CHR bank registers, later entries
/// winning over earlier ones with the same address.
pub open spec fn spec_bank_register_ids(
    bank_registers: Seq<(u16, u16, ChrBankRegisterId)>,
    high: bool,
) -> Map<u16, ChrBankRegisterId>
    decreases bank_registers.len(),
{
    if bank_registers.len() == 0 {
        Map::empty()
    } else {
        let (low_address, high_address, id) = bank_registers.last();
        spec_bank_register_ids(bank_registers.drop_last(), high).insert(
            if high { high_address } else { low_address },
            id,
        )
    }
}

/// Indexes the CHR bank registers by the addresses of their low (or high) halves.
pub fn bank_register_ids(
    bank_registers: &[(u16, u16, ChrBankRegisterId)],
    high: bool,
) -> (r: BTreeMap<u16, ChrBankRegisterId>)
    ensures
        r@ == spec_bank_register_ids(bank_registers@, high),
{
    let mut r: BTreeMap<u16, ChrBankRegisterId> = BTreeMap::new();
    let mut i: usize = 0;
    while i < bank_registers.len()
        invariant
            i <= bank_registers@.len(),
            r@ == spec_bank_register_ids(bank_registers@.subrange(0, i as int), high),
        decreases bank_registers@.len() - i,
    {
        let (low_address, high_address, id) = bank_registers[i];
        r.insert(if high { high_address } else { low_address }, id);
        i = i + 1;
        proof {
            assert(bank_registers@.subrange(0, i as int).drop_last() =~= bank_registers@.subrange(0, i - 1));
        }
    }
    proof {
        assert(bank_registers@.subrange(0, bank_registers@.len() as int) =~= bank_registers@);
    }
    r
}

/// The CHR bank register whose half sits at the address, and whether it is the high half.
pub open spec fn spec_chr_register_at(
    low_ids: Map<u16, ChrBankRegisterId>,
    high_ids: Map<u16, ChrBankRegisterId>,
    addr: u16,
) -> Option<(ChrBankRegisterId, bool)> {
    if low_ids.contains_key(addr) {
        Some((low_ids[addr], false))
    } else if high_ids.contains_key(addr) {
        Some((high_ids[addr], true))
    } else {
        None
    }
}

pub fn chr_register_at(
    low_ids: &BTreeMap<u16, ChrBankRegisterId>,
    high_ids: &BTreeMap<u16, ChrBankRegisterId>,
    addr: u16,
) -> (r: Option<(ChrBankRegisterId, bool)>)
    ensures
        r == spec_chr_register_at(low_ids@, high_ids@, addr),
{
    match low_ids.get(&addr) {
        Some(id) => Some((*id, false)),
        None => match high_ids.get(&addr) {
            Some(id) => Some((*id, true)),
            None => None,
        },
    }
}

/// Ignoring bits 4 through 11 of an address keeps it in or out of the CHR bank register range
/// 0xB000 through 0xEFFF, and the low bits of a value are its remainder by a power of two.
pub proof fn lemma_register_address_bits(addr: u16, value: u8)
    by (bit_vector)
    ensures
        0xB000 <= addr <= 0xEFFF <==> 0xB000 <= addr & 0xF00F <= 0xEFFF,
        value & 0b0001_1111 == value % 32,
        value & 0b11 == value % 4,
        value & 1 == value % 2,
{
}

} // verus!
