use reznez::memory::ppu::chr_memory::{plan_chr_memory, ChrMemoryError, ChrPlan, MemoryPresence};

use MemoryPresence::{Absent, Optional, Required};

#[test]
fn plans_from_the_smallest_window_and_strongest_presence() {
    let windows = vec![(0x1000, Required, Absent), (0x0400, Optional, Absent), (0x0800, Absent, Absent)];
    let plan = plan_chr_memory(&windows, 0x8000, 0, 2).unwrap();
    assert_eq!(
        plan,
        ChrPlan {
            bank_size: 0x0400,
            rom_presence: Required,
            ram_presence: Absent,
            rom_len: 0x8000,
            ram_len: 0,
            rom_outer_bank_size: 0x4000,
        },
    );
}

#[test]
fn required_memory_must_be_there() {
    let rom_required = vec![(0x2000, Required, Required)];
    assert_eq!(plan_chr_memory(&rom_required, 0, 0, 1), Err(ChrMemoryError::RomRequired));
    assert_eq!(plan_chr_memory(&rom_required, 0x2000, 0, 1), Err(ChrMemoryError::RamRequired));
    assert!(plan_chr_memory(&rom_required, 0x2000, 0x2000, 1).is_ok());
}

#[test]
fn memory_that_no_window_admits_is_dropped_only_when_both_are_there() {
    let rom_only = vec![(0x2000, Optional, Absent)];
    let plan = plan_chr_memory(&rom_only, 0x2000, 0x2000, 1).unwrap();
    assert_eq!((plan.rom_len, plan.ram_len), (0x2000, 0));
    let ram_only = vec![(0x2000, Absent, Optional)];
    let plan = plan_chr_memory(&ram_only, 0x2000, 0x2000, 1).unwrap();
    assert_eq!((plan.rom_len, plan.ram_len, plan.rom_outer_bank_size), (0, 0x2000, 0));
    // With only ROM in the file, it's kept even though no window admits it.
    let plan = plan_chr_memory(&ram_only, 0x2000, 0, 1).unwrap();
    assert_eq!((plan.rom_len, plan.ram_len), (0x2000, 0));
}
