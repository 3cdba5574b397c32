//! Static memory map of the surrounding machine.
//!
//! A stateless classifier maps a 32-bit address to a named region by
//! half-open range membership. The specific device and memory ranges
//! are checked before the generic MMIO fallback, so they win where they
//! overlap it.

use vstd::prelude::*;

verus! {

/// 128 MiB boot ROM
pub const ROM_BASE: u32 = 0x0000_0000;

pub const ROM_SIZE: u32 = 128 * 1024 * 1024;

/// 512 MiB system RAM
pub const RAM_BASE: u32 = 0x1000_0000;

pub const RAM_SIZE: u32 = 512 * 1024 * 1024;

/// 128 MiB VRAM / framebuffer
pub const VRAM_BASE: u32 = 0x3000_0000;

pub const VRAM_SIZE: u32 = 128 * 1024 * 1024;

/// UART register block on the MMIO bus
pub const UART0_BASE: u32 = 0x4000_2000;

/// 64 KiB storage-controller register block
pub const STORAGE_CTL_BASE: u32 = 0x4001_0000;

pub const STORAGE_CTL_SIZE: u32 = 0x0001_0000;

/// 256 MiB block-storage aperture
pub const BLKWIN_BASE: u32 = 0x5000_0000;

pub const BLKWIN_SIZE: u32 = 256 * 1024 * 1024;

/// The region name an address classifies to; specific ranges are
/// checked before the generic MMIO fallback.
pub open spec fn region_of(addr: u32) -> Seq<char> {
    if ROM_BASE <= addr && addr < ROM_BASE + ROM_SIZE {
        "ROM"@
    } else if RAM_BASE <= addr && addr < RAM_BASE + RAM_SIZE {
        "RAM"@
    } else if VRAM_BASE <= addr && addr < VRAM_BASE + VRAM_SIZE {
        "VRAM"@
    } else if UART0_BASE <= addr && addr < UART0_BASE + 0x1000 {
        "UART0"@
    } else if STORAGE_CTL_BASE <= addr && addr < STORAGE_CTL_BASE + STORAGE_CTL_SIZE {
        "STORAGE_CTL"@
    } else if BLKWIN_BASE <= addr && addr < BLKWIN_BASE + BLKWIN_SIZE {
        "BLOCK_STORAGE_WIN"@
    } else if 0x4000_0000 <= addr && addr < 0x8000_0000 {
        "L-BUS_MMIO"@
    } else {
        "UNKNOWN"@
    }
}

/// Classifies a 32-bit address into its named memory region by
/// half-open range membership.
pub fn decode_address(addr: u32) -> (r: &'static str)
    ensures
        r@ == region_of(addr),
{
    if addr < ROM_BASE + ROM_SIZE {
        "ROM"
    } else if RAM_BASE <= addr && addr < RAM_BASE + RAM_SIZE {
        "RAM"
    } else if VRAM_BASE <= addr && addr < VRAM_BASE + VRAM_SIZE {
        "VRAM"
    } else if UART0_BASE <= addr && addr < UART0_BASE + 0x1000 {
        "UART0"
    } else if STORAGE_CTL_BASE <= addr && addr < STORAGE_CTL_BASE + STORAGE_CTL_SIZE {
        "STORAGE_CTL"
    } else if BLKWIN_BASE <= addr && addr < BLKWIN_BASE + BLKWIN_SIZE {
        "BLOCK_STORAGE_WIN"
    } else if 0x4000_0000 <= addr && addr < 0x8000_0000 {
        "L-BUS_MMIO"
    } else {
        "UNKNOWN"
    }
}

} // verus!
