use vstd::prelude::*;

verus! {

/// How the 2 KiB of nametable RAM is laid out over the four nametable slots.
#[derive(Clone, Copy, Debug, PartialEq, Eq, Structural)]
pub enum MirrorMode {
    HorizontalMirroring,
    VerticalMirroring,
    FourScreen,
    SingleScreenLower,
    SingleScreenUpper,
}

/// Which KiB of the nametable RAM a nametable slot (0 to 3, for `$2000`, `$2400`,
/// `$2800`, `$2C00`) uses under a mirror mode. Horizontal mirroring pairs `$2000`
/// with `$2800`; vertical mirroring pairs `$2000` with `$2400`. Four-screen boards
/// bring their own extra RAM; without it the layout is the horizontal one.
pub open spec fn nametable_bank(slot: int, mode: MirrorMode) -> int {
    match mode {
        MirrorMode::VerticalMirroring => slot / 2,
        MirrorMode::SingleScreenLower => 0,
        MirrorMode::SingleScreenUpper => 1,
        _ => slot % 2,
    }
}

/// The cell of the 2 KiB nametable RAM that a PPU address in `$2000-$3EFF` selects;
/// `$3000-$3EFF` repeats `$2000-$2EFF`.
pub open spec fn nametable_index(addr: u16, mode: MirrorMode) -> int {
    let a = addr as int % 4096;
    nametable_bank(a / 1024, mode) * 1024 + a % 1024
}

/// Nametable RAM cell of a PPU address in `$2000-$3EFF`.
pub fn nametable_offset(addr: u16, mode: MirrorMode) -> (r: usize)
    ensures
        r == nametable_index(addr, mode),
        r < 2048,
{
    let a = addr % 4096;
    let slot = a / 1024;
    let bank: u16 = match mode {
        MirrorMode::VerticalMirroring => slot / 2,
        MirrorMode::SingleScreenLower => 0,
        MirrorMode::SingleScreenUpper => 1,
        _ => slot % 2,
    };
    (bank * 1024 + a % 1024) as usize
}

/// The memory mapper of a cartridge: what the CPU and the PPU see of it.
///
/// Each operation is specified over the cartridge's view; a read leaves the
/// cartridge as it is.
pub trait Cartridge: Sized + View {
    /// The cartridge is well formed.
    spec fn inv(&self) -> bool;

    /// The value a CPU read at `addr` returns.
    spec fn cpu_read_spec(v: Self::V, addr: u16) -> u8;

    /// The cartridge after a CPU write of `value` at `addr`.
    spec fn cpu_write_spec(v: Self::V, addr: u16, value: u8) -> Self::V;

    /// The value a PPU read at `addr` returns.
    spec fn ppu_read_spec(v: Self::V, addr: u16) -> u8;

    /// The cartridge after a PPU write of `value` at `addr`.
    spec fn ppu_write_spec(v: Self::V, addr: u16, value: u8) -> Self::V;

    /// The nametable layout the cartridge reports.
    spec fn mirror_spec(v: Self::V) -> MirrorMode;

    fn read_cpu(&self, addr: u16) -> (r: u8)
        requires
            self.inv(),
        ensures
            r == Self::cpu_read_spec(self@, addr),
    ;

    fn write_cpu(&mut self, addr: u16, value: u8)
        requires
            old(self).inv(),
        ensures
            final(self).inv(),
            final(self)@ == Self::cpu_write_spec(old(self)@, addr, value),
    ;

    fn read_ppu(&self, addr: u16) -> (r: u8)
        requires
            self.inv(),
        ensures
            r == Self::ppu_read_spec(self@, addr),
    ;

    fn write_ppu(&mut self, addr: u16, value: u8)
        requires
            old(self).inv(),
        ensures
            final(self).inv(),
            final(self)@ == Self::ppu_write_spec(old(self)@, addr, value),
    ;

    fn mirror_mode(&self) -> (r: MirrorMode)
        requires
            self.inv(),
        ensures
            r == Self::mirror_spec(self@),
    ;
}

} // verus!
