//! The address space: a flat 65536-byte range with region-dependent
//! read/write policy (boot overlay, write-protected cartridge ROM, RAM
//! echo aliasing, I/O register side effects, OAM DMA), a second memory
//! image kept in step for snapshot handoff, and a write observer that
//! tracks dirty video regions for the rendering collaborator.

use vstd::prelude::*;

verus! {

/// A named memory section, used by collaborators when asking for slices.
#[derive(Copy, Clone)]
pub enum MemSection {
    Vram,
    RomBank0,
}

pub const REGION_TILEDATA_UNSIGNED_BEG: u16 = 0x8000;

pub const REGION_TILEDATA_UNSIGNED_END: u16 = 0x8FFF;

pub const REGION_TILEDATA_SIGNED_BEG: u16 = 0x8800;

pub const REGION_TILEDATA_SIGNED_END: u16 = 0x97FF;

pub const REGION_TILEMAP0_BEG: u16 = 0x9800;

pub const REGION_TILEMAP0_END: u16 = 0x9BFF;

pub const REGION_TILEMAP1_BEG: u16 = 0x9C00;

pub const REGION_TILEMAP1_END: u16 = 0x9FFF;

/// One of the four video memory regions whose writes are tracked.
pub enum Region {
    TileDataUnsigned,
    TileDataSigned,
    TileMap0,
    TileMap1,
}

/// Four dirty flags, one per tracked video region.
pub struct WriteObserver {
    td_signed_dirty: bool,
    td_unsigned_dirty: bool,
    tmap0_dirty: bool,
    tmap1_dirty: bool,
}

/// The mathematical model of the write observer.
#[verifier::ext_equal]
pub struct ObsView {
    pub td_signed: bool,
    pub td_unsigned: bool,
    pub tmap0: bool,
    pub tmap1: bool,
}

impl View for WriteObserver {
    type V = ObsView;

    closed spec fn view(&self) -> ObsView {
        ObsView {
            td_signed: self.td_signed_dirty,
            td_unsigned: self.td_unsigned_dirty,
            tmap0: self.tmap0_dirty,
            tmap1: self.tmap1_dirty,
        }
    }
}

/// The observer after recording a write at `addr`: a write whose address
/// falls in a tracked region sets exactly that region's flag, the first
/// matching region winning where the tile-data ranges overlap.
pub open spec fn obs_record(o: ObsView, addr: u16) -> ObsView {
    if REGION_TILEDATA_UNSIGNED_BEG <= addr && addr <= REGION_TILEDATA_UNSIGNED_END {
        ObsView { td_unsigned: true, ..o }
    } else if REGION_TILEDATA_SIGNED_BEG <= addr && addr <= REGION_TILEDATA_SIGNED_END {
        ObsView { td_signed: true, ..o }
    } else if REGION_TILEMAP0_BEG <= addr && addr <= REGION_TILEMAP0_END {
        ObsView { tmap0: true, ..o }
    } else if REGION_TILEMAP1_BEG <= addr && addr <= REGION_TILEMAP1_END {
        ObsView { tmap1: true, ..o }
    } else {
        o
    }
}

/// The dirty flag a region query reads.
pub open spec fn region_dirty(o: ObsView, r: Region) -> bool {
    match r {
        Region::TileDataUnsigned => o.td_unsigned,
        Region::TileDataSigned => o.td_signed,
        Region::TileMap0 => o.tmap0,
        Region::TileMap1 => o.tmap1,
    }
}

/// The observer with one region's flag cleared.
pub open spec fn region_clean(o: ObsView, r: Region) -> ObsView {
    match r {
        Region::TileDataUnsigned => ObsView { td_unsigned: false, ..o },
        Region::TileDataSigned => ObsView { td_signed: false, ..o },
        Region::TileMap0 => ObsView { tmap0: false, ..o },
        Region::TileMap1 => ObsView { tmap1: false, ..o },
    }
}

/// The field-wise disjunction of two observers.
pub open spec fn obs_join(a: ObsView, b: ObsView) -> ObsView {
    ObsView {
        td_signed: a.td_signed || b.td_signed,
        td_unsigned: a.td_unsigned || b.td_unsigned,
        tmap0: a.tmap0 || b.tmap0,
        tmap1: a.tmap1 || b.tmap1,
    }
}

/// The observer with every flag cleared.
pub open spec fn obs_clean() -> ObsView {
    ObsView { td_signed: false, td_unsigned: false, tmap0: false, tmap1: false }
}

impl WriteObserver {
    /// A fresh observer reports every region dirty, so that a renderer
    /// seeing it for the first time rebuilds everything.
    pub fn new() -> (r: WriteObserver)
        ensures
            r@ == (ObsView { td_signed: true, td_unsigned: true, tmap0: true, tmap1: true }),
    {
        WriteObserver {
            td_signed_dirty: true,
            td_unsigned_dirty: true,
            tmap0_dirty: true,
            tmap1_dirty: true,
        }
    }

    /// Records a write: an address inside a tracked region marks that
    /// region dirty, any other address changes nothing.
    pub fn record_write(&mut self, addr: u16)
        ensures
            final(self)@ == obs_record(old(self)@, addr),
    {
        if REGION_TILEDATA_UNSIGNED_BEG <= addr && addr <= REGION_TILEDATA_UNSIGNED_END {
            self.td_unsigned_dirty = true;
        } else if REGION_TILEDATA_SIGNED_BEG <= addr && addr <= REGION_TILEDATA_SIGNED_END {
            self.td_signed_dirty = true;
        } else if REGION_TILEMAP0_BEG <= addr && addr <= REGION_TILEMAP0_END {
            self.tmap0_dirty = true;
        } else if REGION_TILEMAP1_BEG <= addr && addr <= REGION_TILEMAP1_END {
            self.tmap1_dirty = true;
        }
    }

    /// Reads one region's dirty flag.
    pub fn check_dirty(&self, region: Region) -> (r: bool)
        ensures
            r == region_dirty(self@, region),
    {
        match region {
            Region::TileDataUnsigned => self.td_unsigned_dirty,
            Region::TileDataSigned => self.td_signed_dirty,
            Region::TileMap0 => self.tmap0_dirty,
            Region::TileMap1 => self.tmap1_dirty,
        }
    }

    /// Clears one region's dirty flag, after a consumer has used it.
    pub fn clean_region(&mut self, region: Region)
        ensures
            final(self)@ == region_clean(old(self)@, region),
    {
        match region {
            Region::TileDataUnsigned => self.td_unsigned_dirty = false,
            Region::TileDataSigned => self.td_signed_dirty = false,
            Region::TileMap0 => self.tmap0_dirty = false,
            Region::TileMap1 => self.tmap1_dirty = false,
        }
    }

    /// Applies this observer's dirtiness to another observer, then
    /// cleans itself.
    pub fn apply(&mut self, other: &mut WriteObserver)
        ensures
            final(other)@ == obs_join(old(self)@, old(other)@),
            final(self)@ == obs_clean(),
    {
        other.td_unsigned_dirty = other.td_unsigned_dirty || self.td_unsigned_dirty;
        other.td_signed_dirty = other.td_signed_dirty || self.td_signed_dirty;
        other.tmap0_dirty = other.tmap0_dirty || self.tmap0_dirty;
        other.tmap1_dirty = other.tmap1_dirty || self.tmap1_dirty;
        self.clean_all();
    }

    /// Clears every dirty flag.
    pub fn clean_all(&mut self)
        ensures
            final(self)@ == obs_clean(),
    {
        self.td_unsigned_dirty = false;
        self.td_signed_dirty = false;
        self.tmap0_dirty = false;
        self.tmap1_dirty = false;
    }
}

/// A full 65536-byte memory image.
pub struct RwMemory {
    data: Vec<u8>,
}

impl View for RwMemory {
    type V = Seq<u8>;

    closed spec fn view(&self) -> Seq<u8> {
        self.data@
    }
}

impl RwMemory {
    /// A zero-filled memory image.
    pub fn new() -> (r: RwMemory)
        ensures
            r@.len() == 0x10000,
            forall|i: int| 0 <= i < 0x10000 ==> r@[i] == 0u8,
    {
        RwMemory { data: vec![0u8; 0x10000] }
    }

    /// Overwrites another image with this image's contents.
    pub fn copy_to(&self, other: &mut RwMemory)
        ensures
            final(other)@ == self@,
    {
        other.data = vstd::slice::slice_to_vec(self.data.as_slice());
    }

    /// Reads the byte at an address.
    pub fn get(&self, idx: u16) -> (r: u8)
        requires
            self@.len() == 0x10000,
        ensures
            r == self@[idx as int],
    {
        self.data[idx as usize]
    }

    /// Replaces the byte at an address.
    pub fn set(&mut self, idx: u16, data: u8)
        requires
            old(self)@.len() == 0x10000,
        ensures
            final(self)@ == old(self)@.update(idx as int, data),
    {
        self.data[idx as usize] = data;
    }
}

/// The address space with its boot overlay, its two memory images and
/// its write observer.
pub struct AddressSpace {
    bios: Vec<u8>,
    main_ram: RwMemory,
    backup_ram: Box<RwMemory>,
    bios_readable: bool,
    observer: WriteObserver,
}

/// The mathematical model of the address space.
#[verifier::ext_equal]
pub struct BusView {
    pub bios: Seq<u8>,
    pub mem: Seq<u8>,
    pub backup: Seq<u8>,
    pub bios_on: bool,
    pub obs: ObsView,
}

impl View for AddressSpace {
    type V = BusView;

    closed spec fn view(&self) -> BusView {
        BusView {
            bios: self.bios@,
            mem: self.main_ram@,
            backup: self.backup_ram@,
            bios_on: self.bios_readable,
            obs: self.observer@,
        }
    }
}

/// Well-formedness: the boot overlay holds 256 bytes, each memory image
/// 65536.
pub open spec fn bus_wf(v: BusView) -> bool {
    &&& v.bios.len() == 0x100
    &&& v.mem.len() == 0x10000
    &&& v.backup.len() == 0x10000
}

pub const IOREG_P1: u16 = 0xFF00;

pub const IOREG_SB: u16 = 0xFF01;

pub const IOREG_DIV: u16 = 0xFF04;

pub const IOREG_TIMA: u16 = 0xFF05;

pub const IOREG_TMA: u16 = 0xFF06;

pub const IOREG_TAC: u16 = 0xFF07;

pub const IOREG_IF: u16 = 0xFF0F;

pub const IOREG_LCDC: u16 = 0xFF40;

pub const IOREG_STAT: u16 = 0xFF41;

pub const IOREG_SCY: u16 = 0xFF42;

pub const IOREG_SCX: u16 = 0xFF43;

pub const IOREG_LY: u16 = 0xFF44;

pub const IOREG_LYC: u16 = 0xFF45;

pub const IOREG_DMA: u16 = 0xFF46;

pub const IOREG_BGP: u16 = 0xFF47;

pub const IOREG_OBP0: u16 = 0xFF48;

pub const IOREG_OBP1: u16 = 0xFF49;

pub const IOREG_WY: u16 = 0xFF4A;

pub const IOREG_WX: u16 = 0xFF4B;

pub const IOREG_BIOSRW: u16 = 0xFF50;

pub const IOREG_IE: u16 = 0xFFFF;

/// The backing cell an address resolves to: the echo region aliases the
/// primary RAM region 0x2000 below it, every other address is its own
/// cell.
pub open spec fn echo_target(addr: u16) -> u16 {
    if 0xE000 <= addr && addr <= 0xFDFF {
        (addr - 0x2000) as u16
    } else {
        addr
    }
}

/// The byte a read returns: the boot overlay byte while the boot latch
/// is set and the address lies under the overlay, else the backing byte
/// of the cell the address resolves to — so the echo region reads, like
/// it writes, through its primary alias.
pub open spec fn bus_read(v: BusView, addr: u16) -> u8 {
    if addr < 0x100 && v.bios_on {
        v.bios[addr as int]
    } else {
        v.mem[echo_target(addr) as int]
    }
}

/// The 16-bit value read at an address: little-endian composition of
/// the bytes at `addr` and `addr + 1`, the second address wrapping at
/// the top of the address space.
pub open spec fn bus_read16(v: BusView, addr: u16) -> u16 {
    (bus_read(v, addr) + bus_read(v, ((addr + 1) % 0x10000) as u16) * 256) as u16
}

/// The state after a system-level write: the byte lands in both memory
/// images and the observer records the address. Bypasses every policy
/// rule.
pub open spec fn bus_sys_write(v: BusView, addr: u16, data: u8) -> BusView {
    BusView {
        mem: v.mem.update(addr as int, data),
        backup: v.backup.update(addr as int, data),
        obs: obs_record(v.obs, addr),
        ..v
    }
}

/// The state after an OAM DMA transfer triggered with source page `p`:
/// the 256 bytes starting at `p * 256` are copied to the OAM base,
/// read with the echo alias applied (but without the boot overlay) and
/// written through the same dual-image write path as ordinary writes.
/// The destination lies in no tracked video region, so the observer is
/// unchanged.
pub open spec fn bus_dma(v: BusView, p: u8) -> BusView {
    BusView {
        mem: Seq::new(
            v.mem.len(),
            |i: int|
                if 0xFE00 <= i < 0xFF00 {
                    v.mem[echo_target((p * 256 + (i - 0xFE00)) as u16) as int]
                } else {
                    v.mem[i]
                },
        ),
        backup: Seq::new(
            v.backup.len(),
            |i: int|
                if 0xFE00 <= i < 0xFF00 {
                    v.mem[echo_target((p * 256 + (i - 0xFE00)) as u16) as int]
                } else {
                    v.backup[i]
                },
        ),
        ..v
    }
}

/// The ordered write policy, first match winning: cartridge ROM ignores
/// the write; the echo region redirects it 0x2000 down; the division
/// timer and scanline registers store zero whatever was written; the DMA
/// trigger register starts a transfer instead of storing; the boot
/// disable register clears the boot latch on a write of 1 and stores
/// nothing; every other address stores the byte through the system
/// write path.
pub open spec fn bus_write(v: BusView, addr: u16, data: u8) -> BusView {
    if addr <= 0x7FFF {
        v
    } else if 0xE000 <= addr && addr <= 0xFDFF {
        bus_sys_write(v, (addr - 0x2000) as u16, data)
    } else if addr == IOREG_DIV {
        bus_sys_write(v, addr, 0)
    } else if addr == IOREG_LY {
        bus_sys_write(v, addr, 0)
    } else if addr == IOREG_DMA {
        bus_dma(v, data)
    } else if addr == IOREG_BIOSRW {
        if v.bios_on && data == 1 {
            BusView { bios_on: false, ..v }
        } else {
            v
        }
    } else {
        bus_sys_write(v, addr, data)
    }
}

/// A 16-bit write: two policy writes, low byte first, the second
/// address wrapping at the top of the address space.
pub open spec fn bus_write16(v: BusView, addr: u16, data: u16) -> BusView {
    bus_write(bus_write(v, addr, (data % 256) as u8), ((addr + 1) % 0x10000) as u16, (data / 256) as u8)
}

/// A memory image with the first `n` bytes replaced by the prefix of
/// `bytes`.
pub open spec fn load_prefix(mem: Seq<u8>, bytes: Seq<u8>, n: int) -> Seq<u8> {
    Seq::new(mem.len(), |i: int| if 0 <= i < n { bytes[i] } else { mem[i] })
}

/// Failure to populate a memory region from an input image.
#[derive(Debug, PartialEq, Eq)]
pub enum LoadError {
    Truncated,
}

impl AddressSpace {
    /// A fresh address space: all memory zeroed, the boot overlay
    /// readable, every observer region marked dirty.
    pub fn new() -> (r: AddressSpace)
        ensures
            bus_wf(r@),
            r@.bios_on,
            r@.obs == (ObsView { td_signed: true, td_unsigned: true, tmap0: true, tmap1: true }),
            forall|i: int| 0 <= i < 0x100 ==> r@.bios[i] == 0u8,
            forall|i: int| 0 <= i < 0x10000 ==> r@.mem[i] == 0u8,
            forall|i: int| 0 <= i < 0x10000 ==> r@.backup[i] == 0u8,
    {
        AddressSpace {
            bios: vec![0u8; 0x100],
            main_ram: RwMemory::new(),
            backup_ram: Box::new(RwMemory::new()),
            bios_readable: true,
            observer: WriteObserver::new(),
        }
    }

    /// Reads the backing cell an address resolves to: the echo region
    /// aliases the primary RAM region. The boot overlay is not applied.
    fn backing_read(&self, addr: u16) -> (r: u8)
        requires
            bus_wf(self@),
        ensures
            r == self@.mem[echo_target(addr) as int],
    {
        if 0xE000 <= addr && addr <= 0xFDFF {
            self.main_ram.get(addr - 0x2000)
        } else {
            self.main_ram.get(addr)
        }
    }

    /// Reads one byte under the region policy for reads: the boot
    /// overlay shadows the first 256 bytes while its latch is set, and
    /// the echo region reads through its primary alias.
    pub fn read(&self, addr: u16) -> (r: u8)
        requires
            bus_wf(self@),
        ensures
            r == bus_read(self@, addr),
    {
        if addr < 0x100 && self.bios_readable {
            self.bios[addr as usize]
        } else {
            self.backing_read(addr)
        }
    }

    /// Reads a little-endian 16-bit value.
    pub fn read_u16(&self, addr: u16) -> (r: u16)
        requires
            bus_wf(self@),
        ensures
            r == bus_read16(self@, addr),
    {
        let lo = self.read(addr);
        let hi = self.read(addr.wrapping_add(1));
        proof {
            crate::bits::lemma_compose16(hi, lo);
        }
        ((hi as u16) << 8u16) | (lo as u16)
    }

    /// Borrows `bytes` bytes of the backing memory image starting at
    /// `addr`, as raw cells: neither the boot overlay nor the echo
    /// alias is applied. This is the renderer's bulk view of video
    /// memory, which lies outside both special regions.
    pub fn read_slice(&self, addr: u16, bytes: u16) -> (r: &[u8])
        requires
            bus_wf(self@),
            addr + bytes <= 0x10000,
        ensures
            r@ == self@.mem.subrange(addr as int, addr + bytes),
    {
        vstd::slice::slice_subrange(
            self.main_ram.data.as_slice(),
            addr as usize,
            addr as usize + bytes as usize,
        )
    }

    /// Writes one byte under the ordered region policy.
    pub fn write(&mut self, addr: u16, data: u8)
        requires
            bus_wf(old(self)@),
        ensures
            bus_wf(final(self)@),
            final(self)@ == bus_write(old(self)@, addr, data),
    {
        if addr <= 0x7FFF {
            // Cartridge ROM: the write is ignored.
        } else if 0xE000 <= addr && addr <= 0xFDFF {
            // Internal RAM echo: redirect to the primary region.
            self.sys_write(addr - 0x2000, data);
        } else if addr == IOREG_DIV {
            // The division timer resets on any write.
            self.sys_write(addr, 0);
        } else if addr == IOREG_LY {
            // The scanline register resets on any write.
            self.sys_write(addr, 0);
        } else if addr == IOREG_DMA {
            // The written byte is a source page, not data to store.
            self.dma(data);
        } else if addr == IOREG_BIOSRW {
            // Writing 1 disables the boot overlay; nothing is stored.
            if self.bios_readable && data == 1 {
                self.bios_readable = false;
            }
        } else {
            self.sys_write(addr, data);
        }
    }

    /// Copies 256 bytes from page `p` to the OAM base address, byte by
    /// byte: each source byte is read with the echo alias applied and
    /// written through the system write path.
    fn dma(&mut self, p: u8)
        requires
            bus_wf(old(self)@),
        ensures
            bus_wf(final(self)@),
            final(self)@ == bus_dma(old(self)@, p),
    {
        let from: u16 = (p as u16) * 256;
        let mut i: u16 = 0;
        while i < 0x100
            invariant
                bus_wf(self@),
                i <= 0x100,
                from == p * 256,
                self@.bios == old(self)@.bios,
                self@.bios_on == old(self)@.bios_on,
                self@.obs == old(self)@.obs,
                forall|j: int|
                    0 <= j < 0x10000 && !(0xFE00 <= j < 0xFE00 + i) ==> self@.mem[j]
                        == old(self)@.mem[j],
                forall|j: int|
                    0xFE00 <= j < 0xFE00 + i ==> self@.mem[j] == old(self)@.mem[echo_target(
                        (p * 256 + (j - 0xFE00)) as u16,
                    ) as int],
                forall|j: int|
                    0 <= j < 0x10000 && !(0xFE00 <= j < 0xFE00 + i) ==> self@.backup[j] == old(
                        self,
                    )@.backup[j],
                forall|j: int|
                    0xFE00 <= j < 0xFE00 + i ==> self@.backup[j] == old(self)@.mem[echo_target(
                        (p * 256 + (j - 0xFE00)) as u16,
                    ) as int],
            decreases 0x100 - i,
        {
            assert(!(0xFE00 <= echo_target((from + i) as u16) < 0xFE00 + i));
            let b = self.backing_read(from + i);
            self.sys_write(0xFE00 + i, b);
            i = i + 1;
        }
        proof {
            assert(self@.mem =~= bus_dma(old(self)@, p).mem);
            assert(self@.backup =~= bus_dma(old(self)@, p).backup);
            assert(self@ =~= bus_dma(old(self)@, p));
        }
    }

    /// Writes a 16-bit value as two policy writes, low byte first, so
    /// that the region rules apply to each byte independently.
    pub fn write_u16(&mut self, addr: u16, data: u16)
        requires
            bus_wf(old(self)@),
        ensures
            bus_wf(final(self)@),
            final(self)@ == bus_write16(old(self)@, addr, data),
    {
        proof {
            crate::bits::lemma_split16(data);
        }
        let lo = (data & 0xFF) as u8;
        let hi = (data >> 8u16) as u8;
        self.write(addr, lo);
        self.write(addr.wrapping_add(1), hi);
    }

    /// System write: stores the byte in both memory images and notifies
    /// the observer, bypassing the region policy.
    pub fn sys_write(&mut self, addr: u16, data: u8)
        requires
            bus_wf(old(self)@),
        ensures
            bus_wf(final(self)@),
            final(self)@ == bus_sys_write(old(self)@, addr, data),
    {
        self.observer.record_write(addr);
        self.main_ram.set(addr, data);
        self.backup_ram.set(addr, data);
    }

    /// Populates the boot overlay from an input image of at least 256
    /// bytes; a shorter image is truncated input and loads nothing.
    pub fn load_bios(&mut self, bytes: &[u8]) -> (r: Result<(), LoadError>)
        requires
            bus_wf(old(self)@),
        ensures
            bus_wf(final(self)@),
            bytes@.len() < 0x100 ==> r == Err::<(), LoadError>(LoadError::Truncated) && final(self)@
                == old(self)@,
            bytes@.len() >= 0x100 ==> r == Ok::<(), LoadError>(()) && final(self)@ == (BusView {
                bios: bytes@.subrange(0, 0x100),
                ..old(self)@
            }),
    {
        if bytes.len() < 0x100 {
            return Err(LoadError::Truncated);
        }
        let mut i: usize = 0;
        while i < 0x100
            invariant
                bytes@.len() >= 0x100,
                i <= 0x100,
                self@.bios.len() == 0x100,
                self@.mem == old(self)@.mem,
                self@.backup == old(self)@.backup,
                self@.bios_on == old(self)@.bios_on,
                self@.obs == old(self)@.obs,
                forall|j: int| 0 <= j < i ==> self@.bios[j] == bytes@[j],
                forall|j: int| i <= j < 0x100 ==> self@.bios[j] == old(self)@.bios[j],
            decreases 0x100 - i,
        {
            self.bios[i] = bytes[i];
            i = i + 1;
        }
        proof {
            assert(self@.bios =~= bytes@.subrange(0, 0x100));
            assert(self@ =~= (BusView { bios: bytes@.subrange(0, 0x100), ..old(self)@ }));
        }
        Ok(())
    }

    /// Populates the cartridge region of backing memory from an input
    /// image: the header must be complete (0x150 bytes), and at most
    /// 0x8000 bytes are taken. The bytes go to the primary image only,
    /// as a bulk load before execution, not through the write path.
    pub fn load_rom(&mut self, bytes: &[u8]) -> (r: Result<(), LoadError>)
        requires
            bus_wf(old(self)@),
        ensures
            bus_wf(final(self)@),
            bytes@.len() < 0x150 ==> r == Err::<(), LoadError>(LoadError::Truncated) && final(self)@
                == old(self)@,
            bytes@.len() >= 0x150 ==> r == Ok::<(), LoadError>(()) && final(self)@ == (BusView {
                mem: load_prefix(
                    old(self)@.mem,
                    bytes@,
                    if bytes@.len() < 0x8000 {
                        bytes@.len() as int
                    } else {
                        0x8000
                    },
                ),
                ..old(self)@
            }),
    {
        if bytes.len() < 0x150 {
            return Err(LoadError::Truncated);
        }
        let n: usize = if bytes.len() < 0x8000 {
            bytes.len()
        } else {
            0x8000
        };
        let mut i: usize = 0;
        while i < n
            invariant
                n <= bytes@.len(),
                n <= 0x8000,
                i <= n,
                bus_wf(self@),
                self@.bios == old(self)@.bios,
                self@.backup == old(self)@.backup,
                self@.bios_on == old(self)@.bios_on,
                self@.obs == old(self)@.obs,
                forall|j: int| 0 <= j < i ==> self@.mem[j] == bytes@[j],
                forall|j: int| i <= j < 0x10000 ==> self@.mem[j] == old(self)@.mem[j],
            decreases n - i,
        {
            self.main_ram.set(i as u16, bytes[i]);
            i = i + 1;
        }
        proof {
            assert(self@.mem =~= load_prefix(old(self)@.mem, bytes@, n as int));
            assert(self@ =~= (BusView { mem: load_prefix(old(self)@.mem, bytes@, n as int), ..old(self)@ }));
        }
        Ok(())
    }

    /// Re-arms the boot overlay latch.
    pub fn set_bios_readable(&mut self)
        ensures
            final(self)@ == (BusView { bios_on: true, ..old(self)@ }),
    {
        self.bios_readable = true;
    }

    /// Borrows the write observer for the renderer to query and clean.
    pub fn get_observer(&mut self) -> (r: &mut WriteObserver)
        ensures
            *r == old(self).observer_field(),
            final(self)@ == (BusView { obs: final(r)@, ..old(self)@ }),
    {
        &mut self.observer
    }

    /// The observer component, named so that the borrow returned by
    /// `get_observer` can be related to it.
    pub closed spec fn observer_field(&self) -> WriteObserver {
        self.observer
    }

    /// Hands in a spare memory image and takes out the snapshot image:
    /// the returned image holds what the backup held, and the backup is
    /// refreshed to a copy of the primary image.
    pub fn swap_backup(&mut self, mem: Box<RwMemory>) -> (r: Box<RwMemory>)
        requires
            bus_wf(old(self)@),
        ensures
            bus_wf(final(self)@),
            r@ == old(self)@.backup,
            final(self)@ == (BusView { backup: old(self)@.mem, ..old(self)@ }),
    {
        let mut m = mem;
        core::mem::swap(&mut m, &mut self.backup_ram);
        self.main_ram.copy_to(&mut self.backup_ram);
        m
    }
}

/// A write anywhere in cartridge ROM changes nothing at all: every read
/// afterwards returns what it returned before.
pub proof fn lemma_rom_write_protect(v: BusView, addr: u16, data: u8)
    requires
        addr < 0x8000,
    ensures
        bus_write(v, addr, data) == v,
        forall|a: u16| bus_read(bus_write(v, addr, data), a) == bus_read(v, a),
{
}

/// Echo aliasing, in both directions: the echo region and the primary
/// region 0x2000 below it name the same cells, so a write through
/// either address is read back through both.
pub proof fn lemma_echo_alias(v: BusView, k: u16, data: u8)
    requires
        bus_wf(v),
        k < 0x1E00,
    ensures
        bus_read(bus_write(v, (0xC000 + k) as u16, data), (0xE000 + k) as u16) == data,
        bus_read(bus_write(v, (0xE000 + k) as u16, data), (0xC000 + k) as u16) == data,
        bus_read(bus_write(v, (0xC000 + k) as u16, data), (0xC000 + k) as u16) == data,
        bus_read(bus_write(v, (0xE000 + k) as u16, data), (0xE000 + k) as u16) == data,
{
}

/// Boot overlay gating: while the latch is set, reads under the overlay
/// return overlay content whatever the backing memory holds; after a
/// write of 1 to the disable register the latch is clear and the same
/// reads return backing content.
pub proof fn lemma_boot_overlay_gating(v: BusView, addr: u16)
    requires
        bus_wf(v),
        v.bios_on,
        addr < 0x100,
    ensures
        bus_read(v, addr) == v.bios[addr as int],
        !bus_write(v, IOREG_BIOSRW, 1).bios_on,
        bus_read(bus_write(v, IOREG_BIOSRW, 1), addr) == v.mem[addr as int],
{
}

/// DMA: after writing source page `p` to the DMA trigger register, each
/// OAM byte reads equal to the corresponding source byte, and the dirty
/// flags stand as if each destination byte had been written
/// individually, which for the untracked OAM range leaves the observer
/// unchanged. Source pages under the boot overlay are excluded: there a
/// read of the source returns overlay content while the transfer copies
/// backing content.
pub proof fn lemma_dma(v: BusView, p: u8, i: u16)
    requires
        bus_wf(v),
        i < 0x100,
        p >= 1 || !v.bios_on,
    ensures
        bus_read(bus_write(v, IOREG_DMA, p), (0xFE00 + i) as u16) == bus_read(
            bus_write(v, IOREG_DMA, p),
            (p * 256 + i) as u16,
        ),
        bus_write(v, IOREG_DMA, p).obs == v.obs,
{
    let w = bus_write(v, IOREG_DMA, p);
    let t = echo_target((p * 256 + i) as u16);
    assert(w.mem[0xFE00 + i] == v.mem[t as int]);
    // The resolved source cell lies outside the OAM destination, except
    // for the identity transfer from the OAM page itself.
    if t < 0xFE00 || t >= 0xFF00 {
        assert(w.mem[t as int] == v.mem[t as int]);
    } else {
        assert(p == 0xFE);
        assert(w.mem[t as int] == v.mem[t as int]);
    }
}

} // verus!
