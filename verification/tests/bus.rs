use gbcore::mem::{AddressSpace, LoadError, MemSection, Region, RwMemory, WriteObserver};

#[test]
fn rom_region_ignores_writes() {
    let mut bus = AddressSpace::new();
    for addr in [0x0000u16, 0x0150, 0x3FFF, 0x7FFF] {
        bus.write(addr, 0x5A);
        // The boot overlay is still enabled, so low reads see the
        // overlay; disable it for a clean view of the backing bytes.
        assert_eq!(bus.read(addr), 0x00);
    }
    bus.write(0xFF50, 1);
    for addr in [0x0000u16, 0x0150, 0x3FFF, 0x7FFF] {
        bus.write(addr, 0x5A);
        assert_eq!(bus.read(addr), 0x00);
    }
}

#[test]
fn echo_region_aliases_primary_ram_in_both_directions() {
    let mut bus = AddressSpace::new();
    for k in [0x0000u16, 0x0001, 0x1234, 0x1DFF] {
        // Write through the echo address, read back through both.
        bus.write(0xE000 + k, 0xA7);
        assert_eq!(bus.read(0xC000 + k), 0xA7);
        assert_eq!(bus.read(0xE000 + k), 0xA7);
        // Write through the primary address, read back through both.
        bus.write(0xC000 + k, 0x33);
        assert_eq!(bus.read(0xC000 + k), 0x33);
        assert_eq!(bus.read(0xE000 + k), 0x33);
    }
}

#[test]
fn dma_from_an_echo_page_copies_the_aliased_ram() {
    let mut bus = AddressSpace::new();
    for i in 0..0x100u16 {
        bus.write(0xC300 + i, (i as u8).wrapping_mul(3));
    }
    // Page 0xE3 aliases page 0xC3.
    bus.write(0xFF46, 0xE3);
    for i in 0..0x100u16 {
        assert_eq!(bus.read(0xFE00 + i), bus.read(0xE300 + i));
        assert_eq!(bus.read(0xFE00 + i), (i as u8).wrapping_mul(3));
    }
}

#[test]
fn division_timer_and_scanline_registers_reset_on_write() {
    let mut bus = AddressSpace::new();
    bus.write(0xFF04, 0x99);
    assert_eq!(bus.read(0xFF04), 0x00);
    bus.write(0xFF44, 0x17);
    assert_eq!(bus.read(0xFF44), 0x00);
    // The neighbouring registers store normally.
    bus.write(0xFF05, 0x17);
    assert_eq!(bus.read(0xFF05), 0x17);
}

#[test]
fn dma_copies_a_page_to_oam() {
    let mut bus = AddressSpace::new();
    for i in 0..0x100u16 {
        bus.write(0xC000 + i, (i as u8) ^ 0x5A);
    }
    bus.write(0xFF46, 0xC0);
    for i in 0..0x100u16 {
        assert_eq!(bus.read(0xFE00 + i), bus.read(0xC000 + i));
        assert_eq!(bus.read(0xFE00 + i), (i as u8) ^ 0x5A);
    }
    // The trigger register itself stores nothing.
    assert_eq!(bus.read(0xFF46), 0x00);
}

#[test]
fn dma_does_not_dirty_the_video_regions() {
    let mut bus = AddressSpace::new();
    bus.get_observer().clean_all();
    bus.write(0xFF46, 0xC0);
    let obs = bus.get_observer();
    assert!(!obs.check_dirty(Region::TileDataUnsigned));
    assert!(!obs.check_dirty(Region::TileDataSigned));
    assert!(!obs.check_dirty(Region::TileMap0));
    assert!(!obs.check_dirty(Region::TileMap1));
}

#[test]
fn dma_from_the_oam_page_itself_is_the_identity() {
    let mut bus = AddressSpace::new();
    for i in 0..0x100u16 {
        bus.sys_write(0xFE00 + i, i as u8);
    }
    bus.write(0xFF46, 0xFE);
    for i in 0..0x100u16 {
        assert_eq!(bus.read(0xFE00 + i), i as u8);
    }
}

#[test]
fn dma_reads_backing_memory_even_under_the_boot_overlay() {
    // With the overlay enabled, a transfer from page 0 copies the
    // backing bytes, not the overlay bytes a read would return.
    let mut bus = AddressSpace::new();
    let bios = vec![0xAAu8; 0x100];
    assert_eq!(bus.load_bios(&bios), Ok(()));
    for i in 0..0x100u16 {
        bus.sys_write(i, 0x11);
    }
    bus.write(0xFF46, 0x00);
    assert_eq!(bus.read(0x0000), 0xAA);
    assert_eq!(bus.read(0xFE00), 0x11);
}

#[test]
fn sixteen_bit_write_wraps_at_the_top_of_the_address_space() {
    // The second byte lands at address 0x0000, which is ROM: ignored.
    let mut bus = AddressSpace::new();
    bus.write_u16(0xFFFF, 0xABCD);
    assert_eq!(bus.read(0xFFFF), 0xCD);
    bus.write(0xFF50, 1);
    assert_eq!(bus.read(0x0000), 0x00);
}

#[test]
fn boot_overlay_gating() {
    let mut bus = AddressSpace::new();
    let bios = vec![0xAAu8; 0x100];
    assert_eq!(bus.load_bios(&bios), Ok(()));
    let mut rom = vec![0x55u8; 0x4000];
    rom[0x50] = 0x77;
    assert_eq!(bus.load_rom(&rom), Ok(()));
    // Before the disable write, low reads return overlay content.
    assert_eq!(bus.read(0x0050), 0xAA);
    assert_eq!(bus.read(0x00FF), 0xAA);
    // Above the overlay the cartridge shows through already.
    assert_eq!(bus.read(0x0100), 0x55);
    // Writing anything but 1 leaves the latch alone.
    bus.write(0xFF50, 0);
    assert_eq!(bus.read(0x0050), 0xAA);
    // Writing 1 clears the latch; the same reads now see the cartridge.
    bus.write(0xFF50, 1);
    assert_eq!(bus.read(0x0050), 0x77);
    assert_eq!(bus.read(0x00FF), 0x55);
    // The latch can be re-armed by the surrounding system.
    bus.set_bios_readable();
    assert_eq!(bus.read(0x0050), 0xAA);
}

#[test]
fn truncated_images_are_rejected() {
    let mut bus = AddressSpace::new();
    let short_bios = vec![0xAAu8; 0xFF];
    assert_eq!(bus.load_bios(&short_bios), Err(LoadError::Truncated));
    let short_rom = vec![0x55u8; 0x14F];
    assert_eq!(bus.load_rom(&short_rom), Err(LoadError::Truncated));
    // Nothing was loaded by the failing calls.
    bus.write(0xFF50, 1);
    assert_eq!(bus.read(0x0000), 0x00);
}

#[test]
fn rom_image_is_clipped_to_the_cartridge_region() {
    let mut bus = AddressSpace::new();
    let rom = vec![0x11u8; 0x9000];
    assert_eq!(bus.load_rom(&rom), Ok(()));
    bus.write(0xFF50, 1);
    assert_eq!(bus.read(0x7FFF), 0x11);
    assert_eq!(bus.read(0x8000), 0x00);
}

#[test]
fn sixteen_bit_bus_access_is_little_endian() {
    let mut bus = AddressSpace::new();
    bus.write_u16(0xC123, 0xBEEF);
    assert_eq!(bus.read(0xC123), 0xEF);
    assert_eq!(bus.read(0xC124), 0xBE);
    assert_eq!(bus.read_u16(0xC123), 0xBEEF);
}

#[test]
fn observer_tracks_exactly_the_written_region() {
    let mut bus = AddressSpace::new();
    bus.get_observer().clean_all();
    bus.write(0x8123, 1);
    let obs = bus.get_observer();
    assert!(obs.check_dirty(Region::TileDataUnsigned));
    assert!(!obs.check_dirty(Region::TileDataSigned));
    assert!(!obs.check_dirty(Region::TileMap0));
    assert!(!obs.check_dirty(Region::TileMap1));
    // The overlapping tile-data ranges resolve to the first region.
    obs.clean_all();
    bus.write(0x8C00, 1);
    assert!(bus.get_observer().check_dirty(Region::TileDataUnsigned));
    assert!(!bus.get_observer().check_dirty(Region::TileDataSigned));
    bus.get_observer().clean_all();
    bus.write(0x9100, 1);
    assert!(bus.get_observer().check_dirty(Region::TileDataSigned));
    bus.get_observer().clean_all();
    bus.write(0x9800, 1);
    assert!(bus.get_observer().check_dirty(Region::TileMap0));
    bus.get_observer().clean_all();
    bus.write(0x9FFF, 1);
    assert!(bus.get_observer().check_dirty(Region::TileMap1));
    // Writes outside the tracked ranges leave everything clean.
    bus.get_observer().clean_all();
    bus.write(0xC000, 1);
    assert!(!bus.get_observer().check_dirty(Region::TileMap1));
}

#[test]
fn observer_apply_joins_and_cleans() {
    let mut a = WriteObserver::new();
    a.clean_all();
    a.record_write(0x9800);
    let mut b = WriteObserver::new();
    b.clean_all();
    b.record_write(0x8000);
    a.apply(&mut b);
    assert!(b.check_dirty(Region::TileMap0));
    assert!(b.check_dirty(Region::TileDataUnsigned));
    assert!(!b.check_dirty(Region::TileMap1));
    assert!(!a.check_dirty(Region::TileMap0));
    b.clean_region(Region::TileMap0);
    assert!(!b.check_dirty(Region::TileMap0));
    assert!(b.check_dirty(Region::TileDataUnsigned));
}

#[test]
fn fresh_observer_reports_everything_dirty() {
    let obs = WriteObserver::new();
    assert!(obs.check_dirty(Region::TileDataUnsigned));
    assert!(obs.check_dirty(Region::TileDataSigned));
    assert!(obs.check_dirty(Region::TileMap0));
    assert!(obs.check_dirty(Region::TileMap1));
}

#[test]
fn read_slice_returns_backing_bytes() {
    let mut bus = AddressSpace::new();
    bus.write(0xC000, 0x01);
    bus.write(0xC001, 0x02);
    bus.write(0xC002, 0x03);
    let s = bus.read_slice(0xC000, 3);
    assert_eq!(s, &[0x01, 0x02, 0x03]);
}

#[test]
fn snapshot_swap_returns_the_mirror_image() {
    let mut bus = AddressSpace::new();
    bus.write(0xC000, 0xAB);
    bus.write(0x8000, 0xCD);
    let spare = Box::new(RwMemory::new());
    let snap = bus.swap_backup(spare);
    // Every write went to both images, so the snapshot mirrors memory.
    assert_eq!(snap.get(0xC000), 0xAB);
    assert_eq!(snap.get(0x8000), 0xCD);
    // The fresh backup was refreshed to a copy of the primary image,
    // so a second swap returns the same contents.
    let snap2 = bus.swap_backup(snap);
    assert_eq!(snap2.get(0xC000), 0xAB);
    assert_eq!(snap2.get(0x8000), 0xCD);
}

#[test]
fn system_writes_bypass_the_region_policy() {
    let mut bus = AddressSpace::new();
    bus.sys_write(0x0100, 0x42);
    bus.sys_write(0xFF44, 0x90);
    assert_eq!(bus.read(0x0100), 0x42);
    assert_eq!(bus.read(0xFF44), 0x90);
}

#[test]
fn memory_image_get_set_round_trip() {
    let mut m = RwMemory::new();
    assert_eq!(m.get(0x1234), 0);
    m.set(0x1234, 0x99);
    assert_eq!(m.get(0x1234), 0x99);
    let mut n = RwMemory::new();
    m.copy_to(&mut n);
    assert_eq!(n.get(0x1234), 0x99);
    let _section = MemSection::Vram;
    let _other = MemSection::RomBank0;
}
