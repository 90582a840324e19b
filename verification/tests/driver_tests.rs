use sau::interface::SAU;
use sau::region::{SauError, SauRegion, SauRegionAttribute};
use sau::sau::{Sau, SauRegisters, SauStatus};

fn unit_with_capacity<const N: usize>(capacity: u8) -> Sau<N> {
    Sau::new(SauRegisters::new(capacity))
}

#[test]
fn region_numbers_reads_capacity() {
    let unit: Sau<8> = unit_with_capacity(8);
    assert_eq!(unit.region_numbers(), 8);
    assert_eq!(unit.number_total_regions(), 8);
    let small: Sau<8> = unit_with_capacity(2);
    assert_eq!(small.region_numbers(), 2);
    assert_eq!(small.number_total_regions(), 2);
}

#[test]
fn enable_and_disable_toggle_the_control_register() {
    let mut unit: Sau<8> = unit_with_capacity(8);
    assert_eq!(unit.registers.sau_ctrl, 0);
    unit.enable();
    assert_eq!(unit.registers.sau_ctrl, 1);
    unit.disable_sau();
    assert_eq!(unit.registers.sau_ctrl, 0);
    unit.enable_sau();
    assert_eq!(unit.registers.sau_ctrl, 1);
}

#[test]
fn write_read_roundtrip_every_attribute() {
    let attributes = [
        SauRegionAttribute::Secure,
        SauRegionAttribute::NonSecureCallable,
        SauRegionAttribute::NonSecure,
    ];
    let mut unit: Sau<8> = unit_with_capacity(8);
    for (i, attribute) in attributes.into_iter().enumerate() {
        let region = SauRegion::new(0x2000_0000 + 0x40 * i as u32, 0x2000_003F, attribute);
        assert_eq!(unit.set_region_intern(i as u8, region), Ok(()));
        assert_eq!(unit.get_region(i as u8), Ok(region));
    }
}

#[test]
fn write_rejects_out_of_range_and_misalignment() {
    let mut unit: Sau<8> = unit_with_capacity(8);
    let good = SauRegion::new(0x20, 0x3F, SauRegionAttribute::Secure);
    assert_eq!(unit.set_region_intern(8, good), Err(SauError::RegionNumberTooBig));
    let bad_base = SauRegion::new(0x21, 0x3F, SauRegionAttribute::Secure);
    assert_eq!(unit.set_region_intern(0, bad_base), Err(SauError::WrongBaseAddress));
    let bad_limit = SauRegion::new(0x20, 0x3E, SauRegionAttribute::Secure);
    assert_eq!(unit.set_region_intern(0, bad_limit), Err(SauError::WrongLimitAddress));
    // Nothing was written: slot 0 still decodes as the power-on value.
    assert_eq!(
        unit.get_region(0),
        Ok(SauRegion::new(0, 0x1F, SauRegionAttribute::NonSecure))
    );
}

#[test]
fn read_rejects_out_of_range() {
    let mut unit: Sau<8> = unit_with_capacity(4);
    assert_eq!(unit.get_region(4), Err(SauError::RegionNumberTooBig));
    assert_eq!(unit.get_region(0xFF), Err(SauError::RegionNumberTooBig));
}

#[test]
fn new_status_starts_unused() {
    let unit: Sau<8> = unit_with_capacity(8);
    let status = unit.new_status();
    for i in 0..8 {
        assert_eq!(unit.region_is_used(&status, i), Some(false));
    }
}

#[test]
fn set_then_used_reads_true_reset_then_false() {
    let unit: Sau<8> = unit_with_capacity(8);
    let mut status = unit.new_status();
    assert_eq!(
        unit.set_region(&mut status, 0x20, 0x3F, SauRegionAttribute::Secure, 3),
        Some(3)
    );
    assert_eq!(unit.region_is_used(&status, 3), Some(true));
    assert_eq!(unit.reset_region(&mut status, 3), Some(3));
    assert_eq!(unit.region_is_used(&status, 3), Some(false));
}

#[test]
fn set_region_overwrites_without_error() {
    let unit: Sau<8> = unit_with_capacity(8);
    let mut status = unit.new_status();
    assert_eq!(
        unit.set_region(&mut status, 0x20, 0x3F, SauRegionAttribute::Secure, 1),
        Some(1)
    );
    // Last write wins: reconfiguring a used slot is not an error.
    assert_eq!(
        unit.set_region(&mut status, 0x40, 0x5F, SauRegionAttribute::NonSecure, 1),
        Some(1)
    );
    assert_eq!(unit.region_is_used(&status, 1), Some(true));
    assert_eq!(
        status.regions[1],
        SauRegion::new(0x40, 0x5F, SauRegionAttribute::NonSecure)
    );
}

#[test]
fn index_one_past_the_last_slot_fails() {
    let unit8: Sau<8> = unit_with_capacity(8);
    let mut status8 = unit8.new_status();
    assert_eq!(
        unit8.set_region(&mut status8, 0x20, 0x3F, SauRegionAttribute::Secure, 8),
        None
    );
    assert_eq!(unit8.reset_region(&mut status8, 8), None);
    assert_eq!(unit8.region_is_used(&status8, 8), None);

    let unit1: Sau<1> = unit_with_capacity(8);
    let mut status1 = unit1.new_status();
    assert_eq!(
        unit1.set_region(&mut status1, 0x20, 0x3F, SauRegionAttribute::Secure, 1),
        None
    );
    assert_eq!(unit1.reset_region(&mut status1, 1), None);
    assert_eq!(unit1.region_is_used(&status1, 1), None);
}

#[test]
fn reset_status_clears_markers_and_keeps_values() {
    let unit: Sau<8> = unit_with_capacity(8);
    let mut status = unit.new_status();
    unit.set_region(&mut status, 0x20, 0x3F, SauRegionAttribute::Secure, 2);
    unit.set_region(&mut status, 0x40, 0x5F, SauRegionAttribute::NonSecure, 5);
    unit.reset_status(&mut status);
    for i in 0..8 {
        assert_eq!(unit.region_is_used(&status, i), Some(false));
    }
    // Only the markers were cleared; the cached values stay.
    assert_eq!(
        status.regions[2],
        SauRegion::new(0x20, 0x3F, SauRegionAttribute::Secure)
    );
    assert_eq!(
        status.regions[5],
        SauRegion::new(0x40, 0x5F, SauRegionAttribute::NonSecure)
    );
}

#[test]
fn commit_applies_exactly_the_used_slots() {
    let mut unit: Sau<8> = unit_with_capacity(8);
    let mut status = unit.new_status();
    let secure = SauRegion::new(0x0800_0000, 0x0805_FFFF, SauRegionAttribute::Secure);
    let nonsecure = SauRegion::new(0x2000_0000, 0x2000_FFFF, SauRegionAttribute::NonSecure);
    unit.set_region(&mut status, secure.base_address, secure.limit_address, secure.attribute, 2);
    unit.set_region(
        &mut status,
        nonsecure.base_address,
        nonsecure.limit_address,
        nonsecure.attribute,
        5,
    );
    let applied = unit.commit(&status);
    // The hardware holds exactly those two slots; the others still decode
    // as the power-on value.
    for i in 0..8u8 {
        let expected = match i {
            2 => secure,
            5 => nonsecure,
            _ => SauRegion::new(0, 0x1F, SauRegionAttribute::NonSecure),
        };
        assert_eq!(unit.get_region(i), Ok(expected));
    }
    // The returned status reports used only for indices 2 and 5.
    for i in 0..8 {
        assert_eq!(unit.region_is_used(&applied, i), Some(i == 2 || i == 5));
    }
    assert_eq!(applied.regions[2], secure);
    assert_eq!(applied.regions[5], nonsecure);
}

#[test]
fn commit_skips_slots_the_hardware_rejects() {
    let mut unit: Sau<8> = unit_with_capacity(2);
    let mut status = unit.new_status();
    // Slot 0 is misaligned, slot 5 lies beyond the implemented region
    // count; slot 1 is fine.
    unit.set_region(&mut status, 0x21, 0x3F, SauRegionAttribute::Secure, 0);
    unit.set_region(&mut status, 0x40, 0x5F, SauRegionAttribute::Secure, 1);
    unit.set_region(&mut status, 0x60, 0x7F, SauRegionAttribute::Secure, 5);
    let applied = unit.load_status(&status);
    assert_eq!(
        unit.get_region(0),
        Ok(SauRegion::new(0, 0x1F, SauRegionAttribute::NonSecure))
    );
    assert_eq!(
        unit.get_region(1),
        Ok(SauRegion::new(0x40, 0x5F, SauRegionAttribute::Secure))
    );
    // The rejected writes are not surfaced: the returned status still
    // carries every slot the commit attempted.
    assert_eq!(unit.region_is_used(&applied, 0), Some(true));
    assert_eq!(unit.region_is_used(&applied, 1), Some(true));
    assert_eq!(unit.region_is_used(&applied, 5), Some(true));
}

#[test]
fn scenario_secure_flash_then_secure_sram() {
    let mut unit: Sau<8> = unit_with_capacity(8);
    let mut status: SauStatus<8> = unit.new_status();

    unit.set_region(&mut status, 0x0800_0000, 0x0805_FFFF, SauRegionAttribute::Secure, 0);
    unit.load_status(&status);
    unit.enable_sau();
    assert_eq!(
        unit.get_region(0),
        Ok(SauRegion::new(0x0800_0000, 0x0805_FFFF, SauRegionAttribute::Secure))
    );

    unit.set_region(&mut status, 0x2000_FA00, 0x2000_FFFF, SauRegionAttribute::Secure, 1);
    unit.load_status(&status);
    assert_eq!(
        unit.get_region(1),
        Ok(SauRegion::new(0x2000_FA00, 0x2000_FFFF, SauRegionAttribute::Secure))
    );
}

#[test]
fn scenario_reconfigure_slot_from_secure_to_nonsecure() {
    let mut unit: Sau<8> = unit_with_capacity(8);
    let mut status = unit.new_status();

    unit.set_region(&mut status, 0x2000_FA00, 0x2000_FFFF, SauRegionAttribute::Secure, 1);
    unit.load_status(&status);
    assert_eq!(
        unit.get_region(1),
        Ok(SauRegion::new(0x2000_FA00, 0x2000_FFFF, SauRegionAttribute::Secure))
    );

    unit.set_region(&mut status, 0x2000_FA00, 0x2000_FFFF, SauRegionAttribute::NonSecure, 1);
    unit.load_status(&status);
    // The readback changes to Non-Secure, with no residual callable bit:
    // the decoded attribute is NonSecure, not NonSecureCallable.
    assert_eq!(
        unit.get_region(1),
        Ok(SauRegion::new(0x2000_FA00, 0x2000_FFFF, SauRegionAttribute::NonSecure))
    );
}

#[test]
fn logical_slots_beyond_capacity_are_configurable_but_not_committed() {
    // The software may track more slots than the hardware implements; the
    // extra slots fail only at commit time.
    let mut unit: Sau<4> = unit_with_capacity(2);
    let mut status = unit.new_status();
    assert_eq!(
        unit.set_region(&mut status, 0x20, 0x3F, SauRegionAttribute::Secure, 3),
        Some(3)
    );
    assert_eq!(unit.region_is_used(&status, 3), Some(true));
    let applied = unit.commit(&status);
    assert_eq!(unit.region_is_used(&applied, 3), Some(true));
    assert_eq!(unit.get_region(3), Err(SauError::RegionNumberTooBig));
}
