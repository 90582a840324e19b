use sau::region::{SauError, SauRegion, SauRegionAttribute};

#[test]
fn validate_accepts_aligned_pairs() {
    let pairs = [
        (0x0000_0000u32, 0x0000_001Fu32),
        (0x0800_0000, 0x0805_FFFF),
        (0x2000_FA00, 0x2000_FFFF),
        (0xFFFF_FFE0, 0xFFFF_FFFF),
        (0x0000_0020, 0x0000_003F),
    ];
    for (base, limit) in pairs {
        let region = SauRegion::new(base, limit, SauRegionAttribute::Secure);
        assert_eq!(region.validate(), Ok(()));
    }
}

#[test]
fn validate_rejects_misaligned_base() {
    for low in 1u32..32 {
        let region = SauRegion::new(0x0800_0000 | low, 0x0805_FFFF, SauRegionAttribute::Secure);
        assert_eq!(region.validate(), Err(SauError::WrongBaseAddress));
    }
}

#[test]
fn validate_rejects_bad_limit() {
    for low in 0u32..31 {
        let region = SauRegion::new(0x0800_0000, 0x0805_FFE0 | low, SauRegionAttribute::Secure);
        assert_eq!(region.validate(), Err(SauError::WrongLimitAddress));
    }
}

#[test]
fn validate_reports_base_error_first() {
    let region = SauRegion::new(0x0000_0001, 0x0000_0000, SauRegionAttribute::NonSecure);
    assert_eq!(region.validate(), Err(SauError::WrongBaseAddress));
}

#[test]
fn validate_accepts_inverted_range() {
    // The hardware does not check ordering, so neither does the driver.
    let region = SauRegion::new(0x2000_0000, 0x1000_001F, SauRegionAttribute::NonSecure);
    assert_eq!(region.validate(), Ok(()));
}

#[test]
fn region_new_keeps_fields() {
    let region = SauRegion::new(0x40, 0x7F, SauRegionAttribute::NonSecureCallable);
    assert_eq!(region.base_address, 0x40);
    assert_eq!(region.limit_address, 0x7F);
    assert_eq!(region.attribute, SauRegionAttribute::NonSecureCallable);
}
