use realm_monitor::boot::{init_mm, Boot, Step, Unsupported};

#[test]
fn cold_boot_happens_once() {
    let mut boot = Boot::new();
    assert_eq!(
        boot.setup(),
        vec![Step::ClearBss, Step::InitAllocator, Step::InitConsole, Step::InitMm, Step::InitCpu]
    );
    assert_eq!(boot.setup(), vec![Step::InitCpu]);
    assert_eq!(boot.setup(), vec![Step::InitCpu]);
}

#[test]
fn physical_address_ranges() {
    assert_eq!(init_mm(0, 0), Ok(32));
    assert_eq!(init_mm(0, 1), Ok(36));
    assert_eq!(init_mm(0, 2), Ok(40));
    assert_eq!(init_mm(0, 3), Ok(42));
    assert_eq!(init_mm(0, 4), Ok(44));
    assert_eq!(init_mm(0, 5), Ok(48));
    assert_eq!(init_mm(0, 6), Ok(52));
}

#[test]
fn unknown_address_range_is_unsupported() {
    assert_eq!(init_mm(0, 7), Err(Unsupported::PaRange));
    assert_eq!(init_mm(0, 15), Err(Unsupported::PaRange));
    assert_eq!(init_mm(0, u64::MAX), Err(Unsupported::PaRange));
}

#[test]
fn missing_4k_granules_are_unsupported() {
    assert_eq!(init_mm(0xf, 5), Err(Unsupported::Granule4K));
    assert_eq!(init_mm(1, 0), Err(Unsupported::Granule4K));
    assert_eq!(init_mm(0xf, 9), Err(Unsupported::Granule4K));
}
