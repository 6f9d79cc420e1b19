use flash_algo::device::{target_device, EMPTY_VALUE, FLASH_BASE, FLASH_SIZE, PAGE_SIZE, SECTOR_SIZE};

#[test]
fn target_device_constants() {
    assert_eq!(FLASH_BASE, 0);
    assert_eq!(FLASH_SIZE, 1_048_576);
    assert_eq!(PAGE_SIZE, 2048);
    assert_eq!(SECTOR_SIZE, 2048);
    assert_eq!(EMPTY_VALUE, 0xFF);
}

#[test]
fn target_device_descriptor_fields() {
    let dev = target_device();
    assert_eq!(dev.flash_address, 0);
    assert_eq!(dev.device_size, 1_048_576);
    assert_eq!(dev.page_size, 2048);
    assert_eq!(dev.erase_unit_size, 2048);
    assert_eq!(dev.empty_value, 0xFF);
    assert_eq!(dev.sectors.len(), 1);
    assert_eq!(dev.sectors[0].size, 2048);
    assert_eq!(dev.sectors[0].address, 0);
}

#[test]
fn sector_and_page_counts() {
    let dev = target_device();
    assert_eq!(dev.total_size(), 1_048_576);
    assert_eq!(dev.sector_count(), 512);
    assert_eq!(dev.page_count(), 512);
}

#[test]
fn sector_addresses_ascend_by_erase_unit() {
    let dev = target_device();
    assert_eq!(dev.sector_address(0), 0);
    assert_eq!(dev.sector_address(1), 2048);
    assert_eq!(dev.sector_address(2), 4096);
    assert_eq!(dev.sector_address(511), 1_046_528);
}

#[test]
fn page_addresses_ascend_by_page_size() {
    let dev = target_device();
    assert_eq!(dev.page_address(0), 0);
    assert_eq!(dev.page_address(3), 6144);
    assert_eq!(dev.page_address(511), 1_046_528);
}
