use flash_algo::program::program_byte_count;
use flash_algo::status::status_to_result;

#[test]
fn byte_count_is_the_buffer_length() {
    let data = vec![0xAAu8; 2048];
    assert_eq!(program_byte_count(&data), 2048);
    let small = [1u8, 2, 3];
    assert_eq!(program_byte_count(&small), 3);
    let empty: [u8; 0] = [];
    assert_eq!(program_byte_count(&empty), 0);
}

#[test]
fn program_status_maps_like_erase_status() {
    assert!(status_to_result(0).is_ok());
    assert_eq!(status_to_result(0x0000_000D).unwrap_err().code(), 0x0000_000D);
}
