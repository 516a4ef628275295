use grpc::channel::dur_to_ms;
use grpc::flags::{change_flag, WriteFlags, WRITE_BUFFER_HINT, WRITE_NO_COMPRESS};

#[test]
fn write_flags_set_and_clear_independently() {
    let f = WriteFlags::new();
    assert!(!f.get_buffer_hint());
    assert!(!f.get_force_no_compress());
    let f = f.buffer_hint(true);
    assert!(f.get_buffer_hint());
    assert!(!f.get_force_no_compress());
    assert_eq!(f.flags, WRITE_BUFFER_HINT);
    let f = f.force_no_compress(true);
    assert!(f.get_buffer_hint());
    assert!(f.get_force_no_compress());
    assert_eq!(f.flags, WRITE_BUFFER_HINT | WRITE_NO_COMPRESS);
    let f = f.buffer_hint(false);
    assert!(!f.get_buffer_hint());
    assert!(f.get_force_no_compress());
    assert_eq!(f.flags, WRITE_NO_COMPRESS);
}

#[test]
fn change_flag_keeps_other_bits() {
    let mut flags: u32 = 0b1000;
    change_flag(&mut flags, 0b0010, true);
    assert_eq!(flags, 0b1010);
    change_flag(&mut flags, 0b1000, false);
    assert_eq!(flags, 0b0010);
}

#[test]
fn duration_in_millis() {
    assert_eq!(dur_to_ms(0, 0), 0);
    assert_eq!(dur_to_ms(1, 500_000_000), 1500);
    assert_eq!(dur_to_ms(2, 999_999), 2000);
    assert_eq!(dur_to_ms(3, 1_000_000), 3001);
}
