use slot::build_info::Build;

#[test]
fn the_serial_is_the_hash_in_capitals() {
    let b = Build { version: "0.1.0", hash: "3fa9c0d", dirty: true, date: "2025-01-01" };
    assert_eq!(b.serial(), "3FA9C0D");
    assert_eq!(b.dirty_digit(), '1');
    let clean = Build { dirty: false, ..b };
    assert_eq!(clean.dirty_digit(), '0');
}
