use bh_agent::util::set_blocking::{is_blocking, set_blocking};

const NONBLOCK: i32 = 0o4000;

#[test]
fn clearing_the_bit_makes_the_descriptor_block() {
    assert_eq!(set_blocking(0o4002, NONBLOCK, true), Some(0o2));
    assert_eq!(set_blocking(0o2, NONBLOCK, true), Some(0o2));
}

#[test]
fn setting_the_bit_makes_the_descriptor_not_block() {
    assert_eq!(set_blocking(0o2, NONBLOCK, false), Some(0o4002));
    assert_eq!(set_blocking(0o4002, NONBLOCK, false), Some(0o4002));
}

#[test]
fn failed_query_is_passed_on() {
    assert_eq!(set_blocking(-1, NONBLOCK, true), None);
    assert_eq!(is_blocking(-1, NONBLOCK), None);
}

#[test]
fn is_blocking_reads_the_bit() {
    assert_eq!(is_blocking(0o2, NONBLOCK), Some(true));
    assert_eq!(is_blocking(0o4002, NONBLOCK), Some(false));
}

#[test]
fn set_then_is_blocking_agree() {
    for flags in [0, 1, 0o2, 0o4000, 0o4002, 0o102002, i32::MAX] {
        for blocking in [true, false] {
            let set = set_blocking(flags, NONBLOCK, blocking).unwrap();
            assert_eq!(is_blocking(set, NONBLOCK), Some(blocking));
            assert_eq!(set & !NONBLOCK, flags & !NONBLOCK);
        }
    }
}
