use usbd_midi::message::data::u4::{InvalidU4, U4};
use usbd_midi::message::data::u7::{InvalidU7, U7};
use usbd_midi::message::data::{FromClamped, FromOverFlow};
use usbd_midi::util::nibble::combine_nibble;

#[test]
fn u7_try_from_accepts_the_range() {
    for value in 0u8..=127 {
        assert_eq!(u8::from(U7::try_from(value).unwrap()), value);
    }
}

#[test]
fn u7_try_from_rejects_above_the_range() {
    for value in 128u8..=255 {
        assert_eq!(U7::try_from(value), Err(InvalidU7(value)));
    }
}

#[test]
fn u7_from_clamped_keeps_or_caps() {
    for value in 0u8..=127 {
        assert_eq!(u8::from(U7::from_clamped(value)), value);
    }
    for value in 128u8..=255 {
        assert_eq!(u8::from(U7::from_clamped(value)), 127);
    }
}

#[test]
fn u7_from_overflow_masks() {
    for value in 0u8..=255 {
        assert_eq!(u8::from(U7::from_overflow(value)), value & 0x7F);
    }
    assert_eq!(u8::from(U7::from_overflow(0x80)), 0);
    assert_eq!(u8::from(U7::from_overflow(0xFF)), 0x7F);
}

#[test]
fn u7_limits() {
    assert_eq!(U7::MAX, 0x7F);
    assert_eq!(U7::MIN, 0);
}

#[test]
fn u7_is_ordered_by_its_number() {
    assert!(U7::from_clamped(3) < U7::from_clamped(4));
    assert!(U7::from_clamped(127) > U7::from_clamped(0));
    assert_eq!(U7::from_clamped(200), U7::from_clamped(127));
}

#[test]
fn u4_try_from_accepts_the_range() {
    for value in 0u8..=15 {
        assert_eq!(u8::from(U4::try_from(value).unwrap()), value);
    }
}

#[test]
fn u4_try_from_rejects_above_the_range() {
    for value in 16u8..=255 {
        assert_eq!(U4::try_from(value), Err(InvalidU4(value)));
    }
}

#[test]
fn u4_from_overflow_masks() {
    for value in 0u8..=255 {
        assert_eq!(u8::from(U4::from_overflow(value)), value & 0x0F);
        assert_eq!(u8::from(U4::from_overflowing_u8(value)), value & 0x0F);
    }
    assert_eq!(u8::from(U4::from_overflow(0x1F)), 0x0F);
    assert_eq!(u8::from(U4::from_overflow(0xA3)), 0x03);
}

#[test]
fn u4_from_clamped_keeps_or_caps() {
    assert_eq!(u8::from(U4::from_clamped(0)), 0);
    assert_eq!(u8::from(U4::from_clamped(15)), 15);
    assert_eq!(u8::from(U4::from_clamped(16)), 15);
    assert_eq!(u8::from(U4::from_clamped(255)), 15);
}

#[test]
fn u4_limits() {
    assert_eq!(U4::MAX, 0x0F);
    assert_eq!(U4::MIN, 0);
}

#[test]
fn u4_combine_packs_two_nibbles() {
    let upper = U4::try_from(0x2).unwrap();
    let lower = U4::try_from(0x9).unwrap();
    assert_eq!(U4::combine(upper, lower), 0x29);
    for high in 0u8..=15 {
        for low in 0u8..=15 {
            let packed = U4::combine(U4::try_from(high).unwrap(), U4::try_from(low).unwrap());
            assert_eq!(packed, (high << 4) | low);
        }
    }
}

#[test]
fn combine_nibble_discards_what_does_not_fit() {
    assert_eq!(combine_nibble(0x2, 0x9), 0x29);
    assert_eq!(combine_nibble(0x12, 0x9), 0x29);
    assert_eq!(combine_nibble(0x2, 0xF9), 0x29);
    assert_eq!(combine_nibble(0xFF, 0xFF), 0xFF);
    assert_eq!(combine_nibble(0, 0), 0);
}
