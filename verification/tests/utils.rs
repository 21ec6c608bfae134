use lc3::sign_extend;

#[test]
fn sign_extend_keeps_a_positive_field() {
    assert_eq!(sign_extend(0x0005, 5), 0x0005);
    assert_eq!(sign_extend(0x000F, 5), 0x000F);
    assert_eq!(sign_extend(0x00FF, 9), 0x00FF);
    assert_eq!(sign_extend(0x03FF, 11), 0x03FF);
    assert_eq!(sign_extend(0x001F, 6), 0x001F);
}

#[test]
fn sign_extend_fills_the_high_bits_of_a_negative_field() {
    assert_eq!(sign_extend(0x001F, 5), 0xFFFF);
    assert_eq!(sign_extend(0x0010, 5), 0xFFF0);
    assert_eq!(sign_extend(0x0020, 6), 0xFFE0);
    assert_eq!(sign_extend(0x0100, 9), 0xFF00);
    assert_eq!(sign_extend(0x01FF, 9), 0xFFFF);
    assert_eq!(sign_extend(0x0400, 11), 0xFC00);
    assert_eq!(sign_extend(0x0001, 1), 0xFFFF);
}

#[test]
fn sign_extend_from_full_width_is_the_identity() {
    for v in [0u16, 1, 0x7FFF, 0x8000, 0x8001, 0xABCD, 0xFFFF] {
        assert_eq!(sign_extend(v, 16), v);
        assert_eq!(sign_extend(sign_extend(v, 16), 16), v);
    }
}

#[test]
fn sign_extend_is_idempotent_once_widened() {
    for size in 1usize..16 {
        for v in [0u16, 1, 2, 0x15, 0x3F, 0x1FF, 0x7FF, 0x7FFF] {
            let field = v & !(0xFFFFu16 << size);
            let wide = sign_extend(field, size);
            assert_eq!(sign_extend(wide, 16), wide);
        }
    }
}

#[test]
fn sign_bit_decides_the_high_bits_for_every_width() {
    for size in 1usize..16 {
        let high: u16 = 0xFFFF << size;
        for field in 0u32..(1u32 << size) {
            let field = field as u16;
            let wide = sign_extend(field, size);
            assert_eq!(wide & !high, field);
            if (field >> (size - 1)) & 1 == 1 {
                assert_eq!(wide & high, high);
                assert_eq!(wide as i16 as i32, field as i32 - (1i32 << size));
            } else {
                assert_eq!(wide & high, 0);
                assert_eq!(wide, field);
            }
        }
    }
}

#[test]
fn sign_extend_with_no_width_or_too_wide_returns_the_value() {
    assert_eq!(sign_extend(0xABCD, 0), 0xABCD);
    assert_eq!(sign_extend(0x0001, 0), 0x0001);
    assert_eq!(sign_extend(0x8000, 17), 0x8000);
    assert_eq!(sign_extend(0xFFFF, 64), 0xFFFF);
    assert_eq!(sign_extend(0x1234, usize::MAX), 0x1234);
}

#[test]
fn sign_extend_sets_high_bits_over_a_value_wider_than_the_field() {
    // bit 4 is the sign bit of a 5-bit field, whatever lies above it
    assert_eq!(sign_extend(0x0130, 5), 0xFFF0);
    assert_eq!(sign_extend(0x0120, 5), 0x0120);
}

#[test]
fn sign_extend_twice_is_sign_extend_once() {
    for size in 0usize..=17 {
        for v in [0u16, 1, 0x10, 0x1F, 0x20, 0xFF, 0x100, 0x400, 0x7FF, 0x8000, 0xFFFF, 0x1234] {
            let once = sign_extend(v, size);
            assert_eq!(sign_extend(once, size), once);
        }
    }
}
