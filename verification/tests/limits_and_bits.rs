use twelve_bit::u12::{FailableInto, U12};

fn u12(n: u16) -> U12 {
    n.failable_into().unwrap()
}

#[test]
fn limits_and_default() {
    assert_eq!(u16::from(U12::min_value()), 0x000);
    assert_eq!(u16::from(U12::max_value()), 0xFFF);
    assert_eq!(u16::from(U12::default()), 0x000);
    assert_eq!(U12::default(), U12::min_value());
}

#[test]
fn count_ones_counts_set_bits() {
    assert_eq!(U12::min_value().count_ones(), 0);
    assert_eq!(U12::max_value().count_ones(), 12);
    assert_eq!(u12(0b1010_0000_0101).count_ones(), 4);
    assert_eq!(u12(1).count_ones(), 1);
}

#[test]
fn count_zeros_counts_clear_bits_of_twelve() {
    assert_eq!(U12::min_value().count_zeros(), 12);
    assert_eq!(U12::max_value().count_zeros(), 0);
    assert_eq!(u12(0b1010_0000_0101).count_zeros(), 8);
    assert_eq!(u12(1).count_zeros(), 11);
}

#[test]
fn ones_and_zeros_are_twelve_together() {
    for n in 0u16..=4095 {
        let x = u12(n);
        assert_eq!(x.count_ones() + x.count_zeros(), 12);
    }
}

#[test]
fn leading_zeros_of_a_twelve_bit_field() {
    assert_eq!(U12::min_value().leading_zeros(), 12);
    assert_eq!(U12::max_value().leading_zeros(), 0);
    assert_eq!(u12(1).leading_zeros(), 11);
    assert_eq!(u12(0x800).leading_zeros(), 0);
    assert_eq!(u12(0x7FF).leading_zeros(), 1);
    assert_eq!(u12(0x0F0).leading_zeros(), 4);
}

#[test]
fn trailing_zeros_of_a_twelve_bit_field() {
    assert_eq!(U12::max_value().trailing_zeros(), 0);
    assert_eq!(u12(1).trailing_zeros(), 0);
    assert_eq!(u12(8).trailing_zeros(), 3);
    assert_eq!(u12(0x800).trailing_zeros(), 11);
    assert_eq!(u12(0x0F0).trailing_zeros(), 4);
}

#[test]
fn trailing_zeros_of_zero_is_the_field_width() {
    assert_eq!(U12::min_value().trailing_zeros(), 12);
}

#[test]
fn bit_counts_agree_with_a_count_by_hand() {
    for n in 0u16..=4095 {
        let x = u12(n);
        let mut ones = 0u32;
        let mut leading = 0u32;
        let mut trailing = 0u32;
        let mut seen_set_from_top = false;
        let mut seen_set_from_bottom = false;
        for i in 0..12 {
            if (n >> i) & 1 == 1 {
                ones += 1;
                seen_set_from_bottom = true;
            } else if !seen_set_from_bottom {
                trailing += 1;
            }
            if (n >> (11 - i)) & 1 == 1 {
                seen_set_from_top = true;
            } else if !seen_set_from_top {
                leading += 1;
            }
        }
        assert_eq!(x.count_ones(), ones);
        assert_eq!(x.count_zeros(), 12 - ones);
        assert_eq!(x.leading_zeros(), leading);
        assert_eq!(x.trailing_zeros(), trailing);
    }
}

#[test]
fn order_and_equality_follow_the_numbers() {
    assert!(u12(1) < u12(2));
    assert!(u12(4095) > u12(0));
    assert!(u12(7) <= u12(7));
    assert!(u12(7) >= u12(7));
    assert_eq!(u12(300), u12(300));
    assert_ne!(u12(300), u12(301));
    assert_eq!(u12(5).partial_cmp(&u12(9)), Some(std::cmp::Ordering::Less));
    assert_eq!(u12(9).partial_cmp(&u12(5)), Some(std::cmp::Ordering::Greater));
    assert_eq!(u12(9).partial_cmp(&u12(9)), Some(std::cmp::Ordering::Equal));
    assert_eq!(u12(5).cmp(&u12(9)), std::cmp::Ordering::Less);
    assert_eq!(u12(9).max(u12(5)), u12(9));
    for a in [0u16, 1, 2047, 2048, 4095] {
        for b in [0u16, 1, 2047, 2048, 4095] {
            assert_eq!(u12(a).partial_cmp(&u12(b)), a.partial_cmp(&b));
            assert_eq!(u12(a).cmp(&u12(b)), a.cmp(&b));
            assert_eq!(u12(a) == u12(b), a == b);
        }
    }
}

#[test]
fn values_copy_and_print() {
    let a = u12(42);
    let b = a;
    assert_eq!(a, b);
    assert_eq!(a.clone(), b);
    assert_eq!(format!("{:?}", a), "U12(42)");
}
