use twelve_bit::u12::{FailableInto, U12};

#[test]
fn every_byte_survives_the_round_trip() {
    for v in 0u8..=255 {
        let x = U12::from(v);
        assert_eq!(u16::from(x), v as u16);
        assert_eq!(u32::from(x), v as u32);
        assert_eq!(u64::from(x), v as u64);
        assert_eq!(usize::from(x), v as usize);
    }
}

#[test]
fn from_byte_is_not_the_identity_on_storage_alone() {
    assert_eq!(U12::from(200u8).checked_add(U12::from(100u8)).map(u16::from), Some(300));
}

#[test]
fn sixteen_bit_boundary() {
    let over: Option<U12> = 4096u16.failable_into();
    assert_eq!(over, None);
    let top: Option<U12> = 4095u16.failable_into();
    assert_eq!(top, Some(U12::max_value()));
    let zero: Option<U12> = 0u16.failable_into();
    assert_eq!(zero, Some(U12::min_value()));
    let most: Option<U12> = u16::MAX.failable_into();
    assert_eq!(most, None);
}

#[test]
fn thirty_two_bit_boundary() {
    let over: Option<U12> = 4096u32.failable_into();
    assert_eq!(over, None);
    let top: Option<U12> = 4095u32.failable_into();
    assert_eq!(top, Some(U12::max_value()));
    let wrapped_low_bits: Option<U12> = 0x0001_0001u32.failable_into();
    assert_eq!(wrapped_low_bits, None);
    let most: Option<U12> = u32::MAX.failable_into();
    assert_eq!(most, None);
}

#[test]
fn sixty_four_bit_boundary() {
    let over: Option<U12> = 4096u64.failable_into();
    assert_eq!(over, None);
    let top: Option<U12> = 4095u64.failable_into();
    assert_eq!(top, Some(U12::max_value()));
    let wrapped_low_bits: Option<U12> = 0x1_0000_0001u64.failable_into();
    assert_eq!(wrapped_low_bits, None);
    let most: Option<U12> = u64::MAX.failable_into();
    assert_eq!(most, None);
}

#[test]
fn pointer_sized_boundary() {
    let over: Option<U12> = 4096usize.failable_into();
    assert_eq!(over, None);
    let top: Option<U12> = 4095usize.failable_into();
    assert_eq!(top, Some(U12::max_value()));
    let most: Option<U12> = usize::MAX.failable_into();
    assert_eq!(most, None);
}

#[test]
fn unchecked_into_gives_the_value_where_it_fits() {
    let a: U12 = 0xFFBu16.unchecked_into();
    assert_eq!(u16::from(a), 0xFFB);
    let b: U12 = 1234u32.unchecked_into();
    assert_eq!(u32::from(b), 1234);
    let c: U12 = 4095u64.unchecked_into();
    assert_eq!(c, U12::max_value());
    let d: U12 = 0usize.unchecked_into();
    assert_eq!(d, U12::min_value());
}

#[test]
fn widening_keeps_every_value() {
    for n in 0u16..=4095 {
        let x: U12 = n.unchecked_into();
        assert_eq!(u16::from(x), n);
        assert_eq!(u32::from(x), n as u32);
        assert_eq!(u64::from(x), n as u64);
        assert_eq!(usize::from(x), n as usize);
        let again: Option<U12> = u64::from(x).failable_into();
        assert_eq!(again, Some(x));
    }
}
