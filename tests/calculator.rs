use ct_calculator::api::{ResultFlags, ResultValue, Results};
use ct_calculator::utils;
use ct_calculator::CalcError;

fn expect(
    result: Result<Results, CalcError>,
    signed: &str,
    unsigned: &str,
    bin: &str,
    hex: &str,
    flags: ResultFlags,
) {
    assert!(result.is_ok(), "the width was rejected");
    let result = result.unwrap();
    let value = result.get_value();
    assert_eq!(signed, value.get_signed(), "signed value wrong");
    assert_eq!(unsigned, value.get_unsigned(), "unsigned value wrong");
    assert_eq!(bin, value.get_bin(), "binary value wrong");
    assert_eq!(hex, value.get_hex(), "hex value wrong");
    let got = result.get_flags();
    assert_eq!(flags.carry, got.carry, "carry flag wrong");
    assert_eq!(flags.borrow, got.borrow, "borrow flag wrong");
    assert_eq!(flags.overflow, got.overflow, "overflow flag wrong");
    assert_eq!(flags.zero, got.zero, "zero flag wrong");
    assert_eq!(flags.negative, got.negative, "negative flag wrong");
}

// zero, negative, overflow, carry
fn flags(zero: bool, negative: bool, overflow: bool, carry: bool) -> ResultFlags {
    ResultFlags::new(zero, negative, overflow, carry)
}

#[test]
fn test_human_error() {
    for i in [4, 8, 16, 32].iter() {
        assert!(ct_calculator::add(0, 0, *i).is_ok());
    }
    for i in [3, 64].iter() {
        assert_eq!(Err(CalcError::UnsupportedWidth), ct_calculator::add(0, 0, *i).map(|_| ()));
    }
}

#[test]
fn every_operation_rejects_an_unsupported_width() {
    assert!(ct_calculator::sub(1, 2, 0).is_err());
    assert!(ct_calculator::and(1, 2, 12).is_err());
    assert!(ct_calculator::or(1, 2, -8).is_err());
    assert!(ct_calculator::xor(1, 2, 5).is_err());
    assert!(ct_calculator::nand(1, 2, 128).is_err());
    assert!(ct_calculator::api::format(1, 7).is_err());
}

#[test]
fn test_i4() {
    for i in 0..=7u8 {
        assert_eq!(i as i8, utils::to_i4(i));
    }
    for i in 8..=15u8 {
        assert_eq!(-((16 - i) as i8), utils::to_i4(i));
    }
}

#[test]
fn nibble_helpers() {
    assert_eq!(0xB, utils::to_u4(0xAB));
    assert_eq!(15, utils::i32_to_u4(-1));
    assert_eq!(4, utils::i32_to_u4(0x1234));
    assert!(utils::negative(8));
    assert!(!utils::negative(7));
    assert_eq!(-6, utils::to_i4(0xFA));
}

#[test]
fn test_example() {
    let left = 0x8;
    let right = 0xB;
    let res = ct_calculator::add(left, right, 4).unwrap();
    assert!(res.get_flags().overflow);
    assert!(res.get_flags().carry);
    let res = ct_calculator::sub(left, right, 4).unwrap();
    assert!(!res.get_flags().overflow);
    assert!(res.get_flags().borrow);
}

#[test]
fn test_add_overflow_no_carry() {
    let r = ct_calculator::add(0b0110, 0b0111, 4);
    expect(r, "-3", "13", "1101", "D", flags(false, true, true, false));
}

#[test]
fn test_add_overflow_zero() {
    let r = ct_calculator::add(0b1111, 0b0001, 4);
    expect(r, "0", "0", "0000", "0", flags(true, false, false, true));
}

#[test]
fn test_add_no_overflow_carry() {
    let r = ct_calculator::add(0b0111, 0b1110, 4);
    expect(r, "5", "5", "0101", "5", flags(false, false, false, true));
}

#[test]
fn test_sub_borrow_no_overflow() {
    let r = ct_calculator::sub(0b0110, 0b0111, 4);
    expect(r, "-1", "15", "1111", "F", flags(false, true, false, false));
}

#[test]
fn test_sub_no_overflow_carry() {
    let r = ct_calculator::sub(0b1111, 0b0001, 4);
    expect(r, "-2", "14", "1110", "E", flags(false, true, false, true));
}

#[test]
fn test_sub_no_overflow_carry2() {
    let r = ct_calculator::sub(0b1100, 0b1011, 4);
    expect(r, "1", "1", "0001", "1", flags(false, false, false, true));
}

#[test]
fn test_sub_overflow_no_carry() {
    let r = ct_calculator::sub(0b0111, 0b1110, 4);
    expect(r, "-7", "9", "1001", "9", flags(false, true, true, false));
}

#[test]
fn test_8_one() {
    let r = ct_calculator::add(0x82, 0x12, 8);
    expect(r, "-108", "148", "10010100", "94", flags(false, true, false, false));
    let r = ct_calculator::sub(0x82, 0x12, 8);
    expect(r, "112", "112", "01110000", "70", flags(false, false, true, true));
}

#[test]
fn test_8_two() {
    let r = ct_calculator::add(0x34, 0x72, 8);
    expect(r, "-90", "166", "10100110", "A6", flags(false, true, true, false));
    let r = ct_calculator::sub(0x34, 0x72, 8);
    expect(r, "-62", "194", "11000010", "C2", flags(false, true, false, false));
}

#[test]
fn test_8_three() {
    let r = ct_calculator::add(0xC2, 0x87, 8);
    expect(r, "73", "73", "01001001", "49", flags(false, false, true, true));
    let r = ct_calculator::sub(0xC2, 0x87, 8);
    expect(r, "59", "59", "00111011", "3B", flags(false, false, false, true));
}

#[test]
fn test_8_four() {
    let r = ct_calculator::add(0xA3, 0x62, 8);
    expect(r, "5", "5", "00000101", "05", flags(false, false, false, true));
    let r = ct_calculator::sub(0xA3, 0x62, 8);
    expect(r, "65", "65", "01000001", "41", flags(false, false, true, true));
}

#[test]
fn add_sixteen_bit_overflow_into_sign() {
    let r = ct_calculator::add(0x7FFF, 1, 16);
    expect(
        r,
        "-32768",
        "32768",
        "1000000000000000",
        "8000",
        flags(false, true, true, false),
    );
}

#[test]
fn add_sixteen_bit_carry_to_zero() {
    let r = ct_calculator::add(0xFFFF, 1, 16);
    expect(r, "0", "0", "0000000000000000", "0000", flags(true, false, false, true));
}

#[test]
fn add_thirty_two_bit_extremes() {
    let r = ct_calculator::add(i32::MAX, 1, 32);
    expect(
        r,
        "-2147483648",
        "2147483648",
        "10000000000000000000000000000000",
        "80000000",
        flags(false, true, true, false),
    );
    let r = ct_calculator::add(-1, -1, 32);
    expect(
        r,
        "-2",
        "4294967294",
        "11111111111111111111111111111110",
        "FFFFFFFE",
        flags(false, true, false, true),
    );
}

#[test]
fn operands_are_masked_to_the_width() {
    let r = ct_calculator::add(0x1F3, 0x102, 8);
    expect(r, "-11", "245", "11110101", "F5", flags(false, true, false, false));
    let r = ct_calculator::add(-1, 0, 4);
    expect(r, "-1", "15", "1111", "F", flags(false, true, false, false));
}

#[test]
fn sub_of_minimum_signed_value_overflows() {
    let r = ct_calculator::sub(0, 0x80, 8);
    expect(r, "-128", "128", "10000000", "80", flags(false, true, true, false));
    let r = ct_calculator::sub(0, i32::MIN, 32);
    expect(
        r,
        "-2147483648",
        "2147483648",
        "10000000000000000000000000000000",
        "80000000",
        flags(false, true, true, false),
    );
}

#[test]
fn sub_of_zero_has_no_carry_out() {
    // Negating zero gives zero, so the delegated sum has no carry-out.
    let r = ct_calculator::sub(5, 0, 8);
    expect(r, "5", "5", "00000101", "05", flags(false, false, false, false));
}

#[test]
fn sub_equal_operands_gives_zero_with_carry() {
    let r = ct_calculator::sub(9, 9, 4);
    expect(r, "0", "0", "0000", "0", flags(true, false, false, true));
}

#[test]
fn logical_operations_on_nibbles() {
    let r = ct_calculator::and(0b1100, 0b1010, 4);
    expect(r, "-8", "8", "1000", "8", flags(false, true, false, false));
    let r = ct_calculator::or(0b1100, 0b1010, 4);
    expect(r, "-2", "14", "1110", "E", flags(false, true, false, false));
    let r = ct_calculator::xor(0b1100, 0b1010, 4);
    expect(r, "6", "6", "0110", "6", flags(false, false, false, false));
    let r = ct_calculator::nand(0b1100, 0b1010, 4);
    expect(r, "7", "7", "0111", "7", flags(false, false, false, false));
}

#[test]
fn logical_results_are_masked_and_never_carry() {
    let r = ct_calculator::nand(-1, -1, 16);
    expect(r, "0", "0", "0000000000000000", "0000", flags(true, false, false, false));
    let r = ct_calculator::and(-1, 0x1234, 8);
    expect(r, "52", "52", "00110100", "34", flags(false, false, false, false));
    let r = ct_calculator::xor(i32::MIN, 1, 32).unwrap();
    let f = r.get_flags();
    assert!(!f.carry && !f.overflow && f.borrow && f.negative);
    assert_eq!("2147483649", r.get_value().get_unsigned());
}

#[test]
fn borrow_is_negation_of_carry() {
    let ops: [fn(i32, i32, i32) -> Result<Results, CalcError>; 6] = [
        ct_calculator::add,
        ct_calculator::sub,
        ct_calculator::and,
        ct_calculator::or,
        ct_calculator::xor,
        ct_calculator::nand,
    ];
    for op in ops.iter() {
        for (l, r) in [(0, 0), (7, 9), (-1, 1), (0x80, 0x80)].iter() {
            for w in [4, 8, 16, 32].iter() {
                let f = op(*l, *r, *w).unwrap().get_flags();
                assert_eq!(f.borrow, !f.carry);
            }
        }
    }
}

#[test]
fn unsigned_result_stays_within_width() {
    for w in [4u32, 8, 16, 32].iter() {
        let r = ct_calculator::add(-1, -1, *w as i32).unwrap();
        let u: u64 = r.get_value().get_unsigned().parse().unwrap();
        assert!(u < (1u64 << *w));
        assert_eq!(*w as usize, r.get_value().get_bin().len());
        assert_eq!((*w as usize + 3) / 4, r.get_value().get_hex().len());
    }
}

#[test]
fn sub_undoes_add() {
    for (a, b, w) in [(-5, 12345, 32), (0x1F3, 0x7F, 8), (13, 9, 4), (-300, -7, 16)].iter() {
        let sum = ct_calculator::add(*a, *b, *w).unwrap();
        let u: u32 = sum.get_value().get_unsigned().parse().unwrap();
        let back = ct_calculator::sub(u as i32, *b, *w).unwrap();
        let got: u64 = back.get_value().get_unsigned().parse().unwrap();
        let expected = (*a as u32 as u64) & ((1u64 << *w) - 1);
        assert_eq!(expected, got);
    }
}

#[test]
fn flag_set_derives_borrow() {
    let f = ResultFlags::new(true, false, true, false);
    assert!(f.zero && !f.negative && f.overflow && !f.carry && f.borrow);
    let f = ResultFlags::new(false, true, false, true);
    assert!(!f.borrow);
}

#[test]
fn result_value_text() {
    let v = ResultValue::new4(13, -3);
    assert_eq!("13", v.get_unsigned());
    assert_eq!("-3", v.get_signed());
    assert_eq!("1101", v.get_bin());
    assert_eq!("D", v.get_hex());
    let v = ResultValue::new(0xBEEF, -16657, ct_calculator::width::Width::W16);
    assert_eq!("48879", v.get_unsigned());
    assert_eq!("-16657", v.get_signed());
    assert_eq!("1011111011101111", v.get_bin());
    assert_eq!("BEEF", v.get_hex());
    let results = Results::new(ResultFlags::new(false, false, false, false), v);
    assert_eq!("BEEF", results.get_value().get_hex());
}

#[test]
fn format_nibble() {
    let f = ct_calculator::api::format(5, 4).unwrap();
    assert_eq!("5", f.get_unsigned());
    assert_eq!("5", f.get_signed());
    assert_eq!("0101", f.get_bin());
    assert_eq!("5", f.get_hex());
    assert_eq!("1011", f.get_com());
}

#[test]
fn format_masks_and_complements() {
    let f = ct_calculator::api::format(-1, 16).unwrap();
    assert_eq!("65535", f.get_unsigned());
    assert_eq!("-1", f.get_signed());
    assert_eq!("1111111111111111", f.get_bin());
    assert_eq!("FFFF", f.get_hex());
    assert_eq!("0000000000000001", f.get_com());
    let f = ct_calculator::api::format(0, 8).unwrap();
    assert_eq!("0", f.get_unsigned());
    assert_eq!("00000000", f.get_com());
    let f = ct_calculator::api::format(200, 4).unwrap();
    assert_eq!("8", f.get_unsigned());
    assert_eq!("-8", f.get_signed());
    assert_eq!("1000", f.get_com());
    let f = ct_calculator::api::format(i32::MIN, 32).unwrap();
    assert_eq!("2147483648", f.get_unsigned());
    assert_eq!("-2147483648", f.get_signed());
    assert_eq!("10000000000000000000000000000000", f.get_com());
}

#[test]
fn formatted_value_constructors() {
    let f = ct_calculator::api::FormattedValue::new4(9, -7, 7);
    assert_eq!("1001", f.get_bin());
    assert_eq!("0111", f.get_com());
    let f = ct_calculator::api::FormattedValue::new(0xAB, -85, 0x55, ct_calculator::width::Width::W8);
    assert_eq!("171", f.get_unsigned());
    assert_eq!("-85", f.get_signed());
    assert_eq!("AB", f.get_hex());
    assert_eq!("01010101", f.get_com());
}
