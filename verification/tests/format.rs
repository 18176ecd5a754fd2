use num_runtime_fmt::numeric_trait::fractional::Fractional;
use num_runtime_fmt::{Dynamic, Error, NumFmt};

/// The floating-point number `x` as the formatter takes it: by the numeral of its
/// magnitude.
fn float(x: f64) -> Fractional {
    Fractional::new(x < 0.0, &format!("{}", x.abs())).expect("must be a finite number")
}

#[test]
fn fill_left_int() {
    let fmt = NumFmt::from_str(":<5").expect("must parse expected format");
    let result = fmt.fmt(1).expect("must format without error");
    assert_eq!(result, "1::::");
}

#[test]
fn fill_middle_int() {
    let fmt = NumFmt::from_str(":^5").expect("must parse expected format");
    let result = fmt.fmt(1).expect("must format without error");
    assert_eq!(result, "::1::");
}

#[test]
fn fill_middle_offset_int() {
    let fmt = NumFmt::from_str(":^4").expect("must parse expected format");
    let result = fmt.fmt(1).expect("must format without error");
    assert_eq!(result, "::1:");
}

#[test]
fn fill_right_int() {
    let fmt = NumFmt::from_str(":>5").expect("must parse expected format");
    let result = fmt.fmt(1).expect("must format without error");
    assert_eq!(result, "::::1");
}

#[test]
fn fill_decimal_int() {
    let fmt = NumFmt::from_str(":v5").expect("must parse expected format");
    let result = fmt.fmt(1).expect("must format without error");
    assert_eq!(result, "::::1");
}

#[test]
fn fill_left_float() {
    let fmt = NumFmt::from_str(":<5").expect("must parse expected format");
    let result = fmt.fmt(float(1.1)).expect("must format without error");
    assert_eq!(result, "1.1::");
}

#[test]
fn fill_middle_float() {
    let fmt = NumFmt::from_str(":^5").expect("must parse expected format");
    let result = fmt.fmt(float(1.1)).expect("must format without error");
    assert_eq!(result, ":1.1:");
}

#[test]
fn fill_middle_offset_float() {
    let fmt = NumFmt::from_str(":^6").expect("must parse expected format");
    let result = fmt.fmt(float(1.1)).expect("must format without error");
    assert_eq!(result, "::1.1:");
}

#[test]
fn fill_right_float() {
    let fmt = NumFmt::from_str(":>5").expect("must parse expected format");
    let result = fmt.fmt(float(1.1)).expect("must format without error");
    assert_eq!(result, "::1.1");
}

#[test]
fn fill_decimal_float() {
    let fmt = NumFmt::from_str(":v5").expect("must parse expected format");
    let result = fmt.fmt(float(1.1)).expect("must format without error");
    assert_eq!(result, "::::1.1");
}

#[test]
fn fill_bigger_decimal_float() {
    let fmt = NumFmt::from_str(":v5").expect("must parse expected format");
    let result = fmt.fmt(float(11.1)).expect("must format without error");
    assert_eq!(result, ":::11.1");
}

#[test]
fn align_left_int() {
    let fmt = NumFmt::from_str("<5").expect("must parse expected format");
    let result = fmt.fmt(1).expect("must format without error");
    assert_eq!(result, "1    ");
}

#[test]
fn align_middle_int() {
    let fmt = NumFmt::from_str("^5").expect("must parse expected format");
    let result = fmt.fmt(1).expect("must format without error");
    assert_eq!(result, "  1  ");
}

#[test]
fn align_middle_offset_int() {
    let fmt = NumFmt::from_str("^4").expect("must parse expected format");
    let result = fmt.fmt(1).expect("must format without error");
    assert_eq!(result, "  1 ");
}

#[test]
fn align_right_int() {
    let fmt = NumFmt::from_str(">5").expect("must parse expected format");
    let result = fmt.fmt(1).expect("must format without error");
    assert_eq!(result, "    1");
}

#[test]
fn align_decimal_int() {
    let fmt = NumFmt::from_str("v5").expect("must parse expected format");
    let result = fmt.fmt(1).expect("must format without error");
    assert_eq!(result, "    1");
}

#[test]
fn align_left_float() {
    let fmt = NumFmt::from_str("<5").expect("must parse expected format");
    let result = fmt.fmt(float(1.1)).expect("must format without error");
    assert_eq!(result, "1.1  ");
}

#[test]
fn align_middle_float() {
    let fmt = NumFmt::from_str("^5").expect("must parse expected format");
    let result = fmt.fmt(float(1.1)).expect("must format without error");
    assert_eq!(result, " 1.1 ");
}

#[test]
fn align_middle_offset_float() {
    let fmt = NumFmt::from_str("^6").expect("must parse expected format");
    let result = fmt.fmt(float(1.1)).expect("must format without error");
    assert_eq!(result, "  1.1 ");
}

#[test]
fn align_right_float() {
    let fmt = NumFmt::from_str(">5").expect("must parse expected format");
    let result = fmt.fmt(float(1.1)).expect("must format without error");
    assert_eq!(result, "  1.1");
}

#[test]
fn align_decimal_float() {
    let fmt = NumFmt::from_str("v5").expect("must parse expected format");
    let result = fmt.fmt(float(1.1)).expect("must format without error");
    assert_eq!(result, "    1.1");
}

#[test]
fn align_bigger_decimal_float() {
    let fmt = NumFmt::from_str("v5").expect("must parse expected format");
    let result = fmt.fmt(float(11.1)).expect("must format without error");
    assert_eq!(result, "   11.1");
}

#[test]
fn sign_omit_pos_int() {
    let fmt = NumFmt::from_str("").expect("must parse expected format");
    let result = fmt.fmt(1).expect("must format without error");
    assert_eq!(result, "1");
}

#[test]
fn sign_omit_neg_int() {
    let fmt = NumFmt::from_str("").expect("must parse expected format");
    let result = fmt.fmt(-1).expect("must format without error");
    assert_eq!(result, "-1");
}

#[test]
fn sign_plus_pos_int() {
    let fmt = NumFmt::from_str("+").expect("must parse expected format");
    let result = fmt.fmt(1).expect("must format without error");
    assert_eq!(result, "+1");
}

#[test]
fn sign_plus_neg_int() {
    let fmt = NumFmt::from_str("+").expect("must parse expected format");
    let result = fmt.fmt(-1).expect("must format without error");
    assert_eq!(result, "-1");
}

#[test]
fn sign_mins_pos_int() {
    let fmt = NumFmt::from_str("-").expect("must parse expected format");
    let result = fmt.fmt(1).expect("must format without error");
    assert_eq!(result, "1");
}

#[test]
fn sign_mins_neg_int() {
    let fmt = NumFmt::from_str("-").expect("must parse expected format");
    let result = fmt.fmt(-1).expect("must format without error");
    assert_eq!(result, "-1");
}

#[test]
fn sign_omit_pos_float() {
    let fmt = NumFmt::from_str("").expect("must parse expected format");
    let result = fmt.fmt(float(1.1)).expect("must format without error");
    assert_eq!(result, "1.1");
}

#[test]
fn sign_omit_neg_float() {
    let fmt = NumFmt::from_str("").expect("must parse expected format");
    let result = fmt.fmt(float(-1.1)).expect("must format without error");
    assert_eq!(result, "-1.1");
}

#[test]
fn sign_plus_pos_float() {
    let fmt = NumFmt::from_str("+").expect("must parse expected format");
    let result = fmt.fmt(float(1.1)).expect("must format without error");
    assert_eq!(result, "+1.1");
}

#[test]
fn sign_plus_neg_float() {
    let fmt = NumFmt::from_str("+").expect("must parse expected format");
    let result = fmt.fmt(float(-1.1)).expect("must format without error");
    assert_eq!(result, "-1.1");
}

#[test]
fn sign_mins_pos_float() {
    let fmt = NumFmt::from_str("-").expect("must parse expected format");
    let result = fmt.fmt(float(1.1)).expect("must format without error");
    assert_eq!(result, "1.1");
}

#[test]
fn sign_mins_neg_float() {
    let fmt = NumFmt::from_str("-").expect("must parse expected format");
    let result = fmt.fmt(float(-1.1)).expect("must format without error");
    assert_eq!(result, "-1.1");
}

#[test]
fn hash_binary() {
    let fmt = NumFmt::from_str("#b").expect("must parse expected format");
    let result = fmt.fmt(15).expect("must format without error");
    assert_eq!(result, "0b1111");
}

#[test]
fn hash_octal() {
    let fmt = NumFmt::from_str("#o").expect("must parse expected format");
    let result = fmt.fmt(15).expect("must format without error");
    assert_eq!(result, "0o17");
}

#[test]
fn hash_decimal_implied() {
    let fmt = NumFmt::from_str("#").expect("must parse expected format");
    let result = fmt.fmt(15).expect("must format without error");
    assert_eq!(result, "0d15");
}

#[test]
fn hash_decimal_explicit() {
    let fmt = NumFmt::from_str("#d").expect("must parse expected format");
    let result = fmt.fmt(15).expect("must format without error");
    assert_eq!(result, "0d15");
}

#[test]
fn hash_hex_lower() {
    let fmt = NumFmt::from_str("#x").expect("must parse expected format");
    let result = fmt.fmt(15).expect("must format without error");
    assert_eq!(result, "0xf");
}

#[test]
fn hash_hex_upper() {
    let fmt = NumFmt::from_str("#X").expect("must parse expected format");
    let result = fmt.fmt(15).expect("must format without error");
    assert_eq!(result, "0xF");
}

#[test]
fn hash_decimal_float_implied() {
    let fmt = NumFmt::from_str("#").expect("must parse expected format");
    let result = fmt.fmt(float(1.1)).expect("must format without error");
    assert_eq!(result, "0d1.1");
}

#[test]
fn hash_decimal_float_explicit() {
    let fmt = NumFmt::from_str("#d").expect("must parse expected format");
    let result = fmt.fmt(float(1.1)).expect("must format without error");
    assert_eq!(result, "0d1.1");
}

#[test]
fn zero_unused_int() {
    let fmt = NumFmt::from_str("01").expect("must parse expected format");
    let result = fmt.fmt(1).expect("must format without error");
    assert_eq!(result, "1");
}

#[test]
fn zero_unnused_float() {
    let fmt = NumFmt::from_str("01").expect("must parse expected format");
    let result = fmt.fmt(float(1.1)).expect("must format without error");
    assert_eq!(result, "1.1");
}

#[test]
fn zero_bare_pos_int() {
    let fmt = NumFmt::from_str("05").expect("must parse expected format");
    let result = fmt.fmt(1).expect("must format without error");
    assert_eq!(result, "00001");
}

#[test]
fn zero_bare_neg_int() {
    let fmt = NumFmt::from_str("05").expect("must parse expected format");
    let result = fmt.fmt(-1).expect("must format without error");
    assert_eq!(result, "-0001");
}

#[test]
fn zero_bare_pos_float() {
    let fmt = NumFmt::from_str("05").expect("must parse expected format");
    let result = fmt.fmt(float(1.1)).expect("must format without error");
    assert_eq!(result, "001.1");
}

#[test]
fn zero_bare_neg_float() {
    let fmt = NumFmt::from_str("05").expect("must parse expected format");
    let result = fmt.fmt(float(-1.1)).expect("must format without error");
    assert_eq!(result, "-01.1");
}

#[test]
fn zero_right_pos_int() {
    let fmt = NumFmt::from_str(">05").expect("must parse expected format");
    let result = fmt.fmt(1).expect("must format without error");
    assert_eq!(result, "00001");
}

#[test]
fn zero_right_neg_int() {
    let fmt = NumFmt::from_str(">05").expect("must parse expected format");
    let result = fmt.fmt(-1).expect("must format without error");
    assert_eq!(result, "-0001");
}

#[test]
fn zero_right_pos_float() {
    let fmt = NumFmt::from_str(">05").expect("must parse expected format");
    let result = fmt.fmt(float(1.1)).expect("must format without error");
    assert_eq!(result, "001.1");
}

#[test]
fn zero_right_neg_float() {
    let fmt = NumFmt::from_str(">05").expect("must parse expected format");
    let result = fmt.fmt(float(-1.1)).expect("must format without error");
    assert_eq!(result, "-01.1");
}

#[test]
fn zero_dec_pos_int() {
    let fmt = NumFmt::from_str("v05").expect("must parse expected format");
    let result = fmt.fmt(1).expect("must format without error");
    assert_eq!(result, "00001");
}

#[test]
fn zero_dec_neg_int() {
    let fmt = NumFmt::from_str("v05").expect("must parse expected format");
    let result = fmt.fmt(-1).expect("must format without error");
    assert_eq!(result, "-0001");
}

#[test]
fn zero_dec_pos_float() {
    let fmt = NumFmt::from_str("v05").expect("must parse expected format");
    let result = fmt.fmt(float(1.1)).expect("must format without error");
    assert_eq!(result, "00001.1");
}

#[test]
fn zero_dec_neg_float() {
    let fmt = NumFmt::from_str("v05").expect("must parse expected format");
    let result = fmt.fmt(float(-1.1)).expect("must format without error");
    assert_eq!(result, "-0001.1");
}

#[test]
fn zero_center_pos_int() {
    let fmt = NumFmt::from_str("^05").expect("must parse expected format");
    let result = fmt.fmt(1).unwrap_err();
    assert!(matches!(result, Error::IncompatibleAlignment));
}

#[test]
fn zero_center_neg_int() {
    let fmt = NumFmt::from_str("^05").expect("must parse expected format");
    let result = fmt.fmt(-1).unwrap_err();
    assert!(matches!(result, Error::IncompatibleAlignment));
}

#[test]
fn zero_center_pos_float() {
    let fmt = NumFmt::from_str("^05").expect("must parse expected format");
    let result = fmt.fmt(float(1.1)).unwrap_err();
    assert!(matches!(result, Error::IncompatibleAlignment));
}

#[test]
fn zero_center_neg_float() {
    let fmt = NumFmt::from_str("^05").expect("must parse expected format");
    let result = fmt.fmt(float(-1.1)).unwrap_err();
    assert!(matches!(result, Error::IncompatibleAlignment));
}

#[test]
fn zero_left_pos_int() {
    let fmt = NumFmt::from_str("<05").expect("must parse expected format");
    let result = fmt.fmt(1).unwrap_err();
    assert!(matches!(result, Error::IncompatibleAlignment));
}

#[test]
fn zero_left_neg_int() {
    let fmt = NumFmt::from_str("<05").expect("must parse expected format");
    let result = fmt.fmt(-1).unwrap_err();
    assert!(matches!(result, Error::IncompatibleAlignment));
}

#[test]
fn zero_left_pos_float() {
    let fmt = NumFmt::from_str("<05").expect("must parse expected format");
    let result = fmt.fmt(float(1.1)).unwrap_err();
    assert!(matches!(result, Error::IncompatibleAlignment));
}

#[test]
fn zero_left_neg_float() {
    let fmt = NumFmt::from_str("<05").expect("must parse expected format");
    let result = fmt.fmt(float(-1.1)).unwrap_err();
    assert!(matches!(result, Error::IncompatibleAlignment));
}

#[test]
fn width_narrow_noop_pos_int() {
    let fmt = NumFmt::from_str("1").expect("must parse expected format");
    let result = fmt.fmt(123).expect("must format without error");
    assert_eq!(result, "123");
}

#[test]
fn width_narrow_noop_neg_int() {
    let fmt = NumFmt::from_str("1").expect("must parse expected format");
    let result = fmt.fmt(-123).expect("must format without error");
    assert_eq!(result, "-123");
}

#[test]
fn width_narrow_noop_pos_float() {
    let fmt = NumFmt::from_str("1").expect("must parse expected format");
    let result = fmt.fmt(float(1.3)).expect("must format without error");
    assert_eq!(result, "1.3");
}

#[test]
fn width_narrow_noop_neg_float() {
    let fmt = NumFmt::from_str("1").expect("must parse expected format");
    let result = fmt.fmt(float(-1.3)).expect("must format without error");
    assert_eq!(result, "-1.3");
}

#[test]
fn width_default_align_pos_int() {
    let fmt = NumFmt::from_str("5").expect("must parse expected format");
    let result = fmt.fmt(1).expect("must format without error");
    assert_eq!(result, "    1");
}

#[test]
fn width_default_align_neg_int() {
    let fmt = NumFmt::from_str("5").expect("must parse expected format");
    let result = fmt.fmt(-1).expect("must format without error");
    assert_eq!(result, "   -1");
}

#[test]
fn width_default_align_pos_float() {
    let fmt = NumFmt::from_str("5").expect("must parse expected format");
    let result = fmt.fmt(float(1.1)).expect("must format without error");
    assert_eq!(result, "  1.1");
}

#[test]
fn width_default_align_neg_float() {
    let fmt = NumFmt::from_str("5").expect("must parse expected format");
    let result = fmt.fmt(float(-1.1)).expect("must format without error");
    assert_eq!(result, " -1.1");
}

#[test]
fn width_dyn_default_align_pos_int() {
    let fmt = NumFmt::from_str("").expect("must parse expected format");
    let result = fmt.fmt_with(1, Dynamic::width(5)).expect("must format without error");
    assert_eq!(result, "    1");
}

#[test]
fn width_dyn_default_align_neg_int() {
    let fmt = NumFmt::from_str("").expect("must parse expected format");
    let result = fmt.fmt_with(-1, Dynamic::width(5)).expect("must format without error");
    assert_eq!(result, "   -1");
}

#[test]
fn width_dyn_default_align_pos_float() {
    let fmt = NumFmt::from_str("").expect("must parse expected format");
    let result = fmt.fmt_with(float(1.1), Dynamic::width(5)).expect("must format without error");
    assert_eq!(result, "  1.1");
}

#[test]
fn width_dyn_default_align_neg_float() {
    let fmt = NumFmt::from_str("").expect("must parse expected format");
    let result = fmt.fmt_with(float(-1.1), Dynamic::width(5)).expect("must format without error");
    assert_eq!(result, " -1.1");
}

#[test]
fn precision_truncate() {
    let fmt = NumFmt::from_str(".2").expect("must parse expected format");
    let result = fmt.fmt(float(3.14159)).expect("must format without error");
    assert_eq!(result, "3.14");
}

#[test]
fn precision_extend() {
    let fmt = NumFmt::from_str(".7").expect("must parse expected format");
    let result = fmt.fmt(float(3.14159)).expect("must format without error");
    assert_eq!(result, "3.1415900");
}

#[test]
fn precision_with_width() {
    let fmt = NumFmt::from_str("5.3").expect("must parse expected format");
    let result = fmt.fmt(float(1.2)).expect("must format without error");
    assert_eq!(result, "1.200");
}

#[test]
fn precision_width_extend() {
    let fmt = NumFmt::from_str("7.3").expect("must parse expected format");
    let result = fmt.fmt(float(1.2)).expect("must format without error");
    assert_eq!(result, "  1.200");
}

#[test]
fn precision_fill_extend() {
    let fmt = NumFmt::from_str("|^7.3").expect("must parse expected format");
    let result = fmt.fmt(float(1.2)).expect("must format without error");
    assert_eq!(result, "|1.200|");
}

#[test]
fn precision_decimal() {
    let fmt = NumFmt::from_str("v7.3").expect("must parse expected format");
    let result = fmt.fmt(float(1.2)).expect("must format without error");
    assert_eq!(result, "      1.200");
}

#[test]
fn precision_zero_dec() {
    let fmt = NumFmt::from_str("v05.3").expect("must parse expected format");
    let result = fmt.fmt(float(1.2)).expect("must format without error");
    assert_eq!(result, "00001.200");
}

#[test]
fn precision_left() {
    let fmt = NumFmt::from_str("<7.3").expect("must parse expected format");
    let result = fmt.fmt(float(1.2)).expect("must format without error");
    assert_eq!(result, "1.200  ");
}

#[test]
fn base_binary() {
    let fmt = NumFmt::from_str("09b_4").expect("must parse expected format");
    let result = fmt.fmt(0b1101).expect("must format without error");
    assert_eq!(result, "0000_1101");
}

#[test]
fn base_octal() {
    let fmt = NumFmt::from_str("04o").expect("must parse expected format");
    let result = fmt.fmt(0o644).expect("must format without error");
    assert_eq!(result, "0644");
}

#[test]
fn base_lower_hex() {
    let fmt = NumFmt::from_str("x 4").expect("must parse expected format");
    let result = fmt.fmt(0xcafebabe_u32).expect("must format without error");
    assert_eq!(result, "cafe babe");
}

#[test]
fn base_upper_hex() {
    let fmt = NumFmt::from_str("#X_4").expect("must parse expected format");
    let result = fmt.fmt(0xDEADBEEF_u32).expect("must format without error");
    assert_eq!(result, "0xDEAD_BEEF");
}

#[test]
fn base_binary_float() {
    let fmt = NumFmt::from_str("09b_4").expect("must parse expected format");
    let result = fmt.fmt(float(0.0)).unwrap_err();
    assert!(matches!(result, Error::UnsupportedBase(_)));
}

#[test]
fn base_octal_float() {
    let fmt = NumFmt::from_str("04o").expect("must parse expected format");
    let result = fmt.fmt(float(0.0)).unwrap_err();
    assert!(matches!(result, Error::UnsupportedBase(_)));
}

#[test]
fn base_lower_hex_float() {
    let fmt = NumFmt::from_str("x").expect("must parse expected format");
    let result = fmt.fmt(float(0.0)).unwrap_err();
    assert!(matches!(result, Error::UnsupportedBase(_)));
}

#[test]
fn base_upper_hex_float() {
    let fmt = NumFmt::from_str("X").expect("must parse expected format");
    let result = fmt.fmt(float(0.0)).unwrap_err();
    assert!(matches!(result, Error::UnsupportedBase(_)));
}

#[test]
fn separator_not_separated() {
    let fmt = NumFmt::from_str("").expect("must parse expected format");
    let result = fmt.fmt(123456789).expect("must format without error");
    assert_eq!(result, "123456789");
}

#[test]
fn separator_comma() {
    let fmt = NumFmt::from_str(",").expect("must parse expected format");
    let result = fmt.fmt(123456789).expect("must format without error");
    assert_eq!(result, "123,456,789");
}

#[test]
fn separator_space() {
    let fmt = NumFmt::from_str(" ").expect("must parse expected format");
    let result = fmt.fmt(123456789).expect("must format without error");
    assert_eq!(result, "123 456 789");
}

#[test]
fn separator_under() {
    let fmt = NumFmt::from_str("_").expect("must parse expected format");
    let result = fmt.fmt(123456789).expect("must format without error");
    assert_eq!(result, "123_456_789");
}

#[test]
fn separator_comma_float() {
    let fmt = NumFmt::from_str(",").expect("must parse expected format");
    let result = fmt.fmt(float(123456789.0)).expect("must format without error");
    assert_eq!(result, "123,456,789");
}

#[test]
fn separator_space_float() {
    let fmt = NumFmt::from_str(" ").expect("must parse expected format");
    let result = fmt.fmt(float(123456789.0)).expect("must format without error");
    assert_eq!(result, "123 456 789");
}

#[test]
fn separator_under_float() {
    let fmt = NumFmt::from_str("_").expect("must parse expected format");
    let result = fmt.fmt(float(123456789.0)).expect("must format without error");
    assert_eq!(result, "123_456_789");
}

#[test]
fn separator_only_pre_decimal() {
    let fmt = NumFmt::from_str(".9,").expect("must parse expected format");
    let result = fmt.fmt(float(123456789.87654321)).expect("must format without error");
    assert_eq!(result, "123,456,789.876543210");
}

#[test]
fn spacing_comma() {
    let fmt = NumFmt::from_str(",1").expect("must parse expected format");
    let result = fmt.fmt(123456789).expect("must format without error");
    assert_eq!(result, "1,2,3,4,5,6,7,8,9");
}

#[test]
fn spacing_space() {
    let fmt = NumFmt::from_str(" 2").expect("must parse expected format");
    let result = fmt.fmt(123456789).expect("must format without error");
    assert_eq!(result, "1 23 45 67 89");
}

#[test]
fn spacing_under() {
    let fmt = NumFmt::from_str("_3").expect("must parse expected format");
    let result = fmt.fmt(123456789).expect("must format without error");
    assert_eq!(result, "123_456_789");
}

#[test]
fn spacing_comma_float() {
    let fmt = NumFmt::from_str(",4").expect("must parse expected format");
    let result = fmt.fmt(float(123456789.0)).expect("must format without error");
    assert_eq!(result, "1,2345,6789");
}

#[test]
fn spacing_space_float() {
    let fmt = NumFmt::from_str(" 5").expect("must parse expected format");
    let result = fmt.fmt(float(123456789.0)).expect("must format without error");
    assert_eq!(result, "1234 56789");
}

#[test]
fn spacing_under_float() {
    let fmt = NumFmt::from_str("_6").expect("must parse expected format");
    let result = fmt.fmt(float(123456789.0)).expect("must format without error");
    assert_eq!(result, "123_456789");
}

#[test]
fn spacing_dyn_comma() {
    let fmt = NumFmt::from_str(",").expect("must parse expected format");
    let result = fmt.fmt_with(123456789, Dynamic::spacing(1)).expect("must format without error");
    assert_eq!(result, "1,2,3,4,5,6,7,8,9");
}

#[test]
fn spacing_dyn_space() {
    let fmt = NumFmt::from_str(" ").expect("must parse expected format");
    let result = fmt.fmt_with(123456789, Dynamic::spacing(2)).expect("must format without error");
    assert_eq!(result, "1 23 45 67 89");
}

#[test]
fn spacing_dyn_under() {
    let fmt = NumFmt::from_str("_").expect("must parse expected format");
    let result = fmt.fmt_with(123456789, Dynamic::spacing(3)).expect("must format without error");
    assert_eq!(result, "123_456_789");
}

#[test]
fn spacing_dyn_comma_float() {
    let fmt = NumFmt::from_str(",").expect("must parse expected format");
    let result = fmt.fmt_with(float(123456789.0), Dynamic::spacing(4)).expect("must format without error");
    assert_eq!(result, "1,2345,6789");
}

#[test]
fn spacing_dyn_space_float() {
    let fmt = NumFmt::from_str(" ").expect("must parse expected format");
    let result = fmt.fmt_with(float(123456789.0), Dynamic::spacing(5)).expect("must format without error");
    assert_eq!(result, "1234 56789");
}

#[test]
fn spacing_dyn_under_float() {
    let fmt = NumFmt::from_str("_").expect("must parse expected format");
    let result = fmt.fmt_with(float(123456789.0), Dynamic::spacing(6)).expect("must format without error");
    assert_eq!(result, "123_456789");
}

#[test]
fn spacing_only_pre_decimal() {
    let fmt = NumFmt::from_str(".9,7").expect("must parse expected format");
    let result = fmt.fmt(float(123456789.87654321)).expect("must format without error");
    assert_eq!(result, "12,3456789.876543210");
}

#[test]
fn german_style() {
    let fmt = NumFmt::builder()
        .separator(Some('.'))
        .decimal_separator(',')
        .precision(Some(2))
        .build();
    let have = fmt.fmt(12345).unwrap();
    assert_eq!(have, "12.345,00");
}
