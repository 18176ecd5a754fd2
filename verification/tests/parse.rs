use num_runtime_fmt::parse::{parse, Error};
use num_runtime_fmt::{Align, Base, NumFmt, Sign};

#[test]
fn parse_test_parse_re_matches() {
    for format_str in &[
        "",
        "<",
        "->",
        "#x",
        "+#04o",
        "v-10.2",
        "#04x_2",
        "-v-#012.3d 4",
    ] {
        println!("{:?}:", format_str);
        assert!(
            !matches!(parse(format_str), Err(Error::NoMatch)),
            "all valid format strings must be parsed"
        );
    }
}

#[test]
fn num_fmt_test_parse_re_matches() {
    for format_str in &[
        "",
        "<",
        "->",
        "#x",
        "+#04o",
        "v-10.2",
        "#04x_2",
        "-v-#012.3d 4",
    ] {
        println!("{:?}:", format_str);
        assert!(
            !matches!(NumFmt::from_str(format_str), Err(Error::NoMatch)),
            "all valid format strings must be parsed"
        );
    }
}

#[test]
fn empty_string_is_the_default() {
    let fmt = parse("").unwrap();
    assert_eq!(fmt, NumFmt::default());
    assert_eq!(fmt, NumFmt::builder().build());
    assert_eq!(fmt.fill(), ' ');
    assert_eq!(fmt.align(), Align::Right);
    assert_eq!(fmt.sign(), Sign::OnlyMinus);
    assert!(!fmt.hash());
    assert!(!fmt.zero());
    assert_eq!(fmt.width(), 0);
    assert_eq!(fmt.precision(), None);
    assert_eq!(fmt.base(), Base::Decimal);
    assert_eq!(fmt.separator(), None);
    assert_eq!(fmt.spacing(), 3);
    assert_eq!(fmt.decimal_separator(), '.');
}

#[test]
fn every_part_is_read() {
    let fmt = parse("*^+#012.3X_4").unwrap();
    let want = NumFmt::builder()
        .fill('*')
        .align(Align::Center)
        .sign(Sign::PlusAndMinus)
        .hash(true)
        .zero(true)
        .width(12)
        .precision(Some(3))
        .base(Base::UpperHex)
        .separator(Some('_'))
        .spacing(4)
        .build();
    assert_eq!(fmt, want);
    assert_eq!(fmt.fill(), '0');
    assert!(fmt.zero());
}

#[test]
fn fill_needs_an_alignment() {
    assert_eq!(parse("<").unwrap(), NumFmt::builder().align(Align::Left).build());
    assert_eq!(parse("<<").unwrap(), NumFmt::builder().fill('<').align(Align::Left).build());
    assert_eq!(parse("->").unwrap(), NumFmt::builder().fill('-').align(Align::Right).build());
    assert_eq!(parse("-").unwrap(), NumFmt::builder().sign(Sign::OnlyMinus).build());
    assert_eq!(parse("+").unwrap(), NumFmt::builder().sign(Sign::PlusAndMinus).build());
    assert_eq!(parse("0>-3").unwrap(), NumFmt::builder().fill('0').width(3).build());
    assert_eq!(parse("vv").unwrap(), NumFmt::builder().fill('v').align(Align::Decimal).build());
    assert_eq!(parse("\u{1F5A4}^").unwrap().fill(), '\u{1F5A4}');
    assert_eq!(parse("x"), Ok(NumFmt::builder().base(Base::LowerHex).build()));
    assert_eq!(parse("x<"), Ok(NumFmt::builder().fill('x').align(Align::Left).build()));
    assert_eq!(parse(">>>"), Err(Error::NoMatch));
    assert_eq!(parse("*"), Err(Error::NoMatch));
}

#[test]
fn alignments_signs_and_bases() {
    assert_eq!(parse("<").unwrap().align(), Align::Left);
    assert_eq!(parse("^").unwrap().align(), Align::Center);
    assert_eq!(parse(">").unwrap().align(), Align::Right);
    assert_eq!(parse("v").unwrap().align(), Align::Decimal);
    assert_eq!(parse("b").unwrap().base(), Base::Binary);
    assert_eq!(parse("o").unwrap().base(), Base::Octal);
    assert_eq!(parse("d").unwrap().base(), Base::Decimal);
    assert_eq!(parse("x").unwrap().base(), Base::LowerHex);
    assert_eq!(parse("X").unwrap().base(), Base::UpperHex);
    assert_eq!(parse("_").unwrap().separator(), Some('_'));
    assert_eq!(parse(",").unwrap().separator(), Some(','));
    assert_eq!(parse(" ").unwrap().separator(), Some(' '));
}

#[test]
fn zero_flag_needs_a_width() {
    let fmt = parse("05").unwrap();
    assert!(fmt.zero());
    assert_eq!(fmt.width(), 5);
    assert_eq!(fmt.fill(), '0');
    assert_eq!(parse("0"), Err(Error::NoMatch));
    assert_eq!(parse("00"), Err(Error::NoMatch));
    assert_eq!(parse("005"), Err(Error::NoMatch));
    assert_eq!(parse("0.5"), Err(Error::NoMatch));
    assert_eq!(parse("<05").unwrap().align(), Align::Left);
    assert_eq!(parse("105").unwrap().width(), 105);
    assert!(!parse("105").unwrap().zero());
}

#[test]
fn precision_and_spacing_may_start_with_zero() {
    assert_eq!(parse(".007").unwrap().precision(), Some(7));
    assert_eq!(parse(".0").unwrap().precision(), Some(0));
    assert_eq!(parse(",007").unwrap().spacing(), 7);
    assert_eq!(parse(",0").unwrap().spacing(), 0);
    assert_eq!(parse(",").unwrap().spacing(), 3);
    assert_eq!(parse("."), Err(Error::NoMatch));
    assert_eq!(parse("5."), Err(Error::NoMatch));
    assert_eq!(parse("3"), Ok(NumFmt::builder().width(3).build()));
    assert_eq!(parse("4"), Ok(NumFmt::builder().width(4).build()));
}

#[test]
fn what_is_no_format_string() {
    for text in [
        "a", "#+", "++", "##", "x5", "_x", "5 5 5", ",5,", "bb", ".5.5", "v<>", "1.2e3", "5\n",
        "\u{0661}", "1\u{0662}", ".\u{0663}",
    ] {
        assert_eq!(parse(text), Err(Error::NoMatch), "{:?}", text);
    }
}

#[test]
fn too_large_an_integer_is_told_with_its_digits() {
    let huge = "340282366920938463463374607431768211456";
    assert_eq!(parse(huge), Err(Error::ParseInt(huge.to_string())));
    assert_eq!(parse(&format!("<+#0{}x", huge)), Err(Error::ParseInt(huge.to_string())));
    assert_eq!(parse(&format!(".0{}", huge)), Err(Error::ParseInt(format!("0{}", huge))));
    assert_eq!(parse(&format!("_{}", huge)), Err(Error::ParseInt(huge.to_string())));
    let width = format!("1{}", huge);
    assert_eq!(parse(&format!("{}.{},{}", width, huge, huge)), Err(Error::ParseInt(width)));
    assert_eq!(parse(&format!("7.{},{}", huge, huge)), Err(Error::ParseInt(huge.to_string())));
    let most = usize::MAX.to_string();
    assert_eq!(parse(&most).unwrap().width(), usize::MAX);
    assert_eq!(parse(&format!(".{}", most)).unwrap().precision(), Some(usize::MAX));
    assert_eq!(parse(&format!(" {}", most)).unwrap().spacing(), usize::MAX);
    let beyond = format!("{}0", most);
    assert_eq!(parse(&beyond), Err(Error::ParseInt(beyond.clone())));
}

#[test]
fn from_str_is_parse() {
    for text in ["", "*^+#012.3X_4", "v-10.2", ">>>", "99999999999999999999999999999999999999999"] {
        assert_eq!(NumFmt::from_str(text), parse(text));
        assert_eq!(text.parse::<NumFmt>(), parse(text));
    }
}
