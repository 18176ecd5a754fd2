use num_runtime_fmt::{Align, Base, Builder, Dynamic, NumFmt, Sign};

#[test]
fn defaults() {
    assert_eq!(Align::default(), Align::Right);
    assert_eq!(Base::default(), Base::Decimal);
    assert_eq!(Sign::default(), Sign::OnlyMinus);
    assert_eq!(Dynamic::default(), Dynamic { width: None, precision: None, spacing: None });
    assert_eq!(Builder::default(), Builder::new());
    assert_eq!(Builder::new().build(), NumFmt::default());
    assert_eq!(NumFmt::builder(), Builder::new());
}

#[test]
fn dynamic_constructors() {
    assert_eq!(
        Dynamic::new(Some(5), Some(3), None),
        Dynamic { width: Some(5), precision: Some(3), spacing: None }
    );
    assert_eq!(Dynamic::width(7), Dynamic { width: Some(7), precision: None, spacing: None });
    assert_eq!(Dynamic::precision(8), Dynamic { width: None, precision: Some(8), spacing: None });
    assert_eq!(Dynamic::spacing(9), Dynamic { width: None, precision: None, spacing: Some(9) });
}

#[test]
fn builder_sets_each_parameter() {
    let fmt = Builder::new()
        .fill('*')
        .align(Align::Center)
        .sign(Sign::PlusAndMinus)
        .hash(true)
        .width(12)
        .precision(Some(3))
        .base(Base::Octal)
        .separator(Some('_'))
        .spacing(4)
        .decimal_separator(',')
        .build();
    assert_eq!(
        fmt,
        NumFmt {
            fill: Some('*'),
            align: Align::Center,
            sign: Sign::PlusAndMinus,
            hash: true,
            zero: false,
            width: 12,
            precision: Some(3),
            base: Base::Octal,
            separator: Some('_'),
            spacing: Some(4),
            decimal_separator: Some(','),
        }
    );
    assert_eq!(fmt.fill(), '*');
    assert_eq!(fmt.align(), Align::Center);
    assert_eq!(fmt.sign(), Sign::PlusAndMinus);
    assert!(fmt.hash());
    assert!(!fmt.zero());
    assert_eq!(fmt.width(), 12);
    assert_eq!(fmt.precision(), Some(3));
    assert_eq!(fmt.base(), Base::Octal);
    assert_eq!(fmt.separator(), Some('_'));
    assert_eq!(fmt.spacing(), 4);
    assert_eq!(fmt.decimal_separator(), ',');
}

#[test]
fn builder_zero_sets_and_clears_the_fill() {
    let set = Builder::new().fill('*').zero(true).build();
    assert!(set.zero());
    assert_eq!(set.fill, Some('0'));
    let cleared = Builder::new().fill('*').zero(false).build();
    assert!(!cleared.zero());
    assert_eq!(cleared.fill, None);
    assert_eq!(cleared.fill(), ' ');
    let again = Builder::from(set).zero(false).build();
    assert_eq!(again, NumFmt::default());
    let refilled = Builder::new().zero(true).fill('*').build();
    assert!(refilled.zero());
    assert_eq!(refilled.fmt(7).unwrap(), "7");
    assert_eq!(Builder::from(refilled).width(3).build().fmt(7).unwrap(), "007");
}

#[test]
fn builder_from_formatter_and_back() {
    let fmt = NumFmt::from_str("*^+#12.3X_4").unwrap();
    assert_eq!(Builder::from(fmt).build(), fmt);
    assert_eq!(Builder::from(fmt).width(5).build().width(), 5);
    assert_eq!(Builder::from(fmt).width(5).build().precision(), Some(3));
}
