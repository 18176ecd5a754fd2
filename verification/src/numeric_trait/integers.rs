//! [`Numeric`] for the integer types.
//!
//! Every base is supported. The digits are those of the magnitude; a negative number is
//! told apart by `is_negative` alone.
use crate::base::Base;
use crate::numeric_trait::impls::{
    digits_lsb, lemma_digits_lsb_legal, radix_of, BinIter, HexIter, OctIter,
};
use crate::numeric_trait::{all_digits_of, Numeric};
use vstd::prelude::*;

verus! {

/// The digits of the integer `n` in `base`, least significant first, as the integer types
/// give them: in base `Decimal` zero has the digit `0`, in the other bases it has none.
pub open spec fn natural_digits(n: nat, base: Base) -> Seq<char> {
    if base is Decimal && n == 0 {
        seq!['0']
    } else {
        digits_lsb(n, radix_of(base))
    }
}

/// The magnitude of `x`.
pub open spec fn magnitude(x: int) -> nat {
    if x < 0 {
        (-x) as nat
    } else {
        x as nat
    }
}

/// The magnitude of `x`.
fn magnitude_of(x: i128) -> (m: u128)
    ensures
        m == magnitude(x as int),
{
    if x >= 0 {
        x as u128
    } else if x == i128::MIN {
        0x8000_0000_0000_0000_0000_0000_0000_0000u128
    } else {
        (-x) as u128
    }
}

fn binary_of(n: u128) -> (r: Option<Vec<char>>)
    ensures
        r matches Some(d) && d@ == natural_digits(n as nat, Base::Binary) && all_digits_of(
            d@,
            Base::Binary,
        ),
{
    proof {
        lemma_digits_lsb_legal(n as nat, Base::Binary);
    }
    Some(BinIter::new(n).into_vec())
}

fn octal_of(n: u128) -> (r: Option<Vec<char>>)
    ensures
        r matches Some(d) && d@ == natural_digits(n as nat, Base::Octal) && all_digits_of(
            d@,
            Base::Octal,
        ),
{
    proof {
        lemma_digits_lsb_legal(n as nat, Base::Octal);
    }
    Some(OctIter::new(n).into_vec())
}

fn hex_of(n: u128) -> (r: Option<Vec<char>>)
    ensures
        r matches Some(d) && d@ == natural_digits(n as nat, Base::LowerHex) && all_digits_of(
            d@,
            Base::LowerHex,
        ),
{
    proof {
        lemma_digits_lsb_legal(n as nat, Base::LowerHex);
    }
    Some(HexIter::new(n).into_vec())
}

fn decimal_of(n: u128) -> (r: (Vec<char>, Option<Vec<char>>))
    ensures
        r.0@ == natural_digits(n as nat, Base::Decimal),
        all_digits_of(r.0@, Base::Decimal),
        r.1 is None,
{
    proof {
        lemma_digits_lsb_legal(n as nat, Base::Decimal);
    }
    let mut digits: Vec<char> = Vec::new();
    if n == 0 {
        digits.push('0');
        return (digits, None);
    }
    let mut rest = n;
    while rest != 0
        invariant
            digits_lsb(n as nat, 10) == digits@ + digits_lsb(rest as nat, 10),
        decreases rest,
    {
        let d = (rest % 10) as u8;
        let ghost before = digits_lsb(rest as nat, 10);
        rest = rest / 10;
        digits.push((d + 48) as char);
        assert(before == seq![(d + 48) as char] + digits_lsb(rest as nat, 10));
    }
    assert(digits_lsb(n as nat, 10) == digits@);
    (digits, None)
}

impl Numeric for u8 {
    open spec fn supports(base: Base) -> bool {
        true
    }

    open spec fn digits(&self, base: Base) -> Seq<char> {
        natural_digits(*self as nat, base)
    }

    open spec fn fraction(&self) -> Option<Seq<char>> {
        None
    }

    open spec fn negative(&self) -> bool {
        false
    }

    fn binary(&self) -> (r: Option<Vec<char>>) {
        binary_of(*self as u128)
    }

    fn octal(&self) -> (r: Option<Vec<char>>) {
        octal_of(*self as u128)
    }

    fn decimal(&self) -> (r: (Vec<char>, Option<Vec<char>>)) {
        decimal_of(*self as u128)
    }

    fn hex(&self) -> (r: Option<Vec<char>>) {
        hex_of(*self as u128)
    }

    fn is_negative(&self) -> (r: bool) {
        false
    }
}

impl Numeric for u16 {
    open spec fn supports(base: Base) -> bool {
        true
    }

    open spec fn digits(&self, base: Base) -> Seq<char> {
        natural_digits(*self as nat, base)
    }

    open spec fn fraction(&self) -> Option<Seq<char>> {
        None
    }

    open spec fn negative(&self) -> bool {
        false
    }

    fn binary(&self) -> (r: Option<Vec<char>>) {
        binary_of(*self as u128)
    }

    fn octal(&self) -> (r: Option<Vec<char>>) {
        octal_of(*self as u128)
    }

    fn decimal(&self) -> (r: (Vec<char>, Option<Vec<char>>)) {
        decimal_of(*self as u128)
    }

    fn hex(&self) -> (r: Option<Vec<char>>) {
        hex_of(*self as u128)
    }

    fn is_negative(&self) -> (r: bool) {
        false
    }
}

impl Numeric for u32 {
    open spec fn supports(base: Base) -> bool {
        true
    }

    open spec fn digits(&self, base: Base) -> Seq<char> {
        natural_digits(*self as nat, base)
    }

    open spec fn fraction(&self) -> Option<Seq<char>> {
        None
    }

    open spec fn negative(&self) -> bool {
        false
    }

    fn binary(&self) -> (r: Option<Vec<char>>) {
        binary_of(*self as u128)
    }

    fn octal(&self) -> (r: Option<Vec<char>>) {
        octal_of(*self as u128)
    }

    fn decimal(&self) -> (r: (Vec<char>, Option<Vec<char>>)) {
        decimal_of(*self as u128)
    }

    fn hex(&self) -> (r: Option<Vec<char>>) {
        hex_of(*self as u128)
    }

    fn is_negative(&self) -> (r: bool) {
        false
    }
}

impl Numeric for u64 {
    open spec fn supports(base: Base) -> bool {
        true
    }

    open spec fn digits(&self, base: Base) -> Seq<char> {
        natural_digits(*self as nat, base)
    }

    open spec fn fraction(&self) -> Option<Seq<char>> {
        None
    }

    open spec fn negative(&self) -> bool {
        false
    }

    fn binary(&self) -> (r: Option<Vec<char>>) {
        binary_of(*self as u128)
    }

    fn octal(&self) -> (r: Option<Vec<char>>) {
        octal_of(*self as u128)
    }

    fn decimal(&self) -> (r: (Vec<char>, Option<Vec<char>>)) {
        decimal_of(*self as u128)
    }

    fn hex(&self) -> (r: Option<Vec<char>>) {
        hex_of(*self as u128)
    }

    fn is_negative(&self) -> (r: bool) {
        false
    }
}

impl Numeric for u128 {
    open spec fn supports(base: Base) -> bool {
        true
    }

    open spec fn digits(&self, base: Base) -> Seq<char> {
        natural_digits(*self as nat, base)
    }

    open spec fn fraction(&self) -> Option<Seq<char>> {
        None
    }

    open spec fn negative(&self) -> bool {
        false
    }

    fn binary(&self) -> (r: Option<Vec<char>>) {
        binary_of(*self)
    }

    fn octal(&self) -> (r: Option<Vec<char>>) {
        octal_of(*self)
    }

    fn decimal(&self) -> (r: (Vec<char>, Option<Vec<char>>)) {
        decimal_of(*self)
    }

    fn hex(&self) -> (r: Option<Vec<char>>) {
        hex_of(*self)
    }

    fn is_negative(&self) -> (r: bool) {
        false
    }
}

impl Numeric for usize {
    open spec fn supports(base: Base) -> bool {
        true
    }

    open spec fn digits(&self, base: Base) -> Seq<char> {
        natural_digits(*self as nat, base)
    }

    open spec fn fraction(&self) -> Option<Seq<char>> {
        None
    }

    open spec fn negative(&self) -> bool {
        false
    }

    fn binary(&self) -> (r: Option<Vec<char>>) {
        binary_of(*self as u128)
    }

    fn octal(&self) -> (r: Option<Vec<char>>) {
        octal_of(*self as u128)
    }

    fn decimal(&self) -> (r: (Vec<char>, Option<Vec<char>>)) {
        decimal_of(*self as u128)
    }

    fn hex(&self) -> (r: Option<Vec<char>>) {
        hex_of(*self as u128)
    }

    fn is_negative(&self) -> (r: bool) {
        false
    }
}

impl Numeric for i16 {
    open spec fn supports(base: Base) -> bool {
        true
    }

    open spec fn digits(&self, base: Base) -> Seq<char> {
        natural_digits(magnitude(*self as int), base)
    }

    open spec fn fraction(&self) -> Option<Seq<char>> {
        None
    }

    open spec fn negative(&self) -> bool {
        *self < 0
    }

    fn binary(&self) -> (r: Option<Vec<char>>) {
        binary_of(magnitude_of(*self as i128))
    }

    fn octal(&self) -> (r: Option<Vec<char>>) {
        octal_of(magnitude_of(*self as i128))
    }

    fn decimal(&self) -> (r: (Vec<char>, Option<Vec<char>>)) {
        decimal_of(magnitude_of(*self as i128))
    }

    fn hex(&self) -> (r: Option<Vec<char>>) {
        hex_of(magnitude_of(*self as i128))
    }

    fn is_negative(&self) -> (r: bool) {
        *self < 0
    }
}

impl Numeric for i32 {
    open spec fn supports(base: Base) -> bool {
        true
    }

    open spec fn digits(&self, base: Base) -> Seq<char> {
        natural_digits(magnitude(*self as int), base)
    }

    open spec fn fraction(&self) -> Option<Seq<char>> {
        None
    }

    open spec fn negative(&self) -> bool {
        *self < 0
    }

    fn binary(&self) -> (r: Option<Vec<char>>) {
        binary_of(magnitude_of(*self as i128))
    }

    fn octal(&self) -> (r: Option<Vec<char>>) {
        octal_of(magnitude_of(*self as i128))
    }

    fn decimal(&self) -> (r: (Vec<char>, Option<Vec<char>>)) {
        decimal_of(magnitude_of(*self as i128))
    }

    fn hex(&self) -> (r: Option<Vec<char>>) {
        hex_of(magnitude_of(*self as i128))
    }

    fn is_negative(&self) -> (r: bool) {
        *self < 0
    }
}

impl Numeric for i64 {
    open spec fn supports(base: Base) -> bool {
        true
    }

    open spec fn digits(&self, base: Base) -> Seq<char> {
        natural_digits(magnitude(*self as int), base)
    }

    open spec fn fraction(&self) -> Option<Seq<char>> {
        None
    }

    open spec fn negative(&self) -> bool {
        *self < 0
    }

    fn binary(&self) -> (r: Option<Vec<char>>) {
        binary_of(magnitude_of(*self as i128))
    }

    fn octal(&self) -> (r: Option<Vec<char>>) {
        octal_of(magnitude_of(*self as i128))
    }

    fn decimal(&self) -> (r: (Vec<char>, Option<Vec<char>>)) {
        decimal_of(magnitude_of(*self as i128))
    }

    fn hex(&self) -> (r: Option<Vec<char>>) {
        hex_of(magnitude_of(*self as i128))
    }

    fn is_negative(&self) -> (r: bool) {
        *self < 0
    }
}

impl Numeric for i128 {
    open spec fn supports(base: Base) -> bool {
        true
    }

    open spec fn digits(&self, base: Base) -> Seq<char> {
        natural_digits(magnitude(*self as int), base)
    }

    open spec fn fraction(&self) -> Option<Seq<char>> {
        None
    }

    open spec fn negative(&self) -> bool {
        *self < 0
    }

    fn binary(&self) -> (r: Option<Vec<char>>) {
        binary_of(magnitude_of(*self))
    }

    fn octal(&self) -> (r: Option<Vec<char>>) {
        octal_of(magnitude_of(*self))
    }

    fn decimal(&self) -> (r: (Vec<char>, Option<Vec<char>>)) {
        decimal_of(magnitude_of(*self))
    }

    fn hex(&self) -> (r: Option<Vec<char>>) {
        hex_of(magnitude_of(*self))
    }

    fn is_negative(&self) -> (r: bool) {
        *self < 0
    }
}

impl Numeric for isize {
    open spec fn supports(base: Base) -> bool {
        true
    }

    open spec fn digits(&self, base: Base) -> Seq<char> {
        natural_digits(magnitude(*self as int), base)
    }

    open spec fn fraction(&self) -> Option<Seq<char>> {
        None
    }

    open spec fn negative(&self) -> bool {
        *self < 0
    }

    fn binary(&self) -> (r: Option<Vec<char>>) {
        binary_of(magnitude_of(*self as i128))
    }

    fn octal(&self) -> (r: Option<Vec<char>>) {
        octal_of(magnitude_of(*self as i128))
    }

    fn decimal(&self) -> (r: (Vec<char>, Option<Vec<char>>)) {
        decimal_of(magnitude_of(*self as i128))
    }

    fn hex(&self) -> (r: Option<Vec<char>>) {
        hex_of(magnitude_of(*self as i128))
    }

    fn is_negative(&self) -> (r: bool) {
        *self < 0
    }
}

} // verus!
