//! The patterns that a number input checks its text against, one per
//! family of numeric types, matched by the `regex` crate.
use vstd::prelude::*;

use regex::Regex;
use rust_decimal::Decimal;

verus! {

/// `regex::Regex`, a compiled pattern, carried as an opaque value.
#[verifier::external_type_specification]
#[verifier::external_body]
pub struct ExRegex(Regex);

/// `rust_decimal::Decimal`, which has a number format of its own.
#[verifier::external_type_specification]
#[verifier::external_body]
pub struct ExDecimal(Decimal);

/// The families of numeric types, each with its own text format.
#[derive(Clone, Copy, Debug, PartialEq, Eq, Structural)]
pub enum NumberFormat {
    /// An optional sign, then `0` or digits without a leading zero.
    SignedInteger,
    /// `0` or digits without a leading zero.
    UnsignedInteger,
    /// Decimals (a point only between digits, or before them) and scientific
    /// notation with an optional sign, or `inf`, `infinity`, `nan`.
    Float,
    /// Decimals and scientific notation with an optional sign.
    Decimal,
}

pub const SIGNED_INTEGER_PATTERN: &'static str = "^[+-]?(?:0|[1-9]\\d*)$";

pub const UNSIGNED_INTEGER_PATTERN: &'static str = "^(?:0|[1-9]\\d*)$";

pub const FLOAT_PATTERN: &'static str =
    "^[+-]?(?:(?:\\d+(?:\\.\\d+)?|\\.\\d+)(?:[eE][+-]?\\d+)?|inf|infinity|nan)$";

pub const DECIMAL_PATTERN: &'static str = "^[+-]?(?:\\d+\\.?\\d*|\\.\\d+)(?:[eE][+-]?\\d+)?$";

/// The pattern of a number format.
pub open spec fn pattern_of(format: NumberFormat) -> Seq<char> {
    match format {
        NumberFormat::SignedInteger => SIGNED_INTEGER_PATTERN@,
        NumberFormat::UnsignedInteger => UNSIGNED_INTEGER_PATTERN@,
        NumberFormat::Float => FLOAT_PATTERN@,
        NumberFormat::Decimal => DECIMAL_PATTERN@,
    }
}

pub open spec fn is_number_pattern(p: Seq<char>) -> bool {
    p == SIGNED_INTEGER_PATTERN@ || p == UNSIGNED_INTEGER_PATTERN@ || p == FLOAT_PATTERN@ || p
        == DECIMAL_PATTERN@
}

pub fn pattern(format: NumberFormat) -> (r: &'static str)
    ensures
        r@ == pattern_of(format),
{
    match format {
        NumberFormat::SignedInteger => SIGNED_INTEGER_PATTERN,
        NumberFormat::UnsignedInteger => UNSIGNED_INTEGER_PATTERN,
        NumberFormat::Float => FLOAT_PATTERN,
        NumberFormat::Decimal => DECIMAL_PATTERN,
    }
}

/// Whether the `regex` crate finds a match of `pattern` in `haystack`.
pub uninterp spec fn regex_matches(pattern: Seq<char>, haystack: Seq<char>) -> bool;

/// Relies on `regex::Regex::new`, which returns an error only for an invalid
/// or oversized pattern; the four number patterns are neither.
#[verifier::external_body]
fn compile_number_pattern(p: &'static str) -> (r: Regex)
    requires
        is_number_pattern(p@),
{
    Regex::new(p).unwrap()
}

/// A compiled number pattern, kept with its source.
pub struct NumberPattern {
    source: &'static str,
    compiled: Regex,
}

impl NumberPattern {
    /// The pattern this was compiled from.
    pub closed spec fn source_view(&self) -> Seq<char> {
        self.source@
    }

    pub fn new(format: NumberFormat) -> (r: Self)
        ensures
            r.source_view() == pattern_of(format),
    {
        let source = pattern(format);
        NumberPattern { source, compiled: compile_number_pattern(source) }
    }

    pub fn as_str(&self) -> (r: &'static str)
        ensures
            r@ == self.source_view(),
    {
        self.source
    }

    /// The compiled pattern, as a text input takes it.
    pub fn regex(&self) -> (r: &Regex) {
        &self.compiled
    }

    /// Relies on `regex::Regex::is_match`: whether the pattern this was
    /// compiled from matches somewhere in `text`.
    #[verifier::external_body]
    fn compiled_is_match(&self, text: &str) -> (r: bool)
        ensures
            r == regex_matches(self.source_view(), text@),
    {
        self.compiled.is_match(text)
    }

    /// Whether `text` is accepted: the pattern is anchored at both ends, so a
    /// match covers the whole text.
    pub fn is_match(&self, text: &str) -> (r: bool)
        ensures
            r == regex_matches(self.source_view(), text@),
    {
        self.compiled_is_match(text)
    }
}

/// A numeric type whose text a number input validates.
pub trait NumRegex {
    spec fn number_format() -> NumberFormat;

    fn validation_regex() -> (r: NumberPattern)
        ensures
            r.source_view() == pattern_of(Self::number_format()),
    ;
}

impl NumRegex for i8 {
    open spec fn number_format() -> NumberFormat {
        NumberFormat::SignedInteger
    }

    fn validation_regex() -> (r: NumberPattern) {
        NumberPattern::new(NumberFormat::SignedInteger)
    }
}

impl NumRegex for i16 {
    open spec fn number_format() -> NumberFormat {
        NumberFormat::SignedInteger
    }

    fn validation_regex() -> (r: NumberPattern) {
        NumberPattern::new(NumberFormat::SignedInteger)
    }
}

impl NumRegex for i32 {
    open spec fn number_format() -> NumberFormat {
        NumberFormat::SignedInteger
    }

    fn validation_regex() -> (r: NumberPattern) {
        NumberPattern::new(NumberFormat::SignedInteger)
    }
}

impl NumRegex for i64 {
    open spec fn number_format() -> NumberFormat {
        NumberFormat::SignedInteger
    }

    fn validation_regex() -> (r: NumberPattern) {
        NumberPattern::new(NumberFormat::SignedInteger)
    }
}

impl NumRegex for i128 {
    open spec fn number_format() -> NumberFormat {
        NumberFormat::SignedInteger
    }

    fn validation_regex() -> (r: NumberPattern) {
        NumberPattern::new(NumberFormat::SignedInteger)
    }
}

impl NumRegex for isize {
    open spec fn number_format() -> NumberFormat {
        NumberFormat::SignedInteger
    }

    fn validation_regex() -> (r: NumberPattern) {
        NumberPattern::new(NumberFormat::SignedInteger)
    }
}

impl NumRegex for u8 {
    open spec fn number_format() -> NumberFormat {
        NumberFormat::UnsignedInteger
    }

    fn validation_regex() -> (r: NumberPattern) {
        NumberPattern::new(NumberFormat::UnsignedInteger)
    }
}

impl NumRegex for u16 {
    open spec fn number_format() -> NumberFormat {
        NumberFormat::UnsignedInteger
    }

    fn validation_regex() -> (r: NumberPattern) {
        NumberPattern::new(NumberFormat::UnsignedInteger)
    }
}

impl NumRegex for u32 {
    open spec fn number_format() -> NumberFormat {
        NumberFormat::UnsignedInteger
    }

    fn validation_regex() -> (r: NumberPattern) {
        NumberPattern::new(NumberFormat::UnsignedInteger)
    }
}

impl NumRegex for u64 {
    open spec fn number_format() -> NumberFormat {
        NumberFormat::UnsignedInteger
    }

    fn validation_regex() -> (r: NumberPattern) {
        NumberPattern::new(NumberFormat::UnsignedInteger)
    }
}

impl NumRegex for u128 {
    open spec fn number_format() -> NumberFormat {
        NumberFormat::UnsignedInteger
    }

    fn validation_regex() -> (r: NumberPattern) {
        NumberPattern::new(NumberFormat::UnsignedInteger)
    }
}

impl NumRegex for usize {
    open spec fn number_format() -> NumberFormat {
        NumberFormat::UnsignedInteger
    }

    fn validation_regex() -> (r: NumberPattern) {
        NumberPattern::new(NumberFormat::UnsignedInteger)
    }
}

impl NumRegex for Decimal {
    open spec fn number_format() -> NumberFormat {
        NumberFormat::Decimal
    }

    fn validation_regex() -> (r: NumberPattern) {
        NumberPattern::new(NumberFormat::Decimal)
    }
}
} // verus!
