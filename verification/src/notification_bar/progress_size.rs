//! Locale-aware writing of byte counts (for example `1.50 KB`).

use vstd::prelude::*;

use crate::text::{
    dec_digits, digit_to_char, push_char, push_str, str_eq, two_digits, u64_to_text,
};

verus! {

/// Size units for file size representation (base 1024).
#[derive(Clone, Copy, Debug, PartialEq, Eq, Structural)]
pub enum Unit {
    /// Bytes.
    Bytes,
    /// Kilobytes, 1024 bytes.
    KiloBytes,
    /// Megabytes, 1024 kilobytes.
    MegaBytes,
    /// Gigabytes, 1024 megabytes.
    GigaBytes,
}

/// Languages that separate thousands with a comma.
pub open spec fn uses_comma_separator(lang: Seq<char>) -> bool {
    lang == "hi"@ || lang == "bn"@
}

/// Languages that separate thousands with a space.
pub open spec fn uses_space_separator(lang: Seq<char>) -> bool {
    lang == "fi"@
}

/// Languages that write the decimal point as a comma.
pub open spec fn uses_comma_decimal_point(lang: Seq<char>) -> bool {
    lang == "sl"@ || lang == "lt"@ || lang == "fi"@ || lang == "nl"@ || lang == "da"@
}

/// Languages that put a space between the number and the unit.
pub open spec fn uses_space_before_unit(lang: Seq<char>) -> bool {
    lang == "sl"@ || lang == "lt"@ || lang == "hi"@ || lang == "fi"@ || lang == "nl"@ || lang
        == "da"@ || lang == "my"@ || lang == "bn"@ || lang == "zh-Hant"@ || lang == "en"@
}

/// Languages that write `T` instead of `B` in units (`KT` for `KB`).
pub open spec fn uses_t_units(lang: Seq<char>) -> bool {
    lang == "fi"@
}

/// The written unit in a language.
pub open spec fn unit_text(u: Unit, lang: Seq<char>) -> Seq<char> {
    if uses_t_units(lang) {
        match u {
            Unit::Bytes => "T"@,
            Unit::KiloBytes => "KT"@,
            Unit::MegaBytes => "MT"@,
            Unit::GigaBytes => "GT"@,
        }
    } else {
        match u {
            Unit::Bytes => "B"@,
            Unit::KiloBytes => "KB"@,
            Unit::MegaBytes => "MB"@,
            Unit::GigaBytes => "GB"@,
        }
    }
}

/// The thousands separator of a language (possibly empty).
pub open spec fn separator_text(lang: Seq<char>) -> Seq<char> {
    if uses_comma_separator(lang) {
        ","@
    } else if uses_space_separator(lang) {
        " "@
    } else {
        ""@
    }
}

/// The decimal point of a language.
pub open spec fn decimal_point_text(lang: Seq<char>) -> Seq<char> {
    if uses_comma_decimal_point(lang) {
        ","@
    } else {
        "."@
    }
}

/// Digits with `sep` between groups of three, counted from the right.
pub open spec fn group_thousands(d: Seq<char>, sep: Seq<char>) -> Seq<char>
    decreases d.len(),
{
    if d.len() <= 3 {
        d
    } else {
        group_thousands(d.take(d.len() - 3), sep) + sep + d.skip(d.len() - 3)
    }
}

/// The unit a byte count is shown in.
pub open spec fn unit_for(current: nat) -> Unit {
    if current < 1024 {
        Unit::Bytes
    } else if current < 1048576 {
        Unit::KiloBytes
    } else if current < 1073741824 {
        Unit::MegaBytes
    } else {
        Unit::GigaBytes
    }
}

/// The number of bytes in a unit.
pub open spec fn unit_bytes(u: Unit) -> nat {
    match u {
        Unit::Bytes => 1,
        Unit::KiloBytes => 1024,
        Unit::MegaBytes => 1048576,
        Unit::GigaBytes => 1073741824,
    }
}

/// 2 to the 53rd: integers below it have an exact 64-bit float value.
pub open spec fn float_exact_limit() -> nat {
    9007199254740992
}

/// The spacing of the 64-bit floats near `x`: 1 below 2^53, doubling with
/// each further bit of `x`.
pub open spec fn float_spacing(x: nat) -> nat
    decreases x,
{
    if x < float_exact_limit() {
        1
    } else {
        2 * float_spacing(x / 2)
    }
}

/// The value of `x` as a 64-bit float: `x` rounded to the nearest multiple
/// of the float spacing, ties to the even multiple.
pub open spec fn float_value(x: nat) -> nat {
    let g = float_spacing(x);
    let q = x / g;
    let r = x % g;
    if 2 * r > g || (2 * r == g && q % 2 == 1) {
        (q + 1) * g
    } else {
        q * g
    }
}

/// The whole units of a byte count.
pub open spec fn size_integer(current: nat) -> nat {
    float_value(current) / unit_bytes(unit_for(current))
}

/// The hundredths of a unit beyond the whole units, rounded down.
pub open spec fn size_hundredths(current: nat) -> nat {
    let u = unit_bytes(unit_for(current));
    (float_value(current) % u) * 100 / u
}

/// A byte count written for a language: the whole units with thousands
/// separators, for units above bytes a decimal point and two decimals
/// (rounded down), an optional space, and the unit.
pub open spec fn size_text(current: nat, lang: Seq<char>) -> Seq<char> {
    let u = unit_for(current);
    let integer = group_thousands(dec_digits(size_integer(current)), separator_text(lang));
    let decimals = if u == Unit::Bytes {
        Seq::<char>::empty()
    } else {
        decimal_point_text(lang) + two_digits(size_hundredths(current))
    };
    let space = if uses_space_before_unit(lang) {
        " "@
    } else {
        ""@
    };
    integer + decimals + space + unit_text(u, lang)
}

impl Unit {
    /// The written unit for a language.
    pub fn as_str(&self, lang: &str) -> (r: &'static str)
        ensures
            r@ == unit_text(*self, lang@),
    {
        if str_eq(lang, "fi") {
            match self {
                Unit::Bytes => "T",
                Unit::KiloBytes => "KT",
                Unit::MegaBytes => "MT",
                Unit::GigaBytes => "GT",
            }
        } else {
            match self {
                Unit::Bytes => "B",
                Unit::KiloBytes => "KB",
                Unit::MegaBytes => "MB",
                Unit::GigaBytes => "GB",
            }
        }
    }
}

/// A size split into the parts that are written.
struct FormattedSize {
    /// Whole units.
    integer: u64,
    /// Two-digit hundredths, for units above bytes.
    decimal: Option<String>,
    /// The written unit.
    unit_str: &'static str,
}

impl FormattedSize {
    /// The thousands separator for a language.
    fn separator(&self, lang: &str) -> (r: &'static str)
        ensures
            r@ == separator_text(lang@),
    {
        if str_eq(lang, "hi") || str_eq(lang, "bn") {
            ","
        } else if str_eq(lang, "fi") {
            " "
        } else {
            ""
        }
    }

    /// The decimal point for a language, empty when there are no decimals.
    fn decimal_point(&self, lang: &str) -> (r: &'static str)
        ensures
            r@ == if self.decimal.is_none() {
                ""@
            } else {
                decimal_point_text(lang@)
            },
    {
        if self.decimal.is_none() {
            return "";
        }
        if str_eq(lang, "sl") || str_eq(lang, "lt") || str_eq(lang, "fi") || str_eq(lang, "nl")
            || str_eq(lang, "da") {
            ","
        } else {
            "."
        }
    }

    /// Whether a language puts a space between the number and the unit.
    fn needs_space_before_unit(&self, lang: &str) -> (r: bool)
        ensures
            r == uses_space_before_unit(lang@),
    {
        str_eq(lang, "sl") || str_eq(lang, "lt") || str_eq(lang, "hi") || str_eq(lang, "fi")
            || str_eq(lang, "nl") || str_eq(lang, "da") || str_eq(lang, "my") || str_eq(lang, "bn")
            || str_eq(lang, "zh-Hant") || str_eq(lang, "en")
    }

    /// The whole units with thousands separators.
    fn integer_format_with_separator(&self, separator: &str) -> (r: String)
        ensures
            r@ == group_thousands(dec_digits(self.integer as nat), separator@),
    {
        let digits = u64_to_text(self.integer);
        let chars = crate::text::chars_of(digits.as_str());
        let r = group_digits(&chars, chars.len(), separator);
        assert(chars@.take(chars@.len() as int) == chars@);
        r
    }

    /// The size written for a language.
    fn with_locale(&self, lang: &str) -> (r: String)
        ensures
            r@ == group_thousands(dec_digits(self.integer as nat), separator_text(lang@))
                + (if self.decimal.is_none() {
                ""@
            } else {
                decimal_point_text(lang@)
            }) + (match self.decimal {
                Some(d) => d@,
                None => ""@,
            }) + (if uses_space_before_unit(lang@) {
                " "@
            } else {
                ""@
            }) + self.unit_str@,
    {
        let separator = self.separator(lang);
        let decimal_point = self.decimal_point(lang);
        let space = if self.needs_space_before_unit(lang) {
            " "
        } else {
            ""
        };
        let mut r = self.integer_format_with_separator(separator);
        push_str(&mut r, decimal_point);
        match &self.decimal {
            Some(d) => push_str(&mut r, d.as_str()),
            None => push_str(&mut r, ""),
        }
        push_str(&mut r, space);
        push_str(&mut r, self.unit_str);
        r
    }
}

/// The first `end` digits with separators between groups of three,
/// counted from the right.
fn group_digits(d: &Vec<char>, end: usize, sep: &str) -> (r: String)
    requires
        end <= d@.len(),
    ensures
        r@ == group_thousands(d@.take(end as int), sep@),
    decreases end,
{
    if end <= 3 {
        let mut r = String::new();
        let mut i: usize = 0;
        while i < end
            invariant
                end <= d@.len(),
                i <= end,
                r@ == d@.take(i as int),
            decreases end - i,
        {
            push_char(&mut r, d[i]);
            assert(d@.take(i + 1) == d@.take(i as int).push(d@[i as int]));
            i = i + 1;
        }
        r
    } else {
        let mut r = group_digits(d, end - 3, sep);
        push_str(&mut r, sep);
        push_char(&mut r, d[end - 3]);
        push_char(&mut r, d[end - 2]);
        push_char(&mut r, d[end - 1]);
        proof {
            let t = d@.take(end as int);
            assert(t.take(t.len() - 3) =~= d@.take(end - 3));
            assert(t.skip(t.len() - 3) =~= seq![d@[end - 3], d@[end - 2], d@[end - 1]]);
        }
        r
    }
}

/// The unit a byte count is shown in.
fn unit_of(current: u64) -> (u: Unit)
    ensures
        u == unit_for(current as nat),
{
    if current < 1024 {
        Unit::Bytes
    } else if current < 1048576 {
        Unit::KiloBytes
    } else if current < 1073741824 {
        Unit::MegaBytes
    } else {
        Unit::GigaBytes
    }
}

/// The number of bytes in a unit.
fn bytes_of(u: Unit) -> (r: u128)
    ensures
        r == unit_bytes(u),
{
    match u {
        Unit::Bytes => 1,
        Unit::KiloBytes => 1024,
        Unit::MegaBytes => 1048576,
        Unit::GigaBytes => 1073741824,
    }
}

/// The value of a byte count as a 64-bit float.
fn to_float_value(x: u64) -> (r: u128)
    ensures
        r == float_value(x as nat),
        r < 0x4000_0000_0000_0000_0u128,
{
    let limit: u128 = 9007199254740992;
    let xx: u128 = x as u128;
    let mut y: u128 = xx;
    let mut g: u128 = 1;
    while y >= limit
        invariant
            xx == x as nat,
            limit == float_exact_limit(),
            g >= 1,
            y == xx / g,
            float_spacing(xx as nat) == g * float_spacing(y as nat),
            g == 1 || y >= 4503599627370496,
            g * y <= xx,
        decreases y,
    {
        proof {
            vstd::arithmetic::div_mod::lemma_div_denominator(xx as int, g as int, 2);
            assert(float_spacing(y as nat) == 2 * float_spacing((y / 2) as nat));
            assert(g * float_spacing(y as nat) == (g * 2) * float_spacing((y / 2) as nat))
                by (nonlinear_arith)
                requires
                    float_spacing(y as nat) == 2 * float_spacing((y / 2) as nat),
            ;
            assert((g * 2) * (y / 2) <= g * y) by (nonlinear_arith)
                requires
                    g >= 1,
                    y >= 0,
            ;
            assert(g * y <= 0xffff_ffff_ffff_ffffu128) by (nonlinear_arith)
                requires
                    g * y <= xx,
                    xx <= 0xffff_ffff_ffff_ffffu128,
            ;
            assert(g < 0x1_0000_0000_0000u128) by (nonlinear_arith)
                requires
                    g * y <= 0xffff_ffff_ffff_ffffu128,
                    y >= 4503599627370496,
                    g >= 1,
            ;
        }
        y = y / 2;
        g = g * 2;
    }
    proof {
        assert(float_spacing(y as nat) == 1);
        assert(g < 0x1000u128) by (nonlinear_arith)
            requires
                g == 1 || y >= 4503599627370496,
                g * y <= 0xffff_ffff_ffff_ffffu128,
                g >= 1,
        ;
    }
    let q = xx / g;
    let r = xx % g;
    assert(q == y);
    let up = 2 * r > g || (2 * r == g && q % 2 == 1);
    proof {
        assert((q + 1) * g < 0x4000_0000_0000_0000_0u128) by (nonlinear_arith)
            requires
                q < 9007199254740992,
                g < 0x1000u128,
        ;
        assert(q * g <= (q + 1) * g) by (nonlinear_arith)
            requires
                g >= 1,
        ;
    }
    if up {
        (q + 1) * g
    } else {
        q * g
    }
}

/// Writes a byte count for the given language, for example `1.50 KB` for
/// 1536 bytes in English: whole units with the language's thousands
/// separator, for units above bytes the language's decimal point and two
/// decimals rounded down, the language's spacing and its written unit.
/// The count is taken at the precision of a 64-bit float, so below 2^53
/// bytes it is exact.
pub fn progress_size(current: u64, lang: &str) -> (r: String)
    ensures
        r@ == size_text(current as nat, lang@),
{
    let unit = unit_of(current);
    let bytes = bytes_of(unit);
    let value = to_float_value(current);
    let integer_wide = value / bytes;
    proof {
        assert(integer_wide <= value);
        if unit != Unit::Bytes {
            assert(integer_wide <= value / 1024) by (nonlinear_arith)
                requires
                    bytes >= 1024,
                    integer_wide == value / bytes,
            ;
        } else {
            assert(value == current) by {
                assert(float_spacing(current as nat) == 1);
            }
        }
    }
    let integer = integer_wide as u64;
    let decimal = if unit == Unit::Bytes {
        None
    } else {
        let hundredths = (value % bytes) * 100 / bytes;
        proof {
            assert(hundredths < 100) by (nonlinear_arith)
                requires
                    bytes > 0,
                    hundredths == (value % bytes) * 100 / (bytes as int),
                    value % bytes < bytes,
            ;
        }
        let h = hundredths as u64;
        let mut d = String::new();
        push_char(&mut d, digit_to_char(h / 10));
        push_char(&mut d, digit_to_char(h % 10));
        Some(d)
    };
    let formatted = FormattedSize { integer, decimal, unit_str: unit.as_str(lang) };
    let r = formatted.with_locale(lang);
    proof {
        let ig = group_thousands(dec_digits(size_integer(current as nat)), separator_text(lang@));
        let sp = if uses_space_before_unit(lang@) {
            " "@
        } else {
            ""@
        };
        assert(integer as nat == size_integer(current as nat));
        if unit != Unit::Bytes {
            assert(formatted.decimal.unwrap()@ =~= two_digits(size_hundredths(current as nat)));
            let dp = decimal_point_text(lang@);
            let two = two_digits(size_hundredths(current as nat));
            assert(ig + dp + two =~= ig + (dp + two));
        } else {
            assert(ig + ""@ + ""@ =~= ig + Seq::<char>::empty()) by {
                reveal_strlit("");
            }
        }
    }
    r
}

} // verus!
