use vstd::prelude::*;

use crate::shared_data::PortData;

use crate::traits::PortSerialization;

verus! {

/// Micro-units per base unit: an `SiValue` stores its base-unit magnitude in
/// fixed point, one million raw units to 1.0.
pub const SI_SCALE: i64 = 1_000_000;

/// The largest magnitude the quantity arithmetic accepts, in micro base
/// units; products of two such magnitudes stay inside the machine range.
pub const SI_MAGNITUDE_BOUND: i64 = 3_000_000_000;

/// The dimension of a quantity: the exponent of each SI base unit.
#[derive(Clone, Copy, Debug, PartialEq, Eq, Structural)]
pub struct SiUnit {
    pub metre: i64,
    pub kilogram: i64,
    pub second: i64,
    pub ampere: i64,
    pub kelvin: i64,
}

impl SiUnit {
    /// Builds a dimension from its five exponents.
    pub fn new(metre: i64, kilogram: i64, second: i64, ampere: i64, kelvin: i64) -> (r: Self)
        ensures
            r == (SiUnit { metre, kilogram, second, ampere, kelvin }),
    {
        SiUnit { metre, kilogram, second, ampere, kelvin }
    }

    /// The dimension of a bare number.
    pub fn scalar() -> (r: Self)
        ensures
            r == (SiUnit { metre: 0i64, kilogram: 0i64, second: 0i64, ampere: 0i64, kelvin: 0i64 }),
    {
        SiUnit { metre: 0, kilogram: 0, second: 0, ampere: 0, kelvin: 0 }
    }

    /// The dimension of a distance.
    pub fn metres() -> (r: Self)
        ensures
            r == (SiUnit { metre: 1i64, kilogram: 0i64, second: 0i64, ampere: 0i64, kelvin: 0i64 }),
    {
        SiUnit { metre: 1, kilogram: 0, second: 0, ampere: 0, kelvin: 0 }
    }

    /// The dimension of a velocity.
    pub fn metres_per_second() -> (r: Self)
        ensures
            r == (SiUnit {
                metre: 1i64,
                kilogram: 0i64,
                second: -1i64,
                ampere: 0i64,
                kelvin: 0i64,
            }),
    {
        SiUnit { metre: 1, kilogram: 0, second: -1, ampere: 0, kelvin: 0 }
    }

    /// The dimension of an angular velocity.
    pub fn radians_per_second() -> (r: Self)
        ensures
            r == (SiUnit {
                metre: 0i64,
                kilogram: 0i64,
                second: -1i64,
                ampere: 0i64,
                kelvin: 0i64,
            }),
    {
        SiUnit { metre: 0, kilogram: 0, second: -1, ampere: 0, kelvin: 0 }
    }

    /// Every exponent is small, so sums and negations of exponents stay far
    /// inside the machine range.
    pub open spec fn bounded(self) -> bool {
        &&& -16 <= self.metre <= 16
        &&& -16 <= self.kilogram <= 16
        &&& -16 <= self.second <= 16
        &&& -16 <= self.ampere <= 16
        &&& -16 <= self.kelvin <= 16
    }
}

/// A physical quantity: a base-unit magnitude in fixed point, and its
/// dimension.
#[derive(Clone, Copy, Debug, PartialEq, Eq, Structural)]
pub struct SiValue {
    micros: i64,
    unit: SiUnit,
}

impl SiValue {
    /// The magnitude in micro base units.
    pub closed spec fn spec_micros(self) -> int {
        self.micros as int
    }

    /// The dimension.
    pub closed spec fn spec_unit(self) -> SiUnit {
        self.unit
    }

    /// Builds a quantity from its magnitude in micro base units and its
    /// dimension.
    pub fn new(micros: i64, unit: SiUnit) -> (r: Self)
        ensures
            r.spec_micros() == micros,
            r.spec_unit() == unit,
    {
        SiValue { micros, unit }
    }

    /// The magnitude in micro base units.
    pub fn as_value_in_base_units(&self) -> (r: i64)
        ensures
            r == self.spec_micros(),
    {
        self.micros
    }

    /// The dimension.
    pub fn unit(&self) -> (r: SiUnit)
        ensures
            r == self.spec_unit(),
    {
        self.unit
    }

    /// The sum of two quantities of the same dimension.
    pub fn add(self, rhs: SiValue) -> (r: SiValue)
        requires
            self.spec_unit() == rhs.spec_unit(),
            i64::MIN <= self.spec_micros() + rhs.spec_micros() <= i64::MAX,
        ensures
            r.spec_micros() == self.spec_micros() + rhs.spec_micros(),
            r.spec_unit() == self.spec_unit(),
    {
        SiValue { micros: self.micros + rhs.micros, unit: self.unit }
    }

    /// The difference of two quantities of the same dimension.
    pub fn sub(self, rhs: SiValue) -> (r: SiValue)
        requires
            self.spec_unit() == rhs.spec_unit(),
            i64::MIN <= self.spec_micros() - rhs.spec_micros() <= i64::MAX,
        ensures
            r.spec_micros() == self.spec_micros() - rhs.spec_micros(),
            r.spec_unit() == self.spec_unit(),
    {
        SiValue { micros: self.micros - rhs.micros, unit: self.unit }
    }

    /// Strict order on magnitudes of the same dimension.
    pub fn lt(self, rhs: SiValue) -> (r: bool)
        requires
            self.spec_unit() == rhs.spec_unit(),
        ensures
            r == (self.spec_micros() < rhs.spec_micros()),
    {
        self.micros < rhs.micros
    }

    /// Non-strict order on magnitudes of the same dimension.
    pub fn le(self, rhs: SiValue) -> (r: bool)
        requires
            self.spec_unit() == rhs.spec_unit(),
        ensures
            r == (self.spec_micros() <= rhs.spec_micros()),
    {
        self.micros <= rhs.micros
    }
}

/// Fixed-point product: the real product of `a / SCALE` and `b / SCALE`,
/// scaled back to micro units and truncated toward zero.
pub open spec fn spec_scaled_mul(a: int, b: int) -> int {
    if a * b >= 0 {
        (a * b) / (SI_SCALE as int)
    } else {
        -((-(a * b)) / (SI_SCALE as int))
    }
}

/// Fixed-point quotient: the real quotient of `a / SCALE` by `b / SCALE`,
/// scaled back to micro units and truncated toward zero.
pub open spec fn spec_scaled_div(a: int, b: int) -> int {
    if a >= 0 && b > 0 {
        (a * (SI_SCALE as int)) / b
    } else if a < 0 && b > 0 {
        -(((-a) * (SI_SCALE as int)) / b)
    } else if a >= 0 {
        -((a * (SI_SCALE as int)) / (-b))
    } else {
        ((-a) * (SI_SCALE as int)) / (-b)
    }
}

impl SiValue {
    /// The product of two quantities; the dimensions' exponents add.
    pub fn mul(self, rhs: SiValue) -> (r: SiValue)
        requires
            -SI_MAGNITUDE_BOUND <= self.spec_micros() <= SI_MAGNITUDE_BOUND,
            -SI_MAGNITUDE_BOUND <= rhs.spec_micros() <= SI_MAGNITUDE_BOUND,
            self.spec_unit().bounded(),
            rhs.spec_unit().bounded(),
        ensures
            r.spec_micros() == spec_scaled_mul(self.spec_micros(), rhs.spec_micros()),
            r.spec_unit() == (SiUnit {
                metre: (self.spec_unit().metre + rhs.spec_unit().metre) as i64,
                kilogram: (self.spec_unit().kilogram + rhs.spec_unit().kilogram) as i64,
                second: (self.spec_unit().second + rhs.spec_unit().second) as i64,
                ampere: (self.spec_unit().ampere + rhs.spec_unit().ampere) as i64,
                kelvin: (self.spec_unit().kelvin + rhs.spec_unit().kelvin) as i64,
            }),
    {
        proof {
            lemma_product_bound(self.micros as int, rhs.micros as int);
        }
        let a = self.micros;
        let b = rhs.micros;
        let neg = (a < 0) != (b < 0);
        let abs_a = if a < 0 {
            -a
        } else {
            a
        };
        let abs_b = if b < 0 {
            -b
        } else {
            b
        };
        proof {
            lemma_product_bound(abs_a as int, abs_b as int);
            lemma_abs_mul(a as int, b as int);
        }
        let m = (abs_a * abs_b) / SI_SCALE;
        let micros = if neg && m != 0 {
            -m
        } else {
            m
        };
        let unit = SiUnit {
            metre: self.unit.metre + rhs.unit.metre,
            kilogram: self.unit.kilogram + rhs.unit.kilogram,
            second: self.unit.second + rhs.unit.second,
            ampere: self.unit.ampere + rhs.unit.ampere,
            kelvin: self.unit.kelvin + rhs.unit.kelvin,
        };
        SiValue { micros, unit }
    }

    /// The quotient of two quantities; the dimensions' exponents subtract.
    pub fn div(self, rhs: SiValue) -> (r: SiValue)
        requires
            -SI_MAGNITUDE_BOUND <= self.spec_micros() <= SI_MAGNITUDE_BOUND,
            -SI_MAGNITUDE_BOUND <= rhs.spec_micros() <= SI_MAGNITUDE_BOUND,
            rhs.spec_micros() != 0,
            self.spec_unit().bounded(),
            rhs.spec_unit().bounded(),
        ensures
            r.spec_micros() == spec_scaled_div(self.spec_micros(), rhs.spec_micros()),
            r.spec_unit() == (SiUnit {
                metre: (self.spec_unit().metre - rhs.spec_unit().metre) as i64,
                kilogram: (self.spec_unit().kilogram - rhs.spec_unit().kilogram) as i64,
                second: (self.spec_unit().second - rhs.spec_unit().second) as i64,
                ampere: (self.spec_unit().ampere - rhs.spec_unit().ampere) as i64,
                kelvin: (self.spec_unit().kelvin - rhs.spec_unit().kelvin) as i64,
            }),
    {
        let a = self.micros;
        let b = rhs.micros;
        let neg = (a < 0) != (b < 0);
        let abs_a = if a < 0 {
            -a
        } else {
            a
        };
        let abs_b = if b < 0 {
            -b
        } else {
            b
        };
        proof {
            lemma_product_bound(abs_a as int, SI_SCALE as int);
            lemma_div_cases(a as int, b as int);
        }
        let m = (abs_a * SI_SCALE) / abs_b;
        let micros = if neg && m != 0 {
            -m
        } else {
            m
        };
        let unit = SiUnit {
            metre: self.unit.metre - rhs.unit.metre,
            kilogram: self.unit.kilogram - rhs.unit.kilogram,
            second: self.unit.second - rhs.unit.second,
            ampere: self.unit.ampere - rhs.unit.ampere,
            kelvin: self.unit.kelvin - rhs.unit.kelvin,
        };
        SiValue { micros, unit }
    }

    /// The reciprocal of a quantity; the dimension's exponents negate.
    pub fn inverse(self) -> (r: SiValue)
        requires
            -SI_MAGNITUDE_BOUND <= self.spec_micros() <= SI_MAGNITUDE_BOUND,
            self.spec_micros() != 0,
            self.spec_unit().bounded(),
        ensures
            r.spec_micros() == spec_scaled_div(SI_SCALE as int, self.spec_micros()),
            r.spec_unit() == (SiUnit {
                metre: (-self.spec_unit().metre) as i64,
                kilogram: (-self.spec_unit().kilogram) as i64,
                second: (-self.spec_unit().second) as i64,
                ampere: (-self.spec_unit().ampere) as i64,
                kelvin: (-self.spec_unit().kelvin) as i64,
            }),
    {
        let one = SiValue { micros: SI_SCALE, unit: SiUnit::scalar() };
        one.div(self)
    }
}

/// Two magnitudes within the accepted bound multiply without overflow.
proof fn lemma_product_bound(a: int, b: int)
    requires
        -SI_MAGNITUDE_BOUND <= a <= SI_MAGNITUDE_BOUND,
        -SI_MAGNITUDE_BOUND <= b <= SI_MAGNITUDE_BOUND,
    ensures
        -(SI_MAGNITUDE_BOUND as int) * (SI_MAGNITUDE_BOUND as int) <= a * b <= (
        SI_MAGNITUDE_BOUND as int) * (SI_MAGNITUDE_BOUND as int),
{
    assert(-(SI_MAGNITUDE_BOUND as int) * (SI_MAGNITUDE_BOUND as int) <= a * b <= (
    SI_MAGNITUDE_BOUND as int) * (SI_MAGNITUDE_BOUND as int)) by (nonlinear_arith)
        requires
            -SI_MAGNITUDE_BOUND <= a <= SI_MAGNITUDE_BOUND,
            -SI_MAGNITUDE_BOUND <= b <= SI_MAGNITUDE_BOUND,
    ;
}

/// The absolute values' product is the product's absolute value, so the
/// sign-and-magnitude computation matches the truncating fixed-point spec.
proof fn lemma_abs_mul(a: int, b: int)
    ensures
        (if a < 0 {
            -a
        } else {
            a
        }) * (if b < 0 {
            -b
        } else {
            b
        }) == (if a * b >= 0 {
            a * b
        } else {
            -(a * b)
        }),
        ((a < 0) != (b < 0) && a * b != 0) ==> a * b < 0,
        !((a < 0) != (b < 0)) ==> a * b >= 0,
{
    assert((if a < 0 {
        -a
    } else {
        a
    }) * (if b < 0 {
        -b
    } else {
        b
    }) == (if a * b >= 0 {
        a * b
    } else {
        -(a * b)
    }) && (((a < 0) != (b < 0) && a * b != 0) ==> a * b < 0) && (!((a < 0) != (b < 0)) ==> a * b
        >= 0)) by (nonlinear_arith);
}

/// The sign-and-magnitude quotient matches the truncating fixed-point spec
/// in each of the four sign cases.
proof fn lemma_div_cases(a: int, b: int)
    requires
        b != 0,
    ensures
        ({
            let abs_a = if a < 0 {
                -a
            } else {
                a
            };
            let abs_b = if b < 0 {
                -b
            } else {
                b
            };
            let m = (abs_a * (SI_SCALE as int)) / abs_b;
            let neg = (a < 0) != (b < 0);
            (if neg && m != 0 {
                -m
            } else {
                m
            }) == spec_scaled_div(a, b)
        }),
{
    let abs_a = if a < 0 {
        -a
    } else {
        a
    };
    if a >= 0 && b > 0 {
    } else if a < 0 && b > 0 {
        assert((-a) * (SI_SCALE as int) == -(a * (SI_SCALE as int))) by (nonlinear_arith);
    } else if a >= 0 {
    } else {
        assert((-a) * (SI_SCALE as int) == -(a * (SI_SCALE as int))) by (nonlinear_arith);
    }
}

impl SiUnit {
    /// Checks the exponent bound at run time.
    pub fn is_bounded(&self) -> (r: bool)
        ensures
            r == self.bounded(),
    {
        -16 <= self.metre && self.metre <= 16 && -16 <= self.kilogram && self.kilogram <= 16
            && -16 <= self.second && self.second <= 16 && -16 <= self.ampere && self.ampere <= 16
            && -16 <= self.kelvin && self.kelvin <= 16
    }
}

impl PortSerialization for SiValue {
    open spec fn spec_is_port_data(&self, r: PortData) -> bool {
        match r {
            PortData::SiValue { value, unit } => value == self.spec_micros() && (
            self.spec_unit().bounded() ==> unit@ == self.spec_unit_str()),
            _ => false,
        }
    }

    fn serialize_port_data(&self) -> (r: PortData) {
        let unit = if self.unit.is_bounded() {
            self.unit_str()
        } else {
            String::new()
        };
        PortData::SiValue { value: self.micros, unit }
    }
}

} // verus!

verus! {

/// The superscript character for one decimal digit.
pub open spec fn superscript_char(d: int) -> char {
    if d == 0 {
        '⁰'
    } else if d == 1 {
        '¹'
    } else if d == 2 {
        '²'
    } else if d == 3 {
        '³'
    } else if d == 4 {
        '⁴'
    } else if d == 5 {
        '⁵'
    } else if d == 6 {
        '⁶'
    } else if d == 7 {
        '⁷'
    } else if d == 8 {
        '⁸'
    } else {
        '⁹'
    }
}

/// The superscript digits of `n`, most significant first.
pub open spec fn spec_superscript_digits(n: nat) -> Seq<char>
    decreases n,
{
    if n < 10 {
        seq![superscript_char(n as int)]
    } else {
        spec_superscript_digits(n / 10).push(superscript_char((n % 10) as int))
    }
}

/// `n` rendered in superscript, with a superscript minus when negative.
pub open spec fn spec_superscript(n: int) -> Seq<char> {
    if n < 0 {
        seq!['⁻'] + spec_superscript_digits((-n) as nat)
    } else {
        spec_superscript_digits(n as nat)
    }
}

fn superscript_digits(n: u64) -> (s: String)
    ensures
        s@ == spec_superscript_digits(n as nat),
    decreases n,
{
    let digit: &str = match n % 10 {
        0 => "⁰",
        1 => "¹",
        2 => "²",
        3 => "³",
        4 => "⁴",
        5 => "⁵",
        6 => "⁶",
        7 => "⁷",
        8 => "⁸",
        9 => "⁹",
        _ => {
            proof {
                assert(false);
            }
            "⁰"
        },
    };
    proof {
        reveal_strlit("⁰");
        reveal_strlit("¹");
        reveal_strlit("²");
        reveal_strlit("³");
        reveal_strlit("⁴");
        reveal_strlit("⁵");
        reveal_strlit("⁶");
        reveal_strlit("⁷");
        reveal_strlit("⁸");
        reveal_strlit("⁹");
        assert(digit@ =~= seq![superscript_char((n % 10) as int)]);
    }
    if n < 10 {
        let s = digit.to_owned();
        proof {
            assert(s@ =~= spec_superscript_digits(n as nat));
        }
        s
    } else {
        let mut s = superscript_digits(n / 10);
        s.append(digit);
        proof {
            assert(s@ =~= spec_superscript_digits(n as nat));
        }
        s
    }
}

/// Renders an exponent in superscript characters, sign included.
pub fn to_superscript(n: i64) -> (s: String)
    requires
        n > i64::MIN,
    ensures
        s@ == spec_superscript(n as int),
{
    if n < 0 {
        let mut s = "⁻".to_owned();
        proof {
            reveal_strlit("⁻");
            assert(s@ =~= seq!['⁻']);
        }
        let digits = superscript_digits((-n) as u64);
        s.append(digits.as_str());
        s
    } else {
        superscript_digits(n as u64)
    }
}

/// One factor of a unit label: the base unit's name, with its exponent in
/// superscript unless the exponent is one.
pub open spec fn spec_format_unit(name: Seq<char>, exp: int) -> Seq<char> {
    if exp == 1 {
        name
    } else {
        name + spec_superscript(exp)
    }
}

/// Renders one factor of a unit label.
pub fn format_unit(name: &str, exp: i64) -> (s: String)
    requires
        exp > i64::MIN,
    ensures
        s@ == spec_format_unit(name@, exp as int),
{
    if exp == 1 {
        name.to_owned()
    } else {
        let mut s = name.to_owned();
        let sup = to_superscript(exp);
        s.append(sup.as_str());
        s
    }
}

/// The parts joined by the separator.
pub open spec fn spec_join(parts: Seq<Seq<char>>, sep: Seq<char>) -> Seq<char>
    decreases parts.len(),
{
    if parts.len() == 0 {
        Seq::empty()
    } else if parts.len() == 1 {
        parts[0]
    } else {
        spec_join(parts.drop_last(), sep) + sep + parts.last()
    }
}

fn join_strings(parts: &Vec<String>, sep: &str) -> (s: String)
    ensures
        s@ == spec_join(parts@.map_values(|p: String| p@), sep@),
{
    let ghost sparts = parts@.map_values(|p: String| p@);
    let mut s = String::new();
    let mut i: usize = 0;
    while i < parts.len()
        invariant
            i <= parts@.len(),
            sparts == parts@.map_values(|p: String| p@),
            s@ == spec_join(sparts.take(i as int), sep@),
        decreases parts@.len() - i,
    {
        if i > 0 {
            s.append(sep);
        }
        s.append(parts[i].as_str());
        proof {
            assert(sparts.take(i + 1).drop_last() =~= sparts.take(i as int));
            assert(sparts.take(i + 1).last() == sparts[i as int]);
            assert(sparts[i as int] == parts@[i as int]@);
            if i == 0 {
                assert(sparts.take(1)[0] == sparts[0]);
                assert(s@ =~= spec_join(sparts.take(1), sep@));
            } else {
                assert(s@ =~= spec_join(sparts.take(i + 1), sep@));
            }
        }
        i = i + 1;
    }
    proof {
        assert(sparts.take(sparts.len() as int) =~= sparts);
    }
    s
}

/// Whether a dimension has exactly the given exponents.
pub open spec fn has_dims(u: SiUnit, metre: int, kilogram: int, second: int, ampere: int, kelvin: int) -> bool {
    u.metre == metre && u.kilogram == kilogram && u.second == second && u.ampere == ampere
        && u.kelvin == kelvin
}

/// The conventional symbol of a dimension, when one is known. Dimensions
/// are matched in a fixed order, so two quantities of equal dimension share
/// a symbol.
pub open spec fn spec_unit_symbol(u: SiUnit) -> Option<Seq<char>> {
    if has_dims(u, 1, 0, 0, 0, 0) {
        Some("m"@)
    } else if has_dims(u, 0, 0, 1, 0, 0) {
        Some("s"@)
    } else if has_dims(u, 0, 0, -1, 0, 0) {
        Some("Hz"@)
    } else if has_dims(u, 0, 1, 0, 0, 0) {
        Some("kg"@)
    } else if has_dims(u, 1, 1, -2, 0, 0) {
        Some("N"@)
    } else if has_dims(u, 2, 1, -2, 0, 0) {
        Some("J"@)
    } else if has_dims(u, 2, 1, -3, 0, 0) {
        Some("W"@)
    } else if has_dims(u, 1, 1, -1, 0, 0) {
        Some("N·s"@)
    } else if has_dims(u, -1, 1, -2, 0, 0) {
        Some("Pa"@)
    } else if has_dims(u, 0, 0, 0, 1, 0) {
        Some("A"@)
    } else if has_dims(u, 0, 0, 1, 1, 0) {
        Some("C"@)
    } else if has_dims(u, 2, 1, -3, -1, 0) {
        Some("V"@)
    } else if has_dims(u, 2, 1, -3, -2, 0) {
        Some("Ω"@)
    } else if has_dims(u, -2, -1, 3, 2, 0) {
        Some("S"@)
    } else if has_dims(u, -2, -1, 4, -2, 0) {
        Some("F"@)
    } else if has_dims(u, 2, 1, -2, -2, 0) {
        Some("H"@)
    } else if has_dims(u, 2, 1, -2, -1, 0) {
        Some("Wb"@)
    } else if has_dims(u, 0, 1, -2, -1, 0) {
        Some("T"@)
    } else if has_dims(u, 1, 1, -2, -2, 0) {
        Some("H/m"@)
    } else if has_dims(u, 0, 0, 0, 0, 1) {
        Some("K"@)
    } else {
        None
    }
}

fn unit_symbol(u: &SiUnit) -> (r: Option<String>)
    ensures
        match r {
            Option::Some(s) => spec_unit_symbol(*u) == Some(s@),
            Option::None => spec_unit_symbol(*u) is None,
        },
{
    if u.metre == 1 && u.kilogram == 0 && u.second == 0 && u.ampere == 0 && u.kelvin == 0 {
        Some("m".to_owned())
    } else if u.metre == 0 && u.kilogram == 0 && u.second == 1 && u.ampere == 0 && u.kelvin == 0 {
        Some("s".to_owned())
    } else if u.metre == 0 && u.kilogram == 0 && u.second == -1 && u.ampere == 0 && u.kelvin == 0 {
        Some("Hz".to_owned())
    } else if u.metre == 0 && u.kilogram == 1 && u.second == 0 && u.ampere == 0 && u.kelvin == 0 {
        Some("kg".to_owned())
    } else if u.metre == 1 && u.kilogram == 1 && u.second == -2 && u.ampere == 0 && u.kelvin == 0 {
        Some("N".to_owned())
    } else if u.metre == 2 && u.kilogram == 1 && u.second == -2 && u.ampere == 0 && u.kelvin == 0 {
        Some("J".to_owned())
    } else if u.metre == 2 && u.kilogram == 1 && u.second == -3 && u.ampere == 0 && u.kelvin == 0 {
        Some("W".to_owned())
    } else if u.metre == 1 && u.kilogram == 1 && u.second == -1 && u.ampere == 0 && u.kelvin == 0 {
        Some("N·s".to_owned())
    } else if u.metre == -1 && u.kilogram == 1 && u.second == -2 && u.ampere == 0 && u.kelvin == 0 {
        Some("Pa".to_owned())
    } else if u.metre == 0 && u.kilogram == 0 && u.second == 0 && u.ampere == 1 && u.kelvin == 0 {
        Some("A".to_owned())
    } else if u.metre == 0 && u.kilogram == 0 && u.second == 1 && u.ampere == 1 && u.kelvin == 0 {
        Some("C".to_owned())
    } else if u.metre == 2 && u.kilogram == 1 && u.second == -3 && u.ampere == -1 && u.kelvin == 0 {
        Some("V".to_owned())
    } else if u.metre == 2 && u.kilogram == 1 && u.second == -3 && u.ampere == -2 && u.kelvin == 0 {
        Some("Ω".to_owned())
    } else if u.metre == -2 && u.kilogram == -1 && u.second == 3 && u.ampere == 2 && u.kelvin == 0 {
        Some("S".to_owned())
    } else if u.metre == -2 && u.kilogram == -1 && u.second == 4 && u.ampere == -2 && u.kelvin == 0 {
        Some("F".to_owned())
    } else if u.metre == 2 && u.kilogram == 1 && u.second == -2 && u.ampere == -2 && u.kelvin == 0 {
        Some("H".to_owned())
    } else if u.metre == 2 && u.kilogram == 1 && u.second == -2 && u.ampere == -1 && u.kelvin == 0 {
        Some("Wb".to_owned())
    } else if u.metre == 0 && u.kilogram == 1 && u.second == -2 && u.ampere == -1 && u.kelvin == 0 {
        Some("T".to_owned())
    } else if u.metre == 1 && u.kilogram == 1 && u.second == -2 && u.ampere == -2 && u.kelvin == 0 {
        Some("H/m".to_owned())
    } else if u.metre == 0 && u.kilogram == 0 && u.second == 0 && u.ampere == 0 && u.kelvin == 1 {
        Some("K".to_owned())
    } else {
        None
    }
}

/// A singleton part when the condition holds, else nothing.
pub open spec fn maybe_part(cond: bool, name: Seq<char>, exp: int) -> Seq<Seq<char>> {
    if cond {
        seq![spec_format_unit(name, exp)]
    } else {
        Seq::empty()
    }
}

/// The factors above the fraction bar: base units with positive exponent,
/// in the fixed order kg, m, s, A, K.
pub open spec fn spec_num_parts(u: SiUnit) -> Seq<Seq<char>> {
    maybe_part(u.kilogram > 0, "kg"@, u.kilogram as int) + maybe_part(u.metre > 0, "m"@, u.metre as int)
        + maybe_part(u.second > 0, "s"@, u.second as int) + maybe_part(u.ampere > 0, "A"@, u.ampere as int)
        + maybe_part(u.kelvin > 0, "K"@, u.kelvin as int)
}

/// The factors below the fraction bar: base units with negative exponent,
/// shown with the negated exponent, in the same fixed order.
pub open spec fn spec_den_parts(u: SiUnit) -> Seq<Seq<char>> {
    maybe_part(u.kilogram < 0, "kg"@, -(u.kilogram as int)) + maybe_part(
        u.metre < 0,
        "m"@,
        -(u.metre as int),
    ) + maybe_part(u.second < 0, "s"@, -(u.second as int)) + maybe_part(
        u.ampere < 0,
        "A"@,
        -(u.ampere as int),
    ) + maybe_part(u.kelvin < 0, "K"@, -(u.kelvin as int))
}

/// The label built from exponents when no symbol is known: the positive
/// factors joined by a dot, over the negative ones, bracketed.
pub open spec fn spec_built_label(u: SiUnit) -> Seq<char> {
    let num = spec_num_parts(u);
    let den = spec_den_parts(u);
    if num.len() == 0 && den.len() == 0 {
        Seq::empty()
    } else if den.len() == 0 {
        " ["@ + spec_join(num, "·"@) + "]"@
    } else if num.len() == 0 && den.len() == 1 {
        " [1/"@ + spec_join(den, "·"@) + "]"@
    } else if num.len() == 0 {
        " [1/("@ + spec_join(den, "·"@) + ")]"@
    } else if num.len() == 1 && den.len() == 1 {
        " ["@ + spec_join(num, "·"@) + "/"@ + spec_join(den, "·"@) + "]"@
    } else if num.len() == 1 {
        " ["@ + spec_join(num, "·"@) + "/("@ + spec_join(den, "·"@) + ")]"@
    } else if den.len() == 1 {
        " [("@ + spec_join(num, "·"@) + ")/"@ + spec_join(den, "·"@) + "]"@
    } else {
        " [("@ + spec_join(num, "·"@) + ")/("@ + spec_join(den, "·"@) + ")]"@
    }
}

impl SiValue {
    /// The quantity's unit label: the conventional symbol in brackets when
    /// the dimension has one, else a label built from the exponents; empty
    /// for a bare number.
    pub open spec fn spec_unit_str(self) -> Seq<char> {
        match spec_unit_symbol(self.spec_unit()) {
            Some(sym) => " ["@ + sym + "]"@,
            None => spec_built_label(self.spec_unit()),
        }
    }

    /// Renders the quantity's unit label.
    #[verifier::rlimit(100)]
    pub fn unit_str(&self) -> (s: String)
        requires
            self.spec_unit().bounded(),
        ensures
            s@ == self.spec_unit_str(),
    {
        let u = self.unit;
        match unit_symbol(&u) {
            Some(sym) => {
                let mut s = " [".to_owned();
                s.append(sym.as_str());
                s.append("]");
                proof {
                    assert(s@ =~= self.spec_unit_str());
                }
                s
            },
            None => {
                let mut numerator: Vec<String> = Vec::new();
                let mut denominator: Vec<String> = Vec::new();
                if u.kilogram > 0 {
                    numerator.push(format_unit("kg", u.kilogram));
                } else if u.kilogram < 0 {
                    denominator.push(format_unit("kg", -u.kilogram));
                }
                proof {
                    assert(numerator@.map_values(|p: String| p@) =~= maybe_part(
                        u.kilogram > 0,
                        "kg"@,
                        u.kilogram as int,
                    ));
                    assert(denominator@.map_values(|p: String| p@) =~= maybe_part(
                        u.kilogram < 0,
                        "kg"@,
                        -(u.kilogram as int),
                    ));
                }
                let ghost num1 = numerator@.map_values(|p: String| p@);
                let ghost den1 = denominator@.map_values(|p: String| p@);
                if u.metre > 0 {
                    numerator.push(format_unit("m", u.metre));
                } else if u.metre < 0 {
                    denominator.push(format_unit("m", -u.metre));
                }
                proof {
                    assert(numerator@.map_values(|p: String| p@) =~= num1 + maybe_part(
                        u.metre > 0,
                        "m"@,
                        u.metre as int,
                    ));
                    assert(denominator@.map_values(|p: String| p@) =~= den1 + maybe_part(
                        u.metre < 0,
                        "m"@,
                        -(u.metre as int),
                    ));
                }
                let ghost num2 = numerator@.map_values(|p: String| p@);
                let ghost den2 = denominator@.map_values(|p: String| p@);
                if u.second > 0 {
                    numerator.push(format_unit("s", u.second));
                } else if u.second < 0 {
                    denominator.push(format_unit("s", -u.second));
                }
                proof {
                    assert(numerator@.map_values(|p: String| p@) =~= num2 + maybe_part(
                        u.second > 0,
                        "s"@,
                        u.second as int,
                    ));
                    assert(denominator@.map_values(|p: String| p@) =~= den2 + maybe_part(
                        u.second < 0,
                        "s"@,
                        -(u.second as int),
                    ));
                }
                let ghost num3 = numerator@.map_values(|p: String| p@);
                let ghost den3 = denominator@.map_values(|p: String| p@);
                if u.ampere > 0 {
                    numerator.push(format_unit("A", u.ampere));
                } else if u.ampere < 0 {
                    denominator.push(format_unit("A", -u.ampere));
                }
                proof {
                    assert(numerator@.map_values(|p: String| p@) =~= num3 + maybe_part(
                        u.ampere > 0,
                        "A"@,
                        u.ampere as int,
                    ));
                    assert(denominator@.map_values(|p: String| p@) =~= den3 + maybe_part(
                        u.ampere < 0,
                        "A"@,
                        -(u.ampere as int),
                    ));
                }
                let ghost num4 = numerator@.map_values(|p: String| p@);
                let ghost den4 = denominator@.map_values(|p: String| p@);
                if u.kelvin > 0 {
                    numerator.push(format_unit("K", u.kelvin));
                } else if u.kelvin < 0 {
                    denominator.push(format_unit("K", -u.kelvin));
                }
                proof {
                    assert(numerator@.map_values(|p: String| p@) =~= num4 + maybe_part(
                        u.kelvin > 0,
                        "K"@,
                        u.kelvin as int,
                    ));
                    assert(denominator@.map_values(|p: String| p@) =~= den4 + maybe_part(
                        u.kelvin < 0,
                        "K"@,
                        -(u.kelvin as int),
                    ));
                    assert(numerator@.map_values(|p: String| p@) =~= spec_num_parts(u));
                    assert(denominator@.map_values(|p: String| p@) =~= spec_den_parts(u));
                }
                let n_len = numerator.len();
                let d_len = denominator.len();
                let mut s: String;
                if n_len == 0 && d_len == 0 {
                    s = String::new();
                } else if d_len == 0 {
                    s = " [".to_owned();
                    let joined = join_strings(&numerator, "·");
                    s.append(joined.as_str());
                    s.append("]");
                } else if n_len == 0 && d_len == 1 {
                    s = " [1/".to_owned();
                    let joined = join_strings(&denominator, "·");
                    s.append(joined.as_str());
                    s.append("]");
                } else if n_len == 0 {
                    s = " [1/(".to_owned();
                    let joined = join_strings(&denominator, "·");
                    s.append(joined.as_str());
                    s.append(")]");
                } else if n_len == 1 && d_len == 1 {
                    s = " [".to_owned();
                    let joined_n = join_strings(&numerator, "·");
                    s.append(joined_n.as_str());
                    s.append("/");
                    let joined_d = join_strings(&denominator, "·");
                    s.append(joined_d.as_str());
                    s.append("]");
                } else if n_len == 1 {
                    s = " [".to_owned();
                    let joined_n = join_strings(&numerator, "·");
                    s.append(joined_n.as_str());
                    s.append("/(");
                    let joined_d = join_strings(&denominator, "·");
                    s.append(joined_d.as_str());
                    s.append(")]");
                } else if d_len == 1 {
                    s = " [(".to_owned();
                    let joined_n = join_strings(&numerator, "·");
                    s.append(joined_n.as_str());
                    s.append(")/");
                    let joined_d = join_strings(&denominator, "·");
                    s.append(joined_d.as_str());
                    s.append("]");
                } else {
                    s = " [(".to_owned();
                    let joined_n = join_strings(&numerator, "·");
                    s.append(joined_n.as_str());
                    s.append(")/(");
                    let joined_d = join_strings(&denominator, "·");
                    s.append(joined_d.as_str());
                    s.append(")]");
                }
                proof {
                    assert(s@ =~= self.spec_unit_str());
                }
                s
            },
        }
    }
}

} // verus!
