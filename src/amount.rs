use rust_decimal::Decimal;
use vstd::prelude::*;

verus! {

/// A `rust_decimal` number, carried through opaquely.
#[verifier::external_type_specification]
#[verifier::external_body]
pub struct ExDecimal(Decimal);

/// Number of fractional decimal digits an `Amount` carries.
pub const AMOUNT_SCALE: u32 = 4;

/// Units of an `Amount` in one whole unit of currency.
pub const UNITS_PER_WHOLE: i128 = 10000;

/// Largest magnitude, in units, that a stored balance may reach: the largest
/// mantissa a `Decimal` can hold.
pub const MAX_UNITS: i128 = 79228162514264337593543950335;

/// Largest scale a `Decimal` can carry.
pub const MAX_DECIMAL_SCALE: u32 = 28;

/// An exact amount of money, counted in ten-thousandths of a unit.
#[derive(Clone, Copy, Debug, PartialEq, Eq, Structural)]
pub struct Amount {
    pub units: i128,
}

/// True when `v` units can be stored in an account and shown as a `Decimal`.
pub open spec fn in_range(v: int) -> bool {
    -MAX_UNITS <= v <= MAX_UNITS
}

/// `10^n`.
pub open spec fn pow10(n: nat) -> int
    decreases n,
{
    if n == 0 {
        1
    } else {
        10 * pow10((n - 1) as nat)
    }
}

/// `|v|`.
pub open spec fn abs(v: int) -> int {
    if v < 0 {
        -v
    } else {
        v
    }
}

/// The amount, in units of `10^-AMOUNT_SCALE`, that the decimal
/// `mantissa * 10^-scale` stands for, when it has no more than
/// `AMOUNT_SCALE` significant fractional digits.
pub open spec fn units_of_decimal(mantissa: int, scale: nat) -> Option<int> {
    if scale <= AMOUNT_SCALE {
        Some(mantissa * pow10((AMOUNT_SCALE - scale) as nat))
    } else {
        let f = pow10((scale - AMOUNT_SCALE) as nat);
        if abs(mantissa) % f != 0 {
            None
        } else if mantissa < 0 {
            Some(-(abs(mantissa) / f))
        } else {
            Some(abs(mantissa) / f)
        }
    }
}

/// The amount `mantissa * 10^-scale`, where it has no more than
/// `AMOUNT_SCALE` significant fractional digits and its units fit an `i128`.
pub open spec fn amount_of_parts(mantissa: int, scale: nat) -> Option<Amount> {
    match units_of_decimal(mantissa, scale) {
        Some(u) => if i128::MIN <= u <= i128::MAX {
            Some(Amount { units: u as i128 })
        } else {
            None
        },
        None => None,
    }
}

impl View for Amount {
    type V = int;

    open spec fn view(&self) -> int {
        self.units as int
    }
}

proof fn lemma_pow10_values()
    ensures
        pow10(4) == 10000,
        pow10(38) == 100000000000000000000000000000000000000,
        pow10(39) == 10 * pow10(38),
{
    reveal_with_fuel(pow10, 40);
}

proof fn lemma_pow10_monotonic(m: nat, n: nat)
    requires
        m <= n,
    ensures
        pow10(m) <= pow10(n),
    decreases n,
{
    lemma_pow10_positive(n);
    if m < n {
        lemma_pow10_monotonic(m, (n - 1) as nat);
    }
}

proof fn lemma_pow10_positive(n: nat)
    ensures
        pow10(n) >= 1,
    decreases n,
{
    if n > 0 {
        lemma_pow10_positive((n - 1) as nat);
    }
}

/// The mantissa of a `Decimal`: it equals `mantissa * 10^-scale`.
pub uninterp spec fn mantissa_of(d: Decimal) -> int;

/// The scale of a `Decimal`: its number of fractional digits.
pub uninterp spec fn scale_of(d: Decimal) -> nat;

/// Relies on `Decimal::mantissa`: the decimal's integer mantissa.
#[verifier::external_body]
fn decimal_mantissa(d: &Decimal) -> (r: i128)
    ensures
        r as int == mantissa_of(*d),
{
    d.mantissa()
}

/// Relies on `Decimal::scale`: the decimal's scale, which never exceeds 28.
#[verifier::external_body]
fn decimal_scale(d: &Decimal) -> (r: u32)
    ensures
        r as nat == scale_of(*d),
        r <= MAX_DECIMAL_SCALE,
{
    d.scale()
}

/// Relies on `Decimal::try_from_i128_with_scale`: it succeeds exactly when the
/// scale is at most 28 and the mantissa's magnitude is at most `2^96 - 1`,
/// and then builds the decimal `num * 10^-scale`.
#[verifier::external_body]
fn decimal_with_scale(num: i128, scale: u32) -> (r: Option<Decimal>)
    ensures
        r is Some <==> (scale <= MAX_DECIMAL_SCALE && -MAX_UNITS <= num <= MAX_UNITS),
        r is Some ==> mantissa_of(r->Some_0) == num as int && scale_of(r->Some_0) == scale as nat,
{
    Decimal::try_from_i128_with_scale(num, scale).ok()
}

impl Amount {
    /// The amount of `units` ten-thousandths.
    pub fn from_units(units: i128) -> (r: Amount)
        ensures
            r@ == units,
    {
        Amount { units }
    }

    /// The exact amount a `Decimal` holds, or `None` where it has more than
    /// four significant fractional digits.
    pub fn from_decimal(d: &Decimal) -> (r: Option<Amount>)
        ensures
            r == amount_of_parts(mantissa_of(*d), scale_of(*d)),
    {
        let mantissa = decimal_mantissa(d);
        let scale = decimal_scale(d);
        Amount::from_parts(mantissa, scale)
    }

    /// The amount as a `Decimal` with exactly four fractional digits, or
    /// `None` where its magnitude is beyond what a `Decimal` holds.
    pub fn to_decimal(&self) -> (r: Option<Decimal>)
        ensures
            r is Some <==> in_range(self@),
            r is Some ==> mantissa_of(r->Some_0) == self@ && scale_of(r->Some_0) == AMOUNT_SCALE,
    {
        decimal_with_scale(self.units, AMOUNT_SCALE)
    }

    /// `self + other`, or `None` where the sum leaves the storable range.
    pub fn checked_add(self, other: Amount) -> (r: Option<Amount>)
        ensures
            r == (if in_range(self@ + other@) {
                Some(Amount { units: (self@ + other@) as i128 })
            } else {
                None::<Amount>
            }),
    {
        match self.units.checked_add(other.units) {
            Some(u) => {
                if -MAX_UNITS <= u && u <= MAX_UNITS {
                    Some(Amount { units: u })
                } else {
                    None
                }
            },
            None => None,
        }
    }

    /// `self - other`, or `None` where the difference leaves the storable
    /// range.
    pub fn checked_sub(self, other: Amount) -> (r: Option<Amount>)
        ensures
            r == (if in_range(self@ - other@) {
                Some(Amount { units: (self@ - other@) as i128 })
            } else {
                None::<Amount>
            }),
    {
        match self.units.checked_sub(other.units) {
            Some(u) => {
                if -MAX_UNITS <= u && u <= MAX_UNITS {
                    Some(Amount { units: u })
                } else {
                    None
                }
            },
            None => None,
        }
    }

    /// Zero.
    pub fn zero() -> (r: Amount)
        ensures
            r@ == 0,
    {
        Amount { units: 0 }
    }

    /// The exact amount `mantissa * 10^-scale`, or `None` where it has more
    /// than four significant fractional digits or does not fit an `i128` of
    /// units.
    pub fn from_parts(mantissa: i128, scale: u32) -> (r: Option<Amount>)
        ensures
            r == amount_of_parts(mantissa as int, scale as nat),
    {
        if scale <= AMOUNT_SCALE {
            let mut factor: i128 = 1;
            let mut i: u32 = scale;
            while i < AMOUNT_SCALE
                invariant
                    scale <= i <= AMOUNT_SCALE,
                    factor as int == pow10((i - scale) as nat),
                decreases AMOUNT_SCALE - i,
            {
                assert(pow10((i + 1 - scale) as nat) == 10 * pow10((i - scale) as nat));
                proof {
                    lemma_pow10_values();
                    lemma_pow10_monotonic((i + 1 - scale) as nat, 4);
                    lemma_pow10_positive((i - scale) as nat);
                }
                factor = factor * 10;
                i = i + 1;
            }
            match mantissa.checked_mul(factor) {
                Some(u) => Some(Amount { units: u }),
                None => None,
            }
        } else {
            let digits: u32 = scale - AMOUNT_SCALE;
            let magnitude: u128 = if mantissa < 0 {
                ((-(mantissa + 1)) as u128) + 1
            } else {
                mantissa as u128
            };
            assert(magnitude == abs(mantissa as int));
            let mut factor: u128 = 1;
            let mut i: u32 = 0;
            while i < digits && i < 38
                invariant
                    i <= digits,
                    i <= 38,
                    factor as int == pow10(i as nat),
                    factor >= 1,
                decreases digits - i,
            {
                proof {
                    lemma_pow10_values();
                    lemma_pow10_monotonic((i + 1) as nat, 38);
                }
                assert(pow10((i + 1) as nat) == 10 * pow10(i as nat));
                factor = factor * 10;
                i = i + 1;
            }
            let ghost f = pow10(digits as nat);
            if i < digits {
                proof {
                    lemma_pow10_monotonic(39, digits as nat);
                    lemma_pow10_values();
                    assert(magnitude < f);
                    vstd::arithmetic::div_mod::lemma_small_mod(magnitude as nat, f as nat);
                    vstd::arithmetic::div_mod::lemma_basic_div(magnitude as int, f);
                }
                if magnitude == 0 {
                    Some(Amount { units: 0 })
                } else {
                    None
                }
            } else if magnitude % factor != 0 {
                None
            } else {
                proof {
                    lemma_pow10_monotonic(1, digits as nat);
                    assert(pow10(1) == 10 * pow10(0));
                    vstd::arithmetic::div_mod::lemma_div_is_ordered_by_denominator(
                        magnitude as int,
                        2,
                        factor as int,
                    );
                    vstd::arithmetic::div_mod::lemma_fundamental_div_mod(magnitude as int, 2);
                }
                let q: u128 = magnitude / factor;
                if mantissa < 0 {
                    Some(Amount { units: -(q as i128) })
                } else {
                    Some(Amount { units: q as i128 })
                }
            }
        }
    }
}

/// A whole number of currency units.
impl From<i64> for Amount {
    fn from(whole: i64) -> (r: Amount)
        ensures
            r@ == whole * UNITS_PER_WHOLE,
    {
        Amount { units: whole as i128 * UNITS_PER_WHOLE }
    }
}

impl vstd::std_specs::convert::FromSpecImpl<i64> for Amount {
    open spec fn obeys_from_spec() -> bool {
        true
    }

    open spec fn from_spec(whole: i64) -> Amount {
        Amount { units: (whole * UNITS_PER_WHOLE) as i128 }
    }
}

} // verus!
