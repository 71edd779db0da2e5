//! The unit conversion request/result carried by the protected milk operation.
//!
//! A request names a quantity in exactly one of four recognized units; the
//! transform replaces it by the complementary unit, computed with a fixed
//! linear factor. Quantities are held in micro-units (millionths of a gallon,
//! liter, pint or litre), so the factors are exact integer ratios over
//! [`SCALE`]: converting multiplies by the factor's numerator and divides by
//! `SCALE`, truncating. The transform itself is pure and touches no shared
//! state; whether a request may run at all is the bucket's decision, made in
//! `milk`.

use vstd::prelude::*;
use vstd::arithmetic::div_mod::lemma_div_is_ordered;
use vstd::arithmetic::mul::lemma_mul_upper_bound;

verus! {

/// Micro-units per whole unit: every quantity is a count of millionths.
pub const SCALE: u64 = 1_000_000;

/// Whole-gallon micro-units per liter: one liter is 0.264172 gallons.
pub const LITERS_TO_GALLONS: u64 = 264_172;

/// Whole-liter micro-units per gallon: one gallon is 3.785412 liters.
pub const GALLONS_TO_LITERS: u64 = 3_785_412;

/// Whole-pint micro-units per litre: one litre is 1.759754 pints.
pub const LITRES_TO_PINTS: u64 = 1_759_754;

/// Whole-litre micro-units per pint: one pint is 0.56826 litres.
pub const PINTS_TO_LITRES: u64 = 568_260;

/// Largest factor a conversion ever multiplies by.
pub const MAX_FACTOR: u64 = 4_000_000;

/// Largest representable quantity, in micro-units (a billion whole units):
/// keeps every converted result inside `u64`.
pub const MAX_QTY_MICRO: u64 = 1_000_000_000_000_000;

/// A quantity scaled by a fixed conversion factor, truncating to micro-units.
pub open spec fn scaled(q: u64, factor: u64) -> u64 {
    ((q * factor) / (SCALE as int)) as u64
}

/// A conversion request or result: at most one quantity per recognized unit,
/// each in micro-units of that unit.
#[derive(Clone, Debug, PartialEq, Eq)]
pub struct UnitConverter {
    pub gallons: Option<u64>,
    pub liters: Option<u64>,
    pub pints: Option<u64>,
    pub litres: Option<u64>,
}

impl UnitConverter {
    /// How many of the four unit fields are populated.
    pub open spec fn spec_present_count(&self) -> int {
        (if self.gallons is Some {
            1int
        } else {
            0int
        }) + (if self.liters is Some {
            1int
        } else {
            0int
        }) + (if self.litres is Some {
            1int
        } else {
            0int
        }) + (if self.pints is Some {
            1int
        } else {
            0int
        })
    }

    /// A request is valid exactly when exactly one field is populated; zero or
    /// several populated fields are a validation failure, not a partial
    /// success.
    pub open spec fn spec_is_valid(&self) -> bool {
        self.spec_present_count() == 1
    }

    /// Every populated quantity is small enough that its conversion fits.
    pub open spec fn wf(&self) -> bool {
        &&& (self.gallons matches Some(q) ==> q <= MAX_QTY_MICRO)
        &&& (self.liters matches Some(q) ==> q <= MAX_QTY_MICRO)
        &&& (self.pints matches Some(q) ==> q <= MAX_QTY_MICRO)
        &&& (self.litres matches Some(q) ==> q <= MAX_QTY_MICRO)
    }

    /// What `convert` produces: the first populated field, in the fixed
    /// priority order, converted to its complementary unit; nothing when no
    /// field is populated.
    pub open spec fn spec_convert(&self) -> Option<UnitConverter> {
        if self.liters is Some {
            Some(
                UnitConverter {
                    gallons: Some(scaled(self.liters->0, LITERS_TO_GALLONS)),
                    liters: None,
                    pints: None,
                    litres: None,
                },
            )
        } else if self.gallons is Some {
            Some(
                UnitConverter {
                    gallons: None,
                    liters: Some(scaled(self.gallons->0, GALLONS_TO_LITERS)),
                    pints: None,
                    litres: None,
                },
            )
        } else if self.litres is Some {
            Some(
                UnitConverter {
                    gallons: None,
                    liters: None,
                    pints: Some(scaled(self.litres->0, LITRES_TO_PINTS)),
                    litres: None,
                },
            )
        } else if self.pints is Some {
            Some(
                UnitConverter {
                    gallons: None,
                    liters: None,
                    pints: None,
                    litres: Some(scaled(self.pints->0, PINTS_TO_LITRES)),
                },
            )
        } else {
            None
        }
    }

    /// Validation boundary: accepts exactly the requests with exactly one
    /// populated field.
    pub fn is_valid(&self) -> (r: bool)
        ensures
            r == self.spec_is_valid(),
    {
        let mut counter: u64 = 0;
        if self.gallons.is_some() {
            counter += 1;
        }
        if self.liters.is_some() {
            counter += 1;
        }
        if self.litres.is_some() {
            counter += 1;
        }
        if self.pints.is_some() {
            counter += 1;
        }
        counter == 1
    }

    /// Apply the fixed conversion factor for whichever field is populated
    /// (first in priority order when several are), producing a result with
    /// only the complementary unit set. Errs exactly when no field is
    /// populated — the defensive fallback behind `is_valid`.
    pub fn convert(&self) -> (r: Result<UnitConverter, String>)
        requires
            self.wf(),
        ensures
            r is Ok <==> self.spec_convert() is Some,
            r matches Ok(c) ==> Some(c) == self.spec_convert(),
            r matches Err(m) ==> m@ == "all variables are None"@,
    {
        if let Some(liter_qnt) = self.liters {
            Ok(
                UnitConverter {
                    gallons: Some(scale_quantity(liter_qnt, LITERS_TO_GALLONS)),
                    liters: None,
                    pints: None,
                    litres: None,
                },
            )
        } else if let Some(gallon_qnt) = self.gallons {
            Ok(
                UnitConverter {
                    gallons: None,
                    liters: Some(scale_quantity(gallon_qnt, GALLONS_TO_LITERS)),
                    pints: None,
                    litres: None,
                },
            )
        } else if let Some(litres_qnt) = self.litres {
            Ok(
                UnitConverter {
                    gallons: None,
                    liters: None,
                    pints: Some(scale_quantity(litres_qnt, LITRES_TO_PINTS)),
                    litres: None,
                },
            )
        } else if let Some(pints_qnt) = self.pints {
            Ok(
                UnitConverter {
                    gallons: None,
                    liters: None,
                    pints: None,
                    litres: Some(scale_quantity(pints_qnt, PINTS_TO_LITRES)),
                },
            )
        } else {
            Err(String::from_str("all variables are None"))
        }
    }
}

/// Conversion round-trip: converting a quantity by factor `a` and converting
/// the result back by factor `b` approximates the original within the
/// tolerance the fixed factors allow. When `a * b` is at most `SCALE²` (as it
/// is for each complementary factor pair), the round trip never gains, and
/// what it loses is bounded by the factors' deficit plus the two truncations:
/// `SCALE² * (q - back) <= (SCALE² - a*b) * q + (SCALE - 1) * (b + SCALE)`.
pub proof fn lemma_scaled_round_trip(q: u64, a: u64, b: u64)
    requires
        q <= MAX_QTY_MICRO,
        a <= MAX_FACTOR,
        b <= MAX_FACTOR,
        a * b <= SCALE * SCALE,
    ensures
        scaled(scaled(q, a), b) <= q,
        (SCALE * SCALE) * (q - scaled(scaled(q, a), b)) <= (SCALE * SCALE - a * b) * q + (SCALE
            - 1) * (b + SCALE),
{
    let s = SCALE as int;
    let qi = q as int;
    let ai = a as int;
    let bi = b as int;
    let r1 = (qi * ai) / s;
    let m1 = (qi * ai) % s;
    vstd::arithmetic::div_mod::lemma_fundamental_div_mod(qi * ai, s);
    vstd::arithmetic::div_mod::lemma_mod_bound(qi * ai, s);
    lemma_mul_upper_bound(qi, MAX_QTY_MICRO as int, ai, MAX_FACTOR as int);
    vstd::arithmetic::div_mod::lemma_div_pos_is_pos(qi * ai, s);
    lemma_div_is_ordered(qi * ai, MAX_QTY_MICRO as int * MAX_FACTOR as int, s);
    assert(scaled(q, a) == r1);
    let r2 = (r1 * bi) / s;
    let m2 = (r1 * bi) % s;
    vstd::arithmetic::div_mod::lemma_fundamental_div_mod(r1 * bi, s);
    vstd::arithmetic::div_mod::lemma_mod_bound(r1 * bi, s);
    lemma_mul_upper_bound(r1, 4_000_000_000_000_000int, bi, MAX_FACTOR as int);
    vstd::arithmetic::div_mod::lemma_div_pos_is_pos(r1 * bi, s);
    lemma_div_is_ordered(r1 * bi, 4_000_000_000_000_000int * MAX_FACTOR as int, s);
    assert(scaled(scaled(q, a), b) == r2);
    assert(s * (r1 * bi) == s * s * r2 + s * m2) by (nonlinear_arith)
        requires
            r1 * bi == s * r2 + m2,
    ;
    assert(s * (r1 * bi) == (qi * ai) * bi - m1 * bi) by (nonlinear_arith)
        requires
            qi * ai == s * r1 + m1,
    ;
    assert((qi * ai) * bi == qi * (ai * bi)) by (nonlinear_arith);
    assert(s * s * r2 == qi * (ai * bi) - m1 * bi - s * m2);
    assert(qi * (ai * bi) <= qi * (s * s)) by (nonlinear_arith)
        requires
            0 <= qi,
            ai * bi <= s * s,
    ;
    assert(0 <= m1 * bi) by (nonlinear_arith)
        requires
            0 <= m1,
            0 <= bi,
    ;
    assert(m1 * bi <= (s - 1) * bi) by (nonlinear_arith)
        requires
            m1 <= s - 1,
            0 <= bi,
    ;
    assert(s * s * r2 <= s * s * qi ==> r2 <= qi) by (nonlinear_arith)
        requires
            0 < s,
    ;
    assert(s * s * (qi - r2) == (s * s - ai * bi) * qi + m1 * bi + s * m2) by (nonlinear_arith)
        requires
            s * s * r2 == qi * (ai * bi) - m1 * bi - s * m2,
    ;
}

/// Round trip liters → gallons → liters: never gains, and loses at most
/// 0.000141136 of the quantity plus the two truncations.
pub proof fn lemma_liter_gallon_round_trip(q: u64)
    requires
        q <= MAX_QTY_MICRO,
    ensures
        scaled(scaled(q, LITERS_TO_GALLONS), GALLONS_TO_LITERS) <= q,
        (SCALE * SCALE) * (q - scaled(scaled(q, LITERS_TO_GALLONS), GALLONS_TO_LITERS)) <= 141_136
            * q + 999_999 * (GALLONS_TO_LITERS + SCALE),
{
    lemma_scaled_round_trip(q, LITERS_TO_GALLONS, GALLONS_TO_LITERS);
}

/// Round trip litres → pints → litres: never gains, and loses at most
/// 0.00219196 of the quantity plus the two truncations.
pub proof fn lemma_litre_pint_round_trip(q: u64)
    requires
        q <= MAX_QTY_MICRO,
    ensures
        scaled(scaled(q, LITRES_TO_PINTS), PINTS_TO_LITRES) <= q,
        (SCALE * SCALE) * (q - scaled(scaled(q, LITRES_TO_PINTS), PINTS_TO_LITRES)) <= 2_191_960
            * q + 999_999 * (PINTS_TO_LITRES + SCALE),
{
    lemma_scaled_round_trip(q, LITRES_TO_PINTS, PINTS_TO_LITRES);
}

/// Multiply a quantity by a conversion factor and truncate back to
/// micro-units. The intermediate product is taken in 128 bits, and the bounds
/// on the arguments keep the final result inside `u64`.
fn scale_quantity(q: u64, factor: u64) -> (r: u64)
    requires
        q <= MAX_QTY_MICRO,
        factor <= MAX_FACTOR,
    ensures
        r == scaled(q, factor),
{
    proof {
        lemma_mul_upper_bound(q as int, MAX_QTY_MICRO as int, factor as int, MAX_FACTOR as int);
        lemma_div_is_ordered(
            (q * factor) as int,
            (MAX_QTY_MICRO * MAX_FACTOR) as int,
            SCALE as int,
        );
    }
    let product: u128 = (q as u128) * (factor as u128);
    let micro: u128 = product / (SCALE as u128);
    micro as u64
}

} // verus!
