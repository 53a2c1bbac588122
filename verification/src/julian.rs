use vstd::prelude::*;

verus! {

use vstd::arithmetic::div_mod::lemma_fundamental_div_mod;
use vstd::arithmetic::div_mod::lemma_fundamental_div_mod_converse;
use vstd::arithmetic::div_mod::lemma_mod_pos_bound;

/// Floor division: the largest integer not above the exact quotient.  For a
/// positive divisor this coincides with Euclidean division, which is what
/// `/` means on `int`.
fn floor_div(a: i64, b: i64) -> (q: i64)
    requires
        1 <= b,
        i64::MIN < a,
    ensures
        q == a as int / b as int,
{
    let bu = b as u64;
    if a >= 0 {
        let au = a as u64;
        let qu = au / bu;
        proof {
            lemma_fundamental_div_mod(au as int, bu as int);
            lemma_mod_pos_bound(au as int, bu as int);
            lemma_fundamental_div_mod_converse(
                a as int,
                b as int,
                qu as int,
                au as int % bu as int,
            );
        }
        qu as i64
    } else {
        let na = (-a) as u64;
        let qq = na / bu;
        let rr = na % bu;
        proof {
            lemma_fundamental_div_mod(na as int, bu as int);
            lemma_mod_pos_bound(na as int, bu as int);
        }
        if rr == 0 {
            proof {
                assert(a as int == -(qq as int) * b as int + 0) by (nonlinear_arith)
                    requires
                        na as int == bu as int * qq as int + rr as int,
                        rr as int == 0,
                        a as int == -(na as int),
                        bu as int == b as int,
                ;
                lemma_fundamental_div_mod_converse(a as int, b as int, -(qq as int), 0);
            }
            -(qq as i64)
        } else {
            proof {
                assert(bu as int * qq as int == na - rr);
                assert(qq as int <= qq as int * bu as int) by (nonlinear_arith)
                    requires
                        qq as int >= 0,
                        bu as int >= 1,
                ;
                assert(a as int == (-(qq as int) - 1) * b as int + (b as int - rr as int))
                    by (nonlinear_arith)
                    requires
                        na as int == bu as int * qq as int + rr as int,
                        a as int == -(na as int),
                        bu as int == b as int,
                ;
                lemma_fundamental_div_mod_converse(
                    a as int,
                    b as int,
                    -(qq as int) - 1,
                    b as int - rr as int,
                );
            }
            -((qq + 1) as i64)
        }
    }
}

/// The Julian day number of the given proleptic Gregorian calendar date:
/// the number of the astronomical Julian day that begins at noon of that
/// date.  The Julian date of midnight is this number minus one half, plus
/// the fraction of the day elapsed.
pub open spec fn spec_julian_day_number(year: int, month: int, day: int) -> int {
    let yy = if month < 3 {
        year - 1
    } else {
        year
    };
    let mm = if month < 3 {
        month + 12
    } else {
        month
    };
    let a = yy / 100;
    let b = 2 - a + a / 4;
    (1461 * (yy + 4716)) / 4 + (306001 * (mm + 1)) / 10000 + day + b - 1524
}

/// Computes the Julian day number of a calendar date, exactly.
///
/// The century terms make the count Gregorian; for example the first day of
/// 2000 has day number 2451545.
pub fn julian_day_number(year: i64, month: i64, day: i64) -> (r: i64)
    requires
        1 <= month <= 12,
        1 <= day <= 31,
        -5_000_000 <= year <= 5_000_000,
    ensures
        r == spec_julian_day_number(year as int, month as int, day as int),
{
    let yy: i64 = if month < 3 {
        year - 1
    } else {
        year
    };
    let mm: i64 = if month < 3 {
        month + 12
    } else {
        month
    };
    let a = floor_div(yy, 100);
    let b = 2 - a + floor_div(a, 4);
    let t1 = floor_div(1461 * (yy + 4716), 4);
    let t2 = floor_div(306001 * (mm + 1), 10000);
    t1 + t2 + day + b - 1524
}

} // verus!
