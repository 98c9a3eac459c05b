//! Fixed-point trigonometry on micro-degree angles.
//!
//! Cosine and sine are piecewise-linear interpolations of a table
//! sampled once per degree; the arctangent used by `atan2_fp` is a
//! piecewise-linear interpolation of a table sampled at 64 ratios
//! between 0 and 1.  All values are scaled by `TRIG_ONE`.  The spec
//! functions define the interpolation exactly; the executable
//! functions return precisely the specified values.

use crate::angle::{HALF_TURN, MICRO_DEG, QUARTER_TURN};
use vstd::arithmetic::div_mod::{
    lemma_div_is_ordered, lemma_div_multiples_vanish, lemma_div_pos_is_pos, lemma_mod_bound,
};
use vstd::prelude::*;

verus! {

/// Fixed-point scale of the trigonometric values: 1.0 is 1_000_000.
pub const TRIG_ONE: i64 = 1_000_000;

/// Step between two arctangent samples: TRIG_ONE / 64.
pub const ATAN_STEP: i64 = 15_625;

/// Largest argument magnitude `atan2_fp` accepts; keeps the ratio
/// numerator `p * TRIG_ONE` within `i64`.
pub const ATAN2_MAX: i64 = 9_000_000_000_000;

/// Cosine samples: `cos_entry(d)` is cos(d degrees) scaled by
/// `TRIG_ONE`, for `d` in 0..=90; 0 outside the sampled range.
pub open spec fn cos_entry(d: int) -> int {
    if d == 0 {
        1000000
    } else if d == 1 {
        999848
    } else if d == 2 {
        999391
    } else if d == 3 {
        998630
    } else if d == 4 {
        997564
    } else if d == 5 {
        996195
    } else if d == 6 {
        994522
    } else if d == 7 {
        992546
    } else if d == 8 {
        990268
    } else if d == 9 {
        987688
    } else if d == 10 {
        984808
    } else if d == 11 {
        981627
    } else if d == 12 {
        978148
    } else if d == 13 {
        974370
    } else if d == 14 {
        970296
    } else if d == 15 {
        965926
    } else if d == 16 {
        961262
    } else if d == 17 {
        956305
    } else if d == 18 {
        951057
    } else if d == 19 {
        945519
    } else if d == 20 {
        939693
    } else if d == 21 {
        933580
    } else if d == 22 {
        927184
    } else if d == 23 {
        920505
    } else if d == 24 {
        913545
    } else if d == 25 {
        906308
    } else if d == 26 {
        898794
    } else if d == 27 {
        891007
    } else if d == 28 {
        882948
    } else if d == 29 {
        874620
    } else if d == 30 {
        866025
    } else if d == 31 {
        857167
    } else if d == 32 {
        848048
    } else if d == 33 {
        838671
    } else if d == 34 {
        829038
    } else if d == 35 {
        819152
    } else if d == 36 {
        809017
    } else if d == 37 {
        798636
    } else if d == 38 {
        788011
    } else if d == 39 {
        777146
    } else if d == 40 {
        766044
    } else if d == 41 {
        754710
    } else if d == 42 {
        743145
    } else if d == 43 {
        731354
    } else if d == 44 {
        719340
    } else if d == 45 {
        707107
    } else if d == 46 {
        694658
    } else if d == 47 {
        681998
    } else if d == 48 {
        669131
    } else if d == 49 {
        656059
    } else if d == 50 {
        642788
    } else if d == 51 {
        629320
    } else if d == 52 {
        615661
    } else if d == 53 {
        601815
    } else if d == 54 {
        587785
    } else if d == 55 {
        573576
    } else if d == 56 {
        559193
    } else if d == 57 {
        544639
    } else if d == 58 {
        529919
    } else if d == 59 {
        515038
    } else if d == 60 {
        500000
    } else if d == 61 {
        484810
    } else if d == 62 {
        469472
    } else if d == 63 {
        453990
    } else if d == 64 {
        438371
    } else if d == 65 {
        422618
    } else if d == 66 {
        406737
    } else if d == 67 {
        390731
    } else if d == 68 {
        374607
    } else if d == 69 {
        358368
    } else if d == 70 {
        342020
    } else if d == 71 {
        325568
    } else if d == 72 {
        309017
    } else if d == 73 {
        292372
    } else if d == 74 {
        275637
    } else if d == 75 {
        258819
    } else if d == 76 {
        241922
    } else if d == 77 {
        224951
    } else if d == 78 {
        207912
    } else if d == 79 {
        190809
    } else if d == 80 {
        173648
    } else if d == 81 {
        156434
    } else if d == 82 {
        139173
    } else if d == 83 {
        121869
    } else if d == 84 {
        104528
    } else if d == 85 {
        87156
    } else if d == 86 {
        69756
    } else if d == 87 {
        52336
    } else if d == 88 {
        34899
    } else if d == 89 {
        17452
    } else if d == 90 {
        0
    } else {
        0
    }
}

/// Arctangent samples: `atan_entry(i)` is atan(i / 64) in
/// micro-degrees, for `i` in 0..=64; 0 outside the sampled range.
pub open spec fn atan_entry(i: int) -> int {
    if i == 0 {
        0
    } else if i == 1 {
        895174
    } else if i == 2 {
        1789911
    } else if i == 3 {
        2683775
    } else if i == 4 {
        3576334
    } else if i == 5 {
        4467159
    } else if i == 6 {
        5355825
    } else if i == 7 {
        6241914
    } else if i == 8 {
        7125016
    } else if i == 9 {
        8004729
    } else if i == 10 {
        8880659
    } else if i == 11 {
        9752425
    } else if i == 12 {
        10619655
    } else if i == 13 {
        11481991
    } else if i == 14 {
        12339087
    } else if i == 15 {
        13190611
    } else if i == 16 {
        14036243
    } else if i == 17 {
        14875682
    } else if i == 18 {
        15708638
    } else if i == 19 {
        16534838
    } else if i == 20 {
        17354025
    } else if i == 21 {
        18165957
    } else if i == 22 {
        18970408
    } else if i == 23 {
        19767169
    } else if i == 24 {
        20556045
    } else if i == 25 {
        21336859
    } else if i == 26 {
        22109448
    } else if i == 27 {
        22873665
    } else if i == 28 {
        23629378
    } else if i == 29 {
        24376469
    } else if i == 30 {
        25114835
    } else if i == 31 {
        25844388
    } else if i == 32 {
        26565051
    } else if i == 33 {
        27276763
    } else if i == 34 {
        27979474
    } else if i == 35 {
        28673146
    } else if i == 36 {
        29357754
    } else if i == 37 {
        30033280
    } else if i == 38 {
        30699723
    } else if i == 39 {
        31357085
    } else if i == 40 {
        32005383
    } else if i == 41 {
        32644640
    } else if i == 42 {
        33274888
    } else if i == 43 {
        33896167
    } else if i == 44 {
        34508523
    } else if i == 45 {
        35112011
    } else if i == 46 {
        35706691
    } else if i == 47 {
        36292630
    } else if i == 48 {
        36869898
    } else if i == 49 {
        37438572
    } else if i == 50 {
        37998732
    } else if i == 51 {
        38550465
    } else if i == 52 {
        39093859
    } else if i == 53 {
        39629005
    } else if i == 54 {
        40156000
    } else if i == 55 {
        40674940
    } else if i == 56 {
        41185925
    } else if i == 57 {
        41689058
    } else if i == 58 {
        42184443
    } else if i == 59 {
        42672185
    } else if i == 60 {
        43152390
    } else if i == 61 {
        43625165
    } else if i == 62 {
        44090620
    } else if i == 63 {
        44548861
    } else if i == 64 {
        45000000
    } else {
        0
    }
}

fn cos_entry_at(d: u64) -> (c: i64)
    ensures
        c == cos_entry(d as int),
{
    if d == 0 {
        1000000
    } else if d == 1 {
        999848
    } else if d == 2 {
        999391
    } else if d == 3 {
        998630
    } else if d == 4 {
        997564
    } else if d == 5 {
        996195
    } else if d == 6 {
        994522
    } else if d == 7 {
        992546
    } else if d == 8 {
        990268
    } else if d == 9 {
        987688
    } else if d == 10 {
        984808
    } else if d == 11 {
        981627
    } else if d == 12 {
        978148
    } else if d == 13 {
        974370
    } else if d == 14 {
        970296
    } else if d == 15 {
        965926
    } else if d == 16 {
        961262
    } else if d == 17 {
        956305
    } else if d == 18 {
        951057
    } else if d == 19 {
        945519
    } else if d == 20 {
        939693
    } else if d == 21 {
        933580
    } else if d == 22 {
        927184
    } else if d == 23 {
        920505
    } else if d == 24 {
        913545
    } else if d == 25 {
        906308
    } else if d == 26 {
        898794
    } else if d == 27 {
        891007
    } else if d == 28 {
        882948
    } else if d == 29 {
        874620
    } else if d == 30 {
        866025
    } else if d == 31 {
        857167
    } else if d == 32 {
        848048
    } else if d == 33 {
        838671
    } else if d == 34 {
        829038
    } else if d == 35 {
        819152
    } else if d == 36 {
        809017
    } else if d == 37 {
        798636
    } else if d == 38 {
        788011
    } else if d == 39 {
        777146
    } else if d == 40 {
        766044
    } else if d == 41 {
        754710
    } else if d == 42 {
        743145
    } else if d == 43 {
        731354
    } else if d == 44 {
        719340
    } else if d == 45 {
        707107
    } else if d == 46 {
        694658
    } else if d == 47 {
        681998
    } else if d == 48 {
        669131
    } else if d == 49 {
        656059
    } else if d == 50 {
        642788
    } else if d == 51 {
        629320
    } else if d == 52 {
        615661
    } else if d == 53 {
        601815
    } else if d == 54 {
        587785
    } else if d == 55 {
        573576
    } else if d == 56 {
        559193
    } else if d == 57 {
        544639
    } else if d == 58 {
        529919
    } else if d == 59 {
        515038
    } else if d == 60 {
        500000
    } else if d == 61 {
        484810
    } else if d == 62 {
        469472
    } else if d == 63 {
        453990
    } else if d == 64 {
        438371
    } else if d == 65 {
        422618
    } else if d == 66 {
        406737
    } else if d == 67 {
        390731
    } else if d == 68 {
        374607
    } else if d == 69 {
        358368
    } else if d == 70 {
        342020
    } else if d == 71 {
        325568
    } else if d == 72 {
        309017
    } else if d == 73 {
        292372
    } else if d == 74 {
        275637
    } else if d == 75 {
        258819
    } else if d == 76 {
        241922
    } else if d == 77 {
        224951
    } else if d == 78 {
        207912
    } else if d == 79 {
        190809
    } else if d == 80 {
        173648
    } else if d == 81 {
        156434
    } else if d == 82 {
        139173
    } else if d == 83 {
        121869
    } else if d == 84 {
        104528
    } else if d == 85 {
        87156
    } else if d == 86 {
        69756
    } else if d == 87 {
        52336
    } else if d == 88 {
        34899
    } else if d == 89 {
        17452
    } else if d == 90 {
        0
    } else {
        0
    }
}

fn atan_entry_at(i: u64) -> (t: i64)
    ensures
        t == atan_entry(i as int),
{
    if i == 0 {
        0
    } else if i == 1 {
        895174
    } else if i == 2 {
        1789911
    } else if i == 3 {
        2683775
    } else if i == 4 {
        3576334
    } else if i == 5 {
        4467159
    } else if i == 6 {
        5355825
    } else if i == 7 {
        6241914
    } else if i == 8 {
        7125016
    } else if i == 9 {
        8004729
    } else if i == 10 {
        8880659
    } else if i == 11 {
        9752425
    } else if i == 12 {
        10619655
    } else if i == 13 {
        11481991
    } else if i == 14 {
        12339087
    } else if i == 15 {
        13190611
    } else if i == 16 {
        14036243
    } else if i == 17 {
        14875682
    } else if i == 18 {
        15708638
    } else if i == 19 {
        16534838
    } else if i == 20 {
        17354025
    } else if i == 21 {
        18165957
    } else if i == 22 {
        18970408
    } else if i == 23 {
        19767169
    } else if i == 24 {
        20556045
    } else if i == 25 {
        21336859
    } else if i == 26 {
        22109448
    } else if i == 27 {
        22873665
    } else if i == 28 {
        23629378
    } else if i == 29 {
        24376469
    } else if i == 30 {
        25114835
    } else if i == 31 {
        25844388
    } else if i == 32 {
        26565051
    } else if i == 33 {
        27276763
    } else if i == 34 {
        27979474
    } else if i == 35 {
        28673146
    } else if i == 36 {
        29357754
    } else if i == 37 {
        30033280
    } else if i == 38 {
        30699723
    } else if i == 39 {
        31357085
    } else if i == 40 {
        32005383
    } else if i == 41 {
        32644640
    } else if i == 42 {
        33274888
    } else if i == 43 {
        33896167
    } else if i == 44 {
        34508523
    } else if i == 45 {
        35112011
    } else if i == 46 {
        35706691
    } else if i == 47 {
        36292630
    } else if i == 48 {
        36869898
    } else if i == 49 {
        37438572
    } else if i == 50 {
        37998732
    } else if i == 51 {
        38550465
    } else if i == 52 {
        39093859
    } else if i == 53 {
        39629005
    } else if i == 54 {
        40156000
    } else if i == 55 {
        40674940
    } else if i == 56 {
        41185925
    } else if i == 57 {
        41689058
    } else if i == 58 {
        42184443
    } else if i == 59 {
        42672185
    } else if i == 60 {
        43152390
    } else if i == 61 {
        43625165
    } else if i == 62 {
        44090620
    } else if i == 63 {
        44548861
    } else if i == 64 {
        45000000
    } else {
        0
    }
}

/// Every cosine sample lies in [0, TRIG_ONE], and the samples do not
/// increase from 0 to 90 degrees.
pub proof fn lemma_cos_entry_bounds(d: int)
    ensures
        0 <= cos_entry(d) <= TRIG_ONE,
        0 <= d <= 90 ==> cos_entry(d + 1) <= cos_entry(d),
{
}

/// Every arctangent sample lies in [0, 45 degrees], and the samples
/// do not decrease.
pub proof fn lemma_atan_entry_bounds(i: int)
    ensures
        0 <= atan_entry(i) <= 45_000_000,
        0 <= i < 64 ==> atan_entry(i) <= atan_entry(i + 1),
{
}

/// A scaled fraction of a non-negative quantity stays between 0 and
/// the quantity: `0 <= d * f / step <= d` when `0 <= f <= step`.
pub proof fn lemma_scaled_frac_bounds(d: int, f: int, step: int)
    requires
        0 <= d,
        0 <= f <= step,
        0 < step,
    ensures
        0 <= d * f / step <= d,
{
    assert(0 <= d * f) by (nonlinear_arith)
        requires
            0 <= d,
            0 <= f,
    ;
    assert(d * f <= d * step) by (nonlinear_arith)
        requires
            0 <= d,
            f <= step,
    ;
    lemma_div_pos_is_pos(d * f, step);
    lemma_div_is_ordered(d * f, d * step, step);
    lemma_div_multiples_vanish(d, step);
    assert(d * step == step * d) by (nonlinear_arith);
    assert((step * d) / step == d);
}

/// Piecewise-linear interpolation of the cosine table, for arguments
/// in [0, QUARTER_TURN] micro-degrees.
pub open spec fn cos_interp(a: int) -> int {
    let d = a / (MICRO_DEG as int);
    let f = a % (MICRO_DEG as int);
    cos_entry(d) - (cos_entry(d) - cos_entry(d + 1)) * f / (MICRO_DEG as int)
}

/// Fixed-point cosine of an angle in [-HALF_TURN, HALF_TURN]
/// micro-degrees, scaled by TRIG_ONE.
pub open spec fn spec_cos(a: int) -> int {
    let b = if a < 0 {
        -a
    } else {
        a
    };
    if b <= QUARTER_TURN {
        cos_interp(b)
    } else {
        -cos_interp(HALF_TURN - b)
    }
}

/// Fixed-point sine: `sin(a) == cos(a - 90 degrees)`, extended to
/// negative angles by odd symmetry.
pub open spec fn spec_sin(a: int) -> int {
    if a >= 0 {
        spec_cos(a - QUARTER_TURN)
    } else {
        -spec_cos(-a - QUARTER_TURN)
    }
}

fn cos_interp_fp(b: i64) -> (c: i64)
    requires
        0 <= b <= QUARTER_TURN,
    ensures
        c == cos_interp(b as int),
        0 <= c <= TRIG_ONE,
{
    let d = b / MICRO_DEG;
    let f = b % MICRO_DEG;
    proof {
        let m = MICRO_DEG as int;
        lemma_mod_bound(b as int, m);
        lemma_div_pos_is_pos(b as int, m);
        lemma_div_is_ordered(b as int, QUARTER_TURN as int, m);
        assert((QUARTER_TURN as int) / m == 90);
        lemma_cos_entry_bounds(d as int);
        lemma_cos_entry_bounds(d as int + 1);
        lemma_scaled_frac_bounds(cos_entry(d as int) - cos_entry(d as int + 1), f as int, m);
    }
    let ca = cos_entry_at(d as u64);
    let cb = cos_entry_at((d + 1) as u64);
    ca - ((ca - cb) * f) / MICRO_DEG
}

/// Fixed-point cosine of a normalized angle.
pub fn cos_fp(a: i64) -> (c: i64)
    requires
        -HALF_TURN <= a <= HALF_TURN,
    ensures
        c == spec_cos(a as int),
        -TRIG_ONE <= c <= TRIG_ONE,
{
    let b = if a < 0 {
        -a
    } else {
        a
    };
    if b <= QUARTER_TURN {
        cos_interp_fp(b)
    } else {
        -cos_interp_fp(HALF_TURN - b)
    }
}

/// Fixed-point sine of a normalized angle.
pub fn sin_fp(a: i64) -> (s: i64)
    requires
        -HALF_TURN <= a <= HALF_TURN,
    ensures
        s == spec_sin(a as int),
        -TRIG_ONE <= s <= TRIG_ONE,
{
    if a >= 0 {
        cos_fp(a - QUARTER_TURN)
    } else {
        -cos_fp(-a - QUARTER_TURN)
    }
}

/// Piecewise-linear interpolation of the arctangent table, for ratio
/// arguments in [0, TRIG_ONE]; the result is in micro-degrees.
pub open spec fn atan_interp(u: int) -> int {
    let i = u / (ATAN_STEP as int);
    let f = u % (ATAN_STEP as int);
    atan_entry(i) + (atan_entry(i + 1) - atan_entry(i)) * f / (ATAN_STEP as int)
}

/// The interpolated arctangent stays between consecutive samples,
/// hence in [0, 45 degrees], on ratios in [0, TRIG_ONE].
pub proof fn lemma_atan_interp_bounds(u: int)
    requires
        0 <= u <= TRIG_ONE,
    ensures
        0 <= atan_interp(u) <= 45_000_000,
{
    let s = ATAN_STEP as int;
    let i = u / s;
    let f = u % s;
    lemma_mod_bound(u, s);
    lemma_div_pos_is_pos(u, s);
    lemma_div_is_ordered(u, TRIG_ONE as int, s);
    assert((TRIG_ONE as int) / s == 64);
    lemma_atan_entry_bounds(i);
    lemma_atan_entry_bounds(i + 1);
    if i == 64 {
        assert(u == TRIG_ONE) by {
            assert(u >= 64 * s) by {
                vstd::arithmetic::div_mod::lemma_fundamental_div_mod(u, s);
            }
        }
        assert(f == 0) by {
            vstd::arithmetic::div_mod::lemma_fundamental_div_mod(u, s);
        }
        assert((atan_entry(65) - atan_entry(64)) * 0 == 0);
        assert(0int / s == 0);
    } else {
        let diff = atan_entry(i + 1) - atan_entry(i);
        lemma_scaled_frac_bounds(diff, f, s);
    }
}

fn atan_interp_fp(u: i64) -> (t: i64)
    requires
        0 <= u <= TRIG_ONE,
    ensures
        t == atan_interp(u as int),
        0 <= t <= 45_000_000,
{
    proof {
        lemma_atan_interp_bounds(u as int);
    }
    let i = u / ATAN_STEP;
    let f = u % ATAN_STEP;
    proof {
        let s = ATAN_STEP as int;
        lemma_mod_bound(u as int, s);
        lemma_div_pos_is_pos(u as int, s);
        lemma_div_is_ordered(u as int, TRIG_ONE as int, s);
        assert((TRIG_ONE as int) / s == 64);
        lemma_atan_entry_bounds(i as int);
        lemma_atan_entry_bounds(i as int + 1);
    }
    if i == 64 {
        proof {
            let s = ATAN_STEP as int;
            vstd::arithmetic::div_mod::lemma_fundamental_div_mod(u as int, s);
            assert(u as int == 64 * s + (u as int % s));
            assert(u as int % s == 0);
            assert((atan_entry(65) - atan_entry(64)) * (u as int % s) == 0);
            assert(0int / s == 0);
        }
        atan_entry_at(64)
    } else {
        let ta = atan_entry_at(i as u64);
        let tb = atan_entry_at((i + 1) as u64);
        proof {
            lemma_scaled_frac_bounds(tb as int - ta as int, f as int, ATAN_STEP as int);
        }
        ta + ((tb - ta) * f) / ATAN_STEP
    }
}

/// Fixed-point two-argument arctangent on cartesian components, in
/// micro-degrees in (-HALF_TURN, HALF_TURN]; 0 for the zero vector.
/// The first octant is read off the arctangent table; the other
/// octants follow by the exact symmetries of the construction.
pub open spec fn spec_atan2(y: int, x: int) -> int {
    let p = if y < 0 {
        -y
    } else {
        y
    };
    let q = if x < 0 {
        -x
    } else {
        x
    };
    if p == 0 && q == 0 {
        0
    } else {
        let base = if p <= q {
            atan_interp(p * (TRIG_ONE as int) / q)
        } else {
            QUARTER_TURN - atan_interp(q * (TRIG_ONE as int) / p)
        };
        if y >= 0 {
            if x >= 0 {
                base
            } else {
                HALF_TURN - base
            }
        } else {
            if x >= 0 {
                -base
            } else if base == 0 {
                HALF_TURN as int
            } else {
                base - HALF_TURN
            }
        }
    }
}

/// The two-argument arctangent, executable form.
pub fn atan2_fp(y: i64, x: i64) -> (r: i64)
    requires
        -ATAN2_MAX <= y <= ATAN2_MAX,
        -ATAN2_MAX <= x <= ATAN2_MAX,
    ensures
        r == spec_atan2(y as int, x as int),
        -HALF_TURN < r <= HALF_TURN,
{
    let p = if y < 0 {
        -y
    } else {
        y
    };
    let q = if x < 0 {
        -x
    } else {
        x
    };
    if p == 0 && q == 0 {
        return 0;
    }
    let base = if p <= q {
        proof {
            lemma_ratio_in_unit(p as int, q as int);
        }
        atan_interp_fp((p * TRIG_ONE) / q)
    } else {
        proof {
            lemma_ratio_in_unit(q as int, p as int);
        }
        QUARTER_TURN - atan_interp_fp((q * TRIG_ONE) / p)
    };
    if y >= 0 {
        if x >= 0 {
            base
        } else {
            HALF_TURN - base
        }
    } else {
        if x >= 0 {
            -base
        } else if base == 0 {
            HALF_TURN
        } else {
            base - HALF_TURN
        }
    }
}

/// A ratio of a smaller non-negative numerator over a positive
/// denominator, scaled by TRIG_ONE, lands in [0, TRIG_ONE].
proof fn lemma_ratio_in_unit(p: int, q: int)
    requires
        0 <= p <= q,
        0 < q,
    ensures
        0 <= p * (TRIG_ONE as int) / q <= TRIG_ONE,
{
    let c = TRIG_ONE as int;
    assert(0 <= p * c) by (nonlinear_arith)
        requires
            0 <= p,
            0 <= c,
    ;
    assert(p * c <= q * c) by (nonlinear_arith)
        requires
            p <= q,
            0 <= c,
    ;
    lemma_div_pos_is_pos(p * c, q);
    lemma_div_is_ordered(p * c, q * c, q);
    lemma_div_multiples_vanish(c, q);
}

} // verus!
