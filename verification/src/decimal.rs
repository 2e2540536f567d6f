//! Fixed-scale decimal numbers: a 96-bit integer mantissa over a power of ten.
//!
//! A value is modelled by the integer number of *atoms* it holds, one atom being
//! `10^-28`, the finest step that any scale can express. Every decimal is a whole
//! number of atoms, so comparisons and sums are statements about integers.
use vstd::prelude::*;

verus! {

/// The largest scale, that is, the number of decimal places of one atom.
pub const MAX_SCALE: u32 = 28;

/// The largest absolute mantissa, `2^96 - 1`.
pub const MAX_MANTISSA: i128 = 79228162514264337593543950335;

/// `10^k` for `0 <= k <= 28`.
pub open spec fn pow10(k: int) -> int {
    if k == 0 {
        1
    } else if k == 1 {
        10
    } else if k == 2 {
        100
    } else if k == 3 {
        1000
    } else if k == 4 {
        10000
    } else if k == 5 {
        100000
    } else if k == 6 {
        1000000
    } else if k == 7 {
        10000000
    } else if k == 8 {
        100000000
    } else if k == 9 {
        1000000000
    } else if k == 10 {
        10000000000
    } else if k == 11 {
        100000000000
    } else if k == 12 {
        1000000000000
    } else if k == 13 {
        10000000000000
    } else if k == 14 {
        100000000000000
    } else if k == 15 {
        1000000000000000
    } else if k == 16 {
        10000000000000000
    } else if k == 17 {
        100000000000000000
    } else if k == 18 {
        1000000000000000000
    } else if k == 19 {
        10000000000000000000
    } else if k == 20 {
        100000000000000000000
    } else if k == 21 {
        1000000000000000000000
    } else if k == 22 {
        10000000000000000000000
    } else if k == 23 {
        100000000000000000000000
    } else if k == 24 {
        1000000000000000000000000
    } else if k == 25 {
        10000000000000000000000000
    } else if k == 26 {
        100000000000000000000000000
    } else if k == 27 {
        1000000000000000000000000000
    } else if k == 28 {
        10000000000000000000000000000
    } else {
        0
    }
}

/// One, in atoms.
pub open spec fn one() -> int {
    pow10(28)
}

/// `n / 10^scale` in atoms.
pub open spec fn atoms(n: int, scale: int) -> int {
    n * pow10(28 - scale)
}

/// `n / d` rounded to the nearest integer, halves to the even neighbour.
pub open spec fn round_half_even(n: int, d: int) -> int {
    let q = n / d;
    let r = n % d;
    if 2 * r < d || (2 * r == d && q % 2 == 0) {
        q
    } else {
        q + 1
    }
}

/// The decimal nearest to `n / d` atoms, looked for from step `10^k` atoms upwards: the finest step
/// at which the rounded mantissa fits is taken. `None` if it fits at no step.
pub open spec fn nearest_from(n: int, d: int, k: int) -> Option<int>
    decreases 29 - k,
{
    if k < 0 || k > 28 {
        None
    } else {
        let q = round_half_even(n, d * pow10(k));
        if -MAX_MANTISSA <= q <= MAX_MANTISSA {
            Some(q * pow10(k))
        } else {
            nearest_from(n, d, k + 1)
        }
    }
}

/// The decimal nearest to `n / d` atoms (`d > 0`), or `None` if it is out of range.
pub open spec fn nearest(n: int, d: int) -> Option<int> {
    nearest_from(n, d, 0)
}

/// The step, in atoms, to which `n / d` atoms are rounded by `nearest_from`; zero if it fits at no step.
pub open spec fn step_from(n: int, d: int, k: int) -> int
    decreases 29 - k,
{
    if k < 0 || k > 28 {
        0
    } else {
        let q = round_half_even(n, d * pow10(k));
        if -MAX_MANTISSA <= q <= MAX_MANTISSA {
            pow10(k)
        } else {
            step_from(n, d, k + 1)
        }
    }
}

/// The step, in atoms, to which `n / d` atoms are rounded.
pub open spec fn step(n: int, d: int) -> int {
    step_from(n, d, 0)
}

/// `a + b`, rounded to a decimal.
pub open spec fn sum(a: int, b: int) -> Option<int> {
    nearest(a + b, 1)
}

/// `a - b`, rounded to a decimal.
pub open spec fn difference(a: int, b: int) -> Option<int> {
    nearest(a - b, 1)
}

/// `a * b`, rounded to a decimal.
pub open spec fn product(a: int, b: int) -> Option<int> {
    nearest(a * b, one())
}

/// `a / b`, rounded to a decimal; `None` also for a zero divisor.
pub open spec fn quotient(a: int, b: int) -> Option<int> {
    if b > 0 {
        nearest(a * one(), b)
    } else if b < 0 {
        nearest(-a * one(), -b)
    } else {
        None
    }
}

/// A decimal with its decimal places: what its text shows.
pub struct Digits {
    pub atoms: int,
    /// The number of decimal places.
    pub scale: int,
}

/// Nothing, without decimal places.
pub open spec fn no_digits() -> Digits {
    Digits { atoms: 0, scale: 0 }
}

/// The largest scale, of `scale` at the most, at which the mantissa of `n / d` atoms fits when it is
/// rounded; zero where there is none.
pub open spec fn fitting_scale(n: int, d: int, scale: int) -> int
    decreases scale,
{
    if scale <= 0 {
        0
    } else if -MAX_MANTISSA <= round_half_even(n, d * pow10(28 - scale)) <= MAX_MANTISSA {
        scale
    } else {
        fitting_scale(n, d, scale - 1)
    }
}

/// The decimal places of a sum or difference of `n` atoms: those of the number with more of them, as far as
/// they fit. Adding zero, or adding to it, leaves the other number's places.
pub open spec fn sum_scale(a: Digits, b: Digits, n: int) -> int {
    if a.atoms == 0 {
        b.scale
    } else if b.atoms == 0 {
        a.scale
    } else {
        fitting_scale(n, 1, max_of(a.scale, b.scale))
    }
}

/// `a + b` with its decimal places.
pub open spec fn added(a: Digits, b: Digits) -> Option<Digits> {
    match sum(a.atoms, b.atoms) {
        Some(n) => Some(Digits { atoms: n, scale: sum_scale(a, b, a.atoms + b.atoms) }),
        None => None,
    }
}

/// `a - b` with its decimal places.
pub open spec fn subtracted(a: Digits, b: Digits) -> Option<Digits> {
    match difference(a.atoms, b.atoms) {
        Some(n) => Some(Digits { atoms: n, scale: sum_scale(a, b, a.atoms - b.atoms) }),
        None => None,
    }
}

/// The mantissa takes 32 bits at the most.
pub open spec fn is_short(a: Digits) -> bool {
    abs_of(a.atoms) < 0x1_0000_0000 * pow10(28 - a.scale)
}

/// The decimal places of a product: those of both numbers together, as far as they fit. A product with zero
/// has none, and neither has one of two short mantissas with more than 47 places, which is nothing.
pub open spec fn product_scale(a: Digits, b: Digits) -> int {
    if a.atoms == 0 || b.atoms == 0 {
        0
    } else if is_short(a) && is_short(b) && a.scale + b.scale > 47 {
        0
    } else {
        fitting_scale(a.atoms * b.atoms, one(), min_of(a.scale + b.scale, 28))
    }
}

/// `a * b` with its decimal places.
pub open spec fn multiplied(a: Digits, b: Digits) -> Option<Digits> {
    match product(a.atoms, b.atoms) {
        Some(n) => Some(Digits { atoms: n, scale: product_scale(a, b) }),
        None => None,
    }
}

/// The sum of two results with its decimal places.
pub open spec fn opt_added(a: Option<Digits>, b: Option<Digits>) -> Option<Digits> {
    match (a, b) {
        (Some(x), Some(y)) => added(x, y),
        _ => None,
    }
}

/// The decimal places that `rust_decimal` gives a quotient.
pub uninterp spec fn quotient_scale(a: int, a_scale: int, b: int, b_scale: int) -> int;

/// A result with its decimal places.
pub open spec fn opt_digits(d: Option<Decimal>) -> Option<Digits> {
    match d {
        Some(x) => Some(x.digits()),
        None => None,
    }
}

/// `a / b` with its decimal places.
pub open spec fn divided(a: Digits, b: Digits) -> Option<Digits> {
    match quotient(a.atoms, b.atoms) {
        Some(n) => Some(Digits { atoms: n, scale: quotient_scale(a.atoms, a.scale, b.atoms, b.scale) }),
        None => None,
    }
}

/// The numbers with their decimal places.
pub open spec fn all_digits(s: Seq<Decimal>) -> Seq<Digits> {
    s.map_values(|d: Decimal| d.digits())
}

/// The numbers added up from the first to the last, with the decimal places of the sum.
pub open spec fn total_digits(s: Seq<Digits>) -> Option<Digits>
    decreases s.len(),
{
    if s.len() == 0 {
        Some(no_digits())
    } else {
        opt_added(total_digits(s.drop_last()), Some(s.last()))
    }
}

/// The largest multiple of one that is at most `a`.
pub open spec fn floor_of(a: int) -> int {
    (a / one()) * one()
}

/// The sum of two results, where both are there and it is in range.
pub open spec fn opt_sum(a: Option<int>, b: Option<int>) -> Option<int> {
    if a is Some && b is Some {
        sum(a->0, b->0)
    } else {
        None
    }
}

/// The difference of two results, where both are there and it is in range.
pub open spec fn opt_difference(a: Option<int>, b: Option<int>) -> Option<int> {
    if a is Some && b is Some {
        difference(a->0, b->0)
    } else {
        None
    }
}

/// The product of two results, where both are there and it is in range.
pub open spec fn opt_product(a: Option<int>, b: Option<int>) -> Option<int> {
    if a is Some && b is Some {
        product(a->0, b->0)
    } else {
        None
    }
}

/// The quotient of two results, where both are there and it is in range.
pub open spec fn opt_quotient(a: Option<int>, b: Option<int>) -> Option<int> {
    if a is Some && b is Some {
        quotient(a->0, b->0)
    } else {
        None
    }
}

/// The smaller of the two, with its decimal places; the first where they are equal.
pub open spec fn lesser(a: Decimal, b: Decimal) -> Decimal {
    if a@ > b@ {
        b
    } else {
        a
    }
}

/// The atoms of a result, where there is one.
pub open spec fn opt_atoms(d: Option<Decimal>) -> Option<int> {
    match d {
        Some(x) => Some(x@),
        None => None,
    }
}

/// The atoms of each number.
pub open spec fn all_atoms(s: Seq<Decimal>) -> Seq<int> {
    s.map_values(|d: Decimal| d@)
}

/// The numbers added up from the first to the last, each step rounded to a decimal.
pub open spec fn total(s: Seq<int>) -> Option<int>
    decreases s.len(),
{
    if s.len() == 0 {
        Some(0)
    } else {
        opt_sum(total(s.drop_last()), Some(s.last()))
    }
}

/// The absolute value of `a`.
pub open spec fn abs_of(a: int) -> int {
    if a < 0 {
        -a
    } else {
        a
    }
}

/// The smaller of the two.
pub open spec fn min_of(a: int, b: int) -> int {
    if a > b {
        b
    } else {
        a
    }
}

/// The larger of the two.
pub open spec fn max_of(a: int, b: int) -> int {
    if a < b {
        b
    } else {
        a
    }
}

/// A decimal number: `mantissa / 10^scale`. Zero has no sign.
#[derive(Clone, Copy, Debug)]
pub struct Decimal {
    mantissa: i128,
    scale: u32,
}

impl View for Decimal {
    type V = int;

    /// The number of atoms.
    closed spec fn view(&self) -> int {
        atoms(self.mantissa as int, self.scale as int)
    }
}

impl Decimal {
    #[verifier::type_invariant]
    spec fn in_range(self) -> bool {
        &&& -MAX_MANTISSA <= self.mantissa <= MAX_MANTISSA
        &&& self.scale <= MAX_SCALE
    }

    /// The integer in front of the power of ten.
    pub closed spec fn mantissa_of(self) -> int {
        self.mantissa as int
    }

    /// The number of decimal places.
    pub closed spec fn scale_of(self) -> int {
        self.scale as int
    }

    /// The number with its decimal places.
    pub open spec fn digits(self) -> Digits {
        Digits { atoms: self@, scale: self.scale_of() }
    }

    /// `num / 10^scale`.
    pub fn new(num: i64, scale: u32) -> (r: Decimal)
        requires
            scale <= MAX_SCALE,
        ensures
            r@ == atoms(num as int, scale as int),
            r.mantissa_of() == num,
            r.scale_of() == scale,
    {
        Decimal { mantissa: num as i128, scale }
    }
}

/// `rust_decimal::Decimal::checked_add`: the sum, rounded half to even at the finest
/// step at which it fits, or nothing when it is out of range. It keeps the larger scale, as far as it fits.
#[verifier::external_body]
pub(crate) fn checked_add(a: Decimal, b: Decimal) -> (r: Option<Decimal>)
    ensures
        opt_atoms(r) == sum(a@, b@),
        opt_digits(r) == added(a.digits(), b.digits()),
{
    let x = rust_decimal::Decimal::from_i128_with_scale(a.mantissa, a.scale);
    let y = rust_decimal::Decimal::from_i128_with_scale(b.mantissa, b.scale);
    let d = x.checked_add(y)?;
    Some(Decimal { mantissa: d.mantissa(), scale: d.scale() })
}

/// `rust_decimal::Decimal::checked_sub`: the difference, rounded half to even at the finest
/// step at which it fits, or nothing when it is out of range. It keeps the larger scale, as far as it fits.
#[verifier::external_body]
pub(crate) fn checked_sub(a: Decimal, b: Decimal) -> (r: Option<Decimal>)
    ensures
        opt_atoms(r) == difference(a@, b@),
        opt_digits(r) == subtracted(a.digits(), b.digits()),
{
    let x = rust_decimal::Decimal::from_i128_with_scale(a.mantissa, a.scale);
    let y = rust_decimal::Decimal::from_i128_with_scale(b.mantissa, b.scale);
    let d = x.checked_sub(y)?;
    Some(Decimal { mantissa: d.mantissa(), scale: d.scale() })
}

/// `rust_decimal::Decimal::checked_mul`: the product, rounded half to even at the finest
/// step at which it fits, or nothing when it is out of range. Its scale is the sum of the scales, as far as
/// it fits.
#[verifier::external_body]
pub(crate) fn checked_mul(a: Decimal, b: Decimal) -> (r: Option<Decimal>)
    ensures
        opt_atoms(r) == product(a@, b@),
        opt_digits(r) == multiplied(a.digits(), b.digits()),
{
    let x = rust_decimal::Decimal::from_i128_with_scale(a.mantissa, a.scale);
    let y = rust_decimal::Decimal::from_i128_with_scale(b.mantissa, b.scale);
    let d = x.checked_mul(y)?;
    Some(Decimal { mantissa: d.mantissa(), scale: d.scale() })
}

/// `rust_decimal::Decimal::checked_div`: the quotient, rounded half to even at the finest
/// step at which it fits, or nothing when it is out of range or the divisor is zero. Its scale depends on
/// the mantissas and scales of the two alone; of zero it is zero.
#[verifier::external_body]
pub(crate) fn checked_div(a: Decimal, b: Decimal) -> (r: Option<Decimal>)
    ensures
        opt_atoms(r) == quotient(a@, b@),
        r matches Some(d) ==> d.scale_of() == quotient_scale(a@, a.scale_of(), b@, b.scale_of()),
        r matches Some(d) ==> (a@ == 0 ==> d.scale_of() == 0),
{
    let x = rust_decimal::Decimal::from_i128_with_scale(a.mantissa, a.scale);
    let y = rust_decimal::Decimal::from_i128_with_scale(b.mantissa, b.scale);
    let d = x.checked_div(y)?;
    Some(Decimal { mantissa: d.mantissa(), scale: d.scale() })
}

/// `rust_decimal::Decimal::floor`: the largest integer that is not above the number, without decimal places.
#[verifier::external_body]
pub(crate) fn floor(a: Decimal) -> (r: Decimal)
    ensures
        r@ == floor_of(a@),
        r.scale_of() == 0,
{
    let d = rust_decimal::Decimal::from_i128_with_scale(a.mantissa, a.scale).floor();
    Decimal { mantissa: d.mantissa(), scale: d.scale() }
}

/// `rust_decimal::Decimal`'s order: by value, whatever the scales.
#[verifier::external_body]
fn is_less(a: Decimal, b: Decimal) -> (r: bool)
    ensures
        r == (a@ < b@),
{
    let x = rust_decimal::Decimal::from_i128_with_scale(a.mantissa, a.scale);
    let y = rust_decimal::Decimal::from_i128_with_scale(b.mantissa, b.scale);
    x < y
}

impl PartialEq for Decimal {
    fn eq(&self, other: &Decimal) -> (r: bool) {
        !is_less(*self, *other) && !is_less(*other, *self)
    }
}

impl vstd::std_specs::cmp::PartialEqSpecImpl for Decimal {
    open spec fn obeys_eq_spec() -> bool {
        true
    }

    open spec fn eq_spec(&self, other: &Decimal) -> bool {
        self@ == other@
    }
}

impl PartialOrd for Decimal {
    fn partial_cmp(&self, other: &Decimal) -> (r: Option<core::cmp::Ordering>) {
        if is_less(*self, *other) {
            Some(core::cmp::Ordering::Less)
        } else if is_less(*other, *self) {
            Some(core::cmp::Ordering::Greater)
        } else {
            Some(core::cmp::Ordering::Equal)
        }
    }
}

impl vstd::std_specs::cmp::PartialOrdSpecImpl for Decimal {
    open spec fn obeys_partial_cmp_spec() -> bool {
        true
    }

    open spec fn partial_cmp_spec(&self, other: &Decimal) -> Option<core::cmp::Ordering> {
        if self@ < other@ {
            Some(core::cmp::Ordering::Less)
        } else if self@ > other@ {
            Some(core::cmp::Ordering::Greater)
        } else {
            Some(core::cmp::Ordering::Equal)
        }
    }
}

impl Decimal {
    /// Zero.
    pub fn zero() -> (r: Decimal)
        ensures
            r@ == 0,
            r.scale_of() == 0,
    {
        Decimal { mantissa: 0, scale: 0 }
    }

    /// The decimal with this mantissa and scale, where there is one.
    pub fn from_parts(mantissa: i128, scale: u32) -> (r: Option<Decimal>)
        ensures
            r is Some <==> -MAX_MANTISSA <= mantissa <= MAX_MANTISSA && scale <= MAX_SCALE,
            r matches Some(d) ==> d.mantissa_of() == mantissa && d.scale_of() == scale
                && d@ == atoms(mantissa as int, scale as int),
    {
        if mantissa < -MAX_MANTISSA || mantissa > MAX_MANTISSA || scale > MAX_SCALE {
            None
        } else {
            Some(Decimal { mantissa, scale })
        }
    }

    /// The integer in front of the power of ten.
    pub fn mantissa(&self) -> (r: i128)
        ensures
            r == self.mantissa_of(),
            -MAX_MANTISSA <= r <= MAX_MANTISSA,
            self@ == atoms(r as int, self.scale_of()),
    {
        proof {
            use_type_invariant(self);
        }
        self.mantissa
    }

    /// The number of decimal places.
    pub fn scale(&self) -> (r: u32)
        ensures
            r == self.scale_of(),
            r <= MAX_SCALE,
            self@ == atoms(self.mantissa_of(), r as int),
    {
        proof {
            use_type_invariant(self);
        }
        self.scale
    }

    /// The number itself: one that a decimal can hold.
    pub fn exact(self) -> (r: Decimal)
        ensures
            r == self,
            representable(r@),
    {
        proof {
            use_type_invariant(&self);
            assert(self@ == (self.mantissa as int) * pow10(28 - self.scale));
        }
        self
    }

    /// The number with the opposite sign.
    pub fn neg(self) -> (r: Decimal)
        ensures
            r@ == -self@,
            r.scale_of() == self.scale_of(),
    {
        proof {
            use_type_invariant(&self);
            let p = pow10(28 - self.scale);
            let m = self.mantissa as int;
            assert((-m) * p == -(m * p)) by (nonlinear_arith);
        }
        Decimal { mantissa: -self.mantissa, scale: self.scale }
    }

    /// The absolute value.
    pub fn abs(self) -> (r: Decimal)
        ensures
            r@ == abs_of(self@),
            r.scale_of() == self.scale_of(),
    {
        if self < Decimal::zero() {
            self.neg()
        } else {
            self
        }
    }

    /// The smaller of the two; the first where they are equal.
    pub fn min(self, other: Decimal) -> (r: Decimal)
        ensures
            r == lesser(self, other),
            r@ == min_of(self@, other@),
    {
        if self > other {
            other
        } else {
            self
        }
    }

    /// The larger of the two; the first where they are equal.
    pub fn max(self, other: Decimal) -> (r: Decimal)
        ensures
            r == if self@ < other@ { other } else { self },
            r@ == max_of(self@, other@),
    {
        if self < other {
            other
        } else {
            self
        }
    }
}

/// The numbers added up from the first to the last; `None` where a step is out of range.
pub fn sum_of(values: &Vec<Decimal>) -> (r: Option<Decimal>)
    ensures
        opt_atoms(r) == total(all_atoms(values@)),
        opt_digits(r) == total_digits(all_digits(values@)),
{
    let mut acc: Option<Decimal> = Some(Decimal::zero());
    let mut i: usize = 0;
    while i < values.len()
        invariant
            i <= values@.len(),
            opt_atoms(acc) == total(all_atoms(values@).take(i as int)),
            opt_digits(acc) == total_digits(all_digits(values@).take(i as int)),
        decreases values@.len() - i,
    {
        proof {
            let s = all_atoms(values@);
            assert(s.take(i + 1).drop_last() =~= s.take(i as int));
            assert(s.take(i + 1).last() == values@[i as int]@);
            let d = all_digits(values@);
            assert(d.take(i + 1).drop_last() =~= d.take(i as int));
            assert(d.take(i + 1).last() == values@[i as int].digits());
        }
        acc = match acc {
            Some(a) => checked_add(a, values[i]),
            None => None,
        };
        i += 1;
    }
    assert(all_atoms(values@).take(values@.len() as int) =~= all_atoms(values@));
    assert(all_digits(values@).take(values@.len() as int) =~= all_digits(values@));
    acc
}

/// The next power of ten is ten times the last.
pub proof fn lemma_pow10_step(k: int)
    requires
        0 <= k < 28,
    ensures
        pow10(k + 1) == 10 * pow10(k),
        pow10(k) > 0,
{
}

/// A smaller power of ten divides a larger one.
pub proof fn lemma_pow10_divides(j: int, k: int)
    requires
        0 <= j <= k <= 28,
    ensures
        pow10(j) > 0,
        pow10(k) > 0,
        exists|c: int| c > 0 && #[trigger] (c * pow10(j)) == pow10(k),
    decreases k - j,
{
    if j == k {
        assert(1 * pow10(j) == pow10(k));
    } else {
        lemma_pow10_divides(j + 1, k);
        lemma_pow10_step(j);
        let c = choose|c: int| c > 0 && #[trigger] (c * pow10(j + 1)) == pow10(k);
        assert((10 * c) * pow10(j) == c * (10 * pow10(j))) by (nonlinear_arith);
        assert((10 * c) * pow10(j) == pow10(k));
    }
}

/// A whole number of steps is not rounded.
proof fn lemma_round_exact(n: int, d: int, q: int)
    requires
        d > 0,
        n == q * d,
    ensures
        round_half_even(n, d) == q,
{
    assert(n / d == q && n % d == 0) by (nonlinear_arith)
        requires
            d > 0,
            n == q * d,
    ;
}

/// Rounding moves by at most half a step.
proof fn lemma_round_near(n: int, d: int)
    requires
        d > 0,
    ensures
        -d <= 2 * (round_half_even(n, d) * d - n) <= d,
{
    let q = n / d;
    let r = n % d;
    assert(n == q * d + r && 0 <= r < d) by (nonlinear_arith)
        requires
            d > 0,
            q == n / d,
            r == n % d,
    ;
    assert((q + 1) * d == q * d + d) by (nonlinear_arith);
}

/// A number of atoms that is a multiple of `10^k` and has at most `MAX_MANTISSA` such steps is a
/// decimal, and rounding leaves it as it is.
pub proof fn lemma_nearest_exact(e: int, j: int, k: int)
    requires
        0 <= j <= k <= 28,
        exists|c: int| e == #[trigger] (c * pow10(k)) && -MAX_MANTISSA <= c <= MAX_MANTISSA,
    ensures
        nearest_from(e, 1, j) == Some(e),
    decreases k - j,
{
    let c = choose|c: int| e == #[trigger] (c * pow10(k)) && -MAX_MANTISSA <= c <= MAX_MANTISSA;
    lemma_pow10_divides(j, k);
    let f = choose|f: int| f > 0 && #[trigger] (f * pow10(j)) == pow10(k);
    assert(e == (c * f) * pow10(j)) by (nonlinear_arith)
        requires
            e == c * pow10(k),
            f * pow10(j) == pow10(k),
    ;
    lemma_round_exact(e, 1 * pow10(j), c * f);
    let q = round_half_even(e, 1 * pow10(j));
    if -MAX_MANTISSA <= q <= MAX_MANTISSA {
    } else {
        if j == k {
            assert(f == 1) by (nonlinear_arith)
                requires
                    f > 0,
                    f * pow10(j) == pow10(j),
                    pow10(j) > 0,
            ;
            assert(c * 1 == c);
        } else {
            lemma_nearest_exact(e, j + 1, k);
        }
    }
}

/// Up to `MAX_MANTISSA` atoms (about 7.9) nothing is rounded.
pub proof fn lemma_small_exact(e: int)
    requires
        -MAX_MANTISSA <= e <= MAX_MANTISSA,
    ensures
        nearest(e, 1) == Some(e),
{
    assert(e == e * pow10(0));
    lemma_nearest_exact(e, 0, 0);
}

/// Rounding a larger number does not give a smaller one.
proof fn lemma_round_monotone(m: int, n: int, d: int)
    requires
        d > 0,
        m <= n,
    ensures
        round_half_even(m, d) <= round_half_even(n, d),
{
    let (p, r) = (m / d, m % d);
    let (q, t) = (n / d, n % d);
    assert(m == p * d + r && 0 <= r < d && n == q * d + t && 0 <= t < d) by (nonlinear_arith)
        requires
            d > 0,
            p == m / d,
            r == m % d,
            q == n / d,
            t == n % d,
    ;
    if p > q {
        assert(p * d >= q * d + d) by (nonlinear_arith)
            requires
                p >= q + 1,
                d > 0,
        ;
    }
}

/// A number above the middle below `q` steps is rounded to at least `q` steps.
proof fn lemma_round_at_least(n: int, d: int, q: int)
    requires
        d > 0,
        2 * n > (2 * q - 1) * d,
    ensures
        round_half_even(n, d) >= q,
{
    let (p, r) = (n / d, n % d);
    assert(n == p * d + r && 0 <= r < d) by (nonlinear_arith)
        requires
            d > 0,
            p == n / d,
            r == n % d,
    ;
    assert((2 * q - 1) * d == 2 * (q * d) - d) by (nonlinear_arith);
    if p < q - 1 {
        assert(p * d + 2 * d <= q * d) by (nonlinear_arith)
            requires
                p <= q - 2,
                d > 0,
        ;
    } else if p == q - 1 {
        assert(p * d == q * d - d) by (nonlinear_arith)
            requires
                p == q - 1,
        ;
    }
}

/// Rounding does not depend on the sign.
proof fn lemma_round_negated(n: int, d: int)
    requires
        d > 0,
    ensures
        round_half_even(-n, d) == -round_half_even(n, d),
{
    let (q, r) = (n / d, n % d);
    assert(n == q * d + r && 0 <= r < d) by (nonlinear_arith)
        requires
            d > 0,
            q == n / d,
            r == n % d,
    ;
    if r == 0 {
        assert((-n) / d == -q && (-n) % d == 0) by (nonlinear_arith)
            requires
                d > 0,
                n == q * d,
        ;
    } else {
        assert((-n) / d == -q - 1 && (-n) % d == d - r) by (nonlinear_arith)
            requires
                d > 0,
                n == q * d + r,
                0 < r < d,
        ;
    }
}

/// The nearest decimal of the opposite number is the opposite decimal.
pub proof fn lemma_nearest_negated(n: int, d: int, k: int)
    requires
        d > 0,
        k >= 0,
    ensures
        nearest_from(-n, d, k) == match nearest_from(n, d, k) {
            Some(s) => Some(-s),
            None => None,
        },
    decreases 29 - k,
{
    if k <= 28 {
        let p = pow10(k);
        lemma_pow10_divides(k, 28);
        assert(d * p > 0) by (nonlinear_arith)
            requires
                d > 0,
                p > 0,
        ;
        lemma_round_negated(n, d * p);
        let q = round_half_even(n, d * p);
        assert((-q) * p == -(q * p)) by (nonlinear_arith);
        lemma_nearest_negated(n, d, k + 1);
    }
}

/// What does not fit at step `10^k` is rounded to more than fits there.
proof fn lemma_nearest_beyond(n: int, d: int, k: int)
    requires
        d > 0,
        0 <= k <= 28,
        round_half_even(n, d * pow10(k)) > MAX_MANTISSA,
    ensures
        nearest_from(n, d, k + 1) matches Some(s) ==> s >= MAX_MANTISSA * pow10(k),
    decreases 28 - k,
{
    if k < 28 {
        let p = pow10(k);
        lemma_pow10_step(k);
        let step = d * p;
        assert(step > 0) by (nonlinear_arith)
            requires
                d > 0,
                p > 0,
                step == d * p,
        ;
        assert(d * (10 * p) == 10 * step) by (nonlinear_arith)
            requires
                step == d * p,
        ;
        lemma_round_near(n, step);
        let q = round_half_even(n, step);
        assert(2 * (q * step) >= 2 * MAX_MANTISSA * step + 2 * step) by (nonlinear_arith)
            requires
                q >= MAX_MANTISSA + 1,
                step > 0,
        ;
        let tenth = 7922816251426433759354395034int;
        assert((2 * tenth - 1) * (10 * step) == 2 * MAX_MANTISSA * step) by (nonlinear_arith)
            requires
                (2 * tenth - 1) * 10 == 2 * MAX_MANTISSA,
        ;
        lemma_round_at_least(n, 10 * step, tenth);
        let next = round_half_even(n, 10 * step);
        if next <= MAX_MANTISSA {
            assert(next * (10 * p) >= tenth * (10 * p)) by (nonlinear_arith)
                requires
                    next >= tenth,
                    p > 0,
            ;
            assert(tenth * (10 * p) >= MAX_MANTISSA * p) by (nonlinear_arith)
                requires
                    tenth * 10 >= MAX_MANTISSA,
                    p > 0,
            ;
        } else {
            lemma_nearest_beyond(n, d, k + 1);
            assert(MAX_MANTISSA * (10 * p) >= MAX_MANTISSA * p) by (nonlinear_arith)
                requires
                    p > 0,
            ;
        }
    }
}

/// The nearest decimal of a larger number is not smaller; here for numbers that are not negative.
proof fn lemma_nearest_monotone_up(m: int, n: int, d: int, k: int)
    requires
        d > 0,
        0 <= m <= n,
        0 <= k,
    ensures
        nearest_from(m, d, k) matches Some(s) ==> s >= 0 && (nearest_from(n, d, k) matches Some(t) ==> s <= t),
    decreases 29 - k,
{
    if k <= 28 {
        let p = pow10(k);
        lemma_pow10_divides(k, 28);
        let step = d * p;
        assert(step > 0) by (nonlinear_arith)
            requires
                d > 0,
                p > 0,
                step == d * p,
        ;
        lemma_round_monotone(m, n, step);
        lemma_round_exact(0, step, 0);
        lemma_round_monotone(0, m, step);
        let a = round_half_even(m, step);
        let b = round_half_even(n, step);
        if b <= MAX_MANTISSA {
            assert(0 <= a * p <= b * p) by (nonlinear_arith)
                requires
                    0 <= a <= b,
                    p > 0,
            ;
        } else if a <= MAX_MANTISSA {
            lemma_nearest_beyond(n, d, k);
            assert(0 <= a * p <= MAX_MANTISSA * p) by (nonlinear_arith)
                requires
                    0 <= a <= MAX_MANTISSA,
                    p > 0,
            ;
        } else {
            lemma_nearest_monotone_up(m, n, d, k + 1);
        }
    }
}

/// The nearest decimal of a larger number is not smaller.
pub proof fn lemma_nearest_monotone(m: int, n: int, d: int)
    requires
        d > 0,
        m <= n,
    ensures
        nearest(m, d) matches Some(s) ==> (nearest(n, d) matches Some(t) ==> s <= t),
{
    if m >= 0 {
        lemma_nearest_monotone_up(m, n, d, 0);
    } else if n < 0 {
        lemma_nearest_monotone_up(-n, -m, d, 0);
        lemma_nearest_negated(n, d, 0);
        lemma_nearest_negated(m, d, 0);
    } else {
        lemma_nearest_monotone_up(-m, -m, d, 0);
        lemma_nearest_negated(m, d, 0);
        lemma_nearest_monotone_up(n, n, d, 0);
    }
}

/// A number of atoms that a decimal can hold.
pub open spec fn representable(a: int) -> bool {
    exists|c: int, k: int|
        0 <= k <= 28 && -MAX_MANTISSA <= c <= MAX_MANTISSA && a == #[trigger] (c * pow10(k))
}

/// A number that a decimal can hold is its own nearest decimal.
pub proof fn lemma_representable_exact(a: int)
    requires
        representable(a),
    ensures
        nearest(a, 1) == Some(a),
{
    let (c, k) = choose|c: int, k: int|
        0 <= k <= 28 && -MAX_MANTISSA <= c <= MAX_MANTISSA && a == #[trigger] (c * pow10(k));
    lemma_nearest_exact(a, 0, k);
}

/// Rounding is off by half a step at the most.
pub proof fn lemma_nearest_error(n: int, d: int, k: int)
    requires
        d > 0,
        k >= 0,
    ensures
        nearest_from(n, d, k) matches Some(s) ==> 2 * abs_of(s * d - n) <= d * step_from(n, d, k),
    decreases 29 - k,
{
    if k <= 28 {
        let p = pow10(k);
        lemma_pow10_divides(k, 28);
        let step = d * p;
        assert(step > 0) by (nonlinear_arith)
            requires
                d > 0,
                p > 0,
                step == d * p,
        ;
        let q = round_half_even(n, step);
        if -MAX_MANTISSA <= q <= MAX_MANTISSA {
            lemma_round_near(n, step);
            assert(q * step == (q * p) * d) by (nonlinear_arith)
                requires
                    step == d * p,
            ;
        } else {
            lemma_nearest_error(n, d, k + 1);
        }
    }
}

/// A number that is not too large is rounded to whole atoms.
pub proof fn lemma_nearest_fine(n: int, d: int)
    requires
        d > 0,
        -MAX_MANTISSA * d <= n <= MAX_MANTISSA * d,
    ensures
        nearest(n, d) is Some,
        step(n, d) == 1,
{
    let m = MAX_MANTISSA as int;
    lemma_round_exact(m * d, d, m);
    lemma_round_exact(-m * d, d, -m);
    lemma_round_monotone(n, m * d, d);
    lemma_round_monotone(-m * d, n, d);
    assert(d * pow10(0) == d);
}

/// What is rounded to a decimal is one that a decimal can hold.
pub proof fn lemma_nearest_representable(n: int, d: int, k: int)
    ensures
        nearest_from(n, d, k) matches Some(s) ==> representable(s),
    decreases 29 - k,
{
    if 0 <= k <= 28 {
        let q = round_half_even(n, d * pow10(k));
        if -MAX_MANTISSA <= q <= MAX_MANTISSA {
            assert(representable(q * pow10(k)));
        } else {
            lemma_nearest_representable(n, d, k + 1);
        }
    }
}

/// The nearest decimal of a number at or below a decimal is at or below it too.
pub proof fn lemma_nearest_at_most(a: int, bound: int)
    requires
        a <= bound,
        representable(bound),
    ensures
        nearest(a, 1) matches Some(s) ==> s <= bound,
{
    lemma_representable_exact(bound);
    lemma_nearest_monotone(a, bound, 1);
}

/// The nearest decimal of a number at or above a decimal is at or above it too.
pub proof fn lemma_nearest_at_least(a: int, bound: int)
    requires
        a >= bound,
        representable(bound),
    ensures
        nearest(a, 1) matches Some(s) ==> s >= bound,
{
    lemma_representable_exact(bound);
    lemma_nearest_monotone(bound, a, 1);
}

/// A common factor of number and step does not matter.
pub proof fn lemma_nearest_scaled(n: int, d: int, k: int)
    requires
        d > 0,
        k >= 0,
    ensures
        nearest_from(n * d, d, k) == nearest_from(n, 1, k),
    decreases 29 - k,
{
    if k <= 28 {
        let p = pow10(k);
        lemma_pow10_divides(k, 28);
        let (q, r) = (n / p, n % p);
        assert(n == q * p + r && 0 <= r < p) by (nonlinear_arith)
            requires
                p > 0,
                q == n / p,
                r == n % p,
        ;
        assert((n * d) / (d * p) == q && (n * d) % (d * p) == d * r) by (nonlinear_arith)
            requires
                n == q * p + r,
                0 <= r < p,
                d > 0,
        ;
        assert(2 * (d * r) < d * p <==> 2 * r < p) by (nonlinear_arith)
            requires
                d > 0,
        ;
        assert(2 * (d * r) == d * p <==> 2 * r == p) by (nonlinear_arith)
            requires
                d > 0,
        ;
        assert(1 * p == p);
        lemma_nearest_scaled(n, d, k + 1);
    }
}

/// A whole number is not rounded.
proof fn lemma_nearest_whole(w: int, k: int)
    requires
        0 <= k,
    ensures
        nearest_from(w * pow10(28), 1, k) matches Some(s) ==> s == w * pow10(28),
    decreases 29 - k,
{
    if k <= 28 {
        lemma_pow10_divides(k, 28);
        let f = choose|f: int| f > 0 && #[trigger] (f * pow10(k)) == pow10(28);
        assert(w * pow10(28) == (w * f) * pow10(k)) by (nonlinear_arith)
            requires
                f * pow10(k) == pow10(28),
        ;
        assert(1 * pow10(k) == pow10(k));
        lemma_round_exact(w * pow10(28), 1 * pow10(k), w * f);
        lemma_nearest_whole(w, k + 1);
    }
}

/// A hundred times a decimal is not rounded.
proof fn lemma_hundredfold_exact(a: int)
    requires
        representable(a),
    ensures
        nearest(100 * a, 1) matches Some(s) ==> s == 100 * a,
{
    let (c, k) = choose|c: int, k: int|
        0 <= k <= 28 && -MAX_MANTISSA <= c <= MAX_MANTISSA && a == #[trigger] (c * pow10(k));
    if k <= 26 {
        lemma_pow10_step(k);
        lemma_pow10_step(k + 1);
        assert(100 * (c * pow10(k)) == c * (10 * (10 * pow10(k)))) by (nonlinear_arith);
        assert(100 * a == c * pow10(k + 2));
        lemma_nearest_exact(100 * a, 0, k + 2);
    } else if k == 27 {
        assert(100 * (c * pow10(27)) == (10 * c) * pow10(28)) by (nonlinear_arith)
            requires
                10 * pow10(27) == pow10(28),
        ;
        lemma_nearest_whole(10 * c, 0);
    } else {
        assert(100 * (c * pow10(28)) == (100 * c) * pow10(28)) by (nonlinear_arith);
        lemma_nearest_whole(100 * c, 0);
    }
}

/// A whole number that a decimal can hold has at most `MAX_MANTISSA` units.
proof fn lemma_whole_in_range(w: int)
    requires
        representable(w * pow10(28)),
    ensures
        -MAX_MANTISSA <= w <= MAX_MANTISSA,
{
    let (c, k) = choose|c: int, k: int|
        0 <= k <= 28 && -MAX_MANTISSA <= c <= MAX_MANTISSA && w * pow10(28) == #[trigger] (c * pow10(k));
    lemma_pow10_divides(k, 28);
    let f = choose|f: int| f > 0 && #[trigger] (f * pow10(k)) == pow10(28);
    assert(c == w * f) by (nonlinear_arith)
        requires
            w * pow10(28) == c * pow10(k),
            f * pow10(k) == pow10(28),
            pow10(k) > 0,
    ;
    assert(-MAX_MANTISSA <= w <= MAX_MANTISSA) by (nonlinear_arith)
        requires
            c == w * f,
            f > 0,
            -MAX_MANTISSA <= c <= MAX_MANTISSA,
    ;
}

/// The largest whole number of cents (0.01) that is at most `a`.
pub open spec fn whole_cents(a: int) -> int {
    (a / pow10(26)) * pow10(26)
}

/// The largest whole number of cents that is at most the number, by way of `price / 0.01`. `None`
/// where a hundred times the number is out of range.
pub fn floor_to_tick(price: Decimal) -> (r: Option<Decimal>)
    ensures
        r is Some <==> nearest(100 * price@, 1) is Some,
        r matches Some(d) ==> d@ == whole_cents(price@),
        r matches Some(d) ==> d.scale_of() == if d@ == 0 {
            0int
        } else {
            2
        },
{
    let tick = Decimal::new(1, 2);
    let ghost a = price@;
    proof {
        use_type_invariant(&price);
        assert(a == (price.mantissa as int) * pow10(28 - price.scale));
        assert(representable(a));
        assert(a * one() == (100 * a) * tick@) by (nonlinear_arith)
            requires
                one() == 100 * tick@,
        ;
        lemma_nearest_scaled(100 * a, tick@, 0);
        lemma_hundredfold_exact(a);
    }
    let ticks = floor(checked_div(price, tick)?);
    proof {
        use_type_invariant(&ticks);
        assert(ticks@ == (ticks.mantissa as int) * pow10(28 - ticks.scale));
        assert(representable(ticks@));
        let w = (100 * a) / one();
        lemma_whole_in_range(w);
        assert(w == a / pow10(26)) by (nonlinear_arith)
            requires
                w == (100 * a) / one(),
                one() == 100 * pow10(26),
                pow10(26) > 0,
        ;
        assert(ticks@ * tick@ == (w * pow10(26)) * one()) by (nonlinear_arith)
            requires
                ticks@ == w * one(),
                tick@ == pow10(26),
        ;
        lemma_nearest_scaled(w * pow10(26), one(), 0);
        lemma_nearest_exact(w * pow10(26), 0, 26);
        let m = ticks.mantissa as int;
        assert(m == w) by (nonlinear_arith)
            requires
                m * one() == w * one(),
                one() > 0,
        ;
        assert((w * pow10(26)) * one() == w * (one() * pow10(26))) by (nonlinear_arith);
        lemma_round_exact(ticks@ * tick@, one() * pow10(26), w);
    }
    checked_mul(ticks, tick)
}

/// The largest whole number of cents that is at most the number, by way of `size * 100`. `None` where
/// a hundred times the number is out of range.
pub fn floor_to_hundredth(size: Decimal) -> (r: Option<Decimal>)
    ensures
        r is Some <==> nearest(100 * size@, 1) is Some,
        r matches Some(d) ==> d@ == whole_cents(size@),
{
    let hundred = Decimal::new(100, 0);
    let ghost a = size@;
    proof {
        use_type_invariant(&size);
        assert(a == (size.mantissa as int) * pow10(28 - size.scale));
        assert(representable(a));
        assert(a * hundred@ == (100 * a) * one()) by (nonlinear_arith)
            requires
                hundred@ == 100 * one(),
        ;
        lemma_nearest_scaled(100 * a, one(), 0);
        lemma_hundredfold_exact(a);
    }
    let cents = floor(checked_mul(size, hundred)?);
    proof {
        use_type_invariant(&cents);
        assert(cents@ == (cents.mantissa as int) * pow10(28 - cents.scale));
        assert(representable(cents@));
        let w = (100 * a) / one();
        lemma_whole_in_range(w);
        assert(w == a / pow10(26)) by (nonlinear_arith)
            requires
                w == (100 * a) / one(),
                one() == 100 * pow10(26),
                pow10(26) > 0,
        ;
        assert(cents@ * one() == (w * pow10(26)) * hundred@) by (nonlinear_arith)
            requires
                cents@ == w * one(),
                hundred@ == 100 * one(),
                one() == 100 * pow10(26),
        ;
        lemma_nearest_scaled(w * pow10(26), hundred@, 0);
        lemma_nearest_exact(w * pow10(26), 0, 26);
    }
    checked_div(cents, hundred)
}

} // verus!
