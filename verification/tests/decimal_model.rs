//! The arithmetic of `rust_decimal` against the model that the contracts state: numbers of atoms
//! (`10^-28`), rounded half to even at the finest step at which the mantissa fits.
use alloy::primitives::U512;
use poly_5min_bot::decimal::{floor_to_hundredth, floor_to_tick, sum_of, Decimal};
use poly_5min_bot::text::{cut_text, full_text};

const MAX_MANTISSA: u128 = 79228162514264337593543950335;

struct Numbers {
    state: u64,
}

impl Numbers {
    fn next(&mut self) -> u64 {
        self.state ^= self.state << 13;
        self.state ^= self.state >> 7;
        self.state ^= self.state << 17;
        self.state
    }

    fn mantissa(&mut self) -> i128 {
        let wide = ((self.next() as u128) << 64) | self.next() as u128;
        let bits = (self.next() % 97) as u32;
        let mut m = if bits == 0 { 0 } else { (wide >> (128 - bits)).min(MAX_MANTISSA) };
        match self.next() % 8 {
            0 => m = MAX_MANTISSA - (m % 20).min(MAX_MANTISSA),
            1 => m = 10u128.pow((self.next() % 28) as u32) * (m % 10),
            2 => m -= m % 10,
            _ => {}
        }
        let m = m.min(MAX_MANTISSA) as i128;
        if self.next() % 2 == 0 {
            m
        } else {
            -m
        }
    }

    fn scale(&mut self) -> u32 {
        (self.next() % 29) as u32
    }
}

/// A signed number of atoms.
#[derive(Clone, Copy, Debug, PartialEq)]
struct Atoms {
    negative: bool,
    size: U512,
}

impl Atoms {
    fn new(negative: bool, size: U512) -> Atoms {
        Atoms { negative: negative && size != U512::ZERO, size }
    }
}

fn pow10(k: u32) -> U512 {
    let mut p = U512::from(1u8);
    for _ in 0..k {
        p = p * U512::from(10u8);
    }
    p
}

fn atoms(mantissa: i128, scale: u32) -> Atoms {
    Atoms::new(mantissa < 0, U512::from(mantissa.unsigned_abs()) * pow10(28 - scale))
}

fn plus(a: Atoms, b: Atoms) -> Atoms {
    if a.negative == b.negative {
        Atoms::new(a.negative, a.size + b.size)
    } else if a.size >= b.size {
        Atoms::new(a.negative, a.size - b.size)
    } else {
        Atoms::new(b.negative, b.size - a.size)
    }
}

fn nearest(negative: bool, n: U512, d: U512) -> Option<Atoms> {
    for k in 0..29 {
        let step = d * pow10(k);
        let mut q = n / step;
        let twice = (n % step) * U512::from(2u8);
        if twice > step || (twice == step && q % U512::from(2u8) == U512::from(1u8)) {
            q = q + U512::from(1u8);
        }
        if q <= U512::from(MAX_MANTISSA) {
            return Some(Atoms::new(negative, q * pow10(k)));
        }
    }
    None
}

fn outside(mantissa: i128, scale: u32) -> rust_decimal::Decimal {
    rust_decimal::Decimal::from_i128_with_scale(mantissa, scale)
}

fn read(d: Option<rust_decimal::Decimal>) -> Option<Atoms> {
    d.map(|d| atoms(d.mantissa(), d.scale()))
}

#[test]
fn sums_and_differences_match_the_model() {
    let mut numbers = Numbers { state: 0x9e3779b97f4a7c15 };
    for _ in 0..60_000 {
        let (m, s) = (numbers.mantissa(), numbers.scale());
        let (n, t) = (numbers.mantissa(), numbers.scale());
        let (a, b) = (atoms(m, s), atoms(n, t));
        let up = plus(a, b);
        let down = plus(a, Atoms::new(!b.negative, b.size));
        let one = U512::from(1u8);
        assert_eq!(
            read(outside(m, s).checked_add(outside(n, t))),
            nearest(up.negative, up.size, one),
            "{} e-{} + {} e-{}", m, s, n, t
        );
        assert_eq!(
            read(outside(m, s).checked_sub(outside(n, t))),
            nearest(down.negative, down.size, one),
            "{} e-{} - {} e-{}", m, s, n, t
        );
        let own = sum_of(&vec![
            Decimal::from_parts(m, s).unwrap(),
            Decimal::from_parts(n, t).unwrap(),
        ]);
        assert_eq!(
            own.map(|d| atoms(d.mantissa(), d.scale())),
            nearest(up.negative, up.size, one)
        );
    }
}

/// The largest scale, of `scale` at the most, at which the rounded mantissa fits.
fn fitting_scale(n: U512, d: U512, scale: u32) -> u32 {
    let mut scale = scale;
    while scale > 0 {
        let step = d * pow10(28 - scale);
        let mut q = n / step;
        let twice = (n % step) * U512::from(2u8);
        if twice > step || (twice == step && q % U512::from(2u8) == U512::from(1u8)) {
            q = q + U512::from(1u8);
        }
        if q <= U512::from(MAX_MANTISSA) {
            return scale;
        }
        scale -= 1;
    }
    0
}

#[test]
fn decimal_places_match_the_model() {
    let mut numbers = Numbers { state: 0x5851f42d4c957f2d };
    for i in 0..120_000 {
        let (mut m, s) = (numbers.mantissa(), numbers.scale());
        let (mut n, t) = (numbers.mantissa(), numbers.scale());
        if i % 4 == 0 {
            m %= 1 << 33;
            n %= 1 << 33;
        }
        let (a, b) = (atoms(m, s), atoms(n, t));
        let places = |total: Atoms| {
            if m == 0 {
                t
            } else if n == 0 {
                s
            } else {
                fitting_scale(total.size, U512::from(1u8), s.max(t))
            }
        };
        let up = plus(a, b);
        let down = plus(a, Atoms::new(!b.negative, b.size));
        let shown = |d: rust_decimal::Decimal| d.scale();
        let (x, y) = (outside(m, s), outside(n, t));
        assert_eq!(x.checked_add(y).map(shown), x.checked_add(y).map(|_| places(up)), "{} + {}", x, y);
        assert_eq!(x.checked_sub(y).map(shown), x.checked_sub(y).map(|_| places(down)), "{} - {}", x, y);
        let product = if m == 0 || n == 0 || (m.abs() < 1 << 32 && n.abs() < 1 << 32 && s + t > 47) {
            0
        } else {
            fitting_scale(a.size * b.size, pow10(28), (s + t).min(28))
        };
        assert_eq!(x.checked_mul(y).map(shown), x.checked_mul(y).map(|_| product), "{} * {}", x, y);
        assert_eq!(x.floor().scale(), 0);
        let tick = floor_to_tick(Decimal::from_parts(m, s).unwrap());
        assert!(tick.map_or(true, |d| d.scale() == if d.mantissa() == 0 { 0 } else { 2 }));
    }
    assert_eq!(outside(0, 5).checked_div(outside(3, 2)).unwrap().scale(), 0);
}

#[test]
fn products_match_the_model() {
    let mut numbers = Numbers { state: 0x2545f4914f6cdd1d };
    for _ in 0..60_000 {
        let (m, s) = (numbers.mantissa(), numbers.scale());
        let (n, t) = (numbers.mantissa(), numbers.scale());
        let (a, b) = (atoms(m, s), atoms(n, t));
        let negative = a.negative != b.negative;
        assert_eq!(
            read(outside(m, s).checked_mul(outside(n, t))),
            nearest(negative, a.size * b.size, pow10(28)),
            "{} e-{} * {} e-{}", m, s, n, t
        );
    }
}

#[test]
fn quotients_match_the_model() {
    let mut numbers = Numbers { state: 0xd1b54a32d192ed03 };
    for _ in 0..60_000 {
        let (m, s) = (numbers.mantissa(), numbers.scale());
        let (n, t) = (numbers.mantissa(), numbers.scale());
        let (a, b) = (atoms(m, s), atoms(n, t));
        let expected = if n == 0 {
            None
        } else {
            nearest(a.negative != b.negative, a.size * pow10(28), b.size)
        };
        assert_eq!(
            read(outside(m, s).checked_div(outside(n, t))),
            expected,
            "{} e-{} / {} e-{}", m, s, n, t
        );
    }
}

#[test]
fn floors_match_the_model() {
    let mut numbers = Numbers { state: 0x8cb92ba72f3d8dd7 };
    for _ in 0..60_000 {
        let (m, s) = (numbers.mantissa(), numbers.scale());
        let a = atoms(m, s);
        let one = pow10(28);
        let mut whole = a.size / one;
        if a.negative && a.size % one != U512::ZERO {
            whole = whole + U512::from(1u8);
        }
        assert_eq!(read(Some(outside(m, s).floor())), Some(Atoms::new(a.negative, whole * one)));
        let cent = pow10(26);
        let mut cents = a.size / cent;
        if a.negative && a.size % cent != U512::ZERO {
            cents = cents + U512::from(1u8);
        }
        let expected = nearest(a.negative, a.size * U512::from(100u8), U512::from(1u8))
            .map(|_| Atoms::new(a.negative, cents * cent));
        let d = Decimal::from_parts(m, s).unwrap();
        assert_eq!(floor_to_tick(d).map(|f| atoms(f.mantissa(), f.scale())), expected);
        assert_eq!(floor_to_hundredth(d).map(|f| atoms(f.mantissa(), f.scale())), expected);
    }
}

#[test]
fn order_is_by_value() {
    let mut numbers = Numbers { state: 0xaf251af3b0f025b5 };
    for _ in 0..60_000 {
        let (m, s) = (numbers.mantissa(), numbers.scale());
        let (n, t) = (numbers.mantissa(), numbers.scale());
        let (a, b) = (atoms(m, s), atoms(n, t));
        let less = if a.negative != b.negative {
            a.negative
        } else if a.negative {
            a.size > b.size
        } else {
            a.size < b.size
        };
        let (x, y) = (Decimal::from_parts(m, s).unwrap(), Decimal::from_parts(n, t).unwrap());
        assert_eq!(x < y, less);
        assert_eq!(x == y, a == b);
    }
    assert!(Decimal::new(10, 1) == Decimal::new(1, 0));
}

fn text(a: Atoms, places: u32) -> String {
    let kept = a.size / pow10(28 - places);
    let digits = format!("{}", kept);
    let filled = format!("{}{}", "0".repeat((places as usize + 1).saturating_sub(digits.len())), digits);
    let (whole, rest) = filled.split_at(filled.len() - places as usize);
    let sign = if a.negative { "-" } else { "" };
    if places == 0 {
        format!("{}{}", sign, whole)
    } else {
        format!("{}{}.{}", sign, whole, rest)
    }
}

#[test]
fn texts_match_the_model() {
    let mut numbers = Numbers { state: 0x9fb21c651e98df25 };
    for _ in 0..30_000 {
        let (m, s) = (numbers.mantissa(), numbers.scale());
        let d = Decimal::from_parts(m, s).unwrap();
        assert_eq!(full_text(d), text(atoms(m, s), s));
        assert_eq!(full_text(d), format!("{}", outside(m, s)));
        let places = numbers.scale() as usize;
        let cut = cut_text(d, places);
        assert_eq!(cut, text(atoms(m, s), places as u32));
        if cut.len() <= 30 {
            assert_eq!(cut, format!("{:.*}", places, outside(m, s)));
        }
    }
}

#[test]
fn texts_are_cut_not_rounded() {
    assert_eq!(cut_text(Decimal::new(19999, 4), 2), "1.99");
    assert_eq!(cut_text(Decimal::new(-1, 4), 2), "-0.00");
    assert_eq!(cut_text(Decimal::new(5, 0), 4), "5.0000");
    assert_eq!(cut_text(Decimal::new(0, 0), 2), "0.00");
    assert_eq!(full_text(Decimal::new(150, 2)), "1.50");
    assert_eq!(full_text(Decimal::zero()), "0");
}

#[test]
fn parts_out_of_range_are_refused() {
    assert!(Decimal::from_parts(MAX_MANTISSA as i128 + 1, 0).is_none());
    assert!(Decimal::from_parts(-(MAX_MANTISSA as i128) - 1, 0).is_none());
    assert!(Decimal::from_parts(1, 29).is_none());
    let d = Decimal::from_parts(MAX_MANTISSA as i128, 28).unwrap();
    assert_eq!((d.mantissa(), d.scale()), (MAX_MANTISSA as i128, 28));
}

#[test]
fn minimum_maximum_and_sign() {
    let (a, b) = (Decimal::new(15, 1), Decimal::new(-2, 0));
    assert!(a.max(b) == a && b.max(a) == a);
    assert!(a.min(b) == b && b.min(a) == b);
    assert!(b.abs() == Decimal::new(2, 0) && a.abs() == a);
    assert!(a.neg() == Decimal::new(-15, 1));
    assert_eq!(sum_of(&Vec::new()).map(|d| d.mantissa()), Some(0));
}

#[test]
fn sums_out_of_range_are_none() {
    let max = Decimal::from_parts(MAX_MANTISSA as i128, 0).unwrap();
    assert!(sum_of(&vec![max, max]).is_none());
    assert!(floor_to_tick(max).is_none());
    assert!(floor_to_hundredth(max).is_none());
}
