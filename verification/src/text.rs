//! Text: trimming, case, splitting, whole numbers and decimals.
use vstd::prelude::*;

use crate::decimal;
use crate::decimal::Decimal;

verus! {

/// The characters with the Unicode property `White_Space`.
pub open spec fn is_white(c: char) -> bool {
    let n = c as u32;
    ||| 0x09 <= n <= 0x0d
    ||| n == 0x20
    ||| n == 0x85
    ||| n == 0xa0
    ||| n == 0x1680
    ||| 0x2000 <= n <= 0x200a
    ||| n == 0x2028
    ||| n == 0x2029
    ||| n == 0x202f
    ||| n == 0x205f
    ||| n == 0x3000
}

/// The text without the white space at its two ends.
pub open spec fn trimmed(s: Seq<char>) -> Seq<char>
    decreases s.len(),
{
    if s.len() == 0 {
        s
    } else if is_white(s[0]) {
        trimmed(s.drop_first())
    } else if is_white(s.last()) {
        trimmed(s.drop_last())
    } else {
        s
    }
}

/// Every character is below 128.
pub open spec fn all_ascii(s: Seq<char>) -> bool {
    forall|i: int| 0 <= i < s.len() ==> (#[trigger] s[i] as u32) < 128
}

/// `A` to `Z` turned into `a` to `z`, any other character as it is.
pub open spec fn ascii_lower(c: char) -> char {
    if 'A' <= c && c <= 'Z' {
        ((c as u32) + 32) as char
    } else {
        c
    }
}

/// `a` to `z` turned into `A` to `Z`, any other character as it is.
pub open spec fn ascii_upper(c: char) -> char {
    if 'a' <= c && c <= 'z' {
        ((c as u32) - 32) as char
    } else {
        c
    }
}

/// What `str::to_lowercase` makes of a text.
pub uninterp spec fn lowercase(s: Seq<char>) -> Seq<char>;

/// What `str::to_uppercase` makes of a text.
pub uninterp spec fn uppercase(s: Seq<char>) -> Seq<char>;

/// The pieces between the commas of a text, one more than it has commas.
pub open spec fn comma_pieces(s: Seq<char>) -> Seq<Seq<char>>
    decreases s.len(),
{
    if s.len() == 0 {
        seq![s]
    } else {
        let before = comma_pieces(s.drop_last());
        if s.last() == ',' {
            before.push(Seq::empty())
        } else {
            before.update(before.len() - 1, before.last().push(s.last()))
        }
    }
}

/// `part` occurs in `s`.
pub open spec fn has_part(s: Seq<char>, part: Seq<char>) -> bool {
    exists|i: int|
        0 <= i <= s.len() - part.len() && #[trigger] s.subrange(i, i + part.len()) == part
}

/// `str::trim`: white space (Unicode `White_Space`) is taken off both ends.
#[verifier::external_body]
pub(crate) fn trim(s: &str) -> (r: &str)
    ensures
        r@ == trimmed(s@),
{
    s.trim()
}

/// `str::to_lowercase`: on ASCII text it maps each letter by itself.
#[verifier::external_body]
pub(crate) fn to_lowercase(s: &str) -> (r: String)
    ensures
        r@ == lowercase(s@),
        all_ascii(s@) ==> r@ == s@.map_values(|c: char| ascii_lower(c)),
{
    s.to_lowercase()
}

/// `str::to_uppercase`: on ASCII text it maps each letter by itself.
#[verifier::external_body]
pub(crate) fn to_uppercase(s: &str) -> (r: String)
    ensures
        r@ == uppercase(s@),
        all_ascii(s@) ==> r@ == s@.map_values(|c: char| ascii_upper(c)),
{
    s.to_uppercase()
}

/// The pieces between the commas of a text, in order.
pub fn split_commas(s: &str) -> (r: Vec<String>)
    ensures
        r@.map_values(|p: String| p@) == comma_pieces(s@),
{
    let len = s.unicode_len();
    let mut done: Vec<String> = Vec::new();
    let mut start: usize = 0;
    let mut i: usize = 0;
    proof {
        assert(s@.subrange(0, 0) =~= Seq::<char>::empty());
        assert(s@.take(0) =~= Seq::<char>::empty());
        assert(comma_pieces(s@.take(0)) =~= seq![Seq::<char>::empty()]);
    }
    while i < len
        invariant
            start <= i <= len,
            len == s@.len(),
            comma_pieces(s@.take(i as int)) == done@.map_values(|p: String| p@).push(
                s@.subrange(start as int, i as int),
            ),
        decreases len - i,
    {
        let ghost before = comma_pieces(s@.take(i as int));
        let ghost pieces = done@.map_values(|p: String| p@);
        assert(s@.take(i + 1).drop_last() =~= s@.take(i as int));
        assert(before.last() == s@.subrange(start as int, i as int));
        if s.get_char(i) == ',' {
            done.push(s.substring_char(start, i).to_string());
            start = i + 1;
            assert(done@.map_values(|p: String| p@) =~= before);
            assert(s@.subrange(start as int, i + 1) =~= Seq::<char>::empty());
            assert(comma_pieces(s@.take(i + 1)) == before.push(Seq::empty()));
        } else {
            let ghost next = s@.subrange(start as int, i as int).push(s@[i as int]);
            assert(s@.subrange(start as int, i + 1) =~= next);
            assert(comma_pieces(s@.take(i + 1)) == before.update(before.len() - 1, next));
            assert(before.update(before.len() - 1, next) =~= pieces.push(next));
        }
        i += 1;
    }
    let ghost pieces = done@.map_values(|p: String| p@);
    done.push(s.substring_char(start, len).to_string());
    assert(done@.map_values(|p: String| p@) =~= pieces.push(s@.subrange(start as int, len as int)));
    assert(s@.take(len as int) =~= s@);
    done
}

/// The pieces between the commas of a text, in order, each without the white space at its ends.
pub fn trimmed_pieces(s: &str) -> (r: Vec<String>)
    ensures
        r@.map_values(|p: String| p@) == comma_pieces(s@).map_values(|p: Seq<char>| trimmed(p)),
{
    let pieces = split_commas(s);
    let ghost all = comma_pieces(s@);
    let mut kept: Vec<String> = Vec::new();
    let mut i: usize = 0;
    while i < pieces.len()
        invariant
            i <= pieces@.len(),
            kept@.len() == i,
            all == pieces@.map_values(|p: String| p@),
            forall|j: int| 0 <= j < i ==> (#[trigger] kept@[j])@ == trimmed(all[j]),
        decreases pieces@.len() - i,
    {
        assert(all[i as int] == pieces@[i as int]@);
        kept.push(trim(pieces[i].as_str()).to_string());
        i += 1;
    }
    assert(kept@.map_values(|p: String| p@) =~= all.map_values(|p: Seq<char>| trimmed(p)));
    kept
}

/// `str::contains` with a text: whether it occurs.
#[verifier::external_body]
pub(crate) fn contains(s: &str, part: &str) -> (r: bool)
    ensures
        r == has_part(s@, part@),
{
    s.contains(part)
}

/// Whether two texts are the same.
pub fn same_text(a: &str, b: &str) -> (r: bool)
    ensures
        r == (a@ == b@),
{
    a.to_string() == b.to_string()
}

/// The text, with its ASCII letters in lower case, is `true`.
pub open spec fn says_true(s: Seq<char>) -> bool {
    s.map_values(|c: char| ascii_lower(c)) == "true"@
}

/// The lower case of an ASCII capital.
fn match_lower(c: char) -> (r: char)
    requires
        'A' <= c && c <= 'Z',
    ensures
        r == ascii_lower(c),
{
    ((c as u8) + 32) as char
}

/// Whether the text, up to ASCII case, is `true`.
pub fn is_true(s: &str) -> (r: bool)
    ensures
        r == says_true(s@),
{
    proof {
        reveal_strlit("true");
    }
    let word = "true";
    if s.unicode_len() != 4 {
        return false;
    }
    let mut i: usize = 0;
    while i < 4
        invariant
            i <= 4,
            s@.len() == 4,
            word@ == "true"@,
            word@.len() == 4,
            forall|j: int| 0 <= j < i ==> ascii_lower(#[trigger] s@[j]) == word@[j],
        decreases 4 - i,
    {
        let c = s.get_char(i);
        let lower = if 'A' <= c && c <= 'Z' {
            match_lower(c)
        } else {
            c
        };
        if lower != word.get_char(i) {
            assert(s@.map_values(|c: char| ascii_lower(c))[i as int] != "true"@[i as int]);
            return false;
        }
        i += 1;
    }
    assert(s@.map_values(|c: char| ascii_lower(c)) =~= "true"@);
    true
}

/// The character of a digit.
pub open spec fn digit_char(d: int) -> char {
    (48 + d) as char
}

/// The decimal digits of a number.
pub open spec fn digits(n: nat) -> Seq<char>
    decreases n,
{
    if n < 10 {
        seq![digit_char(n as int)]
    } else {
        digits(n / 10).push(digit_char((n % 10) as int))
    }
}

/// A whole number in decimal, with a minus sign in front where it is negative.
pub open spec fn int_text(n: int) -> Seq<char> {
    if n < 0 {
        seq!['-'] + digits((-n) as nat)
    } else {
        digits(n as nat)
    }
}

/// Each character is one of `0` to `9`.
pub open spec fn all_digits(s: Seq<char>) -> bool {
    forall|i: int| 0 <= i < s.len() ==> '0' <= #[trigger] s[i] && s[i] <= '9'
}

/// The number that a sequence of digits writes.
pub open spec fn digits_value(s: Seq<char>) -> int
    decreases s.len(),
{
    if s.len() == 0 {
        0
    } else {
        10 * digits_value(s.drop_last()) + (s.last() as int - 48)
    }
}

/// The number written by a non-empty sequence of digits.
pub open spec fn plain_number(s: Seq<char>) -> Option<int> {
    if s.len() > 0 && all_digits(s) {
        Some(digits_value(s))
    } else {
        None
    }
}

/// The number written by digits behind an optional plus sign, where it is at most `max`.
pub open spec fn unsigned_number(s: Seq<char>, max: int) -> Option<int> {
    match plain_number(if s.len() > 0 && s[0] == '+' { s.drop_first() } else { s }) {
        Some(n) => if n <= max {
            Some(n)
        } else {
            None
        },
        None => None,
    }
}

/// The number written by digits behind an optional sign, where an `i64` holds it.
pub open spec fn signed_number(s: Seq<char>) -> Option<int> {
    if s.len() > 0 && s[0] == '-' {
        match plain_number(s.drop_first()) {
            Some(n) => if -n >= i64::MIN {
                Some(-n)
            } else {
                None
            },
            None => None,
        }
    } else {
        unsigned_number(s, i64::MAX as int)
    }
}

/// The text of a digit.
fn digit_text(d: u64) -> (r: &'static str)
    requires
        d < 10,
    ensures
        r@ == seq![digit_char(d as int)],
{
    proof {
        reveal_strlit("0");
        reveal_strlit("1");
        reveal_strlit("2");
        reveal_strlit("3");
        reveal_strlit("4");
        reveal_strlit("5");
        reveal_strlit("6");
        reveal_strlit("7");
        reveal_strlit("8");
        reveal_strlit("9");
    }
    let r = if d == 0 {
        "0"
    } else if d == 1 {
        "1"
    } else if d == 2 {
        "2"
    } else if d == 3 {
        "3"
    } else if d == 4 {
        "4"
    } else if d == 5 {
        "5"
    } else if d == 6 {
        "6"
    } else if d == 7 {
        "7"
    } else if d == 8 {
        "8"
    } else {
        "9"
    };
    assert(r@ =~= seq![digit_char(d as int)]);
    r
}

/// A number in decimal.
pub fn u64_text(n: u64) -> (r: String)
    ensures
        r@ == digits(n as nat),
    decreases n,
{
    if n < 10 {
        digit_text(n).to_string()
    } else {
        let mut r = u64_text(n / 10);
        let ghost before = r@;
        r.append(digit_text(n % 10));
        assert(r@ =~= before.push(digit_char((n % 10) as int)));
        r
    }
}

/// A number in decimal.
pub fn i64_text(n: i64) -> (r: String)
    ensures
        r@ == int_text(n as int),
{
    if n < 0 {
        proof {
            reveal_strlit("-");
        }
        let mut r = "-".to_string();
        let size = (-(n as i128)) as u64;
        r.append(u64_text(size).as_str());
        assert(r@ =~= seq!['-'] + digits((-n) as nat));
        r
    } else {
        u64_text(n as u64)
    }
}

/// More digits do not make a number smaller.
proof fn lemma_prefix_value(s: Seq<char>, i: int)
    requires
        0 <= i <= s.len(),
        all_digits(s),
    ensures
        0 <= digits_value(s.take(i)) <= digits_value(s),
    decreases s.len(),
{
    if i == s.len() {
        assert(s.take(i) =~= s);
        if s.len() > 0 {
            lemma_prefix_value(s.drop_last(), s.len() - 1);
            assert(s.drop_last().take(s.len() - 1) =~= s.drop_last());
        }
    } else {
        lemma_prefix_value(s.drop_last(), i);
        assert(s.drop_last().take(i) =~= s.take(i));
    }
}

/// The number that the characters from `from` on write, where a `u64` holds it.
fn parse_digits(s: &str, from: usize) -> (r: Option<u64>)
    requires
        from <= s@.len(),
    ensures
        r matches Some(n) ==> plain_number(s@.skip(from as int)) == Some(n as int),
        r is None ==> plain_number(s@.skip(from as int)) is None || plain_number(
            s@.skip(from as int),
        )->0 > u64::MAX,
{
    let len = s.unicode_len();
    if len == from {
        return None;
    }
    let ghost t = s@.skip(from as int);
    let mut value: u64 = 0;
    let mut i: usize = from;
    while i < len
        invariant
            from <= i <= len,
            len == s@.len(),
            t == s@.skip(from as int),
            all_digits(t.take(i - from)),
            value == digits_value(t.take(i - from)),
        decreases len - i,
    {
        let c = s.get_char(i);
        assert(c == t[i - from]);
        if c < '0' || c > '9' {
            return None;
        }
        let d: u64 = ((c as u8) - 48) as u64;
        assert(t.take(i - from + 1).drop_last() =~= t.take(i - from));
        assert(t.take(i - from + 1).last() == c);
        assert(digits_value(t.take(i - from + 1)) == 10 * value + d);
        let next = match value.checked_mul(10) {
            Some(v) => v.checked_add(d),
            None => None,
        };
        match next {
            Some(v) => {
                value = v;
            },
            None => {
                proof {
                    if all_digits(t) {
                        lemma_prefix_value(t, i - from + 1);
                    }
                }
                return None;
            },
        }
        assert forall|j: int| 0 <= j < i - from + 1 implies '0' <= #[trigger] t.take(i - from + 1)[j] && t.take(i - from + 1)[j] <= '9' by {
            if j < i - from {
                assert(t.take(i - from)[j] == t[j]);
            }
        }
        i += 1;
    }
    assert(t.take(len - from) =~= t);
    Some(value)
}

/// A number behind an optional plus sign.
pub fn parse_u64(s: &str) -> (r: Option<u64>)
    ensures
        (match r {
            Some(n) => Some(n as int),
            None => None,
        }) == unsigned_number(s@, u64::MAX as int),
{
    if s.unicode_len() > 0 && s.get_char(0) == '+' {
        assert(s@.skip(1) =~= s@.drop_first());
        parse_digits(s, 1)
    } else {
        assert(s@.skip(0) =~= s@);
        parse_digits(s, 0)
    }
}

/// A number behind an optional plus sign.
pub fn parse_u32(s: &str) -> (r: Option<u32>)
    ensures
        (match r {
            Some(n) => Some(n as int),
            None => None,
        }) == unsigned_number(s@, u32::MAX as int),
{
    match parse_u64(s) {
        Some(n) => if n <= u32::MAX as u64 {
            Some(n as u32)
        } else {
            None
        },
        None => None,
    }
}

/// A number behind an optional sign.
pub fn parse_i64(s: &str) -> (r: Option<i64>)
    ensures
        (match r {
            Some(n) => Some(n as int),
            None => None,
        }) == signed_number(s@),
{
    if s.unicode_len() > 0 && s.get_char(0) == '-' {
        assert(s@.skip(1) =~= s@.drop_first());
        match parse_digits(s, 1) {
            Some(n) => if n <= 9_223_372_036_854_775_808 {
                Some((-(n as i128)) as i64)
            } else {
                None
            },
            None => None,
        }
    } else {
        match parse_u64(s) {
            Some(n) => if n <= i64::MAX as u64 {
                Some(n as i64)
            } else {
                None
            },
            None => None,
        }
    }
}

/// The last `width` decimal digits of a number, with leading zeros.
pub open spec fn padded(n: int, width: int) -> Seq<char>
    decreases width,
{
    if width <= 0 {
        Seq::empty()
    } else {
        padded(n / 10, width - 1).push(digit_char(n % 10))
    }
}

/// A number of atoms in decimal, cut off (not rounded) after `places` decimals. A minus sign stays
/// even where nothing but zeros is left.
pub open spec fn decimal_text(atoms: int, places: int) -> Seq<char> {
    let kept = decimal::abs_of(atoms) / decimal::pow10(28 - places);
    let sign = if atoms < 0 {
        seq!['-']
    } else {
        Seq::empty()
    };
    let whole = sign + digits((kept / decimal::pow10(places)) as nat);
    if places > 0 {
        whole + seq!['.'] + padded(kept, places)
    } else {
        whole
    }
}

/// A number in decimal.
fn u128_text(n: u128) -> (r: String)
    ensures
        r@ == digits(n as nat),
    decreases n,
{
    if n < 10 {
        digit_text(n as u64).to_string()
    } else {
        let mut r = u128_text(n / 10);
        let ghost before = r@;
        r.append(digit_text((n % 10) as u64));
        assert(r@ =~= before.push(digit_char((n % 10) as int)));
        r
    }
}

/// The last `width` decimal digits of a number, with leading zeros.
fn padded_text(n: u128, width: usize) -> (r: String)
    ensures
        r@ == padded(n as int, width as int),
    decreases width,
{
    proof {
        reveal_strlit("");
    }
    if width == 0 {
        let r = "".to_string();
        assert(r@ =~= padded(n as int, 0));
        r
    } else {
        let mut r = padded_text(n / 10, width - 1);
        let ghost before = r@;
        r.append(digit_text((n % 10) as u64));
        assert(r@ =~= before.push(digit_char((n % 10) as int)));
        r
    }
}

/// Zeros behind the last digit are the last digits of a number times a power of ten.
proof fn lemma_padded_zeros(n: int, width: int, zeros: int)
    requires
        n >= 0,
        0 <= width,
        0 <= zeros,
        width + zeros <= 28,
    ensures
        padded(n * decimal::pow10(zeros), width + zeros) == padded(n, width) + Seq::new(
            zeros as nat,
            |i: int| '0',
        ),
    decreases zeros,
{
    if zeros == 0 {
        assert(n * 1 == n);
        assert(padded(n, width) =~= padded(n, width) + Seq::new(0, |i: int| '0'));
    } else {
        let fewer = n * decimal::pow10(zeros - 1);
        decimal::lemma_pow10_step(zeros - 1);
        assert(n * decimal::pow10(zeros) == 10 * fewer) by (nonlinear_arith)
            requires
                fewer == n * decimal::pow10(zeros - 1),
                decimal::pow10(zeros) == 10 * decimal::pow10(zeros - 1),
        ;
        lemma_padded_zeros(n, width, zeros - 1);
        let before = padded(n, width) + Seq::new((zeros - 1) as nat, |i: int| '0');
        assert(digit_char(0) == '0');
        assert(before.push('0') =~= padded(n, width) + Seq::new(zeros as nat, |i: int| '0'));
    }
}

/// A power of ten.
fn power_of_ten(k: usize) -> (r: u128)
    requires
        k <= 28,
    ensures
        r == decimal::pow10(k as int),
{
    let mut p: u128 = 1;
    let mut i: usize = 0;
    while i < k
        invariant
            i <= k <= 28,
            p == decimal::pow10(i as int),
        decreases k - i,
    {
        proof {
            decimal::lemma_pow10_step(i as int);
        }
        assert(decimal::pow10(i as int) <= 1_000_000_000_000_000_000_000_000_000);
        p = p * 10;
        i += 1;
    }
    p
}

/// What is kept of a number of atoms with `scale` decimals, cut off after `places` of them.
proof fn lemma_kept(m: int, scale: int, places: int)
    requires
        m >= 0,
        0 <= scale <= 28,
        0 <= places <= 28,
    ensures
        ({
            let kept = decimal::atoms(m, scale) / decimal::pow10(28 - places);
            &&& places <= scale ==> kept == m / decimal::pow10(scale - places)
            &&& places > scale ==> kept == m * decimal::pow10(places - scale)
            &&& kept / decimal::pow10(places) == m / decimal::pow10(scale)
        }),
{
    let unit = decimal::pow10(28 - places);
    let fine = decimal::pow10(28 - scale);
    lemma_pow10_sum(28 - places, places);
    lemma_pow10_sum(28 - scale, scale);
    let whole = decimal::pow10(places);
    let part = decimal::pow10(scale);
    let kept = (m * fine) / unit;
    assert(unit > 0 && fine > 0 && whole > 0 && part > 0);
    assert(kept / whole == (m * fine) / (unit * whole)) by (nonlinear_arith)
        requires
            kept == (m * fine) / unit,
            unit > 0,
            whole > 0,
            m * fine >= 0,
    {
        vstd::arithmetic::div_mod::lemma_div_denominator(m * fine, unit, whole);
    }
    assert(m * fine >= 0) by (nonlinear_arith)
        requires
            m >= 0,
            fine > 0,
    ;
    assert((m * fine) / (fine * part) == m / part) by {
        vstd::arithmetic::div_mod::lemma_div_denominator(m * fine, fine, part);
        vstd::arithmetic::div_mod::lemma_div_multiples_vanish(m, fine);
        assert((fine * m) / fine == m);
        assert(m * fine == fine * m) by (nonlinear_arith);
    }
    if places <= scale {
        let cut = decimal::pow10(scale - places);
        lemma_pow10_sum(28 - scale, scale - places);
        assert(unit == fine * cut);
        vstd::arithmetic::div_mod::lemma_div_denominator(m * fine, fine, cut);
        vstd::arithmetic::div_mod::lemma_div_multiples_vanish(m, fine);
        assert(m * fine == fine * m) by (nonlinear_arith);
    } else {
        let more = decimal::pow10(places - scale);
        lemma_pow10_sum(28 - places, places - scale);
        assert(fine == unit * more);
        assert(m * (unit * more) == unit * (m * more)) by (nonlinear_arith);
        vstd::arithmetic::div_mod::lemma_div_multiples_vanish(m * more, unit);
    }
}

/// Powers of ten multiply by adding their exponents.
proof fn lemma_pow10_sum(j: int, k: int)
    requires
        0 <= j,
        0 <= k,
        j + k <= 28,
    ensures
        decimal::pow10(j) * decimal::pow10(k) == decimal::pow10(j + k),
        decimal::pow10(j) > 0,
        decimal::pow10(k) > 0,
    decreases k,
{
    if k == 0 {
        assert(decimal::pow10(j) * 1 == decimal::pow10(j));
    } else {
        lemma_pow10_sum(j, k - 1);
        decimal::lemma_pow10_step(k - 1);
        decimal::lemma_pow10_step(j + k - 1);
        let (a, b) = (decimal::pow10(j), decimal::pow10(k - 1));
        assert(a * (10 * b) == 10 * (a * b)) by (nonlinear_arith);
    }
}

/// The text of `mantissa / 10^scale`, cut off after `places` decimals.
fn write_decimal(mantissa: i128, scale: u32, places: usize) -> (r: String)
    requires
        -decimal::MAX_MANTISSA <= mantissa <= decimal::MAX_MANTISSA,
        scale <= decimal::MAX_SCALE,
        places <= 28,
    ensures
        r@ == decimal_text(decimal::atoms(mantissa as int, scale as int), places as int),
{
    proof {
        reveal_strlit("");
        reveal_strlit("-");
        reveal_strlit(".");
        reveal_strlit("0");
    }
    let ghost atoms = decimal::atoms(mantissa as int, scale as int);
    let negative = mantissa < 0;
    let size: u128 = if negative {
        (-mantissa) as u128
    } else {
        mantissa as u128
    };
    proof {
        let fine = decimal::pow10(28 - scale);
        lemma_pow10_sum(28 - scale, scale as int);
        assert(decimal::abs_of(atoms) == size * fine && (atoms < 0 <==> negative)) by (nonlinear_arith)
            requires
                atoms == mantissa * fine,
                fine > 0,
                negative == (mantissa < 0),
                size == if mantissa < 0 { -mantissa } else { mantissa as int },
        ;
        lemma_kept(size as int, scale as int, places as int);
    }
    let ghost kept = decimal::abs_of(atoms) / decimal::pow10(28 - places);
    let mut r = if negative {
        "-".to_string()
    } else {
        "".to_string()
    };
    let ghost sign = r@;
    assert(sign =~= if atoms < 0 { seq!['-'] } else { Seq::<char>::empty() });
    let whole = size / power_of_ten(scale as usize);
    r.append(u128_text(whole).as_str());
    let ghost front = r@;
    assert(front == sign + digits((kept / decimal::pow10(places as int)) as nat));
    if places > 0 {
        r.append(".");
        assert(r@ =~= front + seq!['.']);
        if places <= scale as usize {
            let cut = size / power_of_ten(scale as usize - places);
            r.append(padded_text(cut, places).as_str());
        } else {
            r.append(padded_text(size, scale as usize).as_str());
            let ghost filled = r@;
            let mut i: usize = scale as usize;
            assert(r@ =~= filled + Seq::new(0, |j: int| '0'));
            while i < places
                invariant
                    scale <= i <= places,
                    "0"@ == seq!['0'],
                    r@ == filled + Seq::new((i - scale) as nat, |j: int| '0'),
                decreases places - i,
            {
                r.append("0");
                i += 1;
                assert(r@ =~= filled + Seq::new((i - scale) as nat, |j: int| '0'));
            }
            proof {
                lemma_padded_zeros(size as int, scale as int, places - scale);
            }
            assert(r@ =~= front + seq!['.'] + padded(kept, places as int));
        }
    }
    r
}

/// The text of a decimal, with as many decimals as its scale says.
pub open spec fn text_of(d: Decimal) -> Seq<char> {
    decimal_text(d@, d.scale_of())
}

/// The text of a decimal, with as many decimals as its scale says.
pub fn full_text(d: Decimal) -> (r: String)
    ensures
        r@ == text_of(d),
{
    let scale = d.scale();
    write_decimal(d.mantissa(), scale, scale as usize)
}

/// The text of a decimal, cut off after `places` decimals.
pub fn cut_text(d: Decimal, places: usize) -> (r: String)
    requires
        places <= 28,
    ensures
        r@ == decimal_text(d@, places as int),
{
    write_decimal(d.mantissa(), d.scale(), places)
}

/// Bytes that a character takes in UTF-8.
pub open spec fn utf8_len(c: char) -> int {
    if (c as int) < 0x80 {
        1
    } else if (c as int) < 0x800 {
        2
    } else if (c as int) < 0x1_0000 {
        3
    } else {
        4
    }
}

/// Bytes that a text takes in UTF-8.
pub open spec fn utf8_size(s: Seq<char>) -> int
    decreases s.len(),
{
    if s.len() == 0 {
        0
    } else {
        utf8_len(s[0]) + utf8_size(s.drop_first())
    }
}

/// How many characters make up the first `n` bytes of a text; `None` where a character would be cut, or
/// the text is shorter.
pub open spec fn chars_in_front(s: Seq<char>, n: int) -> Option<int>
    decreases s.len(),
{
    if n == 0 {
        Some(0)
    } else if s.len() == 0 || utf8_len(s[0]) > n {
        None
    } else {
        match chars_in_front(s.drop_first(), n - utf8_len(s[0])) {
            Some(k) => Some(k + 1),
            None => None,
        }
    }
}

/// Bytes that a character takes in UTF-8.
pub(crate) fn char_bytes(c: char) -> (r: usize)
    ensures
        r == utf8_len(c),
{
    let code: u32 = c as u32;
    if code < 0x80 {
        1
    } else if code < 0x800 {
        2
    } else if code < 0x1_0000 {
        3
    } else {
        4
    }
}

/// Whether a text takes more than `most` bytes in UTF-8.
pub(crate) fn is_longer(s: &str, most: usize) -> (r: bool)
    requires
        most < 1000,
    ensures
        r == (utf8_size(s@) > most),
{
    let n = s.unicode_len();
    let mut i: usize = 0;
    let mut size: usize = 0;
    assert(s@.skip(0) =~= s@);
    while i < n
        invariant
            i <= n == s@.len(),
            size <= most < 1000,
            utf8_size(s@) == size + utf8_size(s@.skip(i as int)),
        decreases n - i,
    {
        assert(s@.skip(i as int).drop_first() =~= s@.skip(i + 1));
        size += char_bytes(s.get_char(i));
        if size > most {
            proof {
                lemma_utf8_size(s@.skip(i + 1));
            }
            return true;
        }
        i += 1;
    }
    false
}

/// No text takes fewer than zero bytes.
proof fn lemma_utf8_size(s: Seq<char>)
    ensures
        utf8_size(s) >= 0,
    decreases s.len(),
{
    if s.len() > 0 {
        lemma_utf8_size(s.drop_first());
    }
}

/// How many characters make up the first `n` bytes of a text.
pub(crate) fn count_in_front(s: &str, n: usize) -> (r: Option<usize>)
    ensures
        (match r {
            Some(k) => Some(k as int),
            None => None,
        }) == chars_in_front(s@, n as int),
        r matches Some(k) ==> k <= s@.len(),
{
    let len = s.unicode_len();
    let mut i: usize = 0;
    let mut rest: usize = n;
    assert(s@.skip(0) =~= s@);
    while rest > 0
        invariant
            i <= len == s@.len(),
            chars_in_front(s@, n as int) == match chars_in_front(s@.skip(i as int), rest as int) {
                Some(k) => Some(k + i),
                None => None,
            },
        decreases rest,
    {
        if i == len {
            return None;
        }
        assert(s@.skip(i as int).drop_first() =~= s@.skip(i + 1));
        let size = char_bytes(s.get_char(i));
        if size > rest {
            return None;
        }
        rest -= size;
        i += 1;
    }
    Some(i)
}

} // verus!
