//! What holds of texts: numbers read back from what they are written as, pieces that join, white space and case.
use vstd::prelude::*;

use crate::decimal;
use crate::text;

verus! {

/// The digits of a number are digits, at least one, and write it.
pub proof fn lemma_digits(n: nat)
    ensures
        text::digits(n).len() > 0,
        text::all_digits(text::digits(n)),
        text::digits_value(text::digits(n)) == n,
    decreases n,
{
    if n < 10 {
        let d = text::digits(n);
        assert(d.drop_last() =~= Seq::<char>::empty());
        assert(text::digits_value(d.drop_last()) == 0);
    } else {
        lemma_digits(n / 10);
        let front = text::digits(n / 10);
        let d = text::digits(n);
        assert(d.drop_last() =~= front);
        assert forall|i: int| 0 <= i < d.len() implies '0' <= #[trigger] d[i] && d[i] <= '9' by {
            if i < front.len() {
                assert(d[i] == front[i]);
            }
        }
    }
}

/// A whole number reads back from its digits, with a plus sign in front or without, where it is not above the
/// largest; above it, it does not.
pub proof fn whole_number_reads_back(n: nat, max: int)
    ensures
        n <= max ==> text::unsigned_number(text::digits(n), max) == Some(n as int),
        n <= max ==> text::unsigned_number(seq!['+'] + text::digits(n), max) == Some(n as int),
        n > max ==> text::unsigned_number(text::digits(n), max) is None,
{
    lemma_digits(n);
    let d = text::digits(n);
    assert(d[0] != '+');
    assert((seq!['+'] + d).drop_first() =~= d);
}

/// A signed number reads back from its text.
pub proof fn signed_number_reads_back(n: int)
    requires
        -9_223_372_036_854_775_808 <= n <= 9_223_372_036_854_775_807,
    ensures
        text::signed_number(text::int_text(n)) == Some(n),
        n < 0 <==> text::int_text(n)[0] == '-',
{
    if n < 0 {
        lemma_digits((-n) as nat);
        assert((seq!['-'] + text::digits((-n) as nat)).drop_first() =~= text::digits((-n) as nat));
    } else {
        lemma_digits(n as nat);
        whole_number_reads_back(n as nat, i64::MAX as int);
        assert(text::digits(n as nat)[0] != '-');
    }
}

/// What reads as a number has digits only, behind a sign at most.
pub proof fn other_text_is_no_number(s: Seq<char>, i: int, max: int)
    requires
        0 <= i < s.len(),
        s[i] < '0' || s[i] > '9',
        i > 0 || (s[0] != '+' && s[0] != '-'),
    ensures
        text::unsigned_number(s, max) is None,
        text::signed_number(s) is None,
{
    let rest = s.drop_first();
    if i > 0 {
        assert(rest[i - 1] == s[i]);
    }
}

/// No number reads from a text without digits.
pub proof fn sign_alone_is_no_number(max: int)
    ensures
        text::unsigned_number(Seq::<char>::empty(), max) is None,
        text::unsigned_number(seq!['+'], max) is None,
        text::signed_number(Seq::<char>::empty()) is None,
        text::signed_number(seq!['-']) is None,
        text::signed_number(seq!['+']) is None,
{
    assert(seq!['+'].drop_first() =~= Seq::<char>::empty());
    assert(seq!['-'].drop_first() =~= Seq::<char>::empty());
}

/// The last digits of a number, as many as asked for.
proof fn lemma_padded(n: int, width: int)
    requires
        n >= 0,
        0 <= width <= 28,
    ensures
        text::padded(n, width).len() == width,
        text::all_digits(text::padded(n, width)),
        text::digits_value(text::padded(n, width)) == n % decimal::pow10(width),
    decreases width,
{
    if width == 0 {
    } else {
        lemma_padded(n / 10, width - 1);
        decimal::lemma_pow10_step(width - 1);
        let front = text::padded(n / 10, width - 1);
        let d = text::padded(n, width);
        assert(d.drop_last() =~= front);
        assert forall|i: int| 0 <= i < d.len() implies '0' <= #[trigger] d[i] && d[i] <= '9' by {
            if i < front.len() {
                assert(d[i] == front[i]);
            }
        }
        let p = decimal::pow10(width - 1);
        let (q, r) = ((n / 10) / p, (n / 10) % p);
        assert(p > 0);
        vstd::arithmetic::div_mod::lemma_fundamental_div_mod(n / 10, p);
        assert(n == q * (10 * p) + (10 * r + n % 10)) by (nonlinear_arith)
            requires
                n / 10 == p * q + r,
                n == 10 * (n / 10) + n % 10,
        ;
        assert(0 <= r < p) by (nonlinear_arith)
            requires
                r == (n / 10) % p,
                p > 0,
        ;
        vstd::arithmetic::div_mod::lemma_fundamental_div_mod_converse(n, 10 * p, q, 10 * r + n % 10);
    }
}

/// A decimal is written with a minus sign where it is negative, its whole part, and a point with as many
/// decimals as asked for; what is written is the number, what lies behind the last decimal cut off.
pub proof fn decimal_is_written_out(atoms: int, places: int)
    requires
        0 < places <= 28,
    ensures
        ({
            let t = text::decimal_text(atoms, places);
            let point = t.len() - places - 1;
            let front = t.subrange(
                if atoms < 0 {
                    1
                } else {
                    0
                },
                point,
            );
            let decimals = t.skip(point + 1);
            let unit = decimal::pow10(28 - places);
            let written = text::digits_value(front) * decimal::pow10(places) + text::digits_value(decimals);
            &&& atoms < 0 <==> t[0] == '-'
            &&& t[point] == '.'
            &&& front.len() > 0 && text::all_digits(front)
            &&& decimals.len() == places && text::all_digits(decimals)
            &&& written * unit <= decimal::abs_of(atoms) < (written + 1) * unit
        }),
{
    let unit = decimal::pow10(28 - places);
    let kept = decimal::abs_of(atoms) / unit;
    let p = decimal::pow10(places);
    assert(unit > 0 && p > 0) by {
        decimal::lemma_pow10_step(0);
    }
    assert(kept >= 0 && kept * unit <= decimal::abs_of(atoms) < (kept + 1) * unit) by (nonlinear_arith)
        requires
            kept == decimal::abs_of(atoms) / unit,
            decimal::abs_of(atoms) >= 0,
            unit > 0,
    ;
    assert(kept / p >= 0 && kept == (kept / p) * p + kept % p) by (nonlinear_arith)
        requires
            kept >= 0,
            p > 0,
    ;
    lemma_digits((kept / p) as nat);
    lemma_padded(kept, places);
    let t = text::decimal_text(atoms, places);
    let whole = text::digits((kept / p) as nat);
    let tail = text::padded(kept, places);
    let point = t.len() - places - 1;
    let start: int = if atoms < 0 {
        1
    } else {
        0
    };
    assert(t.subrange(start, point) =~= whole);
    assert(t.skip(point + 1) =~= tail);
    assert(t[start] == whole[0]);
}

/// A decimal without decimals is written as its whole part.
pub proof fn whole_part_is_written_out(atoms: int)
    ensures
        ({
            let t = text::decimal_text(atoms, 0);
            let front = if atoms < 0 {
                t.drop_first()
            } else {
                t
            };
            let written = text::digits_value(front);
            &&& atoms < 0 <==> t[0] == '-'
            &&& front.len() > 0 && text::all_digits(front)
            &&& written * decimal::one() <= decimal::abs_of(atoms) < (written + 1) * decimal::one()
        }),
{
    let unit = decimal::pow10(28);
    let kept = decimal::abs_of(atoms) / unit;
    assert(kept >= 0 && kept * unit <= decimal::abs_of(atoms) < (kept + 1) * unit) by (nonlinear_arith)
        requires
            kept == decimal::abs_of(atoms) / unit,
            decimal::abs_of(atoms) >= 0,
            unit > 0,
    ;
    assert(kept / 1 == kept);
    lemma_digits(kept as nat);
    let t = text::decimal_text(atoms, 0);
    if atoms < 0 {
        assert(t.drop_first() =~= text::digits(kept as nat));
    } else {
        assert(t =~= text::digits(kept as nat));
    }
}

/// A comma parts a text: the pieces are those in front of it and those behind it.
pub proof fn comma_parts_a_text(a: Seq<char>, b: Seq<char>)
    ensures
        text::comma_pieces(a + seq![','] + b) == text::comma_pieces(a) + text::comma_pieces(b),
        text::comma_pieces(a).len() > 0,
    decreases b.len(),
{
    lemma_pieces_len(a);
    let s = a + seq![','] + b;
    if b.len() == 0 {
        assert(b =~= Seq::<char>::empty());
        assert(s.drop_last() =~= a);
        assert(s.last() == ',');
        assert(text::comma_pieces(s) =~= text::comma_pieces(a) + text::comma_pieces(b));
    } else {
        comma_parts_a_text(a, b.drop_last());
        lemma_pieces_len(b.drop_last());
        assert(s.drop_last() =~= a + seq![','] + b.drop_last());
        assert(s.last() == b.last());
        let (front, back) = (text::comma_pieces(a), text::comma_pieces(b.drop_last()));
        let both = front + back;
        if b.last() == ',' {
            assert(both.push(Seq::empty()) =~= front + back.push(Seq::empty()));
        } else {
            assert(both.last() == back.last());
            let longer = back.last().push(b.last());
            assert(both.update(both.len() - 1, longer) =~= front + back.update(back.len() - 1, longer));
        }
    }
}

/// There is always a piece.
proof fn lemma_pieces_len(s: Seq<char>)
    ensures
        text::comma_pieces(s).len() > 0,
    decreases s.len(),
{
    if s.len() > 0 {
        lemma_pieces_len(s.drop_last());
    }
}

/// A text without a comma is one piece.
pub proof fn text_without_comma_is_one_piece(s: Seq<char>)
    requires
        !s.contains(','),
    ensures
        text::comma_pieces(s) == seq![s],
    decreases s.len(),
{
    if s.len() > 0 {
        let front = s.drop_last();
        assert forall|i: int| 0 <= i < front.len() implies front[i] != ',' by {
            assert(s.contains(s[i]));
        }
        assert(s.contains(s.last()));
        text_without_comma_is_one_piece(front);
        assert(front.push(s.last()) =~= s);
        assert(text::comma_pieces(s) =~= seq![s]);
    }
}

/// White space at the front or the end of a text is dropped, and only there.
pub proof fn white_space_is_dropped(s: Seq<char>, c: char)
    ensures
        text::is_white(c) ==> text::trimmed(seq![c] + s) == text::trimmed(s),
        text::is_white(c) ==> text::trimmed(s.push(c)) == text::trimmed(s),
        s.len() == 0 || (!text::is_white(s[0]) && !text::is_white(s.last())) ==> text::trimmed(s) == s,
    decreases s.len(),
{
    assert((seq![c] + s).drop_first() =~= s);
    if text::is_white(c) {
        let t = s.push(c);
        if s.len() == 0 {
            assert(t.drop_first() =~= s);
        } else if text::is_white(s[0]) {
            white_space_is_dropped(s.drop_first(), c);
            assert(t.drop_first() =~= s.drop_first().push(c));
        } else {
            assert(t.drop_last() =~= s);
        }
    }
}

/// Blanks, tabs and the ends of lines are white space; what shows on the page is not.
pub proof fn what_is_white_space(c: char)
    ensures
        c == ' ' || c == '\t' || c == '\n' || c == '\r' ==> text::is_white(c),
        '!' <= c && c <= '~' ==> !text::is_white(c),
{
}

/// A text says `true` in any case of its letters, and no other text does.
pub proof fn true_in_any_case(s: Seq<char>)
    ensures
        text::says_true(s) <==> {
            &&& s.len() == 4
            &&& s[0] == 't' || s[0] == 'T'
            &&& s[1] == 'r' || s[1] == 'R'
            &&& s[2] == 'u' || s[2] == 'U'
            &&& s[3] == 'e' || s[3] == 'E'
        },
{
    reveal_strlit("true");
    let lower = s.map_values(|c: char| text::ascii_lower(c));
    assert(lower.len() == s.len());
    if s.len() == 4 {
        assert(lower[0] == text::ascii_lower(s[0]) && lower[1] == text::ascii_lower(s[1]));
        assert(lower[2] == text::ascii_lower(s[2]) && lower[3] == text::ascii_lower(s[3]));
        if lower[0] == 't' && lower[1] == 'r' && lower[2] == 'u' && lower[3] == 'e' {
            assert(lower =~= "true"@);
        }
    }
}

/// The characters in front make up the bytes asked for.
pub proof fn front_has_the_bytes_asked_for(s: Seq<char>, n: int)
    requires
        n >= 0,
        text::chars_in_front(s, n) is Some,
    ensures
        ({
            let k = text::chars_in_front(s, n)->0;
            &&& 0 <= k <= s.len()
            &&& text::utf8_size(s.take(k)) == n
        }),
    decreases s.len(),
{
    if n == 0 {
        assert(s.take(0) =~= Seq::<char>::empty());
    } else {
        let size = text::utf8_len(s[0]);
        front_has_the_bytes_asked_for(s.drop_first(), n - size);
        let k = text::chars_in_front(s, n)->0;
        assert(s.take(k).drop_first() =~= s.drop_first().take(k - 1));
        assert(s.take(k)[0] == s[0]);
    }
}

/// A text of ASCII characters takes a byte for each, and any number of them can be taken from its front.
pub proof fn ascii_takes_a_byte_each(s: Seq<char>, n: int)
    requires
        forall|i: int| 0 <= i < s.len() ==> (#[trigger] s[i] as int) < 128,
    ensures
        text::utf8_size(s) == s.len(),
        0 <= n <= s.len() ==> text::chars_in_front(s, n) == Some(n),
    decreases s.len(),
{
    if s.len() > 0 {
        assert((s[0] as int) < 128);
        let rest = s.drop_first();
        assert forall|i: int| 0 <= i < rest.len() implies (#[trigger] rest[i] as int) < 128 by {
            assert(rest[i] == s[i + 1]);
        }
        ascii_takes_a_byte_each(rest, n - 1);
    }
}

} // verus!
