use vstd::prelude::*;

verus! {

/// The decimal digit character for `d` (0 to 9).
pub open spec fn digit_char(d: int) -> char {
    if d == 0 { '0' }
    else if d == 1 { '1' }
    else if d == 2 { '2' }
    else if d == 3 { '3' }
    else if d == 4 { '4' }
    else if d == 5 { '5' }
    else if d == 6 { '6' }
    else if d == 7 { '7' }
    else if d == 8 { '8' }
    else { '9' }
}

/// The decimal digits of `n`, most significant first, without leading zeros.
pub open spec fn decimal_digits(n: nat) -> Seq<char>
    decreases n,
{
    if n < 10 {
        seq![digit_char(n as int)]
    } else {
        decimal_digits(n / 10) + seq![digit_char((n % 10) as int)]
    }
}

/// The decimal text of an integer, with a leading `-` when it is negative.
pub open spec fn decimal(i: int) -> Seq<char> {
    if i < 0 {
        seq!['-'] + decimal_digits((-i) as nat)
    } else {
        decimal_digits(i as nat)
    }
}

fn digit_str(d: u64) -> (s: &'static str)
    requires
        d < 10,
    ensures
        s@ == seq![digit_char(d as int)],
{
    proof {
        reveal_strlit("0");
        reveal_strlit("1");
        reveal_strlit("2");
        reveal_strlit("3");
        reveal_strlit("4");
        reveal_strlit("5");
        reveal_strlit("6");
        reveal_strlit("7");
        reveal_strlit("8");
        reveal_strlit("9");
    }
    if d == 0 { "0" }
    else if d == 1 { "1" }
    else if d == 2 { "2" }
    else if d == 3 { "3" }
    else if d == 4 { "4" }
    else if d == 5 { "5" }
    else if d == 6 { "6" }
    else if d == 7 { "7" }
    else if d == 8 { "8" }
    else { "9" }
}

fn format_digits(n: u64) -> (s: String)
    ensures
        s@ == decimal_digits(n as nat),
    decreases n,
{
    if n < 10 {
        String::from_str(digit_str(n))
    } else {
        let head = format_digits(n / 10);
        head.concat(digit_str(n % 10))
    }
}

/// Writes an `i64` in decimal, as JSON writes an integer.
pub fn format_i64(v: i64) -> (s: String)
    ensures
        s@ == decimal(v as int),
{
    if v < 0 {
        let magnitude: u64 = ((-(v + 1)) as u64) + 1;
        let digits = format_digits(magnitude);
        proof { reveal_strlit("-"); }
        String::from_str("-").concat(digits.as_str())
    } else {
        format_digits(v as u64)
    }
}

/// A decimal digit character.
pub open spec fn is_digit_char(c: char) -> bool {
    '0' <= c && c <= '9'
}

/// The value of a decimal digit character.
pub open spec fn char_value(c: char) -> nat {
    if c == '0' { 0 }
    else if c == '1' { 1 }
    else if c == '2' { 2 }
    else if c == '3' { 3 }
    else if c == '4' { 4 }
    else if c == '5' { 5 }
    else if c == '6' { 6 }
    else if c == '7' { 7 }
    else if c == '8' { 8 }
    else { 9 }
}

/// The number that a run of decimal digits denotes.
pub open spec fn digits_value(s: Seq<char>) -> nat
    decreases s.len(),
{
    if s.len() == 0 {
        0
    } else {
        digits_value(s.drop_last()) * 10 + char_value(s.last())
    }
}

/// At `start`, `s` holds the decimal text of `i`, and no digit follows it.
pub open spec fn int_at(s: Seq<char>, start: int, i: int) -> bool {
    let d = decimal(i);
    let end = start + d.len();
    &&& 0 <= start
    &&& end <= s.len()
    &&& s.subrange(start, end) == d
    &&& (end == s.len() || !is_digit_char(s[end]))
}

proof fn digit_char_facts(d: int)
    requires
        0 <= d < 10,
    ensures
        is_digit_char(digit_char(d)),
        char_value(digit_char(d)) == d,
{
}

/// The decimal digits of `n` are digits, at least one, and denote `n`.
proof fn decimal_digits_facts(n: nat)
    ensures
        decimal_digits(n).len() >= 1,
        forall|k: int| 0 <= k < decimal_digits(n).len() ==> is_digit_char(#[trigger] decimal_digits(n)[k]),
        digits_value(decimal_digits(n)) == n,
    decreases n,
{
    let d = decimal_digits(n);
    if n < 10 {
        digit_char_facts(n as int);
        assert(d.drop_last() =~= Seq::<char>::empty());
        assert(digits_value(Seq::<char>::empty()) == 0);
        assert(d.last() == digit_char(n as int));
    } else {
        decimal_digits_facts(n / 10);
        digit_char_facts((n % 10) as int);
        assert(d.drop_last() =~= decimal_digits(n / 10));
        assert(d.last() == digit_char((n % 10) as int));
        assert(n == (n / 10) * 10 + n % 10);
    }
}

proof fn digits_value_step(s: Seq<char>, t: int)
    requires
        0 <= t < s.len(),
    ensures
        digits_value(s.subrange(0, t + 1)) == digits_value(s.subrange(0, t)) * 10 + char_value(s[t]),
{
    assert(s.subrange(0, t + 1).drop_last() =~= s.subrange(0, t));
}

proof fn digits_value_prefix_le(s: Seq<char>, k: int)
    requires
        0 <= k <= s.len(),
    ensures
        digits_value(s.subrange(0, k)) <= digits_value(s),
    decreases s.len(),
{
    if k == s.len() {
        assert(s.subrange(0, k) =~= s);
    } else {
        let p = s.drop_last();
        assert(p.subrange(0, k) =~= s.subrange(0, k));
        digits_value_prefix_le(p, k);
    }
}

/// The decimal text at a position is determined: two integers cannot both be
/// written there with no digit following.
pub(crate) proof fn int_at_unique(s: Seq<char>, start: int, i1: int, i2: int)
    requires
        int_at(s, start, i1),
        int_at(s, start, i2),
    ensures
        i1 == i2,
{
    let m1: nat = if i1 < 0 { (-i1) as nat } else { i1 as nat };
    let m2: nat = if i2 < 0 { (-i2) as nat } else { i2 as nat };
    let d1 = decimal_digits(m1);
    let d2 = decimal_digits(m2);
    decimal_digits_facts(m1);
    decimal_digits_facts(m2);
    let t1 = decimal(i1);
    let t2 = decimal(i2);
    assert(t1[0] == s[start]);
    assert(t2[0] == s[start]);
    if i1 < 0 {
        assert(t1[0] == '-');
        if i2 >= 0 {
            assert(is_digit_char(d2[0]));
        }
    } else {
        assert(is_digit_char(d1[0]));
        if i2 < 0 {
            assert(t2[0] == '-');
        }
    }
    let ds = if i1 < 0 { start + 1 } else { start };
    // both digit runs start at ds and end at the first non-digit
    assert forall|k: int| 0 <= k < d1.len() implies s[ds + k] == d1[k] by {
        if i1 < 0 { assert(s[ds + k] == t1[k + 1]); } else { assert(s[ds + k] == t1[k]); }
    }
    assert forall|k: int| 0 <= k < d2.len() implies s[ds + k] == d2[k] by {
        if i2 < 0 { assert(s[ds + k] == t2[k + 1]); } else { assert(s[ds + k] == t2[k]); }
    }
    if d1.len() < d2.len() {
        assert(s[ds + d1.len()] == d2[d1.len() as int]);
        assert(!is_digit_char(s[start + t1.len()]));
    }
    if d2.len() < d1.len() {
        assert(s[ds + d2.len()] == d1[d2.len() as int]);
        assert(!is_digit_char(s[start + t2.len()]));
    }
    assert(d1 =~= d2);
}

fn digit_of(c: char) -> (r: Option<u64>)
    ensures
        r is Some <==> is_digit_char(c),
        r matches Some(d) ==> d == char_value(c) && d < 10,
{
    if c == '0' { Some(0) }
    else if c == '1' { Some(1) }
    else if c == '2' { Some(2) }
    else if c == '3' { Some(3) }
    else if c == '4' { Some(4) }
    else if c == '5' { Some(5) }
    else if c == '6' { Some(6) }
    else if c == '7' { Some(7) }
    else if c == '8' { Some(8) }
    else if c == '9' { Some(9) }
    else { None }
}

/// Reads the decimal integer written at `start` (an optional `-`, then
/// digits up to the first non-digit) and the position after it. Where `text`
/// holds at `start` the decimal text of an `i64`, followed by no digit, that
/// integer comes back.
pub fn scan_int(text: &str, start: usize) -> (r: Option<(i64, usize)>)
    requires
        start <= text@.len(),
    ensures
        forall|i: i64| #[trigger] int_at(text@, start as int, i as int)
            ==> r == Some((i, (start + decimal(i as int).len()) as usize)),
{
    let len = text.unicode_len();
    let ghost s = text@;
    let ghost has = exists|i: i64| #[trigger] int_at(s, start as int, i as int);
    let ghost i0: i64 = choose|i: i64| #[trigger] int_at(s, start as int, i as int);
    let ghost m0: nat = if i0 < 0 { (-i0) as nat } else { i0 as nat };
    let ghost dd = decimal_digits(m0);
    let ghost dt = decimal(i0 as int);
    proof {
        decimal_digits_facts(m0);
    }
    let mut pos = start;
    let mut neg = false;
    if pos < len {
        if text.get_char(pos) == '-' {
            neg = true;
            pos = pos + 1;
        }
    }
    proof {
        if has {
            assert(dt[0] == s[start as int]);
            if i0 < 0 {
                assert(dt[0] == '-');
            } else {
                assert(is_digit_char(dd[0]));
            }
        }
    }
    let ds = pos;
    let ghost dsi = ds as int;
    proof {
        if has {
            assert(neg == (i0 < 0));
            assert forall|k: int| 0 <= k < dd.len() implies s[dsi + k] == dd[k] by {
                if i0 < 0 { assert(s[dsi + k] == dt[k + 1]); } else { assert(s[dsi + k] == dt[k]); }
            }
            assert(dsi + dd.len() == start + dt.len());
        }
    }
    let mut mag: u64 = 0;
    proof {
        assert(dd.subrange(0, 0) =~= Seq::<char>::empty());
    }
    loop
        invariant
            len == s.len(),
            s == text@,
            dsi == ds as int,
            has == exists|i: i64| #[trigger] int_at(s, start as int, i as int),
            ds <= pos <= len,
            has ==> dsi + dd.len() <= len,
            has ==> pos <= dsi + dd.len(),
            has ==> mag == digits_value(dd.subrange(0, pos - dsi)),
            has ==> forall|k: int| 0 <= k < dd.len() ==> s[dsi + k] == #[trigger] dd[k],
            has ==> (dsi + dd.len() == len || !is_digit_char(s[dsi + dd.len()])),
            has ==> m0 <= 0x8000_0000_0000_0000,
            has ==> forall|k: int| 0 <= k < dd.len() ==> is_digit_char(#[trigger] dd[k]),
            has ==> digits_value(dd) == m0,
        ensures
            ds <= pos <= len,
            has ==> pos == dsi + dd.len(),
            has ==> mag == m0,
        decreases len - pos,
    {
        if pos >= len {
            proof {
                if has {
                    assert(dd.subrange(0, pos - dsi) =~= dd);
                }
            }
            break;
        }
        assert(has ==> pos <= dsi + dd.len());
        let c = text.get_char(pos);
        match digit_of(c) {
            None => {
                proof {
                    if has {
                        if pos < dsi + dd.len() {
                            let k = pos - dsi;
                            assert(s[dsi + k] == dd[k]);
                            assert(is_digit_char(dd[k]));
                        }
                        assert(dd.subrange(0, pos - dsi) =~= dd);
                    }
                }
                break;
            },
            Some(d) => {
                proof {
                    if has {
                        if pos == dsi + dd.len() {
                            assert(is_digit_char(s[pos as int]));
                        }
                        let t = pos - dsi;
                        assert(s[dsi + t] == dd[t]);
                        digits_value_step(dd, t);
                        digits_value_prefix_le(dd, t + 1);
                        assert(mag * 10 + d <= 0x8000_0000_0000_0000);
                    }
                }
                let m10 = match mag.checked_mul(10) {
                    Some(x) => x,
                    None => return None,
                };
                mag = match m10.checked_add(d) {
                    Some(x) => x,
                    None => return None,
                };
                pos = pos + 1;
            },
        }
    }
    if pos == ds {
        return None;
    }
    let v: i64 = if neg {
        if mag > 0x8000_0000_0000_0000u64 {
            return None;
        } else if mag == 0x8000_0000_0000_0000u64 {
            i64::MIN
        } else {
            -(mag as i64)
        }
    } else {
        if mag > 0x7fff_ffff_ffff_ffffu64 {
            return None;
        } else {
            mag as i64
        }
    };
    proof {
        if has {
            assert(v == i0);
            assert forall|i: i64| #[trigger] int_at(s, start as int, i as int) implies i == i0 by {
                int_at_unique(s, start as int, i as int, i0 as int);
            }
        }
    }
    Some((v, pos))
}

} // verus!
