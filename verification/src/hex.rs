use vstd::prelude::*;
use crate::json::digit_char;

verus! {

/// The lower-case hexadecimal digit for `d` (0 to 15).
pub open spec fn hex_digit(d: int) -> char {
    if d < 10 { digit_char(d) }
    else if d == 10 { 'a' }
    else if d == 11 { 'b' }
    else if d == 12 { 'c' }
    else if d == 13 { 'd' }
    else if d == 14 { 'e' }
    else { 'f' }
}

/// The last `width` hexadecimal digits of `n`, most significant first, padded
/// with zeros.
pub open spec fn hex_digits(n: nat, width: nat) -> Seq<char>
    decreases width,
{
    if width == 0 {
        Seq::empty()
    } else {
        hex_digits(n / 16, (width - 1) as nat) + seq![hex_digit((n % 16) as int)]
    }
}

/// Sixteen to the power `w`.
pub open spec fn pow16(w: nat) -> nat
    decreases w,
{
    if w == 0 { 1 } else { 16 * pow16((w - 1) as nat) }
}

/// The number of dashes that precede the `k`-th hexadecimal digit of a
/// hyphenated UUID (dashes follow the 8th, 12th, 16th and 20th digit).
pub open spec fn dashes_before_digit(k: int) -> int {
    (if k >= 8 { 1int } else { 0 }) + (if k >= 12 { 1int } else { 0 }) + (if k >= 16 { 1int } else { 0 }) + (if k >= 20 { 1int } else { 0 })
}

/// The hyphenated lower-case text of the UUID with value `v`: its 32
/// hexadecimal digits, most significant first, grouped 8-4-4-4-12.
pub open spec fn uuid_text(v: u128) -> Seq<char> {
    let h = hex_digits(v as nat, 32);
    h.subrange(0, 8) + seq!['-'] + h.subrange(8, 12) + seq!['-'] + h.subrange(12, 16) + seq!['-']
        + h.subrange(16, 20) + seq!['-'] + h.subrange(20, 32)
}

/// uuid::Uuid::from_u128 (big-endian) rendered by Hyphenated::encode_lower, the
/// form in which a UUID serializes to JSON.
#[verifier::external_body]
pub(crate) fn uuid_hyphenated(v: u128) -> (s: String)
    ensures
        s@ == uuid_text(v),
{
    uuid::Uuid::from_u128(v).hyphenated().encode_lower(&mut uuid::Uuid::encode_buffer()).to_string()
}

proof fn hex_digits_len(n: nat, w: nat)
    ensures
        hex_digits(n, w).len() == w,
    decreases w,
{
    if w > 0 {
        hex_digits_len(n / 16, (w - 1) as nat);
    }
}

proof fn hex_digit_injective(a: int, b: int)
    requires
        0 <= a < 16,
        0 <= b < 16,
        hex_digit(a) == hex_digit(b),
    ensures
        a == b,
{
}

proof fn hex_digits_injective(a: nat, b: nat, w: nat)
    requires
        a < pow16(w),
        b < pow16(w),
        hex_digits(a, w) == hex_digits(b, w),
    ensures
        a == b,
    decreases w,
{
    if w > 0 {
        let w1 = (w - 1) as nat;
        let ha = hex_digits(a, w);
        let hb = hex_digits(b, w);
        hex_digits_len(a / 16, w1);
        hex_digits_len(b / 16, w1);
        assert(ha[w1 as int] == hex_digit((a % 16) as int));
        assert(hb[w1 as int] == hex_digit((b % 16) as int));
        hex_digit_injective((a % 16) as int, (b % 16) as int);
        assert(ha.drop_last() =~= hex_digits(a / 16, w1));
        assert(hb.drop_last() =~= hex_digits(b / 16, w1));
        let p = pow16(w1);
        assert(a / 16 < p) by (nonlinear_arith)
            requires a < 16 * p;
        assert(b / 16 < p) by (nonlinear_arith)
            requires b < 16 * p;
        hex_digits_injective(a / 16, b / 16, w1);
        assert(a == 16 * (a / 16) + a % 16) by (nonlinear_arith);
        assert(b == 16 * (b / 16) + b % 16) by (nonlinear_arith);
    }
}

proof fn u128_below_pow16_32(v: u128)
    ensures
        (v as nat) < pow16(32),
{
    reveal_with_fuel(pow16, 33);
    assert(pow16(32) == 0x1_0000_0000_0000_0000_0000_0000_0000_0000nat);
}

/// The hyphenated text of a UUID determines the UUID.
pub proof fn uuid_text_injective(a: u128, b: u128)
    requires
        uuid_text(a) == uuid_text(b),
    ensures
        a == b,
{
    let ha = hex_digits(a as nat, 32);
    let hb = hex_digits(b as nat, 32);
    hex_digits_len(a as nat, 32);
    hex_digits_len(b as nat, 32);
    let ta = uuid_text(a);
    let tb = uuid_text(b);
    assert forall|k: int| 0 <= k < 32 implies ha[k] == hb[k] by {
        let i = k + dashes_before_digit(k);
        assert(ta[i] == ha[k]);
        assert(tb[i] == hb[k]);
    }
    assert(ha =~= hb);
    u128_below_pow16_32(a);
    u128_below_pow16_32(b);
    hex_digits_injective(a as nat, b as nat, 32);
}

/// The hyphenated text of a UUID has 36 characters.
pub proof fn uuid_text_len(v: u128)
    ensures
        uuid_text(v).len() == 36,
{
    hex_digits_len(v as nat, 32);
}

/// A lower-case hexadecimal digit character.
pub open spec fn is_hex_char(c: char) -> bool {
    ('0' <= c && c <= '9') || ('a' <= c && c <= 'f')
}

/// At `start`, `s` holds the hyphenated text of the UUID `v`.
pub open spec fn uuid_at(s: Seq<char>, start: int, v: u128) -> bool {
    0 <= start && start + 36 <= s.len() && s.subrange(start, start + 36) == uuid_text(v)
}

proof fn hex_digits_chars(n: nat, w: nat)
    ensures
        forall|i: int| 0 <= i < w ==> is_hex_char(#[trigger] hex_digits(n, w)[i]),
    decreases w,
{
    if w > 0 {
        hex_digits_chars(n / 16, (w - 1) as nat);
        hex_digits_len(n / 16, (w - 1) as nat);
        let d = (n % 16) as int;
        assert(is_hex_char(hex_digit(d)));
        assert forall|i: int| 0 <= i < w implies is_hex_char(#[trigger] hex_digits(n, w)[i]) by {
            if i < w - 1 {
                assert(hex_digits(n, w)[i] == hex_digits(n / 16, (w - 1) as nat)[i]);
            }
        }
    }
}

proof fn pow16_monotone(a: nat, b: nat)
    requires
        a <= b,
    ensures
        pow16(a) <= pow16(b),
    decreases b,
{
    if a < b {
        pow16_monotone(a, (b - 1) as nat);
    }
}

proof fn hex_digits_push(acc: nat, d: nat, k: nat)
    requires
        d < 16,
    ensures
        hex_digits(acc * 16 + d, k + 1) == hex_digits(acc, k) + seq![hex_digit(d as int)],
{
    let n = acc * 16 + d;
    assert(n / 16 == acc && n % 16 == d) by (nonlinear_arith)
        requires n == acc * 16 + d, d < 16;
}

fn hex_of(c: char) -> (r: Option<u64>)
    ensures
        r is Some <==> is_hex_char(c),
        r matches Some(d) ==> d < 16 && hex_digit(d as int) == c,
{
    if c == '0' { Some(0) }
    else if c == '1' { Some(1) }
    else if c == '2' { Some(2) }
    else if c == '3' { Some(3) }
    else if c == '4' { Some(4) }
    else if c == '5' { Some(5) }
    else if c == '6' { Some(6) }
    else if c == '7' { Some(7) }
    else if c == '8' { Some(8) }
    else if c == '9' { Some(9) }
    else if c == 'a' { Some(10) }
    else if c == 'b' { Some(11) }
    else if c == 'c' { Some(12) }
    else if c == 'd' { Some(13) }
    else if c == 'e' { Some(14) }
    else if c == 'f' { Some(15) }
    else { None }
}

/// Reads the 32 hexadecimal digits of a hyphenated UUID written at `start`
/// (the characters between them are not looked at). Where `text` holds at
/// `start` the hyphenated text of a UUID, that UUID comes back.
pub fn scan_uuid(text: &str, start: usize) -> (r: Option<u128>)
    ensures
        forall|v: u128| #[trigger] uuid_at(text@, start as int, v) ==> r == Some(v),
{
    let len = text.unicode_len();
    if len < 36 || start > len - 36 {
        return None;
    }
    let ghost s = text@;
    let ghost has = exists|v: u128| #[trigger] uuid_at(s, start as int, v);
    let ghost v0: u128 = choose|v: u128| #[trigger] uuid_at(s, start as int, v);
    let ghost h = hex_digits(v0 as nat, 32);
    proof {
        hex_digits_len(v0 as nat, 32);
        hex_digits_chars(v0 as nat, 32);
        u128_below_pow16_32(v0);
        reveal_with_fuel(pow16, 33);
        assert(pow16(32) == 0x1_0000_0000_0000_0000_0000_0000_0000_0000nat);
        if has {
            let t = uuid_text(v0);
            assert forall|k: int| 0 <= k < 32 implies s[start + k + dashes_before_digit(k)] == #[trigger] h[k] by {
                assert(t[k + dashes_before_digit(k)] == h[k]);
                assert(s[start + k + dashes_before_digit(k)] == t[k + dashes_before_digit(k)]);
            }
        }
        assert(hex_digits(0, 0) =~= h.subrange(0, 0));
    }
    let mut acc: u128 = 0;
    let mut k: usize = 0;
    while k < 32
        invariant
            len == s.len(),
            s == text@,
            start + 36 <= len,
            has == exists|v: u128| #[trigger] uuid_at(s, start as int, v),
            k <= 32,
            pow16(32) == 0x1_0000_0000_0000_0000_0000_0000_0000_0000nat,
            h.len() == 32,
            has ==> forall|j: int| 0 <= j < 32 ==> s[start + j + dashes_before_digit(j)] == #[trigger] h[j],
            forall|j: int| 0 <= j < 32 ==> is_hex_char(#[trigger] h[j]),
            has ==> hex_digits(acc as nat, k as nat) == h.subrange(0, k as int),
            has ==> (acc as nat) < pow16(k as nat),
        decreases 32 - k,
    {
        let gap: usize = (if k >= 8 { 1usize } else { 0 }) + (if k >= 12 { 1usize } else { 0 })
            + (if k >= 16 { 1usize } else { 0 }) + (if k >= 20 { 1usize } else { 0 });
        assert(gap == dashes_before_digit(k as int));
        let c = text.get_char(start + k + gap);
        let d = match hex_of(c) {
            Some(d) => d,
            None => {
                assert(has ==> s[start + k + gap] == h[k as int]);
                return None;
            },
        };
        proof {
            if has {
                assert(s[start + k + gap] == h[k as int]);
                hex_digits_push(acc as nat, d as nat, k as nat);
                assert(h.subrange(0, k + 1) =~= h.subrange(0, k as int) + seq![h[k as int]]);
                pow16_monotone((k + 1) as nat, 32);
                assert((acc as nat) * 16 + d < pow16((k + 1) as nat)) by (nonlinear_arith)
                    requires (acc as nat) < pow16(k as nat), d < 16, pow16((k + 1) as nat) == 16 * pow16(k as nat);
            }
        }
        let a16 = match acc.checked_mul(16) {
            Some(x) => x,
            None => return None,
        };
        acc = match a16.checked_add(d as u128) {
            Some(x) => x,
            None => return None,
        };
        k = k + 1;
    }
    proof {
        if has {
            assert(h.subrange(0, 32) =~= h);
            u128_below_pow16_32(acc);
            hex_digits_injective(acc as nat, v0 as nat, 32);
            assert forall|v: u128| #[trigger] uuid_at(s, start as int, v) implies v == v0 by {
                assert(uuid_text(v) =~= s.subrange(start as int, start + 36));
                uuid_text_injective(v, v0);
            }
        }
    }
    Some(acc)
}

} // verus!
