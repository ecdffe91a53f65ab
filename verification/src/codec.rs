//! Plain-value codecs for tokens and account identifiers.
//!
//! Session tokens are 128-bit numbers drawn from a random stream; the store
//! keys and values carry them as decimal strings.  Account identifiers
//! travel the same way.  Both directions of the codec are verified, and the
//! round trip is a proved lemma.

use vstd::prelude::*;
use vstd::string::StrSliceExecFns;

verus! {

/// The character for one decimal digit.
pub open spec fn digit_char_spec(d: nat) -> char {
    if d == 0 {
        '0'
    } else if d == 1 {
        '1'
    } else if d == 2 {
        '2'
    } else if d == 3 {
        '3'
    } else if d == 4 {
        '4'
    } else if d == 5 {
        '5'
    } else if d == 6 {
        '6'
    } else if d == 7 {
        '7'
    } else if d == 8 {
        '8'
    } else {
        '9'
    }
}

/// The value of one decimal digit character; ten marks a non-digit.
pub open spec fn digit_val(c: char) -> nat {
    if c == '0' {
        0
    } else if c == '1' {
        1
    } else if c == '2' {
        2
    } else if c == '3' {
        3
    } else if c == '4' {
        4
    } else if c == '5' {
        5
    } else if c == '6' {
        6
    } else if c == '7' {
        7
    } else if c == '8' {
        8
    } else if c == '9' {
        9
    } else {
        10
    }
}

/// The decimal digits of `n`, most significant first, without leading
/// zeroes.
pub open spec fn dec_digits(n: nat) -> Seq<char>
    decreases n,
{
    if n < 10 {
        seq![digit_char_spec(n)]
    } else {
        dec_digits(n / 10).push(digit_char_spec(n % 10))
    }
}

/// The number a digit string denotes.
pub open spec fn dec_val(s: Seq<char>) -> nat
    decreases s.len(),
{
    if s.len() == 0 {
        0
    } else {
        dec_val(s.drop_last()) * 10 + digit_val(s.last())
    }
}

/// A canonical decimal rendering of a 128-bit number: non-empty, all
/// digits, no leading zero, value in range.
pub open spec fn is_canonical_dec(s: Seq<char>) -> bool {
    &&& s.len() > 0
    &&& forall|i: int| 0 <= i < s.len() ==> digit_val(#[trigger] s[i]) < 10
    &&& (s.len() > 1 ==> s[0] != '0')
    &&& dec_val(s) <= u128::MAX
}

/// Relies on String::push: appends exactly the given character.
#[verifier::external_body]
fn push_char(s: &mut String, c: char)
    ensures
        final(s)@ == old(s)@ + seq![c],
{
    s.push(c);
}

/// The character for one decimal digit.
fn digit_char(d: u8) -> (c: char)
    requires
        d < 10,
    ensures
        c == digit_char_spec(d as nat),
{
    match d {
        0 => '0',
        1 => '1',
        2 => '2',
        3 => '3',
        4 => '4',
        5 => '5',
        6 => '6',
        7 => '7',
        8 => '8',
        _ => '9',
    }
}

/// The value of one decimal digit character.
fn char_digit(c: char) -> (r: Option<u8>)
    ensures
        match r {
            Some(d) => d < 10 && d as nat == digit_val(c),
            None => digit_val(c) == 10,
        },
{
    match c {
        '0' => Some(0),
        '1' => Some(1),
        '2' => Some(2),
        '3' => Some(3),
        '4' => Some(4),
        '5' => Some(5),
        '6' => Some(6),
        '7' => Some(7),
        '8' => Some(8),
        '9' => Some(9),
        _ => None,
    }
}

/// Append the decimal digits of `n` to `out`.
fn push_dec(n: u128, out: &mut String)
    ensures
        final(out)@ == old(out)@ + dec_digits(n as nat),
    decreases n,
{
    if n < 10 {
        push_char(out, digit_char(n as u8));
    } else {
        let ghost start = out@;
        push_dec(n / 10, out);
        push_char(out, digit_char((n % 10) as u8));
        proof {
            assert(out@ =~= start + dec_digits(n as nat));
        }
    }
}

/// Render `n` as its canonical decimal string.
pub fn u128_to_dec(n: u128) -> (r: String)
    ensures
        r@ == dec_digits(n as nat),
{
    let mut s = String::new();
    push_dec(n, &mut s);
    proof {
        assert(s@ =~= dec_digits(n as nat));
    }
    s
}

/// Powers of ten, for bounding partial parses.
pub open spec fn pow10(k: nat) -> nat
    decreases k,
{
    if k == 0 {
        1
    } else {
        10 * pow10((k - 1) as nat)
    }
}

/// A digit string is worth at least its prefix scaled by the length of the
/// remainder.
proof fn lemma_dec_val_prefix_bound(s: Seq<char>, i: int)
    requires
        0 <= i <= s.len(),
    ensures
        dec_val(s) >= dec_val(s.subrange(0, i)) * pow10((s.len() - i) as nat),
    decreases s.len() - i,
{
    if i == s.len() {
        assert(s.subrange(0, i) =~= s);
        assert(pow10((s.len() - i) as nat) == 1);
        assert(dec_val(s) * 1 == dec_val(s));
    } else {
        lemma_dec_val_prefix_bound(s, i + 1);
        let p = s.subrange(0, i);
        let q = s.subrange(0, i + 1);
        assert(q.drop_last() =~= p);
        let k = (s.len() - i - 1) as nat;
        assert(dec_val(q) >= dec_val(p) * 10);
        assert(dec_val(q) * pow10(k) >= (dec_val(p) * 10) * pow10(k)) by (nonlinear_arith)
            requires
                dec_val(q) >= dec_val(p) * 10,
                pow10(k) >= 0,
        ;
        assert(pow10((s.len() - i) as nat) == 10 * pow10(k));
        assert(dec_val(s) >= dec_val(q) * pow10(k));
        assert(dec_val(p) * pow10((s.len() - i) as nat) == (dec_val(p) * 10) * pow10(k))
            by (nonlinear_arith)
            requires
                pow10((s.len() - i) as nat) == 10 * pow10(k),
        ;
        assert(dec_val(s) >= dec_val(p) * pow10((s.len() - i) as nat));
    }
}

/// Powers of ten are at least one.
proof fn lemma_pow10_pos(k: nat)
    ensures
        pow10(k) >= 1,
    decreases k,
{
    if k > 0 {
        lemma_pow10_pos((k - 1) as nat);
    }
}

/// Parse a canonical decimal string back into a 128-bit number.  Returns
/// the denoted value exactly on canonical strings and nothing otherwise.
pub fn dec_to_u128(s: &str) -> (r: Option<u128>)
    ensures
        match r {
            Some(n) => is_canonical_dec(s@) && n as nat == dec_val(s@),
            None => !is_canonical_dec(s@),
        },
{
    let len = s.unicode_len();
    if len == 0 {
        return None;
    }
    if len > 1 && s.get_char(0) == '0' {
        return None;
    }
    let mut n: u128 = 0;
    let mut i: usize = 0;
    while i < len
        invariant
            0 <= i <= len,
            len == s@.len(),
            len > 1 ==> s@[0] != '0',
            forall|j: int| 0 <= j < i ==> digit_val(#[trigger] s@[j]) < 10,
            n as nat == dec_val(s@.subrange(0, i as int)),
        decreases len - i,
    {
        let c = s.get_char(i);
        let d = match char_digit(c) {
            Some(d) => d,
            None => {
                return None;
            },
        };
        let ghost prefix = s@.subrange(0, i as int);
        let ghost ext = s@.subrange(0, i as int + 1);
        proof {
            assert(ext.drop_last() =~= prefix);
            assert(ext.last() == s@[i as int]);
        }
        let stepped = match n.checked_mul(10) {
            Some(m) => m.checked_add(d as u128),
            None => None,
        };
        match stepped {
            Some(m) => {
                n = m;
            },
            None => {
                proof {
                    assert(dec_val(ext) > u128::MAX);
                    lemma_dec_val_prefix_bound(s@, i as int + 1);
                    lemma_pow10_pos((s@.len() - i - 1) as nat);
                    assert(dec_val(s@) >= dec_val(ext) * pow10((s@.len() - i - 1) as nat));
                    assert(dec_val(ext) * pow10((s@.len() - i - 1) as nat) >= dec_val(ext) * 1)
                        by (nonlinear_arith)
                        requires
                            pow10((s@.len() - i - 1) as nat) >= 1,
                            dec_val(ext) >= 0,
                    ;
                }
                return None;
            },
        }
        i = i + 1;
    }
    proof {
        assert(s@.subrange(0, len as int) =~= s@);
    }
    Some(n)
}

/// The canonical rendering of a number parses back to it: the digits are
/// digits, there is no leading zero, and the denoted value is the number.
pub proof fn lemma_dec_round_trip(n: u128)
    ensures
        is_canonical_dec(dec_digits(n as nat)),
        dec_val(dec_digits(n as nat)) == n as nat,
{
    lemma_dec_digits_exact(n as nat);
    assert(n as nat <= u128::MAX);
}

/// The digits of `n` denote `n`, start without a zero unless `n` is zero,
/// and are all digits.
proof fn lemma_dec_digits_exact(n: nat)
    ensures
        dec_val(dec_digits(n)) == n,
        dec_digits(n).len() > 0,
        forall|i: int| 0 <= i < dec_digits(n).len() ==> digit_val(#[trigger] dec_digits(n)[i]) < 10,
        n > 0 ==> dec_digits(n)[0] != '0',
        n < 10 ==> dec_digits(n).len() == 1,
        n >= 10 ==> dec_digits(n).len() > 1,
    decreases n,
{
    if n < 10 {
        let s = dec_digits(n);
        assert(s.len() == 1);
        assert(s.last() == digit_char_spec(n));
        assert(s.drop_last() =~= Seq::<char>::empty());
        assert(dec_val(Seq::<char>::empty()) == 0);
        assert(digit_val(digit_char_spec(n)) == n);
    } else {
        lemma_dec_digits_exact(n / 10);
        let p = dec_digits(n / 10);
        let s = dec_digits(n);
        assert(s == p.push(digit_char_spec(n % 10)));
        assert(s.drop_last() =~= p);
        assert(dec_val(s) == dec_val(p) * 10 + digit_val(digit_char_spec(n % 10)));
        assert(digit_val(digit_char_spec(n % 10)) == n % 10);
        assert(dec_val(s) == (n / 10) * 10 + n % 10);
        assert(s[0] == p[0]);
    }
}

/// Distinct numbers render to distinct decimal strings: the rendering
/// parses back to the number it came from.
pub proof fn lemma_dec_digits_injective(a: u128, b: u128)
    requires
        dec_digits(a as nat) == dec_digits(b as nat),
    ensures
        a == b,
{
    lemma_dec_round_trip(a);
    lemma_dec_round_trip(b);
}

/// The number denoted by bytes read least-significant first.
pub open spec fn le_bytes_val(s: Seq<u8>) -> nat
    decreases s.len(),
{
    if s.len() == 0 {
        0
    } else {
        (s[0] + 256 * le_bytes_val(s.drop_first())) as nat
    }
}

/// Powers of 256, for bounding byte values.
pub open spec fn pow256(k: nat) -> nat
    decreases k,
{
    if k == 0 {
        1
    } else {
        256 * pow256((k - 1) as nat)
    }
}

/// Interpret sixteen bytes as one 128-bit number, least-significant byte
/// first.  The byte order is fixed here once; nothing else depends on it.
pub fn token_from_bytes(bytes: &[u8; 16]) -> (n: u128)
    ensures
        n as nat == le_bytes_val(bytes@),
{
    proof {
        reveal_with_fuel(pow256, 17);
    }
    let mut n: u128 = 0;
    let mut i: usize = 16;
    while i > 0
        invariant
            0 <= i <= 16,
            bytes@.len() == 16,
            n as nat == le_bytes_val(bytes@.skip(i as int)),
            (n as nat) < pow256((16 - i) as nat),
            pow256(16) == 0x1_0000_0000_0000_0000_0000_0000_0000_0000,
        decreases i,
    {
        let ghost before = bytes@.skip(i as int);
        let ghost after = bytes@.skip(i as int - 1);
        proof {
            assert(after.drop_first() =~= before);
            assert(after[0] == bytes@[i as int - 1]);
            lemma_pow256_mono((16 - (i - 1)) as nat, 16);
            assert(n as nat * 256 + 256 <= pow256((16 - (i - 1)) as nat)) by (nonlinear_arith)
                requires
                    (n as nat) < pow256((16 - i) as nat),
                    pow256((16 - (i - 1)) as nat) == 256 * pow256((16 - i) as nat),
            ;
        }
        i = i - 1;
        n = n * 256 + (bytes[i] as u128);
    }
    proof {
        assert(bytes@.skip(0) =~= bytes@);
    }
    n
}

/// Powers of 256 grow with the exponent.
proof fn lemma_pow256_mono(a: nat, b: nat)
    requires
        a <= b,
    ensures
        pow256(a) <= pow256(b),
    decreases b,
{
    if a < b {
        lemma_pow256_mono(a, (b - 1) as nat);
        assert(pow256(b) == 256 * pow256((b - 1) as nat));
        assert(256 * pow256((b - 1) as nat) >= pow256((b - 1) as nat)) by (nonlinear_arith)
            requires
                pow256((b - 1) as nat) >= 0,
        ;
    }
}

} // verus!
