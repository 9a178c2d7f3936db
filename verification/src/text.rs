//! Byte-level text primitives of the wire format: decimal rendering of
//! integer identifiers and JSON string escaping, with their inverses at the
//! specification level.

use vstd::prelude::*;

verus! {

/// Decimal digit sequence of `n`, most significant digit first.
pub open spec fn dec_rep(n: nat) -> Seq<u8>
    decreases n,
{
    if n < 10 {
        seq![(0x30 + n) as u8]
    } else {
        dec_rep(n / 10) + seq![(0x30 + n % 10) as u8]
    }
}

/// ASCII decimal digit.
pub open spec fn is_digit(b: u8) -> bool {
    0x30 <= b <= 0x39
}

/// Numeric value of a digit sequence, most significant digit first.
pub open spec fn dec_val(s: Seq<u8>) -> nat
    decreases s.len(),
{
    if s.len() == 0 {
        0
    } else {
        dec_val(s.drop_last()) * 10 + (if s.last() >= 0x30 { (s.last() - 0x30) as nat } else { 0 })
    }
}

/// Appends the decimal rendering of `n` to `out`.
pub fn push_decimal(out: &mut Vec<u8>, n: u64)
    ensures
        final(out)@ == old(out)@ + dec_rep(n as nat),
    decreases n,
{
    if n < 10 {
        out.push((48 + n) as u8);
        assert(out@ =~= old(out)@ + dec_rep(n as nat));
    } else {
        push_decimal(out, n / 10);
        out.push((48 + n % 10) as u8);
        assert(out@ =~= old(out)@ + dec_rep(n as nat));
    }
}

/// Every byte of a decimal rendering is an ASCII digit.
pub proof fn lemma_dec_rep_digits(n: nat)
    ensures
        dec_rep(n).len() >= 1,
        forall|i: int| 0 <= i < dec_rep(n).len() ==> is_digit(#[trigger] dec_rep(n)[i]),
    decreases n,
{
    if n >= 10 {
        lemma_dec_rep_digits(n / 10);
    }
}

/// Reading back the decimal rendering of `n` yields `n`.
pub proof fn lemma_dec_val_of_rep(n: nat)
    ensures
        dec_val(dec_rep(n)) == n,
    decreases n,
{
    if n < 10 {
        assert(dec_rep(n).drop_last() =~= Seq::<u8>::empty());
        assert(dec_val(Seq::<u8>::empty()) == 0);
        assert(dec_rep(n).last() == (0x30 + n) as u8);
        assert(dec_val(dec_rep(n)) == n);
    } else {
        lemma_dec_val_of_rep(n / 10);
        assert(dec_rep(n).drop_last() =~= dec_rep(n / 10));
        assert(dec_rep(n).last() == (0x30 + n % 10) as u8);
        assert(dec_val(dec_rep(n)) == (n / 10) * 10 + n % 10);
        assert((n / 10) * 10 + n % 10 == n) by {
            vstd::arithmetic::div_mod::lemma_fundamental_div_mod(n as int, 10);
        };
    }
}

/// Lower-case hexadecimal digit of a value below sixteen.
pub open spec fn hex_digit(v: u8) -> u8 {
    if v < 10 {
        (0x30 + v) as u8
    } else {
        (0x57 + v) as u8
    }
}

/// ASCII digit or lower-case hexadecimal letter.
pub open spec fn is_hex(b: u8) -> bool {
    (0x30 <= b <= 0x39) || (0x61 <= b <= 0x66)
}

/// Numeric value of a hexadecimal digit.
pub open spec fn hex_val(b: u8) -> nat {
    if 0x30 <= b <= 0x39 {
        (b - 0x30) as nat
    } else if 0x61 <= b <= 0x66 {
        (b - 0x57) as nat
    } else {
        0
    }
}

/// `hex_val` inverts `hex_digit` on values below sixteen.
pub proof fn lemma_hex_val_of_digit(v: u8)
    requires
        v < 16,
    ensures
        is_hex(hex_digit(v)),
        hex_val(hex_digit(v)) == v,
{
}

/// JSON escape of one byte: quotes and backslashes get a backslash escape,
/// control bytes a `\u00XX` escape, every other byte passes through.
pub open spec fn esc_byte(b: u8) -> Seq<u8> {
    if b == 0x22 {
        seq![0x5c, 0x22]
    } else if b == 0x5c {
        seq![0x5c, 0x5c]
    } else if b < 0x20 {
        seq![0x5c, 0x75, 0x30, 0x30, hex_digit(b / 16), hex_digit(b % 16)]
    } else {
        seq![b]
    }
}

/// JSON escape of a byte sequence.
pub open spec fn esc(s: Seq<u8>) -> Seq<u8>
    decreases s.len(),
{
    if s.len() == 0 {
        Seq::empty()
    } else {
        esc_byte(s[0]) + esc(s.skip(1))
    }
}

/// Escaping distributes over appending one byte at the end.
pub proof fn lemma_esc_snoc(s: Seq<u8>, b: u8)
    ensures
        esc(s.push(b)) == esc(s) + esc_byte(b),
    decreases s.len(),
{
    if s.len() == 0 {
        assert(s.push(b)[0] == b);
        assert(s.push(b).skip(1) =~= Seq::<u8>::empty());
        assert(esc(Seq::<u8>::empty()) == Seq::<u8>::empty());
        assert(esc(s.push(b)) == esc_byte(b) + Seq::<u8>::empty());
        assert(esc(s.push(b)) =~= esc(s) + esc_byte(b));
    } else {
        assert(s.push(b)[0] == s[0]);
        assert(s.push(b).skip(1) =~= s.skip(1).push(b));
        lemma_esc_snoc(s.skip(1), b);
        assert(esc(s.push(b)) == esc_byte(s[0]) + esc(s.skip(1).push(b)));
        assert(esc(s) == esc_byte(s[0]) + esc(s.skip(1)));
        assert(esc_byte(s[0]) + (esc(s.skip(1)) + esc_byte(b)) =~= (esc_byte(s[0]) + esc(
            s.skip(1),
        )) + esc_byte(b));
        assert(esc(s.push(b)) =~= esc(s) + esc_byte(b));
    }
}

/// Exact hexadecimal digit, executable form.
fn hex_digit_of(v: u8) -> (r: u8)
    requires
        v < 16,
    ensures
        r == hex_digit(v),
{
    if v < 10 {
        0x30 + v
    } else {
        0x57 + v
    }
}

/// Appends the JSON escape of `s` to `out`.
pub fn append_escaped(out: &mut Vec<u8>, s: &[u8])
    ensures
        final(out)@ == old(out)@ + esc(s@),
{
    assert(out@ =~= old(out)@ + esc(s@.take(0)));
    let mut i: usize = 0;
    while i < s.len()
        invariant
            i <= s@.len(),
            out@ == old(out)@ + esc(s@.take(i as int)),
        decreases s@.len() - i,
    {
        let b = s[i];
        proof {
            lemma_esc_snoc(s@.take(i as int), s@[i as int]);
            assert(s@.take(i as int).push(s@[i as int]) =~= s@.take(i as int + 1));
        }
        if b == 0x22 {
            out.push(0x5c);
            out.push(0x22);
        } else if b == 0x5c {
            out.push(0x5c);
            out.push(0x5c);
        } else if b < 0x20 {
            out.push(0x5c);
            out.push(0x75);
            out.push(0x30);
            out.push(0x30);
            out.push(hex_digit_of(b / 16));
            out.push(hex_digit_of(b % 16));
        } else {
            out.push(b);
        }
        assert(out@ =~= old(out)@ + esc(s@.take(i as int + 1)));
        i = i + 1;
    }
    assert(s@.take(s@.len() as int) =~= s@);
}

/// Scans an escaped JSON string up to its closing quote: yields the
/// unescaped bytes and what follows the quote. Exactly the escapes the
/// renderer emits are understood: `\"`, `\\`, and `\u00XX` for a control
/// byte.
pub open spec fn scan_str(s: Seq<u8>) -> Option<(Seq<u8>, Seq<u8>)>
    decreases s.len(),
{
    if s.len() == 0 {
        None
    } else if s[0] == 0x22 {
        Some((Seq::empty(), s.skip(1)))
    } else if s[0] == 0x5c {
        if s.len() >= 2 && (s[1] == 0x22 || s[1] == 0x5c) {
            match scan_str(s.skip(2)) {
                Some(p) => Some((seq![s[1]] + p.0, p.1)),
                None => None,
            }
        } else if s.len() >= 6 && s[1] == 0x75 && s[2] == 0x30 && s[3] == 0x30 && is_hex(s[4])
            && is_hex(s[5]) && hex_val(s[4]) * 16 + hex_val(s[5]) < 0x20 {
            match scan_str(s.skip(6)) {
                Some(p) => Some((seq![(hex_val(s[4]) * 16 + hex_val(s[5])) as u8] + p.0, p.1)),
                None => None,
            }
        } else {
            None
        }
    } else {
        match scan_str(s.skip(1)) {
            Some(p) => Some((seq![s[0]] + p.0, p.1)),
            None => None,
        }
    }
}

/// Scanning inverts escaping: the escape of `s`, closed by a quote and
/// followed by anything, scans back to exactly `s` and that remainder.
pub proof fn lemma_scan_esc(s: Seq<u8>, rest: Seq<u8>)
    ensures
        scan_str(esc(s) + seq![0x22u8] + rest) == Some((s, rest)),
    decreases s.len(),
{
    let total = esc(s) + seq![0x22u8] + rest;
    if s.len() == 0 {
        assert(total =~= seq![0x22u8] + rest);
        assert(total[0] == 0x22);
        assert(total.skip(1) =~= rest);
        assert(s =~= Seq::<u8>::empty());
    } else {
        let b = s[0];
        let t = esc(s.skip(1)) + seq![0x22u8] + rest;
        assert(esc(s) == esc_byte(b) + esc(s.skip(1)));
        assert(total =~= esc_byte(b) + t);
        lemma_scan_esc(s.skip(1), rest);
        if b == 0x22 {
            assert(total[0] == 0x5c);
            assert(total[1] == 0x22);
            assert(total.len() >= 2);
            assert(total.skip(2) =~= t);
            assert(seq![total[1]] + s.skip(1) =~= s);
        } else if b == 0x5c {
            assert(total[0] == 0x5c);
            assert(total[1] == 0x5c);
            assert(total.len() >= 2);
            assert(total.skip(2) =~= t);
            assert(seq![total[1]] + s.skip(1) =~= s);
        } else if b < 0x20 {
            assert(total[0] == 0x5c);
            assert(total[1] == 0x75);
            assert(total[2] == 0x30);
            assert(total[3] == 0x30);
            assert(total[4] == hex_digit(b / 16));
            assert(total[5] == hex_digit(b % 16));
            assert(total.len() >= 6);
            lemma_hex_val_of_digit(b / 16);
            lemma_hex_val_of_digit(b % 16);
            assert(hex_val(total[4]) * 16 + hex_val(total[5]) == (b / 16) * 16 + b % 16);
            assert((b / 16) * 16 + b % 16 == b) by {
                vstd::arithmetic::div_mod::lemma_fundamental_div_mod(b as int, 16);
            };
            assert(total.skip(6) =~= t);
            assert(seq![(hex_val(total[4]) * 16 + hex_val(total[5])) as u8] + s.skip(1) =~= s);
        } else {
            assert(total[0] == b);
            assert(total.skip(1) =~= t);
            assert(seq![total[0]] + s.skip(1) =~= s);
        }
    }
}

/// Splits a byte sequence at the end of its leading run of digits.
pub open spec fn take_digits(s: Seq<u8>) -> (Seq<u8>, Seq<u8>)
    decreases s.len(),
{
    if s.len() > 0 && is_digit(s[0]) {
        let p = take_digits(s.skip(1));
        (seq![s[0]] + p.0, p.1)
    } else {
        (Seq::empty(), s)
    }
}

/// Taking digits inverts placing a digit run before a non-digit.
pub proof fn lemma_take_digits(d: Seq<u8>, rest: Seq<u8>)
    requires
        forall|i: int| 0 <= i < d.len() ==> is_digit(#[trigger] d[i]),
        rest.len() >= 1,
        !is_digit(rest[0]),
    ensures
        take_digits(d + rest) == (d, rest),
    decreases d.len(),
{
    let total = d + rest;
    if d.len() == 0 {
        assert(total =~= rest);
        assert(take_digits(total).0 =~= d);
    } else {
        assert(total[0] == d[0]);
        assert(total.skip(1) =~= d.skip(1) + rest);
        lemma_take_digits(d.skip(1), rest);
        assert(seq![total[0]] + d.skip(1) =~= d);
    }
}

/// Byte-for-byte equality of two slices.
pub fn bytes_eq(a: &[u8], b: &[u8]) -> (r: bool)
    ensures
        r == (a@ == b@),
{
    if a.len() != b.len() {
        return false;
    }
    let mut i: usize = 0;
    while i < a.len()
        invariant
            i <= a@.len(),
            a@.len() == b@.len(),
            forall|j: int| 0 <= j < i ==> a@[j] == b@[j],
        decreases a@.len() - i,
    {
        if a[i] != b[i] {
            return false;
        }
        i = i + 1;
    }
    assert(a@ =~= b@);
    true
}

} // verus!
