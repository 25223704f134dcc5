//! Number formatting and the FNV-1a fingerprint used in diagnostics.

use vstd::prelude::*;

use vstd::utf8::encode_utf8;

use crate::text::push_char;

verus! {

/// The decimal digit character for `d < 10`.
pub open spec fn digit_char(d: nat) -> char {
    (48 + d) as char
}

/// The lower-case hexadecimal digit character for `d < 16`.
pub open spec fn hex_char(d: nat) -> char {
    if d < 10 {
        (48 + d) as char
    } else {
        (87 + d) as char
    }
}

/// The decimal representation of `n`, without leading zeros (`{}`).
pub open spec fn decimal(n: nat) -> Seq<char>
    decreases n,
{
    if n < 10 {
        seq![digit_char(n)]
    } else {
        decimal(n / 10).push(digit_char(n % 10))
    }
}

/// The last `width` lower-case hexadecimal digits of `n`, zero-padded.
pub open spec fn hex_digits(n: nat, width: nat) -> Seq<char>
    decreases width,
{
    if width == 0 {
        Seq::empty()
    } else {
        hex_digits(n / 16, (width - 1) as nat).push(hex_char(n % 16))
    }
}

pub open spec fn fnv_offset() -> u64 {
    0xcbf29ce484222325
}

pub open spec fn fnv_prime() -> u64 {
    0x100000001b3
}

/// 64-bit FNV-1a of `bytes`.
pub open spec fn fnv1a(bytes: Seq<u8>) -> u64
    decreases bytes.len(),
{
    if bytes.len() == 0 {
        fnv_offset()
    } else {
        let h = fnv1a(bytes.drop_last());
        (((h ^ (bytes.last() as u64)) as nat * fnv_prime() as nat) % 0x1_0000_0000_0000_0000nat) as u64
    }
}

/// The 16-digit lower-case hexadecimal FNV-1a fingerprint of a string's UTF-8 bytes.
pub open spec fn fingerprint_of(s: Seq<char>) -> Seq<char> {
    hex_digits(fnv1a(encode_utf8(s)) as nat, 16)
}

/// Appends the decimal representation of `n` to `s`.
pub fn push_decimal(s: &mut String, n: u64)
    ensures
        final(s)@ == old(s)@ + decimal(n as nat),
    decreases n,
{
    if n >= 10 {
        push_decimal(s, n / 10);
    }
    let d = (n % 10) as u8;
    push_char(s, (48u8 + d) as char);
    assert(final(s)@ =~= old(s)@ + decimal(n as nat));
}

/// The decimal representation of `n`.
pub fn decimal_string(n: u64) -> (r: String)
    ensures
        r@ == decimal(n as nat),
{
    let mut r = String::new();
    push_decimal(&mut r, n);
    assert(r@ =~= decimal(n as nat));
    r
}

/// Appends the last `width` hexadecimal digits of `n`.
pub fn push_hex(s: &mut String, n: u64, width: u32)
    ensures
        final(s)@ == old(s)@ + hex_digits(n as nat, width as nat),
    decreases width,
{
    if width == 0 {
        assert(final(s)@ =~= old(s)@ + hex_digits(n as nat, width as nat));
        return;
    }
    push_hex(s, n / 16, width - 1);
    let d = (n % 16) as u8;
    let c = if d < 10 { (48u8 + d) as char } else { (87u8 + d) as char };
    push_char(s, c);
    assert(final(s)@ =~= old(s)@ + hex_digits(n as nat, width as nat));
}

/// 64-bit FNV-1a of `bytes`.
pub fn fnv1a_hash(bytes: &[u8]) -> (r: u64)
    ensures
        r == fnv1a(bytes@),
{
    let mut h: u64 = 0xcbf29ce484222325;
    let mut i: usize = 0;
    while i < bytes.len()
        invariant
            i <= bytes@.len(),
            h == fnv1a(bytes@.subrange(0, i as int)),
        decreases bytes.len() - i,
    {
        let ghost t = bytes@.subrange(0, i + 1);
        assert(t.drop_last() =~= bytes@.subrange(0, i as int));
        h = (h ^ (bytes[i] as u64)).wrapping_mul(0x100000001b3);
        i = i + 1;
    }
    assert(bytes@.subrange(0, bytes@.len() as int) =~= bytes@);
    h
}

/// The 16-digit lower-case hexadecimal FNV-1a fingerprint of `s` (`{:016x}`).
pub fn fingerprint(s: &str) -> (r: String)
    ensures
        r@ == fingerprint_of(s@),
{
    let h = fnv1a_hash(s.as_bytes());
    let mut r = String::new();
    push_hex(&mut r, h, 16);
    assert(r@ =~= fingerprint_of(s@));
    r
}

} // verus!
