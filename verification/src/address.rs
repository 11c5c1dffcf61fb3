//! Normalization of on-chain account addresses.
//!
//! Every address that reaches the store is brought to one canonical form:
//! a leading `0x`, then the hex digits lowercased and left-padded with `0`
//! to 64 characters (32 bytes).

use vstd::prelude::*;

use crate::text::string_push;

verus! {

/// Maps an upper-case hex digit to its lower-case form; every other
/// character is kept as it is.
pub open spec fn spec_lower_hex_char(c: char) -> char {
    if c == 'A' {
        'a'
    } else if c == 'B' {
        'b'
    } else if c == 'C' {
        'c'
    } else if c == 'D' {
        'd'
    } else if c == 'E' {
        'e'
    } else if c == 'F' {
        'f'
    } else {
        c
    }
}

/// The address with a leading `0x` removed, when there is one.
pub open spec fn spec_strip_hex_prefix(s: Seq<char>) -> Seq<char> {
    if s.len() >= 2 && s[0] == '0' && s[1] == 'x' {
        s.skip(2)
    } else {
        s
    }
}

/// Left-pads the digits with `0` up to 64 characters; longer inputs are
/// kept whole.
pub open spec fn spec_pad_address_digits(s: Seq<char>) -> Seq<char> {
    if s.len() >= 64 {
        s
    } else {
        Seq::new((64 - s.len()) as nat, |i: int| '0') + s
    }
}

/// The canonical form of an address: `0x`, then the digits (without any
/// `0x` they came with) lowercased and left-padded with `0` to 64
/// characters.
pub open spec fn spec_standardize_address(s: Seq<char>) -> Seq<char> {
    seq!['0', 'x'] + spec_pad_address_digits(
        spec_strip_hex_prefix(s).map_values(|c: char| spec_lower_hex_char(c)),
    )
}

fn lower_hex_char(c: char) -> (r: char)
    ensures
        r == spec_lower_hex_char(c),
{
    if c == 'A' {
        'a'
    } else if c == 'B' {
        'b'
    } else if c == 'C' {
        'c'
    } else if c == 'D' {
        'd'
    } else if c == 'E' {
        'e'
    } else if c == 'F' {
        'f'
    } else {
        c
    }
}

/// Brings an on-chain address to its canonical 32-byte hex form.
pub fn standardize_address(addr: &str) -> (r: String)
    ensures
        r@ == spec_standardize_address(addr@),
{
    let n = addr.unicode_len();
    let stripped: &str = if n >= 2 && addr.get_char(0) == '0' && addr.get_char(1) == 'x' {
        addr.substring_char(2, n)
    } else {
        addr
    };
    assert(stripped@ == spec_strip_hex_prefix(addr@));
    let m = stripped.unicode_len();

    let ghost digits: Seq<char> = stripped@.map_values(|c: char| spec_lower_hex_char(c));
    let mut out = String::new();
    string_push(&mut out, '0');
    string_push(&mut out, 'x');
    assert(out@ =~= seq!['0', 'x']);

    let mut pad: usize = m;
    while pad < 64
        invariant
            m <= pad <= 64 || (m > 64 && pad == m),
            out@ =~= seq!['0', 'x'] + Seq::new((pad - m) as nat, |i: int| '0'),
        decreases 64 - pad,
    {
        string_push(&mut out, '0');
        assert(out@ =~= seq!['0', 'x'] + Seq::new((pad + 1 - m) as nat, |i: int| '0'));
        pad = pad + 1;
    }

    let ghost zeros: Seq<char> = Seq::new(
        (if m >= 64 {
            0
        } else {
            (64 - m) as int
        }) as nat,
        |i: int| '0',
    );
    assert(out@ =~= seq!['0', 'x'] + zeros);

    let mut i: usize = 0;
    while i < m
        invariant
            m == stripped@.len(),
            i <= m,
            digits == stripped@.map_values(|c: char| spec_lower_hex_char(c)),
            zeros == Seq::new(
                (if m >= 64 {
                    0
                } else {
                    (64 - m) as int
                }) as nat,
                |k: int| '0',
            ),
            out@ =~= seq!['0', 'x'] + zeros + digits.take(i as int),
        decreases m - i,
    {
        let c = stripped.get_char(i);
        let lc = lower_hex_char(c);
        string_push(&mut out, lc);
        assert(out@ =~= seq!['0', 'x'] + zeros + digits.take(i + 1));
        i = i + 1;
    }

    assert(digits.take(m as int) =~= digits);
    assert(zeros + digits =~= spec_pad_address_digits(digits));
    assert(out@ =~= spec_standardize_address(addr@));
    out
}

} // verus!
