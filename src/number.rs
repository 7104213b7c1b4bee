use vstd::prelude::*;

verus! {

/// The value of the digit `c` in base `radix` (10 or 16), if it is one.
pub open spec fn digit_value(c: char, radix: nat) -> Option<nat> {
    if '0' <= c <= '9' {
        Some((c as nat - '0' as nat) as nat)
    } else if radix == 16 && 'a' <= c <= 'f' {
        Some((c as nat - 'a' as nat + 10) as nat)
    } else if radix == 16 && 'A' <= c <= 'F' {
        Some((c as nat - 'A' as nat + 10) as nat)
    } else {
        None
    }
}

/// Whether `s` is one or more digits of base `radix`.
pub open spec fn all_digits(s: Seq<char>, radix: nat) -> bool {
    s.len() > 0 && forall|i: int| 0 <= i < s.len() ==> #[trigger] digit_value(s[i], radix) is Some
}

/// The value of the digits `s` in base `radix`, most significant first.
pub open spec fn digits_value(s: Seq<char>, radix: nat) -> nat
    decreases s.len(),
{
    if s.len() == 0 {
        0
    } else {
        match digit_value(s.last(), radix) {
            Some(d) => digits_value(s.drop_last(), radix) * radix + d,
            None => 0,
        }
    }
}

/// Whether `s` starts with `0x` or `0X`.
pub open spec fn has_hex_prefix(s: Seq<char>) -> bool {
    s.len() >= 2 && s[0] == '0' && (s[1] == 'x' || s[1] == 'X')
}

/// The unsigned number that `s` spells: hexadecimal after a `0x` or `0X`
/// prefix, decimal otherwise; the digits may follow a single `+`.
pub open spec fn unsigned_number(s: Seq<char>) -> Option<nat> {
    let radix: nat = if has_hex_prefix(s) {
        16
    } else {
        10
    };
    let body = if has_hex_prefix(s) {
        s.skip(2)
    } else {
        s
    };
    let digits = if body.len() > 0 && body[0] == '+' {
        body.skip(1)
    } else {
        body
    };
    if all_digits(digits, radix) {
        Some(digits_value(digits, radix))
    } else {
        None
    }
}

/// The `usize` that `s` spells, if it spells one that fits.
pub open spec fn usize_number(s: Seq<char>) -> Option<usize> {
    match unsigned_number(s) {
        Some(n) => if n <= usize::MAX {
            Some(n as usize)
        } else {
            None
        },
        None => None,
    }
}

/// Relies on `clap_num::maybe_hex::<usize>`: a `0x` or `0X` prefix selects
/// base 16, otherwise base 10, and the rest is read by `usize::from_str_radix`,
/// which takes an optional `+` and then one or more digits, and fails where
/// the value does not fit.
#[verifier::external_body]
pub(crate) fn maybe_hex_usize(s: &str) -> (r: Result<usize, String>)
    ensures
        r is Ok <==> usize_number(s@) is Some,
        r is Ok ==> r->Ok_0 == usize_number(s@)->0,
{
    clap_num::maybe_hex::<usize>(s)
}

} // verus!
