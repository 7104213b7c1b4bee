use vstd::prelude::*;

verus! {

/// The character of a decimal digit.
pub open spec fn digit_char(d: nat) -> char
    recommends
        d < 10,
{
    (('0' as nat) + d) as char
}

/// The decimal representation of `n`, without leading zeros.
pub open spec fn decimal(n: nat) -> Seq<char>
    decreases n,
{
    if n < 10 {
        seq![digit_char(n)]
    } else {
        decimal(n / 10).push(digit_char(n % 10))
    }
}

/// The decimal representation of `n`, padded with zeros to at least two digits.
pub open spec fn padded_index(n: nat) -> Seq<char> {
    if n < 10 {
        seq!['0', digit_char(n)]
    } else {
        decimal(n)
    }
}

/// The name of chunk number `index` of a file called `file_name`.
pub open spec fn chunk_name(file_name: Seq<char>, index: nat) -> Seq<char> {
    file_name.push('-') + padded_index(index)
}

fn digit_text(d: usize) -> (r: &'static str)
    requires
        d < 10,
    ensures
        r@ == seq![digit_char(d as nat)],
{
    proof {
        reveal_strlit("0");
        reveal_strlit("1");
        reveal_strlit("2");
        reveal_strlit("3");
        reveal_strlit("4");
        reveal_strlit("5");
        reveal_strlit("6");
        reveal_strlit("7");
        reveal_strlit("8");
        reveal_strlit("9");
    }
    let r = match d {
        0 => "0",
        1 => "1",
        2 => "2",
        3 => "3",
        4 => "4",
        5 => "5",
        6 => "6",
        7 => "7",
        8 => "8",
        _ => "9",
    };
    assert(r@ =~= seq![digit_char(d as nat)]);
    r
}

fn append_decimal(s: &mut String, n: usize)
    ensures
        final(s)@ == old(s)@ + decimal(n as nat),
    decreases n,
{
    if n >= 10 {
        append_decimal(s, n / 10);
    }
    s.append(digit_text(n % 10));
    assert(final(s)@ =~= old(s)@ + decimal(n as nat));
}

/// Returns the name of chunk number `index` of a file called `file_name`:
/// the file name, a dash, and the index in decimal, padded with zeros to at
/// least two digits (`data-00`, `data-07`, `data-123`).
pub fn chunk_file_name(file_name: &str, index: usize) -> (r: String)
    ensures
        r@ == chunk_name(file_name@, index as nat),
{
    let mut r = String::from_str(file_name);
    proof {
        reveal_strlit("-");
    }
    r.append("-");
    if index < 10 {
        r.append("0");
        proof {
            reveal_strlit("0");
        }
    }
    append_decimal(&mut r, index);
    proof {
        if index < 10 {
            assert(decimal(index as nat) =~= seq![digit_char(index as nat)]);
        }
        assert(r@ =~= chunk_name(file_name@, index as nat));
    }
    r
}

} // verus!
