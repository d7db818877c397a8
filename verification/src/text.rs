//! Small text utilities: decimal rendering, trailing-slash trimming and
//! byte-prefix cutting, each with an exact specification.

use vstd::prelude::*;
use vstd::string::StringSliceAdditionalSpecFns;

verus! {

broadcast use vstd::utf8::encode_utf8_decode_utf8;

/// The ASCII digit for `d`, which is below ten.
pub open spec fn digit_char(d: nat) -> char {
    if d == 0 {
        '0'
    } else if d == 1 {
        '1'
    } else if d == 2 {
        '2'
    } else if d == 3 {
        '3'
    } else if d == 4 {
        '4'
    } else if d == 5 {
        '5'
    } else if d == 6 {
        '6'
    } else if d == 7 {
        '7'
    } else if d == 8 {
        '8'
    } else {
        '9'
    }
}

/// The decimal digits of `n`, most significant first, without leading zeros.
pub open spec fn digits(n: nat) -> Seq<char>
    decreases n,
{
    if n < 10 {
        seq![digit_char(n)]
    } else {
        digits(n / 10).push(digit_char(n % 10))
    }
}

/// The decimal rendering of an integer, with a leading `-` when it is negative.
pub open spec fn decimal(n: int) -> Seq<char> {
    if n < 0 {
        seq!['-'] + digits((-n) as nat)
    } else {
        digits(n as nat)
    }
}

fn digit_text(d: u64) -> (s: &'static str)
    requires
        d < 10,
    ensures
        s@ == seq![digit_char(d as nat)],
{
    if d == 0 {
        proof { reveal_strlit("0"); }
        "0"
    } else if d == 1 {
        proof { reveal_strlit("1"); }
        "1"
    } else if d == 2 {
        proof { reveal_strlit("2"); }
        "2"
    } else if d == 3 {
        proof { reveal_strlit("3"); }
        "3"
    } else if d == 4 {
        proof { reveal_strlit("4"); }
        "4"
    } else if d == 5 {
        proof { reveal_strlit("5"); }
        "5"
    } else if d == 6 {
        proof { reveal_strlit("6"); }
        "6"
    } else if d == 7 {
        proof { reveal_strlit("7"); }
        "7"
    } else if d == 8 {
        proof { reveal_strlit("8"); }
        "8"
    } else {
        proof { reveal_strlit("9"); }
        "9"
    }
}

fn append_digits(out: &mut String, n: u64)
    ensures
        final(out)@ == old(out)@ + digits(n as nat),
    decreases n,
{
    if n >= 10 {
        append_digits(out, n / 10);
    }
    out.append(digit_text(n % 10));
    proof {
        if n >= 10 {
            assert(old(out)@ + digits((n / 10) as nat) + seq![digit_char((n % 10) as nat)] =~= old(
                out,
            )@ + digits(n as nat));
        } else {
            assert(digits(n as nat) == seq![digit_char(n as nat)]);
        }
    }
}

/// Appends the decimal rendering of `n` to `out`.
pub fn append_decimal(out: &mut String, n: i64)
    ensures
        final(out)@ == old(out)@ + decimal(n as int),
{
    if n < 0 {
        out.append("-");
        proof { reveal_strlit("-"); }
        let magnitude: u64 = ((-(n + 1)) as u64) + 1;
        append_digits(out, magnitude);
        assert(old(out)@ + decimal(n as int) =~= old(out)@ + seq!['-'] + digits(magnitude as nat));
    } else {
        append_digits(out, n as u64);
    }
}

/// The decimal rendering of `n`, as `i64`'s `Display` writes it.
pub fn decimal_text(n: i64) -> (s: String)
    ensures
        s@ == decimal(n as int),
{
    let mut s = String::new();
    append_decimal(&mut s, n);
    assert(Seq::<char>::empty() + decimal(n as int) =~= decimal(n as int));
    s
}

/// `s` without the `/` characters at its end.
pub open spec fn trim_trailing_slashes(s: Seq<char>) -> Seq<char>
    decreases s.len(),
{
    if s.len() > 0 && s.last() == '/' {
        trim_trailing_slashes(s.drop_last())
    } else {
        s
    }
}

/// `s` without the `/` characters at its end, as `str::trim_end_matches('/')` gives it.
pub fn trim_trailing_slashes_text(s: &str) -> (res: String)
    ensures
        res@ == trim_trailing_slashes(s@),
{
    let n = s.unicode_len();
    let mut k: usize = n;
    assert(s@.take(n as int) =~= s@);
    while k > 0 && s.get_char(k - 1) == '/'
        invariant
            k <= n,
            n == s@.len(),
            trim_trailing_slashes(s@.take(k as int)) == trim_trailing_slashes(s@),
        decreases k,
    {
        assert(s@.take(k as int).drop_last() =~= s@.take(k - 1));
        k = k - 1;
    }
    let head = s.substring_char(0, k);
    assert(head@ =~= s@.take(k as int));
    head.to_owned()
}

/// The number of bytes in the UTF-8 encoding of `s`.
pub open spec fn utf8_len(s: Seq<char>) -> nat {
    vstd::utf8::encode_utf8(s).len()
}

/// Whether cutting `s` after its first `n` bytes falls between two characters,
/// or `s` is shorter than `n` bytes.
pub open spec fn cuttable(s: Seq<char>, n: nat) -> bool {
    utf8_len(s) >= n ==> vstd::utf8::is_char_boundary(vstd::utf8::encode_utf8(s), n as int)
}

/// The text made of the first `n` bytes of `s`, as `&s[..n]` gives it.
pub open spec fn byte_prefix(s: Seq<char>, n: nat) -> Seq<char> {
    vstd::utf8::decode_utf8(vstd::utf8::encode_utf8(s).subrange(0, n as int))
}

/// The first `n` bytes of `s` when it has that many, and `None` when it is shorter.
pub fn byte_prefix_text(s: &str, n: usize) -> (res: Option<String>)
    requires
        cuttable(s@, n as nat),
    ensures
        res is Some <==> utf8_len(s@) >= n,
        res matches Some(p) ==> p@ == byte_prefix(s@, n as nat),
{
    let byte_count = s.as_bytes().len();
    if byte_count >= n {
        let (head, _tail) = s.split_at(n);
        assert(head@ == vstd::utf8::decode_utf8(head.spec_bytes()));
        Some(head.to_owned())
    } else {
        None
    }
}

} // verus!
