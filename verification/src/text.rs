//! Character-level text operations used by the marquee animation and the
//! panel labels: left rotation of a string, trimming, and rendering of
//! decimal numbers.

use vstd::prelude::*;

verus! {

/// One left rotation: the first character moves to the end.
/// Strings of fewer than two characters are left as they are.
pub open spec fn rotate_once(s: Seq<char>) -> Seq<char> {
    if s.len() <= 1 {
        s
    } else {
        s.subrange(1, s.len() as int) + seq![s[0]]
    }
}

/// `n` left rotations.
pub open spec fn rotated(s: Seq<char>, n: nat) -> Seq<char>
    decreases n,
{
    if n == 0 {
        s
    } else {
        rotate_once(rotated(s, (n - 1) as nat))
    }
}

pub broadcast proof fn lemma_rotated_len(s: Seq<char>, n: nat)
    ensures
        #[trigger] rotated(s, n).len() == s.len(),
    decreases n,
{
    if n > 0 {
        lemma_rotated_len(s, (n - 1) as nat);
    }
}

/// After `n <= len` rotations the string is its tail of length `len - n`
/// followed by its first `n` characters.
proof fn lemma_rotated_shape(s: Seq<char>, n: nat)
    requires
        n <= s.len(),
    ensures
        rotated(s, n) =~= s.subrange(n as int, s.len() as int) + s.subrange(0, n as int),
    decreases n,
{
    if n == 0 {
        assert(rotated(s, 0) =~= s.subrange(0, s.len() as int) + s.subrange(0, 0));
    } else {
        lemma_rotated_shape(s, (n - 1) as nat);
        lemma_rotated_len(s, (n - 1) as nat);
    }
}

/// A full cycle: rotating a string as many times as it has characters
/// yields the original string.
pub proof fn lemma_rotated_full_cycle(s: Seq<char>)
    ensures
        rotated(s, s.len()) =~= s,
{
    lemma_rotated_shape(s, s.len());
}

/// Builds the left rotation of a string.
pub fn rotate_string_once(s: &str) -> (r: String)
    requires
        s@.len() >= 2,
    ensures
        r@ == rotate_once(s@),
{
    let n = s.unicode_len();
    let tail = s.substring_char(1, n);
    let head = s.substring_char(0, 1);
    let mut r = tail.to_owned();
    r.append(head);
    proof {
        assert(s@.subrange(0, 1) =~= seq![s@[0]]);
    }
    r
}

/// What `str::trim` returns for the given characters. The exact set of
/// characters that count as whitespace is the standard library's.
pub uninterp spec fn trim_of(s: Seq<char>) -> Seq<char>;

/// Relies on str::trim: the input with leading and trailing whitespace
/// removed, a function of the characters alone.
#[verifier::external_body]
pub fn trimmed(s: &str) -> (r: String)
    ensures
        r@ == trim_of(s@),
        r@.len() <= s@.len(),
{
    s.trim().to_owned()
}

/// The decimal digits of `n`, most significant first.
pub open spec fn dec_digits(n: nat) -> Seq<char>
    decreases n,
{
    if n < 10 {
        seq![digit_char(n)]
    } else {
        dec_digits(n / 10) + seq![digit_char(n % 10)]
    }
}

/// The character for one decimal digit.
pub open spec fn digit_char(d: nat) -> char {
    if d == 0 {
        '0'
    } else if d == 1 {
        '1'
    } else if d == 2 {
        '2'
    } else if d == 3 {
        '3'
    } else if d == 4 {
        '4'
    } else if d == 5 {
        '5'
    } else if d == 6 {
        '6'
    } else if d == 7 {
        '7'
    } else if d == 8 {
        '8'
    } else {
        '9'
    }
}

fn digit_str(d: u64) -> (r: &'static str)
    requires
        d < 10,
    ensures
        r@ =~= seq![digit_char(d as nat)],
{
    proof {
        reveal_strlit("0");
        reveal_strlit("1");
        reveal_strlit("2");
        reveal_strlit("3");
        reveal_strlit("4");
        reveal_strlit("5");
        reveal_strlit("6");
        reveal_strlit("7");
        reveal_strlit("8");
        reveal_strlit("9");
    }
    match d {
        0 => "0",
        1 => "1",
        2 => "2",
        3 => "3",
        4 => "4",
        5 => "5",
        6 => "6",
        7 => "7",
        8 => "8",
        _ => "9",
    }
}

/// Appends the decimal rendering of `n` to `out`.
pub fn push_decimal(n: u64, out: &mut String)
    ensures
        final(out)@ == old(out)@ + dec_digits(n as nat),
    decreases n,
{
    if n >= 10 {
        push_decimal(n / 10, out);
    }
    out.append(digit_str(n % 10));
    proof {
        if n < 10 {
            assert(dec_digits(n as nat) =~= seq![digit_char((n % 10) as nat)]);
        }
        assert(final(out)@ =~= old(out)@ + dec_digits(n as nat));
    }
}

/// The decimal rendering of `n` as a string.
pub fn decimal_string(n: u64) -> (r: String)
    ensures
        r@ == dec_digits(n as nat),
{
    let mut out = String::new();
    push_decimal(n, &mut out);
    proof {
        assert(out@ =~= dec_digits(n as nat));
    }
    out
}

} // verus!
