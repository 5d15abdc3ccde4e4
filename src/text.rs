use vstd::prelude::*;

verus! {

/// `query` occurs in `line` as a contiguous run of characters.
pub open spec fn occurs_in(query: Seq<char>, line: Seq<char>) -> bool {
    exists|i: int|
        0 <= i && i + query.len() <= line.len() && #[trigger] line.subrange(i, i + query.len())
            == query
}

/// Relies on `str::contains` with a `&str` pattern: true exactly when the
/// pattern matches some sub-slice of the string.
#[verifier::external_body]
pub(crate) fn str_contains(line: &str, query: &str) -> (r: bool)
    ensures
        r == occurs_in(query@, line@),
{
    line.contains(query)
}

/// Relies on `String::push`: appends one character at the end.
#[verifier::external_body]
pub(crate) fn push_char(s: &mut String, c: char)
    ensures
        final(s)@ == old(s)@.push(c),
{
    s.push(c)
}

/// The character that writes the decimal digit `d`.
pub open spec fn digit_char(d: nat) -> char {
    ((48 + d) as u8) as char
}

/// The decimal numeral of `n`, most significant digit first, without
/// leading zeros.
pub open spec fn decimal(n: nat) -> Seq<char>
    decreases n,
{
    if n < 10 {
        seq![digit_char(n)]
    } else {
        decimal(n / 10).push(digit_char(n % 10))
    }
}

fn to_digit_char(d: usize) -> (c: char)
    requires
        d < 10,
    ensures
        c == digit_char(d as nat),
{
    (48u8 + d as u8) as char
}

/// Appends the decimal numeral of `n` to `s`.
pub fn push_decimal(s: &mut String, n: usize)
    ensures
        final(s)@ == old(s)@ + decimal(n as nat),
    decreases n,
{
    if n >= 10 {
        push_decimal(s, n / 10);
    }
    let c = to_digit_char(n % 10);
    push_char(s, c);
    proof {
        if n >= 10 {
            assert(decimal(n as nat) == decimal((n / 10) as nat).push(digit_char((n % 10) as nat)));
        }
    }
    assert(s@ =~= old(s)@ + decimal(n as nat));
}

} // verus!
