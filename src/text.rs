//! Decimal numerals, quoted identifiers and decimal parsing.

use vstd::prelude::*;
use vstd::string::StrSliceExecFns;
use vstd::string::StringExecFns;

verus! {

/// The character of a decimal digit.
pub open spec fn digit_char(d: nat) -> char {
    if d == 0 {
        '0'
    } else if d == 1 {
        '1'
    } else if d == 2 {
        '2'
    } else if d == 3 {
        '3'
    } else if d == 4 {
        '4'
    } else if d == 5 {
        '5'
    } else if d == 6 {
        '6'
    } else if d == 7 {
        '7'
    } else if d == 8 {
        '8'
    } else {
        '9'
    }
}

/// The decimal numeral of `n`, without leading zeros.
pub open spec fn decimal(n: nat) -> Seq<char>
    decreases n,
{
    if n < 10 {
        seq![digit_char(n)]
    } else {
        decimal(n / 10).push(digit_char(n % 10))
    }
}

/// The decimal numeral of a signed integer, with a leading `-` when negative.
pub open spec fn signed_decimal(d: int) -> Seq<char> {
    if d < 0 {
        seq!['-'] + decimal((-d) as nat)
    } else {
        decimal(d as nat)
    }
}

/// A name written between double quotes, verbatim.
pub open spec fn quoted(name: Seq<char>) -> Seq<char> {
    seq!['"'] + name + seq!['"']
}

/// A name that can be quoted verbatim: it holds no double quote.
pub open spec fn quotable(name: Seq<char>) -> bool {
    forall|i: int| 0 <= i < name.len() ==> name[i] != '"'
}

/// The value of a sequence of decimal digits, most significant first.
pub open spec fn digits_value(s: Seq<char>) -> nat
    decreases s.len(),
{
    if s.len() == 0 {
        0
    } else {
        digits_value(s.drop_last()) * 10 + digit_value(s.last())
    }
}

pub open spec fn is_digit(c: char) -> bool {
    '0' <= c && c <= '9'
}

pub open spec fn digit_value(c: char) -> nat {
    (c as nat - '0' as nat) as nat
}

/// What a decimal field reads as: a non-empty run of digits whose value fits
/// in `usize`.
pub open spec fn parsed_decimal(s: Seq<char>) -> Option<usize> {
    if s.len() > 0 && (forall|i: int| 0 <= i < s.len() ==> is_digit(#[trigger] s[i]))
        && digits_value(s) <= usize::MAX {
        Some(digits_value(s) as usize)
    } else {
        None
    }
}

fn digit_text(d: u64) -> (r: &'static str)
    requires
        d < 10,
    ensures
        r@ == seq![digit_char(d as nat)],
{
    proof {
        reveal_strlit("0");
        reveal_strlit("1");
        reveal_strlit("2");
        reveal_strlit("3");
        reveal_strlit("4");
        reveal_strlit("5");
        reveal_strlit("6");
        reveal_strlit("7");
        reveal_strlit("8");
        reveal_strlit("9");
    }
    match d {
        0 => "0",
        1 => "1",
        2 => "2",
        3 => "3",
        4 => "4",
        5 => "5",
        6 => "6",
        7 => "7",
        8 => "8",
        _ => "9",
    }
}

/// Appends the decimal numeral of `n` to `out`.
pub fn push_decimal(out: &mut String, n: u64)
    ensures
        final(out)@ == old(out)@ + decimal(n as nat),
    decreases n,
{
    if n < 10 {
        out.append(digit_text(n));
    } else {
        push_decimal(out, n / 10);
        out.append(digit_text(n % 10));
        proof {
            assert(decimal(n as nat) == decimal((n / 10) as nat).push(digit_char((n % 10) as nat)));
        }
    }
    assert(final(out)@ =~= old(out)@ + decimal(n as nat));
}

/// The decimal numeral of `n`.
pub fn decimal_text(n: u64) -> (r: String)
    ensures
        r@ == decimal(n as nat),
{
    let mut out = String::new();
    push_decimal(&mut out, n);
    assert(out@ =~= decimal(n as nat));
    out
}

/// Appends the signed decimal numeral of `d` to `out`.
pub fn push_signed_decimal(out: &mut String, d: i128)
    requires
        -(u64::MAX as int) <= d <= u64::MAX,
    ensures
        final(out)@ == old(out)@ + signed_decimal(d as int),
{
    if d < 0 {
        proof {
            reveal_strlit("-");
        }
        out.append("-");
        push_decimal(out, (-d) as u64);
        assert(final(out)@ =~= old(out)@ + signed_decimal(d as int));
    } else {
        push_decimal(out, d as u64);
    }
}

/// Appends `name` between double quotes.
pub fn push_quoted(out: &mut String, name: &str)
    ensures
        final(out)@ == old(out)@ + quoted(name@),
{
    proof {
        reveal_strlit("\"");
    }
    out.append("\"");
    out.append(name);
    out.append("\"");
    assert(final(out)@ =~= old(out)@ + quoted(name@));
}

/// The identifier under which a node appears in a graph description: its
/// name between double quotes, with no other escaping.
pub fn node_name_to_dot_id(name: &str) -> (r: String)
    ensures
        r@ == quoted(name@),
{
    let mut out = String::new();
    push_quoted(&mut out, name);
    assert(out@ =~= quoted(name@));
    out
}

/// Whether `name` can be quoted verbatim, that is holds no double quote.
pub fn is_quotable(name: &str) -> (r: bool)
    ensures
        r == quotable(name@),
{
    let n = name.unicode_len();
    let mut i: usize = 0;
    while i < n
        invariant
            n == name@.len(),
            i <= n,
            forall|j: int| 0 <= j < i ==> name@[j] != '"',
        decreases n - i,
    {
        if name.get_char(i) == '"' {
            return false;
        }
        i = i + 1;
    }
    true
}

/// Reads a non-empty run of decimal digits as a `usize`; `None` for any
/// other text and for a value that does not fit.
pub fn parse_decimal(s: &str) -> (r: Option<usize>)
    ensures
        r == parsed_decimal(s@),
{
    let n = s.unicode_len();
    if n == 0 {
        return None;
    }
    let mut value: usize = 0;
    let mut i: usize = 0;
    while i < n
        invariant
            n == s@.len(),
            i <= n,
            forall|j: int| 0 <= j < i ==> is_digit(#[trigger] s@[j]),
            value as nat == digits_value(s@.subrange(0, i as int)),
        decreases n - i,
    {
        let c = s.get_char(i);
        proof {
            let p = s@.subrange(0, i as int + 1);
            assert(p.drop_last() =~= s@.subrange(0, i as int));
            assert(p.last() == c);
        }
        if !('0' <= c && c <= '9') {
            assert(!is_digit(s@[i as int]));
            return None;
        }
        let d = (c as u32 - '0' as u32) as usize;
        if value > (usize::MAX - d) / 10 {
            proof {
                let p = s@.subrange(0, i as int + 1);
                assert(p.drop_last() =~= s@.subrange(0, i as int));
                assert(digits_value(p) == value * 10 + d);
                assert(value * 10 + d > usize::MAX) by (nonlinear_arith)
                    requires
                        value > (usize::MAX - d) / 10,
                        d <= 9,
                ;
                lemma_digits_value_prefix_grows(s@, i as int + 1, n as int);
                assert(s@.subrange(0, n as int) =~= s@);
            }
            return None;
        }
        value = value * 10 + d;
        i = i + 1;
    }
    assert(s@.subrange(0, n as int) =~= s@);
    Some(value)
}

/// The value of a run of digits does not shrink as the run goes on.
proof fn lemma_digits_value_prefix_grows(s: Seq<char>, i: int, n: int)
    requires
        0 <= i <= n <= s.len(),
    ensures
        digits_value(s.subrange(0, i)) <= digits_value(s.subrange(0, n)),
    decreases n - i,
{
    if i < n {
        lemma_digits_value_prefix_grows(s, i, n - 1);
        assert(s.subrange(0, n).drop_last() =~= s.subrange(0, n - 1));
    }
}

} // verus!
