use vstd::prelude::*;
use vstd::string::StringExecFns;

verus! {

/// The character of a decimal digit.
pub open spec fn digit_char(digit: nat) -> char {
    (48 + digit) as char
}

/// The decimal representation of `n`, without sign or leading zeros.
pub open spec fn decimal(n: nat) -> Seq<char>
    decreases n,
{
    if n < 10 {
        seq![digit_char(n)]
    } else {
        decimal(n / 10).push(digit_char(n % 10))
    }
}

/// The decimal representation of `n`, left-padded with zeros to `width` characters.
pub open spec fn zero_padded(n: nat, width: nat) -> Seq<char> {
    if decimal(n).len() >= width {
        decimal(n)
    } else {
        Seq::new((width - decimal(n).len()) as nat, |i: int| '0') + decimal(n)
    }
}

fn digit_str(digit: u64) -> (text: &'static str)
    requires
        digit < 10,
    ensures
        text@ == seq![digit_char(digit as nat)],
{
    proof {
        reveal_strlit("0");
        reveal_strlit("1");
        reveal_strlit("2");
        reveal_strlit("3");
        reveal_strlit("4");
        reveal_strlit("5");
        reveal_strlit("6");
        reveal_strlit("7");
        reveal_strlit("8");
        reveal_strlit("9");
    }
    if digit == 0 {
        "0"
    } else if digit == 1 {
        "1"
    } else if digit == 2 {
        "2"
    } else if digit == 3 {
        "3"
    } else if digit == 4 {
        "4"
    } else if digit == 5 {
        "5"
    } else if digit == 6 {
        "6"
    } else if digit == 7 {
        "7"
    } else if digit == 8 {
        "8"
    } else {
        "9"
    }
}

/// Appends the decimal representation of `n`.
pub fn push_decimal(text: &mut String, n: u64)
    ensures
        final(text)@ == old(text)@ + decimal(n as nat),
    decreases n,
{
    if n >= 10 {
        push_decimal(text, n / 10);
    }
    text.append(digit_str(n % 10));
    proof {
        if n < 10 {
            assert(decimal(n as nat) == seq![digit_char(n as nat)]);
        } else {
            assert(decimal(n as nat) == decimal((n / 10) as nat).push(digit_char((n % 10) as nat)));
        }
        assert(final(text)@ =~= old(text)@ + decimal(n as nat));
    }
}

/// Appends the decimal representation of a 128-bit `n`.
pub fn push_wide_decimal(text: &mut String, n: u128)
    ensures
        final(text)@ == old(text)@ + decimal(n as nat),
    decreases n,
{
    if n >= 10 {
        push_wide_decimal(text, n / 10);
    }
    text.append(digit_str((n % 10) as u64));
    proof {
        if n < 10 {
            assert(decimal(n as nat) == seq![digit_char(n as nat)]);
        } else {
            assert(decimal(n as nat) == decimal((n / 10) as nat).push(digit_char((n % 10) as nat)));
        }
        assert(final(text)@ =~= old(text)@ + decimal(n as nat));
    }
}

/// The decimal representation of `n`.
pub fn decimal_text(n: u64) -> (text: String)
    ensures
        text@ == decimal(n as nat),
{
    let mut text = String::new();
    push_decimal(&mut text, n);
    proof {
        assert(text@ =~= decimal(n as nat));
    }
    text
}

fn decimal_len(n: u64) -> (len: usize)
    ensures
        len == decimal(n as nat).len(),
        1 <= len <= 20,
    decreases n,
{
    if n >= 10 {
        let rest: usize = decimal_len(n / 10);
        proof {
            lemma_decimal_len_bound(n as nat);
        }
        rest + 1
    } else {
        1
    }
}

proof fn lemma_decimal_len_bound(n: nat)
    requires
        n <= u64::MAX,
    ensures
        1 <= decimal(n).len() <= 20,
{
    assert(pow10(20) == 100_000_000_000_000_000_000) by {
        reveal_with_fuel(pow10, 21);
    }
    lemma_decimal_len_below(n, 20);
}

/// A number below `10^bound` has at most `bound` digits.
proof fn lemma_decimal_len_below(n: nat, bound: nat)
    requires
        n < pow10(bound),
        bound >= 1,
    ensures
        1 <= decimal(n).len() <= bound,
    decreases n,
{
    if n >= 10 {
        if bound == 1 {
            assert(pow10(0) == 1);
            assert(pow10(1) == 10);
        } else {
            assert(pow10(bound) == 10 * pow10((bound - 1) as nat));
            assert(n / 10 < pow10((bound - 1) as nat)) by (nonlinear_arith)
                requires
                    n < 10 * pow10((bound - 1) as nat),
            ;
            lemma_decimal_len_below(n / 10, (bound - 1) as nat);
        }
    }
}

spec fn pow10(exponent: nat) -> nat
    decreases exponent,
{
    if exponent == 0 {
        1
    } else {
        10 * pow10((exponent - 1) as nat)
    }
}

/// Appends the decimal representation of `n`, left-padded with zeros to `width` characters.
pub fn push_zero_padded(text: &mut String, n: u64, width: usize)
    ensures
        final(text)@ == old(text)@ + zero_padded(n as nat, width as nat),
{
    let len: usize = decimal_len(n);
    let ghost start = text@;
    if len < width {
        let mut pad: usize = 0;
        while pad < width - len
            invariant
                pad <= width - len,
                len < width,
                text@ == start + Seq::new(pad as nat, |i: int| '0'),
            decreases width - len - pad,
        {
            proof {
                reveal_strlit("0");
            }
            let ghost before = text@;
            text.append("0");
            proof {
                assert(text@ =~= start + Seq::new((pad + 1) as nat, |i: int| '0'));
            }
            pad = pad + 1;
        }
    }
    let ghost padded = text@;
    push_decimal(text, n);
    proof {
        assert(final(text)@ =~= old(text)@ + zero_padded(n as nat, width as nat));
    }
}

} // verus!
verus! {

/// `String::push` appends one character, as its documentation says.
pub assume_specification[ String::push ](string: &mut String, ch: char)
    ensures
        final(string)@ == old(string)@.push(ch),
;

/// An ASCII letter or digit.
pub open spec fn ascii_alphanumeric(c: char) -> bool {
    ('0' <= c && c <= '9') || ('a' <= c && c <= 'z') || ('A' <= c && c <= 'Z')
}

/// The character itself when it is an ASCII letter or digit, `_` otherwise.
pub open spec fn safe_char(c: char) -> char {
    if ascii_alphanumeric(c) {
        c
    } else {
        '_'
    }
}

/// The characters of a text, one for one.
pub fn text_chars(text: &str) -> (chars: Vec<char>)
    ensures
        chars@ == text@,
{
    let mut chars: Vec<char> = Vec::new();
    broadcast use vstd::string::axiom_spec_iter;
    for c in iter: text.chars()
        invariant
            iter.seq() == text@,
            chars@ == iter.seq().take(iter.index() as int),
    {
        chars.push(c);
        proof {
            assert(chars@ =~= iter.seq().take(iter.index() as int + 1));
        }
    }
    proof {
        assert(text@.take(text@.len() as int) =~= text@);
    }
    chars
}

/// The text with every character that is not an ASCII letter or digit
/// replaced by `_`, one for one.
pub fn safe_identifier(text: &str) -> (out: String)
    ensures
        out@ == text@.map_values(|c: char| safe_char(c)),
{
    let mut out = String::new();
    broadcast use vstd::string::axiom_spec_iter;
    for c in iter: text.chars()
        invariant
            iter.seq() == text@,
            out@ == iter.seq().take(iter.index() as int).map_values(|c: char| safe_char(c)),
    {
        let ghost before = out@;
        let mapped: char = if ('0' <= c && c <= '9') || ('a' <= c && c <= 'z') || ('A' <= c && c <= 'Z') {
            c
        } else {
            '_'
        };
        out.push(mapped);
        proof {
            assert(out@ =~= iter.seq().take(iter.index() as int + 1).map_values(|c: char| safe_char(c)));
        }
    }
    proof {
        assert(text@.take(text@.len() as int) =~= text@);
    }
    out
}

} // verus!
