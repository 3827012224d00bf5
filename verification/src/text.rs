//! Text helpers: decimal numerals, the characters of a string, and the
//! removal of every occurrence of a pattern.

use vstd::prelude::*;
use vstd::string::StringExecFns;

verus! {

/// The character for one decimal digit.
pub open spec fn digit_char(digit: nat) -> char {
    if digit == 0 {
        '0'
    } else if digit == 1 {
        '1'
    } else if digit == 2 {
        '2'
    } else if digit == 3 {
        '3'
    } else if digit == 4 {
        '4'
    } else if digit == 5 {
        '5'
    } else if digit == 6 {
        '6'
    } else if digit == 7 {
        '7'
    } else if digit == 8 {
        '8'
    } else {
        '9'
    }
}

/// The decimal numeral of a natural number, without leading zeros.
pub open spec fn digits(n: nat) -> Seq<char>
    decreases n,
{
    if n < 10 {
        seq![digit_char(n)]
    } else {
        digits(n / 10).push(digit_char(n % 10))
    }
}

/// The decimal numeral of an integer, with a minus sign where it is negative.
pub open spec fn decimal(n: int) -> Seq<char> {
    if n < 0 {
        seq!['-'] + digits((-n) as nat)
    } else {
        digits(n as nat)
    }
}

/// The text of one decimal digit.
fn digit_text(digit: u64) -> (text: &'static str)
    requires
        digit < 10,
    ensures
        text@ == seq![digit_char(digit as nat)],
{
    proof {
        reveal_strlit("0");
        reveal_strlit("1");
        reveal_strlit("2");
        reveal_strlit("3");
        reveal_strlit("4");
        reveal_strlit("5");
        reveal_strlit("6");
        reveal_strlit("7");
        reveal_strlit("8");
        reveal_strlit("9");
    }
    let text = if digit == 0 {
        "0"
    } else if digit == 1 {
        "1"
    } else if digit == 2 {
        "2"
    } else if digit == 3 {
        "3"
    } else if digit == 4 {
        "4"
    } else if digit == 5 {
        "5"
    } else if digit == 6 {
        "6"
    } else if digit == 7 {
        "7"
    } else if digit == 8 {
        "8"
    } else {
        "9"
    };
    assert(text@ =~= seq![digit_char(digit as nat)]);
    text
}

/// Appends the decimal numeral of `n` to `out`.
pub fn push_digits(out: &mut String, n: u64)
    ensures
        final(out)@ == old(out)@ + digits(n as nat),
    decreases n,
{
    if n >= 10 {
        push_digits(out, n / 10);
    }
    out.append(digit_text(n % 10));
}

/// The decimal numeral of `n`.
pub fn decimal_u64(n: u64) -> (text: String)
    ensures
        text@ == decimal(n as int),
{
    let mut text = String::new();
    push_digits(&mut text, n);
    text
}

/// The decimal numeral of `n`, with a minus sign where it is negative.
pub fn decimal_i64(n: i64) -> (text: String)
    ensures
        text@ == decimal(n as int),
{
    let mut text = String::new();
    if n < 0 {
        proof {
            reveal_strlit("-");
        }
        text.append("-");
        assert(text@ =~= seq!['-']);
        let magnitude: u64 = (-(n + 1)) as u64 + 1;
        push_digits(&mut text, magnitude);
    } else {
        push_digits(&mut text, n as u64);
    }
    text
}

/// The characters of `text`, in order.
pub fn chars_of(text: &str) -> (chars: Vec<char>)
    ensures
        chars@ == text@,
{
    let mut chars: Vec<char> = Vec::new();
    for c in it: text.chars()
        invariant
            it.seq() == text@,
            chars@ == it.seq().take(it.index() as int),
    {
        chars.push(c);
        assert(chars@ =~= it.seq().take(it.index() + 1));
    }
    assert(text@.take(text@.len() as int) =~= text@);
    chars
}

/// `text` without the occurrences of `pattern`: they are found from the
/// left, and the search goes on behind each one that was taken out. With an
/// empty pattern nothing is taken out.
pub open spec fn without(text: Seq<char>, pattern: Seq<char>) -> Seq<char>
    decreases text.len(),
{
    if pattern.len() == 0 || text.len() < pattern.len() {
        text
    } else if text.subrange(0, pattern.len() as int) == pattern {
        without(text.subrange(pattern.len() as int, text.len() as int), pattern)
    } else {
        seq![text[0]] + without(text.subrange(1, text.len() as int), pattern)
    }
}

/// Appends one character through `String::push`.
#[verifier::external_body]
pub(crate) fn push_char(out: &mut String, c: char)
    ensures
        final(out)@ == old(out)@.push(c),
{
    out.push(c)
}

/// Whether `pattern` stands in `text` at position `at`.
fn occurs_at(text: &Vec<char>, at: usize, pattern: &Vec<char>) -> (found: bool)
    requires
        at + pattern.len() <= text.len(),
    ensures
        found == (text@.subrange(at as int, at + pattern.len()) == pattern@),
{
    let mut k: usize = 0;
    while k < pattern.len()
        invariant
            k <= pattern.len(),
            at + pattern.len() <= text.len(),
            forall|j: int| 0 <= j < k ==> text@[at + j] == pattern@[j],
        decreases pattern.len() - k,
    {
        if text[at + k] != pattern[k] {
            assert(text@.subrange(at as int, at + pattern.len())[k as int] != pattern@[k as int]);
            return false;
        }
        k += 1;
    }
    assert(text@.subrange(at as int, at + pattern.len()) =~= pattern@);
    true
}

/// `text` with every occurrence of `pattern` taken out, as
/// `text.replace(pattern, "")` gives it.
pub fn remove_all(text: &str, pattern: &str) -> (out: String)
    ensures
        out@ == without(text@, pattern@),
{
    let chars = chars_of(text);
    let wanted = chars_of(pattern);
    if wanted.len() == 0 {
        return text.to_owned();
    }
    let mut out = String::new();
    let mut at: usize = 0;
    proof {
        assert(chars@.subrange(0, chars.len() as int) =~= chars@);
        assert(out@ + without(chars@, wanted@) =~= without(chars@, wanted@));
    }
    while at < chars.len()
        invariant
            at <= chars.len(),
            wanted.len() > 0,
            chars@ == text@,
            wanted@ == pattern@,
            out@ + without(chars@.subrange(at as int, chars.len() as int), wanted@) == without(
                chars@,
                wanted@,
            ),
        decreases chars.len() - at,
    {
        let ghost rest = chars@.subrange(at as int, chars.len() as int);
        if chars.len() - at >= wanted.len() && occurs_at(&chars, at, &wanted) {
            proof {
                assert(rest.subrange(0, wanted.len() as int) =~= chars@.subrange(
                    at as int,
                    at + wanted.len(),
                ));
                assert(rest.subrange(wanted.len() as int, rest.len() as int) =~= chars@.subrange(
                    at + wanted.len(),
                    chars.len() as int,
                ));
            }
            at += wanted.len();
        } else {
            let ghost before = out@;
            proof {
                let tail = chars@.subrange(at + 1, chars.len() as int);
                assert(rest.subrange(1, rest.len() as int) =~= tail);
                if rest.len() < wanted.len() {
                    lemma_without_short(rest, wanted@);
                    lemma_without_short(tail, wanted@);
                    assert(rest =~= seq![rest[0]] + tail);
                } else {
                    assert(rest.subrange(0, wanted.len() as int) =~= chars@.subrange(
                        at as int,
                        at + wanted.len(),
                    ));
                }
                assert(without(rest, wanted@) == seq![rest[0]] + without(tail, wanted@));
                assert(before.push(chars@[at as int]) + without(tail, wanted@) =~= before
                    + without(rest, wanted@));
            }
            push_char(&mut out, chars[at]);
            at += 1;
        }
    }
    proof {
        assert(chars@.subrange(at as int, chars.len() as int) =~= Seq::<char>::empty());
        assert(out@ + Seq::<char>::empty() =~= out@);
    }
    out
}

/// A text shorter than the pattern holds no occurrence of it.
proof fn lemma_without_short(text: Seq<char>, pattern: Seq<char>)
    requires
        text.len() < pattern.len(),
    ensures
        without(text, pattern) == text,
{
}

} // verus!
