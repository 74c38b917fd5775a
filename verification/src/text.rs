//! Small pieces of text that the telemetry carries: decimal numbers and the
//! leading entry of a comma-separated list.

use vstd::prelude::*;
use vstd::string::*;

verus! {

/// The character that writes the digit `d`.
pub open spec fn digit(d: nat) -> char {
    if d == 0 {
        '0'
    } else if d == 1 {
        '1'
    } else if d == 2 {
        '2'
    } else if d == 3 {
        '3'
    } else if d == 4 {
        '4'
    } else if d == 5 {
        '5'
    } else if d == 6 {
        '6'
    } else if d == 7 {
        '7'
    } else if d == 8 {
        '8'
    } else {
        '9'
    }
}

/// `n` written in base ten, most significant digit first, without leading zeros.
pub open spec fn decimal(n: nat) -> Seq<char>
    decreases n,
{
    if n < 10 {
        seq![digit(n)]
    } else {
        decimal(n / 10).push(digit(n % 10))
    }
}

fn digit_str(d: u16) -> (s: &'static str)
    requires
        d < 10,
    ensures
        s@ == seq![digit(d as nat)],
{
    proof {
        reveal_strlit("0");
        reveal_strlit("1");
        reveal_strlit("2");
        reveal_strlit("3");
        reveal_strlit("4");
        reveal_strlit("5");
        reveal_strlit("6");
        reveal_strlit("7");
        reveal_strlit("8");
        reveal_strlit("9");
    }
    let s: &'static str = if d == 0 {
        "0"
    } else if d == 1 {
        "1"
    } else if d == 2 {
        "2"
    } else if d == 3 {
        "3"
    } else if d == 4 {
        "4"
    } else if d == 5 {
        "5"
    } else if d == 6 {
        "6"
    } else if d == 7 {
        "7"
    } else if d == 8 {
        "8"
    } else {
        "9"
    };
    assert(s@ =~= seq![digit(d as nat)]);
    s
}

/// Appends `n` in base ten to `out`.
pub fn append_decimal(out: &mut String, n: u16)
    ensures
        final(out)@ == old(out)@ + decimal(n as nat),
    decreases n,
{
    if n >= 10 {
        append_decimal(out, n / 10);
    }
    out.append(digit_str(n % 10));
    assert(out@ =~= old(out)@ + decimal(n as nat));
}

/// The characters of a text that may be absent.
pub open spec fn view_of(text: Option<&str>) -> Option<Seq<char>> {
    match text {
        Some(text) => Some(text@),
        None => None,
    }
}

/// The number of characters of `s` that stand before its first comma: all of
/// them where `s` holds no comma.
pub open spec fn token_end(s: Seq<char>) -> int
    decreases s.len(),
{
    if s.len() == 0 || s[0] == ',' {
        0
    } else {
        1 + token_end(s.drop_first())
    }
}

/// The first entry of the comma-separated list `s`. It may be empty, and it is
/// taken as it stands: blanks around it are kept.
pub open spec fn first_token(s: Seq<char>) -> Seq<char> {
    s.take(token_end(s))
}

/// `token_end(s)` is a position of `s` with no comma before it, and it is the
/// end of `s` or the place of a comma.
pub proof fn lemma_token_end(s: Seq<char>)
    ensures
        0 <= token_end(s) <= s.len(),
        forall|j: int| 0 <= j < token_end(s) ==> s[j] != ',',
        token_end(s) < s.len() ==> s[token_end(s)] == ',',
    decreases s.len(),
{
    if s.len() == 0 || s[0] == ',' {
    } else {
        let rest = s.drop_first();
        lemma_token_end(rest);
        assert forall|j: int| 0 <= j < token_end(s) implies s[j] != ',' by {
            if j > 0 {
                assert(s[j] == rest[j - 1]);
            }
        }
        if token_end(s) < s.len() {
            assert(s[token_end(s)] == rest[token_end(rest)]);
        }
    }
}

/// Only one position of `s` is what `lemma_token_end` says of `token_end(s)`.
pub proof fn lemma_token_end_is(s: Seq<char>, n: int)
    requires
        0 <= n <= s.len(),
        forall|j: int| 0 <= j < n ==> s[j] != ',',
        n < s.len() ==> s[n] == ',',
    ensures
        n == token_end(s),
{
    lemma_token_end(s);
    let m = token_end(s);
    if n < m {
        assert(s[n] != ',');
    } else if m < n {
        assert(s[m] != ',');
    }
}

/// The first entry of the comma-separated list `s`, found in one pass.
pub fn leading_token(s: &str) -> (token: &str)
    ensures
        token@ == first_token(s@),
{
    let total: usize = s.unicode_len();
    let mut end: usize = 0;
    let mut found: bool = false;
    for c in it: s.chars()
        invariant
            it.seq() == s@,
            total == s@.len(),
            end <= it.index(),
            !found ==> end == it.index(),
            found ==> end < s@.len() && s@[end as int] == ',',
            forall|j: int| 0 <= j < end ==> s@[j] != ',',
    {
        if !found {
            if c == ',' {
                found = true;
            } else {
                end += 1;
            }
        }
    }
    proof {
        lemma_token_end_is(s@, end as int);
    }
    s.substring_char(0, end)
}

} // verus!
