//! Text helpers: decimal numbers and the part of a name behind its last dash.

use vstd::prelude::*;

verus! {

/// The characters of an optional string.
pub open spec fn opt_view(text: Option<String>) -> Option<Seq<char>> {
    match text {
        Some(s) => Some(s@),
        None => None,
    }
}

/// The strings of a list, each by its characters.
pub open spec fn strings_view(items: Seq<String>) -> Seq<Seq<char>> {
    Seq::new(items.len(), |i: int| items[i]@)
}

/// The character that stands for the decimal digit `d`.
pub open spec fn digit_char(d: nat) -> char {
    if d == 0 {
        '0'
    } else if d == 1 {
        '1'
    } else if d == 2 {
        '2'
    } else if d == 3 {
        '3'
    } else if d == 4 {
        '4'
    } else if d == 5 {
        '5'
    } else if d == 6 {
        '6'
    } else if d == 7 {
        '7'
    } else if d == 8 {
        '8'
    } else {
        '9'
    }
}

/// `n` written in base ten, without sign or leading zeros.
pub open spec fn decimal(n: nat) -> Seq<char>
    decreases n,
{
    if n < 10 {
        seq![digit_char(n)]
    } else {
        decimal(n / 10).push(digit_char(n % 10))
    }
}

/// A character is a decimal digit.
pub open spec fn is_digit(c: char) -> bool {
    '0' <= c <= '9'
}

/// Every character of `decimal(n)` is a digit.
pub proof fn lemma_decimal_digits(n: nat)
    ensures
        decimal(n).len() >= 1,
        forall|i: int| 0 <= i < decimal(n).len() ==> is_digit(#[trigger] decimal(n)[i]),
    decreases n,
{
    if n >= 10 {
        lemma_decimal_digits(n / 10);
    }
}

fn digit_str(d: u64) -> (s: &'static str)
    requires
        d < 10,
    ensures
        s@ == seq![digit_char(d as nat)],
{
    proof {
        reveal_strlit("0");
        reveal_strlit("1");
        reveal_strlit("2");
        reveal_strlit("3");
        reveal_strlit("4");
        reveal_strlit("5");
        reveal_strlit("6");
        reveal_strlit("7");
        reveal_strlit("8");
        reveal_strlit("9");
    }
    let s = if d == 0 {
        "0"
    } else if d == 1 {
        "1"
    } else if d == 2 {
        "2"
    } else if d == 3 {
        "3"
    } else if d == 4 {
        "4"
    } else if d == 5 {
        "5"
    } else if d == 6 {
        "6"
    } else if d == 7 {
        "7"
    } else if d == 8 {
        "8"
    } else {
        "9"
    };
    assert(s@ =~= seq![digit_char(d as nat)]);
    s
}

/// Appends `n` in base ten to `out`.
pub fn push_decimal(out: &mut String, n: u64)
    ensures
        final(out)@ == old(out)@ + decimal(n as nat),
    decreases n,
{
    if n >= 10 {
        push_decimal(out, n / 10);
    }
    out.append(digit_str(n % 10));
    proof {
        let d = seq![digit_char((n % 10) as nat)];
        if n >= 10 {
            assert(decimal(n as nat) == decimal((n / 10) as nat).push(digit_char((n % 10) as nat)));
            assert(old(out)@ + decimal((n / 10) as nat) + d =~= old(out)@ + decimal(n as nat));
        }
    }
}

/// `n` in base ten.
pub fn decimal_string(n: u64) -> (s: String)
    ensures
        s@ == decimal(n as nat),
{
    let mut s = String::new();
    push_decimal(&mut s, n);
    assert(Seq::<char>::empty() + decimal(n as nat) =~= decimal(n as nat));
    s
}

/// Index of the last `-` in `name`, or -1 where it holds none.
pub open spec fn last_dash(name: Seq<char>) -> int
    decreases name.len(),
{
    if name.len() == 0 {
        -1
    } else if name.last() == '-' {
        name.len() - 1
    } else {
        last_dash(name.drop_last())
    }
}

/// No character of `s` is a dash.
pub open spec fn dash_free(s: Seq<char>) -> bool {
    forall|i: int| 0 <= i < s.len() ==> s[i] != '-'
}

/// What `last_dash` finds: a dash with none behind it, or -1 in a name
/// without dashes.
pub proof fn lemma_last_dash(name: Seq<char>)
    ensures
        -1 <= last_dash(name) < name.len(),
        last_dash(name) >= 0 ==> name[last_dash(name)] == '-',
        forall|i: int| last_dash(name) < i < name.len() ==> name[i] != '-',
    decreases name.len(),
{
    if name.len() > 0 && name.last() != '-' {
        let front = name.drop_last();
        lemma_last_dash(front);
        assert forall|i: int| last_dash(name) < i < name.len() implies name[i] != '-' by {
            if i < front.len() {
                assert(front[i] == name[i]);
            }
        }
    }
}

/// Position of the last `-` in `name`.
pub fn find_last_dash(name: &str) -> (found: Option<usize>)
    ensures
        match found {
            Some(i) => i == last_dash(name@),
            None => last_dash(name@) == -1,
        },
{
    let n = name.unicode_len();
    let mut i: usize = n;
    proof {
        lemma_last_dash(name@);
    }
    while i > 0
        invariant
            i <= n,
            n == name@.len(),
            forall|k: int| i <= k < n ==> name@[k] != '-',
        decreases i,
    {
        i -= 1;
        if name.get_char(i) == '-' {
            proof {
                lemma_last_dash(name@);
            }
            return Some(i);
        }
    }
    proof {
        lemma_last_dash(name@);
    }
    None
}

} // verus!
