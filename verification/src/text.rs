//! Small text helpers: decimal rendering for the runtime API URL, and
//! parsing of captured version-query output.

use vstd::prelude::*;
use vstd::string::*;

verus! {

/// The decimal digit character for one value below ten.
pub open spec fn digit_char(d: nat) -> char {
    if d == 0 {
        '0'
    } else if d == 1 {
        '1'
    } else if d == 2 {
        '2'
    } else if d == 3 {
        '3'
    } else if d == 4 {
        '4'
    } else if d == 5 {
        '5'
    } else if d == 6 {
        '6'
    } else if d == 7 {
        '7'
    } else if d == 8 {
        '8'
    } else {
        '9'
    }
}

/// The decimal rendering of a number, most significant digit first.
pub open spec fn dec_str(n: nat) -> Seq<char>
    decreases n,
{
    if n < 10 {
        seq![digit_char(n)]
    } else {
        dec_str(n / 10).push(digit_char(n % 10))
    }
}

/// The string literal for one decimal digit.
fn digit_literal(d: u16) -> (r: &'static str)
    requires
        d < 10,
    ensures
        r@ =~= seq![digit_char(d as nat)],
{
    proof {
        reveal_strlit("0");
        reveal_strlit("1");
        reveal_strlit("2");
        reveal_strlit("3");
        reveal_strlit("4");
        reveal_strlit("5");
        reveal_strlit("6");
        reveal_strlit("7");
        reveal_strlit("8");
        reveal_strlit("9");
    }
    if d == 0 {
        "0"
    } else if d == 1 {
        "1"
    } else if d == 2 {
        "2"
    } else if d == 3 {
        "3"
    } else if d == 4 {
        "4"
    } else if d == 5 {
        "5"
    } else if d == 6 {
        "6"
    } else if d == 7 {
        "7"
    } else if d == 8 {
        "8"
    } else {
        "9"
    }
}

/// Renders a port or any other small number in decimal.
pub fn u16_to_dec_string(n: u16) -> (r: String)
    ensures
        r@ == dec_str(n as nat),
    decreases n,
{
    if n < 10 {
        String::from_str(digit_literal(n))
    } else {
        let prefix = u16_to_dec_string(n / 10);
        let rendered = prefix.concat(digit_literal(n % 10));
        proof {
            assert(rendered@ =~= dec_str((n / 10) as nat).push(digit_char((n % 10) as nat)));
        }
        rendered
    }
}

/// Whitespace stripped from the end of captured process output.
pub open spec fn is_trailing_ws(c: char) -> bool {
    c == ' ' || c == '\n' || c == '\r' || c == '\t'
}

/// The output with trailing whitespace removed.
pub open spec fn trim_trailing(s: Seq<char>) -> Seq<char>
    decreases s.len(),
{
    if s.len() > 0 && is_trailing_ws(s.last()) {
        trim_trailing(s.drop_last())
    } else {
        s
    }
}

/// What follows the last space, if the text holds a space at all.
pub open spec fn after_last_space(s: Seq<char>) -> Option<Seq<char>>
    decreases s.len(),
{
    if s.len() == 0 {
        None
    } else if s.last() == ' ' {
        Some(Seq::<char>::empty())
    } else {
        match after_last_space(s.drop_last()) {
            None => None,
            Some(t) => Some(t.push(s.last())),
        }
    }
}

/// The version token of captured version-query output: what follows the
/// last space once trailing whitespace is stripped.
pub open spec fn version_token(s: Seq<char>) -> Option<Seq<char>> {
    after_last_space(trim_trailing(s))
}

proof fn lemma_trim_ws_suffix(s: Seq<char>, end: int)
    requires
        0 <= end <= s.len(),
        forall|k: int| end <= k < s.len() ==> is_trailing_ws(#[trigger] s[k]),
    ensures
        trim_trailing(s) == trim_trailing(s.take(end)),
    decreases s.len() - end,
{
    if end == s.len() {
        assert(s.take(end) =~= s);
    } else {
        assert(is_trailing_ws(s.last()));
        assert(s.drop_last() =~= s.take(s.len() - 1));
        lemma_trim_ws_suffix(s.take(s.len() - 1), end);
        assert(s.take(s.len() - 1).take(end) =~= s.take(end));
    }
}

proof fn lemma_after_last_space_none(t: Seq<char>)
    requires
        forall|k: int| 0 <= k < t.len() ==> #[trigger] t[k] != ' ',
    ensures
        after_last_space(t) is None,
    decreases t.len(),
{
    if t.len() > 0 {
        lemma_after_last_space_none(t.drop_last());
    }
}

proof fn lemma_after_last_space_found(t: Seq<char>, sp: int)
    requires
        0 < sp <= t.len(),
        t[sp - 1] == ' ',
        forall|k: int| sp <= k < t.len() ==> #[trigger] t[k] != ' ',
    ensures
        after_last_space(t) == Some(t.subrange(sp, t.len() as int)),
    decreases t.len() - sp,
{
    if sp == t.len() {
        assert(t.last() == ' ');
        assert(t.subrange(sp, t.len() as int) =~= Seq::<char>::empty());
    } else {
        assert(t.last() != ' ');
        assert(t.drop_last() =~= t.take(t.len() - 1));
        lemma_after_last_space_found(t.drop_last(), sp);
        assert(t.drop_last().subrange(sp, t.len() - 1).push(t.last()) =~= t.subrange(
            sp,
            t.len() as int,
        ));
    }
}

/// Whether one character counts as trailing whitespace.
fn is_trailing_ws_char(c: char) -> (r: bool)
    ensures
        r == is_trailing_ws(c),
{
    c == ' ' || c == '\n' || c == '\r' || c == '\t'
}

/// Extracts the version token from captured version-query output: the
/// text after the last space, once trailing whitespace is stripped.
/// Nothing is returned when the output holds no space.
pub fn parse_version_output(output: &str) -> (r: Option<String>)
    ensures
        match version_token(output@) {
            Some(t) => r matches Some(v) && v@ == t,
            None => r is None,
        },
{
    let n = output.unicode_len();
    let mut end = n;
    while end > 0 && is_trailing_ws_char(output.get_char(end - 1))
        invariant
            end <= n,
            n == output@.len(),
            forall|k: int| end <= k < n ==> is_trailing_ws(#[trigger] output@[k]),
        decreases end,
    {
        end = end - 1;
    }
    proof {
        lemma_trim_ws_suffix(output@, end as int);
        assert(trim_trailing(output@) == output@.take(end as int));
    }
    let mut sp = end;
    while sp > 0 && output.get_char(sp - 1) != ' '
        invariant
            sp <= end,
            end <= n,
            n == output@.len(),
            forall|k: int| sp <= k < end ==> #[trigger] output@[k] != ' ',
        decreases sp,
    {
        sp = sp - 1;
    }
    let ghost t = output@.take(end as int);
    if sp == 0 {
        proof {
            lemma_after_last_space_none(t);
        }
        None
    } else {
        let token = output.substring_char(sp, end);
        proof {
            lemma_after_last_space_found(t, sp as int);
            assert(t.subrange(sp as int, t.len() as int) =~= output@.subrange(
                sp as int,
                end as int,
            ));
        }
        Some(String::from_str(token))
    }
}

} // verus!
