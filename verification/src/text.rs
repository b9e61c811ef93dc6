//! Character-level helpers over strings: prefixes, suffixes, ASCII case
//! folding and decimal numerals.

use vstd::prelude::*;

verus! {

/// The lower-case form of an ASCII capital letter; every other character is
/// left as it is.
pub open spec fn ascii_lowered(c: char) -> char {
    if 'A' <= c && c <= 'Z' {
        ((c as u8 + 32) as u8) as char
    } else {
        c
    }
}

/// Two texts are the same up to the case of their ASCII letters.
pub open spec fn same_ignoring_ascii_case(a: Seq<char>, b: Seq<char>) -> bool {
    &&& a.len() == b.len()
    &&& forall|i: int| 0 <= i < a.len() ==> ascii_lowered(#[trigger] a[i]) == ascii_lowered(b[i])
}

/// The character that writes a single decimal digit.
pub open spec fn digit_char(d: nat) -> char
    recommends
        d < 10,
{
    if d == 0 {
        '0'
    } else if d == 1 {
        '1'
    } else if d == 2 {
        '2'
    } else if d == 3 {
        '3'
    } else if d == 4 {
        '4'
    } else if d == 5 {
        '5'
    } else if d == 6 {
        '6'
    } else if d == 7 {
        '7'
    } else if d == 8 {
        '8'
    } else {
        '9'
    }
}

/// The decimal numeral of a natural number, without leading zeros.
pub open spec fn decimal(n: nat) -> Seq<char>
    decreases n,
{
    if n < 10 {
        seq![digit_char(n)]
    } else {
        decimal(n / 10).push(digit_char(n % 10))
    }
}

/// Being the same up to the case of ASCII letters is an equivalence: every
/// text is the same as itself, and the relation can be turned round and
/// chained.
pub proof fn lemma_same_ignoring_ascii_case_is_equivalence(
    a: Seq<char>,
    b: Seq<char>,
    c: Seq<char>,
)
    ensures
        same_ignoring_ascii_case(a, a),
        same_ignoring_ascii_case(a, b) ==> same_ignoring_ascii_case(b, a),
        same_ignoring_ascii_case(a, b) && same_ignoring_ascii_case(b, c)
            ==> same_ignoring_ascii_case(a, c),
{
    if same_ignoring_ascii_case(a, b) {
        assert forall|i: int| 0 <= i < b.len() implies ascii_lowered(#[trigger] b[i])
            == ascii_lowered(a[i]) by {
            assert(ascii_lowered(a[i]) == ascii_lowered(b[i]));
        }
        if same_ignoring_ascii_case(b, c) {
            assert forall|i: int| 0 <= i < a.len() implies ascii_lowered(#[trigger] a[i])
                == ascii_lowered(c[i]) by {
                assert(ascii_lowered(a[i]) == ascii_lowered(b[i]));
                assert(ascii_lowered(b[i]) == ascii_lowered(c[i]));
            }
        }
    }
}

/// Collects the characters of a string slice, in order.
pub fn chars_of(s: &str) -> (v: Vec<char>)
    ensures
        v@ == s@,
{
    let mut v: Vec<char> = Vec::new();
    for c in it: s.chars()
        invariant
            v@ == it.seq().take(it.index() as int),
            it.seq() == s@,
    {
        v.push(c);
    }
    v
}

/// Folds an ASCII capital letter to lower case.
pub fn to_ascii_lower(c: char) -> (r: char)
    ensures
        r == ascii_lowered(c),
{
    if 'A' <= c && c <= 'Z' {
        ((c as u8) + 32u8) as char
    } else {
        c
    }
}

/// Tells whether two strings hold the same characters.
pub fn str_equal(a: &str, b: &str) -> (r: bool)
    ensures
        r == (a@ == b@),
{
    let x = chars_of(a);
    let y = chars_of(b);
    if x.len() != y.len() {
        return false;
    }
    let mut i: usize = 0;
    while i < x.len()
        invariant
            x@ == a@,
            y@ == b@,
            x.len() == y.len(),
            i <= x.len(),
            forall|k: int| 0 <= k < i ==> x@[k] == y@[k],
        decreases x.len() - i,
    {
        if x[i] != y[i] {
            return false;
        }
        i += 1;
    }
    assert(x@ =~= y@);
    true
}

/// Tells whether two strings match when the case of ASCII letters is ignored.
pub fn eq_ignore_ascii_case(a: &str, b: &str) -> (r: bool)
    ensures
        r == same_ignoring_ascii_case(a@, b@),
{
    let x = chars_of(a);
    let y = chars_of(b);
    if x.len() != y.len() {
        return false;
    }
    let mut i: usize = 0;
    while i < x.len()
        invariant
            x@ == a@,
            y@ == b@,
            x.len() == y.len(),
            i <= x.len(),
            forall|k: int| 0 <= k < i ==> ascii_lowered(#[trigger] x@[k]) == ascii_lowered(y@[k]),
        decreases x.len() - i,
    {
        if to_ascii_lower(x[i]) != to_ascii_lower(y[i]) {
            return false;
        }
        i += 1;
    }
    true
}

/// Tells whether `text` begins with `prefix`.
pub fn starts_with(text: &str, prefix: &str) -> (r: bool)
    ensures
        r == prefix@.is_prefix_of(text@),
{
    let t = chars_of(text);
    let p = chars_of(prefix);
    if p.len() > t.len() {
        return false;
    }
    let mut i: usize = 0;
    while i < p.len()
        invariant
            t@ == text@,
            p@ == prefix@,
            p.len() <= t.len(),
            i <= p.len(),
            forall|k: int| 0 <= k < i ==> p@[k] == t@[k],
        decreases p.len() - i,
    {
        if p[i] != t[i] {
            assert(t@.subrange(0, p@.len() as int)[i as int] == t@[i as int]);
            return false;
        }
        i += 1;
    }
    assert(p@ =~= t@.subrange(0, p@.len() as int));
    true
}

/// Tells whether `text` ends with `suffix`.
pub fn ends_with(text: &str, suffix: &str) -> (r: bool)
    ensures
        r == suffix@.is_suffix_of(text@),
{
    let t = chars_of(text);
    let s = chars_of(suffix);
    if s.len() > t.len() {
        return false;
    }
    let shift: usize = t.len() - s.len();
    let mut i: usize = 0;
    while i < s.len()
        invariant
            t@ == text@,
            s@ == suffix@,
            s.len() <= t.len(),
            shift == t.len() - s.len(),
            i <= s.len(),
            forall|k: int| 0 <= k < i ==> s@[k] == t@[shift + k],
        decreases s.len() - i,
    {
        if s[i] != t[shift + i] {
            assert(t@.subrange(shift as int, t@.len() as int)[i as int] == t@[shift + i]);
            return false;
        }
        i += 1;
    }
    assert(s@ =~= t@.subrange(shift as int, t@.len() as int));
    true
}

/// Tells whether the character `c` occurs in `text`.
pub fn contains_char(text: &str, c: char) -> (r: bool)
    ensures
        r == text@.contains(c),
{
    let t = chars_of(text);
    let mut i: usize = 0;
    while i < t.len()
        invariant
            t@ == text@,
            i <= t.len(),
            forall|k: int| 0 <= k < i ==> t@[k] != c,
        decreases t.len() - i,
    {
        if t[i] == c {
            return true;
        }
        i += 1;
    }
    false
}

/// The one-character string that writes a decimal digit.
fn digit_str(d: u8) -> (s: &'static str)
    requires
        d < 10,
    ensures
        s@ == seq![digit_char(d as nat)],
{
    proof {
        reveal_strlit("0");
        reveal_strlit("1");
        reveal_strlit("2");
        reveal_strlit("3");
        reveal_strlit("4");
        reveal_strlit("5");
        reveal_strlit("6");
        reveal_strlit("7");
        reveal_strlit("8");
        reveal_strlit("9");
    }
    let s = if d == 0 {
        "0"
    } else if d == 1 {
        "1"
    } else if d == 2 {
        "2"
    } else if d == 3 {
        "3"
    } else if d == 4 {
        "4"
    } else if d == 5 {
        "5"
    } else if d == 6 {
        "6"
    } else if d == 7 {
        "7"
    } else if d == 8 {
        "8"
    } else {
        "9"
    };
    assert(s@ =~= seq![digit_char(d as nat)]);
    s
}

/// Appends the decimal numeral of `n` to `out`.
pub fn push_decimal(out: &mut String, n: u128)
    ensures
        final(out)@ == old(out)@ + decimal(n as nat),
    decreases n,
{
    if n >= 10 {
        push_decimal(out, n / 10);
    }
    let d: u8 = (n % 10) as u8;
    out.append(digit_str(d));
    proof {
        if n >= 10 {
            assert(old(out)@ + decimal((n / 10) as nat) + seq![digit_char((n % 10) as nat)]
                =~= old(out)@ + decimal(n as nat));
        }
    }
}

/// Writes `n` as a decimal numeral.
pub fn decimal_string(n: u128) -> (s: String)
    ensures
        s@ == decimal(n as nat),
{
    let mut s = String::new();
    push_decimal(&mut s, n);
    assert(Seq::<char>::empty() + decimal(n as nat) =~= decimal(n as nat));
    s
}

} // verus!
