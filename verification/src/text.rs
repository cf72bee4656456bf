//! Small helpers on strings, stated over their character sequences.

use vstd::prelude::*;
use vstd::string::*;

verus! {

/// Whether `c` occurs somewhere in `s`.
pub open spec fn has_char(s: Seq<char>, c: char) -> bool {
    exists|i: int| 0 <= i < s.len() && s[i] == c
}

/// Collects the characters of `s`.
pub fn chars_of(s: &str) -> (v: Vec<char>)
    ensures
        v@ == s@,
{
    let mut v: Vec<char> = Vec::new();
    for c in it: s.chars()
        invariant
            it.seq() == s@,
            v@ == s@.subrange(0, it.index() as int),
    {
        v.push(c);
        assert(v@ =~= s@.subrange(0, it.index() + 1));
    }
    assert(s@.subrange(0, s@.len() as int) =~= s@);
    v
}

/// Tells whether `s` contains the character `c`.
pub fn contains_char(s: &str, c: char) -> (found: bool)
    ensures
        found == has_char(s@, c),
{
    let v = chars_of(s);
    let mut i: usize = 0;
    while i < v.len()
        invariant
            i <= v.len(),
            v@ == s@,
            forall|j: int| 0 <= j < i ==> s@[j] != c,
        decreases v.len() - i,
    {
        if v[i] == c {
            return true;
        }
        i = i + 1;
    }
    false
}

/// Tells whether `a` and `b` hold the same characters.
pub fn same_text(a: &str, b: &str) -> (same: bool)
    ensures
        same == (a@ == b@),
{
    let x = chars_of(a);
    let y = chars_of(b);
    if x.len() != y.len() {
        return false;
    }
    let mut i: usize = 0;
    while i < x.len()
        invariant
            i <= x.len(),
            x.len() == y.len(),
            x@ == a@,
            y@ == b@,
            forall|j: int| 0 <= j < i ==> a@[j] == b@[j],
        decreases x.len() - i,
    {
        if x[i] != y[i] {
            return false;
        }
        i = i + 1;
    }
    assert(a@ =~= b@);
    true
}

/// The character of one decimal digit.
pub open spec fn digit_char(d: int) -> char
    recommends
        0 <= d < 10,
{
    ((d + 48) as u8) as char
}

/// Whether `c` is one of the ten decimal digits.
pub open spec fn is_digit(c: char) -> bool {
    '0' <= c && c <= '9'
}

/// The character of one hexadecimal digit, in lower case.
pub open spec fn hex_char(d: int) -> char
    recommends
        0 <= d < 16,
{
    if d < 10 {
        ((d + 48) as u8) as char
    } else {
        ((d + 87) as u8) as char
    }
}

/// Whether `c` is a hexadecimal digit in lower case.
pub open spec fn is_hex(c: char) -> bool {
    ('0' <= c && c <= '9') || ('a' <= c && c <= 'f')
}

/// A number in decimal, without leading zeros.
pub open spec fn decimal(n: nat) -> Seq<char>
    decreases n,
{
    if n < 10 {
        seq![digit_char(n as int)]
    } else {
        decimal(n / 10).push(digit_char((n % 10) as int))
    }
}

/// A byte as two hexadecimal digits in lower case.
pub open spec fn hex_pair(b: u8) -> Seq<char> {
    seq![hex_char((b / 16) as int), hex_char((b % 16) as int)]
}

/// The text of one decimal digit.
fn digit_text(d: u32) -> (t: &'static str)
    requires
        d < 10,
    ensures
        t@ == seq![digit_char(d as int)],
{
    let digits: &'static str = "0123456789";
    proof {
        reveal_strlit("0123456789");
    }
    let t = digits.substring_ascii(d as usize, d as usize + 1);
    assert(t@ =~= seq![digit_char(d as int)]);
    t
}

/// The text of one hexadecimal digit, in lower case.
fn hex_text(d: u8) -> (t: &'static str)
    requires
        d < 16,
    ensures
        t@ == seq![hex_char(d as int)],
{
    let digits: &'static str = "0123456789abcdef";
    proof {
        reveal_strlit("0123456789abcdef");
    }
    let t = digits.substring_ascii(d as usize, d as usize + 1);
    assert(t@ =~= seq![hex_char(d as int)]);
    t
}

/// Writes `n` in decimal.
pub fn decimal_text(n: u32) -> (t: String)
    ensures
        t@ == decimal(n as nat),
    decreases n,
{
    if n < 10 {
        digit_text(n).to_owned()
    } else {
        let mut t = decimal_text(n / 10);
        t.append(digit_text(n % 10));
        t
    }
}

/// Writes a byte as two hexadecimal digits in lower case.
pub fn hex_pair_text(b: u8) -> (t: String)
    ensures
        t@ == hex_pair(b),
{
    let mut t = hex_text(b / 16).to_owned();
    t.append(hex_text(b % 16));
    assert(t@ =~= hex_pair(b));
    t
}

/// Whether `c` ends a line.
pub open spec fn is_line_break(c: char) -> bool {
    c == '\n' || c == '\r'
}

/// The text on one line: a space stands where a line ended.
pub open spec fn one_line(s: Seq<char>) -> Seq<char> {
    Seq::new(
        s.len(),
        |i: int|
            if is_line_break(s[i]) {
                ' '
            } else {
                s[i]
            },
    )
}

/// Appends `s` to `text`, with a space in place of every end of a line.
pub fn append_one_line(text: &mut String, s: &str)
    ensures
        final(text)@ == old(text)@ + one_line(s@),
{
    let chars = chars_of(s);
    let n = chars.len();
    let mut start: usize = 0;
    let mut i: usize = 0;
    proof {
        reveal_strlit(" ");
        assert(text@ =~= old(text)@ + one_line(s@.subrange(0, 0)));
    }
    while i < n
        invariant
            chars@ == s@,
            n == s@.len(),
            start <= i <= n,
            " "@ == seq![' '],
            text@ == old(text)@ + one_line(s@.subrange(0, start as int)),
            forall|j: int| start <= j < i ==> !is_line_break(s@[j]),
        decreases n - i,
    {
        let c = chars[i];
        if c == '\n' || c == '\r' {
            text.append(s.substring_char(start, i));
            text.append(" ");
            proof {
                let run = s@.subrange(start as int, i as int);
                assert(one_line(run) =~= run);
                assert(text@ =~= old(text)@ + one_line(s@.subrange(0, i + 1)));
            }
            start = i + 1;
        }
        i = i + 1;
    }
    text.append(s.substring_char(start, n));
    proof {
        let run = s@.subrange(start as int, n as int);
        assert(one_line(run) =~= run);
        assert(s@.subrange(0, n as int) =~= s@);
        assert(text@ =~= old(text)@ + one_line(s@));
    }
}

/// A text on one line holds no end of a line.
pub proof fn lemma_one_line_has_no_break(s: Seq<char>)
    ensures
        one_line(s).len() == s.len(),
        forall|i: int| 0 <= i < s.len() ==> !is_line_break(#[trigger] one_line(s)[i]),
{
}

} // verus!
