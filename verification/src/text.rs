//! Character-level helpers over `str`, stated on `Seq<char>` views.

use vstd::prelude::*;
use vstd::string::StringExecFns;

verus! {

/// The characters of `s`, in order.
pub fn chars_of(s: &str) -> (v: Vec<char>)
    ensures
        v@ == s@,
{
    let mut v: Vec<char> = Vec::new();
    for c in it: s.chars()
        invariant
            it.seq() == s@,
            v@ == s@.take(it.index()),
    {
        v.push(c);
    }
    v
}

/// `pattern` occurs in `text` starting at position `at`.
pub open spec fn occurs_at(text: Seq<char>, at: int, pattern: Seq<char>) -> bool {
    &&& 0 <= at
    &&& at + pattern.len() <= text.len()
    &&& text.subrange(at, at + pattern.len()) == pattern
}

/// Whether `pattern` occurs in `text` at position `at`.
pub fn matches_at(text: &Vec<char>, at: usize, pattern: &Vec<char>) -> (r: bool)
    ensures
        r == occurs_at(text@, at as int, pattern@),
{
    if at > text.len() || pattern.len() > text.len() - at {
        return false;
    }
    let mut i: usize = 0;
    while i < pattern.len()
        invariant
            i <= pattern.len(),
            at + pattern.len() <= text.len(),
            forall|k: int| 0 <= k < i ==> text@[at + k] == pattern@[k],
        decreases pattern.len() - i,
    {
        if text[at + i] != pattern[i] {
            assert(text@.subrange(at as int, at + pattern.len())[i as int] != pattern@[i as int]);
            return false;
        }
        i += 1;
    }
    assert(text@.subrange(at as int, at + pattern.len()) =~= pattern@);
    true
}

/// Whether `text` ends with `suffix`.
pub fn has_suffix(text: &Vec<char>, suffix: &Vec<char>) -> (r: bool)
    ensures
        r == suffix@.is_suffix_of(text@),
{
    if suffix.len() > text.len() {
        return false;
    }
    matches_at(text, text.len() - suffix.len(), suffix)
}

/// Whether the two strings hold the same characters.
pub fn str_eq(a: &str, b: &str) -> (r: bool)
    ensures
        r == (a@ == b@),
{
    let x = chars_of(a);
    let y = chars_of(b);
    if x.len() != y.len() {
        return false;
    }
    let r = matches_at(&x, 0, &y);
    assert(x@.subrange(0, x@.len() as int) =~= x@);
    r
}

/// The first position at or after `from` where `text` holds `c`, if any.
pub open spec fn first_index_from(text: Seq<char>, from: int, c: char) -> Option<int>
    decreases text.len() - from,
{
    if from < 0 || from >= text.len() {
        None
    } else if text[from] == c {
        Some(from)
    } else {
        first_index_from(text, from + 1, c)
    }
}

/// Where `first_index_from` points, `c` stands, and nowhere before it from `from` on.
pub proof fn lemma_first_index_from(text: Seq<char>, from: int, c: char)
    requires
        0 <= from <= text.len(),
    ensures
        match first_index_from(text, from, c) {
            Some(i) => from <= i < text.len() && text[i] == c && forall|k: int|
                from <= k < i ==> text[k] != c,
            None => forall|k: int| from <= k < text.len() ==> text[k] != c,
        },
    decreases text.len() - from,
{
    if from < text.len() && text[from] != c {
        lemma_first_index_from(text, from + 1, c);
    }
}

/// Finds the first occurrence of `c` in `text` at or after `from`.
pub fn find_char(text: &Vec<char>, from: usize, c: char) -> (r: Option<usize>)
    requires
        from <= text.len(),
    ensures
        match r {
            Some(i) => from <= i < text.len() && first_index_from(text@, from as int, c) == Some(
                i as int,
            ),
            None => first_index_from(text@, from as int, c) is None,
        },
{
    let mut i: usize = from;
    while i < text.len()
        invariant
            from <= i <= text.len(),
            first_index_from(text@, from as int, c) == first_index_from(text@, i as int, c),
        decreases text.len() - i,
    {
        if text[i] == c {
            return Some(i);
        }
        i += 1;
    }
    None
}

/// How often `c` occurs in `text` at or after `from`.
pub open spec fn count_from(text: Seq<char>, from: int, c: char) -> nat
    decreases text.len() - from,
{
    if from < 0 || from >= text.len() {
        0
    } else {
        count_from(text, from + 1, c) + if text[from] == c {
            1nat
        } else {
            0nat
        }
    }
}

/// Counting from `from` on finds one occurrence more than counting behind the first one, and
/// none where there is no first one.
pub proof fn lemma_count_from_first(text: Seq<char>, from: int, c: char)
    requires
        0 <= from <= text.len(),
    ensures
        count_from(text, from, c) == match first_index_from(text, from, c) {
            Some(i) => 1 + count_from(text, i + 1, c),
            None => 0,
        },
    decreases text.len() - from,
{
    if from < text.len() && text[from] != c {
        lemma_count_from_first(text, from + 1, c);
    }
}

/// The character that writes the decimal digit `d`.
pub open spec fn digit_char(d: nat) -> char {
    if d == 0 {
        '0'
    } else if d == 1 {
        '1'
    } else if d == 2 {
        '2'
    } else if d == 3 {
        '3'
    } else if d == 4 {
        '4'
    } else if d == 5 {
        '5'
    } else if d == 6 {
        '6'
    } else if d == 7 {
        '7'
    } else if d == 8 {
        '8'
    } else {
        '9'
    }
}

/// The decimal numeral of `n`, without sign or leading zeros.
pub open spec fn decimal(n: nat) -> Seq<char>
    decreases n,
{
    if n < 10 {
        seq![digit_char(n)]
    } else {
        decimal(n / 10).push(digit_char(n % 10))
    }
}

fn digit_text(d: u64) -> (r: &'static str)
    requires
        d < 10,
    ensures
        r@ == seq![digit_char(d as nat)],
{
    proof {
        reveal_strlit("0");
        reveal_strlit("1");
        reveal_strlit("2");
        reveal_strlit("3");
        reveal_strlit("4");
        reveal_strlit("5");
        reveal_strlit("6");
        reveal_strlit("7");
        reveal_strlit("8");
        reveal_strlit("9");
    }
    let r = if d == 0 {
        "0"
    } else if d == 1 {
        "1"
    } else if d == 2 {
        "2"
    } else if d == 3 {
        "3"
    } else if d == 4 {
        "4"
    } else if d == 5 {
        "5"
    } else if d == 6 {
        "6"
    } else if d == 7 {
        "7"
    } else if d == 8 {
        "8"
    } else {
        "9"
    };
    assert(r@ =~= seq![digit_char(d as nat)]);
    r
}

/// Writes `n` in decimal.
pub fn decimal_string(n: u64) -> (s: String)
    ensures
        s@ == decimal(n as nat),
    decreases n,
{
    if n < 10 {
        String::from_str(digit_text(n))
    } else {
        let mut s = decimal_string(n / 10);
        s.append(digit_text(n % 10));
        assert(s@ =~= decimal((n / 10) as nat).push(digit_char((n % 10) as nat)));
        s
    }
}

} // verus!
