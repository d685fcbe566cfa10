//! Text operations that the client is built from: decimal numerals, comparison
//! and search. Positions count characters, as the views of strings do.

use vstd::prelude::*;

verus! {

/// The character that writes the digit `d`.
pub open spec fn digit(d: nat) -> char {
    if d == 0 {
        '0'
    } else if d == 1 {
        '1'
    } else if d == 2 {
        '2'
    } else if d == 3 {
        '3'
    } else if d == 4 {
        '4'
    } else if d == 5 {
        '5'
    } else if d == 6 {
        '6'
    } else if d == 7 {
        '7'
    } else if d == 8 {
        '8'
    } else {
        '9'
    }
}

/// The decimal numeral of `n`, without leading zeros.
pub open spec fn decimal(n: nat) -> Seq<char>
    decreases n,
{
    if n < 10 {
        seq![digit(n)]
    } else {
        decimal(n / 10).push(digit(n % 10))
    }
}

/// Whether `pattern` stands in `text` from position `at` on.
pub open spec fn occurs_at(text: Seq<char>, pattern: Seq<char>, at: int) -> bool {
    &&& 0 <= at
    &&& at + pattern.len() <= text.len()
    &&& text.subrange(at, at + pattern.len()) == pattern
}

/// Whether `at` is the leftmost position at which `pattern` stands in `text`.
pub open spec fn is_first_occurrence(text: Seq<char>, pattern: Seq<char>, at: int) -> bool {
    &&& occurs_at(text, pattern, at)
    &&& forall|before: int| 0 <= before < at ==> !occurs_at(text, pattern, before)
}

/// The leftmost position at which `pattern` stands in `text`, if there is one.
pub open spec fn first_occurrence(text: Seq<char>, pattern: Seq<char>) -> Option<int> {
    if exists|at: int| occurs_at(text, pattern, at) {
        Some(choose|at: int| is_first_occurrence(text, pattern, at))
    } else {
        None
    }
}

/// A leftmost position is the one that `first_occurrence` names.
pub proof fn lemma_first_occurrence(text: Seq<char>, pattern: Seq<char>, at: int)
    requires
        is_first_occurrence(text, pattern, at),
    ensures
        first_occurrence(text, pattern) == Some(at),
{
    let chosen = choose|c: int| is_first_occurrence(text, pattern, c);
    assert(is_first_occurrence(text, pattern, chosen));
    if chosen < at {
        assert(!occurs_at(text, pattern, chosen));
    }
    if at < chosen {
        assert(!occurs_at(text, pattern, at));
    }
}

/// Below a position at which a pattern occurs there is a leftmost one.
proof fn lemma_leftmost_exists(text: Seq<char>, pattern: Seq<char>, at: int)
    requires
        occurs_at(text, pattern, at),
    ensures
        exists|c: int| is_first_occurrence(text, pattern, c),
    decreases at,
{
    if forall|before: int| 0 <= before < at ==> !occurs_at(text, pattern, before) {
        assert(is_first_occurrence(text, pattern, at));
    } else {
        let before = choose|before: int| 0 <= before < at && occurs_at(text, pattern, before);
        lemma_leftmost_exists(text, pattern, before);
    }
}

/// The position that `first_occurrence` names is a leftmost one.
pub proof fn lemma_first_occurrence_is_leftmost(text: Seq<char>, pattern: Seq<char>)
    requires
        first_occurrence(text, pattern) is Some,
    ensures
        is_first_occurrence(text, pattern, first_occurrence(text, pattern)->0),
{
    let at = choose|at: int| occurs_at(text, pattern, at);
    lemma_leftmost_exists(text, pattern, at);
}

/// Where a pattern occurs, the text is the part before it, the pattern, and
/// the part after it.
pub proof fn lemma_occurrence_splits(text: Seq<char>, pattern: Seq<char>, at: int)
    requires
        occurs_at(text, pattern, at),
    ensures
        text == text.subrange(0, at) + pattern + text.subrange(
            at + pattern.len(),
            text.len() as int,
        ),
{
    let rebuilt = text.subrange(0, at) + pattern + text.subrange(
        at + pattern.len(),
        text.len() as int,
    );
    assert(rebuilt.len() == text.len());
    assert forall|i: int| 0 <= i < text.len() implies rebuilt[i] == text[i] by {
        if at <= i < at + pattern.len() {
            assert(text.subrange(at, at + pattern.len())[i - at] == text[i]);
        }
    }
    assert(rebuilt =~= text);
}

fn digit_str(d: u64) -> (s: &'static str)
    requires
        d < 10,
    ensures
        s@ == seq![digit(d as nat)],
{
    proof {
        reveal_strlit("0");
        reveal_strlit("1");
        reveal_strlit("2");
        reveal_strlit("3");
        reveal_strlit("4");
        reveal_strlit("5");
        reveal_strlit("6");
        reveal_strlit("7");
        reveal_strlit("8");
        reveal_strlit("9");
    }
    let s = if d == 0 {
        "0"
    } else if d == 1 {
        "1"
    } else if d == 2 {
        "2"
    } else if d == 3 {
        "3"
    } else if d == 4 {
        "4"
    } else if d == 5 {
        "5"
    } else if d == 6 {
        "6"
    } else if d == 7 {
        "7"
    } else if d == 8 {
        "8"
    } else {
        "9"
    };
    assert(s@ =~= seq![digit(d as nat)]);
    s
}

/// Writes `n` in decimal.
pub fn decimal_string(n: u64) -> (s: String)
    ensures
        s@ == decimal(n as nat),
    decreases n,
{
    if n < 10 {
        String::from_str(digit_str(n))
    } else {
        let mut s = decimal_string(n / 10);
        s.append(digit_str(n % 10));
        assert(s@ =~= decimal((n / 10) as nat).push(digit((n % 10) as nat)));
        s
    }
}

/// Whether `pattern` stands in `text` at position `at`.
fn matches_at(text: &str, pattern: &str, at: usize) -> (r: bool)
    requires
        at + pattern@.len() <= text@.len(),
        text@.len() <= usize::MAX,
    ensures
        r == occurs_at(text@, pattern@, at as int),
{
    let width = pattern.unicode_len();
    let mut k: usize = 0;
    while k < width
        invariant
            k <= width,
            width == pattern@.len(),
            at + width <= text@.len(),
            text@.len() <= usize::MAX,
            forall|j: int| 0 <= j < k ==> text@[at + j] == pattern@[j],
        decreases width - k,
    {
        if text.get_char(at + k) != pattern.get_char(k) {
            assert(text@.subrange(at as int, at + width)[k as int] == text@[at + k]);
            return false;
        }
        k = k + 1;
    }
    assert(text@.subrange(at as int, at + width) =~= pattern@);
    true
}

/// Whether two strings hold the same characters.
pub fn same_text(a: &str, b: &str) -> (r: bool)
    ensures
        r == (a@ == b@),
{
    let len = a.unicode_len();
    if len != b.unicode_len() {
        return false;
    }
    let r = matches_at(a, b, 0);
    assert(a@.subrange(0, a@.len() as int) =~= a@);
    r
}

/// The leftmost position at which `pattern` stands in `text`.
pub fn find(text: &str, pattern: &str) -> (r: Option<usize>)
    ensures
        match r {
            Some(at) => first_occurrence(text@, pattern@) == Some(at as int),
            None => first_occurrence(text@, pattern@) is None,
        },
{
    let len = text.unicode_len();
    let width = pattern.unicode_len();
    if width > len {
        return None;
    }
    if width == 0 {
        proof {
            assert(text@.subrange(0, 0) =~= pattern@);
            lemma_first_occurrence(text@, pattern@, 0);
        }
        return Some(0);
    }
    let last = len - width;
    let mut at: usize = 0;
    while at <= last
        invariant
            len == text@.len(),
            width == pattern@.len(),
            last == len - width,
            0 < width,
            at <= last + 1,
            forall|before: int| 0 <= before < at ==> !occurs_at(text@, pattern@, before),
        decreases last + 1 - at,
    {
        if matches_at(text, pattern, at) {
            proof {
                lemma_first_occurrence(text@, pattern@, at as int);
            }
            return Some(at);
        }
        at = at + 1;
    }
    None
}

} // verus!
