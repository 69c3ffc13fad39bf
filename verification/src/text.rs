//! Small text helpers shared by the rest of the library: string comparison,
//! path joining and decimal rendering.

use vstd::prelude::*;

verus! {

/// Whether two string slices hold the same characters.
pub(crate) fn str_eq(a: &str, b: &str) -> (same: bool)
    ensures
        same == (a@ == b@),
{
    let first = a.to_owned();
    let second = b.to_owned();
    first == second
}

/// The path of `part` inside the directory `base`.
pub open spec fn spec_join(base: Seq<char>, part: Seq<char>) -> Seq<char> {
    base + seq!['/'] + part
}

/// Builds the path of `part` inside the directory `base`.
pub fn join(base: &str, part: &str) -> (path: String)
    ensures
        path@ == spec_join(base@, part@),
{
    let mut path = String::from_str(base);
    path.append("/");
    path.append(part);
    proof {
        reveal_strlit("/");
    }
    path
}

/// The character that writes the digit `d`.
pub open spec fn digit_char(d: nat) -> char {
    if d == 0 {
        '0'
    } else if d == 1 {
        '1'
    } else if d == 2 {
        '2'
    } else if d == 3 {
        '3'
    } else if d == 4 {
        '4'
    } else if d == 5 {
        '5'
    } else if d == 6 {
        '6'
    } else if d == 7 {
        '7'
    } else if d == 8 {
        '8'
    } else {
        '9'
    }
}

/// `n` written in base ten, without leading zeros.
pub open spec fn spec_decimal(n: nat) -> Seq<char>
    decreases n,
{
    if n < 10 {
        seq![digit_char(n)]
    } else {
        spec_decimal(n / 10).push(digit_char(n % 10))
    }
}

fn digit_str(d: u32) -> (s: &'static str)
    requires
        d < 10,
    ensures
        s@ == seq![digit_char(d as nat)],
{
    proof {
        reveal_strlit("0");
        reveal_strlit("1");
        reveal_strlit("2");
        reveal_strlit("3");
        reveal_strlit("4");
        reveal_strlit("5");
        reveal_strlit("6");
        reveal_strlit("7");
        reveal_strlit("8");
        reveal_strlit("9");
    }
    let s = if d == 0 {
        "0"
    } else if d == 1 {
        "1"
    } else if d == 2 {
        "2"
    } else if d == 3 {
        "3"
    } else if d == 4 {
        "4"
    } else if d == 5 {
        "5"
    } else if d == 6 {
        "6"
    } else if d == 7 {
        "7"
    } else if d == 8 {
        "8"
    } else {
        "9"
    };
    s
}

/// Writes `n` in base ten.
pub fn decimal(n: u32) -> (text: String)
    ensures
        text@ == spec_decimal(n as nat),
    decreases n,
{
    if n < 10 {
        String::from_str(digit_str(n))
    } else {
        let mut text = decimal(n / 10);
        text.append(digit_str(n % 10));
        text
    }
}

/// A number below ten is written with one character, any other with more.
pub proof fn lemma_decimal_len(n: nat)
    ensures
        n < 10 ==> spec_decimal(n).len() == 1,
        n >= 10 ==> spec_decimal(n).len() >= 2,
    decreases n,
{
    if n >= 10 {
        lemma_decimal_len(n / 10);
    }
}

/// Different numbers are written differently.
pub proof fn lemma_decimal_injective(m: nat, n: nat)
    requires
        spec_decimal(m) == spec_decimal(n),
    ensures
        m == n,
    decreases m,
{
    lemma_decimal_len(m);
    lemma_decimal_len(n);
    if m < 10 {
        assert(spec_decimal(m)[0] == digit_char(m));
        assert(spec_decimal(n)[0] == digit_char(n));
    } else {
        let a = spec_decimal(m / 10);
        let b = spec_decimal(n / 10);
        assert(a.push(digit_char(m % 10)).last() == digit_char(m % 10));
        assert(b.push(digit_char(n % 10)).last() == digit_char(n % 10));
        assert(a.push(digit_char(m % 10)).drop_last() =~= a);
        assert(b.push(digit_char(n % 10)).drop_last() =~= b);
        lemma_decimal_injective(m / 10, n / 10);
    }
}

/// Whether `pat` stands in `text` starting at position `at`.
pub open spec fn occurs_at(text: Seq<u8>, pat: Seq<u8>, at: int) -> bool {
    &&& 0 <= at
    &&& at + pat.len() <= text.len()
    &&& text.subrange(at, at + pat.len()) == pat
}

/// Whether `at` is the first position at which `pat` stands in `text`.
pub open spec fn first_at(text: Seq<u8>, pat: Seq<u8>, at: int) -> bool {
    &&& occurs_at(text, pat, at)
    &&& forall|earlier: int| 0 <= earlier < at ==> !occurs_at(text, pat, earlier)
}

/// The first position at which `pat` stands in `text`, if it does at all.
pub open spec fn spec_find(text: Seq<u8>, pat: Seq<u8>) -> Option<int> {
    if exists|at: int| first_at(text, pat, at) {
        Some(choose|at: int| first_at(text, pat, at))
    } else {
        None
    }
}

/// There is at most one first position.
pub proof fn lemma_first_at_unique(text: Seq<u8>, pat: Seq<u8>, a: int, b: int)
    requires
        first_at(text, pat, a),
        first_at(text, pat, b),
    ensures
        a == b,
{
    if a < b {
        assert(!occurs_at(text, pat, a));
    } else if b < a {
        assert(!occurs_at(text, pat, b));
    }
}

/// A known first position is what [`spec_find`] gives.
pub proof fn lemma_find_is(text: Seq<u8>, pat: Seq<u8>, at: int)
    requires
        first_at(text, pat, at),
    ensures
        spec_find(text, pat) == Some(at),
{
    let chosen = choose|i: int| first_at(text, pat, i);
    lemma_first_at_unique(text, pat, at, chosen);
}

fn matches_at(text: &[u8], pat: &[u8], at: usize) -> (same: bool)
    requires
        at + pat@.len() <= text@.len(),
    ensures
        same == occurs_at(text@, pat@, at as int),
{
    let limit = text.len();
    let mut k: usize = 0;
    while k < pat.len()
        invariant
            k <= pat@.len(),
            at + pat@.len() <= text@.len(),
            limit == text@.len(),
            forall|t: int| 0 <= t < k ==> text@[at + t] == pat@[t],
        decreases pat@.len() - k,
    {
        if text[at + k] != pat[k] {
            return false;
        }
        k += 1;
    }
    assert(text@.subrange(at as int, at + pat@.len()) =~= pat@);
    true
}

/// Finds the first place where `pat` stands in `text`.
pub fn find(text: &[u8], pat: &[u8]) -> (found: Option<usize>)
    ensures
        match found {
            Some(at) => first_at(text@, pat@, at as int) && spec_find(text@, pat@) == Some(
                at as int,
            ),
            None => spec_find(text@, pat@) is None,
        },
{
    if pat.len() > text.len() {
        return None;
    }
    let last = text.len() - pat.len();
    let mut at: usize = 0;
    while at < last
        invariant
            last == text@.len() - pat@.len(),
            at <= last,
            forall|earlier: int| 0 <= earlier < at ==> !occurs_at(text@, pat@, earlier),
        decreases last - at,
    {
        if matches_at(text, pat, at) {
            proof {
                lemma_find_is(text@, pat@, at as int);
            }
            return Some(at);
        }
        at += 1;
    }
    if matches_at(text, pat, last) {
        proof {
            lemma_find_is(text@, pat@, last as int);
        }
        return Some(last);
    }
    None
}

} // verus!
