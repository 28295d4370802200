use vstd::prelude::*;
use vstd::string::*;

verus! {

/// Whether two string slices hold the same characters.
pub fn same_text(a: &str, b: &str) -> (same: bool)
    ensures
        same == (a@ == b@),
{
    let left = a.to_owned();
    let right = b.to_owned();
    left == right
}

/// The lowercase form that `str::to_lowercase` gives a text: every letter
/// that Unicode knows in two cases is in its small form.
pub uninterp spec fn lowercased(text: Seq<char>) -> Seq<char>;

/// A text of ASCII characters only.
pub open spec fn is_ascii_text(text: Seq<char>) -> bool {
    forall|i: int| 0 <= i < text.len() ==> (#[trigger] text[i] as u32) < 128
}

/// A character with ASCII capitals turned into small letters.
pub open spec fn fold_char(c: char) -> char {
    if 'A' <= c && c <= 'Z' {
        ((c as u8) + 32) as u8 as char
    } else {
        c
    }
}

/// A text with its ASCII capitals turned into small letters.
pub open spec fn fold(text: Seq<char>) -> Seq<char> {
    Seq::new(text.len(), |i: int| fold_char(text[i]))
}

/// Turns a text into lowercase with `str::to_lowercase`. Trusted: the
/// answer depends on the text alone, and in a text of ASCII characters the
/// capitals `A` to `Z` become `a` to `z` and nothing else changes.
#[verifier::external_body]
fn lowercase(text: &str) -> (lower: String)
    ensures
        lower@ == lowercased(text@),
        is_ascii_text(text@) ==> lower@ == fold(text@),
{
    text.to_lowercase()
}

/// Whether `needle` stands in `hay` starting at index `at`.
pub open spec fn occurs_at(hay: Seq<char>, needle: Seq<char>, at: int) -> bool {
    &&& 0 <= at
    &&& at + needle.len() <= hay.len()
    &&& hay.subrange(at, at + needle.len()) == needle
}

/// Whether `needle` is a contiguous part of `hay`.
pub open spec fn contains_text(hay: Seq<char>, needle: Seq<char>) -> bool {
    exists|at: int| occurs_at(hay, needle, at)
}

/// Substring match that takes no notice of letter case: the lowercase form
/// of `needle` is a part of the lowercase form of `hay`.
pub open spec fn matches_ignoring_case(hay: Seq<char>, needle: Seq<char>) -> bool {
    contains_text(lowercased(hay), lowercased(needle))
}

/// What the match comes to for texts of ASCII characters: it is the match
/// of the two texts with their capitals `A` to `Z` made small.
pub open spec fn ascii_rule(hay: Seq<char>, needle: Seq<char>) -> bool {
    is_ascii_text(hay) && is_ascii_text(needle) ==> (matches_ignoring_case(hay, needle)
        <==> contains_text(fold(hay), fold(needle)))
}

/// The characters of the lowercase form of `text`.
pub fn lowercase_chars(text: &str) -> (chars: Vec<char>)
    ensures
        chars@ == lowercased(text@),
        is_ascii_text(text@) ==> chars@ == fold(text@),
{
    let lower = lowercase(text);
    let n = lower.as_str().unicode_len();
    let mut chars: Vec<char> = Vec::new();
    let mut i: usize = 0;
    while i < n
        invariant
            i <= n,
            n == lower@.len(),
            chars@ == lower@.subrange(0, i as int),
        decreases n - i,
    {
        chars.push(lower.as_str().get_char(i));
        i += 1;
    }
    chars
}

fn occurs_here(hay: &Vec<char>, needle: &Vec<char>, at: usize) -> (found: bool)
    requires
        at + needle.len() <= hay.len(),
    ensures
        found == occurs_at(hay@, needle@, at as int),
{
    let m = needle.len();
    let mut k: usize = 0;
    while k < m
        invariant
            k <= m,
            m == needle.len(),
            at + m <= hay.len(),
            forall|j: int| 0 <= j < k ==> hay@[at + j] == needle@[j],
        decreases m - k,
    {
        if hay[at + k] != needle[k] {
            return false;
        }
        k += 1;
    }
    proof {
        assert(hay@.subrange(at as int, at + m) =~= needle@);
    }
    true
}

/// Case-insensitive substring test on two string slices.
pub fn contains_ignoring_case(hay: &str, needle: &str) -> (found: bool)
    ensures
        found == matches_ignoring_case(hay@, needle@),
        ascii_rule(hay@, needle@),
{
    let h = lowercase_chars(hay);
    let n = lowercase_chars(needle);
    if n.len() == 0 {
        proof {
            assert(h@.subrange(0, 0) =~= n@);
            assert(occurs_at(h@, n@, 0));
        }
        return true;
    }
    let mut at: usize = 0;
    while n.len() <= h.len() - at
        invariant
            at <= h.len(),
            n.len() > 0,
            h@ == lowercased(hay@),
            n@ == lowercased(needle@),
            is_ascii_text(hay@) ==> h@ == fold(hay@),
            is_ascii_text(needle@) ==> n@ == fold(needle@),
            forall|p: int| 0 <= p < at ==> !occurs_at(h@, n@, p),
        decreases h.len() - at,
    {
        if occurs_here(&h, &n, at) {
            return true;
        }
        at += 1;
    }
    false
}

/// The match takes no notice of letter case: two names with one lowercase
/// form match the same queries, and two queries with one lowercase form are
/// matched by the same names.
pub proof fn lemma_match_ignores_case(
    name: Seq<char>,
    other_name: Seq<char>,
    query: Seq<char>,
    other_query: Seq<char>,
)
    requires
        lowercased(name) == lowercased(other_name),
        lowercased(query) == lowercased(other_query),
    ensures
        matches_ignoring_case(name, query) == matches_ignoring_case(other_name, other_query),
{
}

/// A name that holds the query as a part of its lowercase form matches it.
pub proof fn lemma_part_matches(name: Seq<char>, query: Seq<char>, at: int)
    requires
        occurs_at(lowercased(name), lowercased(query), at),
    ensures
        matches_ignoring_case(name, query),
{
}

/// The character of one decimal digit.
pub open spec fn digit_char(d: int) -> char {
    if d == 0 {
        '0'
    } else if d == 1 {
        '1'
    } else if d == 2 {
        '2'
    } else if d == 3 {
        '3'
    } else if d == 4 {
        '4'
    } else if d == 5 {
        '5'
    } else if d == 6 {
        '6'
    } else if d == 7 {
        '7'
    } else if d == 8 {
        '8'
    } else {
        '9'
    }
}

/// The decimal digits of a natural number, without leading zeros.
pub open spec fn digits(n: nat) -> Seq<char>
    decreases n,
{
    if n < 10 {
        seq![digit_char(n as int)]
    } else {
        digits(n / 10).push(digit_char((n % 10) as int))
    }
}

/// The decimal notation of an integer.
pub open spec fn decimal(n: int) -> Seq<char> {
    if n < 0 {
        seq!['-'] + digits((-n) as nat)
    } else {
        digits(n as nat)
    }
}

fn digit_text(d: u32) -> (text: &'static str)
    requires
        d < 10,
    ensures
        text@ == seq![digit_char(d as int)],
{
    proof {
        reveal_strlit("0");
        reveal_strlit("1");
        reveal_strlit("2");
        reveal_strlit("3");
        reveal_strlit("4");
        reveal_strlit("5");
        reveal_strlit("6");
        reveal_strlit("7");
        reveal_strlit("8");
        reveal_strlit("9");
    }
    let text = if d == 0 {
        "0"
    } else if d == 1 {
        "1"
    } else if d == 2 {
        "2"
    } else if d == 3 {
        "3"
    } else if d == 4 {
        "4"
    } else if d == 5 {
        "5"
    } else if d == 6 {
        "6"
    } else if d == 7 {
        "7"
    } else if d == 8 {
        "8"
    } else {
        "9"
    };
    text
}

fn append_digits(n: u32, out: &mut String)
    ensures
        final(out)@ == old(out)@ + digits(n as nat),
    decreases n,
{
    if n >= 10 {
        append_digits(n / 10, out);
    }
    out.append(digit_text(n % 10));
}

/// The decimal notation of a number, as a string.
pub fn decimal_text(n: i32) -> (text: String)
    ensures
        text@ == decimal(n as int),
{
    let mut text = String::new();
    let magnitude: u32 = if n < 0 {
        proof {
            reveal_strlit("-");
        }
        text.append("-");
        (-(n as i64)) as u32
    } else {
        n as u32
    };
    append_digits(magnitude, &mut text);
    text
}

} // verus!
