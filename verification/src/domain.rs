//! The hostname grammar that the validator enforces.
//!
//! A domain is a dot-separated sequence of labels followed by a top-level
//! label. Labels are non-empty runs of lowercase ASCII letters and digits,
//! with single hyphens allowed between runs (never leading, trailing, or
//! doubled). The top-level label consists of at least two lowercase letters.

use vstd::prelude::*;

verus! {

/// A lowercase ASCII letter.
pub open spec fn is_lower(c: char) -> bool {
    'a' <= c && c <= 'z'
}

/// An ASCII digit.
pub open spec fn is_digit(c: char) -> bool {
    '0' <= c && c <= '9'
}

/// A character allowed inside a label: lowercase letter, digit, or hyphen.
pub open spec fn is_label_char(c: char) -> bool {
    is_lower(c) || is_digit(c) || c == '-'
}

/// Any character that may appear in a domain.
pub open spec fn is_domain_char(c: char) -> bool {
    is_label_char(c) || c == '.'
}

/// A separator character: never allowed at either end of the domain, nor
/// next to another separator.
pub open spec fn is_punct(c: char) -> bool {
    c == '-' || c == '.'
}

/// Index of the last dot in `s`, or -1 when `s` holds no dot.
pub open spec fn last_dot(s: Seq<char>) -> int
    decreases s.len(),
{
    if s.len() == 0 {
        -1
    } else if s[s.len() - 1] == '.' {
        s.len() - 1
    } else {
        last_dot(s.drop_last())
    }
}

/// The hostname grammar: every character is a domain character, no
/// separator stands at either end or next to another separator, at least
/// one dot occurs, and after the last dot stand at least two characters,
/// all lowercase letters.
pub open spec fn is_valid_domain(s: Seq<char>) -> bool {
    &&& s.len() > 0
    &&& forall|i: int| 0 <= i < s.len() ==> is_domain_char(#[trigger] s[i])
    &&& !is_punct(s[0])
    &&& !is_punct(s[s.len() - 1])
    &&& forall|i: int| 0 <= i < s.len() - 1 ==> !(is_punct(#[trigger] s[i]) && is_punct(s[i + 1]))
    &&& last_dot(s) >= 1
    &&& s.len() - last_dot(s) >= 3
    &&& forall|i: int| last_dot(s) < i < s.len() ==> is_lower(#[trigger] s[i])
}

/// `last_dot` points at a dot, and no dot follows it; when it is -1 there
/// is no dot at all.
proof fn lemma_last_dot(s: Seq<char>)
    ensures
        last_dot(s) == -1 ==> forall|i: int| 0 <= i < s.len() ==> s[i] != '.',
        last_dot(s) >= 0 ==> {
            &&& 0 <= last_dot(s) < s.len()
            &&& s[last_dot(s)] == '.'
            &&& forall|i: int| last_dot(s) < i < s.len() ==> s[i] != '.'
        },
    decreases s.len(),
{
    if s.len() == 0 {
    } else if s[s.len() - 1] == '.' {
    } else {
        lemma_last_dot(s.drop_last());
        assert(forall|i: int| 0 <= i < s.len() - 1 ==> s[i] == s.drop_last()[i]);
    }
}

/// A dot with no dot after it is the last dot.
proof fn lemma_last_dot_at(s: Seq<char>, d: int)
    requires
        0 <= d < s.len(),
        s[d] == '.',
        forall|i: int| d < i < s.len() ==> s[i] != '.',
    ensures
        last_dot(s) == d,
    decreases s.len(),
{
    if d == s.len() - 1 {
    } else {
        assert(s[s.len() - 1] != '.');
        assert(forall|i: int| 0 <= i < s.len() - 1 ==> s[i] == s.drop_last()[i]);
        lemma_last_dot_at(s.drop_last(), d);
    }
}

/// Checks a string against the hostname grammar.
pub fn domain_is_valid(s: &str) -> (r: bool)
    ensures
        r == is_valid_domain(s@),
{
    let n = s.unicode_len();
    if n == 0 {
        return false;
    }

    // One pass over the characters: check the character set and the
    // separator placement, and record the position of the last dot.
    let mut i: usize = 0;
    let mut prev_punct: bool = false;
    let mut dot_at: usize = 0;
    let mut seen_dot: bool = false;
    while i < n
        invariant
            n == s@.len(),
            0 < n,
            0 <= i <= n,
            forall|k: int| 0 <= k < i ==> is_domain_char(#[trigger] s@[k]),
            i > 0 ==> !is_punct(s@[0]),
            forall|k: int| 0 <= k < i - 1 ==> !(is_punct(#[trigger] s@[k]) && is_punct(s@[k + 1])),
            i > 0 ==> prev_punct == is_punct(s@[i - 1]),
            seen_dot ==> 0 <= dot_at < i && s@[dot_at as int] == '.',
            seen_dot ==> forall|k: int| dot_at < k < i ==> s@[k] != '.',
            !seen_dot ==> forall|k: int| 0 <= k < i ==> s@[k] != '.',
        decreases n - i,
    {
        let c = s.get_char(i);
        let lower = 'a' <= c && c <= 'z';
        let digit = '0' <= c && c <= '9';
        let hyphen = c == '-';
        let dot = c == '.';
        if !(lower || digit || hyphen || dot) {
            assert(!is_domain_char(s@[i as int]));
            return false;
        }
        let punct = hyphen || dot;
        if punct && (i == 0 || prev_punct) {
            return false;
        }
        if dot {
            dot_at = i;
            seen_dot = true;
        }
        prev_punct = punct;
        i = i + 1;
    }

    if prev_punct {
        assert(is_punct(s@[n - 1]));
        return false;
    }
    if !seen_dot {
        proof {
            lemma_last_dot(s@);
            if last_dot(s@) >= 0 {
                assert(s@[last_dot(s@)] == '.');
            }
        }
        return false;
    }

    proof {
        lemma_last_dot_at(s@, dot_at as int);
    }
    if dot_at == 0 || n - dot_at < 3 {
        return false;
    }

    // The top-level label: everything after the last dot must be a
    // lowercase letter.
    let mut j: usize = dot_at + 1;
    while j < n
        invariant
            n == s@.len(),
            0 < n,
            dot_at < j <= n,
            last_dot(s@) == dot_at,
            is_valid_domain(s@) <==> (forall|k: int| dot_at < k < n ==> is_lower(#[trigger] s@[k])),
            forall|k: int| dot_at < k < j ==> is_lower(#[trigger] s@[k]),
        decreases n - j,
    {
        let c = s.get_char(j);
        if !('a' <= c && c <= 'z') {
            assert(!is_lower(s@[j as int]));
            return false;
        }
        j = j + 1;
    }
    true
}

} // verus!
