//! Recognition of e-mail addresses: the pattern
//! `[a-zA-Z0-9._%+-]+@[a-zA-Z0-9.-]+\.[a-zA-Z]{1,}` searched anywhere in a text.

use vstd::prelude::*;

verus! {

/// ASCII letter.
pub open spec fn is_letter(c: char) -> bool {
    ('a' <= c && c <= 'z') || ('A' <= c && c <= 'Z')
}

/// ASCII letter or digit.
pub open spec fn is_alphanumeric(c: char) -> bool {
    is_letter(c) || ('0' <= c && c <= '9')
}

/// A character of the part before `@`: `[a-zA-Z0-9._%+-]`.
pub open spec fn is_local_char(c: char) -> bool {
    is_alphanumeric(c) || c == '.' || c == '_' || c == '%' || c == '+' || c == '-'
}

/// A character of the domain before its last label: `[a-zA-Z0-9.-]`.
pub open spec fn is_domain_char(c: char) -> bool {
    is_alphanumeric(c) || c == '.' || c == '-'
}

/// Whether the whole of `w` is an address: one or more local characters,
/// `@`, one or more domain characters, `.`, and one or more letters.
pub open spec fn is_email_address(w: Seq<char>) -> bool {
    exists|a: int, b: int|
        #![trigger w[a], w[b]]
        0 < a && a + 1 < b && b + 1 < w.len() && w[a] == '@' && w[b] == '.' && (forall|t: int|
            0 <= t < a ==> is_local_char(#[trigger] w[t])) && (forall|t: int|
            a < t < b ==> is_domain_char(#[trigger] w[t])) && (forall|t: int|
            b < t < w.len() ==> is_letter(#[trigger] w[t]))
}

/// Whether some part of `text` is an address.
pub open spec fn contains_email(text: Seq<char>) -> bool {
    exists|i: int, j: int| 0 <= i <= j <= text.len() && #[trigger] is_email_address(text.subrange(i, j))
}

/// The shortest address around `@` at `k` and the dot at `m`.
pub open spec fn short_match_at(w: Seq<char>, k: int, m: int) -> bool {
    &&& 1 <= k
    &&& k + 2 <= m
    &&& m + 1 < w.len()
    &&& w[k] == '@'
    &&& is_local_char(w[k - 1])
    &&& forall|t: int| k < t < m ==> is_domain_char(#[trigger] w[t])
    &&& w[m] == '.'
    &&& is_letter(w[m + 1])
}

proof fn lemma_short_match_is_match(w: Seq<char>, k: int, m: int)
    requires
        short_match_at(w, k, m),
    ensures
        contains_email(w),
{
    let sub = w.subrange(k - 1, m + 2);
    assert(sub[1] == '@' && sub[m - k + 1] == '.');
    assert forall|t: int| 0 <= t < 1 implies is_local_char(#[trigger] sub[t]) by {}
    assert forall|t: int| 1 < t < m - k + 1 implies is_domain_char(#[trigger] sub[t]) by {
        assert(sub[t] == w[k - 1 + t]);
    }
    assert forall|t: int| m - k + 1 < t < sub.len() implies is_letter(#[trigger] sub[t]) by {
        assert(sub[t] == w[m + 1]);
    }
    assert(is_email_address(sub));
}

proof fn lemma_match_has_short_match(w: Seq<char>)
    requires
        contains_email(w),
    ensures
        exists|k: int, m: int| short_match_at(w, k, m),
{
    let (i, j) = choose|i: int, j: int|
        0 <= i <= j <= w.len() && #[trigger] is_email_address(w.subrange(i, j));
    let sub = w.subrange(i, j);
    let (a, b) = choose|a: int, b: int|
        #![trigger sub[a], sub[b]]
        0 < a && a + 1 < b && b + 1 < sub.len() && sub[a] == '@' && sub[b] == '.' && (forall|
            t: int,
        | 0 <= t < a ==> is_local_char(#[trigger] sub[t])) && (forall|t: int|
            a < t < b ==> is_domain_char(#[trigger] sub[t])) && (forall|t: int|
            b < t < sub.len() ==> is_letter(#[trigger] sub[t]));
    let k = i + a;
    let m = i + b;
    assert(sub[a - 1] == w[k - 1]);
    assert(sub[b + 1] == w[m + 1]);
    assert forall|t: int| k < t < m implies is_domain_char(#[trigger] w[t]) by {
        assert(sub[t - i] == w[t]);
    }
    assert(short_match_at(w, k, m));
}

/// A text holds an address exactly when somewhere in it a local character
/// is followed by `@`, at least one domain character, `.` and a letter; in
/// particular it then holds an `@` with a `.` at least two places after it.
pub proof fn lemma_contains_email_iff(w: Seq<char>)
    ensures
        contains_email(w) <==> exists|k: int, m: int| short_match_at(w, k, m),
        contains_email(w) ==> exists|k: int, m: int|
            1 <= k && k + 2 <= m && m + 1 < w.len() && #[trigger] w[k] == '@' && #[trigger] w[m] == '.',
{
    if contains_email(w) {
        lemma_match_has_short_match(w);
        let (k, m) = choose|k: int, m: int| short_match_at(w, k, m);
        assert(w[k] == '@' && w[m] == '.');
    }
    if exists|k: int, m: int| short_match_at(w, k, m) {
        let (k, m) = choose|k: int, m: int| short_match_at(w, k, m);
        lemma_short_match_is_match(w, k, m);
    }
}

/// The e-mail address pattern.
pub struct EmailRegex {}

/// The pattern that sign-up uses to accept an e-mail address.
pub fn email_regex() -> (res: EmailRegex) {
    EmailRegex {  }
}

fn local_char(c: char) -> (res: bool)
    ensures
        res == is_local_char(c),
{
    ('a' <= c && c <= 'z') || ('A' <= c && c <= 'Z') || ('0' <= c && c <= '9') || c == '.' || c
        == '_' || c == '%' || c == '+' || c == '-'
}

fn domain_char(c: char) -> (res: bool)
    ensures
        res == is_domain_char(c),
{
    ('a' <= c && c <= 'z') || ('A' <= c && c <= 'Z') || ('0' <= c && c <= '9') || c == '.' || c
        == '-'
}

fn letter(c: char) -> (res: bool)
    ensures
        res == is_letter(c),
{
    ('a' <= c && c <= 'z') || ('A' <= c && c <= 'Z')
}

/// The characters of `text`, in order.
fn chars_of(text: &str) -> (res: Vec<char>)
    ensures
        res@ == text@,
{
    let mut res: Vec<char> = Vec::new();
    for c in it: text.chars()
        invariant
            res@ == it.seq().take(it.index() as int),
    {
        res.push(c);
    }
    res
}

/// Whether some part of `w` is an address.
fn has_email(w: &Vec<char>) -> (res: bool)
    ensures
        res == contains_email(w@),
{
    let n = w.len();
    let mut k: usize = 1;
    while k < n
        invariant
            n == w@.len(),
            1 <= k,
            forall|k2: int, m: int| 1 <= k2 < k ==> !short_match_at(w@, k2, m),
        decreases n - k,
    {
        if w[k] == '@' && local_char(w[k - 1]) {
            let mut m: usize = k + 1;
            while m < n && domain_char(w[m])
                invariant
                    n == w@.len(),
                    1 <= k < n,
                    w@[k as int] == '@',
                    is_local_char(w@[k - 1]),
                    k + 1 <= m <= n,
                    forall|t: int| k < t < m ==> is_domain_char(#[trigger] w@[t]),
                    forall|m2: int| m2 < m ==> !short_match_at(w@, k as int, m2),
                decreases n - m,
            {
                if w[m] == '.' && m >= k + 2 && m + 1 < n && letter(w[m + 1]) {
                    proof {
                        assert(short_match_at(w@, k as int, m as int));
                        lemma_short_match_is_match(w@, k as int, m as int);
                    }
                    return true;
                }
                m = m + 1;
            }
            assert forall|m2: int| !short_match_at(w@, k as int, m2) by {
                if m2 >= m && short_match_at(w@, k as int, m2) {
                    if m2 > m {
                        assert(is_domain_char(w@[m as int]));
                    } else {
                        assert(w@[m as int] == '.');
                    }
                }
            }
        }
        k = k + 1;
    }
    proof {
        if contains_email(w@) {
            lemma_match_has_short_match(w@);
            let (k2, m2) = choose|k2: int, m2: int| short_match_at(w@, k2, m2);
            assert(!short_match_at(w@, k2, m2));
        }
    }
    false
}

impl EmailRegex {
    /// Whether some part of `text` is an e-mail address.
    pub fn is_match(&self, text: &str) -> (res: bool)
        ensures
            res == contains_email(text@),
    {
        let w = chars_of(text);
        has_email(&w)
    }
}

} // verus!
