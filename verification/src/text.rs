//! Verified helpers for text: equality of string slices, access to their
//! characters, and splitting at a separator that occurs exactly once.

use vstd::prelude::*;
use vstd::string::StringSliceAdditionalSpecFns;

verus! {

/// The length of a text and its first five characters.
///
/// Two texts with different outlines are different texts; the enumerations of
/// names and codes are told apart this way.
pub open spec fn outline(s: Seq<char>) -> (nat, char, char, char, char, char) {
    (s.len(), s[0], s[1], s[2], s[3], s[4])
}

/// Whether `c` is an ASCII letter.
pub open spec fn is_letter(c: char) -> bool {
    ('A' <= c && c <= 'Z') || ('a' <= c && c <= 'z')
}

/// Whether `s` is a plain code: one to four ASCII letters.
pub open spec fn is_plain_code(s: Seq<char>) -> bool {
    &&& 1 <= s.len() <= 4
    &&& forall|i: int| 0 <= i < s.len() ==> is_letter(#[trigger] s[i])
}

/// Whether `c` occurs in `s` at index `i` and nowhere else.
pub open spec fn is_sole_occurrence(s: Seq<char>, c: char, i: int) -> bool {
    &&& 0 <= i < s.len()
    &&& s[i] == c
    &&& forall|j: int| 0 <= j < s.len() && j != i ==> s[j] != c
}

/// `head`, then `sep`, then `tail`.
pub open spec fn joined(head: Seq<char>, sep: char, tail: Seq<char>) -> Seq<char> {
    head + seq![sep] + tail
}

/// Two texts with the same UTF-8 encoding are the same text.
pub proof fn lemma_equal_encoding_equal_text(a: Seq<char>, b: Seq<char>)
    requires
        vstd::utf8::encode_utf8(a) == vstd::utf8::encode_utf8(b),
    ensures
        a == b,
{
    vstd::utf8::encode_utf8_decode_utf8(a);
    vstd::utf8::encode_utf8_decode_utf8(b);
}

/// In a text joined from two parts that are free of the separator, the
/// separator stands exactly once, right after the first part.
pub proof fn lemma_joined_sole_occurrence(head: Seq<char>, sep: char, tail: Seq<char>)
    requires
        !head.contains(sep),
        !tail.contains(sep),
    ensures
        is_sole_occurrence(joined(head, sep, tail), sep, head.len() as int),
        joined(head, sep, tail).len() == head.len() + 1 + tail.len(),
        joined(head, sep, tail).subrange(0, head.len() as int) == head,
        joined(head, sep, tail).subrange(head.len() as int + 1, joined(head, sep, tail).len() as int)
            == tail,
{
    let s = joined(head, sep, tail);
    let n = head.len() as int;
    assert forall|j: int| 0 <= j < s.len() && j != n implies s[j] != sep by {
        if j < n {
            assert(s[j] == head[j]);
        } else {
            assert(s[j] == tail[j - n - 1]);
        }
    }
    assert(s.subrange(0, n) =~= head);
    assert(s.subrange(n + 1, s.len() as int) =~= tail);
}

/// A text in which the separator stands exactly once is joined from the part
/// before it and the part after it, and neither part holds the separator.
pub proof fn lemma_sole_occurrence_joined(s: Seq<char>, sep: char, i: int)
    requires
        is_sole_occurrence(s, sep, i),
    ensures
        s == joined(s.subrange(0, i), sep, s.subrange(i + 1, s.len() as int)),
        !s.subrange(0, i).contains(sep),
        !s.subrange(i + 1, s.len() as int).contains(sep),
{
    let head = s.subrange(0, i);
    let tail = s.subrange(i + 1, s.len() as int);
    assert(s =~= joined(head, sep, tail));
    assert forall|j: int| 0 <= j < head.len() implies head[j] != sep by {
        assert(head[j] == s[j]);
    }
    assert forall|j: int| 0 <= j < tail.len() implies tail[j] != sep by {
        assert(tail[j] == s[j + i + 1]);
    }
}

/// A text joined from two parts that are free of the separator is joined
/// from no other two parts.
pub proof fn lemma_joined_parts(
    head: Seq<char>,
    tail: Seq<char>,
    other_head: Seq<char>,
    other_tail: Seq<char>,
    sep: char,
)
    requires
        !head.contains(sep),
        !tail.contains(sep),
        joined(head, sep, tail) == joined(other_head, sep, other_tail),
    ensures
        head == other_head,
        tail == other_tail,
{
    let s = joined(head, sep, tail);
    lemma_joined_sole_occurrence(head, sep, tail);
    assert(joined(other_head, sep, other_tail)[other_head.len() as int] == sep);
    assert(head.len() == other_head.len());
    assert(s.subrange(0, head.len() as int) =~= other_head);
    assert(s.subrange(head.len() as int + 1, s.len() as int) =~= other_tail);
}

/// A plain code holds no hyphen.
pub proof fn lemma_plain_code_has_no_hyphen(s: Seq<char>)
    requires
        is_plain_code(s),
    ensures
        !s.contains('-'),
{
}

/// Whether two string slices hold the same characters.
pub fn str_eq(a: &str, b: &str) -> (same: bool)
    ensures
        same == (a@ == b@),
{
    let x = a.as_bytes();
    let y = b.as_bytes();
    if x.len() != y.len() {
        return false;
    }
    let mut i: usize = 0;
    while i < x.len()
        invariant
            i <= x.len(),
            x.len() == y.len(),
            x@ == a.spec_bytes(),
            y@ == b.spec_bytes(),
            forall|j: int| 0 <= j < i ==> x@[j] == y@[j],
        decreases x.len() - i,
    {
        if x[i] != y[i] {
            return false;
        }
        i += 1;
    }
    proof {
        assert(x@ =~= y@);
        lemma_equal_encoding_equal_text(a@, b@);
    }
    true
}

/// The characters of a string slice, in order.
pub fn to_chars(s: &str) -> (chars: Vec<char>)
    ensures
        chars@ == s@,
{
    let mut chars: Vec<char> = Vec::new();
    for c in it: s.chars()
        invariant
            it.seq() == s@,
            chars@ =~= s@.take(it.index()),
    {
        chars.push(c);
    }
    assert(chars@ =~= s@);
    chars
}

/// The index at which `sep` stands in `chars`, if it stands there exactly once.
pub fn find_sole(chars: &Vec<char>, sep: char) -> (found: Option<usize>)
    ensures
        match found {
            Some(i) => is_sole_occurrence(chars@, sep, i as int),
            None => forall|i: int| !is_sole_occurrence(chars@, sep, i),
        },
{
    let mut found: Option<usize> = None;
    let mut i: usize = 0;
    while i < chars.len()
        invariant
            i <= chars.len(),
            match found {
                Some(k) => k < i && chars@[k as int] == sep && forall|j: int|
                    0 <= j < i && j != k ==> chars@[j] != sep,
                None => forall|j: int| 0 <= j < i ==> chars@[j] != sep,
            },
        decreases chars.len() - i,
    {
        if chars[i] == sep {
            if found.is_some() {
                return None;
            }
            found = Some(i);
        }
        i += 1;
    }
    found
}

/// Splits `s` at `sep` where `sep` stands exactly once in it: the part before
/// and the part after. `None` where `sep` is absent or stands more than once.
pub fn split_at_sole<'a>(s: &'a str, sep: char) -> (parts: Option<(&'a str, &'a str)>)
    ensures
        match parts {
            Some((head, tail)) => {
                &&& s@ == joined(head@, sep, tail@)
                &&& !head@.contains(sep)
                &&& !tail@.contains(sep)
            },
            None => forall|i: int| !is_sole_occurrence(s@, sep, i),
        },
{
    let chars = to_chars(s);
    let n = chars.len();
    match find_sole(&chars, sep) {
        Some(i) => {
            let head = s.substring_char(0, i);
            let tail = s.substring_char(i + 1, n);
            proof {
                lemma_sole_occurrence_joined(s@, sep, i as int);
            }
            Some((head, tail))
        },
        None => None,
    }
}

} // verus!
