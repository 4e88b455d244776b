//! Building source text.

use vstd::prelude::*;
use crate::tokens::views;

verus! {

/// Each piece followed by `suffix`, in order (what a repetition
/// `#(#piece,)*` writes).
pub open spec fn concat_each(pieces: Seq<Seq<char>>, suffix: Seq<char>) -> Seq<char>
    decreases pieces.len(),
{
    if pieces.len() == 0 {
        Seq::empty()
    } else {
        concat_each(pieces.drop_last(), suffix) + pieces.last() + suffix
    }
}

/// Appends one character to a string (`String::push`).
/// The std documentation states that `push` appends the given char to the end.
#[verifier::external_body]
pub(crate) fn push_char(s: &mut String, c: char)
    ensures
        final(s)@ == old(s)@.push(c),
{
    s.push(c);
}

/// What `str::to_uppercase` returns for a string: each character's
/// uppercase mapping, from the Unicode tables of the standard library.
pub uninterp spec fn str_upper(s: Seq<char>) -> Seq<char>;

/// The ASCII uppercase of a character: `a`..`z` become `A`..`Z`, every other
/// character stays.
pub open spec fn ascii_upper(c: char) -> char {
    if 'a' <= c <= 'z' {
        ((c as u32) - 32) as char
    } else {
        c
    }
}

/// The uppercase of a character as text: given outright for ASCII, by
/// [`str_upper`] beyond.
pub open spec fn upper_text(c: char) -> Seq<char> {
    if (c as u32) < 128 {
        seq![ascii_upper(c)]
    } else {
        str_upper(seq![c])
    }
}

/// `s.to_uppercase()`. The result is named [`str_upper`]; for a single
/// ASCII character the std documentation gives it: a lowercase ASCII letter
/// maps to its uppercase letter, any other ASCII character to itself.
#[verifier::external_body]
pub(crate) fn str_to_uppercase(s: &str) -> (res: String)
    ensures
        res@ == str_upper(s@),
        s@.len() == 1 && (s@[0] as u32) < 128 ==> res@ == seq![ascii_upper(s@[0])],
{
    s.to_uppercase()
}

/// The uppercase of a character, as text.
pub fn char_to_uppercase(c: char) -> (res: String)
    ensures
        res@ == upper_text(c),
{
    let mut one = String::new();
    push_char(&mut one, c);
    assert(one@ =~= seq![c]);
    str_to_uppercase(one.as_str())
}

/// A fresh string holding the characters of `s`.
pub fn string_of(s: &str) -> (res: String)
    ensures
        res@ == s@,
{
    let mut r = String::new();
    r.append(s);
    r
}

/// Appends every piece, each followed by `suffix`.
pub fn append_each(out: &mut String, pieces: &Vec<String>, suffix: &str)
    ensures
        final(out)@ == old(out)@ + concat_each(views(pieces@), suffix@),
{
    let n = pieces.len();
    let mut i: usize = 0;
    let ghost start = out@;
    while i < n
        invariant
            n == pieces@.len(),
            i <= n,
            out@ == start + concat_each(views(pieces@).take(i as int), suffix@),
            start == old(out)@,
        decreases n - i,
    {
        let ghost before = out@;
        out.append(pieces[i].as_str());
        out.append(suffix);
        proof {
            let vs = views(pieces@);
            assert(vs.take(i + 1).drop_last() =~= vs.take(i as int));
            assert(vs.take(i + 1).last() == pieces@[i as int]@);
            assert(out@ =~= start + concat_each(vs.take(i + 1), suffix@));
        }
        i = i + 1;
    }
    proof {
        assert(views(pieces@).take(n as int) =~= views(pieces@));
    }
}

/// `pat` occurs in `s` at position `i`.
pub open spec fn occurs_at(s: Seq<char>, pat: Seq<char>, i: int) -> bool {
    0 <= i && i + pat.len() <= s.len() && s.subrange(i, i + pat.len()) == pat
}

/// `pat` occurs somewhere in `s`.
pub open spec fn text_contains(s: Seq<char>, pat: Seq<char>) -> bool {
    exists|i: int| occurs_at(s, pat, i)
}

/// The characters of a string, one by one.
pub fn chars_of(s: &str) -> (res: Vec<char>)
    ensures
        res@ == s@,
{
    let n = s.unicode_len();
    let mut v: Vec<char> = Vec::new();
    for i in 0..n
        invariant
            n == s@.len(),
            v@ == s@.take(i as int),
    {
        v.push(s.get_char(i));
        assert(v@ =~= s@.take(i + 1));
    }
    assert(s@.take(n as int) =~= s@);
    v
}

/// Whether `pat` occurs in `s` (as `str::contains` with a string pattern).
pub fn contains_text(s: &str, pat: &str) -> (res: bool)
    ensures
        res == text_contains(s@, pat@),
{
    let a = chars_of(s);
    let b = chars_of(pat);
    let n = a.len();
    let m = b.len();
    if m > n {
        assert forall|i: int| !occurs_at(s@, pat@, i) by {}
        return false;
    }
    let mut i: usize = 0;
    while i <= n - m
        invariant
            a@ == s@,
            b@ == pat@,
            n == a@.len(),
            m == b@.len(),
            m <= n,
            i <= n - m + 1,
            forall|k: int| 0 <= k < i ==> !occurs_at(s@, pat@, k),
        decreases n - m + 1 - i,
    {
        let mut j: usize = 0;
        while j < m && a[i + j] == b[j]
            invariant
                a@ == s@,
                b@ == pat@,
                n == a@.len(),
                m == b@.len(),
                i + m <= n,
                j <= m,
                forall|k: int| 0 <= k < j ==> a@[i + k] == b@[k],
            decreases m - j,
        {
            j = j + 1;
        }
        if j == m {
            assert(s@.subrange(i as int, i + m) =~= pat@);
            assert(occurs_at(s@, pat@, i as int));
            return true;
        }
        assert(!occurs_at(s@, pat@, i as int)) by {
            if occurs_at(s@, pat@, i as int) {
                assert(s@.subrange(i as int, i + m)[j as int] == pat@[j as int]);
            }
        }
        i = i + 1;
    }
    assert forall|k: int| !occurs_at(s@, pat@, k) by {
        if occurs_at(s@, pat@, k) {
            assert(0 <= k < i);
        }
    }
    false
}

} // verus!
