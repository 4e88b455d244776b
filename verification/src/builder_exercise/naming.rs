//! Turning `snake_case` field names into `CapitalizedWords`.

use vstd::prelude::*;
use crate::text::{ascii_upper, char_to_uppercase, push_char, upper_text};

verus! {

/// Each `_`-separated part of `s` with its first character uppercased, the
/// parts written one after the other (`at_start`: the next character opens a
/// part).
pub open spec fn capitalize_parts(s: Seq<char>, at_start: bool) -> Seq<char>
    decreases s.len(),
{
    if s.len() == 0 {
        Seq::empty()
    } else if s[0] == '_' {
        capitalize_parts(s.drop_first(), true)
    } else if at_start {
        upper_text(s[0]) + capitalize_parts(s.drop_first(), false)
    } else {
        seq![s[0]] + capitalize_parts(s.drop_first(), false)
    }
}

/// `roots_of` becomes `RootsOf`: the name split at every `_`, each part with
/// its first character uppercased, the parts joined.
pub open spec fn spec_snake_to_capitalized(name: Seq<char>) -> Seq<char> {
    capitalize_parts(name, true)
}

/// Every character is ASCII.
pub open spec fn is_ascii_text(s: Seq<char>) -> bool {
    forall|i: int| 0 <= i < s.len() ==> (#[trigger] s[i] as u32) < 128
}

/// Converts a `snake_case` name into `CapitalizedWords`.
pub fn snake_to_capitalized(name: String) -> (res: String)
    ensures
        res@ == spec_snake_to_capitalized(name@),
{
    let n = name.as_str().unicode_len();
    let mut out = String::new();
    let mut at_start = true;
    let mut i: usize = 0;
    assert(name@.skip(0) =~= name@);
    while i < n
        invariant
            n == name@.len(),
            i <= n,
            out@ + capitalize_parts(name@.skip(i as int), at_start) == capitalize_parts(name@, true),
        decreases n - i,
    {
        let c = name.as_str().get_char(i);
        let ghost rest = name@.skip(i as int);
        assert(rest.drop_first() =~= name@.skip(i + 1));
        assert(rest[0] == c);
        if c == '_' {
            at_start = true;
        } else if at_start {
            let u = char_to_uppercase(c);
            assert(u@ == upper_text(c));
            out.append(u.as_str());
            at_start = false;
        } else {
            push_char(&mut out, c);
        }
        i = i + 1;
    }
    assert(name@.skip(n as int) =~= Seq::<char>::empty());
    assert(out@ + Seq::<char>::empty() =~= out@);
    out
}

/// For ASCII input the parts keep to ASCII, lose every `_`, and a part that
/// opens the result starts with no lowercase ASCII letter.
proof fn lemma_capitalize_ascii(s: Seq<char>, at_start: bool)
    requires
        is_ascii_text(s),
    ensures
        is_ascii_text(capitalize_parts(s, at_start)),
        !capitalize_parts(s, at_start).contains('_'),
        at_start && capitalize_parts(s, at_start).len() > 0 ==> !('a' <= capitalize_parts(
            s,
            at_start,
        )[0] <= 'z'),
    decreases s.len(),
{
    if s.len() > 0 {
        let t = s.drop_first();
        assert(is_ascii_text(t)) by {
            assert forall|i: int| 0 <= i < t.len() implies (#[trigger] t[i] as u32) < 128 by {
                assert(t[i] == s[i + 1]);
            }
        }
        assert((s[0] as u32) < 128);
        if s[0] == '_' {
            lemma_capitalize_ascii(t, true);
        } else {
            lemma_capitalize_ascii(t, false);
            let head = if at_start { upper_text(s[0]) } else { seq![s[0]] };
            let r = capitalize_parts(s, at_start);
            assert(r == head + capitalize_parts(t, false));
            assert(head.len() == 1);
            assert(head[0] != '_');
            assert forall|i: int| 0 <= i < r.len() implies (#[trigger] r[i] as u32) < 128 by {
                if i > 0 {
                    assert(r[i] == capitalize_parts(t, false)[i - 1]);
                }
            }
            assert(!r.contains('_')) by {
                if r.contains('_') {
                    let k = choose|k: int| 0 <= k < r.len() && r[k] == '_';
                    if k > 0 {
                        assert(r[k] == capitalize_parts(t, false)[k - 1]);
                        assert(capitalize_parts(t, false).contains('_'));
                    }
                }
            }
        }
    }
}

/// Without any `_`, the parts of a string that does not open a part are the
/// string itself.
proof fn lemma_capitalize_no_underscore(s: Seq<char>)
    requires
        !s.contains('_'),
    ensures
        capitalize_parts(s, false) == s,
    decreases s.len(),
{
    if s.len() > 0 {
        let t = s.drop_first();
        assert(!t.contains('_')) by {
            if t.contains('_') {
                let k = choose|k: int| 0 <= k < t.len() && t[k] == '_';
                assert(s[k + 1] == '_');
            }
        }
        assert(s[0] != '_');
        lemma_capitalize_no_underscore(t);
        assert(seq![s[0]] + t =~= s);
    }
}

/// Capitalizing past a `_` starts a new part, whatever came before.
proof fn lemma_capitalize_join(a: Seq<char>, b: Seq<char>, at_start: bool)
    ensures
        capitalize_parts(a + seq!['_'] + b, at_start) == capitalize_parts(a, at_start) + capitalize_parts(b, true),
    decreases a.len(),
{
    if a.len() == 0 {
        assert(a + seq!['_'] + b =~= seq!['_'] + b);
        assert((seq!['_'] + b).drop_first() =~= b);
    } else {
        let rest = a.drop_first();
        assert((a + seq!['_'] + b).drop_first() =~= rest + seq!['_'] + b);
        assert((a + seq!['_'] + b)[0] == a[0]);
        if a[0] == '_' {
            lemma_capitalize_join(rest, b, true);
        } else {
            lemma_capitalize_join(rest, b, false);
        }
    }
}

/// A part without `_` keeps its characters, its first one uppercased.
proof fn lemma_capitalize_part(p: Seq<char>, at_start: bool)
    requires
        !p.contains('_'),
    ensures
        !at_start ==> capitalize_parts(p, at_start) == p,
        at_start && p.len() > 0 ==> capitalize_parts(p, at_start) == upper_text(p[0]) + p.drop_first(),
    decreases p.len(),
{
    if p.len() > 0 {
        let rest = p.drop_first();
        assert(!rest.contains('_')) by {
            if rest.contains('_') {
                let k = choose|k: int| 0 <= k < rest.len() && rest[k] == '_';
                assert(p[k + 1] == '_');
            }
        }
        assert(p[0] != '_') by {
            if p[0] == '_' {
                assert(p.contains('_'));
            }
        }
        lemma_capitalize_part(rest, false);
        assert(seq![p[0]] + rest =~= p);
    }
}

/// The name is cut at every `_` and each part is capitalized on its own:
/// capitalizing `a_b` gives the capitalized `a` followed by the capitalized
/// `b`; a part without `_` keeps its characters with the first one
/// uppercased (an ASCII lowercase letter becomes its capital).
pub proof fn snake_to_capitalized_capitalizes_each_part(a: Seq<char>, b: Seq<char>)
    ensures
        spec_snake_to_capitalized(a + seq!['_'] + b) == spec_snake_to_capitalized(a) + spec_snake_to_capitalized(b),
        !a.contains('_') && a.len() > 0 ==> spec_snake_to_capitalized(a) == upper_text(a[0]) + a.drop_first(),
        !a.contains('_') && a.len() > 0 && 'a' <= a[0] <= 'z' ==> spec_snake_to_capitalized(a)[0] == ((a[0] as u32) - 32) as char,
{
    lemma_capitalize_join(a, b, true);
    if !a.contains('_') && a.len() > 0 {
        lemma_capitalize_part(a, true);
    }
}

/// Capitalizing an ASCII name removes every `_`, and capitalizing the result
/// again changes nothing.
pub proof fn snake_to_capitalized_is_idempotent(name: Seq<char>)
    requires
        is_ascii_text(name),
    ensures
        !spec_snake_to_capitalized(name).contains('_'),
        spec_snake_to_capitalized(spec_snake_to_capitalized(name)) == spec_snake_to_capitalized(name),
{
    let r = spec_snake_to_capitalized(name);
    lemma_capitalize_ascii(name, true);
    if r.len() > 0 {
        let t = r.drop_first();
        assert(!t.contains('_')) by {
            if t.contains('_') {
                let k = choose|k: int| 0 <= k < t.len() && t[k] == '_';
                assert(r[k + 1] == '_');
            }
        }
        lemma_capitalize_no_underscore(t);
        assert(r[0] != '_');
        assert((r[0] as u32) < 128);
        assert(ascii_upper(r[0]) == r[0]);
        assert(capitalize_parts(r, true) == seq![r[0]] + capitalize_parts(t, false));
        assert(seq![r[0]] + t =~= r);
    } else {
        assert(capitalize_parts(r, true) == r);
    }
}

} // verus!
