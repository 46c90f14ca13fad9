//! Normalization of the text that a client sends.

use std::str::Chars;
use vstd::prelude::*;
use vstd::std_specs::iter::IteratorSpec;
use vstd::string::*;

verus! {

broadcast use vstd::string::group_string_axioms;

/// Whether `c` has the Unicode property White_Space, as
/// `char::is_whitespace` reports it.
pub uninterp spec fn white_space(c: char) -> bool;

/// `char::is_whitespace` of the standard library. Trusted: the result is
/// the White_Space property of `c`, which `white_space` names.
#[verifier::external_body]
fn is_whitespace(c: char) -> (blank: bool)
    ensures
        blank == white_space(c),
{
    c.is_whitespace()
}

/// `s` without the whitespace that it begins with.
pub open spec fn trim_start(s: Seq<char>) -> Seq<char>
    decreases s.len(),
{
    if s.len() > 0 && white_space(s[0]) {
        trim_start(s.drop_first())
    } else {
        s
    }
}

/// `s` without the whitespace that it ends with.
pub open spec fn trim_end(s: Seq<char>) -> Seq<char>
    decreases s.len(),
{
    if s.len() > 0 && white_space(s.last()) {
        trim_end(s.drop_last())
    } else {
        s
    }
}

/// `s` without the whitespace at either end.
pub open spec fn trimmed(s: Seq<char>) -> Seq<char> {
    trim_end(trim_start(s))
}

/// Stripping the front removes exactly the first `n` characters when these
/// are whitespace and the next one, if any, is not.
proof fn lemma_trim_start(s: Seq<char>, n: int)
    requires
        0 <= n <= s.len(),
        forall|k: int| 0 <= k < n ==> white_space(#[trigger] s[k]),
        n < s.len() ==> !white_space(s[n]),
    ensures
        trim_start(s) == s.subrange(n, s.len() as int),
    decreases n,
{
    if n == 0 {
        assert(s.subrange(0, s.len() as int) =~= s);
    } else {
        let rest = s.drop_first();
        assert(white_space(s[0]));
        assert forall|k: int| 0 <= k < n - 1 implies white_space(#[trigger] rest[k]) by {
            assert(rest[k] == s[k + 1]);
        }
        lemma_trim_start(rest, n - 1);
        assert(rest.subrange(n - 1, rest.len() as int) =~= s.subrange(n, s.len() as int));
    }
}

/// Stripping the back keeps exactly the first `n` characters when all
/// behind them are whitespace and the last of them, if any, is not.
proof fn lemma_trim_end(s: Seq<char>, n: int)
    requires
        0 <= n <= s.len(),
        forall|k: int| n <= k < s.len() ==> white_space(#[trigger] s[k]),
        n > 0 ==> !white_space(s[n - 1]),
    ensures
        trim_end(s) == s.subrange(0, n),
    decreases s.len() - n,
{
    if n == s.len() {
        assert(s.subrange(0, n) =~= s);
    } else {
        let rest = s.drop_last();
        assert(white_space(s.last()));
        assert forall|k: int| n <= k < rest.len() implies white_space(#[trigger] rest[k]) by {
            assert(rest[k] == s[k]);
        }
        lemma_trim_end(rest, n);
        assert(rest.subrange(0, n) =~= s.subrange(0, n));
    }
}

/// The text between the first and the last character of `s` that is not
/// whitespace is what trimming leaves of it.
proof fn lemma_trimmed_is_core(s: Seq<char>, start: int, end: int)
    requires
        0 <= start < end <= s.len(),
        forall|k: int| 0 <= k < start ==> white_space(#[trigger] s[k]),
        forall|k: int| end <= k < s.len() ==> white_space(#[trigger] s[k]),
        !white_space(s[start]),
        !white_space(s[end - 1]),
    ensures
        trimmed(s) == s.subrange(start, end),
{
    lemma_trim_start(s, start);
    let tail = s.subrange(start, s.len() as int);
    assert forall|k: int| end - start <= k < tail.len() implies white_space(
        #[trigger] tail[k],
    ) by {
        assert(tail[k] == s[k + start]);
    }
    assert(tail[end - start - 1] == s[end - 1]);
    lemma_trim_end(tail, end - start);
    assert(tail.subrange(0, end - start) =~= s.subrange(start, end));
}

/// A text made of whitespace alone trims to the empty text.
proof fn lemma_trimmed_of_blank(s: Seq<char>)
    requires
        forall|k: int| 0 <= k < s.len() ==> white_space(#[trigger] s[k]),
    ensures
        trimmed(s) == Seq::<char>::empty(),
{
    lemma_trim_start(s, s.len() as int);
    assert(s.subrange(s.len() as int, s.len() as int) =~= Seq::<char>::empty());
}

/// Returns `text` without its leading and trailing whitespace, where
/// whitespace is what Unicode gives the property White_Space (spaces, tabs
/// and newlines among it).
pub fn trim(text: &str) -> (out: String)
    ensures
        out@ == trimmed(text@),
{
    let len: usize = text.unicode_len();
    let mut chars: Chars<'_> = text.chars();
    let mut seen: bool = false;
    let mut start: usize = 0;
    let mut end: usize = 0;
    let mut i: usize = 0;
    while i < len
        invariant
            len == text@.len(),
            0 <= i <= len,
            chars.obeys_prophetic_iter_laws(),
            chars.remaining() == text@.subrange(i as int, len as int),
            !seen ==> forall|k: int| 0 <= k < i ==> white_space(#[trigger] text@[k]),
            seen ==> 0 <= start < end <= i,
            seen ==> !white_space(text@[start as int]) && !white_space(text@[end - 1]),
            seen ==> forall|k: int| 0 <= k < start ==> white_space(#[trigger] text@[k]),
            seen ==> forall|k: int| end <= k < i ==> white_space(#[trigger] text@[k]),
        decreases len - i,
    {
        let ghost before = chars.remaining();
        let next: Option<char> = chars.next();
        proof {
            assert(before[0] == text@[i as int]);
            assert(before.drop_first() =~= text@.subrange(i + 1, len as int));
        }
        match next {
            Some(c) => {
                if !is_whitespace(c) {
                    if !seen {
                        start = i;
                        seen = true;
                    }
                    end = i + 1;
                }
            },
            None => {},
        }
        i = i + 1;
    }
    if seen {
        proof {
            lemma_trimmed_is_core(text@, start as int, end as int);
        }
        text.substring_char(start, end).to_owned()
    } else {
        proof {
            lemma_trimmed_of_blank(text@);
        }
        String::new()
    }
}

} // verus!
