//! The argument extractor: finds the code inside a command's argument.
//!
//! An argument carries code in one of two quoted forms. The fenced form opens
//! and closes with three backticks, and its first line, up to and including
//! the first line break, names a language and is no part of the code. The
//! inline form opens and closes with one backtick. Anything else carries no
//! code: the argument is read as it stands, from its first character to its
//! last, and text that is not quoted is never taken for code.
//!
//! The fenced reading comes first. An argument whose opening fence is not
//! closed by a second fence of three backticks is read as inline, so the
//! two backticks behind the first then belong to the code.

use vstd::prelude::*;
use vstd::string::*;
use crate::text::{fence, lemma_first_occurrence};

verus! {

/// Whether `t` opens with a fence and closes with a second, separate one.
pub open spec fn is_fenced(t: Seq<char>) -> bool {
    &&& t.len() >= 6
    &&& t.subrange(0, 3) == fence()
    &&& t.subrange(t.len() - 3, t.len() as int) == fence()
}

/// Whether `t` opens with a backtick and closes with a second one.
pub open spec fn is_inline(t: Seq<char>) -> bool {
    &&& t.len() >= 2
    &&& t[0] == '`'
    &&& t[t.len() - 1] == '`'
}

/// What is left of the inside of a fenced block once its tag line is gone:
/// the text behind the first line break, or all of it where it has none.
pub open spec fn without_tag_line(inner: Seq<char>) -> Seq<char> {
    match inner.index_of_first('\n') {
        Some(k) => inner.skip(k + 1),
        None => inner,
    }
}

/// The code that the argument `t` carries, if any.
pub open spec fn extracted(t: Seq<char>) -> Option<Seq<char>> {
    if is_fenced(t) {
        Some(without_tag_line(t.subrange(3, t.len() - 3)))
    } else if is_inline(t) {
        Some(t.subrange(1, t.len() - 1))
    } else {
        None
    }
}

/// Drops the tag line of the inside of a fenced block.
pub fn strip_tag_line<'a>(inner: &'a str) -> (body: &'a str)
    ensures
        body@ == without_tag_line(inner@),
{
    let m = inner.unicode_len();
    let mut i: usize = 0;
    for c in it: inner.chars()
        invariant
            i == it.index(),
            it.seq() == inner@,
            m == inner@.len(),
            forall|j: int| 0 <= j < i ==> inner@[j] != '\n',
    {
        if c == '\n' {
            proof {
                lemma_first_occurrence(inner@, '\n', i as int);
            }
            return inner.substring_char(i + 1, m);
        }
        i = i + 1;
    }
    proof {
        inner@.index_of_first_ensures('\n');
    }
    inner
}

/// Finds the code in the argument of a command: a slice of the argument,
/// with the quoting and the tag line left out and everything between them
/// kept, or `None` where the argument is not quoted.
pub fn parse_code_arg<'a>(raw: &'a str) -> (code: Option<&'a str>)
    ensures
        code is Some <==> extracted(raw@) is Some,
        code is Some ==> code.unwrap()@ == extracted(raw@).unwrap(),
{
    let n = raw.unicode_len();
    if n < 2 {
        return None;
    }
    if raw.get_char(0) != '`' || raw.get_char(n - 1) != '`' {
        return None;
    }
    if n >= 6 && raw.get_char(1) == '`' && raw.get_char(2) == '`' && raw.get_char(n - 3) == '`'
        && raw.get_char(n - 2) == '`' {
        assert(raw@.subrange(0, 3) =~= fence());
        assert(raw@.subrange(n - 3, n as int) =~= fence());
        Some(strip_tag_line(raw.substring_char(3, n - 3)))
    } else {
        proof {
            if is_fenced(raw@) {
                assert(raw@.subrange(0, 3)[1] == '`');
                assert(raw@.subrange(0, 3)[2] == '`');
                assert(raw@.subrange(n - 3, n as int)[0] == '`');
                assert(raw@.subrange(n - 3, n as int)[1] == '`');
            }
        }
        Some(raw.substring_char(1, n - 1))
    }
}

/// Whether a character is white space.
pub open spec fn is_whitespace(c: char) -> bool {
    ||| '\u{9}' <= c <= '\u{d}'
    ||| c == ' '
    ||| c == '\u{85}'
    ||| c == '\u{a0}'
    ||| c == '\u{1680}'
    ||| '\u{2000}' <= c <= '\u{200a}'
    ||| c == '\u{2028}'
    ||| c == '\u{2029}'
    ||| c == '\u{202f}'
    ||| c == '\u{205f}'
    ||| c == '\u{3000}'
}

/// Whether `t` is empty or holds white space only.
pub open spec fn is_blank(t: Seq<char>) -> bool {
    forall|i: int| 0 <= i < t.len() ==> is_whitespace(#[trigger] t[i])
}

/// A fenced block with a tag line carries exactly what stands between the
/// tag line and the closing fence, line breaks and backticks included.
pub proof fn law_fenced_block_yields_body(tag: Seq<char>, body: Seq<char>)
    requires
        !tag.contains('\n'),
    ensures
        extracted(fence() + tag + seq!['\n'] + body + fence()) == Some(body),
{
    let t = fence() + tag + seq!['\n'] + body + fence();
    let inner = t.subrange(3, t.len() - 3);
    let k = tag.len() as int;
    assert(t.subrange(0, 3) =~= fence());
    assert(t.subrange(t.len() - 3, t.len() as int) =~= fence());
    assert(inner =~= tag + seq!['\n'] + body);
    assert forall|j: int| 0 <= j < k implies inner[j] != '\n' by {
        assert(tag.contains(tag[j]));
    }
    lemma_first_occurrence(inner, '\n', k);
    assert(inner.skip(k + 1) =~= body);
}

/// Code between two single backticks is carried as it is, unless the whole
/// reads as a fenced block.
pub proof fn law_inline_yields_body(body: Seq<char>)
    requires
        !is_fenced(seq!['`'] + body + seq!['`']),
    ensures
        extracted(seq!['`'] + body + seq!['`']) == Some(body),
{
    let t = seq!['`'] + body + seq!['`'];
    assert(t.subrange(1, t.len() - 1) =~= body);
}

/// An argument carries code exactly when it opens with a backtick and
/// closes with a second one.
pub proof fn law_code_needs_both_backticks(t: Seq<char>)
    ensures
        extracted(t) is Some <==> is_inline(t),
{
    if is_fenced(t) {
        assert(t[0] == t.subrange(0, 3)[0]);
        assert(t[t.len() - 1] == t.subrange(t.len() - 3, t.len() as int)[2]);
    }
}

/// An argument that is empty or holds white space only carries no code.
pub proof fn law_blank_yields_nothing(t: Seq<char>)
    requires
        is_blank(t),
    ensures
        extracted(t) is None,
{
    law_code_needs_both_backticks(t);
    if t.len() > 0 {
        assert(is_whitespace(t[0]));
    }
}

} // verus!
