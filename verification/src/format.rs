//! The output formatter: renders what a run printed as one chat message.
//!
//! Output that fits is shown whole inside a fenced block. Longer output is
//! cut, marked with an ellipsis, and followed by a link to the playground
//! that carries the program, so that the reader can run it there.

use vstd::prelude::*;
use vstd::string::*;
use vstd::utf8::*;
use crate::link::{form_encode, lemma_encoded_chars, lemma_link_query, link_text, playground_link};
use crate::text::fence;

verus! {

/// The number of characters that a chat message may hold.
pub const MESSAGE_LIMIT: usize = 2000;

/// The longest output that is shown whole: the limit less the two fences.
pub const INLINE_LIMIT: usize = 1994;

/// What the cut output and the link may hold together: the limit less the
/// two fences and the ellipsis.
pub const CUT_BUDGET: usize = 1991;

/// The mark that stands where output was cut.
pub open spec fn ellipsis() -> Seq<char> {
    seq!['.', '.', '.']
}

/// How many characters of the output are shown beside a link of
/// `link_len` characters: what the link leaves of the budget, and nothing
/// where the link alone exceeds it.
pub open spec fn kept_len(link_len: nat) -> nat {
    if link_len >= CUT_BUDGET {
        0
    } else {
        (CUT_BUDGET - link_len) as nat
    }
}

/// The message for the output of the program `code`.
pub open spec fn formatted(output: Seq<char>, code: Seq<char>) -> Seq<char> {
    if output.len() <= INLINE_LIMIT {
        fence() + output + fence()
    } else {
        let link = link_text(code);
        fence() + output.take(kept_len(link.len()) as int) + ellipsis() + fence() + link
    }
}

/// Renders the output of the program `code` as a message.
pub fn format_code_output(output: &str, code: &str) -> (message: String)
    ensures
        message@ == formatted(output@, code@),
{
    proof {
        reveal_strlit("```");
        reveal_strlit("...```");
    }
    let len = output.unicode_len();
    let mut message = String::from_str("```");
    assert(message@ =~= fence());
    if len > INLINE_LIMIT {
        let link = playground_link(code);
        let link_len = link.as_str().unicode_len();
        let keep: usize = if link_len >= CUT_BUDGET {
            0
        } else {
            CUT_BUDGET - link_len
        };
        message.append(output.substring_char(0, keep));
        message.append("...```");
        message.append(link.as_str());
        assert("...```"@ =~= ellipsis() + fence());
        assert(message@ =~= formatted(output@, code@));
    } else {
        message.append(output);
        message.append("```");
        assert("```"@ =~= fence());
    }
    message
}

/// Output that fits is shown whole between two fences, with no link.
pub proof fn law_short_output_is_fenced(output: Seq<char>, code: Seq<char>)
    requires
        output.len() <= INLINE_LIMIT,
    ensures
        formatted(output, code) == fence() + output + fence(),
        formatted(output, code).len() == output.len() + 6,
        formatted(output, code).len() <= MESSAGE_LIMIT,
{
}

/// Longer output is cut to what the link leaves of the budget, never to
/// less than nothing, and the link closes the message. Where the link is
/// within the budget the message fills the limit exactly; where it is not,
/// the message is the empty block and the link.
pub proof fn law_long_output_is_cut(output: Seq<char>, code: Seq<char>)
    requires
        output.len() > INLINE_LIMIT,
    ensures
        ({
            let link = link_text(code);
            let shown = output.take(kept_len(link.len()) as int);
            &&& formatted(output, code) == fence() + shown + ellipsis() + fence() + link
            &&& shown.len() == kept_len(link.len())
            &&& kept_len(link.len()) == if CUT_BUDGET - link.len() >= 0 {
                CUT_BUDGET - link.len()
            } else {
                0
            }
            &&& formatted(output, code).len() == 9 + shown.len() + link.len()
            &&& link.len() <= CUT_BUDGET ==> formatted(output, code).len() == MESSAGE_LIMIT
            &&& link.len() > CUT_BUDGET ==> shown.len() == 0 && formatted(output, code).len()
                > MESSAGE_LIMIT
        }),
{
}

/// A message stays within the limit whenever the program's UTF-8 encoding
/// has at most 653 bytes, whatever the output: the link then has at most
/// 1991 characters.
pub proof fn law_message_within_limit(output: Seq<char>, code: Seq<char>)
    requires
        encode_utf8(code).len() <= 653,
    ensures
        link_text(code).len() <= CUT_BUDGET,
        formatted(output, code).len() <= MESSAGE_LIMIT,
{
    lemma_link_query(code);
    lemma_encoded_chars(encode_utf8(code));
    if output.len() > INLINE_LIMIT {
        law_long_output_is_cut(output, code);
    }
}

} // verus!
