//! Documentation comments: splitting into paragraphs and laying the
//! paragraphs out as indented lines.

use crate::text::{chars_of, join, lemma_join_many};
use vstd::prelude::*;
use vstd::string::*;

verus! {

/// Whether `text` starts with a paragraph break: two newlines in a row.
pub open spec fn starts_with_break(text: Seq<char>) -> bool {
    text.len() >= 2 && text[0] == '\n' && text[1] == '\n'
}

/// The paragraphs of a comment: the pieces between paragraph breaks, found
/// from left to right. There is always at least one paragraph; the empty
/// comment has one empty paragraph.
pub open spec fn paragraphs(text: Seq<char>) -> Seq<Seq<char>>
    decreases text.len(),
{
    if text.len() == 0 {
        seq![Seq::empty()]
    } else if starts_with_break(text) {
        seq![Seq::empty()] + paragraphs(text.skip(2))
    } else {
        let rest = paragraphs(text.drop_first());
        seq![seq![text[0]] + rest.first()] + rest.drop_first()
    }
}

/// A character of a paragraph as it is shown: a newline becomes a space.
pub open spec fn reflowed_char(c: char) -> char {
    if c == '\n' {
        ' '
    } else {
        c
    }
}

/// A paragraph brought onto one line: each of its newlines becomes a space.
pub open spec fn reflowed(paragraph: Seq<char>) -> Seq<char> {
    Seq::new(paragraph.len(), |i: int| reflowed_char(paragraph[i]))
}

/// The lines that a comment is shown as: its first paragraph alone where
/// the comment is truncated, else every paragraph, each on one line.
pub open spec fn comment_lines(text: Seq<char>, truncated: bool) -> Seq<Seq<char>> {
    let all = paragraphs(text);
    if truncated {
        seq![reflowed(all.first())]
    } else {
        Seq::new(all.len(), |i: int| reflowed(all[i]))
    }
}

/// The lines one after another, each behind `prefix` and closed by a newline.
pub open spec fn lines_text(lines: Seq<Seq<char>>, prefix: Seq<char>) -> Seq<char>
    decreases lines.len(),
{
    if lines.len() == 0 {
        Seq::empty()
    } else {
        prefix + lines.first() + seq!['\n'] + lines_text(lines.drop_first(), prefix)
    }
}

/// The text of a comment whose lines start with `prefix`.
pub open spec fn comment_text(text: Seq<char>, truncated: bool, prefix: Seq<char>) -> Seq<char> {
    lines_text(comment_lines(text, truncated), prefix)
}

/// What is still to come of a comment's text when `text` lies ahead and the
/// line in progress already has its prefix.
spec fn remaining_text(text: Seq<char>, truncated: bool, prefix: Seq<char>) -> Seq<char>
    decreases text.len(),
{
    if text.len() == 0 {
        seq!['\n']
    } else if starts_with_break(text) {
        if truncated {
            seq!['\n']
        } else {
            seq!['\n'] + prefix + remaining_text(text.skip(2), truncated, prefix)
        }
    } else {
        seq![reflowed_char(text[0])] + remaining_text(text.drop_first(), truncated, prefix)
    }
}

/// A comment always has a first paragraph.
pub proof fn lemma_paragraphs_nonempty(text: Seq<char>)
    ensures
        paragraphs(text).len() >= 1,
    decreases text.len(),
{
    if text.len() > 0 && !starts_with_break(text) {
        lemma_paragraphs_nonempty(text.drop_first());
    }
}

/// A comment without a paragraph break is one paragraph: the whole comment.
pub proof fn lemma_single_paragraph(text: Seq<char>)
    requires
        forall|i: int| 0 <= i < text.len() ==> !starts_with_break(#[trigger] text.skip(i)),
    ensures
        paragraphs(text) == seq![text],
    decreases text.len(),
{
    if text.len() == 0 {
        assert(text == Seq::<char>::empty());
    } else {
        assert(text.skip(0) == text);
        let rest = text.drop_first();
        assert forall|i: int| 0 <= i < rest.len() implies !starts_with_break(
            #[trigger] rest.skip(i),
        ) by {
            assert(rest.skip(i) == text.skip(i + 1));
        }
        lemma_single_paragraph(rest);
        assert(seq![text[0]] + rest == text);
    }
}

/// The paragraphs of a comment, joined with a paragraph break between each
/// two neighbours, are the comment.
pub proof fn lemma_paragraphs_rejoin(text: Seq<char>)
    ensures
        join(paragraphs(text), seq!['\n', '\n']) == text,
    decreases text.len(),
{
    let sep = seq!['\n', '\n'];
    let all = paragraphs(text);
    if text.len() == 0 {
    } else if starts_with_break(text) {
        let after = paragraphs(text.skip(2));
        lemma_paragraphs_nonempty(text.skip(2));
        lemma_paragraphs_rejoin(text.skip(2));
        lemma_join_many(all, sep);
        assert(all.drop_first() == after);
        assert(Seq::<char>::empty() + sep + text.skip(2) == text);
    } else {
        let rest = paragraphs(text.drop_first());
        lemma_paragraphs_nonempty(text.drop_first());
        lemma_paragraphs_rejoin(text.drop_first());
        if rest.len() == 1 {
            assert(rest.drop_first() == Seq::<Seq<char>>::empty());
            assert(all == seq![seq![text[0]] + rest.first()]);
        } else {
            lemma_join_many(rest, sep);
            lemma_join_many(all, sep);
            assert(all.drop_first() == rest.drop_first());
            assert(join(all, sep) == seq![text[0]] + (rest.first() + sep + join(
                rest.drop_first(),
                sep,
            )));
        }
        assert(seq![text[0]] + text.drop_first() == text);
    }
}

/// The first paragraph of a comment is a prefix of the comment.
proof fn lemma_first_paragraph_is_prefix(text: Seq<char>)
    ensures
        paragraphs(text).len() >= 1,
        paragraphs(text).first().len() <= text.len(),
        paragraphs(text).first() == text.take(paragraphs(text).first().len() as int),
    decreases text.len(),
{
    if text.len() > 0 && !starts_with_break(text) {
        lemma_first_paragraph_is_prefix(text.drop_first());
        let rest_first = paragraphs(text.drop_first()).first();
        assert(seq![text[0]] + text.drop_first().take(rest_first.len() as int) == text.take(
            rest_first.len() as int + 1,
        ));
    }
}

/// No paragraph of a comment holds a paragraph break.
pub proof fn lemma_paragraph_has_no_break(text: Seq<char>, k: int, i: int)
    requires
        0 <= k < paragraphs(text).len(),
        0 <= i <= paragraphs(text)[k].len(),
    ensures
        !starts_with_break(paragraphs(text)[k].skip(i)),
    decreases text.len(),
{
    let all = paragraphs(text);
    if text.len() == 0 {
    } else if starts_with_break(text) {
        if k > 0 {
            assert(all[k] == paragraphs(text.skip(2))[k - 1]);
            lemma_paragraph_has_no_break(text.skip(2), k - 1, i);
        }
    } else {
        let rest = text.drop_first();
        lemma_paragraphs_nonempty(rest);
        if k > 0 {
            assert(all[k] == paragraphs(rest)[k]);
            lemma_paragraph_has_no_break(rest, k, i);
        } else {
            let rest_first = paragraphs(rest).first();
            let first = seq![text[0]] + rest_first;
            assert(all[0] == first);
            if i > 0 {
                lemma_paragraph_has_no_break(rest, 0, i - 1);
                assert(first.skip(i) == rest_first.skip(i - 1));
            } else if rest_first.len() > 0 {
                // The paragraph goes on with the next character of the
                // comment, and the comment has no break here.
                lemma_first_paragraph_is_prefix(rest);
                assert(first.skip(0) == first);
                assert(first[1] == rest_first[0]);
                assert(rest_first[0] == text[1]);
            }
        }
    }
}

/// A truncated comment is the first line of the whole comment: the whole
/// comment is the truncated one followed by the lines of the paragraphs after
/// the first.
pub proof fn lemma_truncated_is_first_line(text: Seq<char>, prefix: Seq<char>)
    ensures
        comment_text(text, true, prefix) == prefix + reflowed(paragraphs(text).first()) + seq![
            '\n',
        ],
        comment_text(text, false, prefix) == comment_text(text, true, prefix) + lines_text(
            comment_lines(text, false).drop_first(),
            prefix,
        ),
{
    lemma_paragraphs_nonempty(text);
    let first = reflowed(paragraphs(text).first());
    assert(seq![first].drop_first() == Seq::<Seq<char>>::empty());
    assert(lines_text(seq![first], prefix) == prefix + first + seq!['\n'] + lines_text(
        Seq::<Seq<char>>::empty(),
        prefix,
    ));
}

/// The text of a comment is the prefix of its first line and what is still
/// to come when the whole comment lies ahead.
proof fn lemma_comment_text_unfold(text: Seq<char>, truncated: bool, prefix: Seq<char>)
    ensures
        comment_text(text, truncated, prefix) == prefix + remaining_text(text, truncated, prefix),
    decreases text.len(),
{
    let lines = comment_lines(text, truncated);
    lemma_paragraphs_nonempty(text);
    assert(lines_text(Seq::<Seq<char>>::empty(), prefix) == Seq::<char>::empty());
    if text.len() == 0 {
        assert(lines.drop_first() == Seq::<Seq<char>>::empty());
    } else if starts_with_break(text) {
        let after = text.skip(2);
        lemma_paragraphs_nonempty(after);
        lemma_comment_text_unfold(after, truncated, prefix);
        if truncated {
            assert(lines.drop_first() == Seq::<Seq<char>>::empty());
        } else {
            assert(lines.drop_first() == comment_lines(after, truncated));
        }
    } else {
        let rest = text.drop_first();
        lemma_paragraphs_nonempty(rest);
        lemma_comment_text_unfold(rest, truncated, prefix);
        let rest_lines = comment_lines(rest, truncated);
        assert(lines.first() == seq![reflowed_char(text[0])] + rest_lines.first());
        assert(lines.drop_first() == rest_lines.drop_first());
        // The text of the rest is the prefix and what remains of the rest;
        // taking the prefix away from both leaves the line in progress.
        let tail = rest_lines.first() + seq!['\n'] + lines_text(rest_lines.drop_first(), prefix);
        let other = remaining_text(rest, truncated, prefix);
        assert(prefix + tail == prefix + other);
        assert((prefix + tail).skip(prefix.len() as int) == tail);
        assert((prefix + other).skip(prefix.len() as int) == other);
    }
}

/// The text of a comment: each shown paragraph on a line of its own behind
/// `prefix`. A truncated comment shows its first paragraph only.
pub fn render_comment(jsdoc: &str, truncated: bool, prefix: &str) -> (out: String)
    ensures
        out@ == comment_text(jsdoc@, truncated, prefix@),
{
    let chars = chars_of(jsdoc);
    let mut out = String::from_str(prefix);
    let mut i: usize = 0;
    proof {
        lemma_comment_text_unfold(jsdoc@, truncated, prefix@);
        assert(chars@.skip(0) == chars@);
    }
    while i < chars.len()
        invariant
            i <= chars.len(),
            chars@ == jsdoc@,
            comment_text(jsdoc@, truncated, prefix@) == out@ + remaining_text(
                chars@.skip(i as int),
                truncated,
                prefix@,
            ),
        decreases chars.len() - i,
    {
        let ghost ahead = chars@.skip(i as int);
        let c = chars[i];
        if c == '\n' && i + 1 < chars.len() && chars[i + 1] == '\n' {
            proof {
                assert(ahead.skip(2) == chars@.skip(i + 2));
            }
            out.push('\n');
            if truncated {
                return out;
            }
            out.append(prefix);
            i += 2;
        } else {
            proof {
                assert(ahead.drop_first() == chars@.skip(i + 1));
            }
            if c == '\n' {
                out.push(' ');
            } else {
                out.push(c);
            }
            i += 1;
        }
    }
    out.push('\n');
    out
}

} // verus!
