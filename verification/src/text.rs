//! Building blocks for the rendered text: indentation, joining with a
//! separator, decimal numbers, and access to the characters of a string.

use vstd::prelude::*;

verus! {

/// `String::push` of the standard library appends one character to the end
/// of the string and leaves the rest as it was.
pub assume_specification[ std::string::String::push ](s: &mut std::string::String, ch: char)
    ensures
        final(s)@ == old(s)@.push(ch),
;

/// The text that indents a line at `depth`: two spaces for each level, and
/// nothing for a depth of zero or less.
pub open spec fn indent_text(depth: int) -> Seq<char> {
    Seq::new(
        if depth > 0 {
            (2 * depth) as nat
        } else {
            0
        },
        |i: int| ' ',
    )
}

/// The parts one after another, with nothing between them.
pub open spec fn concat(parts: Seq<Seq<char>>) -> Seq<char>
    decreases parts.len(),
{
    if parts.len() == 0 {
        Seq::empty()
    } else {
        concat(parts.drop_last()) + parts.last()
    }
}

/// The parts one after another with `sep` between each two neighbours: no
/// separator before the first part and none after the last.
pub open spec fn join(parts: Seq<Seq<char>>, sep: Seq<char>) -> Seq<char>
    decreases parts.len(),
{
    if parts.len() == 0 {
        Seq::empty()
    } else if parts.len() == 1 {
        parts[0]
    } else {
        join(parts.drop_last(), sep) + sep + parts.last()
    }
}

/// Every part followed by `sep`, the separator after the last part included.
pub open spec fn terminated(parts: Seq<Seq<char>>, sep: Seq<char>) -> Seq<char>
    decreases parts.len(),
{
    if parts.len() == 0 {
        Seq::empty()
    } else {
        terminated(parts.drop_last(), sep) + parts.last() + sep
    }
}

/// The character that stands for the decimal digit `d`.
pub open spec fn digit_char(d: int) -> char {
    if d == 0 {
        '0'
    } else if d == 1 {
        '1'
    } else if d == 2 {
        '2'
    } else if d == 3 {
        '3'
    } else if d == 4 {
        '4'
    } else if d == 5 {
        '5'
    } else if d == 6 {
        '6'
    } else if d == 7 {
        '7'
    } else if d == 8 {
        '8'
    } else {
        '9'
    }
}

/// The decimal digits of `n`, most significant first, without leading zeros
/// (`0` itself is the single digit `0`).
pub open spec fn decimal_text(n: nat) -> Seq<char>
    decreases n,
{
    if n < 10 {
        seq![digit_char(n as int)]
    } else {
        decimal_text(n / 10).push(digit_char((n % 10) as int))
    }
}

/// The decimal form of an integer: a minus sign for a negative number, then
/// the digits of its magnitude.
pub open spec fn signed_decimal_text(n: int) -> Seq<char> {
    if n < 0 {
        seq!['-'] + decimal_text((-n) as nat)
    } else {
        decimal_text(n as nat)
    }
}

/// Joining no parts gives the empty text.
pub proof fn lemma_join_empty(sep: Seq<char>)
    ensures
        join(Seq::<Seq<char>>::empty(), sep) == Seq::<char>::empty(),
{
}

/// Joining one part gives that part, with no separator at all.
pub proof fn lemma_join_single(part: Seq<char>, sep: Seq<char>)
    ensures
        join(seq![part], sep) == part,
{
}

/// Joining two runs of parts, neither of them empty, is joining each run and
/// putting one separator between the two results.
pub proof fn lemma_join_split(a: Seq<Seq<char>>, b: Seq<Seq<char>>, sep: Seq<char>)
    requires
        a.len() > 0,
        b.len() > 0,
    ensures
        join(a + b, sep) == join(a, sep) + sep + join(b, sep),
    decreases b.len(),
{
    if b.len() == 1 {
        assert((a + b).drop_last() == a);
    } else {
        lemma_join_split(a, b.drop_last(), sep);
        assert((a + b).drop_last() == a + b.drop_last());
    }
}

/// Joining two or more parts starts with the first part and ends with the
/// last one: the separator stands only between neighbours.
pub proof fn lemma_join_many(parts: Seq<Seq<char>>, sep: Seq<char>)
    requires
        parts.len() >= 2,
    ensures
        join(parts, sep) == parts.first() + sep + join(parts.drop_first(), sep),
        join(parts, sep) == join(parts.drop_last(), sep) + sep + parts.last(),
{
    lemma_join_split(seq![parts.first()], parts.drop_first(), sep);
    assert(seq![parts.first()] + parts.drop_first() == parts);
}

/// Appending a separator after every part and then taking the last separator
/// away again gives the joined text.
pub proof fn lemma_terminated_is_join(parts: Seq<Seq<char>>, sep: Seq<char>)
    requires
        parts.len() > 0,
    ensures
        terminated(parts, sep) == join(parts, sep) + sep,
        terminated(parts, sep).subrange(0, terminated(parts, sep).len() - sep.len()) == join(
            parts,
            sep,
        ),
    decreases parts.len(),
{
    if parts.len() == 1 {
        assert(terminated(parts.drop_last(), sep) == Seq::<char>::empty());
    } else {
        lemma_terminated_is_join(parts.drop_last(), sep);
    }
}

/// One more level of indentation is two more spaces.
pub proof fn lemma_indent_step(depth: int)
    requires
        depth >= 0,
    ensures
        indent_text(depth + 1) == indent_text(depth) + seq![' ', ' '],
{
}

/// The characters of `s`, in a vector.
pub fn chars_of(s: &str) -> (chars: Vec<char>)
    ensures
        chars@ == s@,
{
    let mut chars: Vec<char> = Vec::new();
    for c in it: s.chars()
        invariant
            chars@ == it.seq().take(it.index() as int),
            it.seq() == s@,
    {
        chars.push(c);
    }
    chars
}

/// The text that indents a line at `depth`.
pub fn indentation(depth: i64) -> (out: String)
    ensures
        out@ == indent_text(depth as int),
{
    let mut out = String::new();
    let mut level: i64 = 0;
    while level < depth
        invariant
            0 <= level,
            depth >= 0 ==> level <= depth,
            depth < 0 ==> level == 0,
            out@ == indent_text(level as int),
        decreases depth - level,
    {
        out.push(' ');
        out.push(' ');
        proof {
            lemma_indent_step(level as int);
        }
        level = level + 1;
    }
    out
}

/// The character of one decimal digit.
fn digit_of(d: u64) -> (c: char)
    requires
        d < 10,
    ensures
        c == digit_char(d as int),
{
    if d == 0 {
        '0'
    } else if d == 1 {
        '1'
    } else if d == 2 {
        '2'
    } else if d == 3 {
        '3'
    } else if d == 4 {
        '4'
    } else if d == 5 {
        '5'
    } else if d == 6 {
        '6'
    } else if d == 7 {
        '7'
    } else if d == 8 {
        '8'
    } else {
        '9'
    }
}

/// Appends the decimal digits of `n` to `out`.
pub fn push_decimal(out: &mut String, n: u64)
    ensures
        final(out)@ == old(out)@ + decimal_text(n as nat),
    decreases n,
{
    if n >= 10 {
        push_decimal(out, n / 10);
    }
    out.push(digit_of(n % 10));
}

/// Appends the decimal form of `n`, with its sign, to `out`.
pub fn push_signed_decimal(out: &mut String, n: i64)
    ensures
        final(out)@ == old(out)@ + signed_decimal_text(n as int),
{
    if n < 0 {
        out.push('-');
        let magnitude: u64 = ((-(n + 1)) as u64) + 1;
        push_decimal(out, magnitude);
    } else {
        push_decimal(out, n as u64);
    }
}

} // verus!
