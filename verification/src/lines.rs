//! Counting the lines of a file's content.

use vstd::prelude::*;

verus! {

/// The byte that ends a line.
pub const NEWLINE: u8 = 10;

/// The number of line ends in `bytes`.
pub open spec fn newline_count(bytes: Seq<u8>) -> nat
    decreases bytes.len(),
{
    if bytes.len() == 0 {
        0
    } else {
        newline_count(bytes.drop_last()) + if bytes.last() == NEWLINE {
            1nat
        } else {
            0nat
        }
    }
}

/// The number of lines in `bytes`: one per line end, and one more for what
/// follows the last line end, if anything does.
pub open spec fn line_count(bytes: Seq<u8>) -> nat {
    newline_count(bytes) + if bytes.len() > 0 && bytes.last() != NEWLINE {
        1nat
    } else {
        0nat
    }
}

/// Whether `line` holds no line end.
pub open spec fn is_single_line(line: Seq<u8>) -> bool {
    forall|i: int| 0 <= i < line.len() ==> line[i] != NEWLINE
}

/// The content of a file whose lines are `lines`, each followed by a line end.
pub open spec fn terminated_lines(lines: Seq<Seq<u8>>) -> Seq<u8>
    decreases lines.len(),
{
    if lines.len() == 0 {
        Seq::empty()
    } else {
        terminated_lines(lines.drop_last()) + lines.last() + seq![NEWLINE]
    }
}

/// There are no more line ends than bytes.
pub proof fn lemma_newline_count_bound(bytes: Seq<u8>)
    ensures
        newline_count(bytes) <= bytes.len(),
    decreases bytes.len(),
{
    if bytes.len() > 0 {
        lemma_newline_count_bound(bytes.drop_last());
    }
}

/// The line ends of two pieces add up.
pub proof fn lemma_newline_count_concat(front: Seq<u8>, back: Seq<u8>)
    ensures
        newline_count(front + back) == newline_count(front) + newline_count(back),
    decreases back.len(),
{
    if back.len() == 0 {
        assert(front + back =~= front);
    } else {
        assert((front + back).drop_last() =~= front + back.drop_last());
        lemma_newline_count_concat(front, back.drop_last());
    }
}

/// A piece without a line end counts none.
pub proof fn lemma_single_line_has_no_newline(line: Seq<u8>)
    requires
        is_single_line(line),
    ensures
        newline_count(line) == 0,
    decreases line.len(),
{
    if line.len() > 0 {
        lemma_single_line_has_no_newline(line.drop_last());
    }
}

/// Content written line by line, every line ended, counts exactly the lines
/// written: for a file of a header line and data rows, the rows and one more.
pub proof fn lemma_line_count_of_terminated_lines(lines: Seq<Seq<u8>>)
    requires
        forall|i: int| 0 <= i < lines.len() ==> is_single_line(#[trigger] lines[i]),
    ensures
        line_count(terminated_lines(lines)) == lines.len(),
        newline_count(terminated_lines(lines)) == lines.len(),
    decreases lines.len(),
{
    if lines.len() > 0 {
        let front = terminated_lines(lines.drop_last());
        lemma_line_count_of_terminated_lines(lines.drop_last());
        lemma_single_line_has_no_newline(lines.last());
        lemma_newline_count_concat(front, lines.last());
        lemma_newline_count_concat(front + lines.last(), seq![NEWLINE]);
        assert(seq![NEWLINE].drop_last() =~= Seq::<u8>::empty());
        assert(newline_count(seq![NEWLINE]) == 1) by {
            reveal_with_fuel(newline_count, 2);
        }
    }
}

/// A last line counts without its line end too, as long as it is not empty.
pub proof fn lemma_line_count_with_open_last_line(lines: Seq<Seq<u8>>, last: Seq<u8>)
    requires
        forall|i: int| 0 <= i < lines.len() ==> is_single_line(#[trigger] lines[i]),
        is_single_line(last),
        last.len() > 0,
    ensures
        line_count(terminated_lines(lines) + last) == lines.len() + 1,
{
    lemma_line_count_of_terminated_lines(lines);
    lemma_single_line_has_no_newline(last);
    lemma_newline_count_concat(terminated_lines(lines), last);
    assert((terminated_lines(lines) + last).last() == last.last());
}

/// Counts the lines of `content`, the header line included.
pub fn count_lines(content: &[u8]) -> (count: usize)
    ensures
        count == line_count(content@),
{
    let mut count: usize = 0;
    let mut i: usize = 0;
    while i < content.len()
        invariant
            i <= content@.len(),
            count == newline_count(content@.take(i as int)),
        decreases content@.len() - i,
    {
        proof {
            lemma_newline_count_bound(content@.take(i as int));
            assert(content@.take(i + 1).drop_last() =~= content@.take(i as int));
        }
        if content[i] == NEWLINE {
            count = count + 1;
        }
        i = i + 1;
    }
    proof {
        assert(content@.take(i as int) =~= content@);
        lemma_newline_count_bound(content@.drop_last());
    }
    if content.len() > 0 && content[content.len() - 1] != NEWLINE {
        count = count + 1;
    }
    count
}

} // verus!
