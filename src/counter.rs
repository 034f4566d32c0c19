//! The number of lines in which two texts differ, lines being aligned by index.
use vstd::prelude::*;

use crate::highlighter::{count_marked, fresh, marks_in, run};
use crate::lines::{is_blank, is_blank_line, lines_of, same_text, split_lines};

verus! {

/// Line `i` of `lines`, or the empty line where `lines` has none.
pub open spec fn line_or_empty(lines: Seq<Seq<char>>, i: int) -> Seq<char> {
    if 0 <= i < lines.len() {
        lines[i]
    } else {
        Seq::empty()
    }
}

/// Whether the lines at index `i` count as a difference: the left one differs
/// from the right one and is not blank.
pub open spec fn differs_at(left: Seq<Seq<char>>, right: Seq<Seq<char>>, i: int) -> bool {
    line_or_empty(left, i) != line_or_empty(right, i) && !is_blank(line_or_empty(left, i))
}

/// How many indices below `n` count as a difference.
pub open spec fn differences_below(left: Seq<Seq<char>>, right: Seq<Seq<char>>, n: int) -> nat
    decreases n,
{
    if n <= 0 {
        0
    } else {
        differences_below(left, right, n - 1) + if differs_at(left, right, n - 1) {
            1nat
        } else {
            0nat
        }
    }
}

/// The number of lines in which `left` differs from `right`, over every index
/// that either text has a line at.
pub open spec fn difference_count(left: Seq<char>, right: Seq<char>) -> nat {
    let l = lines_of(left);
    let r = lines_of(right);
    differences_below(l, r, if l.len() >= r.len() { l.len() as int } else { r.len() as int })
}

/// The number of indices at which the line of `left_text` is not blank and
/// differs from the line of `right_text`, a missing line being empty.
pub fn count_different_lines(left_text: &str, right_text: &str) -> (count: usize)
    ensures
        count == difference_count(left_text@, right_text@),
{
    let left_lines = split_lines(left_text);
    let right_lines = split_lines(right_text);
    let ghost left = left_lines@.map_values(|l: &str| l@);
    let ghost right = right_lines@.map_values(|l: &str| l@);
    assert forall|j: int| 0 <= j < left.len() implies #[trigger] left[j] == left_lines@[j]@ by {}
    assert forall|j: int| 0 <= j < right.len() implies #[trigger] right[j] == right_lines@[j]@ by {}
    let empty = "";
    proof {
        reveal_strlit("");
    }
    let max_lines = if left_lines.len() >= right_lines.len() {
        left_lines.len()
    } else {
        right_lines.len()
    };
    let mut count: usize = 0;
    let mut i: usize = 0;
    while i < max_lines
        invariant
            left == lines_of(left_text@),
            right == lines_of(right_text@),
            left.len() == left_lines@.len(),
            right.len() == right_lines@.len(),
            forall|j: int| 0 <= j < left.len() ==> #[trigger] left[j] == left_lines@[j]@,
            forall|j: int| 0 <= j < right.len() ==> #[trigger] right[j] == right_lines@[j]@,
            max_lines as int == if left.len() >= right.len() { left.len() as int } else { right.len() as int },
            empty@ == Seq::<char>::empty(),
            i <= max_lines,
            count <= i,
            count == differences_below(left, right, i as int),
        decreases max_lines - i,
    {
        let left_line: &str = if i < left_lines.len() { left_lines[i] } else { empty };
        let right_line: &str = if i < right_lines.len() { right_lines[i] } else { empty };
        proof {
            assert(left_line@ == line_or_empty(left, i as int));
            assert(right_line@ == line_or_empty(right, i as int));
        }
        if !same_text(left_line, right_line) && !is_blank_line(left_line) {
            count = count + 1;
        }
        i = i + 1;
    }
    count
}

/// A text differs from itself in no line.
pub proof fn law_no_differences_with_itself(text: Seq<char>)
    ensures
        difference_count(text, text) == 0,
{
    let l = lines_of(text);
    lemma_same_lines_no_differences(l, l.len() as int);
}

proof fn lemma_same_lines_no_differences(lines: Seq<Seq<char>>, n: int)
    ensures
        differences_below(lines, lines, n) == 0,
    decreases n,
{
    if n > 0 {
        lemma_same_lines_no_differences(lines, n - 1);
    }
}

/// Past the last line of `left` nothing counts: the empty line is blank.
proof fn lemma_no_differences_past_left(left: Seq<Seq<char>>, right: Seq<Seq<char>>, n: int)
    requires
        n >= left.len(),
    ensures
        differences_below(left, right, n) == differences_below(left, right, left.len() as int),
    decreases n,
{
    if n > left.len() {
        assert(is_blank(line_or_empty(left, n - 1)));
        lemma_no_differences_past_left(left, right, n - 1);
    }
}

/// Within `left`, an index counts exactly where the highlighter marks it.
proof fn lemma_differences_are_marks(left: Seq<Seq<char>>, right: Seq<char>, n: int)
    requires
        0 <= n <= left.len(),
    ensures
        differences_below(left, lines_of(right), n) == count_marked(
            run(fresh(right), left).take(n),
        ),
    decreases n,
{
    let marked = run(fresh(right), left);
    if n > 0 {
        lemma_differences_are_marks(left, right, n - 1);
        assert(marked.take(n).drop_last() =~= marked.take(n - 1));
        let line = left[n - 1];
        assert(marked.take(n).last() == marks_in((right, n - 1), line));
        if !is_blank(line) {
            assert(line.len() > 0);
        }
    } else {
        assert(marked.take(n) =~= Seq::<bool>::empty());
    }
}

/// The count and the highlighter agree: the number of differing lines of
/// `left` against `right` is the number of lines that a highlighter made for
/// `right` marks when it goes over the lines of `left` in order.
pub proof fn law_count_matches_highlighter(left: Seq<char>, right: Seq<char>)
    ensures
        difference_count(left, right) == count_marked(run(fresh(right), lines_of(left))),
{
    let l = lines_of(left);
    let r = lines_of(right);
    let n = if l.len() >= r.len() { l.len() as int } else { r.len() as int };
    lemma_no_differences_past_left(l, r, n);
    lemma_differences_are_marks(l, right, l.len() as int);
    assert(run(fresh(right), l).take(l.len() as int) =~= run(fresh(right), l));
}

} // verus!
