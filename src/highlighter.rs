//! A highlighter that goes over the lines of a text one at a time, in order,
//! and marks each line that differs from the line at the same index of a
//! reference text.
use std::ops::Range;
use vstd::prelude::*;

use crate::lines::{is_blank, is_blank_line, lines_of, same_text, split_lines};

verus! {

/// What a highlight says of the bytes it spans.
#[derive(Debug, Clone, Copy, PartialEq, Eq, Structural)]
pub enum LineMark {
    /// The line differs from the reference line at its index.
    Different,
}

/// The state of a highlighter as the contracts see it: the reference text and
/// the index of the next line to be highlighted.
pub type HighlighterState = (Seq<char>, int);

/// The reference line at `index`, if the reference has that many lines.
pub open spec fn reference_line(reference: Seq<char>, index: int) -> Option<Seq<char>> {
    if 0 <= index < lines_of(reference).len() {
        Some(lines_of(reference)[index])
    } else {
        None
    }
}

/// Whether `line` is marked against the reference line `reference`: it must
/// not be blank, and it must differ from the reference line, or have none.
pub open spec fn marks(line: Seq<char>, reference: Option<Seq<char>>) -> bool {
    let different = match reference {
        Some(r) => line != r,
        None => !is_blank(line),
    };
    different && !is_blank(line)
}

/// Whether a highlighter in `state` marks `line`.
pub open spec fn marks_in(state: HighlighterState, line: Seq<char>) -> bool {
    marks(line, reference_line(state.0, state.1))
}

/// The state of a highlighter made for `reference`.
pub open spec fn fresh(reference: Seq<char>) -> HighlighterState {
    (reference, 0)
}

/// `state` with its cursor moved to `index`.
pub open spec fn with_cursor(state: HighlighterState, index: int) -> HighlighterState {
    (state.0, index)
}

/// The state after highlighting `lines` one after the other from `state`.
pub open spec fn after(state: HighlighterState, lines: Seq<Seq<char>>) -> HighlighterState {
    (state.0, state.1 + lines.len())
}

/// For each of `lines`, highlighted one after the other from `state`, whether
/// it is marked.
pub open spec fn run(state: HighlighterState, lines: Seq<Seq<char>>) -> Seq<bool> {
    Seq::new(lines.len(), |i: int| marks_in(with_cursor(state, state.1 + i), lines[i]))
}

/// How many of `marked` are true.
pub open spec fn count_marked(marked: Seq<bool>) -> nat
    decreases marked.len(),
{
    if marked.len() == 0 {
        0
    } else {
        count_marked(marked.drop_last()) + if marked.last() {
            1nat
        } else {
            0nat
        }
    }
}

/// The view of an optional borrowed line.
pub open spec fn line_view(reference: Option<&str>) -> Option<Seq<char>> {
    match reference {
        Some(r) => Some(r@),
        None => None,
    }
}

/// Whether `line` is marked against the reference line `reference` (`None`
/// where the reference has no line at that index).
pub fn line_marked(line: &str, reference: Option<&str>) -> (marked: bool)
    ensures
        marked == marks(line@, line_view(reference)),
{
    let different = match reference {
        Some(r) => !same_text(line, r),
        None => !is_blank_line(line),
    };
    different && !is_blank_line(line)
}

/// Marks the lines of a text that differ from the lines of `right_text`, one
/// line per call, at the index `current_line`.
#[derive(Debug, Clone)]
pub struct LineComparerHighlighter {
    pub right_text: String,
    pub current_line: usize,
}

impl View for LineComparerHighlighter {
    type V = HighlighterState;

    open spec fn view(&self) -> HighlighterState {
        (self.right_text@, self.current_line as int)
    }
}

impl LineComparerHighlighter {
    /// A highlighter against `settings`, the reference text, at line 0.
    pub fn new(settings: &String) -> (h: Self)
        ensures
            h@ == fresh(settings@),
    {
        LineComparerHighlighter { right_text: settings.clone(), current_line: 0 }
    }

    /// Takes `new_settings` as the reference text; the cursor stays.
    pub fn update(&mut self, new_settings: &String)
        ensures
            final(self)@ == (new_settings@, old(self)@.1),
    {
        self.right_text = new_settings.clone();
    }

    /// Moves the cursor to `line`.
    pub fn change_line(&mut self, line: usize)
        ensures
            final(self)@ == with_cursor(old(self)@, line as int),
    {
        self.current_line = line;
    }

    /// Highlights `line` as the line at the cursor, and moves the cursor on
    /// by one. A marked line gets one highlight over all of its bytes, an
    /// unmarked one none.
    pub fn highlight_line(&mut self, line: &str) -> (highlights: Vec<(Range<usize>, LineMark)>)
        requires
            old(self).current_line < usize::MAX,
        ensures
            final(self)@ == after(old(self)@, seq![line@]),
            marks_in(old(self)@, line@) ==> highlights@.len() == 1 && highlights@[0].0.start == 0
                && highlights@[0].0.end == line.len() && highlights@[0].1
                == LineMark::Different,
            !marks_in(old(self)@, line@) ==> highlights@.len() == 0,
    {
        let marked = {
            let right_lines = split_lines(self.right_text.as_str());
            proof {
                assert(right_lines@.len() == lines_of(self.right_text@).len());
            }
            let reference: Option<&str> = if self.current_line < right_lines.len() {
                Some(right_lines[self.current_line])
            } else {
                None
            };
            proof {
                if self.current_line < right_lines.len() {
                    assert(right_lines@.map_values(|l: &str| l@)[self.current_line as int]
                        == right_lines@[self.current_line as int]@);
                }
            }
            line_marked(line, reference)
        };
        let mut highlights: Vec<(Range<usize>, LineMark)> = Vec::new();
        if marked {
            highlights.push((0..line.len(), LineMark::Different));
        }
        self.current_line = self.current_line + 1;
        highlights
    }

    /// The index of the next line to be highlighted.
    pub fn current_line(&self) -> (line: usize)
        ensures
            line as int == self@.1,
    {
        self.current_line
    }
}

/// Going over `lines` one at a time gives, for each, what `run` gives for it:
/// the marks of a pass are those of its first lines followed by that of the
/// next line, highlighted in the state the first ones left.
pub proof fn lemma_run_push(state: HighlighterState, lines: Seq<Seq<char>>, line: Seq<char>)
    ensures
        run(state, lines.push(line)) == run(state, lines).push(
            marks_in(after(state, lines), line),
        ),
{
    assert(run(state, lines.push(line)) =~= run(state, lines).push(
        marks_in(after(state, lines), line),
    ));
}

/// Restarting is deterministic: after a pass over the first `k` of `lines`
/// from any state, moving the cursor back to line 0 and going over `lines`
/// again marks exactly what a highlighter newly made for the same reference
/// marks.
pub proof fn law_restart_reproduces_pass(state: HighlighterState, lines: Seq<Seq<char>>, k: int)
    requires
        0 <= k <= lines.len(),
    ensures
        run(with_cursor(after(state, lines.take(k)), 0), lines) == run(fresh(state.0), lines),
{
    assert(run(with_cursor(after(state, lines.take(k)), 0), lines) =~= run(fresh(state.0), lines));
}

} // verus!
