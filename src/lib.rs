//! Line-by-line comparison of two texts: a count of the lines that differ, and
//! a highlighter that marks them one line at a time.
pub mod counter;
pub mod highlighter;
pub mod lines;

pub use counter::count_different_lines;
pub use highlighter::{line_marked, LineComparerHighlighter, LineMark};
pub use lines::{has_first_line_content, is_blank_line};
