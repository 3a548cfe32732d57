use vstd::prelude::*;

verus! {

/// A source location supplied by the upstream lexing and parsing phases.
///
/// The diagnostic subsystem only carries positions; it never computes them.
#[derive(Clone, Copy, Debug, PartialEq, Eq, Structural)]
pub struct Pos {
    /// One-based line of the construct the diagnostic points at.
    pub line: usize,
    /// One-based column within that line.
    pub column: usize,
}

impl Pos {
    /// Builds the position for the given line and column.
    pub fn new(line: usize, column: usize) -> (p: Pos)
        ensures
            p == (Pos { line, column }),
    {
        Pos { line, column }
    }
}

} // verus!
