use vstd::prelude::*;

verus! {

/// A location in the parsed text: a line counter and a column counter.
///
/// Both counters saturate at `usize::MAX` instead of wrapping, so a
/// position never moves backwards.
#[derive(Debug, Clone, Copy, PartialEq, Eq)]
pub struct FilePos {
    pub line: usize,
    pub column: usize,
}

/// `n + 1`, held at `usize::MAX`.
pub open spec fn bump(n: usize) -> usize {
    if n < usize::MAX {
        (n + 1) as usize
    } else {
        n
    }
}

/// The position after consuming one character `c` at `p`: a newline moves
/// to column 0 of the next line, any other character moves one column on.
pub open spec fn step_pos(p: FilePos, c: char) -> FilePos {
    if c == '\n' {
        FilePos { line: bump(p.line), column: 0 }
    } else {
        FilePos { line: p.line, column: bump(p.column) }
    }
}

/// The position after consuming every character of `s`, in order, from `p`.
pub open spec fn advance(p: FilePos, s: Seq<char>) -> FilePos
    decreases s.len(),
{
    if s.len() == 0 {
        p
    } else {
        step_pos(advance(p, s.drop_last()), s.last())
    }
}

/// On a text without newlines, consuming it moves the column by its length
/// and keeps the line, as long as the column does not reach its limit.
pub proof fn lemma_advance_flat(p: FilePos, s: Seq<char>)
    requires
        !s.contains('\n'),
        p.column + s.len() <= usize::MAX,
    ensures
        advance(p, s) == (FilePos { line: p.line, column: (p.column + s.len()) as usize }),
    decreases s.len(),
{
    if s.len() > 0 {
        assert(!s.drop_last().contains('\n')) by {
            if s.drop_last().contains('\n') {
                let k = choose|k: int| 0 <= k < s.drop_last().len() && s.drop_last()[k] == '\n';
                assert(s[k] == '\n');
            }
        }
        lemma_advance_flat(p, s.drop_last());
        assert(s.last() != '\n') by {
            assert(s[s.len() - 1] == s.last());
        }
    }
}

impl FilePos {
    pub fn new(line: usize, column: usize) -> (r: Self)
        ensures
            r.line == line,
            r.column == column,
    {
        FilePos { line, column }
    }

    /// One column further on the same line.
    pub fn incr_col(&self) -> (r: Self)
        ensures
            r.line == self.line,
            r.column == bump(self.column),
    {
        FilePos { line: self.line, column: self.column.saturating_add(1) }
    }

    /// The start (column 0) of the next line.
    pub fn incr_line(&self) -> (r: Self)
        ensures
            r.line == bump(self.line),
            r.column == 0,
    {
        FilePos { line: self.line.saturating_add(1), column: 0 }
    }

    /// The position after consuming `c` here.
    pub fn step(&self, c: char) -> (r: Self)
        ensures
            r == step_pos(*self, c),
    {
        if c == '\n' {
            self.incr_line()
        } else {
            self.incr_col()
        }
    }
}

} // verus!
