//! Projection of a grid snapshot into display lines for the rendering layer.
use vstd::prelude::*;

use crate::grid::Snapshot;

verus! {

/// One line of characters per row of the snapshot, top to bottom. Reads
/// only the copy, so it may run while the grid itself keeps changing.
pub fn project(snapshot: &Snapshot) -> (lines: Vec<Vec<char>>)
    requires
        snapshot.wf(),
    ensures
        lines@.len() == snapshot.rows,
        forall|i: int| 0 <= i < snapshot.rows ==> (#[trigger] lines@[i])@ == snapshot.line(i),
{
    let ghost cols = snapshot.columns as int;
    let cols_u: usize = snapshot.columns as usize;
    let mut lines: Vec<Vec<char>> = Vec::new();
    let mut i: usize = 0;
    while i < snapshot.rows as usize
        invariant
            snapshot.wf(),
            cols == snapshot.columns as int,
            cols_u == cols,
            0 <= i <= snapshot.rows,
            lines@.len() == i,
            forall|a: int| 0 <= a < i ==> (#[trigger] lines@[a])@ == snapshot.line(a),
        decreases snapshot.rows - i,
    {
        proof {
            assert(i as int * cols + cols <= snapshot.rows as int * cols) by (nonlinear_arith)
                requires
                    0 <= i < snapshot.rows,
                    cols >= 0,
            ;
            assert(snapshot.rows as int * cols <= 0xffff * 0xffff) by (nonlinear_arith)
                requires
                    snapshot.rows <= 0xffff,
                    0 <= cols <= 0xffff,
            ;
        }
        let start: usize = i * cols_u;
        let mut line: Vec<char> = Vec::new();
        let mut j: usize = 0;
        while j < cols_u
            invariant
                snapshot.wf(),
                cols == snapshot.columns as int,
                cols_u == cols,
                0 <= i < snapshot.rows,
                start == i as int * cols,
                start + cols <= snapshot.cells@.len(),
                start + cols <= 0xffff * 0xffff,
                0 <= j <= cols,
                line@ == snapshot.cells@.subrange(start as int, start + j),
            decreases cols - j,
        {
            line.push(snapshot.cells[start + j]);
            assert(line@ =~= snapshot.cells@.subrange(start as int, start + j + 1));
            j = j + 1;
        }
        lines.push(line);
        i = i + 1;
    }
    lines
}

} // verus!
