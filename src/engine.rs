//! The terminal-emulation engine: alacritty's `Term` grid and vte's escape
//! parser, seen through the few calls the library makes into them.
use vstd::prelude::*;

use alacritty_terminal::event::VoidListener;
use alacritty_terminal::index::{Column, Line};
use alacritty_terminal::term::test::TermSize;
use alacritty_terminal::term::Config;
use alacritty_terminal::vte::ansi::{Processor, StdSyncHandler};
use alacritty_terminal::Term;

verus! {

#[verifier::external_type_specification]
#[verifier::external_body]
#[verifier::reject_recursive_types(T)]
pub struct ExTerm<T>(Term<T>);

/// vte's escape-sequence parser, which carries partial sequences from one
/// chunk of bytes to the next. Held opaquely: Verus refuses a declaration of
/// `Processor`, whose parameter is bounded by vte's `Timeout` trait.
#[verifier::external_body]
pub struct EscapeParser {
    inner: Processor<StdSyncHandler>,
}

#[verifier::external_type_specification]
#[verifier::external_body]
pub struct ExVoidListener(VoidListener);

/// The characters of the active screen of a terminal grid, row by row from
/// the top: what the engine holds after parsing everything fed to it.
pub uninterp spec fn screen_of(t: Term<VoidListener>) -> Seq<Seq<char>>;

/// The characters of the active screen after the parser `p` has fed
/// `bytes` to the grid `t`.
pub uninterp spec fn screen_after(t: Term<VoidListener>, p: EscapeParser, bytes: Seq<u8>) -> Seq<Seq<char>>;

/// The characters of the active screen once the grid `t` was resized to
/// `cols` by `rows` and its content reflowed.
pub uninterp spec fn screen_resized(t: Term<VoidListener>, cols: u16, rows: u16) -> Seq<Seq<char>>;

/// A screen with exactly `rows` rows of `cols` cells each.
pub open spec fn has_shape(s: Seq<Seq<char>>, cols: nat, rows: nat) -> bool {
    &&& s.len() == rows
    &&& forall|i: int| 0 <= i < rows ==> (#[trigger] s[i]).len() == cols
}

/// Relies on `Term::new` with `TermSize`: the grid is allocated with the
/// given columns and screen lines, every cell holding the default blank.
/// The engine needs two columns at least, to hold a double-width character.
#[verifier::external_body]
pub(crate) fn new_screen(cols: u16, rows: u16) -> (r: Term<VoidListener>)
    requires
        cols >= 2,
        rows >= 1,
    ensures
        has_shape(screen_of(r), cols as nat, rows as nat),
        forall|i: int, j: int|
            0 <= i < rows && 0 <= j < cols ==> screen_of(r)[i][j] == ' ',
{
    Term::new(Config::default(), &TermSize::new(cols as usize, rows as usize), VoidListener)
}

/// Relies on `Term::resize`: both grids take the new columns and screen
/// lines; the content is reflowed as the engine sees fit, and left alone
/// where the size does not change. Below two columns a double-width
/// character is wrapped again and again without end.
#[verifier::external_body]
pub(crate) fn resize_screen(t: &mut Term<VoidListener>, cols: u16, rows: u16)
    requires
        cols >= 2,
        rows >= 1,
    ensures
        has_shape(screen_of(*final(t)), cols as nat, rows as nat),
        screen_of(*final(t)) == screen_resized(*old(t), cols, rows),
        has_shape(screen_of(*old(t)), cols as nat, rows as nat) ==> screen_of(*final(t))
            == screen_of(*old(t)),
{
    t.resize(TermSize::new(cols as usize, rows as usize));
}

/// Relies on `Processor::new`: a parser in its ground state.
#[verifier::external_body]
pub(crate) fn new_parser() -> (r: EscapeParser) {
    EscapeParser { inner: Processor::new() }
}

/// Relies on `Processor::advance` driving `Term` as its handler: escape
/// sequences and text change cells, cursor and modes, never the grid's size.
/// A double-width character needs two columns, else writing its spacer
/// indexes past the row.
#[verifier::external_body]
pub(crate) fn advance(p: &mut EscapeParser, t: &mut Term<VoidListener>, bytes: &[u8])
    requires
        screen_of(*old(t)).len() >= 1,
        forall|i: int| 0 <= i < screen_of(*old(t)).len() ==> (#[trigger] screen_of(*old(t))[i]).len() >= 2,
    ensures
        screen_of(*final(t)) == screen_after(*old(t), *old(p), bytes@),
        forall|c: nat, r: nat|
            has_shape(screen_of(*old(t)), c, r) ==> has_shape(screen_of(*final(t)), c, r),
{
    p.inner.advance(t, bytes);
}

/// Relies on indexing `Term::grid` by `Line` and `Column`: the character of
/// one cell of the active screen, counted from the top-left corner.
#[verifier::external_body]
pub(crate) fn cell_at(t: &Term<VoidListener>, row: u16, col: u16) -> (r: char)
    requires
        row < screen_of(*t).len(),
        col < screen_of(*t)[row as int].len(),
    ensures
        r == screen_of(*t)[row as int][col as int],
{
    t.grid()[Line(row as i32)][Column(col as usize)].c
}

} // verus!
