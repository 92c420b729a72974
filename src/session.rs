//! The terminal session as its host sees it: a title, a status, and the
//! channel through which keystrokes and control messages go to the I/O loop.
use vstd::prelude::*;

use crate::channel::{queued_after, ChannelError, Command, CommandChannel};

verus! {

/// Whether the process behind the session still runs.
#[derive(Clone, Copy, Debug, PartialEq, Eq, Structural)]
pub enum Status {
    Running,
    /// The process has exited, with this code.
    Exited(i32),
}

/// The columns and rows of cell size `(cell_width, cell_height)` that fit in
/// `(width, height)` pixels: at least two columns and one row, the engine's
/// minimum, and at most what a terminal size can hold.
pub open spec fn cells_in(width: u32, height: u32, cell_width: u32, cell_height: u32) -> (u16, u16) {
    (fit_cells(width, cell_width, 2), fit_cells(height, cell_height, 1))
}

/// The whole cells of `cell` pixels in `pixels`, kept within
/// `least..=u16::MAX`.
pub open spec fn fit_cells(pixels: u32, cell: u32, least: u16) -> u16 {
    let n = pixels / cell;
    if n < least {
        least
    } else if n > 0xffff {
        0xffff
    } else {
        n as u16
    }
}

/// Turns the pixel bounds of the hosting container into a terminal size.
pub fn grid_size_for(width: u32, height: u32, cell_width: u32, cell_height: u32) -> (r: (u16, u16))
    requires
        cell_width >= 1,
        cell_height >= 1,
    ensures
        r == cells_in(width, height, cell_width, cell_height),
        r.0 >= 2 && r.1 >= 1,
{
    (fit(width, cell_width, 2), fit(height, cell_height, 1))
}

fn fit(pixels: u32, cell: u32, least: u16) -> (r: u16)
    requires
        cell >= 1,
    ensures
        r == fit_cells(pixels, cell, least),
        r >= least,
{
    let n = pixels / cell;
    if n < least as u32 {
        least
    } else if n > 0xffff {
        0xffff
    } else {
        n as u16
    }
}

/// A terminal session: what the foreground holds of it.
pub struct ZedTerminal {
    title: String,
    status: Status,
    channel: CommandChannel,
}

impl ZedTerminal {
    /// The title shown for the session.
    pub closed spec fn title_spec(&self) -> Seq<char> {
        self.title@
    }

    /// Whether the process still runs.
    pub closed spec fn status_spec(&self) -> Status {
        self.status
    }

    /// The commands not yet taken by the I/O loop, oldest first.
    pub closed spec fn pending(&self) -> Seq<Command> {
        self.channel.pending()
    }

    /// Whether the I/O loop has stopped taking commands.
    pub closed spec fn is_closed(&self) -> bool {
        self.channel.is_closed_spec()
    }

    /// A running session titled "Terminal" with nothing queued.
    pub fn new() -> (r: ZedTerminal)
        ensures
            r.title_spec() == "Terminal"@,
            r.status_spec() == Status::Running,
            r.pending() == Seq::<Command>::empty(),
            !r.is_closed(),
    {
        ZedTerminal { title: "Terminal".to_owned(), status: Status::Running, channel: CommandChannel::new() }
    }

    /// The session's title.
    pub fn title(&self) -> (r: &str)
        ensures
            r@ == self.title_spec(),
    {
        self.title.as_str()
    }

    /// Takes a title set by the program running in the terminal.
    pub fn set_title(&mut self, title: String)
        ensures
            final(self).title_spec() == title@,
            final(self).status_spec() == old(self).status_spec(),
            final(self).pending() == old(self).pending(),
            final(self).is_closed() == old(self).is_closed(),
    {
        self.title = title;
    }

    /// Whether the process still runs.
    pub fn status(&self) -> (r: Status)
        ensures
            r == self.status_spec(),
    {
        self.status
    }

    fn enqueue(&mut self, cmd: Command) -> (r: Result<(), ChannelError>)
        ensures
            final(self).title_spec() == old(self).title_spec(),
            final(self).status_spec() == old(self).status_spec(),
            final(self).is_closed() == (old(self).is_closed() || cmd is Shutdown),
            old(self).is_closed() ==> r == Err::<(), ChannelError>(ChannelError::Closed)
                && final(self).pending() == old(self).pending(),
            !old(self).is_closed() ==> r == Ok::<(), ChannelError>(())
                && final(self).pending() == queued_after(old(self).pending(), cmd),
    {
        self.channel.send(cmd)
    }

    /// Queues bytes, such as keystrokes, for the process. Returns at once:
    /// `Ok` while the channel is open, `Closed` once a shutdown was queued or
    /// the loop has stopped.
    pub fn send(&mut self, bytes: Vec<u8>) -> (r: Result<(), ChannelError>)
        ensures
            final(self).title_spec() == old(self).title_spec(),
            final(self).status_spec() == old(self).status_spec(),
            final(self).is_closed() == old(self).is_closed(),
            old(self).is_closed() ==> r == Err::<(), ChannelError>(ChannelError::Closed)
                && final(self).pending() == old(self).pending(),
            !old(self).is_closed() ==> r == Ok::<(), ChannelError>(())
                && final(self).pending() == old(self).pending().push(Command::Input(bytes)),
    {
        self.enqueue(Command::Input(bytes))
    }

    /// Asks for a new size of grid and terminal; one below two columns and
    /// one row is refused.
    pub fn resize(&mut self, columns: u16, rows: u16) -> (r: Result<(), ChannelError>)
        ensures
            final(self).title_spec() == old(self).title_spec(),
            final(self).status_spec() == old(self).status_spec(),
            final(self).is_closed() == old(self).is_closed(),
            (columns < 2 || rows < 1) ==> r == Err::<(), ChannelError>(ChannelError::TooSmall)
                && final(self).pending() == old(self).pending(),
            columns >= 2 && rows >= 1 && old(self).is_closed() ==> r == Err::<(), ChannelError>(ChannelError::Closed)
                && final(self).pending() == old(self).pending(),
            columns >= 2 && rows >= 1 && !old(self).is_closed() ==> r == Ok::<(), ChannelError>(())
                && final(self).pending() == old(self).pending().push(
                Command::Resize { columns, rows },
            ),
    {
        if columns < 2 || rows < 1 {
            return Err(ChannelError::TooSmall);
        }
        self.enqueue(Command::Resize { columns, rows })
    }

    /// Asks the I/O loop to stop writing, flush what it has read and stop.
    /// Input still waiting is dropped, and from then on the session refuses
    /// input, so nothing more reaches the process.
    pub fn close(&mut self) -> (r: Result<(), ChannelError>)
        ensures
            final(self).title_spec() == old(self).title_spec(),
            final(self).status_spec() == old(self).status_spec(),
            final(self).is_closed(),
            old(self).is_closed() ==> r == Err::<(), ChannelError>(ChannelError::Closed)
                && final(self).pending() == old(self).pending(),
            !old(self).is_closed() ==> r == Ok::<(), ChannelError>(())
                && final(self).pending() == queued_after(old(self).pending(), Command::Shutdown),
    {
        self.enqueue(Command::Shutdown)
    }

    /// Takes the oldest queued command for the I/O loop.
    pub fn next_command(&mut self) -> (r: Option<Command>)
        ensures
            final(self).title_spec() == old(self).title_spec(),
            final(self).status_spec() == old(self).status_spec(),
            final(self).is_closed() == old(self).is_closed(),
            old(self).pending().len() == 0 ==> r.is_none() && final(self).pending()
                == old(self).pending(),
            old(self).pending().len() > 0 ==> r == Some(old(self).pending()[0])
                && final(self).pending() == old(self).pending().drop_first(),
    {
        self.channel.recv()
    }

    /// Records that the process exited: the status says so, and the channel
    /// closes, so that later sends report it.
    pub fn mark_exited(&mut self, code: i32)
        ensures
            final(self).title_spec() == old(self).title_spec(),
            final(self).status_spec() == Status::Exited(code),
            final(self).is_closed(),
            final(self).pending() == Seq::<Command>::empty(),
    {
        self.status = Status::Exited(code);
        self.channel.close();
    }
}

} // verus!
